//! Keyboard-layout text conversion (Arabic ⇄ Latin).
//!
//! Fixes text typed while the wrong keyboard layout was active: every character
//! is mapped back through the physical key that produced it to what that key
//! produces on the other layout. This is a per-key substitution, not
//! transliteration.
//!
//! The live keyboard layouts are handed in through [`LayoutProvider`];
//! [`StaticLayout`] ships snapshots of the stock macOS layouts as a fallback.

use vstd::prelude::*;

pub mod commands;
pub mod controller;
pub mod convert;
pub mod disambiguate;
pub mod hud;
pub mod laws;
pub mod layout;
pub mod menu_text;
pub mod settings;
pub mod shortcuts;
pub mod state;
pub mod static_layouts;
pub mod sys;
pub mod text;
pub mod tray;
pub mod updater;
pub mod windows;
pub mod words;

pub use convert::{detect_direction, Conversion, Direction};
pub use disambiguate::is_english_word;
pub use layout::{keycodes, Layer, LayoutMap, LayoutProvider, StaticLayout};

verus! {

/// Whether `c` belongs to an Arabic script block (letters, marks, digits, presentation forms).
pub open spec fn spec_is_arabic(c: char) -> bool {
    let u = c as u32;
    ||| 0x0600 <= u <= 0x06FF
    ||| 0x0750 <= u <= 0x077F
    ||| 0x08A0 <= u <= 0x08FF
    ||| 0xFB50 <= u <= 0xFDFF
    ||| 0xFE70 <= u <= 0xFEFF
}

/// Whether `c` belongs to an Arabic script block (letters, marks, digits, presentation forms).
pub fn is_arabic(c: char) -> (r: bool)
    ensures
        r == spec_is_arabic(c),
{
    let u = c as u32;
    (0x0600 <= u && u <= 0x06FF) || (0x0750 <= u && u <= 0x077F) || (0x08A0 <= u && u <= 0x08FF)
        || (0xFB50 <= u && u <= 0xFDFF) || (0xFE70 <= u && u <= 0xFEFF)
}

} // verus!
