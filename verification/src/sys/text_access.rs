//! What the Accessibility API reports of the selection.

use vstd::prelude::*;

use crate::text::str_eq;

verus! {

pub enum Selection {
    Text(String),
    /// The element supports the attribute and nothing is selected.
    Empty,
    /// The element does not expose its selection (many Electron and web views).
    Unavailable,
}


/// The selected text, when the element reports some.
pub open spec fn selected_text(s: Selection) -> Option<Seq<char>> {
    match s {
        Selection::Text(t) => Some(t@),
        _ => None,
    }
}

/// Whether a write through the Accessibility API took: the element accepted it, and did not
/// ignore it (some apps accept the request and leave the original selected).
pub open spec fn spec_write_took(
    accepted: bool,
    after: Selection,
    original: Seq<char>,
    result: Seq<char>,
) -> bool {
    accepted && !(selected_text(after) matches Some(t) && t == original && t != result)
}

/// Whether a write through the Accessibility API took ([`spec_write_took`]); when it did not,
/// the text is pasted instead.
pub fn write_took(accepted: bool, after: &Selection, original: &str, result: &str) -> (r: bool)
    ensures
        r == spec_write_took(accepted, *after, original@, result@),
{
    if !accepted {
        return false;
    }
    match after {
        Selection::Text(t) => !(str_eq(t.as_str(), original) && !str_eq(t.as_str(), result)),
        _ => true,
    }
}

/// Whether the paste can be watched landing: the element shows the original selected.
pub fn paste_watchable(before: &Selection, original: &str) -> (r: bool)
    ensures
        r == (selected_text(*before) == Some(original@)),
{
    match before {
        Selection::Text(t) => str_eq(t.as_str(), original),
        _ => false,
    }
}

/// Whether a watched paste has landed: the selected original has given way, to the caret
/// or to other text. Only then may the user's pasteboard be put back.
pub open spec fn spec_paste_landed(after: Selection, original: Seq<char>) -> bool {
    match after {
        Selection::Empty => true,
        Selection::Text(t) => t@ != original,
        Selection::Unavailable => false,
    }
}

/// Whether a watched paste has landed ([`spec_paste_landed`]).
pub fn paste_landed(after: &Selection, original: &str) -> (r: bool)
    ensures
        r == spec_paste_landed(*after, original@),
{
    match after {
        Selection::Empty => true,
        Selection::Text(t) => !str_eq(t.as_str(), original),
        Selection::Unavailable => false,
    }
}

/// While the original is still selected, a paste has not landed.
pub proof fn law_paste_not_landed_while_original_selected(after: Selection, original: Seq<char>)
    requires
        selected_text(after) == Some(original),
    ensures
        !spec_paste_landed(after, original),
{
}
} // verus!
