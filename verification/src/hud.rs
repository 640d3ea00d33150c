//! The conversion notice: what it says. Drawing it is the app's business.

use vstd::prelude::*;

use crate::text::{chars_of, extend_chars, opt_view, string_of};

verus! {

/// Isolates a bidirectional run so the two sides of a conversion keep their own
/// direction inside one line, whichever scripts they are.
pub const FSI: char = '\u{2068}';
pub const PDI: char = '\u{2069}';
/// Forces the line's own direction, so the arrow always points the way the UI reads.
pub const RLI: char = '\u{2067}';
pub const LRI: char = '\u{2066}';

#[derive(Clone, Copy, Debug, PartialEq, Eq, Structural)]
pub enum Kind {
    Success,
    Undone,
    Blocked,
    TooLong,
    NoText,
}

/// The SF Symbol each kind shows. State is never carried by colour alone: every kind
/// has its own symbol too.
pub open spec fn spec_symbol_name(kind: Kind) -> Seq<char> {
    match kind {
        Kind::Success => "checkmark.circle.fill"@,
        Kind::Undone => "arrow.uturn.backward"@,
        Kind::Blocked => "lock.fill"@,
        Kind::TooLong => "exclamationmark.triangle.fill"@,
        Kind::NoText => "info.circle"@,
    }
}

impl Kind {
    pub fn symbol_name(self) -> (r: &'static str)
        ensures
            r@ == spec_symbol_name(self),
    {
        match self {
            Kind::Success => "checkmark.circle.fill",
            Kind::Undone => "arrow.uturn.backward",
            Kind::Blocked => "lock.fill",
            Kind::TooLong => "exclamationmark.triangle.fill",
            Kind::NoText => "info.circle",
        }
    }
}

/// One notice to display.
pub struct Notice {
    pub kind: Kind,
    /// The message, already localized.
    pub text: String,
    /// The input source we switched to ("EN" / "ع"), shown as a small badge.
    pub badge: Option<String>,
}

/// A notice as (kind, text, badge).
pub open spec fn notice_view(n: Notice) -> (Kind, Seq<char>, Option<Seq<char>>) {
    (n.kind, n.text@, opt_view(n.badge))
}

/// The conversion line: `from`, an arrow the way the UI reads, and `to`, each side
/// isolated, the whole forced to the UI's direction.
pub open spec fn spec_conversion_line(from: Seq<char>, to: Seq<char>, rtl: bool) -> Seq<char> {
    let (open, arrow) = if rtl {
        (RLI, '←')
    } else {
        (LRI, '→')
    };
    seq![open, FSI] + from + seq![PDI, ' ', arrow, ' ', FSI] + to + seq![PDI, PDI]
}

/// Builds the conversion line with the arrow pointing the way the UI reads.
pub fn conversion_line(from: &str, to: &str, rtl: bool) -> (r: String)
    ensures
        r@ == spec_conversion_line(from@, to@, rtl),
{
    let (open, arrow) = if rtl {
        (RLI, '←')
    } else {
        (LRI, '→')
    };
    let mut line: Vec<char> = Vec::new();
    line.push(open);
    line.push(FSI);
    extend_chars(&mut line, &chars_of(from));
    line.push(PDI);
    line.push(' ');
    line.push(arrow);
    line.push(' ');
    line.push(FSI);
    extend_chars(&mut line, &chars_of(to));
    line.push(PDI);
    line.push(PDI);
    assert(line@ =~= spec_conversion_line(from@, to@, rtl));
    string_of(&line)
}

} // verus!
