//! Showing the global shortcuts the way macOS writes them. Binding them is the app's
//! business.

use vstd::prelude::*;

use crate::text::{
    spec_all_ascii, spec_upper_seq,
    chars_of, extend_chars, lower_chars, spec_lower_seq, spec_split, split_on, str_equals, string_of,
    views,
};

verus! {

/// The glyph macOS draws for a modifier, by its accelerator name (lowercase).
pub open spec fn modifier_glyph(name: Seq<char>) -> Option<char> {
    if name == "control"@ || name == "ctrl"@ {
        Some('⌃')
    } else if name == "alt"@ || name == "option"@ {
        Some('⌥')
    } else if name == "shift"@ {
        Some('⇧')
    } else if name == "command"@ || name == "cmd"@ || name == "super"@ || name == "meta"@ {
        Some('⌘')
    } else {
        None
    }
}

fn modifier_of(name: &Vec<char>) -> (r: Option<char>)
    ensures
        r == modifier_glyph(name@),
{
    if str_equals("control", name) || str_equals("ctrl", name) {
        Some('⌃')
    } else if str_equals("alt", name) || str_equals("option", name) {
        Some('⌥')
    } else if str_equals("shift", name) {
        Some('⇧')
    } else if str_equals("command", name) || str_equals("cmd", name) || str_equals("super", name)
        || str_equals("meta", name) {
        Some('⌘')
    } else {
        None
    }
}

/// The modifier glyphs of an accelerator's parts, in order, and its key: the last part
/// that is not a modifier, or nothing.
pub open spec fn glyph_fold(parts: Seq<Seq<char>>) -> (Seq<char>, Seq<char>)
    decreases parts.len(),
{
    if parts.len() == 0 {
        (Seq::empty(), Seq::empty())
    } else {
        let (out, key) = glyph_fold(parts.drop_last());
        let part = parts.last();
        match modifier_glyph(spec_lower_seq(part)) {
            Some(g) => (out.push(g), key),
            None => (out, part),
        }
    }
}

/// `s` with every leading copy of `pat` removed (`str::trim_start_matches`).
pub open spec fn spec_trim_start(s: Seq<char>, pat: Seq<char>) -> Seq<char>
    decreases s.len(),
{
    if pat.len() > 0 && s.len() >= pat.len() && s.take(pat.len() as int) == pat {
        spec_trim_start(s.skip(pat.len() as int), pat)
    } else {
        s
    }
}

fn trim_start(v: &Vec<char>, pat: &str) -> (r: Vec<char>)
    ensures
        r@ == spec_trim_start(v@, pat@),
{
    let p = chars_of(pat);
    let mut start: usize = 0;
    assert(v@.skip(0) =~= v@);
    while p.len() > 0 && v.len() - start >= p.len() && crate::text::equals_range(&p, v, start, p.len())
        invariant
            start <= v.len(),
            p@ == pat@,
            spec_trim_start(v@.skip(start as int), pat@) == spec_trim_start(v@, pat@),
        decreases v.len() - start,
    {
        assert(v@.skip(start as int).take(p.len() as int) =~= v@.subrange(
            start as int,
            start + p.len(),
        ));
        assert(v@.skip(start as int).skip(p.len() as int) =~= v@.skip(start + p.len()));
        start = start + p.len();
    }
    if p.len() > 0 && v.len() - start >= p.len() {
        assert(v@.skip(start as int).take(p.len() as int) =~= v@.subrange(
            start as int,
            start + p.len(),
        ));
    }
    crate::text::copy_range(v, start, v.len())
}

/// `s` in upper case, as `str::to_uppercase` gives it.
pub uninterp spec fn str_uppercase(s: Seq<char>) -> Seq<char>;

/// `s` in upper case: ASCII text letter by letter (`a`–`z` become `A`–`Z`), other text as
/// `str::to_uppercase` gives it.
pub open spec fn spec_uppercase(s: Seq<char>) -> Seq<char> {
    if spec_all_ascii(s) {
        spec_upper_seq(s)
    } else {
        str_uppercase(s)
    }
}

/// `str::to_uppercase`. On ASCII text it upper-cases `a`–`z` and leaves every other
/// character as it is. For other text the contract only names the answer: the full
/// Unicode case mapping (where one character may become several) is std's and is not
/// restated here.
#[verifier::external_body]
fn to_uppercase(s: &str) -> (r: String)
    ensures
        r@ == str_uppercase(s@),
        spec_all_ascii(s@) ==> r@ == spec_upper_seq(s@),
{
    s.to_uppercase()
}

/// The legend printed on the physical key, by its accelerator name: named keys get their
/// symbol; "KeyA" → "A", "Digit1" → "1", "F5" → "F5".
pub open spec fn spec_pretty_key(key: Seq<char>) -> Seq<char> {
    let k = spec_lower_seq(key);
    if k == "space"@ {
        "Space"@
    } else if k == "enter"@ || k == "return"@ {
        "↩"@
    } else if k == "escape"@ || k == "esc"@ {
        "⎋"@
    } else if k == "backspace"@ {
        "⌫"@
    } else if k == "delete"@ {
        "⌦"@
    } else if k == "tab"@ {
        "⇥"@
    } else if k == "arrowleft"@ || k == "left"@ {
        "←"@
    } else if k == "arrowright"@ || k == "right"@ {
        "→"@
    } else if k == "arrowup"@ || k == "up"@ {
        "↑"@
    } else if k == "arrowdown"@ || k == "down"@ {
        "↓"@
    } else {
        spec_uppercase(spec_trim_start(spec_trim_start(k, "key"@), "digit"@))
    }
}

pub fn pretty_key(key: &str) -> (r: String)
    ensures
        r@ == spec_pretty_key(key@),
{
    let k = lower_chars(&chars_of(key));
    if str_equals("space", &k) {
        "Space".to_owned()
    } else if str_equals("enter", &k) || str_equals("return", &k) {
        "↩".to_owned()
    } else if str_equals("escape", &k) || str_equals("esc", &k) {
        "⎋".to_owned()
    } else if str_equals("backspace", &k) {
        "⌫".to_owned()
    } else if str_equals("delete", &k) {
        "⌦".to_owned()
    } else if str_equals("tab", &k) {
        "⇥".to_owned()
    } else if str_equals("arrowleft", &k) || str_equals("left", &k) {
        "←".to_owned()
    } else if str_equals("arrowright", &k) || str_equals("right", &k) {
        "→".to_owned()
    } else if str_equals("arrowup", &k) || str_equals("up", &k) {
        "↑".to_owned()
    } else if str_equals("arrowdown", &k) || str_equals("down", &k) {
        "↓".to_owned()
    } else {
        let trimmed = trim_start(&trim_start(&k, "key"), "digit");
        to_uppercase(string_of(&trimmed).as_str())
    }
}

/// An accelerator the way macOS writes it: its modifier glyphs, in the order given, then
/// the legend of its key. `None` for an empty accelerator (nothing bound).
pub open spec fn spec_glyphs(accelerator: Seq<char>) -> Option<Seq<char>> {
    if accelerator.len() == 0 {
        None
    } else {
        let (out, key) = glyph_fold(spec_split(accelerator, '+'));
        Some(out + spec_pretty_key(key))
    }
}

/// Renders an accelerator the way macOS does: "Alt+Shift+Space" → "⌥⇧Space".
/// Modifier glyphs are never mirrored in a right-to-left layout.
pub fn glyphs(accelerator: &str) -> (r: Option<String>)
    ensures
        match spec_glyphs(accelerator@) {
            Some(g) => r matches Some(s) && s@ == g,
            None => r is None,
        },
{
    let v = chars_of(accelerator);
    if v.len() == 0 {
        return None;
    }
    let parts = split_on(&v, '+');
    let mut out: Vec<char> = Vec::new();
    let mut key: Vec<char> = Vec::new();
    let mut i: usize = 0;
    while i < parts.len()
        invariant
            i <= parts.len(),
            (out@, key@) == glyph_fold(views(parts@).take(i as int)),
        decreases parts.len() - i,
    {
        assert(views(parts@).take(i + 1).drop_last() =~= views(parts@).take(i as int));
        assert(views(parts@).take(i + 1).last() == parts@[i as int]@);
        let lower = lower_chars(&parts[i]);
        match modifier_of(&lower) {
            Some(g) => {
                out.push(g);
            },
            None => {
                key = crate::text::copy_range(&parts[i], 0, parts[i].len());
                assert(key@ =~= parts@[i as int]@);
            },
        }
        i += 1;
    }
    assert(views(parts@).take(parts.len() as int) =~= views(parts@));
    let legend = pretty_key(string_of(&key).as_str());
    extend_chars(&mut out, &chars_of(legend.as_str()));
    Some(string_of(&out))
}

} // verus!
