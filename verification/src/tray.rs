//! The menu bar icon and its menu: which drawing the icon shows and what the menu says.
//! Building the native menu is the app's business.

use vstd::prelude::*;

use crate::menu_text::{strings, strings_of, table_of};
use crate::settings::{Language, Settings};
use crate::shortcuts::{glyphs, spec_glyphs};
use crate::text::{chars_of, copy_range, equals_range, extend_chars, string_of};

verus! {

/// Which drawing the menu bar icon shows, so the state reads without opening the menu.
#[derive(Clone, Copy, Debug, PartialEq, Eq, Structural)]
pub enum Glyph {
    Ready,
    Paused,
    NeedsPermission,
}

impl Glyph {
    /// The same precedence as the menu's header: a missing permission outranks a pause.
    pub fn of(trusted: bool, paused: bool) -> (r: Glyph)
        ensures
            r == (if !trusted {
                Glyph::NeedsPermission
            } else if paused {
                Glyph::Paused
            } else {
                Glyph::Ready
            }),
    {
        if !trusted {
            Glyph::NeedsPermission
        } else if paused {
            Glyph::Paused
        } else {
            Glyph::Ready
        }
    }
}

/// What the menu shows beyond the preferences: the permission and the last conversion.
pub struct TrayState {
    pub trusted: bool,
    /// The glyph currently on the menu bar, so the icon is only replaced when it changes.
    pub glyph: Glyph,
    /// The last conversion, for the "اثممخ ← hello · تراجع" item. Held in memory only,
    /// never written anywhere, and cleared as soon as undo is no longer offered.
    pub last: Option<(String, String)>,
}

impl TrayState {
    pub fn new() -> (r: TrayState)
        ensures
            !r.trusted,
            r.glyph == Glyph::Ready,
            r.last is None,
    {
        TrayState { trusted: false, glyph: Glyph::Ready, last: None }
    }

    /// Records the permission state; whether it changed (and the menu needs redrawing).
    pub fn set_trusted(&mut self, trusted: bool) -> (changed: bool)
        ensures
            final(self).trusted == trusted,
            final(self).glyph == old(self).glyph,
            final(self).last == old(self).last,
            changed == (old(self).trusted != trusted),
    {
        let changed = self.trusted != trusted;
        self.trusted = trusted;
        changed
    }

    /// Records the glyph now on the menu bar; whether it differs from the one before.
    pub fn set_glyph(&mut self, glyph: Glyph) -> (changed: bool)
        ensures
            final(self).glyph == glyph,
            final(self).trusted == old(self).trusted,
            final(self).last == old(self).last,
            changed == (old(self).glyph != glyph),
    {
        let changed = self.glyph != glyph;
        self.glyph = glyph;
        changed
    }

    /// Remembers the last conversion for the menu. `None` clears it.
    pub fn set_last(&mut self, last: Option<(String, String)>)
        ensures
            final(self).last == last,
            final(self).trusted == old(self).trusted,
            final(self).glyph == old(self).glyph,
    {
        self.last = last;
    }
}

/// Where the first copy of `pat` in `s` starts, at `from` or later.
pub open spec fn find_from(s: Seq<char>, pat: Seq<char>, from: nat) -> Option<nat>
    decreases s.len() + 1 - from,
{
    if from + pat.len() > s.len() {
        None
    } else if s.subrange(from as int, (from + pat.len()) as int) == pat {
        Some(from)
    } else {
        find_from(s, pat, from + 1)
    }
}

/// The separator between a hint's shortcut and its words.
pub open spec fn dash() -> Seq<char> {
    seq![' ', '—', ' ']
}

/// The hint line, with the shortcut the user actually has bound: the part of `text` before
/// its first " — " gives way to the shortcut's glyphs, or goes with the separator when
/// nothing is bound. A text without the separator is shown as it is.
pub open spec fn spec_hint(text: Seq<char>, shortcut: Seq<char>) -> Seq<char> {
    match find_from(text, dash(), 0) {
        None => text,
        Some(i) => {
            let rest = text.skip((i + 3) as int);
            match spec_glyphs(shortcut) {
                Some(g) => g + dash() + rest,
                None => rest,
            }
        },
    }
}

fn find_dash(v: &Vec<char>) -> (r: Option<usize>)
    ensures
        match find_from(v@, dash(), 0) {
            Some(i) => r == Some(i as usize) && i + 3 <= v.len(),
            None => r is None,
        },
{
    let mut sep: Vec<char> = Vec::new();
    sep.push(' ');
    sep.push('—');
    sep.push(' ');
    assert(sep@ =~= dash());
    let mut i: usize = 0;
    while v.len() >= 3 && i <= v.len() - 3
        invariant
            sep@ == dash(),
            find_from(v@, dash(), i as nat) == find_from(v@, dash(), 0),
            i <= v.len(),
        decreases v.len() - i,
    {
        if equals_range(&sep, v, i, 3) {
            return Some(i);
        }
        i += 1;
    }
    None
}

pub fn hint(text: &str, shortcut: &str) -> (r: String)
    ensures
        r@ == spec_hint(text@, shortcut@),
{
    let v = chars_of(text);
    let i = match find_dash(&v) {
        Some(i) => i,
        None => return text.to_owned(),
    };
    let rest = copy_range(&v, i + 3, v.len());
    assert(rest@ =~= text@.skip(i + 3));
    match glyphs(shortcut) {
        Some(g) => {
            let mut out = chars_of(g.as_str());
            out.push(' ');
            out.push('—');
            out.push(' ');
            extend_chars(&mut out, &rest);
            assert(out@ =~= g@ + dash() + rest@);
            string_of(&out)
        },
        None => string_of(&rest),
    }
}

/// The parts of the menu that depend on state. The fixed items (settings, check for
/// updates, quit) carry their labels straight from the strings.
pub struct TrayMenu {
    /// "Baddel — Ready", with the state after the name.
    pub header: String,
    /// The hint line while the permission is granted; `None` puts the grant item there.
    pub hint: Option<String>,
    /// The last conversion, "from → to", while undo is still offered.
    pub last: Option<String>,
    /// Whether undo and the layout switch can be used: permission granted and not paused.
    pub live: bool,
    /// "Pause" or "Resume".
    pub pause_label: &'static str,
}

/// The state the menu's header names; a missing permission outranks a pause.
pub open spec fn spec_status(settings: Settings, trusted: bool) -> Seq<char> {
    let text = strings_of(table_of(settings.language));
    if !trusted {
        text.needs_permission@
    } else if settings.paused {
        text.paused@
    } else {
        text.ready@
    }
}

/// The last-conversion item: from, an arrow the way the UI reads, to.
pub open spec fn spec_last_line(from: Seq<char>, to: Seq<char>, language: Language) -> Seq<char> {
    let arrow = if language == Language::Ar {
        '←'
    } else {
        '→'
    };
    from + seq![' ', arrow, ' '] + to
}

pub open spec fn last_pair_view(last: Option<(String, String)>) -> Option<(Seq<char>, Seq<char>)> {
    match last {
        Some((a, b)) => Some((a@, b@)),
        None => None,
    }
}

pub fn menu(settings: &Settings, state: &TrayState) -> (r: TrayMenu)
    ensures
        r.header@ == strings_of(table_of(settings.language)).name@ + dash() + spec_status(
            *settings,
            state.trusted,
        ),
        match r.hint {
            Some(h) => state.trusted && h@ == spec_hint(
                strings_of(table_of(settings.language)).hint@,
                settings.shortcut_convert@,
            ),
            None => !state.trusted,
        },
        match last_pair_view(state.last) {
            Some((from, to)) => r.last matches Some(l) && l@ == spec_last_line(
                from,
                to,
                settings.language,
            ),
            None => r.last is None,
        },
        r.live == (state.trusted && !settings.paused),
        r.pause_label == (if settings.paused {
            strings_of(table_of(settings.language)).resume
        } else {
            strings_of(table_of(settings.language)).pause
        }),
{
    let text = strings(settings.language);
    let status = if !state.trusted {
        text.needs_permission
    } else if settings.paused {
        text.paused
    } else {
        text.ready
    };
    let mut header = chars_of(text.name);
    header.push(' ');
    header.push('—');
    header.push(' ');
    extend_chars(&mut header, &chars_of(status));
    assert(header@ =~= text.name@ + dash() + status@);
    let hint_line = if state.trusted {
        Some(hint(text.hint, settings.shortcut_convert.as_str()))
    } else {
        None
    };
    let last = match &state.last {
        Some((from, to)) => {
            let arrow = if settings.language == Language::Ar {
                '←'
            } else {
                '→'
            };
            let mut line = chars_of(from.as_str());
            line.push(' ');
            line.push(arrow);
            line.push(' ');
            extend_chars(&mut line, &chars_of(to.as_str()));
            assert(line@ =~= spec_last_line(from@, to@, settings.language));
            Some(string_of(&line))
        },
        None => None,
    };
    TrayMenu {
        header: string_of(&header),
        hint: hint_line,
        last,
        live: state.trusted && !settings.paused,
        pause_label: if settings.paused {
            text.resume
        } else {
            text.pause
        },
    }
}

} // verus!
