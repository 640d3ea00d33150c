//! The two webview windows: where they start, what they are called, and the sample notice
//! the settings can preview. Creating and showing them is the app's business.

use vstd::prelude::*;

use crate::controller::notice;
use crate::hud::{conversion_line, notice_view, spec_conversion_line, Kind, Notice};
use crate::menu_text::{strings, strings_of, table_of};
use crate::settings::Language;
use crate::text::{chars_of, copy_range, extend_chars, str_equals, string_of};

verus! {

pub const SETTINGS: &'static str = "settings";
pub const ONBOARDING: &'static str = "onboarding";

/// The page of a window, starting on a named pane or step when one is given:
/// `index.html?window=<window>` with `&<key>=<value>` after it.
pub open spec fn spec_page_url(window: Seq<char>, key: Seq<char>, value: Option<Seq<char>>) -> Seq<
    char,
> {
    let base = "index.html?window="@ + window;
    match value {
        Some(v) => base + seq!['&'] + key + seq!['='] + v,
        None => base,
    }
}

fn page_url(window: &str, key: &str, value: Option<&str>) -> (r: String)
    ensures
        r@ == spec_page_url(
            window@,
            key@,
            match value {
                Some(v) => Some(v@),
                None => None,
            },
        ),
{
    let mut url = chars_of("index.html?window=");
    extend_chars(&mut url, &chars_of(window));
    match value {
        Some(v) => {
            url.push('&');
            extend_chars(&mut url, &chars_of(key));
            url.push('=');
            extend_chars(&mut url, &chars_of(v));
        },
        None => {},
    }
    string_of(&url)
}

/// The settings page, on `pane` when one is named, else on the last one used.
pub fn settings_url(pane: Option<&str>) -> (r: String)
    ensures
        r@ == spec_page_url(
            SETTINGS@,
            "pane"@,
            match pane {
                Some(p) => Some(p@),
                None => None,
            },
        ),
{
    page_url(SETTINGS, "pane", pane)
}

/// The welcome page, on `step` when one is named.
pub fn onboarding_url(step: Option<&str>) -> (r: String)
    ensures
        r@ == spec_page_url(
            ONBOARDING@,
            "step"@,
            match step {
                Some(s) => Some(s@),
                None => None,
            },
        ),
{
    page_url(ONBOARDING, "step", step)
}

/// `s` without its trailing ellipses (`trim_end_matches('…')`).
pub open spec fn spec_trim_ellipsis(s: Seq<char>) -> Seq<char>
    decreases s.len(),
{
    if s.len() > 0 && s.last() == '…' {
        spec_trim_ellipsis(s.drop_last())
    } else {
        s
    }
}

/// The settings window's title: the menu item's label without its ellipsis.
pub fn settings_title(language: Language) -> (r: String)
    ensures
        r@ == spec_trim_ellipsis(strings_of(table_of(language)).settings@),
{
    let v = chars_of(strings(language).settings);
    let mut end = v.len();
    assert(v@.take(end as int) =~= v@);
    while end > 0 && v[end - 1] == '…'
        invariant
            end <= v.len(),
            spec_trim_ellipsis(v@.take(end as int)) == spec_trim_ellipsis(v@),
        decreases end,
    {
        assert(v@.take(end as int).drop_last() =~= v@.take(end - 1));
        end -= 1;
    }
    if end > 0 {
        assert(v@.take(end as int).last() == v@[end - 1]);
    }
    string_of(&copy_range(&v, 0, end))
}

/// A window request, `window[:at]`: the window, and where to start in it.
pub open spec fn spec_parse_request(request: Seq<char>) -> (Seq<char>, Option<Seq<char>>) {
    match first_colon(request, 0) {
        Some(i) => (request.take(i as int), Some(request.skip((i + 1) as int))),
        None => (request, None),
    }
}

/// Where the first ':' of `s` is, at `from` or later.
pub open spec fn first_colon(s: Seq<char>, from: nat) -> Option<nat>
    decreases s.len() - from,
{
    if from >= s.len() {
        None
    } else if s[from as int] == ':' {
        Some(from)
    } else {
        first_colon(s, from + 1)
    }
}

pub fn parse_request(request: &str) -> (r: (String, Option<String>))
    ensures
        r.0@ == spec_parse_request(request@).0,
        match spec_parse_request(request@).1 {
            Some(at) => r.1 matches Some(a) && a@ == at,
            None => r.1 is None,
        },
{
    let v = chars_of(request);
    let mut i: usize = 0;
    while i < v.len()
        invariant
            i <= v.len(),
            v@ == request@,
            first_colon(request@, i as nat) == first_colon(request@, 0),
        decreases v.len() - i,
    {
        if v[i] == ':' {
            let window = copy_range(&v, 0, i);
            let at = copy_range(&v, i + 1, v.len());
            assert(window@ =~= request@.take(i as int));
            assert(at@ =~= request@.skip(i + 1));
            return (string_of(&window), Some(string_of(&at)));
        }
        i += 1;
    }
    (request.to_owned(), None)
}

/// The sample conversion the notice is previewed with.
pub open spec fn sample_line(rtl: bool) -> Seq<char> {
    spec_conversion_line("اثممخ"@, "hello"@, rtl)
}

/// The notice of a kind, by name, as it would appear: "undone", "blocked", "too-long" and
/// "no-text" with their messages; anything else the sample conversion with its badge.
pub open spec fn spec_sample_notice(kind: Seq<char>, language: Language) -> (Kind, Seq<char>, Option<Seq<char>>) {
    let text = strings_of(table_of(language));
    if kind == "undone"@ {
        (Kind::Undone, text.hud_undone@, None)
    } else if kind == "blocked"@ {
        (Kind::Blocked, text.hud_blocked@, None)
    } else if kind == "too-long"@ {
        (Kind::TooLong, text.hud_too_long@, None)
    } else if kind == "no-text"@ {
        (Kind::NoText, text.hud_no_text@, None)
    } else {
        (Kind::Success, sample_line(language == Language::Ar), Some("EN"@))
    }
}

pub fn sample_notice(kind: &str, language: Language) -> (r: Notice)
    ensures
        notice_view(r) == spec_sample_notice(kind@, language),
{
    let text = strings(language);
    let k = chars_of(kind);
    if str_equals("undone", &k) {
        notice(Kind::Undone, text.hud_undone)
    } else if str_equals("blocked", &k) {
        notice(Kind::Blocked, text.hud_blocked)
    } else if str_equals("too-long", &k) {
        notice(Kind::TooLong, text.hud_too_long)
    } else if str_equals("no-text", &k) {
        notice(Kind::NoText, text.hud_no_text)
    } else {
        preview(language)
    }
}

/// The notice the settings show without converting anything.
pub fn preview(language: Language) -> (r: Notice)
    ensures
        notice_view(r) == (Kind::Success, sample_line(language == Language::Ar), Some("EN"@)),
{
    Notice {
        kind: Kind::Success,
        text: conversion_line("اثممخ", "hello", language == Language::Ar),
        badge: Some("EN".to_owned()),
    }
}

} // verus!
