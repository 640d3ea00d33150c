//! What the menu, the notice, the windows and the settings pages are told.

use baddel::commands::{
    is_openable, keyboard_map, layout_name, listed, listed_apps, rejected, KeyboardMap,
};
use baddel::hud::{conversion_line, Kind};
use baddel::menu_text::strings;
use baddel::settings::{Language, Settings};
use baddel::shortcuts::{glyphs, pretty_key};
use baddel::sys::app_icons::{info, info_at, name_of, AppInfo};
use baddel::sys::input_source::{list, snapshot_picks, types_arabic, Entry, SourceInfo};
use baddel::tray::{hint, menu, Glyph, TrayState};
use baddel::updater::{
    after_check, check_due, install_failed, CheckResult, Dialog, DialogKind, Phase, Status, Trigger,
};
use baddel::windows::{
    onboarding_url, parse_request, preview, sample_notice, settings_title, settings_url,
};
use baddel::StaticLayout;

#[test]
fn accelerators_the_way_macos_writes_them() {
    assert_eq!(glyphs("Alt+Shift+Space").as_deref(), Some("⌥⇧Space"));
    assert_eq!(glyphs(""), None);
    assert_eq!(glyphs("Ctrl+Cmd+KeyA").as_deref(), Some("⌃⌘A"));
    assert_eq!(glyphs("control+option+shift+meta+Digit1").as_deref(), Some("⌃⌥⇧⌘1"));
    assert_eq!(glyphs("Super+F5").as_deref(), Some("⌘F5"));
    assert_eq!(glyphs("Alt+ArrowLeft").as_deref(), Some("⌥←"));
    assert_eq!(glyphs("Shift").as_deref(), Some("⇧"));
    assert_eq!(pretty_key("Escape"), "⎋");
    assert_eq!(pretty_key("return"), "↩");
    assert_eq!(pretty_key("KeyKeyB"), "B");
    assert_eq!(pretty_key("keyz"), "Z");
    assert_eq!(pretty_key("ß"), "SS");
}

#[test]
fn the_menu_bar_glyph() {
    assert_eq!(Glyph::of(false, true), Glyph::NeedsPermission);
    assert_eq!(Glyph::of(false, false), Glyph::NeedsPermission);
    assert_eq!(Glyph::of(true, true), Glyph::Paused);
    assert_eq!(Glyph::of(true, false), Glyph::Ready);
    let mut state = TrayState::new();
    assert!(state.set_trusted(true));
    assert!(!state.set_trusted(true));
    assert!(state.set_glyph(Glyph::Paused));
    assert!(!state.set_glyph(Glyph::Paused));
}

#[test]
fn the_hint_line_carries_the_bound_shortcut() {
    assert_eq!(hint("X — convert", "Alt+Shift+Space"), "⌥⇧Space — convert");
    assert_eq!(hint("X — convert", ""), "convert");
    assert_eq!(hint("no separator here", "Alt+A"), "no separator here");
}

#[test]
fn the_menu() {
    let mut state = TrayState::new();
    let settings = Settings::default();
    let m = menu(&settings, &state);
    assert_eq!(m.header, "بدّل — تحتاج صلاحية");
    assert_eq!(m.hint, None);
    assert_eq!(m.last, None);
    assert!(!m.live);
    assert_eq!(m.pause_label, "أوقف بدّل مؤقتًا");

    state.set_trusted(true);
    state.set_last(Some(("اثممخ".to_string(), "hello".to_string())));
    let m = menu(&settings, &state);
    assert_eq!(m.header, "بدّل — جاهز");
    assert_eq!(m.hint.as_deref(), Some("حوّل التحديد أو آخر كلمة"));
    assert_eq!(m.last.as_deref(), Some("اثممخ ← hello"));
    assert!(m.live);

    let english = Settings { language: Language::En, paused: true, ..Settings::default() };
    let m = menu(&english, &state);
    assert_eq!(m.header, "Baddel — Paused");
    assert_eq!(m.last.as_deref(), Some("اثممخ → hello"));
    assert!(!m.live);
    assert_eq!(m.pause_label, "Resume Baddel");
}

#[test]
fn update_checks_are_a_day_apart() {
    assert!(check_due(None, 0));
    assert!(!check_due(Some(1_000), 1_000 + 86_399_999));
    assert!(check_due(Some(1_000), 1_000 + 86_400_000));
    assert!(!check_due(Some(5_000), 1_000));
}

#[test]
fn update_status() {
    let mut status = Status::default();
    assert_eq!(status.phase, Phase::Idle);
    assert_eq!(Phase::default(), Phase::Idle);
    assert_eq!(status.with_fallback(Some(7)).last_checked, Some(7));
    status.set(Phase::Available, Some("1.2.0".into()), Some(9));
    assert_eq!(status.with_fallback(Some(7)).last_checked, Some(9));
    assert_eq!(status.available_version().as_deref(), Some("1.2.0"));
    assert!(!status.is_busy());
    status.set(Phase::Installing, Some("1.2.0".into()), Some(9));
    assert_eq!(status.available_version(), None);
    assert!(status.is_busy());
    status.set(Phase::Checking, None, None);
    assert!(status.is_busy());
}

#[test]
fn what_a_check_leads_to() {
    let found = CheckResult::Found { version: "1.2.0".into(), current: "1.1.0".into() };
    let r = after_check(&found, Trigger::Menu, Language::En, "1.1.0");
    assert_eq!(r.phase, Phase::Available);
    assert_eq!(r.version.as_deref(), Some("1.2.0"));
    match r.dialog {
        Some(Dialog::Ask { title, body, install, later }) => {
            assert_eq!(title, "A New Version of Baddel Is Available");
            assert_eq!(body, "Version 1.2.0 is available — you have 1.1.0. Baddel restarts after installing.");
            assert_eq!(install, "Install and Restart");
            assert_eq!(later, "Later");
        }
        _ => panic!("expected to be asked"),
    }
    let r = after_check(&found, Trigger::Automatic, Language::En, "1.1.0");
    assert!(r.dialog.is_none());
    assert_eq!(r.phase, Phase::Available);

    let r = after_check(&CheckResult::UpToDate, Trigger::Menu, Language::En, "1.1.0");
    assert_eq!(r.phase, Phase::UpToDate);
    assert_eq!(r.version, None);
    match r.dialog {
        Some(Dialog::Inform { kind, title, body }) => {
            assert_eq!(kind, DialogKind::Info);
            assert_eq!(title, "Baddel Is Up to Date");
            assert_eq!(body, "You have the latest version (1.1.0).");
        }
        _ => panic!("expected a message"),
    }
    let r = after_check(&CheckResult::UpToDate, Trigger::Settings, Language::En, "1.1.0");
    assert!(r.dialog.is_none());

    let r = after_check(&CheckResult::Failed, Trigger::Menu, Language::Ar, "1.1.0");
    assert_eq!(r.phase, Phase::Failed);
    match r.dialog {
        Some(Dialog::Inform { kind, title, body }) => {
            assert_eq!(kind, DialogKind::Warning);
            assert_eq!(title, "تعذّر التحقق من التحديثات");
            assert_eq!(body, "تحقّق من اتصالك بالإنترنت، ثم حاول مرة أخرى.");
        }
        _ => panic!("expected a warning"),
    }

    let r = install_failed("1.2.0".into(), Language::En);
    assert_eq!(r.phase, Phase::Available);
    assert_eq!(r.version.as_deref(), Some("1.2.0"));
    match r.dialog {
        Some(Dialog::Inform { kind, title, .. }) => {
            assert_eq!(kind, DialogKind::Error);
            assert_eq!(title, "Couldn’t Install the Update");
        }
        _ => panic!("expected an error"),
    }
}

#[test]
fn window_pages_and_titles() {
    assert_eq!(settings_url(None), "index.html?window=settings");
    assert_eq!(settings_url(Some("general")), "index.html?window=settings&pane=general");
    assert_eq!(onboarding_url(None), "index.html?window=onboarding");
    assert_eq!(onboarding_url(Some("2")), "index.html?window=onboarding&step=2");
    assert_eq!(settings_title(Language::En), "Settings");
    assert_eq!(settings_title(Language::Ar), "الإعدادات");
    assert_eq!(parse_request("settings:layouts"), ("settings".to_string(), Some("layouts".to_string())));
    assert_eq!(parse_request("hud"), ("hud".to_string(), None));
    assert_eq!(parse_request("a:b:c"), ("a".to_string(), Some("b:c".to_string())));
}

#[test]
fn sample_notices() {
    let n = sample_notice("undone", Language::En);
    assert_eq!((n.kind, n.text.as_str(), n.badge.clone()), (Kind::Undone, "Undone", None));
    let n = sample_notice("too-long", Language::Ar);
    assert_eq!((n.kind, n.text.as_str()), (Kind::TooLong, "التحديد طويل جدًا"));
    let n = sample_notice("anything", Language::En);
    assert_eq!(n.kind, Kind::Success);
    assert_eq!(n.text, conversion_line("اثممخ", "hello", false));
    assert_eq!(n.badge.as_deref(), Some("EN"));
    let p = preview(Language::Ar);
    assert_eq!(p.text, conversion_line("اثممخ", "hello", true));
}

#[test]
fn the_conversion_line_isolates_both_sides() {
    assert_eq!(
        conversion_line("اثممخ", "hello", true),
        "\u{2067}\u{2068}اثممخ\u{2069} ← \u{2068}hello\u{2069}\u{2069}"
    );
    assert_eq!(conversion_line("a", "b", false), "\u{2066}\u{2068}a\u{2069} → \u{2068}b\u{2069}\u{2069}");
}

#[test]
fn menu_strings() {
    assert_eq!(strings(Language::En).name, "Baddel");
    assert_eq!(strings(Language::Ar).name, "بدّل");
    assert_eq!(strings(Language::En).ok, "OK");
}

#[test]
fn the_keyboard_pane() {
    let map = keyboard_map(&StaticLayout::ArabicPc, &StaticLayout::Abc, Some("Arabic – PC".into()), Some("ABC".into()));
    assert_eq!(map.rows.iter().map(Vec::len).collect::<Vec<_>>(), vec![12, 11, 10]);
    assert_eq!(map.rows[1][0].latin, "a");
    assert_eq!(map.rows[1][0].arabic, "ش");
    assert!(!map.rows[1][0].multi);
    let b = map.rows[2].iter().find(|k| k.latin == "b").unwrap();
    assert_eq!(b.arabic, "لا");
    assert!(b.multi);
    assert!(map.has_multi_char);
    assert_eq!(map.arabic_name.as_deref(), Some("Arabic – PC"));
    let mac = keyboard_map(&StaticLayout::ArabicMac, &StaticLayout::Abc, None, None);
    assert!(!mac.has_multi_char);
    let empty = KeyboardMap::default();
    assert!(empty.rows.is_empty() && !empty.has_multi_char && empty.latin_name.is_none());
}

#[test]
fn layout_names_and_exceptions() {
    let entries = vec![
        Entry { id: "a".into(), name: "First".into(), arabic: true },
        Entry { id: "b".into(), name: "Second".into(), arabic: false },
        Entry { id: "a".into(), name: "Again".into(), arabic: true },
    ];
    assert_eq!(layout_name(&entries, "a").as_deref(), Some("First"));
    assert_eq!(layout_name(&entries, "b").as_deref(), Some("Second"));
    assert_eq!(layout_name(&entries, "c"), None);

    let mine = AppInfo { id: "com.example.mine".into(), name: "Mine".into(), icon: None };
    let terminal_missing = AppInfo { id: "dev.warp.Warp-Stable".into(), name: "dev.warp.Warp-Stable".into(), icon: None };
    let terminal = AppInfo { id: "com.apple.Terminal".into(), name: "Terminal".into(), icon: Some("data:".into()) };
    assert!(listed(&mine));
    assert!(!listed(&terminal_missing));
    assert!(listed(&terminal));
    let shown = listed_apps(vec![mine.clone(), terminal_missing, terminal.clone()]);
    assert_eq!(shown.iter().map(|i| i.id.as_str()).collect::<Vec<_>>(), vec!["com.example.mine", "com.apple.Terminal"]);
}

#[test]
fn links_and_shortcut_requests() {
    assert!(is_openable("https://github.com/iSltanX/Baddel"));
    assert!(!is_openable("http://example.com"));
    assert!(!is_openable("https:/"));
    assert!(!is_openable("file:///etc/passwd"));
    assert!(!rejected("", false));
    assert!(rejected("Bad+", false));
    assert!(!rejected("Alt+A", true));
}

#[test]
fn installed_apps_by_name() {
    assert_eq!(name_of("/Applications/Foo Bar.app"), "Foo Bar");
    assert_eq!(name_of("/"), "/");
    let i = info("com.foo", Some("/Applications/Foo.app"), Some("icon".into()));
    assert_eq!((i.id.as_str(), i.name.as_str(), i.icon.as_deref()), ("com.foo", "Foo", Some("icon")));
    let gone = info("com.gone", None, Some("ignored".into()));
    assert_eq!((gone.name.as_str(), gone.icon), ("com.gone", None));
    assert!(info_at("/tmp/notes.txt", None, None).is_none());
    let picked = info_at("/Applications/Bar.app", Some("com.bar".into()), None).unwrap();
    assert_eq!((picked.id.as_str(), picked.name.as_str()), ("com.bar", "Bar"));
}

#[test]
fn enabled_layouts() {
    assert_eq!(types_arabic(&StaticLayout::ArabicMac), Some(true));
    assert_eq!(types_arabic(&StaticLayout::Abc), Some(false));
    let sources = vec![
        SourceInfo { id: "abc".into(), name: Some("ABC".into()), arabic: Some(false) },
        SourceInfo { id: "ime".into(), name: None, arabic: None },
        SourceInfo { id: "ar".into(), name: None, arabic: Some(true) },
        SourceInfo { id: "ar-pc".into(), name: Some("Arabic – PC".into()), arabic: Some(true) },
    ];
    let entries = list(&sources);
    assert_eq!(entries.len(), 3);
    assert_eq!((entries[1].id.as_str(), entries[1].name.as_str(), entries[1].arabic), ("ar", "ar", true));
    assert_eq!(snapshot_picks(&sources, "", ""), (Some(2), Some(0)));
    assert_eq!(snapshot_picks(&sources, "ar-pc", "missing"), (Some(3), Some(0)));
    let latin_only = vec![SourceInfo { id: "abc".into(), name: None, arabic: Some(false) }];
    assert_eq!(snapshot_picks(&latin_only, "", ""), (None, Some(0)));
}

#[test]
fn letter_and_digit_key_legends() {
    assert_eq!(pretty_key("KeyA"), "A");
    assert_eq!(pretty_key("keyz"), "Z");
    assert_eq!(pretty_key("Digit7"), "7");
    assert_eq!(pretty_key("F5"), "F5");
}

#[test]
fn bundles_are_shown_by_name() {
    assert_eq!(name_of("/Applications/Safari.app"), "Safari");
    assert_eq!(name_of("Notes.app"), "Notes");
    assert_eq!(name_of("/Users/me/Apps/Tool.v2.app"), "Tool.v2");
}
