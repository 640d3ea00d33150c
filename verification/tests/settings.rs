//! Preferences: defaults, shortcuts, exceptions, and what a change asks of the app.

use baddel::settings::{
    first_defaults, is_default_excluded, sync_plan, to_register, was_refused, Binding, Language,
    Settings, DEFAULTS_VERSION, DEFAULT_EXCLUDED, DEFAULT_SHORTCUT,
};

#[test]
fn a_file_from_before_the_defaults_version_gets_the_new_exceptions_once() {
    // A file written before the defaults version existed: only the exceptions are stored,
    // everything else falls back to the defaults and the version to the first one.
    let mut settings = Settings {
        excluded_apps: vec!["com.apple.Terminal".to_string(), "com.example.mine".to_string()],
        defaults_version: first_defaults(),
        ..Settings::default()
    };
    assert_eq!(settings.defaults_version, 1);
    assert!(settings.adopt_new_defaults());
    assert!(settings.excluded_apps.contains(&"com.apple.Passwords".to_string()));
    assert!(settings.excluded_apps.contains(&"com.example.mine".to_string()));
    // Entries from version 1 that the user had removed stay removed.
    assert!(!settings.excluded_apps.contains(&"com.googlecode.iterm2".to_string()));

    settings.excluded_apps.retain(|id| id != "com.apple.Passwords");
    assert!(!settings.adopt_new_defaults());
    assert!(!settings.excluded_apps.contains(&"com.apple.Passwords".to_string()));
}

#[test]
fn fresh_settings_are_current() {
    let mut settings = Settings::default();
    assert!(!settings.adopt_new_defaults());
    assert_eq!(settings.excluded_apps.len(), DEFAULT_EXCLUDED.len());
}

#[test]
fn adopting_keeps_the_user_list_in_front_and_adds_version_two_entries_in_order() {
    let mut settings = Settings {
        excluded_apps: vec!["com.example.mine".to_string()],
        defaults_version: 1,
        ..Settings::default()
    };
    assert!(settings.adopt_new_defaults());
    assert_eq!(settings.defaults_version, DEFAULTS_VERSION);
    let expected: Vec<String> = std::iter::once("com.example.mine")
        .chain(DEFAULT_EXCLUDED.iter().filter(|(_, since)| *since > 1).map(|(id, _)| *id))
        .map(String::from)
        .collect();
    assert_eq!(settings.excluded_apps, expected);
    assert_eq!(settings.excluded_apps.len(), 1 + 9);
}

#[test]
fn defaults_are_fourteen_terminals_and_password_managers() {
    assert_eq!(DEFAULT_EXCLUDED.len(), 14);
    let settings = Settings::default();
    assert_eq!(settings.excluded_apps[0], "com.apple.Terminal");
    assert_eq!(settings.excluded_apps[13], "in.sinew.Enpass-Desktop");
    assert_eq!(settings.shortcut_convert, DEFAULT_SHORTCUT);
    assert_eq!(settings.shortcut_convert, "Alt+Shift+Space");
    assert!(settings.shortcut_undo.is_empty() && settings.shortcut_pause.is_empty());
    assert_eq!(settings.language, Language::Ar);
    assert!(settings.show_tray_icon && settings.switch_input_source && settings.show_hud);
    assert!(!settings.sound && !settings.paused && !settings.welcomed);
    assert!(settings.auto_update);
    assert_eq!(settings.last_update_check, None);
}

#[test]
fn default_exceptions_are_recognised() {
    assert!(is_default_excluded("com.apple.Terminal"));
    assert!(is_default_excluded("com.bitwarden.desktop"));
    assert!(!is_default_excluded("com.example.mine"));
    assert!(!is_default_excluded(""));
}

#[test]
fn bindings_read_back_what_was_set() {
    let mut settings = Settings::default();
    settings.set_binding(Binding::Undo, "Alt+Shift+Z".to_string());
    assert_eq!(settings.binding(Binding::Undo), "Alt+Shift+Z");
    assert_eq!(settings.binding(Binding::Convert), "Alt+Shift+Space");
    assert_eq!(settings.binding(Binding::Pause), "");
    settings.set_binding(Binding::Convert, String::new());
    assert_eq!(settings.binding(Binding::Convert), "");
    assert_eq!(Binding::ALL, [Binding::Convert, Binding::Undo, Binding::Pause]);
}

#[test]
fn excluding_twice_lists_once_and_removing_takes_every_copy() {
    let mut settings = Settings { excluded_apps: vec!["a".to_string()], ..Settings::default() };
    settings.exclude("b".to_string());
    settings.exclude("b".to_string());
    assert_eq!(settings.excluded_apps, vec!["a".to_string(), "b".to_string()]);
    settings.excluded_apps.push("a".to_string());
    settings.unexclude("a");
    assert_eq!(settings.excluded_apps, vec!["b".to_string()]);
    settings.unexclude("missing");
    assert_eq!(settings.excluded_apps, vec!["b".to_string()]);
}

#[test]
fn a_change_asks_only_for_what_changed() {
    let previous = Settings::default();
    let mut next = previous.clone();
    let plan = sync_plan(&previous, &next);
    assert_eq!(plan.autostart, None);
    assert!(!plan.rebind);

    next.launch_at_login = true;
    next.set_binding(Binding::Pause, "Alt+P".to_string());
    let plan = sync_plan(&previous, &next);
    assert_eq!(plan.autostart, Some(true));
    assert!(plan.rebind);

    let plan = sync_plan(&next, &previous);
    assert_eq!(plan.autostart, Some(false));
}

#[test]
fn only_bound_shortcuts_are_registered_in_order() {
    let mut settings = Settings::default();
    assert_eq!(to_register(&settings), vec![(Binding::Convert, "Alt+Shift+Space".to_string())]);
    settings.set_binding(Binding::Pause, "Alt+P".to_string());
    settings.set_binding(Binding::Undo, "Alt+U".to_string());
    assert_eq!(
        to_register(&settings),
        vec![
            (Binding::Convert, "Alt+Shift+Space".to_string()),
            (Binding::Undo, "Alt+U".to_string()),
            (Binding::Pause, "Alt+P".to_string()),
        ]
    );
    assert!(was_refused(&vec![Binding::Undo], Binding::Undo));
    assert!(!was_refused(&vec![Binding::Undo], Binding::Pause));
    assert!(!was_refused(&vec![], Binding::Convert));
}
