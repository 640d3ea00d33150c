//! The conversion's decisions, on concrete inputs.

use std::sync::mpsc;

use baddel::controller::{
    extended_by_keys, precheck_step, still_remembered, Answers, Check, Query,
    arrows_for, badge, build_map, caret_after, caret_stops, copied_selection, expected_direction,
    extended, fix, fix_in, follows, last_word_and_trailing_space, layout_to_select, lookbehind_start,
    notice, notice_for, opposite, plan_extension, plan_last_word, plays_click, precheck,
    previous_word, too_long, first_step, next_step, caret_follows, continuation_verdict, key_edit_found,
    undo_gate, undo_outcome, undo_route, Command, Commands, Found, KeyEditEnd, LastOp, Outcome, Stage, UndoRoute,
    Step, Word, EXTEND_WINDOW_MS, KEY_LEFT,
    KEY_RIGHT, MAX_CHARS, MAX_UNDO_CHARS, UNDO_WINDOW_MS,
};
use baddel::hud::{conversion_line, Kind};
use baddel::settings::{Language, Settings};
use baddel::sys::input_source::Snapshot;
use baddel::text::utf16_len;
use baddel::sys::pasteboard::{PasteboardKeeper, Snapshot as Clipboard};
use baddel::sys::text_access::{paste_landed, paste_watchable, write_took, Selection};
use baddel::{Direction, LayoutMap, StaticLayout};

fn mac() -> LayoutMap {
    LayoutMap::arabic_mac()
}

#[test]
fn commands_reach_the_conversion_thread() {
    let (tx, rx) = mpsc::channel();
    let commands = Commands::new(tx);
    commands.send(Command::Convert);
    commands.send(Command::Undo);
    assert_eq!(rx.recv().unwrap(), Command::Convert);
    assert_eq!(rx.recv().unwrap(), Command::Undo);
    drop(rx);
    // A thread that is gone drops the command without a fuss.
    commands.send(Command::Convert);
}

#[test]
fn last_op_walks_back_the_way_the_result_runs() {
    let op = LastOp::new("اثممخ".into(), "hello".into(), Direction::ArabicToLatin, Some(3), 1, 1000);
    assert_eq!(op.back_arrow, KEY_LEFT);
    let op = LastOp::new("hello".into(), "اثممخ".into(), Direction::LatinToArabic, None, 0, 1000);
    assert_eq!(op.back_arrow, KEY_RIGHT);
}

#[test]
fn extend_and_undo_windows() {
    let op = LastOp::new("a".into(), "b".into(), Direction::LatinToArabic, None, 1, 1000);
    assert!(op.can_extend(1000 + EXTEND_WINDOW_MS - 1));
    assert!(!op.can_extend(1000 + EXTEND_WINDOW_MS));
    assert!(op.can_undo(1000 + UNDO_WINDOW_MS - 1));
    assert!(!op.can_undo(1000 + UNDO_WINDOW_MS));
    assert_eq!(op.undo_time_left(1000), 30_000);
    assert_eq!(op.undo_time_left(11_000), 20_000);
    assert_eq!(op.undo_time_left(40_000), 0);
    // A clock that seems to run backwards counts as no time passed.
    assert!(op.can_extend(500));
    // A selection (no words) is never extended.
    let selection = LastOp::new("a".into(), "b".into(), Direction::LatinToArabic, None, 0, 1000);
    assert!(!selection.can_extend(1000));
}

#[test]
fn result_end_counts_utf16_units() {
    let op = LastOp::new("x".into(), "a😀".into(), Direction::LatinToArabic, Some(10), 1, 0);
    assert_eq!(op.result_end(), Some(13));
    let keys = LastOp::new("x".into(), "abc".into(), Direction::LatinToArabic, None, 1, 0);
    assert_eq!(keys.result_end(), None);
    let huge = LastOp::new("x".into(), "abc".into(), Direction::LatinToArabic, Some(usize::MAX - 1), 1, 0);
    assert_eq!(huge.result_end(), None);
}

#[test]
fn utf16_lengths() {
    assert_eq!(utf16_len(""), 0);
    assert_eq!(utf16_len("hello"), 5);
    assert_eq!(utf16_len("اثممخ"), 5);
    assert_eq!(utf16_len("😀"), 2);
    assert_eq!(utf16_len("a😀b"), 4);
}

#[test]
fn badges_and_fixed_notices() {
    assert_eq!(badge(Direction::ArabicToLatin), "EN");
    assert_eq!(badge(Direction::LatinToArabic), "ع");
    let n = notice(Kind::Blocked, "nope");
    assert_eq!(n.kind, Kind::Blocked);
    assert_eq!(n.text, "nope");
    assert_eq!(n.badge, None);
}

#[test]
fn caret_stops_skip_arabic_marks() {
    assert_eq!(caret_stops("hello"), 5);
    assert_eq!(caret_stops("كَتَبَ"), 3);
    assert_eq!(caret_stops("\u{670}"), 0);
    assert_eq!(caret_stops(""), 0);
}

#[test]
fn arrows() {
    assert_eq!(opposite(KEY_LEFT), KEY_RIGHT);
    assert_eq!(opposite(KEY_RIGHT), KEY_LEFT);
    assert_eq!(opposite(opposite(KEY_LEFT)), KEY_LEFT);
    assert_eq!(arrows_for(Direction::ArabicToLatin), [KEY_RIGHT, KEY_LEFT]);
    assert_eq!(arrows_for(Direction::LatinToArabic), [KEY_LEFT, KEY_RIGHT]);
    assert_eq!(expected_direction(true), Direction::ArabicToLatin);
    assert_eq!(expected_direction(false), Direction::LatinToArabic);
}

#[test]
fn last_word_with_its_trailing_space() {
    assert_eq!(last_word_and_trailing_space("foo bar  ").as_deref(), Some("bar  "));
    assert_eq!(last_word_and_trailing_space("bar").as_deref(), Some("bar"));
    assert_eq!(last_word_and_trailing_space("a\tb\n").as_deref(), Some("b\n"));
    assert_eq!(last_word_and_trailing_space("   "), None);
    assert_eq!(last_word_and_trailing_space(""), None);
}

#[test]
fn fixing_text() {
    let map = mac();
    let f = fix(&map, "اثممخ", Direction::LatinToArabic).unwrap();
    assert_eq!(f.result, "hello");
    assert_eq!(f.direction, Direction::ArabicToLatin);
    // No letters: the active layout decides.
    assert_eq!(fix(&map, "2024", Direction::LatinToArabic).unwrap().direction, Direction::LatinToArabic);
    assert_eq!(fix_in(&map, "   ", Direction::ArabicToLatin), None);
    assert_eq!(fix_in(&map, "hello", Direction::LatinToArabic).as_deref(), Some("اثممخ"));
    assert!(!too_long("hello"));
    assert!(!too_long(&"a".repeat(MAX_CHARS)));
    assert!(too_long(&"a".repeat(MAX_CHARS + 1)));
}

#[test]
fn planning_the_last_word_of_a_line() {
    let map = mac();
    let edit = plan_last_word(&map, "foo اثممخ ", Direction::LatinToArabic).unwrap();
    assert_eq!(edit.kept, "foo ");
    assert_eq!(edit.replaced, "اثممخ ");
    assert_eq!(edit.converted, "hello ");
    assert_eq!(edit.direction, Direction::ArabicToLatin);
    assert_eq!(edit.replacement(), "foo hello ");
    assert!(plan_last_word(&map, "   ", Direction::LatinToArabic).is_none());
}

#[test]
fn planning_an_extension_on_the_key_path() {
    let map = mac();
    let edit = plan_extension(&map, "اثممخ world", "world", Direction::ArabicToLatin).unwrap();
    assert_eq!(edit.kept, "");
    assert_eq!(edit.replaced, "اثممخ world");
    assert_eq!(edit.converted, "hello world");
    assert_eq!(edit.replacement(), "hello world");
    // Our text must still end the line.
    assert!(plan_extension(&map, "اثممخ other", "world", Direction::ArabicToLatin).is_none());
    // Nothing before it.
    assert!(plan_extension(&map, "world", "world", Direction::ArabicToLatin).is_none());
}

#[test]
fn the_word_before_the_caret_through_the_text_range() {
    assert_eq!(lookbehind_start(1000), 600);
    assert_eq!(lookbehind_start(10), 0);
    let w = previous_word("foo bar  ", 10, 19).unwrap();
    assert_eq!((w.start, w.len, w.text.as_str()), (14, 3, "bar"));
    let w = previous_word("a 😀b", 0, 5).unwrap();
    assert_eq!((w.start, w.len, w.text.as_str()), (2, 3, "😀b"));
    // The element's offsets are not UTF-16: do not guess.
    assert!(previous_word("foo", 0, 4).is_none());
    assert!(previous_word("   ", 0, 3).is_none());
}

#[test]
fn caret_after_a_replacement() {
    let word = Word { start: 10, len: 7, text: "abcdefg".into() };
    assert_eq!(caret_after(20, "hello", &word), 18);
    let word = Word { start: 10, len: 5, text: "abcde".into() };
    assert_eq!(caret_after(10, "", &word), 10);
}

#[test]
fn following_our_text() {
    assert!(follows(12, 10, &Some("  ".into())));
    assert!(follows(10, 10, &Some(String::new())));
    assert!(!follows(12, 10, &Some("x ".into())));
    assert!(!follows(9, 10, &Some(String::new())));
    assert!(!follows(12, 10, &None));
}

#[test]
fn extending_prepends_the_word() {
    let last = LastOp::new("صخقمي".into(), "world".into(), Direction::ArabicToLatin, Some(6), 1, 0);
    let op = extended(&last, Some(0), "اثممخ", " ", "hello", 500);
    assert_eq!(op.original, "اثممخ صخقمي");
    assert_eq!(op.result, "hello world");
    assert_eq!(op.start, Some(0));
    assert_eq!(op.words, 2);
    assert_eq!(op.at_ms, 500);
    let mut keys = LastOp::new("b".into(), "a".into(), Direction::ArabicToLatin, None, 1, 0);
    keys.back_arrow = KEY_RIGHT;
    let op = extended(&keys, None, "x", "", "y", 1);
    assert_eq!(op.back_arrow, KEY_RIGHT);
    assert_eq!(op.result, "ya");
}

#[test]
fn what_the_pasteboard_gave_as_a_selection() {
    assert_eq!(copied_selection(Some("abc".into())).as_deref(), Some("abc"));
    assert_eq!(copied_selection(Some(String::new())), None);
    assert_eq!(copied_selection(Some("a whole line\n".into())), None);
    assert_eq!(copied_selection(Some("a\n\n".into())), None);
    assert_eq!(copied_selection(Some("\n".into())), None);
    assert_eq!(copied_selection(Some("two\nlines\n".into())).as_deref(), Some("two\nlines\n"));
    assert_eq!(copied_selection(None), None);
}

#[test]
fn notices_for_outcomes() {
    let settings = Settings::default();
    let last = Some(LastOp::new("اثممخ".into(), "hello".into(), Direction::ArabicToLatin, None, 1, 0));
    let n = notice_for(Outcome::Converted, &last, &settings).unwrap();
    assert_eq!(n.kind, Kind::Success);
    assert_eq!(n.text, conversion_line("اثممخ", "hello", true));
    assert_eq!(n.badge.as_deref(), Some("EN"));
    let n = notice_for(Outcome::Undone, &last, &settings).unwrap();
    assert_eq!((n.kind, n.text.as_str()), (Kind::Undone, "تم التراجع"));
    let n = notice_for(Outcome::Unchanged, &None, &settings).unwrap();
    assert_eq!(n.kind, Kind::NoText);
    assert!(notice_for(Outcome::Paused, &last, &settings).is_none());
    assert!(notice_for(Outcome::Converted, &None, &settings).is_none());

    let english = Settings { language: Language::En, switch_input_source: false, ..Settings::default() };
    let n = notice_for(Outcome::Extended, &last, &english).unwrap();
    assert_eq!(n.badge, None);
    assert_eq!(n.text, conversion_line("اثممخ", "hello", false));
    let n = notice_for(Outcome::TooLong, &last, &english).unwrap();
    assert_eq!(n.text, "Selection is too long");
    let quiet = Settings { show_hud: false, ..Settings::default() };
    assert!(notice_for(Outcome::Converted, &last, &quiet).is_none());
}

#[test]
fn the_click_sound() {
    let on = Settings { sound: true, ..Settings::default() };
    assert!(plays_click(Outcome::Converted, &on));
    assert!(plays_click(Outcome::Extended, &on));
    assert!(!plays_click(Outcome::Undone, &on));
    assert!(!plays_click(Outcome::Converted, &Settings::default()));
}

#[test]
fn checks_before_reading_anything() {
    let settings = Settings::default();
    assert_eq!(precheck(&settings, true, false, Some("com.example.editor")), None);
    assert_eq!(precheck(&settings, true, false, None), None);
    assert_eq!(precheck(&settings, true, false, Some("com.apple.Terminal")), Some(Outcome::Excluded));
    assert_eq!(precheck(&settings, true, true, Some("com.apple.Terminal")), Some(Outcome::Blocked));
    assert_eq!(precheck(&settings, false, true, None), Some(Outcome::NoPermission));
    let paused = Settings { paused: true, ..Settings::default() };
    assert_eq!(precheck(&paused, false, true, None), Some(Outcome::Paused));
}

#[test]
fn the_map_falls_back_to_the_bundled_arabic() {
    let both = Snapshot { arabic: Some(StaticLayout::ArabicPc), latin: Some(StaticLayout::Abc), current_is_arabic: true };
    let map = build_map(&both);
    assert_eq!(map.convert_as("b", Direction::LatinToArabic), "لا");
    let no_arabic: Snapshot<StaticLayout> = Snapshot { arabic: None, latin: Some(StaticLayout::Abc), current_is_arabic: false };
    let map = build_map(&no_arabic);
    assert_eq!(map.convert_as("b", Direction::LatinToArabic), "ز");
    assert_eq!(map.convert_as("hello", Direction::LatinToArabic), "اثممخ");
}

#[test]
fn the_layout_to_switch_to() {
    let both = Snapshot { arabic: Some(StaticLayout::ArabicPc), latin: Some(StaticLayout::Abc), current_is_arabic: true };
    assert_eq!(layout_to_select(&both, Direction::ArabicToLatin), Some(&StaticLayout::Abc));
    assert_eq!(layout_to_select(&both, Direction::LatinToArabic), Some(&StaticLayout::ArabicPc));
    let none: Snapshot<StaticLayout> = Snapshot { arabic: None, latin: None, current_is_arabic: false };
    assert_eq!(layout_to_select(&none, Direction::ArabicToLatin), None);
}

#[test]
fn conversion_steps_selection_first_then_continuation_then_word() {
    assert_eq!(first_step(), Step::Look(Stage::Selection));
    assert_eq!(next_step(Stage::Selection, Found::Nothing, true), Step::Look(Stage::Continuation));
    assert_eq!(next_step(Stage::Selection, Found::Nothing, false), Step::Look(Stage::WordBeforeCaret));
    assert_eq!(
        next_step(Stage::Selection, Found::Done(Outcome::Converted), true),
        Step::Report(Outcome::Converted)
    );
    assert_eq!(next_step(Stage::Continuation, Found::Nothing, true), Step::Look(Stage::WordBeforeCaret));
    assert_eq!(next_step(Stage::Continuation, Found::Unknown, true), Step::Report(Outcome::NoText));
    assert_eq!(
        next_step(Stage::Continuation, Found::Done(Outcome::Extended), true),
        Step::Report(Outcome::Extended)
    );
    assert_eq!(next_step(Stage::WordBeforeCaret, Found::Nothing, false), Step::Report(Outcome::NoText));
    assert_eq!(
        next_step(Stage::WordBeforeCaret, Found::Done(Outcome::Unchanged), false),
        Step::Report(Outcome::Unchanged)
    );
}

#[test]
fn continuation_needs_the_caret_right_after_our_text() {
    let blank = Some(String::from(" "));
    assert_eq!(caret_follows(Some(10), Some((11, 0)), true, &blank), Some(11));
    assert_eq!(caret_follows(Some(10), Some((11, 2)), true, &blank), None);
    assert_eq!(caret_follows(Some(10), Some((11, 0)), false, &blank), None);
    assert_eq!(caret_follows(Some(10), Some((11, 0)), true, &Some(String::from("x"))), None);
    assert_eq!(caret_follows(Some(10), Some((9, 0)), true, &None), None);
    assert_eq!(caret_follows(None, Some((11, 0)), true, &blank), None);
}

#[test]
fn continuation_verdicts() {
    assert_eq!(continuation_verdict(false, false, false, 1), Some(Found::Done(Outcome::NoText)));
    assert_eq!(continuation_verdict(true, false, true, 1), Some(Found::Unknown));
    assert_eq!(continuation_verdict(true, true, false, 1), Some(Found::Done(Outcome::Unchanged)));
    assert_eq!(continuation_verdict(true, true, true, usize::MAX), Some(Found::Done(Outcome::Failed)));
    assert_eq!(continuation_verdict(true, true, true, 1), None);
}

#[test]
fn keyboard_edits_try_the_other_side_once() {
    assert_eq!(key_edit_found(KeyEditEnd::NothingHere, false, true), None);
    assert_eq!(key_edit_found(KeyEditEnd::NothingHere, false, false), Some(Found::Done(Outcome::NoText)));
    assert_eq!(key_edit_found(KeyEditEnd::Done, false, true), Some(Found::Done(Outcome::Converted)));
    assert_eq!(key_edit_found(KeyEditEnd::Failed, false, true), Some(Found::Done(Outcome::Failed)));
    assert_eq!(key_edit_found(KeyEditEnd::Done, true, false), Some(Found::Done(Outcome::Extended)));
    assert_eq!(key_edit_found(KeyEditEnd::NothingHere, true, false), Some(Found::Unknown));
}

#[test]
fn undo_gate_and_route() {
    assert_eq!(undo_gate(false, true, false), Some(Outcome::NoText));
    assert_eq!(undo_gate(true, false, false), Some(Outcome::Failed));
    assert_eq!(undo_gate(true, true, true), Some(Outcome::Failed));
    assert_eq!(undo_gate(true, true, false), None);

    let placed = LastOp::new("اثممخ".into(), "hello".into(), Direction::ArabicToLatin, Some(3), 1, 1000);
    assert_eq!(undo_route(&placed, true), UndoRoute::ThroughRange { start: 3, len: 5, end: 8 });
    assert_eq!(undo_route(&placed, false), UndoRoute::ByKeys { stops: 5 });
    let long = LastOp::new("x".into(), "y".repeat(MAX_UNDO_CHARS + 1), Direction::ArabicToLatin, None, 1, 1000);
    assert_eq!(undo_route(&long, true), UndoRoute::Stop(Outcome::Failed));
    assert_eq!(undo_outcome(true, true), Outcome::Undone);
    assert_eq!(undo_outcome(true, false), Outcome::Failed);
    assert_eq!(undo_outcome(false, false), Outcome::Failed);
}

#[test]
fn checks_ask_only_what_they_still_need() {
    let paused = Settings { paused: true, ..Settings::default() };
    let none = Answers { trusted: None, secure_input: None, frontmost: None };
    assert_eq!(precheck_step(&paused, &none), Check::Stop(Outcome::Paused));
    let settings = Settings::default();
    assert_eq!(precheck_step(&settings, &none), Check::Ask(Query::Trusted));
    let untrusted = Answers { trusted: Some(false), secure_input: None, frontmost: None };
    assert_eq!(precheck_step(&settings, &untrusted), Check::Stop(Outcome::NoPermission));
    let trusted = Answers { trusted: Some(true), secure_input: None, frontmost: None };
    assert_eq!(precheck_step(&settings, &trusted), Check::Ask(Query::SecureInput));
    let secure = Answers { trusted: Some(true), secure_input: Some(true), frontmost: None };
    assert_eq!(precheck_step(&settings, &secure), Check::Stop(Outcome::Blocked));
    let open = Answers { trusted: Some(true), secure_input: Some(false), frontmost: None };
    assert_eq!(precheck_step(&settings, &open), Check::Ask(Query::Frontmost));
    let terminal =
        Answers { trusted: Some(true), secure_input: Some(false), frontmost: Some(Some("com.apple.Terminal".into())) };
    assert_eq!(precheck_step(&settings, &terminal), Check::Stop(Outcome::Excluded));
    let editor =
        Answers { trusted: Some(true), secure_input: Some(false), frontmost: Some(Some("com.example.editor".into())) };
    assert_eq!(precheck_step(&settings, &editor), Check::Proceed);
    let nothing_front = Answers { trusted: Some(true), secure_input: Some(false), frontmost: Some(None) };
    assert_eq!(precheck_step(&settings, &nothing_front), Check::Proceed);
}

#[test]
fn remembered_for_the_undo_window_only() {
    let op = || LastOp::new("a".into(), "b".into(), Direction::LatinToArabic, None, 1, 1000);
    assert!(still_remembered(Some(op()), 1000 + UNDO_WINDOW_MS - 1).is_some());
    assert!(still_remembered(Some(op()), 1000 + UNDO_WINDOW_MS).is_none());
    assert!(still_remembered(None, 0).is_none());
}

#[test]
fn continuing_by_keys_counts_one_word_more() {
    let mut last = LastOp::new("a".into(), "b".into(), Direction::ArabicToLatin, None, 2, 1000);
    last.back_arrow = KEY_RIGHT;
    let op = extended_by_keys(&last, "x a".into(), "y b".into(), Direction::ArabicToLatin, 1500);
    assert_eq!(op.words, 3);
    assert_eq!(op.back_arrow, KEY_RIGHT);
    assert_eq!(op.start, None);
    assert_eq!(op.original, "x a");
    assert_eq!(op.result, "y b");
    assert_eq!(op.at_ms, 1500);
}

#[test]
fn accessibility_writes_and_pastes() {
    let text = |s: &str| Selection::Text(s.to_string());
    assert!(write_took(true, &Selection::Empty, "abc", "xyz"));
    assert!(write_took(true, &text("xyz"), "abc", "xyz"));
    assert!(!write_took(true, &text("abc"), "abc", "xyz"));
    assert!(write_took(true, &text("abc"), "abc", "abc"));
    assert!(!write_took(false, &Selection::Empty, "abc", "xyz"));
    assert!(paste_watchable(&text("abc"), "abc"));
    assert!(!paste_watchable(&text("ab"), "abc"));
    assert!(!paste_watchable(&Selection::Unavailable, "abc"));
    assert!(paste_landed(&Selection::Empty, "abc"));
    assert!(paste_landed(&text("xyz"), "abc"));
    assert!(!paste_landed(&text("abc"), "abc"));
    assert!(!paste_landed(&Selection::Unavailable, "abc"));
}

#[test]
fn the_first_saved_pasteboard_is_put_back() {
    let snap = |s: &str| Clipboard(vec![vec![(String::from("public.utf8-plain-text"), s.as_bytes().to_vec())]]);
    let mut keeper = PasteboardKeeper::new();
    assert!(keeper.needs_saving());
    assert!(keeper.to_restore().is_none());
    keeper.keep(snap("user's"));
    assert!(!keeper.needs_saving());
    keeper.keep(snap("ours"));
    assert_eq!(keeper.to_restore().map(|s| s.0.clone()), Some(snap("user's").0));
}
