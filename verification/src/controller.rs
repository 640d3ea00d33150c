//! The conversion's decisions: hotkey → read the text → convert → write it back.
//!
//! Reading and writing the other app's text, pressing keys, the clock and the channel's
//! thread are the app's business. It hands in what it read and carries out what these
//! functions decide. Nothing the user typed is kept beyond the last operation, which
//! lives in memory only, for undo and for extending the conversion one word further back.

use std::sync::mpsc::Sender;

use vstd::prelude::*;

use crate::convert::{convert_text, detect_direction, spec_detect_direction, Direction};
use crate::hud::{conversion_line, notice_view, spec_conversion_line, Kind, Notice};
use crate::layout::{spec_build, table_for, LayoutMap, LayoutProvider, MapModel, StaticLayout};
use crate::menu_text::{strings, strings_of, table_of};
use crate::settings::{contains_id, exclusions, Language, Settings};
use crate::sys::input_source::Snapshot;
use crate::text::{
    chars_of, copy_range, equals, equals_range, extend_chars, is_blank, lemma_trim_end,
    lemma_utf16_split, lemma_word_start, spec_is_blank, spec_trim_end, spec_word_start, str_eq,
    opt_view, string_of, trimmed_len, utf16_count, utf16_len, utf16_units, word_start,
};

verus! {

/// std's channel sender, carried through as an opaque value.
#[verifier::external_type_specification]
#[verifier::external_body]
#[verifier::reject_recursive_types(T)]
pub struct ExSender<T>(Sender<T>);

/// Virtual keycodes of the arrow keys.
pub const KEY_LEFT: u16 = 123;
pub const KEY_RIGHT: u16 = 124;

/// Longest selection we convert, in characters.
pub const MAX_CHARS: usize = 10000;
/// How far back from the caret we read when looking for the previous word (UTF-16 units).
pub const LOOKBEHIND_UNITS: usize = 400;
/// Undo reselects the result character by character; beyond this it is not worth it.
pub const MAX_UNDO_CHARS: usize = 300;
/// Pressing the hotkey again within this window extends the last conversion (ms).
pub const EXTEND_WINDOW_MS: u64 = 2000;
/// Undo is offered for this long after a conversion (ms).
pub const UNDO_WINDOW_MS: u64 = 30000;

#[derive(Clone, Copy, Debug, PartialEq, Eq, Structural)]
pub enum Command {
    Convert,
    Undo,
}

/// The channel into the conversion thread, reachable from the menu and the global shortcuts.
pub struct Commands {
    sender: Sender<Command>,
}

/// `Sender::send`: queues `command` for the conversion thread. Whether it gets there
/// depends on that thread still running, so nothing is stated of the outcome; a
/// command for a thread that is gone is dropped.
#[verifier::external_body]
fn post(sender: &Sender<Command>, command: Command) {
    let _ = sender.send(command);
}

impl Commands {
    /// The channel the commands go into.
    pub closed spec fn channel(self) -> Sender<Command> {
        self.sender
    }

    /// The handle for `sender`: commands sent through it go into that channel.
    pub fn new(sender: Sender<Command>) -> (r: Commands)
        ensures
            r.channel() == sender,
    {
        Commands { sender }
    }

    /// Hands `command` to the conversion thread, if it is still running.
    pub fn send(&self, command: Command) {
        post(&self.sender, command)
    }
}

/// What happened, for the UI. Carries no user text.
#[derive(Clone, Copy, Debug, PartialEq, Eq, Structural)]
pub enum Outcome {
    Converted,
    Extended,
    Undone,
    Unchanged,
    NoText,
    TooLong,
    Blocked,
    Excluded,
    Paused,
    NoPermission,
    NoLayouts,
    Failed,
}

/// The last conversion, kept for undo and for extending it one word further back.
pub struct LastOp {
    pub original: String,
    pub result: String,
    pub direction: Direction,
    /// Where `result` starts in the element's text (UTF-16), when it was placed through the
    /// accessibility text range. `None` on the key-based path.
    pub start: Option<usize>,
    /// The arrow key that walks back over the text we produced (key-based path).
    pub back_arrow: u16,
    /// Words converted so far without an explicit selection; 0 for a selection.
    pub words: usize,
    /// When it happened, in milliseconds of the app's monotonic clock.
    pub at_ms: u64,
}

/// Walking back over a result: Latin text runs left to right, Arabic right to left.
pub open spec fn spec_back_arrow(direction: Direction) -> u16 {
    match direction {
        Direction::ArabicToLatin => KEY_LEFT,
        Direction::LatinToArabic => KEY_RIGHT,
    }
}

/// Milliseconds from `at` to `now`; a clock that seems to run backwards gives 0.
pub open spec fn elapsed(at: u64, now: u64) -> int {
    if now >= at {
        now - at
    } else {
        0
    }
}

impl LastOp {
    pub fn new(
        original: String,
        result: String,
        direction: Direction,
        start: Option<usize>,
        words: usize,
        at_ms: u64,
    ) -> (r: LastOp)
        ensures
            r.original == original,
            r.result == result,
            r.direction == direction,
            r.start == start,
            r.back_arrow == spec_back_arrow(direction),
            r.words == words,
            r.at_ms == at_ms,
    {
        let back_arrow = match direction {
            Direction::ArabicToLatin => KEY_LEFT,
            Direction::LatinToArabic => KEY_RIGHT,
        };
        LastOp { original, result, direction, start, back_arrow, words, at_ms }
    }

    /// Whether a hotkey press at `now_ms`, with nothing selected, continues this conversion.
    pub fn can_extend(&self, now_ms: u64) -> (r: bool)
        ensures
            r == (elapsed(self.at_ms, now_ms) < EXTEND_WINDOW_MS && self.words > 0),
    {
        now_ms.saturating_sub(self.at_ms) < EXTEND_WINDOW_MS && self.words > 0
    }

    /// Whether undo is still offered at `now_ms`.
    pub fn can_undo(&self, now_ms: u64) -> (r: bool)
        ensures
            r == (elapsed(self.at_ms, now_ms) < UNDO_WINDOW_MS),
    {
        now_ms.saturating_sub(self.at_ms) < UNDO_WINDOW_MS
    }

    /// How long undo stays on offer after `now_ms`, when the text leaves memory and the menu.
    pub fn undo_time_left(&self, now_ms: u64) -> (r: u64)
        ensures
            r == (if elapsed(self.at_ms, now_ms) < UNDO_WINDOW_MS {
                UNDO_WINDOW_MS - elapsed(self.at_ms, now_ms)
            } else {
                0
            }),
    {
        UNDO_WINDOW_MS.saturating_sub(now_ms.saturating_sub(self.at_ms))
    }

    /// Where `result` ends in the element's text (UTF-16), when it was placed through the
    /// text range; `None` on the key-based path, or when the end would not fit in a `usize`.
    pub fn result_end(&self) -> (r: Option<usize>)
        ensures
            r == (match self.start {
                Some(s) => if s + utf16_count(self.result@) <= usize::MAX {
                    Some((s + utf16_count(self.result@)) as usize)
                } else {
                    None
                },
                None => None,
            }),
    {
        match self.start {
            Some(s) => s.checked_add(utf16_len(self.result.as_str())),
            None => None,
        }
    }
}

/// The badge for the input source the conversion switched to.
pub open spec fn spec_badge(direction: Direction) -> Seq<char> {
    match direction {
        Direction::ArabicToLatin => "EN"@,
        Direction::LatinToArabic => "ع"@,
    }
}

/// The input source the conversion switched to.
pub fn badge(direction: Direction) -> (r: &'static str)
    ensures
        r@ == spec_badge(direction),
{
    match direction {
        Direction::ArabicToLatin => "EN",
        Direction::LatinToArabic => "ع",
    }
}

/// A notice with a fixed message and no badge.
pub fn notice(kind: Kind, text: &str) -> (r: Notice)
    ensures
        notice_view(r) == (kind, text@, None::<Seq<char>>),
{
    Notice { kind, text: text.to_owned(), badge: None }
}

/// How many Shift-arrow presses cover `s`: Arabic marks ride on their base letter.
pub open spec fn spec_caret_stops(s: Seq<char>) -> nat
    decreases s.len(),
{
    if s.len() == 0 {
        0
    } else {
        spec_caret_stops(s.drop_last()) + if is_mark(s.last()) {
            0nat
        } else {
            1nat
        }
    }
}

/// The Arabic combining marks (harakat, and the superscript alef).
pub open spec fn is_mark(c: char) -> bool {
    let u = c as u32;
    (0x064B <= u <= 0x065F) || u == 0x0670
}

pub proof fn lemma_caret_stops_bound(s: Seq<char>)
    ensures
        spec_caret_stops(s) <= s.len(),
    decreases s.len(),
{
    if s.len() > 0 {
        lemma_caret_stops_bound(s.drop_last());
    }
}

pub fn caret_stops(s: &str) -> (r: usize)
    ensures
        r == spec_caret_stops(s@),
{
    let v = chars_of(s);
    let mut n: usize = 0;
    let mut i: usize = 0;
    while i < v.len()
        invariant
            v@ == s@,
            i <= v.len(),
            n == spec_caret_stops(v@.take(i as int)),
        decreases v.len() - i,
    {
        assert(v@.take(i + 1).drop_last() =~= v@.take(i as int));
        proof {
            lemma_caret_stops_bound(v@.take(i as int));
        }
        let u = v[i] as u32;
        if !((0x064B <= u && u <= 0x065F) || u == 0x0670) {
            n += 1;
        }
        i += 1;
    }
    assert(v@.take(v.len() as int) =~= v@);
    n
}

/// The other horizontal arrow.
pub open spec fn spec_opposite(arrow: u16) -> u16 {
    if arrow == KEY_LEFT {
        KEY_RIGHT
    } else {
        KEY_LEFT
    }
}

pub fn opposite(arrow: u16) -> (r: u16)
    ensures
        r == spec_opposite(arrow),
{
    if arrow == KEY_LEFT {
        KEY_RIGHT
    } else {
        KEY_LEFT
    }
}

/// Where the last whitespace-delimited word of `line` begins, when there is one after
/// its trailing whitespace is set aside.
pub open spec fn spec_last_word_start(line: Seq<char>) -> Option<nat> {
    let t = spec_trim_end(line);
    if spec_word_start(t) < t.len() {
        Some(spec_word_start(t))
    } else {
        None
    }
}

proof fn lemma_last_word_start(line: Seq<char>)
    ensures
        spec_last_word_start(line) matches Some(k) ==> k < line.len(),
{
    lemma_trim_end(line);
    lemma_word_start(spec_trim_end(line));
}

fn last_word_start(v: &Vec<char>) -> (r: Option<usize>)
    ensures
        match spec_last_word_start(v@) {
            Some(k) => k < v.len() && r == Some(k as usize),
            None => r is None,
        },
{
    let t = trimmed_len(v);
    let k = word_start(v, t);
    proof {
        lemma_last_word_start(v@);
        lemma_word_start(v@.take(t as int));
    }
    if k < t {
        Some(k)
    } else {
        None
    }
}

/// The last whitespace-delimited word of `line`, with any whitespace that follows it.
pub fn last_word_and_trailing_space(line: &str) -> (r: Option<String>)
    ensures
        match spec_last_word_start(line@) {
            Some(k) => r matches Some(tail) && tail@ == line@.skip(k as int),
            None => r is None,
        },
{
    let v = chars_of(line);
    let k = match last_word_start(&v) {
        Some(k) => k,
        None => return None,
    };
    let tail = copy_range(&v, k, v.len());
    assert(tail@ =~= line@.skip(k as int));
    Some(string_of(&tail))
}

/// The direction to convert in: the one the text's own letters point to, or, with no
/// letters to go on, the one implied by the active layout.
pub open spec fn direction_or(detected: Option<Direction>, expected: Direction) -> Direction {
    match detected {
        Some(d) => d,
        None => expected,
    }
}

/// `text` converted in `direction`, or `None` when that changes nothing.
pub open spec fn spec_fix_in(m: MapModel, text: Seq<char>, direction: Direction) -> Option<
    Seq<char>,
> {
    let c = convert_text(table_for(m, direction), direction, text);
    if c == text {
        None
    } else {
        Some(c)
    }
}

/// Converts `text` in `direction`; `None` when the result is the text itself.
pub fn fix_in(map: &LayoutMap, text: &str, direction: Direction) -> (r: Option<String>)
    ensures
        opt_string_view(r) == spec_fix_in(map@, text@, direction),
{
    let result = map.convert_as(text, direction);
    if str_eq(result.as_str(), text) {
        None
    } else {
        Some(result)
    }
}

pub open spec fn opt_string_view(o: Option<String>) -> Option<Seq<char>> {
    match o {
        Some(s) => Some(s@),
        None => None,
    }
}

/// A conversion worth writing back.
pub struct Fix {
    pub result: String,
    pub direction: Direction,
}

/// `text` converted in the direction its letters point to (or `expected`), with that
/// direction; `None` when converting changes nothing.
pub open spec fn spec_fix(m: MapModel, text: Seq<char>, expected: Direction) -> Option<
    (Seq<char>, Direction),
> {
    let d = direction_or(spec_detect_direction(text), expected);
    match spec_fix_in(m, text, d) {
        Some(c) => Some((c, d)),
        None => None,
    }
}

pub fn fix(map: &LayoutMap, text: &str, expected: Direction) -> (r: Option<Fix>)
    ensures
        match spec_fix(map@, text@, expected) {
            Some((c, d)) => r matches Some(f) && f.result@ == c && f.direction == d,
            None => r is None,
        },
{
    let direction = match detect_direction(text) {
        Some(d) => d,
        None => expected,
    };
    let result = match fix_in(map, text, direction) {
        Some(r) => r,
        None => return None,
    };
    Some(Fix { result, direction })
}

/// Whether a selection is too long to convert.
pub fn too_long(text: &str) -> (r: bool)
    ensures
        r == (text@.len() > MAX_CHARS),
{
    text.unicode_len() > MAX_CHARS
}

/// What to do with a line read through the keyboard: `kept` stays, `replaced` (the rest of
/// the line) becomes `converted`.
pub struct LineEdit {
    pub kept: String,
    pub replaced: String,
    pub converted: String,
    pub direction: Direction,
}

pub open spec fn line_edit_view(e: LineEdit) -> (Seq<char>, Seq<char>, Seq<char>, Direction) {
    (e.kept@, e.replaced@, e.converted@, e.direction)
}

pub open spec fn opt_line_edit_view(o: Option<LineEdit>) -> Option<
    (Seq<char>, Seq<char>, Seq<char>, Direction),
> {
    match o {
        Some(e) => Some(line_edit_view(e)),
        None => None,
    }
}

impl LineEdit {
    /// The line as it is to be written back.
    pub fn replacement(&self) -> (r: String)
        ensures
            r@ == self.kept@ + self.converted@,
    {
        let mut v = chars_of(self.kept.as_str());
        extend_chars(&mut v, &chars_of(self.converted.as_str()));
        string_of(&v)
    }
}

/// The edit of a line (the text between the line's edge and the caret) that converts its
/// last word, trailing whitespace included; `None` when there is no word or converting it
/// changes nothing.
pub open spec fn spec_plan_last_word(m: MapModel, line: Seq<char>, expected: Direction) -> Option<
    (Seq<char>, Seq<char>, Seq<char>, Direction),
> {
    match spec_last_word_start(line) {
        Some(k) => {
            let tail = line.skip(k as int);
            match spec_fix(m, tail, expected) {
                Some((c, d)) => Some((line.take(k as int), tail, c, d)),
                None => None,
            }
        },
        None => None,
    }
}

pub fn plan_last_word(map: &LayoutMap, line: &str, expected: Direction) -> (r: Option<LineEdit>)
    ensures
        opt_line_edit_view(r) == spec_plan_last_word(map@, line@, expected),
{
    let v = chars_of(line);
    let k = match last_word_start(&v) {
        Some(k) => k,
        None => return None,
    };
    let tail_chars = copy_range(&v, k, v.len());
    let kept = copy_range(&v, 0, k);
    assert(tail_chars@ =~= line@.skip(k as int));
    assert(kept@ =~= line@.take(k as int));
    let tail = string_of(&tail_chars);
    let f = match fix(map, tail.as_str(), expected) {
        Some(f) => f,
        None => return None,
    };
    Some(LineEdit { kept: string_of(&kept), replaced: tail, converted: f.result, direction: f.direction })
}

/// Extending on the key-based path: the line must still end with what we produced last
/// time (trailing whitespace aside); the word before it is converted in the same direction
/// and the rest of the line kept as it is.
pub open spec fn spec_plan_extension(
    m: MapModel,
    line: Seq<char>,
    last_result: Seq<char>,
    direction: Direction,
) -> Option<(Seq<char>, Seq<char>, Seq<char>, Direction)> {
    let end = spec_trim_end(line).len();
    let ours = spec_trim_end(last_result);
    if ours.len() > end {
        None
    } else {
        let start = end - ours.len();
        if line.subrange(start, end as int) != ours {
            None
        } else {
            match spec_last_word_start(line.take(start)) {
                Some(k) => {
                    let word = line.subrange(k as int, start);
                    let converted = convert_text(table_for(m, direction), direction, word)
                        + line.skip(start);
                    if converted == line.skip(k as int) {
                        None
                    } else {
                        Some((line.take(k as int), line.skip(k as int), converted, direction))
                    }
                },
                None => None,
            }
        }
    }
}

pub fn plan_extension(map: &LayoutMap, line: &str, last_result: &str, direction: Direction) -> (r:
    Option<LineEdit>)
    ensures
        opt_line_edit_view(r) == spec_plan_extension(map@, line@, last_result@, direction),
{
    let v = chars_of(line);
    let end = trimmed_len(&v);
    let rv = chars_of(last_result);
    let rt = trimmed_len(&rv);
    if rt > end {
        return None;
    }
    let start = end - rt;
    let ours = copy_range(&rv, 0, rt);
    assert(ours@ =~= rv@.take(rt as int));
    if !equals_range(&ours, &v, start, rt) {
        return None;
    }
    let before = copy_range(&v, 0, start);
    assert(before@ =~= line@.take(start as int));
    let k = match last_word_start(&before) {
        Some(k) => k,
        None => return None,
    };
    let word = string_of(&copy_range(&v, k, start));
    let mut converted = chars_of(map.convert_as(word.as_str(), direction).as_str());
    let rest = copy_range(&v, start, v.len());
    assert(rest@ =~= line@.skip(start as int));
    extend_chars(&mut converted, &rest);
    let replaced = copy_range(&v, k, v.len());
    assert(replaced@ =~= line@.skip(k as int));
    if equals(&converted, &replaced) {
        return None;
    }
    let kept = copy_range(&v, 0, k);
    assert(kept@ =~= line@.take(k as int));
    Some(
        LineEdit {
            kept: string_of(&kept),
            replaced: string_of(&replaced),
            converted: string_of(&converted),
            direction,
        },
    )
}

/// A word located through the accessibility text range. Offsets are UTF-16 units.
pub struct Word {
    pub start: usize,
    pub len: usize,
    pub text: String,
}

/// Where to start reading when looking for the word before `end`.
pub fn lookbehind_start(end: usize) -> (r: usize)
    ensures
        r == (if end >= LOOKBEHIND_UNITS {
            end - LOOKBEHIND_UNITS
        } else {
            0
        }),
{
    end.saturating_sub(LOOKBEHIND_UNITS)
}

/// The last whitespace-delimited word of `text`, which the element reported for the
/// UTF-16 range `from..end`, as (start, length, text). `None` when there is none, or when
/// the text is not as long as the range: then the app's offsets are not UTF-16, and we do
/// not guess.
pub open spec fn spec_previous_word(text: Seq<char>, from: nat, end: nat) -> Option<
    (nat, nat, Seq<char>),
> {
    if utf16_count(text) != end - from {
        None
    } else {
        let t = spec_trim_end(text);
        let k = spec_word_start(t);
        let word = t.skip(k as int);
        if word.len() == 0 {
            None
        } else {
            Some((from + utf16_count(text.take(k as int)), utf16_count(word), word))
        }
    }
}

pub open spec fn opt_word_view(o: Option<Word>) -> Option<(nat, nat, Seq<char>)> {
    match o {
        Some(w) => Some((w.start as nat, w.len as nat, w.text@)),
        None => None,
    }
}

pub fn previous_word(text: &str, from: usize, end: usize) -> (r: Option<Word>)
    requires
        from <= end,
    ensures
        opt_word_view(r) == spec_previous_word(text@, from as nat, end as nat),
        utf16_units(text@) < usize::MAX ==> (r matches Some(w) ==> w.start + w.len <= end),
{
    if utf16_len(text) != end - from {
        return None;
    }
    let v = chars_of(text);
    let t = trimmed_len(&v);
    let k = word_start(&v, t);
    proof {
        lemma_trim_end(v@);
        lemma_word_start(v@.take(t as int));
    }
    if k >= t {
        assert(spec_trim_end(text@).skip(k as int).len() == 0);
        return None;
    }
    let head = copy_range(&v, 0, k);
    let word = copy_range(&v, k, t);
    assert(head@ =~= text@.take(k as int));
    assert(word@ =~= spec_trim_end(text@).skip(k as int));
    let head_s = string_of(&head);
    let word_s = string_of(&word);
    let head_units = utf16_len(head_s.as_str());
    let word_units = utf16_len(word_s.as_str());
    proof {
        assert(v@.take(k as int) =~= v@.take(t as int).take(k as int));
        lemma_utf16_split(v@, k as int);
        lemma_utf16_split(v@.skip(k as int), (t - k) as int);
        assert(v@.skip(k as int).take((t - k) as int) =~= word@);
    }
    Some(Word { start: from + head_units, len: word_units, text: word_s })
}

/// Where the caret goes after `word` is replaced by text `replacement_units` long: the
/// same place relative to the text after the word (the user may have typed a space after
/// it), never before the word's start.
pub open spec fn spec_caret_after(caret: nat, replacement_units: nat, start: nat, len: nat) -> nat {
    let moved = if caret + replacement_units >= len {
        (caret + replacement_units - len) as nat
    } else {
        0
    };
    if moved >= start {
        moved
    } else {
        start
    }
}

pub fn caret_after(caret: usize, replacement: &str, word: &Word) -> (r: usize)
    requires
        caret + utf16_count(replacement@) <= usize::MAX,
    ensures
        r == spec_caret_after(caret as nat, utf16_count(replacement@), word.start as nat, word.len as nat),
{
    let moved = (caret + utf16_len(replacement)).saturating_sub(word.len);
    if moved >= word.start {
        moved
    } else {
        word.start
    }
}

/// Whether the caret still follows our text: it is at or after `end` and only whitespace
/// (`gap`, as the element reports the range `end..caret`) lies between.
pub fn follows(caret: usize, end: usize, gap: &Option<String>) -> (r: bool)
    ensures
        r == (caret >= end && (gap matches Some(g) && spec_is_blank(g@))),
{
    if caret < end {
        return false;
    }
    match gap {
        Some(g) => is_blank(g.as_str()),
        None => false,
    }
}

/// The operation after extending `last` by `word`: its text is prepended, with the
/// whitespace (`gap`) that separated them, and the word count goes up by one.
pub fn extended(
    last: &LastOp,
    word_start: Option<usize>,
    word: &str,
    gap: &str,
    converted: &str,
    at_ms: u64,
) -> (r: LastOp)
    requires
        last.words < usize::MAX,
    ensures
        r.original@ == word@ + gap@ + last.original@,
        r.result@ == converted@ + gap@ + last.result@,
        r.direction == last.direction,
        r.start == word_start,
        r.back_arrow == (if word_start is Some {
            spec_back_arrow(last.direction)
        } else {
            last.back_arrow
        }),
        r.words == last.words + 1,
        r.at_ms == at_ms,
{
    let mut original = chars_of(word);
    extend_chars(&mut original, &chars_of(gap));
    extend_chars(&mut original, &chars_of(last.original.as_str()));
    let mut result = chars_of(converted);
    extend_chars(&mut result, &chars_of(gap));
    extend_chars(&mut result, &chars_of(last.result.as_str()));
    let mut op = LastOp::new(
        string_of(&original),
        string_of(&result),
        last.direction,
        word_start,
        last.words + 1,
        at_ms,
    );
    if word_start.is_none() {
        op.back_arrow = last.back_arrow;
    }
    op
}

/// The pasteboard's answer to our ⌘C as a selection: an empty copy is none, and so is a
/// whole line that editors like VS Code copy when nothing is selected (a trailing newline
/// and no other line break).
pub open spec fn spec_is_line_copy(t: Seq<char>) -> bool {
    t.len() > 0 && t.last() == '\n' && forall|i: int|
        0 <= i < spec_trim_newlines(t).len() ==> #[trigger] spec_trim_newlines(t)[i] != '\n'
}

/// `t` without its trailing newlines (`trim_end_matches('\n')`).
pub open spec fn spec_trim_newlines(t: Seq<char>) -> Seq<char>
    decreases t.len(),
{
    if t.len() > 0 && t.last() == '\n' {
        spec_trim_newlines(t.drop_last())
    } else {
        t
    }
}

proof fn lemma_trim_newlines(t: Seq<char>)
    ensures
        spec_trim_newlines(t).len() <= t.len(),
        spec_trim_newlines(t) == t.take(spec_trim_newlines(t).len() as int),
    decreases t.len(),
{
    if t.len() > 0 && t.last() == '\n' {
        lemma_trim_newlines(t.drop_last());
        assert(t.drop_last().take(spec_trim_newlines(t).len() as int) =~= t.take(
            spec_trim_newlines(t).len() as int,
        ));
    } else {
        assert(t.take(t.len() as int) =~= t);
    }
}

fn is_line_copy(v: &Vec<char>) -> (r: bool)
    ensures
        r == spec_is_line_copy(v@),
{
    let n = v.len();
    if n == 0 || v[n - 1] != '\n' {
        return false;
    }
    let mut end = n;
    assert(v@.take(end as int) =~= v@);
    while end > 0 && v[end - 1] == '\n'
        invariant
            end <= n == v.len(),
            spec_trim_newlines(v@.take(end as int)) == spec_trim_newlines(v@),
        decreases end,
    {
        assert(v@.take(end as int).drop_last() =~= v@.take(end - 1));
        end -= 1;
    }
    proof {
        if end > 0 {
            assert(v@.take(end as int).last() == v@[end - 1]);
        }
        lemma_trim_newlines(v@);
    }
    let mut i: usize = 0;
    while i < end
        invariant
            i <= end <= v.len(),
            spec_trim_newlines(v@) == v@.take(end as int),
            forall|j: int| 0 <= j < i ==> v@[j] != '\n',
        decreases end - i,
    {
        if v[i] == '\n' {
            assert(spec_trim_newlines(v@)[i as int] == '\n');
            return false;
        }
        i += 1;
    }
    assert forall|j: int| 0 <= j < spec_trim_newlines(v@).len() implies #[trigger] spec_trim_newlines(
        v@,
    )[j] != '\n' by {
        assert(spec_trim_newlines(v@)[j] == v@[j]);
    }
    true
}

/// What our ⌘C put on the pasteboard, read as the selection.
pub fn copied_selection(text: Option<String>) -> (r: Option<String>)
    ensures
        match text {
            Some(t) => if t@.len() > 0 && !spec_is_line_copy(t@) {
                r == Some(t)
            } else {
                r is None
            },
            None => r is None,
        },
{
    match text {
        Some(t) => {
            let v = chars_of(t.as_str());
            if v.len() > 0 && !is_line_copy(&v) {
                Some(t)
            } else {
                None
            }
        },
        None => None,
    }
}

/// The last operation as (original, result, direction).
pub open spec fn last_view(last: Option<LastOp>) -> Option<(Seq<char>, Seq<char>, Direction)> {
    match last {
        Some(op) => Some((op.original@, op.result@, op.direction)),
        None => None,
    }
}

pub open spec fn opt_notice_view(n: Option<Notice>) -> Option<(Kind, Seq<char>, Option<Seq<char>>)> {
    match n {
        Some(n) => Some(notice_view(n)),
        None => None,
    }
}

/// The notice for an outcome: the conversion itself for a success, with the badge of the
/// input source switched to; a fixed message for undo, secure input, a selection too long,
/// and nothing to convert. Paused, excluded or missing permission show nothing (the menu
/// already says so, and a notice on every keypress would be noise), nor does anything
/// when notices are switched off.
pub open spec fn spec_notice(
    outcome: Outcome,
    last: Option<(Seq<char>, Seq<char>, Direction)>,
    settings: Settings,
) -> Option<(Kind, Seq<char>, Option<Seq<char>>)> {
    let text = strings_of(table_of(settings.language));
    let rtl = settings.language == Language::Ar;
    if !settings.show_hud {
        None
    } else {
        match outcome {
            Outcome::Converted | Outcome::Extended => match last {
                Some((from, to, d)) => Some(
                    (
                        Kind::Success,
                        spec_conversion_line(from, to, rtl),
                        if settings.switch_input_source {
                            Some(spec_badge(d))
                        } else {
                            None
                        },
                    ),
                ),
                None => None,
            },
            Outcome::Undone => Some((Kind::Undone, text.hud_undone@, None)),
            Outcome::Blocked => Some((Kind::Blocked, text.hud_blocked@, None)),
            Outcome::TooLong => Some((Kind::TooLong, text.hud_too_long@, None)),
            Outcome::NoText | Outcome::Unchanged => Some((Kind::NoText, text.hud_no_text@, None)),
            _ => None,
        }
    }
}

pub fn notice_for(outcome: Outcome, last: &Option<LastOp>, settings: &Settings) -> (r: Option<
    Notice,
>)
    ensures
        opt_notice_view(r) == spec_notice(outcome, last_view(*last), *settings),
{
    if !settings.show_hud {
        return None;
    }
    let text = strings(settings.language);
    let rtl = settings.language == Language::Ar;
    match outcome {
        Outcome::Converted | Outcome::Extended => match last {
            Some(op) => {
                let badge_text = if settings.switch_input_source {
                    Some(badge(op.direction).to_owned())
                } else {
                    None
                };
                Some(
                    Notice {
                        kind: Kind::Success,
                        text: conversion_line(op.original.as_str(), op.result.as_str(), rtl),
                        badge: badge_text,
                    },
                )
            },
            None => None,
        },
        Outcome::Undone => Some(notice(Kind::Undone, text.hud_undone)),
        Outcome::Blocked => Some(notice(Kind::Blocked, text.hud_blocked)),
        Outcome::TooLong => Some(notice(Kind::TooLong, text.hud_too_long)),
        Outcome::NoText | Outcome::Unchanged => Some(notice(Kind::NoText, text.hud_no_text)),
        _ => None,
    }
}

/// Whether the outcome earns the click sound.
pub fn plays_click(outcome: Outcome, settings: &Settings) -> (r: bool)
    ensures
        r == ((outcome == Outcome::Converted || outcome == Outcome::Extended) && settings.sound),
{
    (outcome == Outcome::Converted || outcome == Outcome::Extended) && settings.sound
}

/// The checks before anything is read, in order: paused, no Accessibility permission,
/// secure input on, the frontmost app (its bundle id) excluded. `None` when none applies.
pub open spec fn spec_precheck(
    settings: Settings,
    trusted: bool,
    secure_input: bool,
    frontmost: Option<Seq<char>>,
) -> Option<Outcome> {
    if settings.paused {
        Some(Outcome::Paused)
    } else if !trusted {
        Some(Outcome::NoPermission)
    } else if secure_input {
        Some(Outcome::Blocked)
    } else if frontmost matches Some(id) && exclusions(settings).contains(id) {
        Some(Outcome::Excluded)
    } else {
        None
    }
}

pub fn precheck(settings: &Settings, trusted: bool, secure_input: bool, frontmost: Option<&str>) -> (r:
    Option<Outcome>)
    ensures
        r == spec_precheck(
            *settings,
            trusted,
            secure_input,
            match frontmost {
                Some(id) => Some(id@),
                None => None,
            },
        ),
{
    if settings.paused {
        return Some(Outcome::Paused);
    }
    if !trusted {
        return Some(Outcome::NoPermission);
    }
    if secure_input {
        return Some(Outcome::Blocked);
    }
    match frontmost {
        Some(id) => if contains_id(&settings.excluded_apps, id) {
            Some(Outcome::Excluded)
        } else {
            None
        },
        None => None,
    }
}

/// The map to convert with: the two enabled layouts, or, with either missing, the bundled
/// macOS "Arabic" paired with "ABC", the best guess.
pub open spec fn spec_build_map<L: LayoutProvider>(layouts: Snapshot<L>) -> MapModel {
    match (layouts.arabic, layouts.latin) {
        (Some(arabic), Some(latin)) => spec_build(&arabic, &latin),
        _ => spec_build(&StaticLayout::ArabicMac, &StaticLayout::Abc),
    }
}

pub fn build_map<L: LayoutProvider>(layouts: &Snapshot<L>) -> (r: LayoutMap)
    ensures
        r@ == spec_build_map(*layouts),
{
    match (&layouts.arabic, &layouts.latin) {
        (Some(arabic), Some(latin)) => LayoutMap::build(arabic, latin),
        _ => LayoutMap::arabic_mac(),
    }
}

/// The direction implied by the active layout: the one wrong text was typed with.
pub fn expected_direction(current_is_arabic: bool) -> (r: Direction)
    ensures
        r == (if current_is_arabic {
            Direction::ArabicToLatin
        } else {
            Direction::LatinToArabic
        }),
{
    if current_is_arabic {
        Direction::ArabicToLatin
    } else {
        Direction::LatinToArabic
    }
}

/// The arrows to try, in order, when selecting back to the line's edge. Arabic script runs
/// right to left, so in apps that move the caret visually "back" is the right arrow; the
/// likelier side comes first.
pub fn arrows_for(expected: Direction) -> (r: [u16; 2])
    ensures
        r@ == (match expected {
            Direction::ArabicToLatin => seq![KEY_RIGHT, KEY_LEFT],
            Direction::LatinToArabic => seq![KEY_LEFT, KEY_RIGHT],
        }),
{
    let r = match expected {
        Direction::ArabicToLatin => [KEY_RIGHT, KEY_LEFT],
        Direction::LatinToArabic => [KEY_LEFT, KEY_RIGHT],
    };
    assert(r@ =~= (match expected {
        Direction::ArabicToLatin => seq![KEY_RIGHT, KEY_LEFT],
        Direction::LatinToArabic => seq![KEY_LEFT, KEY_RIGHT],
    }));
    r
}

/// The layout to switch to once text has been converted: the one it was meant for.
pub fn layout_to_select<L>(layouts: &Snapshot<L>, direction: Direction) -> (r: Option<&L>)
    ensures
        match direction {
            Direction::ArabicToLatin => match r {
                Some(l) => layouts.latin == Some(*l),
                None => layouts.latin is None,
            },
            Direction::LatinToArabic => match r {
                Some(l) => layouts.arabic == Some(*l),
                None => layouts.arabic is None,
            },
        },
{
    match direction {
        Direction::ArabicToLatin => layouts.latin.as_ref(),
        Direction::LatinToArabic => layouts.arabic.as_ref(),
    }
}

/// The places a conversion takes its text from, in the order they are tried: the selection
/// first, so nothing before the caret is read while text is selected.
#[derive(Clone, Copy, Debug, PartialEq, Eq, Structural)]
pub enum Stage {
    /// What is selected.
    Selection,
    /// The word before the text the last conversion produced, while that conversion may still
    /// be continued.
    Continuation,
    /// The word before the caret.
    WordBeforeCaret,
}

/// What the app found at a stage.
#[derive(Clone, Copy, Debug, PartialEq, Eq, Structural)]
pub enum Found {
    /// Nothing to work on there: no selection, or the caret no longer follows the last
    /// conversion's text.
    Nothing,
    /// The continuation could not tell whether the caret still follows the last conversion's
    /// text. At the other stages this counts as nothing found.
    Unknown,
    /// The stage did its work, with this outcome.
    Done(Outcome),
}

/// What a conversion does next: look at a stage, or report how it ended.
#[derive(Clone, Copy, Debug, PartialEq, Eq, Structural)]
pub enum Step {
    Look(Stage),
    Report(Outcome),
}

/// The step after finding `found` at `stage`, where `can_continue` says whether the last
/// conversion may still be continued. An outcome is reported as it is; with nothing
/// selected the last conversion is continued when it may be, else the word before the caret
/// is taken; a continuation that cannot tell stops with no text, since going on would find
/// the word it just converted and convert it back.
pub open spec fn spec_next_step(stage: Stage, found: Found, can_continue: bool) -> Step {
    match found {
        Found::Done(outcome) => Step::Report(outcome),
        Found::Nothing => match stage {
            Stage::Selection => if can_continue {
                Step::Look(Stage::Continuation)
            } else {
                Step::Look(Stage::WordBeforeCaret)
            },
            Stage::Continuation => Step::Look(Stage::WordBeforeCaret),
            Stage::WordBeforeCaret => Step::Report(Outcome::NoText),
        },
        Found::Unknown => match stage {
            Stage::Selection => if can_continue {
                Step::Look(Stage::Continuation)
            } else {
                Step::Look(Stage::WordBeforeCaret)
            },
            Stage::Continuation => Step::Report(Outcome::NoText),
            Stage::WordBeforeCaret => Step::Report(Outcome::NoText),
        },
    }
}

/// Where a stage comes in the order they are tried.
pub open spec fn stage_rank(stage: Stage) -> nat {
    match stage {
        Stage::Selection => 0,
        Stage::Continuation => 1,
        Stage::WordBeforeCaret => 2,
    }
}

/// A conversion starts with the selection.
pub fn first_step() -> (r: Step)
    ensures
        r == Step::Look(Stage::Selection),
{
    Step::Look(Stage::Selection)
}

/// The step after finding `found` at `stage` ([`spec_next_step`]).
pub fn next_step(stage: Stage, found: Found, can_continue: bool) -> (r: Step)
    ensures
        r == spec_next_step(stage, found, can_continue),
{
    match found {
        Found::Done(outcome) => Step::Report(outcome),
        Found::Nothing => match stage {
            Stage::Selection => if can_continue {
                Step::Look(Stage::Continuation)
            } else {
                Step::Look(Stage::WordBeforeCaret)
            },
            Stage::Continuation => Step::Look(Stage::WordBeforeCaret),
            Stage::WordBeforeCaret => Step::Report(Outcome::NoText),
        },
        Found::Unknown => match stage {
            Stage::Selection => if can_continue {
                Step::Look(Stage::Continuation)
            } else {
                Step::Look(Stage::WordBeforeCaret)
            },
            Stage::Continuation => Step::Report(Outcome::NoText),
            Stage::WordBeforeCaret => Step::Report(Outcome::NoText),
        },
    }
}

/// Whether the caret, read through the text range, still follows the last conversion's
/// text, ending at `end`: nothing is selected, the text is `still_there`, and only
/// whitespace (`gap`, read from `end` to the caret) lies between. Gives the caret when it
/// does; otherwise the conversion is a new one, not a continuation.
pub open spec fn spec_caret_follows(
    end: Option<usize>,
    selection: Option<(usize, usize)>,
    still_there: bool,
    gap: Option<Seq<char>>,
) -> Option<usize> {
    match (end, selection) {
        (Some(e), Some((caret, 0))) => if still_there && caret >= e && (gap matches Some(g)
            && spec_is_blank(g)) {
            Some(caret)
        } else {
            None
        },
        _ => None,
    }
}

/// Whether the caret still follows the last conversion's text ([`spec_caret_follows`]).
pub fn caret_follows(
    end: Option<usize>,
    selection: Option<(usize, usize)>,
    still_there: bool,
    gap: &Option<String>,
) -> (r: Option<usize>)
    ensures
        r == spec_caret_follows(end, selection, still_there, opt_view(*gap)),
{
    match (end, selection) {
        (Some(e), Some((caret, 0))) => {
            if still_there && follows(caret, e, gap) {
                Some(caret)
            } else {
                None
            }
        },
        _ => None,
    }
}

/// What the continuation on the text range makes of what it read before its own text:
/// no word there ends with no text; a gap it cannot read leaves it unable to tell; a word
/// that needs no change ends unchanged; a count of words that cannot grow ends in failure.
/// `None` when the word is to be replaced by its conversion.
pub open spec fn spec_continuation_verdict(
    word_found: bool,
    gap_read: bool,
    converted: bool,
    words: usize,
) -> Option<Found> {
    if !word_found {
        Some(Found::Done(Outcome::NoText))
    } else if !gap_read {
        Some(Found::Unknown)
    } else if !converted {
        Some(Found::Done(Outcome::Unchanged))
    } else if words == usize::MAX {
        Some(Found::Done(Outcome::Failed))
    } else {
        None
    }
}

/// What the continuation makes of what it read ([`spec_continuation_verdict`]).
pub fn continuation_verdict(word_found: bool, gap_read: bool, converted: bool, words: usize) -> (r:
    Option<Found>)
    ensures
        r == spec_continuation_verdict(word_found, gap_read, converted, words),
{
    if !word_found {
        Some(Found::Done(Outcome::NoText))
    } else if !gap_read {
        Some(Found::Unknown)
    } else if !converted {
        Some(Found::Done(Outcome::Unchanged))
    } else if words == usize::MAX {
        Some(Found::Done(Outcome::Failed))
    } else {
        None
    }
}

/// How an edit of the line through the keyboard ended.
#[derive(Clone, Copy, Debug, PartialEq, Eq, Structural)]
pub enum KeyEditEnd {
    /// The text was replaced.
    Done,
    /// Nothing usable on this side of the caret.
    NothingHere,
    Failed,
}

/// What a keyboard edit on one side of the caret comes to. Taking the word before the caret,
/// nothing on this side means trying the other side while one is left, and no text once
/// both were tried; continuing the last conversion, it means the conversion cannot tell
/// where its text went. `None`: try the other side.
pub open spec fn spec_key_edit_found(end: KeyEditEnd, continuing: bool, side_left: bool) -> Option<
    Found,
> {
    match end {
        KeyEditEnd::Done => Some(
            Found::Done(
                if continuing {
                    Outcome::Extended
                } else {
                    Outcome::Converted
                },
            ),
        ),
        KeyEditEnd::Failed => Some(Found::Done(Outcome::Failed)),
        KeyEditEnd::NothingHere => if continuing {
            Some(Found::Unknown)
        } else if side_left {
            None
        } else {
            Some(Found::Done(Outcome::NoText))
        },
    }
}

/// What a keyboard edit comes to ([`spec_key_edit_found`]).
pub fn key_edit_found(end: KeyEditEnd, continuing: bool, side_left: bool) -> (r: Option<Found>)
    ensures
        r == spec_key_edit_found(end, continuing, side_left),
{
    match end {
        KeyEditEnd::Done => Some(
            Found::Done(
                if continuing {
                    Outcome::Extended
                } else {
                    Outcome::Converted
                },
            ),
        ),
        KeyEditEnd::Failed => Some(Found::Done(Outcome::Failed)),
        KeyEditEnd::NothingHere => if continuing {
            Some(Found::Unknown)
        } else if side_left {
            None
        } else {
            Some(Found::Done(Outcome::NoText))
        },
    }
}

/// Whether undo goes ahead: with nothing left to undo (none remembered, or the undo window
/// passed) there is no text; without the accessibility permission, or while secure input
/// is on, it fails. `None`: go ahead.
pub open spec fn spec_undo_gate(available: bool, trusted: bool, secure_input: bool) -> Option<
    Outcome,
> {
    if !available {
        Some(Outcome::NoText)
    } else if !trusted || secure_input {
        Some(Outcome::Failed)
    } else {
        None
    }
}

/// Whether undo goes ahead ([`spec_undo_gate`]).
pub fn undo_gate(available: bool, trusted: bool, secure_input: bool) -> (r: Option<Outcome>)
    ensures
        r == spec_undo_gate(available, trusted, secure_input),
{
    if !available {
        Some(Outcome::NoText)
    } else if !trusted || secure_input {
        Some(Outcome::Failed)
    } else {
        None
    }
}

/// How undo puts the original text back.
#[derive(Clone, Copy, Debug, PartialEq, Eq, Structural)]
pub enum UndoRoute {
    /// Through the text range: the result spans `start..end` (UTF-16), `len` long.
    ThroughRange { start: usize, len: usize, end: usize },
    /// Through the keyboard: select the result back over `stops` caret stops.
    ByKeys { stops: usize },
    /// It cannot be done: the outcome.
    Stop(Outcome),
}

/// The route undo takes: the text range where the result was placed through it and the
/// element offers one; else the keyboard, unless the result is longer than
/// [`MAX_UNDO_CHARS`] caret stops. A result whose end does not fit a `usize` fails.
pub open spec fn spec_undo_route(last: LastOp, has_text_range: bool) -> UndoRoute {
    match last.start {
        Some(s) if has_text_range => if s + utf16_count(last.result@) <= usize::MAX {
            UndoRoute::ThroughRange {
                start: s,
                len: utf16_count(last.result@) as usize,
                end: (s + utf16_count(last.result@)) as usize,
            }
        } else {
            UndoRoute::Stop(Outcome::Failed)
        },
        _ => if spec_caret_stops(last.result@) > MAX_UNDO_CHARS {
            UndoRoute::Stop(Outcome::Failed)
        } else {
            UndoRoute::ByKeys { stops: spec_caret_stops(last.result@) as usize }
        },
    }
}

/// The route undo takes ([`spec_undo_route`]).
pub fn undo_route(last: &LastOp, has_text_range: bool) -> (r: UndoRoute)
    ensures
        r == spec_undo_route(*last, has_text_range),
{
    match last.start {
        Some(start) if has_text_range => {
            let len = utf16_len(last.result.as_str());
            match last.result_end() {
                Some(end) => UndoRoute::ThroughRange { start, len, end },
                None => UndoRoute::Stop(Outcome::Failed),
            }
        },
        _ => {
            let stops = caret_stops(last.result.as_str());
            if stops > MAX_UNDO_CHARS {
                UndoRoute::Stop(Outcome::Failed)
            } else {
                UndoRoute::ByKeys { stops }
            }
        },
    }
}

/// How undo ended: undone when the result was found where it was left and the original
/// written back in its place, failed otherwise.
pub fn undo_outcome(result_found: bool, written_back: bool) -> (r: Outcome)
    ensures
        r == (if result_found && written_back {
            Outcome::Undone
        } else {
            Outcome::Failed
        }),
{
    if result_found && written_back {
        Outcome::Undone
    } else {
        Outcome::Failed
    }
}

/// What the checks before a conversion need to ask the system next.
#[derive(Clone, Copy, Debug, PartialEq, Eq, Structural)]
pub enum Query {
    /// Whether the app holds the Accessibility permission.
    Trusted,
    /// Whether secure input is on.
    SecureInput,
    /// The bundle identifier of the frontmost app.
    Frontmost,
}

/// Where the checks before a conversion stand: ask the system something, stop with an
/// outcome, or go ahead.
#[derive(Clone, Copy, Debug, PartialEq, Eq, Structural)]
pub enum Check {
    Ask(Query),
    Stop(Outcome),
    Proceed,
}

/// What the system has answered so far; `None` for a question not asked yet.
pub struct Answers {
    pub trusted: Option<bool>,
    pub secure_input: Option<bool>,
    /// `Some(None)` when no app is frontmost.
    pub frontmost: Option<Option<String>>,
}

/// The answers as plain values.
pub open spec fn answers_view(a: Answers) -> (Option<bool>, Option<bool>, Option<Option<Seq<char>>>) {
    (
        a.trusted,
        a.secure_input,
        match a.frontmost {
            Some(Some(id)) => Some(Some(id@)),
            Some(None) => Some(None),
            None => None,
        },
    )
}

/// The next step of the checks in [`spec_precheck`], asking the system only what the earlier
/// checks leave open: paused settings ask nothing, a missing permission asks no more.
pub open spec fn spec_precheck_step(
    settings: Settings,
    answers: (Option<bool>, Option<bool>, Option<Option<Seq<char>>>),
) -> Check {
    let (trusted, secure_input, frontmost) = answers;
    if settings.paused {
        Check::Stop(Outcome::Paused)
    } else {
        match trusted {
            None => Check::Ask(Query::Trusted),
            Some(false) => Check::Stop(Outcome::NoPermission),
            Some(true) => match secure_input {
                None => Check::Ask(Query::SecureInput),
                Some(true) => Check::Stop(Outcome::Blocked),
                Some(false) => match frontmost {
                    None => Check::Ask(Query::Frontmost),
                    Some(f) => if f matches Some(id) && exclusions(settings).contains(id) {
                        Check::Stop(Outcome::Excluded)
                    } else {
                        Check::Proceed
                    },
                },
            },
        }
    }
}

/// The next step of the checks before a conversion ([`spec_precheck_step`]).
pub fn precheck_step(settings: &Settings, answers: &Answers) -> (r: Check)
    ensures
        r == spec_precheck_step(*settings, answers_view(*answers)),
{
    if settings.paused {
        return Check::Stop(Outcome::Paused);
    }
    match answers.trusted {
        None => Check::Ask(Query::Trusted),
        Some(false) => Check::Stop(Outcome::NoPermission),
        Some(true) => match answers.secure_input {
            None => Check::Ask(Query::SecureInput),
            Some(true) => Check::Stop(Outcome::Blocked),
            Some(false) => match &answers.frontmost {
                None => Check::Ask(Query::Frontmost),
                Some(Some(id)) => if contains_id(&settings.excluded_apps, id.as_str()) {
                    Check::Stop(Outcome::Excluded)
                } else {
                    Check::Proceed
                },
                Some(None) => Check::Proceed,
            },
        },
    }
}

/// Once every question is answered, the steps come to what [`spec_precheck`] decides.
pub proof fn law_precheck_steps_agree(
    settings: Settings,
    trusted: bool,
    secure_input: bool,
    frontmost: Option<Seq<char>>,
)
    ensures
        spec_precheck_step(settings, (Some(trusted), Some(secure_input), Some(frontmost)))
            == match spec_precheck(settings, trusted, secure_input, frontmost) {
            Some(outcome) => Check::Stop(outcome),
            None => Check::Proceed,
        },
        settings.paused ==> spec_precheck_step(
            settings,
            (None, None, None),
        ) == Check::Stop(Outcome::Paused),
{
}

/// The last conversion while its undo window is open, and nothing once it has closed: the
/// text then leaves memory.
pub fn still_remembered(last: Option<LastOp>, now_ms: u64) -> (r: Option<LastOp>)
    ensures
        r == (match last {
            Some(l) => if elapsed(l.at_ms, now_ms) < UNDO_WINDOW_MS {
                Some(l)
            } else {
                None
            },
            None => None,
        }),
{
    match last {
        Some(l) => if l.can_undo(now_ms) {
            Some(l)
        } else {
            None
        },
        None => None,
    }
}

/// The operation after continuing `last` through the keyboard, where the line edit gives
/// the whole new original and result: one word more, on the same side of the caret.
pub fn extended_by_keys(
    last: &LastOp,
    original: String,
    result: String,
    direction: Direction,
    at_ms: u64,
) -> (r: LastOp)
    requires
        last.words < usize::MAX,
    ensures
        r.original == original,
        r.result == result,
        r.direction == direction,
        r.start is None,
        r.back_arrow == last.back_arrow,
        r.words == last.words + 1,
        r.at_ms == at_ms,
{
    let mut op = LastOp::new(original, result, direction, None, last.words + 1, at_ms);
    op.back_arrow = last.back_arrow;
    op
}

} // verus!
