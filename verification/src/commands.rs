//! What the settings and welcome windows are answered with. The pages hold no state and no
//! logic: they render what comes back and call again when the user changes something.
//! Receiving their calls is the app's business.

use vstd::prelude::*;

use crate::layout::{Layer, LayoutProvider};
use crate::settings::{default_ids, is_default_excluded, Settings};
use crate::sys::app_icons::AppInfo;
use crate::sys::input_source::Entry;
use crate::text::{chars_of, str_eq, str_equals};

verus! {

pub struct ShortcutResult {
    pub settings: Settings,
    /// True when macOS would not give us the shortcut: another app already holds it.
    pub conflict: bool,
}

/// One key of the keyboard pane.
pub struct Key {
    pub latin: String,
    pub arabic: String,
    /// One key, more than one Arabic letter — "لا" on Arabic – PC.
    pub multi: bool,
}

pub struct KeyboardMap {
    /// Empty when no Arabic layout is enabled; the pane then shows its empty state.
    pub rows: Vec<Vec<Key>>,
    pub arabic_name: Option<String>,
    pub latin_name: Option<String>,
    /// Whether this pair has a multi-letter key at all. The note about it, and the
    /// highlight on that key, appear only when it does — the stock macOS "Arabic"
    /// layout has none.
    pub has_multi_char: bool,
}

impl Default for KeyboardMap {
    fn default() -> (r: KeyboardMap)
        ensures
            r.rows@.len() == 0,
            r.arabic_name is None,
            r.latin_name is None,
            !r.has_multi_char,
    {
        KeyboardMap { rows: Vec::new(), arabic_name: None, latin_name: None, has_multi_char: false }
    }
}

/// The three letter rows of a Mac keyboard, by virtual keycode. The keyboard is a
/// real-world object, so this row order is never mirrored for a right-to-left UI.
pub const ROW_TOP: [u16; 12] = [12, 13, 14, 15, 17, 16, 32, 34, 31, 35, 33, 30];
pub const ROW_HOME: [u16; 11] = [0, 1, 2, 3, 5, 4, 38, 40, 37, 41, 39];
pub const ROW_BOTTOM: [u16; 10] = [6, 7, 8, 9, 11, 45, 46, 43, 47, 44];

/// The keycodes of the letter rows, top to bottom.
pub open spec fn map_rows() -> Seq<Seq<u16>> {
    seq![ROW_TOP@, ROW_HOME@, ROW_BOTTOM@]
}

/// What a layout types for a key on its base layer, or nothing.
pub open spec fn base_output<P: LayoutProvider>(p: &P, keycode: u16) -> Seq<char> {
    match p.spec_output(keycode, Layer::Base) {
        Some(s) => s,
        None => Seq::empty(),
    }
}

/// A key as (latin, arabic, multi).
pub open spec fn key_view(k: Key) -> (Seq<char>, Seq<char>, bool) {
    (k.latin@, k.arabic@, k.multi)
}

/// The key for `keycode`, as the two layouts define it.
pub open spec fn spec_key<A: LayoutProvider, L: LayoutProvider>(arabic: &A, latin: &L, keycode: u16) -> (
    Seq<char>,
    Seq<char>,
    bool,
) {
    (base_output(latin, keycode), base_output(arabic, keycode), base_output(arabic, keycode).len() > 1)
}

fn base_text<P: LayoutProvider>(p: &P, keycode: u16) -> (r: String)
    ensures
        r@ == base_output(p, keycode),
{
    match p.output(keycode, Layer::Base) {
        Some(s) => s,
        None => String::new(),
    }
}

fn key_row<A: LayoutProvider, L: LayoutProvider>(arabic: &A, latin: &L, codes: &[u16]) -> (r: (
    Vec<Key>,
    bool,
))
    ensures
        r.0@.len() == codes@.len(),
        forall|j: int|
            0 <= j < codes@.len() ==> key_view(#[trigger] r.0@[j]) == spec_key(arabic, latin, codes@[j]),
        r.1 == (exists|j: int| 0 <= j < codes@.len() && #[trigger] spec_key(arabic, latin, codes@[j]).2),
{
    let mut keys: Vec<Key> = Vec::new();
    let mut multi_any = false;
    let mut j: usize = 0;
    while j < codes.len()
        invariant
            j <= codes@.len(),
            keys@.len() == j,
            forall|i: int| 0 <= i < j ==> key_view(#[trigger] keys@[i]) == spec_key(arabic, latin, codes@[i]),
            multi_any == (exists|i: int| 0 <= i < j && #[trigger] spec_key(arabic, latin, codes@[i]).2),
        decreases codes.len() - j,
    {
        let code = codes[j];
        let letters = base_text(arabic, code);
        let multi = letters.unicode_len() > 1;
        let latin_text = base_text(latin, code);
        keys.push(Key { latin: latin_text, arabic: letters, multi });
        if multi {
            assert(spec_key(arabic, latin, codes@[j as int]).2);
        }
        multi_any = multi_any || multi;
        j += 1;
    }
    (keys, multi_any)
}

/// The key map as the two live layouts actually define it, with the names the layouts
/// pane lists them under. Nothing here is hard-coded: a wrong hand-written table is
/// exactly the bug this avoids.
pub fn keyboard_map<A: LayoutProvider, L: LayoutProvider>(
    arabic: &A,
    latin: &L,
    arabic_name: Option<String>,
    latin_name: Option<String>,
) -> (r: KeyboardMap)
    ensures
        r.rows@.len() == 3,
        forall|i: int|
            0 <= i < 3 ==> (#[trigger] r.rows@[i])@.len() == map_rows()[i].len(),
        forall|i: int, j: int|
            0 <= i < 3 && 0 <= j < map_rows()[i].len() ==> key_view(#[trigger] r.rows@[i]@[j])
                == spec_key(arabic, latin, map_rows()[i][j]),
        r.has_multi_char == (exists|i: int, j: int|
            0 <= i < 3 && 0 <= j < map_rows()[i].len() && #[trigger] spec_key(
                arabic,
                latin,
                map_rows()[i][j],
            ).2),
        r.arabic_name == arabic_name,
        r.latin_name == latin_name,
{
    let (top, m0) = key_row(arabic, latin, &ROW_TOP);
    let (home, m1) = key_row(arabic, latin, &ROW_HOME);
    let (bottom, m2) = key_row(arabic, latin, &ROW_BOTTOM);
    let mut rows: Vec<Vec<Key>> = Vec::new();
    rows.push(top);
    rows.push(home);
    rows.push(bottom);
    proof {
        assert(map_rows()[0] == ROW_TOP@);
        assert(map_rows()[1] == ROW_HOME@);
        assert(map_rows()[2] == ROW_BOTTOM@);
        if m0 || m1 || m2 {
            if m0 {
                let j = choose|j: int| 0 <= j < ROW_TOP@.len() && #[trigger] spec_key(arabic, latin, ROW_TOP@[j]).2;
                assert(spec_key(arabic, latin, map_rows()[0][j]).2);
            } else if m1 {
                let j = choose|j: int| 0 <= j < ROW_HOME@.len() && #[trigger] spec_key(arabic, latin, ROW_HOME@[j]).2;
                assert(spec_key(arabic, latin, map_rows()[1][j]).2);
            } else {
                let j = choose|j: int| 0 <= j < ROW_BOTTOM@.len() && #[trigger] spec_key(arabic, latin, ROW_BOTTOM@[j]).2;
                assert(spec_key(arabic, latin, map_rows()[2][j]).2);
            }
        } else {
            assert forall|i: int, j: int|
                0 <= i < 3 && 0 <= j < map_rows()[i].len() implies !#[trigger] spec_key(
                arabic,
                latin,
                map_rows()[i][j],
            ).2 by {
                if i == 0 {
                    assert(!spec_key(arabic, latin, ROW_TOP@[j]).2);
                } else if i == 1 {
                    assert(!spec_key(arabic, latin, ROW_HOME@[j]).2);
                } else {
                    assert(!spec_key(arabic, latin, ROW_BOTTOM@[j]).2);
                }
            }
        }
    }
    KeyboardMap { rows, arabic_name, latin_name, has_multi_char: m0 || m1 || m2 }
}

/// Where the first entry with this id is listed, at `from` or later.
pub open spec fn first_with_id(entries: Seq<Entry>, id: Seq<char>, from: nat) -> Option<nat>
    decreases entries.len() - from,
{
    if from >= entries.len() {
        None
    } else if entries[from as int].id@ == id {
        Some(from)
    } else {
        first_with_id(entries, id, from + 1)
    }
}

/// The name the layouts pane lists a layout under, by its input source id.
pub fn layout_name(entries: &Vec<Entry>, id: &str) -> (r: Option<String>)
    ensures
        match first_with_id(entries@, id@, 0) {
            Some(i) => r matches Some(n) && n@ == entries@[i as int].name@,
            None => r is None,
        },
{
    let mut i: usize = 0;
    while i < entries.len()
        invariant
            i <= entries.len(),
            first_with_id(entries@, id@, i as nat) == first_with_id(entries@, id@, 0),
        decreases entries.len() - i,
    {
        if str_eq(entries[i].id.as_str(), id) {
            return Some(entries[i].name.clone());
        }
        i += 1;
    }
    None
}

/// Whether the exceptions pane lists an app. A default entry for an app that is not
/// installed stays in force (the app may be installed later) but is not listed: a dozen
/// bare identifiers would bury the user's own entries.
pub open spec fn spec_listed(info: AppInfo) -> bool {
    info.icon is Some || !default_ids().contains(info.id@)
}

pub fn listed(info: &AppInfo) -> (r: bool)
    ensures
        r == spec_listed(*info),
{
    info.icon.is_some() || !is_default_excluded(info.id.as_str())
}

/// The apps the exceptions pane lists, in order.
pub fn listed_apps(infos: Vec<AppInfo>) -> (r: Vec<AppInfo>)
    ensures
        r@ == infos@.filter(|i: AppInfo| spec_listed(i)),
{
    let mut out: Vec<AppInfo> = Vec::new();
    let mut rest = infos;
    let ghost all = rest@;
    let ghost mut i: int = 0;
    assert(all.skip(0) =~= all);
    assert(all.take(0).filter(|i: AppInfo| spec_listed(i)) =~= Seq::<AppInfo>::empty());
    while rest.len() > 0
        invariant
            0 <= i <= all.len(),
            i + rest@.len() == all.len(),
            rest@ == all.skip(i),
            out@ == all.take(i).filter(|i: AppInfo| spec_listed(i)),
        decreases rest.len(),
    {
        let info = rest.remove(0);
        proof {
            reveal(Seq::filter);
        }
        assert(info == all[i]);
        assert(all.take(i + 1).drop_last() =~= all.take(i));
        assert(all.take(i + 1).last() == all[i]);
        if listed(&info) {
            out.push(info);
        }
        proof {
            i = i + 1;
        }
        assert(rest@ =~= all.skip(i));
    }
    assert(all.take(i) =~= all);
    out
}

/// Whether a link may be opened in the user's browser: only https ones, the links built
/// into the About pane.
pub open spec fn spec_is_openable(url: Seq<char>) -> bool {
    url.len() >= 8 && url.take(8) == "https://"@
}

pub fn is_openable(url: &str) -> (r: bool)
    ensures
        r == spec_is_openable(url@),
{
    let v = chars_of(url);
    if v.len() < 8 {
        return false;
    }
    let head = crate::text::copy_range(&v, 0, 8);
    assert(head@ =~= url@.take(8));
    str_equals("https://", &head)
}

/// Whether a new accelerator is refused before anything is bound: not empty (which
/// clears the binding) and not one that could be registered at all (`valid`).
pub fn rejected(accelerator: &str, valid: bool) -> (r: bool)
    ensures
        r == (accelerator@.len() > 0 && !valid),
{
    accelerator.unicode_len() > 0 && !valid
}

} // verus!
