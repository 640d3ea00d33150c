//! Keyboard input sources: which enabled layouts matter, and which script each types.
//! Reading them out of the system is the app's business.

use vstd::prelude::*;

use crate::layout::{Layer, LayoutProvider, KEYCODE_COUNT};
use crate::text::{chars_of, is_ascii_alphabetic, spec_is_ascii_alphabetic, str_eq};
use crate::{is_arabic, spec_is_arabic};

verus! {

/// The enabled layouts that matter to us, plus which script is active right now.
#[derive(Clone)]
pub struct Snapshot<L> {
    pub arabic: Option<L>,
    pub latin: Option<L>,
    pub current_is_arabic: bool,
}

/// A live system layout, read key by key: `keys[layer_slot(layer) * 51 + keycode]` is what
/// `keycode` types on `layer`, `None` for a dead or unmapped key. Keys past the end of
/// `keys` type nothing.
#[derive(Clone)]
pub struct LiveLayout {
    pub id: String,
    pub keys: Vec<Option<String>>,
}

/// Where a layer's keys start in [`LiveLayout::keys`], in units of whole layers.
pub open spec fn spec_layer_slot(layer: Layer) -> int {
    match layer {
        Layer::Base => 0,
        Layer::Shift => 1,
        Layer::Option => 2,
        Layer::OptionShift => 3,
    }
}

/// Where a layer's keys start in [`LiveLayout::keys`], in units of whole layers.
pub fn layer_slot(layer: Layer) -> (r: usize)
    ensures
        r == spec_layer_slot(layer),
{
    match layer {
        Layer::Base => 0,
        Layer::Shift => 1,
        Layer::Option => 2,
        Layer::OptionShift => 3,
    }
}

/// The index in [`LiveLayout::keys`] of `keycode` on `layer`.
pub open spec fn key_index(keycode: u16, layer: Layer) -> int {
    spec_layer_slot(layer) * KEYCODE_COUNT + keycode
}

impl LayoutProvider for LiveLayout {
    open spec fn spec_output(&self, keycode: u16, layer: Layer) -> Option<Seq<char>> {
        if keycode < KEYCODE_COUNT && key_index(keycode, layer) < self.keys@.len() {
            match self.keys@[key_index(keycode, layer)] {
                Some(s) => Some(s@),
                None => None,
            }
        } else {
            None
        }
    }

    fn output(&self, keycode: u16, layer: Layer) -> (r: Option<String>) {
        if keycode >= KEYCODE_COUNT {
            return None;
        }
        let i = layer_slot(layer) * 51 + keycode as usize;
        if i >= self.keys.len() {
            return None;
        }
        match &self.keys[i] {
            Some(s) => Some(s.clone()),
            None => None,
        }
    }
}

/// One enabled keyboard layout, for the layouts pane.
#[derive(Clone, Debug)]
pub struct Entry {
    pub id: String,
    pub name: String,
    pub arabic: bool,
}

/// An enabled input source that has a keyboard layout, as the system describes it.
pub struct SourceInfo {
    pub id: String,
    /// The name macOS shows for it in the input menu, when it has one.
    pub name: Option<String>,
    /// The script it types ([`types_arabic`]): `Some(true)` Arabic, `Some(false)` Latin.
    pub arabic: Option<bool>,
}

/// The script a layout types, judged by its `A` key: Arabic, Latin, or neither.
pub open spec fn spec_types_arabic(a_key: Option<Seq<char>>) -> Option<bool> {
    match a_key {
        Some(s) => if s.len() == 0 {
            None
        } else if spec_is_arabic(s[0]) {
            Some(true)
        } else if spec_is_ascii_alphabetic(s[0]) {
            Some(false)
        } else {
            None
        },
        None => None,
    }
}

/// What a layout types for the `A` key tells us its script, whatever it is called.
pub fn types_arabic<P: LayoutProvider>(layout: &P) -> (r: Option<bool>)
    ensures
        r == spec_types_arabic(layout.spec_output(0, Layer::Base)),
{
    let a = layout.output(0, Layer::Base)?;
    let chars = chars_of(a.as_str());
    if chars.len() == 0 {
        return None;
    }
    let c = chars[0];
    if is_arabic(c) {
        Some(true)
    } else if is_ascii_alphabetic(c) {
        Some(false)
    } else {
        None
    }
}

/// An entry as (id, name, script).
pub open spec fn entry_view(e: Entry) -> (Seq<char>, Seq<char>, bool) {
    (e.id@, e.name@, e.arabic)
}

/// The entries of the sources whose script is known, in order; a source without a name
/// is listed under its id.
pub open spec fn spec_list(sources: Seq<SourceInfo>) -> Seq<(Seq<char>, Seq<char>, bool)>
    decreases sources.len(),
{
    if sources.len() == 0 {
        Seq::empty()
    } else {
        let prev = spec_list(sources.drop_last());
        let s = sources.last();
        match s.arabic {
            Some(arabic) => prev.push(
                (
                    s.id@,
                    match s.name {
                        Some(n) => n@,
                        None => s.id@,
                    },
                    arabic,
                ),
            ),
            None => prev,
        }
    }
}

/// The enabled layouts we can map between, in the order macOS lists them.
pub fn list(sources: &Vec<SourceInfo>) -> (r: Vec<Entry>)
    ensures
        r@.map_values(|e: Entry| entry_view(e)) == spec_list(sources@),
{
    let mut out: Vec<Entry> = Vec::new();
    let mut i: usize = 0;
    while i < sources.len()
        invariant
            i <= sources.len(),
            out@.map_values(|e: Entry| entry_view(e)) == spec_list(sources@.take(i as int)),
        decreases sources.len() - i,
    {
        let source = &sources[i];
        assert(sources@.take(i + 1).drop_last() =~= sources@.take(i as int));
        if let Some(arabic) = source.arabic {
            let name = match &source.name {
                Some(n) => n.clone(),
                None => source.id.clone(),
            };
            let ghost before = out@.map_values(|e: Entry| entry_view(e));
            out.push(Entry { id: source.id.clone(), name, arabic });
            assert(out@.map_values(|e: Entry| entry_view(e)) =~= before.push(
                entry_view(out@.last()),
            ));
        }
        i += 1;
    }
    assert(sources@.take(sources.len() as int) =~= sources@);
    out
}

/// The source to use for a script among the first `n`: the one whose id is `wanted`
/// wherever it appears, otherwise the first of that script.
pub open spec fn pick(sources: Seq<SourceInfo>, wanted: Seq<char>, arabic: bool, n: nat) -> Option<
    int,
>
    decreases n,
{
    if n == 0 {
        None
    } else {
        let prev = pick(sources, wanted, arabic, (n - 1) as nat);
        let s = sources[n - 1];
        if s.arabic == Some(arabic) && (s.id@ == wanted || prev is None) {
            Some(n - 1)
        } else {
            prev
        }
    }
}

/// The layouts to convert between, as indices into `sources`. `preferred_*` are input
/// source ids chosen in the settings; an empty or no-longer-enabled one falls back to the
/// first of that script, which is what "follow macOS" means.
pub fn snapshot_picks(sources: &Vec<SourceInfo>, preferred_arabic: &str, preferred_latin: &str) -> (r: (
    Option<usize>,
    Option<usize>,
))
    ensures
        match r.0 {
            Some(i) => pick(sources@, preferred_arabic@, true, sources@.len()) == Some(i as int),
            None => pick(sources@, preferred_arabic@, true, sources@.len()) is None,
        },
        match r.1 {
            Some(i) => pick(sources@, preferred_latin@, false, sources@.len()) == Some(i as int),
            None => pick(sources@, preferred_latin@, false, sources@.len()) is None,
        },
{
    let mut arabic: Option<usize> = None;
    let mut latin: Option<usize> = None;
    let mut i: usize = 0;
    while i < sources.len()
        invariant
            i <= sources.len(),
            match arabic {
                Some(k) => pick(sources@, preferred_arabic@, true, i as nat) == Some(k as int),
                None => pick(sources@, preferred_arabic@, true, i as nat) is None,
            },
            match latin {
                Some(k) => pick(sources@, preferred_latin@, false, i as nat) == Some(k as int),
                None => pick(sources@, preferred_latin@, false, i as nat) is None,
            },
        decreases sources.len() - i,
    {
        let source = &sources[i];
        // The chosen layout wins wherever it appears in the list; otherwise the first
        // of its script stands in for it.
        match source.arabic {
            Some(true) => {
                if str_eq(source.id.as_str(), preferred_arabic) || arabic.is_none() {
                    arabic = Some(i);
                }
            },
            Some(false) => {
                if str_eq(source.id.as_str(), preferred_latin) || latin.is_none() {
                    latin = Some(i);
                }
            },
            None => {},
        }
        i += 1;
    }
    (arabic, latin)
}

} // verus!
