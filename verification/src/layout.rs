//! Keyboard layouts and the character map built from a pair of them.

use std::ops::RangeInclusive;

use vstd::prelude::*;

use crate::convert::Direction;
use crate::static_layouts::{ABC_KEYS, ARABIC_MAC_KEYS, ARABIC_PC_KEYS};
use crate::text::{
    chars_of, equals, equals_range, is_control, is_whitespace, spec_is_control,
    spec_is_whitespace,
};

verus! {

/// Number of virtual keycodes of the printable keys on an ANSI/ISO keyboard (0–50).
pub const KEYCODE_COUNT: u16 = 51;

/// macOS virtual keycodes of the printable keys on an ANSI/ISO keyboard: `0..=50`.
pub fn keycodes() -> (r: RangeInclusive<u16>)
    ensures
        r@.start == 0,
        r@.end == KEYCODE_COUNT - 1,
        !r@.exhausted,
{
    0..=50
}

/// Modifier layer of a key. The order is the collision priority: when two keys
/// produce the same character, the one on the lower layer wins.
#[derive(Clone, Copy, Debug, PartialEq, Eq, Hash, Structural)]
pub enum Layer {
    Base,
    Shift,
    Option,
    OptionShift,
}

impl Layer {
    pub const ALL: [Layer; 4] = [Layer::Base, Layer::Shift, Layer::Option, Layer::OptionShift];

    /// The layers a [`LayoutMap`] pairs up. The Option layers are left out on purpose: nobody
    /// types English with Option held, and their symbols (… € ° “ ”) are typed deliberately on
    /// either layout — pairing them would turn a correct "…" into "گ".
    pub const PAIRED: [Layer; 2] = [Layer::Base, Layer::Shift];
}

/// What a keyboard layout types for a key. Implemented by
/// [`LiveLayout`](crate::sys::input_source::LiveLayout) for the live system layouts, read key
/// by key, and by [`StaticLayout`] for the bundled snapshots.
pub trait LayoutProvider {
    /// The text `keycode` types on `layer`, `None` for a dead or unmapped key.
    spec fn spec_output(&self, keycode: u16, layer: Layer) -> Option<Seq<char>>;

    /// The text produced by `keycode` on `layer`; `None` for dead or unmapped keys.
    /// May be more than one character (the Arabic–PC `B` key types "لا").
    fn output(&self, keycode: u16, layer: Layer) -> (r: Option<String>)
        ensures
            match r {
                Some(s) => self.spec_output(keycode, layer) == Some(s@),
                None => self.spec_output(keycode, layer) is None,
            },
    ;
}

/// Snapshots of the stock macOS layouts, generated from the system itself.
#[derive(Clone, Copy, Debug, PartialEq, Eq, Structural)]
pub enum StaticLayout {
    /// "ABC" — the Latin side.
    Abc,
    /// "Arabic" — the macOS default Arabic layout (no لا key).
    ArabicMac,
    /// "Arabic – PC" — the Windows-style layout (`B` types "لا").
    ArabicPc,
}

/// What one key of a snapshot types on `layer`.
pub open spec fn on_layer(
    key: (&'static str, &'static str, &'static str, &'static str),
    layer: Layer,
) -> &'static str {
    match layer {
        Layer::Base => key.0,
        Layer::Shift => key.1,
        Layer::Option => key.2,
        Layer::OptionShift => key.3,
    }
}

/// One row of a bundled snapshot: what each keycode types on `layer`.
pub open spec fn snapshot_row(layout: StaticLayout, layer: Layer) -> Seq<&'static str> {
    let keys = match layout {
        StaticLayout::Abc => ABC_KEYS@,
        StaticLayout::ArabicMac => ARABIC_MAC_KEYS@,
        StaticLayout::ArabicPc => ARABIC_PC_KEYS@,
    };
    Seq::new(keys.len(), |i: int| on_layer(keys[i], layer))
}

impl StaticLayout {
    /// What the snapshot lists for `keycode` on `layer`.
    fn entry(self, layer: Layer, keycode: usize) -> (r: &'static str)
        requires
            keycode < KEYCODE_COUNT,
        ensures
            r == snapshot_row(self, layer)[keycode as int],
    {
        let key = match self {
            StaticLayout::Abc => ABC_KEYS[keycode],
            StaticLayout::ArabicMac => ARABIC_MAC_KEYS[keycode],
            StaticLayout::ArabicPc => ARABIC_PC_KEYS[keycode],
        };
        match layer {
            Layer::Base => key.0,
            Layer::Shift => key.1,
            Layer::Option => key.2,
            Layer::OptionShift => key.3,
        }
    }
}

impl LayoutProvider for StaticLayout {
    /// The snapshot's entry, when the keycode is in the table and the entry is not empty.
    open spec fn spec_output(&self, keycode: u16, layer: Layer) -> Option<Seq<char>> {
        if keycode < KEYCODE_COUNT && snapshot_row(*self, layer)[keycode as int]@.len() > 0 {
            Some(snapshot_row(*self, layer)[keycode as int]@)
        } else {
            None
        }
    }

    fn output(&self, keycode: u16, layer: Layer) -> (r: Option<String>) {
        if keycode >= KEYCODE_COUNT {
            return None;
        }
        let s = self.entry(layer, keycode as usize);
        if s.is_empty() {
            None
        } else {
            Some(s.to_owned())
        }
    }
}

/// One direction of a character map, as the ordered list of (typed, meant) pairs it holds.
/// A lookup finds the first pair whose first half is the text looked up.
pub open spec fn lookup(t: Seq<(Seq<char>, Seq<char>)>, k: Seq<char>) -> Option<Seq<char>>
    decreases t.len(),
{
    if t.len() == 0 {
        None
    } else if t[0].0 == k {
        Some(t[0].1)
    } else {
        lookup(t.drop_first(), k)
    }
}

/// Adds `k ↦ v` unless `k` is already mapped: the first pairing of a key wins.
pub open spec fn insert_if_absent(
    t: Seq<(Seq<char>, Seq<char>)>,
    k: Seq<char>,
    v: Seq<char>,
) -> Seq<(Seq<char>, Seq<char>)> {
    if lookup(t, k) is Some {
        t
    } else {
        t.push((k, v))
    }
}

proof fn lemma_lookup_none(t: Seq<(Seq<char>, Seq<char>)>, k: Seq<char>)
    requires
        lookup(t, k) is None,
    ensures
        forall|i: int| 0 <= i < t.len() ==> (#[trigger] t[i]).0 != k,
    decreases t.len(),
{
    if t.len() > 0 {
        lemma_lookup_none(t.drop_first(), k);
        assert forall|i: int| 0 <= i < t.len() implies (#[trigger] t[i]).0 != k by {
            if i > 0 {
                assert(t[i] == t.drop_first()[i - 1]);
            }
        }
    }
}

/// Text a map may pair: not empty, and free of control and whitespace characters
/// (Return, Tab and Space must never be remapped).
pub open spec fn spec_is_mappable(s: Seq<char>) -> bool {
    s.len() > 0 && forall|i: int| 0 <= i < s.len() ==> !spec_is_control(#[trigger] s[i])
        && !spec_is_whitespace(s[i])
}

/// Both directions of a character map.
pub struct MapModel {
    /// Keyed by what the Arabic layout types.
    pub ar_to_en: Seq<(Seq<char>, Seq<char>)>,
    /// Keyed by what the Latin layout types.
    pub en_to_ar: Seq<(Seq<char>, Seq<char>)>,
}

/// The map with nothing paired.
pub open spec fn empty_model() -> MapModel {
    MapModel { ar_to_en: Seq::empty(), en_to_ar: Seq::empty() }
}

/// One key's contribution: the two outputs are paired both ways when both exist, differ,
/// and are mappable; a key already paired keeps its first partner.
pub open spec fn pair_step(m: MapModel, ar: Option<Seq<char>>, en: Option<Seq<char>>) -> MapModel {
    match (ar, en) {
        (Some(a), Some(e)) => if a != e && spec_is_mappable(a) && spec_is_mappable(e) {
            MapModel {
                ar_to_en: insert_if_absent(m.ar_to_en, a, e),
                en_to_ar: insert_if_absent(m.en_to_ar, e, a),
            }
        } else {
            m
        },
        _ => m,
    }
}

/// The number of (layer, keycode) slots a map pairs: the Base and Shift layers.
pub open spec fn paired_slots() -> nat {
    (2 * KEYCODE_COUNT) as nat
}

/// Slot `i` is the keycode `i % 51` on the Base layer for the first 51 slots, then on Shift:
/// layer by layer, keycode by keycode.
pub open spec fn slot_layer(i: int) -> Layer {
    if i < KEYCODE_COUNT {
        Layer::Base
    } else {
        Layer::Shift
    }
}

pub open spec fn slot_keycode(i: int) -> u16 {
    (i % (KEYCODE_COUNT as int)) as u16
}

/// What `p` types in each paired slot, in pairing order.
pub open spec fn slot_outputs<P: LayoutProvider>(p: &P) -> Seq<Option<Seq<char>>> {
    Seq::new(paired_slots(), |i: int| p.spec_output(slot_keycode(i), slot_layer(i)))
}

/// The map built from the first `n` slots of the two layouts' outputs.
pub open spec fn build_prefix(
    ars: Seq<Option<Seq<char>>>,
    ens: Seq<Option<Seq<char>>>,
    n: nat,
) -> MapModel
    decreases n,
{
    if n == 0 {
        empty_model()
    } else {
        pair_step(build_prefix(ars, ens, (n - 1) as nat), ars[n - 1], ens[n - 1])
    }
}

/// The map [`LayoutMap::build`] makes of two layouts.
pub open spec fn spec_build<A: LayoutProvider, L: LayoutProvider>(arabic: &A, latin: &L) -> MapModel {
    build_prefix(slot_outputs(arabic), slot_outputs(latin), paired_slots())
}

/// One direction of the mapping, keyed by what was typed.
pub struct Table1 {
    keys: Vec<Vec<char>>,
    values: Vec<Vec<char>>,
    /// Longest key, in chars — the tokenizer's look-ahead.
    max_key_chars: usize,
}

impl View for Table1 {
    type V = Seq<(Seq<char>, Seq<char>)>;

    closed spec fn view(&self) -> Seq<(Seq<char>, Seq<char>)> {
        Seq::new(self.keys@.len(), |i: int| (self.keys@[i]@, self.values@[i]@))
    }
}

impl Table1 {
    /// Every key is 1 to `max_key_chars` characters long, no key occurs twice, and every
    /// pair is mappable.
    pub closed spec fn wf(&self) -> bool {
        &&& self.keys@.len() == self.values@.len()
        &&& forall|i: int, j: int|
            0 <= i < j < self.keys@.len() ==> (#[trigger] self.keys@[i])@ != (#[trigger] self.keys@[j])@
        &&& forall|i: int|
            0 <= i < self.keys@.len() ==> 1 <= (#[trigger] self.keys@[i])@.len()
                <= self.max_key_chars
        &&& forall|i: int|
            0 <= i < self.keys@.len() ==> spec_is_mappable((#[trigger] self.keys@[i])@)
                && spec_is_mappable(self.values@[i]@)
    }

    /// The longest key, in characters: no key is longer.
    pub closed spec fn max_len(&self) -> nat {
        self.max_key_chars as nat
    }

    pub proof fn lemma_wf(&self)
        requires
            self.wf(),
        ensures
            forall|i: int|
                0 <= i < self@.len() ==> 1 <= (#[trigger] self@[i]).0.len() <= self.max_len()
                    && spec_is_mappable(self@[i].0) && spec_is_mappable(self@[i].1),
            forall|i: int, j: int| 0 <= i < j < self@.len() ==> (#[trigger] self@[i]).0 != (#[trigger] self@[j]).0,
    {
        assert forall|i: int, j: int| 0 <= i < j < self@.len() implies (#[trigger] self@[i]).0 != (
        #[trigger] self@[j]).0 by {
            assert(self@[i] == (self.keys@[i]@, self.values@[i]@));
            assert(self@[j] == (self.keys@[j]@, self.values@[j]@));
        }
        assert forall|i: int| 0 <= i < self@.len() implies 1 <= (#[trigger] self@[i]).0.len()
            <= self.max_len() && spec_is_mappable(self@[i].0) && spec_is_mappable(
            self@[i].1,
        ) by {
            assert(self@[i] == (self.keys@[i]@, self.values@[i]@));
        }
    }

    fn new() -> (r: Table1)
        ensures
            r.wf(),
            r@ == Seq::<(Seq<char>, Seq<char>)>::empty(),
    {
        let r = Table1 { keys: Vec::new(), values: Vec::new(), max_key_chars: 0 };
        assert(r@ =~= Seq::<(Seq<char>, Seq<char>)>::empty());
        r
    }

    pub fn len(&self) -> (r: usize)
        requires
            self.wf(),
        ensures
            r == self@.len(),
    {
        self.keys.len()
    }

    pub fn max_key_chars(&self) -> (r: usize)
        ensures
            r == self.max_len(),
    {
        self.max_key_chars
    }

    /// The value of the first pair whose key is `w[start..start + len]`.
    pub fn find(&self, w: &Vec<char>, start: usize, len: usize) -> (r: Option<&Vec<char>>)
        requires
            self.wf(),
            start + len <= w.len(),
        ensures
            match r {
                Some(v) => lookup(self@, w@.subrange(start as int, start + len)) == Some(v@),
                None => lookup(self@, w@.subrange(start as int, start + len)) is None,
            },
    {
        let ghost k = w@.subrange(start as int, start + len);
        let mut i: usize = 0;
        assert(self@.skip(0) =~= self@);
        while i < self.keys.len()
            invariant
                self.wf(),
                start + len <= w.len(),
                k == w@.subrange(start as int, start + len),
                i <= self.keys@.len(),
                lookup(self@, k) == lookup(self@.skip(i as int), k),
            decreases self.keys.len() - i,
        {
            assert(self@.skip(i as int)[0] == self@[i as int]);
            assert(self@[i as int] == (self.keys@[i as int]@, self.values@[i as int]@));
            if equals_range(&self.keys[i], w, start, len) {
                return Some(&self.values[i]);
            }
            assert(self@.skip(i as int).drop_first() =~= self@.skip(i + 1));
            i += 1;
        }
        None
    }

    fn insert_if_absent(&mut self, from: &Vec<char>, to: &Vec<char>)
        requires
            old(self).wf(),
            spec_is_mappable(from@),
            spec_is_mappable(to@),
        ensures
            final(self).wf(),
            final(self)@ == insert_if_absent(old(self)@, from@, to@),
    {
        assert(from@.subrange(0, from.len() as int) =~= from@);
        if self.find(from, 0, from.len()).is_none() {
            proof {
                lemma_lookup_none(self@, from@);
                assert forall|i: int| 0 <= i < self.keys@.len() implies self.keys@[i]@ != from@ by {
                    assert(self@[i] == (self.keys@[i]@, self.values@[i]@));
                }
            }
            if self.max_key_chars < from.len() {
                self.max_key_chars = from.len();
            }
            self.keys.push(from.clone());
            self.values.push(to.clone());
            assert(self@ =~= old(self)@.push((from@, to@)));
        }
    }
}

/// Bidirectional character mapping between an Arabic and a Latin layout.
pub struct LayoutMap {
    ar_to_en: Table1,
    en_to_ar: Table1,
}

impl View for LayoutMap {
    type V = MapModel;

    closed spec fn view(&self) -> MapModel {
        MapModel { ar_to_en: self.ar_to_en@, en_to_ar: self.en_to_ar@ }
    }
}

/// A map's table for a direction: the one keyed by what was typed.
pub open spec fn table_for(m: MapModel, direction: Direction) -> Seq<(Seq<char>, Seq<char>)> {
    match direction {
        Direction::ArabicToLatin => m.ar_to_en,
        Direction::LatinToArabic => m.en_to_ar,
    }
}

impl LayoutMap {
    /// Both tables are well formed, and they are empty together: a key is paired both
    /// ways or not at all.
    #[verifier::type_invariant]
    spec fn inv(self) -> bool {
        &&& self.ar_to_en.wf()
        &&& self.en_to_ar.wf()
        &&& (self.ar_to_en@.len() == 0) == (self.en_to_ar@.len() == 0)
    }

    /// Pairs up, key by key and layer by layer, what the two layouts type.
    pub fn build<A: LayoutProvider, L: LayoutProvider>(arabic: &A, latin: &L) -> (r: LayoutMap)
        ensures
            r@ == spec_build(arabic, latin),
    {
        let ghost ars = slot_outputs(arabic);
        let ghost ens = slot_outputs(latin);
        let mut ar_to_en = Table1::new();
        let mut en_to_ar = Table1::new();
        let mut i: u16 = 0;
        while i < 2 * KEYCODE_COUNT
            invariant
                i <= 2 * KEYCODE_COUNT,
                ars == slot_outputs(arabic),
                ens == slot_outputs(latin),
                ar_to_en.wf(),
                en_to_ar.wf(),
                (MapModel { ar_to_en: ar_to_en@, en_to_ar: en_to_ar@ }) == build_prefix(
                    ars,
                    ens,
                    i as nat,
                ),
            decreases 2 * KEYCODE_COUNT - i,
        {
            let layer = if i < KEYCODE_COUNT {
                Layer::Base
            } else {
                Layer::Shift
            };
            let keycode = i % KEYCODE_COUNT;
            assert(layer == slot_layer(i as int) && keycode == slot_keycode(i as int));
            let ar = arabic.output(keycode, layer);
            let en = latin.output(keycode, layer);
            // Keys that type the same thing on both layouts need no mapping,
            // and whitespace/control keys (Return, Tab, Space) must never be remapped.
            if let (Some(ar), Some(en)) = (ar, en) {
                let a = chars_of(ar.as_str());
                let e = chars_of(en.as_str());
                if !equals(&a, &e) && is_mappable(&a) && is_mappable(&e) {
                    ar_to_en.insert_if_absent(&a, &e);
                    en_to_ar.insert_if_absent(&e, &a);
                }
            }
            i += 1;
        }
        proof {
            crate::laws::law_directions_empty_together(ars, ens, paired_slots());
        }
        LayoutMap { ar_to_en, en_to_ar }
    }

    /// Bundled macOS "Arabic" ⇄ "ABC".
    pub fn arabic_mac() -> (r: LayoutMap)
        ensures
            r@ == spec_build(&StaticLayout::ArabicMac, &StaticLayout::Abc),
    {
        Self::build(&StaticLayout::ArabicMac, &StaticLayout::Abc)
    }

    /// Bundled macOS "Arabic – PC" ⇄ "ABC".
    pub fn arabic_pc() -> (r: LayoutMap)
        ensures
            r@ == spec_build(&StaticLayout::ArabicPc, &StaticLayout::Abc),
    {
        Self::build(&StaticLayout::ArabicPc, &StaticLayout::Abc)
    }

    /// True when the two layouts had nothing to pair (e.g. a provider failed): then
    /// neither direction holds a pair.
    pub fn is_empty(&self) -> (r: bool)
        ensures
            r == (self@.ar_to_en.len() == 0),
            r == (self@.en_to_ar.len() == 0),
    {
        proof {
            use_type_invariant(self);
        }
        self.ar_to_en.len() == 0
    }

    /// The table for `direction`, keyed by what was typed.
    pub fn table(&self, direction: Direction) -> (r: &Table1)
        ensures
            r.wf(),
            r@ == table_for(self@, direction),
    {
        proof {
            use_type_invariant(self);
        }
        match direction {
            Direction::ArabicToLatin => &self.ar_to_en,
            Direction::LatinToArabic => &self.en_to_ar,
        }
    }
}

/// Whether `s` may be paired: not empty, and no control or whitespace character in it.
fn is_mappable(s: &Vec<char>) -> (r: bool)
    ensures
        r == spec_is_mappable(s@),
{
    if s.len() == 0 {
        return false;
    }
    let mut i: usize = 0;
    while i < s.len()
        invariant
            i <= s.len(),
            forall|j: int| 0 <= j < i ==> !spec_is_control(s@[j]) && !spec_is_whitespace(s@[j]),
        decreases s.len() - i,
    {
        if is_control(s[i]) || is_whitespace(s[i]) {
            return false;
        }
        i += 1;
    }
    true
}

} // verus!
