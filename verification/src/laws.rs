//! What holds of the library as a whole: properties that span several functions or every
//! input, each proved from the specifications the functions themselves are held to.

use vstd::prelude::*;

use crate::convert::{
    class_run, concat_plain, convert_text, token_of, convert_word, count_alts, lemma_class_run,
    lemma_lookup_in, lemma_run_len, match_len, plain, run_len, spec_reversed, spec_tokens,
    count_arabic, count_latin, spec_detect_direction, Direction, TokenModel,
};
use crate::disambiguate::{strip_back, strip_front, word_core, first_english, pow2, render, spec_is_english_word, spec_resolve};
use crate::controller::{
    elapsed, spec_next_step, stage_rank, spec_undo_gate, spec_undo_route, spec_caret_follows,
    spec_caret_stops, LastOp, UndoRoute, MAX_UNDO_CHARS, Found, Outcome, Stage, Step, spec_opposite, spec_plan_extension, spec_plan_last_word, spec_precheck,
    direction_or, spec_previous_word, EXTEND_WINDOW_MS, KEY_LEFT, KEY_RIGHT, UNDO_WINDOW_MS,
};
use crate::layout::{
    build_prefix, empty_model, insert_if_absent, lookup, pair_step, paired_slots, slot_outputs,
    spec_build, spec_is_mappable, table_for, LayoutProvider, MapModel,
};
use crate::settings::{
    adopt_prefix, adopted, exclusions, version_after_adopt, Settings, DEFAULT_EXCLUDED, DEFAULTS_VERSION,
};
use crate::text::{
    lemma_trim_end, lemma_word_start, spec_ascii_upper, spec_is_ascii_alphabetic,
    spec_is_ascii_nonletter, spec_is_whitespace, spec_trim_end, spec_word_start, spec_lower_seq,
    lemma_utf16_split, utf16_units, utf16_count,
};
use crate::shortcuts::spec_pretty_key;
use crate::{spec_is_arabic};
use crate::updater::{spec_check_due, CHECK_INTERVAL_MS};

verus! {

/// Reversing a direction twice gives it back.
pub proof fn law_reversed_twice(d: Direction)
    ensures
        spec_reversed(spec_reversed(d)) == d,
{
}

proof fn lemma_class_run_all(s: Seq<char>, ws: bool)
    requires
        forall|i: int| 0 <= i < s.len() ==> spec_is_whitespace(#[trigger] s[i]) == ws,
    ensures
        class_run(s, ws) == s.len(),
    decreases s.len(),
{
    if s.len() > 0 {
        assert forall|i: int| 0 <= i < s.drop_first().len() implies spec_is_whitespace(
            #[trigger] s.drop_first()[i],
        ) == ws by {
            assert(s.drop_first()[i] == s[i + 1]);
        }
        lemma_class_run_all(s.drop_first(), ws);
    }
}

/// Whitespace is never converted: text made only of whitespace comes back as it was.
pub proof fn law_whitespace_unchanged(t: Seq<(Seq<char>, Seq<char>)>, d: Direction, s: Seq<char>)
    requires
        forall|i: int| 0 <= i < s.len() ==> spec_is_whitespace(#[trigger] s[i]),
    ensures
        convert_text(t, d, s) == s,
{
    if s.len() > 0 {
        lemma_class_run_all(s, true);
        assert(s.take(s.len() as int) =~= s);
        assert(s.skip(s.len() as int) =~= Seq::<char>::empty());
        assert(convert_text(t, d, Seq::<char>::empty()) =~= Seq::<char>::empty());
    }
}

proof fn lemma_class_run_concat(a: Seq<char>, b: Seq<char>, ws: bool)
    requires
        class_run(a, ws) < a.len() || b.len() == 0 || spec_is_whitespace(b[0]) != ws,
    ensures
        class_run(a + b, ws) == class_run(a, ws),
    decreases a.len(),
{
    if a.len() > 0 && spec_is_whitespace(a[0]) == ws {
        assert((a + b).drop_first() =~= a.drop_first() + b);
        lemma_class_run_concat(a.drop_first(), b, ws);
    } else if a.len() == 0 {
        assert(a + b =~= b);
    } else {
        assert((a + b)[0] == a[0]);
    }
}

/// Conversion is decided word by word: where text splits between a whitespace character
/// and another, converting the two parts apart gives what converting the whole does.
/// (So a word's reading never depends on its neighbours.)
pub proof fn law_decided_per_word(
    t: Seq<(Seq<char>, Seq<char>)>,
    d: Direction,
    a: Seq<char>,
    b: Seq<char>,
)
    requires
        a.len() > 0,
        b.len() > 0,
        spec_is_whitespace(a.last()) != spec_is_whitespace(b[0]),
    ensures
        convert_text(t, d, a + b) == convert_text(t, d, a) + convert_text(t, d, b),
    decreases a.len(),
{
    let s = a + b;
    let ws = spec_is_whitespace(a[0]);
    assert(s[0] == a[0]);
    lemma_run_len(a);
    lemma_run_len(s);
    lemma_class_run(a, ws);
    if class_run(a, ws) == a.len() {
        assert(spec_is_whitespace(a[a.len() - 1]) == ws);
    }
    lemma_class_run_concat(a, b, ws);
    let k = run_len(a) as int;
    assert(run_len(s) == k);
    assert(s.take(k) =~= a.take(k));
    assert(s.skip(k) =~= a.skip(k) + b);
    if k == a.len() {
        assert(a.skip(k) + b =~= b);
        assert(a.skip(k) =~= Seq::<char>::empty());
        assert(convert_text(t, d, Seq::<char>::empty()) =~= Seq::<char>::empty());
        assert(convert_text(t, d, a) =~= convert_text(t, d, a.take(k)).take(0) + (if spec_is_whitespace(
            a[0],
        ) {
            a.take(k)
        } else {
            convert_word(t, d, a.take(k))
        }) + Seq::<char>::empty());
    } else {
        let rest = a.skip(k);
        assert(rest.last() == a.last());
        law_decided_per_word(t, d, rest, b);
        let seg = if spec_is_whitespace(a[0]) {
            a.take(k)
        } else {
            convert_word(t, d, a.take(k))
        };
        assert(convert_text(t, d, s) == seg + convert_text(t, d, rest + b));
        assert(convert_text(t, d, a) == seg + convert_text(t, d, rest));
        assert(seg + (convert_text(t, d, rest) + convert_text(t, d, b)) =~= (seg + convert_text(
            t,
            d,
            rest,
        )) + convert_text(t, d, b));
    }
}

proof fn lemma_whitespace_char_in_front(
    t: Seq<(Seq<char>, Seq<char>)>,
    d: Direction,
    c: char,
    y: Seq<char>,
)
    requires
        spec_is_whitespace(c),
    ensures
        convert_text(t, d, seq![c] + y) == seq![c] + convert_text(t, d, y),
{
    let s = seq![c] + y;
    assert(convert_text(t, d, Seq::<char>::empty()) =~= Seq::<char>::empty());
    if y.len() == 0 {
        assert(s =~= seq![c]);
        law_whitespace_unchanged(t, d, s);
    } else if !spec_is_whitespace(y[0]) {
        law_whitespace_unchanged(t, d, seq![c]);
        law_decided_per_word(t, d, seq![c], y);
    } else {
        lemma_run_len(y);
        let k = run_len(y) as int;
        assert(s[0] == c);
        assert(s.drop_first() =~= y);
        assert(run_len(s) == 1 + k);
        assert(s.take(1 + k) =~= seq![c] + y.take(k));
        assert(s.skip(1 + k) =~= y.skip(k));
        assert(convert_text(t, d, s) == s.take(1 + k) + convert_text(t, d, s.skip(1 + k)));
        assert(convert_text(t, d, y) == y.take(k) + convert_text(t, d, y.skip(k)));
    }
}

proof fn lemma_whitespace_in_front(
    t: Seq<(Seq<char>, Seq<char>)>,
    d: Direction,
    w: Seq<char>,
    y: Seq<char>,
)
    requires
        forall|i: int| 0 <= i < w.len() ==> spec_is_whitespace(#[trigger] w[i]),
    ensures
        convert_text(t, d, w + y) == w + convert_text(t, d, y),
    decreases w.len(),
{
    if w.len() == 0 {
        assert(w + y =~= y);
    } else {
        let rest = w.drop_first();
        assert forall|i: int| 0 <= i < rest.len() implies spec_is_whitespace(#[trigger] rest[i]) by {
            assert(rest[i] == w[i + 1]);
        }
        lemma_whitespace_in_front(t, d, rest, y);
        assert(spec_is_whitespace(w[0]));
        lemma_whitespace_char_in_front(t, d, w[0], rest + y);
        assert(w + y =~= seq![w[0]] + (rest + y));
        assert(w =~= seq![w[0]] + rest);
    }
}

/// Text may be cut anywhere inside a run of whitespace: converting the parts on either
/// side apart, with the whitespace between them left as it is, gives what converting the
/// whole does.
pub proof fn law_split_in_whitespace(
    t: Seq<(Seq<char>, Seq<char>)>,
    d: Direction,
    x: Seq<char>,
    w: Seq<char>,
    y: Seq<char>,
)
    requires
        w.len() > 0,
        forall|i: int| 0 <= i < w.len() ==> spec_is_whitespace(#[trigger] w[i]),
    ensures
        convert_text(t, d, x + w + y) == convert_text(t, d, x) + w + convert_text(t, d, y),
    decreases x.len(),
{
    assert(convert_text(t, d, Seq::<char>::empty()) =~= Seq::<char>::empty());
    if x.len() == 0 {
        assert(x + w + y =~= w + y);
        assert(convert_text(t, d, x) + w =~= w);
        lemma_whitespace_in_front(t, d, w, y);
    } else if !spec_is_whitespace(x.last()) {
        lemma_whitespace_in_front(t, d, w, y);
        assert(spec_is_whitespace((w + y)[0]));
        law_decided_per_word(t, d, x, w + y);
        assert(x + w + y =~= x + (w + y));
        assert(convert_text(t, d, x) + (w + convert_text(t, d, y)) =~= convert_text(t, d, x) + w
            + convert_text(t, d, y));
    } else {
        let x2 = x.drop_last();
        let c = x.last();
        let w2 = seq![c] + w;
        assert forall|i: int| 0 <= i < w2.len() implies spec_is_whitespace(#[trigger] w2[i]) by {
            if i > 0 {
                assert(w2[i] == w[i - 1]);
            }
        }
        law_split_in_whitespace(t, d, x2, w2, y);
        law_split_in_whitespace(t, d, x2, seq![c], Seq::empty());
        assert(x2 + w2 + y =~= x + w + y);
        assert(x2 + seq![c] + Seq::<char>::empty() =~= x);
        assert(convert_text(t, d, x2) + w2 + convert_text(t, d, y) =~= (convert_text(t, d, x2)
            + seq![c] + Seq::<char>::empty()) + w + convert_text(t, d, y));
    }
}

proof fn lemma_no_match(w: Seq<char>, n: nat)
    ensures
        match_len(Seq::empty(), w, n) == 0,
    decreases n,
{
    if n > 0 {
        lemma_no_match(w, (n - 1) as nat);
    }
}

proof fn lemma_empty_tokens(w: Seq<char>)
    ensures
        concat_plain(spec_tokens(Seq::empty(), w)) == w,
        count_alts(spec_tokens(Seq::empty(), w)) == 0,
    decreases w.len(),
{
    if w.len() > 0 {
        lemma_no_match(w, w.len());
        let tok = TokenModel { out: None, src: w.take(1), alt: None };
        let rest = spec_tokens(Seq::empty(), w.skip(1));
        lemma_empty_tokens(w.skip(1));
        let ts = seq![tok] + rest;
        assert(ts[0] == tok);
        assert(ts.drop_first() =~= rest);
        assert(plain(tok) == w.take(1));
        assert(w.take(1) + w.skip(1) =~= w);
    }
}

/// A map that pairs nothing changes nothing: every character passes through.
pub proof fn law_empty_map_changes_nothing(d: Direction, s: Seq<char>)
    ensures
        convert_text(Seq::empty(), d, s) == s,
    decreases s.len(),
{
    if s.len() > 0 {
        lemma_run_len(s);
        let k = run_len(s) as int;
        lemma_empty_tokens(s.take(k));
        law_empty_map_changes_nothing(d, s.skip(k));
        assert(s.take(k) + s.skip(k) =~= s);
    }
}

/// A map with nothing paired either way converts nothing: any text, in either direction,
/// comes back as it was.
pub proof fn law_unpaired_map_converts_nothing(m: MapModel, d: Direction, s: Seq<char>)
    requires
        m.ar_to_en.len() == 0,
        m.en_to_ar.len() == 0,
    ensures
        convert_text(table_for(m, d), d, s) == s,
{
    assert(table_for(m, d) =~= Seq::<(Seq<char>, Seq<char>)>::empty());
    law_empty_map_changes_nothing(d, s);
}

/// Layouts that type nothing in any paired slot give the empty map.
pub proof fn law_nothing_typed_gives_empty_map(
    ars: Seq<Option<Seq<char>>>,
    ens: Seq<Option<Seq<char>>>,
    n: nat,
)
    requires
        n <= ars.len(),
        forall|i: int| 0 <= i < n ==> #[trigger] ars[i] is None,
    ensures
        build_prefix(ars, ens, n) == empty_model(),
    decreases n,
{
    if n > 0 {
        law_nothing_typed_gives_empty_map(ars, ens, (n - 1) as nat);
    }
}

proof fn lemma_insert_grows(t: Seq<(Seq<char>, Seq<char>)>, k: Seq<char>, v: Seq<char>)
    ensures
        insert_if_absent(t, k, v).len() >= t.len(),
        insert_if_absent(t, k, v).len() > 0,
        forall|i: int| 0 <= i < t.len() ==> #[trigger] insert_if_absent(t, k, v)[i] == t[i],
{
    if lookup(t, k) is Some {
        lemma_lookup_nonempty(t, k);
    }
}

proof fn lemma_lookup_nonempty(t: Seq<(Seq<char>, Seq<char>)>, k: Seq<char>)
    requires
        lookup(t, k) is Some,
    ensures
        t.len() > 0,
{
}

/// The two directions of a built map are empty together: a key is paired both ways or
/// not at all, so checking one direction for emptiness tells about both.
pub proof fn law_directions_empty_together(
    ars: Seq<Option<Seq<char>>>,
    ens: Seq<Option<Seq<char>>>,
    n: nat,
)
    requires
        n <= ars.len(),
        n <= ens.len(),
    ensures
        (build_prefix(ars, ens, n).ar_to_en.len() == 0) == (build_prefix(ars, ens, n).en_to_ar.len()
            == 0),
    decreases n,
{
    if n > 0 {
        law_directions_empty_together(ars, ens, (n - 1) as nat);
        let m = build_prefix(ars, ens, (n - 1) as nat);
        match (ars[n - 1], ens[n - 1]) {
            (Some(a), Some(e)) => {
                lemma_insert_grows(m.ar_to_en, a, e);
                lemma_insert_grows(m.en_to_ar, e, a);
            },
            _ => {},
        }
    }
}

proof fn lemma_lookup_push(
    t: Seq<(Seq<char>, Seq<char>)>,
    k: Seq<char>,
    v: Seq<char>,
    k2: Seq<char>,
)
    ensures
        lookup(t.push((k, v)), k2) == (if lookup(t, k2) is Some {
            lookup(t, k2)
        } else if k == k2 {
            Some(v)
        } else {
            None
        }),
    decreases t.len(),
{
    let tp = t.push((k, v));
    if t.len() == 0 {
        assert(tp[0] == (k, v));
        assert(tp.drop_first() =~= Seq::<(Seq<char>, Seq<char>)>::empty());
        assert(lookup(tp.drop_first(), k2) is None);
        assert(lookup(t, k2) is None);
        if k == k2 {
            assert(lookup(tp, k2) == Some(v));
        } else {
            assert(lookup(tp, k2) == lookup(tp.drop_first(), k2));
        }
    } else {
        assert(tp[0] == t[0]);
        assert(tp.drop_first() =~= t.drop_first().push((k, v)));
        if t[0].0 != k2 {
            lemma_lookup_push(t.drop_first(), k, v, k2);
            assert(lookup(tp, k2) == lookup(tp.drop_first(), k2));
            assert(lookup(t, k2) == lookup(t.drop_first(), k2));
        } else {
            assert(lookup(tp, k2) == Some(t[0].1));
        }
    }
}

proof fn lemma_lookup_insert(
    t: Seq<(Seq<char>, Seq<char>)>,
    k: Seq<char>,
    v: Seq<char>,
    k2: Seq<char>,
)
    ensures
        lookup(insert_if_absent(t, k, v), k2) == (if lookup(t, k2) is Some {
            lookup(t, k2)
        } else if k == k2 {
            Some(v)
        } else {
            None
        }),
{
    lemma_lookup_push(t, k, v, k2);
}

/// Slot `j` pairs the Latin text `e` with what the Arabic layout types there: both layouts
/// type something in it, the two differ, and both may be paired.
pub open spec fn latin_pairs(
    ars: Seq<Option<Seq<char>>>,
    ens: Seq<Option<Seq<char>>>,
    j: int,
    e: Seq<char>,
) -> bool {
    &&& ens[j] == Some(e)
    &&& ars[j] is Some
    &&& ars[j]->0 != e
    &&& spec_is_mappable(ars[j]->0)
    &&& spec_is_mappable(e)
}

/// The partner of the Latin text `e` in the first of the first `n` slots that pairs it.
pub open spec fn first_partner(
    ars: Seq<Option<Seq<char>>>,
    ens: Seq<Option<Seq<char>>>,
    n: nat,
    e: Seq<char>,
) -> Option<Seq<char>>
    decreases n,
{
    if n == 0 {
        None
    } else if first_partner(ars, ens, (n - 1) as nat, e) is Some {
        first_partner(ars, ens, (n - 1) as nat, e)
    } else if latin_pairs(ars, ens, n - 1, e) {
        ars[n - 1]
    } else {
        None
    }
}

/// The Latin-to-Arabic table answers every text with its partner from the first slot that
/// pairs it, and knows nothing of a text no slot pairs.
pub proof fn law_latin_table_is_first_partner(
    ars: Seq<Option<Seq<char>>>,
    ens: Seq<Option<Seq<char>>>,
    n: nat,
    e: Seq<char>,
)
    requires
        n <= ars.len(),
        n <= ens.len(),
    ensures
        lookup(build_prefix(ars, ens, n).en_to_ar, e) == first_partner(ars, ens, n, e),
    decreases n,
{
    if n > 0 {
        law_latin_table_is_first_partner(ars, ens, (n - 1) as nat, e);
        let m = build_prefix(ars, ens, (n - 1) as nat);
        match (ars[n - 1], ens[n - 1]) {
            (Some(a0), Some(e0)) => {
                if a0 != e0 && spec_is_mappable(a0) && spec_is_mappable(e0) {
                    lemma_lookup_insert(m.en_to_ar, e0, a0, e);
                }
            },
            _ => {},
        }
    }
}

/// Slot `j` pairs the Arabic text `a` with what the Latin layout types there.
pub open spec fn arabic_pairs(
    ars: Seq<Option<Seq<char>>>,
    ens: Seq<Option<Seq<char>>>,
    j: int,
    a: Seq<char>,
) -> bool {
    &&& ars[j] == Some(a)
    &&& ens[j] is Some
    &&& ens[j]->0 != a
    &&& spec_is_mappable(ens[j]->0)
    &&& spec_is_mappable(a)
}

/// The partner of the Arabic text `a` in the first of the first `n` slots that pairs it.
pub open spec fn first_latin_partner(
    ars: Seq<Option<Seq<char>>>,
    ens: Seq<Option<Seq<char>>>,
    n: nat,
    a: Seq<char>,
) -> Option<Seq<char>>
    decreases n,
{
    if n == 0 {
        None
    } else if first_latin_partner(ars, ens, (n - 1) as nat, a) is Some {
        first_latin_partner(ars, ens, (n - 1) as nat, a)
    } else if arabic_pairs(ars, ens, n - 1, a) {
        ens[n - 1]
    } else {
        None
    }
}

/// The Arabic-to-Latin table answers every text with its partner from the first slot that
/// pairs it (so of two keys typing the same Arabic text, the earlier one in slot order
/// decides), and knows nothing of a text no slot pairs.
pub proof fn law_arabic_table_is_first_partner(
    ars: Seq<Option<Seq<char>>>,
    ens: Seq<Option<Seq<char>>>,
    n: nat,
    a: Seq<char>,
)
    requires
        n <= ars.len(),
        n <= ens.len(),
    ensures
        lookup(build_prefix(ars, ens, n).ar_to_en, a) == first_latin_partner(ars, ens, n, a),
    decreases n,
{
    if n > 0 {
        law_arabic_table_is_first_partner(ars, ens, (n - 1) as nat, a);
        let m = build_prefix(ars, ens, (n - 1) as nat);
        match (ars[n - 1], ens[n - 1]) {
            (Some(a0), Some(e0)) => {
                if a0 != e0 && spec_is_mappable(a0) && spec_is_mappable(e0) {
                    lemma_lookup_insert(m.ar_to_en, a0, e0, a);
                }
            },
            _ => {},
        }
    }
}

proof fn lemma_first_partner_none(
    ars: Seq<Option<Seq<char>>>,
    ens: Seq<Option<Seq<char>>>,
    n: nat,
    e: Seq<char>,
)
    requires
        forall|j: int| 0 <= j < n ==> !#[trigger] latin_pairs(ars, ens, j, e),
    ensures
        first_partner(ars, ens, n, e) is None,
    decreases n,
{
    if n > 0 {
        lemma_first_partner_none(ars, ens, (n - 1) as nat, e);
        assert(!latin_pairs(ars, ens, n - 1, e));
    }
}

proof fn lemma_first_partner_some(
    ars: Seq<Option<Seq<char>>>,
    ens: Seq<Option<Seq<char>>>,
    n: nat,
    i: int,
    e: Seq<char>,
)
    requires
        0 <= i < n,
        latin_pairs(ars, ens, i, e),
        forall|j: int| 0 <= j < i ==> !#[trigger] latin_pairs(ars, ens, j, e),
    ensures
        first_partner(ars, ens, n, e) == ars[i],
    decreases n,
{
    if n - 1 > i {
        lemma_first_partner_some(ars, ens, (n - 1) as nat, i, e);
    } else {
        lemma_first_partner_none(ars, ens, i as nat, e);
    }
}

/// A text `e` with no whitespace in it that the table maps as a whole is converted from
/// Latin to Arabic into what the table maps it to.
proof fn lemma_key_converts_to_partner(t: Seq<(Seq<char>, Seq<char>)>, e: Seq<char>)
    requires
        e.len() > 0,
        forall|i: int| 0 <= i < e.len() ==> !spec_is_whitespace(#[trigger] e[i]),
        lookup(t, e) is Some,
    ensures
        convert_text(t, Direction::LatinToArabic, e) == lookup(t, e)->0,
{
    assert forall|i: int| 0 <= i < e.len() implies spec_is_whitespace(#[trigger] e[i]) == false by {}
    lemma_class_run_all(e, false);
    assert(run_len(e) == e.len());
    assert(e.take(e.len() as int) =~= e);
    assert(e.skip(e.len() as int) =~= Seq::<char>::empty());
    assert(convert_text(t, Direction::LatinToArabic, Seq::<char>::empty()) =~= Seq::<char>::empty());
    assert(match_len(t, e, e.len()) == e.len());
    let ts = spec_tokens(t, e);
    assert(spec_tokens(t, e.skip(e.len() as int)) =~= Seq::<TokenModel>::empty());
    assert(ts =~= seq![token_of(t, e)]);
    assert(ts.drop_first() =~= Seq::<TokenModel>::empty());
    assert(ts[0] == token_of(t, e));
    assert(plain(ts[0]) == lookup(t, e)->0);
    assert(concat_plain(ts.drop_first()) =~= Seq::<char>::empty());
    assert(concat_plain(ts) =~= lookup(t, e)->0);
}

/// When two keys type the same Latin text, the first one paired wins: in slot order (Base
/// keycodes first, then Shift), the first slot that pairs `e` decides what `e` converts to
/// from Latin to Arabic.
pub proof fn law_first_pairing_wins(
    ars: Seq<Option<Seq<char>>>,
    ens: Seq<Option<Seq<char>>>,
    n: nat,
    i: int,
    e: Seq<char>,
)
    requires
        n <= ars.len(),
        n <= ens.len(),
        0 <= i < n,
        latin_pairs(ars, ens, i, e),
        forall|j: int| 0 <= j < i ==> !#[trigger] latin_pairs(ars, ens, j, e),
    ensures
        lookup(build_prefix(ars, ens, n).en_to_ar, e) == ars[i],
        convert_text(build_prefix(ars, ens, n).en_to_ar, Direction::LatinToArabic, e)
            == ars[i]->0,
{
    law_latin_table_is_first_partner(ars, ens, n, e);
    lemma_first_partner_some(ars, ens, n, i, e);
    lemma_key_converts_to_partner(build_prefix(ars, ens, n).en_to_ar, e);
}

/// A Latin character that no slot pairs is left as it is when converting to Arabic.
pub proof fn law_unpaired_character_passes(
    ars: Seq<Option<Seq<char>>>,
    ens: Seq<Option<Seq<char>>>,
    n: nat,
    c: char,
)
    requires
        n <= ars.len(),
        n <= ens.len(),
        forall|j: int| 0 <= j < n ==> !#[trigger] latin_pairs(ars, ens, j, seq![c]),
    ensures
        convert_text(build_prefix(ars, ens, n).en_to_ar, Direction::LatinToArabic, seq![c])
            == seq![c],
{
    let t = build_prefix(ars, ens, n).en_to_ar;
    law_latin_table_is_first_partner(ars, ens, n, seq![c]);
    lemma_first_partner_none(ars, ens, n, seq![c]);
    let w = seq![c];
    if spec_is_whitespace(c) {
        law_whitespace_unchanged(t, Direction::LatinToArabic, w);
    } else {
        assert(w.take(1) =~= w);
        assert(lookup(t, w) is None);
        assert(match_len(t, w, 0) == 0);
        assert(match_len(t, w, 1) == 0);
        assert(w.skip(1) =~= Seq::<char>::empty());
        assert(spec_tokens(t, w.skip(1)) =~= Seq::<TokenModel>::empty());
        let tok = TokenModel { out: None, src: w, alt: None };
        let ts = spec_tokens(t, w);
        assert(ts =~= seq![tok]);
        assert(ts[0] == tok);
        assert(ts.drop_first() =~= Seq::<TokenModel>::empty());
        assert(concat_plain(ts.drop_first()) =~= Seq::<char>::empty());
        assert(concat_plain(ts) =~= w);
        assert(convert_word(t, Direction::LatinToArabic, w) == w);
        lemma_class_run_all(w, false);
        assert(run_len(w) == 1);
        assert(convert_text(t, Direction::LatinToArabic, Seq::<char>::empty()) =~= Seq::<char>::empty());
    }
}

/// Every pair a map holds, both ways, joins two mappable texts: nothing empty, and never
/// a control or whitespace character (Return, Tab and Space are never remapped).
pub open spec fn pairs_mappable(t: Seq<(Seq<char>, Seq<char>)>) -> bool {
    forall|i: int|
        0 <= i < t.len() ==> spec_is_mappable(#[trigger] t[i].0) && spec_is_mappable(t[i].1)
}

/// The pairs of a map built from layout outputs are all mappable, both ways.
pub proof fn law_built_pairs_are_mappable(
    ars: Seq<Option<Seq<char>>>,
    ens: Seq<Option<Seq<char>>>,
    n: nat,
)
    requires
        n <= ars.len(),
        n <= ens.len(),
    ensures
        pairs_mappable(build_prefix(ars, ens, n).ar_to_en),
        pairs_mappable(build_prefix(ars, ens, n).en_to_ar),
    decreases n,
{
    if n > 0 {
        law_built_pairs_are_mappable(ars, ens, (n - 1) as nat);
        let m = build_prefix(ars, ens, (n - 1) as nat);
        assert(build_prefix(ars, ens, n) == pair_step(m, ars[n - 1], ens[n - 1]));
        match (ars[n - 1], ens[n - 1]) {
            (Some(a), Some(e)) => {
                if a != e && spec_is_mappable(a) && spec_is_mappable(e) {
                    lemma_insert_grows(m.ar_to_en, a, e);
                    lemma_insert_grows(m.en_to_ar, e, a);
                    let x = insert_if_absent(m.ar_to_en, a, e);
                    let y = insert_if_absent(m.en_to_ar, e, a);
                    assert forall|i: int| 0 <= i < x.len() implies spec_is_mappable(
                        #[trigger] x[i].0,
                    ) && spec_is_mappable(x[i].1) by {
                        if i < m.ar_to_en.len() {
                            assert(x[i] == m.ar_to_en[i]);
                        } else {
                            assert(x == m.ar_to_en.push((a, e)));
                            assert(x[i] == (a, e));
                        }
                    }
                    assert forall|i: int| 0 <= i < y.len() implies spec_is_mappable(
                        #[trigger] y[i].0,
                    ) && spec_is_mappable(y[i].1) by {
                        if i < m.en_to_ar.len() {
                            assert(y[i] == m.en_to_ar[i]);
                        } else {
                            assert(y == m.en_to_ar.push((e, a)));
                            assert(y[i] == (e, a));
                        }
                    }
                    assert(pairs_mappable(x));
                    assert(pairs_mappable(y));
                    assert(build_prefix(ars, ens, n).ar_to_en == x);
                    assert(build_prefix(ars, ens, n).en_to_ar == y);
                }
            },
            _ => {},
        }
    }
}

proof fn lemma_pow2_positive(n: nat)
    ensures
        pow2(n) >= 1,
    decreases n,
{
    if n > 0 {
        lemma_pow2_positive((n - 1) as nat);
    }
}

proof fn lemma_first_english(ts: Seq<TokenModel>, m: nat, limit: nat)
    ensures
        first_english(ts, m, limit) matches Some(k) ==> m <= k < limit && spec_is_english_word(
            render(ts, k),
        ),
    decreases limit - m,
{
    if m < limit && !spec_is_english_word(render(ts, m)) {
        lemma_first_english(ts, m + 1, limit);
    }
}

/// How a word with ambiguous keys is read: when reading every key as the single key gives
/// an English word, that reading is kept (it wins ties); otherwise the reading chosen is an
/// English word, or, with none to be found, that same default reading.
pub proof fn law_resolve_prefers_default(ts: Seq<TokenModel>)
    ensures
        spec_is_english_word(render(ts, 0)) ==> spec_resolve(ts) == render(ts, 0),
        spec_resolve(ts) == render(ts, 0) || spec_is_english_word(spec_resolve(ts)),
{
    lemma_pow2_positive(count_alts(ts));
    lemma_first_english(ts, 0, pow2(count_alts(ts)));
}

/// Going from Latin to Arabic there is nothing to guess: every key is read as itself.
pub proof fn law_no_guessing_into_arabic(t: Seq<(Seq<char>, Seq<char>)>, w: Seq<char>)
    ensures
        convert_word(t, Direction::LatinToArabic, w) == concat_plain(spec_tokens(t, w)),
{
}

/// A built map: its two directions are empty together, and every pair joins two mappable
/// texts.
pub proof fn law_built_map<A: LayoutProvider, L: LayoutProvider>(arabic: &A, latin: &L)
    ensures
        (spec_build(arabic, latin).ar_to_en.len() == 0) == (spec_build(arabic, latin).en_to_ar.len()
            == 0),
        pairs_mappable(spec_build(arabic, latin).ar_to_en),
        pairs_mappable(spec_build(arabic, latin).en_to_ar),
{
    law_directions_empty_together(slot_outputs(arabic), slot_outputs(latin), paired_slots());
    law_built_pairs_are_mappable(slot_outputs(arabic), slot_outputs(latin), paired_slots());
}

/// A layout that types nothing gives a map that converts nothing: any text, either way,
/// comes back as it was.
pub proof fn law_silent_layout_converts_nothing<A: LayoutProvider, L: LayoutProvider>(
    arabic: &A,
    latin: &L,
    d: Direction,
    s: Seq<char>,
)
    requires
        forall|k: u16, layer: crate::layout::Layer| #[trigger] arabic.spec_output(k, layer) is None,
    ensures
        convert_text(table_for(spec_build(arabic, latin), d), d, s) == s,
{
    law_nothing_typed_gives_empty_map(slot_outputs(arabic), slot_outputs(latin), paired_slots());
    law_empty_map_changes_nothing(d, s);
}

/// Adopting the new default exceptions keeps the user's list as it was, in front, and adds
/// only defaults introduced after `version` that were not listed yet, each once.
pub proof fn law_adopt_keeps_user_list(list: Seq<Seq<char>>, version: u32, k: nat)
    requires
        k <= DEFAULT_EXCLUDED@.len(),
    ensures
        adopt_prefix(list, version, k).len() >= list.len(),
        adopt_prefix(list, version, k).take(list.len() as int) == list,
        forall|i: int|
            list.len() <= i < adopt_prefix(list, version, k).len() ==> !list.contains(
                #[trigger] adopt_prefix(list, version, k)[i],
            ) && exists|j: int|
                0 <= j < k && DEFAULT_EXCLUDED@[j].0@ == adopt_prefix(list, version, k)[i]
                    && DEFAULT_EXCLUDED@[j].1 > version,
    decreases k,
{
    if k == 0 {
        assert(list.take(list.len() as int) =~= list);
    } else {
        law_adopt_keeps_user_list(list, version, (k - 1) as nat);
        let prev = adopt_prefix(list, version, (k - 1) as nat);
        let (id, since) = DEFAULT_EXCLUDED@[k - 1];
        if since > version && !prev.contains(id@) {
            let next = prev.push(id@);
            assert(next.take(list.len() as int) =~= prev.take(list.len() as int));
            assert forall|i: int| list.len() <= i < next.len() implies !list.contains(
                #[trigger] next[i],
            ) && exists|j: int|
                0 <= j < k && DEFAULT_EXCLUDED@[j].0@ == next[i] && DEFAULT_EXCLUDED@[j].1
                    > version by {
                if i < prev.len() {
                    assert(next[i] == prev[i]);
                    let j = choose|j: int|
                        0 <= j < k - 1 && DEFAULT_EXCLUDED@[j].0@ == prev[i] && DEFAULT_EXCLUDED@[j].1
                            > version;
                    assert(0 <= j < k && DEFAULT_EXCLUDED@[j].0@ == next[i]);
                } else {
                    assert(next[i] == id@);
                    if list.contains(id@) {
                        let w = choose|w: int| 0 <= w < list.len() && list[w] == id@;
                        assert(prev[w] == prev.take(list.len() as int)[w]);
                        assert(prev.contains(id@));
                    }
                    assert(DEFAULT_EXCLUDED@[k - 1].0@ == next[i]);
                }
            }
        } else {
            assert forall|i: int| list.len() <= i < prev.len() implies !list.contains(
                #[trigger] prev[i],
            ) && exists|j: int|
                0 <= j < k && DEFAULT_EXCLUDED@[j].0@ == prev[i] && DEFAULT_EXCLUDED@[j].1
                    > version by {
                let j = choose|j: int|
                    0 <= j < k - 1 && DEFAULT_EXCLUDED@[j].0@ == prev[i] && DEFAULT_EXCLUDED@[j].1
                        > version;
                assert(0 <= j < k);
            }
        }
    }
}

/// The default identifiers among the first `k` entries that are newer than `version` and
/// not in `list`, in order, each once.
pub open spec fn new_defaults(list: Seq<Seq<char>>, version: u32, k: nat) -> Seq<Seq<char>>
    decreases k,
{
    if k == 0 {
        Seq::empty()
    } else {
        let prev = new_defaults(list, version, (k - 1) as nat);
        let (id, since) = DEFAULT_EXCLUDED@[k - 1];
        if since > version && !list.contains(id@) && !prev.contains(id@) {
            prev.push(id@)
        } else {
            prev
        }
    }
}

proof fn lemma_contains_concat(a: Seq<Seq<char>>, b: Seq<Seq<char>>, x: Seq<char>)
    ensures
        (a + b).contains(x) <==> a.contains(x) || b.contains(x),
{
    if (a + b).contains(x) {
        let i = choose|i: int| 0 <= i < (a + b).len() && (a + b)[i] == x;
        if i < a.len() {
            assert(a[i] == x);
        } else {
            assert(b[i - a.len()] == x);
        }
    }
    if a.contains(x) {
        let i = choose|i: int| 0 <= i < a.len() && a[i] == x;
        assert((a + b)[i] == x);
    }
    if b.contains(x) {
        let i = choose|i: int| 0 <= i < b.len() && b[i] == x;
        assert((a + b)[i + a.len()] == x);
    }
}

proof fn lemma_adopt_prefix(list: Seq<Seq<char>>, version: u32, k: nat)
    requires
        k <= DEFAULT_EXCLUDED@.len(),
    ensures
        adopt_prefix(list, version, k) == list + new_defaults(list, version, k),
    decreases k,
{
    if k == 0 {
        assert(list + Seq::<Seq<char>>::empty() =~= list);
    } else {
        lemma_adopt_prefix(list, version, (k - 1) as nat);
        let nd = new_defaults(list, version, (k - 1) as nat);
        let (id, since) = DEFAULT_EXCLUDED@[k - 1];
        lemma_contains_concat(list, nd, id@);
        assert((list + nd).push(id@) =~= list + nd.push(id@));
    }
}

/// Adopting the new defaults gives the user's list as it was, followed by the defaults
/// introduced after `version` that it does not hold yet, in their order, each once.
pub proof fn law_adopt_appends_new_defaults(list: Seq<Seq<char>>, version: u32)
    ensures
        adopted(list, version) == list + new_defaults(list, version, DEFAULT_EXCLUDED@.len()),
{
    lemma_adopt_prefix(list, version, DEFAULT_EXCLUDED@.len());
}

/// The first Latin-to-Arabic pairing of a built map wins: the first slot, in pairing order,
/// that pairs the Latin text `e` decides what `e` converts to.
pub proof fn law_built_first_pairing_wins<A: LayoutProvider, L: LayoutProvider>(
    arabic: &A,
    latin: &L,
    i: int,
    e: Seq<char>,
)
    requires
        0 <= i < paired_slots(),
        latin_pairs(slot_outputs(arabic), slot_outputs(latin), i, e),
        forall|j: int| 0 <= j < i ==> !#[trigger] latin_pairs(slot_outputs(arabic), slot_outputs(latin), j, e),
    ensures
        convert_text(
            table_for(spec_build(arabic, latin), Direction::LatinToArabic),
            Direction::LatinToArabic,
            e,
        ) == slot_outputs(arabic)[i]->0,
{
    law_first_pairing_wins(slot_outputs(arabic), slot_outputs(latin), paired_slots(), i, e);
}

/// The defaults are offered once: whatever version settings start from, after adopting
/// they are on the current one, where adopting again does nothing (so a default the user
/// removed in between stays removed).
pub proof fn law_adopt_once(version: u32)
    ensures
        version_after_adopt(version) >= DEFAULTS_VERSION,
        version_after_adopt(version_after_adopt(version)) == version_after_adopt(version),
{
}

/// The other arrow of the other arrow is the arrow itself.
pub proof fn law_opposite_twice(arrow: u16)
    requires
        arrow == KEY_LEFT || arrow == KEY_RIGHT,
    ensures
        spec_opposite(spec_opposite(arrow)) == arrow,
{
}

/// A conversion that can still be extended can still be undone.
pub proof fn law_extend_within_undo(at: u64, now: u64)
    ensures
        elapsed(at, now) < EXTEND_WINDOW_MS ==> elapsed(at, now) < UNDO_WINDOW_MS,
{
}

/// A key-path edit covers the line exactly: what is kept and what is replaced make up the
/// line, and the replacement differs from what it replaces.
#[verifier::spinoff_prover]
#[verifier::rlimit(40)]
pub proof fn law_line_edits_cover_the_line(
    m: MapModel,
    line: Seq<char>,
    expected: Direction,
    last_result: Seq<char>,
    d: Direction,
)
    ensures
        spec_plan_last_word(m, line, expected) matches Some((kept, replaced, converted, _))
            ==> kept + replaced == line && converted != replaced,
        spec_plan_extension(m, line, last_result, d) matches Some((kept, replaced, converted, _))
            ==> kept + replaced == line && converted != replaced,
{
    lemma_trim_end(line);
    lemma_word_start(spec_trim_end(line));
    if let Some(k) = crate::controller::spec_last_word_start(line) {
        assert(line.take(k as int) + line.skip(k as int) =~= line);
    }
    let end = spec_trim_end(line).len();
    let ours = spec_trim_end(last_result);
    if ours.len() <= end {
        let start = end - ours.len();
        lemma_trim_end(line.take(start as int));
        lemma_word_start(spec_trim_end(line.take(start as int)));
        if let Some(k) = crate::controller::spec_last_word_start(line.take(start as int)) {
            assert(line.take(k as int) + line.skip(k as int) =~= line);
        }
    }
}

/// The word found before the caret is a word: not empty, and no whitespace in it.
pub proof fn law_previous_word_is_a_word(text: Seq<char>, from: nat, end: nat)
    ensures
        spec_previous_word(text, from, end) matches Some((_, _, w)) ==> w.len() > 0 && forall|i: int|
            0 <= i < w.len() ==> !spec_is_whitespace(#[trigger] w[i]),
{
    let t = spec_trim_end(text);
    let k = spec_word_start(t);
    lemma_word_start(t);
    assert forall|i: int| 0 <= i < t.skip(k as int).len() implies !spec_is_whitespace(
        #[trigger] t.skip(k as int)[i],
    ) by {
        assert(t.skip(k as int)[i] == t[k + i]);
    }
}

/// With secure input on, nothing is read or written: the conversion stops before it
/// starts, whatever else holds. So it does for an excluded app.
pub proof fn law_protected_and_excluded_stop_early(
    settings: Settings,
    trusted: bool,
    secure_input: bool,
    frontmost: Option<Seq<char>>,
)
    ensures
        secure_input ==> spec_precheck(settings, trusted, secure_input, frontmost) is Some,
        (frontmost matches Some(id) && exclusions(settings).contains(id)) ==> spec_precheck(
            settings,
            trusted,
            secure_input,
            frontmost,
        ) is Some,
{
}

/// Automatic checks are a day apart: none is due within a day of the last one, and one
/// is due once a day has passed.
pub proof fn law_checks_a_day_apart(last: u64, now: u64)
    requires
        last <= now,
    ensures
        now - last < CHECK_INTERVAL_MS ==> !spec_check_due(Some(last), now),
        now - last >= CHECK_INTERVAL_MS ==> spec_check_due(Some(last), now),
{
}

/// Every key of the table is one character, and so is what it maps to.
pub open spec fn single_char_keys(t: Seq<(Seq<char>, Seq<char>)>) -> bool {
    forall|i: int| 0 <= i < t.len() ==> (#[trigger] t[i]).0.len() == 1 && t[i].1.len() == 1
}

/// What the table maps the character `c` to, or `c` itself when it is not a key.
pub open spec fn key_of(t: Seq<(Seq<char>, Seq<char>)>, c: char) -> char {
    match lookup(t, seq![c]) {
        Some(o) => o[0],
        None => c,
    }
}

/// `s` mapped character by character.
pub open spec fn char_map(t: Seq<(Seq<char>, Seq<char>)>, s: Seq<char>) -> Seq<char> {
    Seq::new(s.len(), |i: int| key_of(t, s[i]))
}

proof fn lemma_match_len_single(t: Seq<(Seq<char>, Seq<char>)>, w: Seq<char>, n: nat)
    requires
        single_char_keys(t),
        n <= w.len(),
    ensures
        match_len(t, w, n) == (if n >= 1 && lookup(t, w.take(1)) is Some {
            1nat
        } else {
            0nat
        }),
    decreases n,
{
    if n > 0 {
        lemma_lookup_in(t, w.take(n as int));
        if n >= 2 && lookup(t, w.take(n as int)) is Some {
            let i = choose|i: int| 0 <= i < t.len() && t[i].0 == w.take(n as int);
            assert(t[i].0.len() == 1);
        }
        lemma_match_len_single(t, w, (n - 1) as nat);
    }
}

proof fn lemma_single_tokens(t: Seq<(Seq<char>, Seq<char>)>, w: Seq<char>)
    requires
        single_char_keys(t),
    ensures
        concat_plain(spec_tokens(t, w)) == char_map(t, w),
        count_alts(spec_tokens(t, w)) == 0,
    decreases w.len(),
{
    if w.len() > 0 {
        lemma_match_len_single(t, w, w.len());
        lemma_single_tokens(t, w.skip(1));
        assert(w.take(1) =~= seq![w[0]]);
        let rest = spec_tokens(t, w.skip(1));
        let tok = if lookup(t, w.take(1)) is Some {
            token_of_single(t, w)
        } else {
            TokenModel { out: None, src: w.take(1), alt: None }
        };
        let ts = seq![tok] + rest;
        assert(spec_tokens(t, w) == ts);
        assert(ts[0] == tok);
        assert(ts.drop_first() =~= rest);
        lemma_lookup_in(t, w.take(1));
        if let Some(o) = lookup(t, w.take(1)) {
            let i = choose|i: int| 0 <= i < t.len() && t[i].0 == w.take(1) && t[i].1 == o;
            assert(o.len() == 1);
            assert(o =~= seq![o[0]]);
        }
        assert(plain(tok) =~= seq![key_of(t, w[0])]);
        assert(char_map(t, w) =~= seq![key_of(t, w[0])] + char_map(t, w.skip(1)));
    }
}

spec fn token_of_single(t: Seq<(Seq<char>, Seq<char>)>, w: Seq<char>) -> TokenModel {
    crate::convert::token_of(t, w.take(1))
}

proof fn lemma_char_map_concat(t: Seq<(Seq<char>, Seq<char>)>, a: Seq<char>, b: Seq<char>)
    ensures
        char_map(t, a + b) == char_map(t, a) + char_map(t, b),
{
    assert(char_map(t, a + b) =~= char_map(t, a) + char_map(t, b));
}

/// With single-character keys, none of them whitespace, converting maps the text
/// character by character.
pub proof fn law_single_keys_map_by_character(
    t: Seq<(Seq<char>, Seq<char>)>,
    d: Direction,
    s: Seq<char>,
)
    requires
        single_char_keys(t),
        pairs_mappable(t),
    ensures
        convert_text(t, d, s) == char_map(t, s),
    decreases s.len(),
{
    if s.len() > 0 {
        lemma_run_len(s);
        let k = run_len(s) as int;
        let seg = s.take(k);
        law_single_keys_map_by_character(t, d, s.skip(k));
        lemma_char_map_concat(t, seg, s.skip(k));
        assert(seg + s.skip(k) =~= s);
        if spec_is_whitespace(s[0]) {
            assert forall|i: int| 0 <= i < seg.len() implies #[trigger] key_of(t, seg[i]) == seg[i] by {
                lemma_lookup_in(t, seq![seg[i]]);
                if let Some(o) = lookup(t, seq![seg[i]]) {
                    let j = choose|j: int| 0 <= j < t.len() && t[j].0 == seq![seg[i]] && t[j].1 == o;
                    assert(spec_is_mappable(t[j].0));
                    assert(t[j].0[0] == seg[i]);
                    assert(spec_is_whitespace(s[i]));
                }
            }
            assert(char_map(t, seg) =~= seg);
        } else {
            lemma_single_tokens(t, seg);
        }
    }
}

/// Converting back undoes converting: text made of characters whose key's partner types
/// them back comes back as it was, on a map whose keys are single characters (the stock
/// "Arabic" and "ABC" layouts type one character per key on the layers a map pairs; a key
/// typing "لا" breaks the condition).
pub proof fn law_round_trip(m: MapModel, s: Seq<char>)
    requires
        single_char_keys(m.ar_to_en),
        single_char_keys(m.en_to_ar),
        pairs_mappable(m.ar_to_en),
        pairs_mappable(m.en_to_ar),
        forall|i: int| 0 <= i < s.len() ==> key_of(m.en_to_ar, key_of(m.ar_to_en, #[trigger] s[i])) == s[i],
    ensures
        convert_text(
            table_for(m, Direction::LatinToArabic),
            Direction::LatinToArabic,
            convert_text(table_for(m, Direction::ArabicToLatin), Direction::ArabicToLatin, s),
        ) == s,
{
    law_single_keys_map_by_character(m.ar_to_en, Direction::ArabicToLatin, s);
    let once = char_map(m.ar_to_en, s);
    law_single_keys_map_by_character(m.en_to_ar, Direction::LatinToArabic, once);
    assert(char_map(m.en_to_ar, once) =~= s);
}

/// A conversion looks at each place at most once, in order (selection, continuation, word
/// before the caret), so it always ends; what a place found is reported as it is; and a
/// continuation that cannot tell ends the conversion, with no text.
pub proof fn law_conversion_moves_forward(stage: Stage, found: Found, can_continue: bool)
    ensures
        spec_next_step(stage, found, can_continue) matches Step::Look(next) ==> stage_rank(next)
            > stage_rank(stage),
        found matches Found::Done(outcome) ==> spec_next_step(stage, found, can_continue)
            == Step::Report(outcome),
        stage == Stage::Continuation && found == Found::Unknown ==> spec_next_step(
            stage,
            found,
            can_continue,
        ) == Step::Report(Outcome::NoText),
        spec_next_step(stage, found, can_continue) == Step::Look(Stage::Continuation) ==> stage
            == Stage::Selection && can_continue,
{
}

/// How many characters of `s` are ASCII letters.
pub open spec fn count_ascii_letters(s: Seq<char>) -> nat
    decreases s.len(),
{
    if s.len() == 0 {
        0
    } else {
        count_ascii_letters(s.drop_last()) + if spec_is_ascii_alphabetic(s.last()) {
            1nat
        } else {
            0nat
        }
    }
}

/// Text made of Arabic-script characters and printable ASCII (letters, digits,
/// punctuation, whitespace).
pub open spec fn arabic_or_plain_ascii(s: Seq<char>) -> bool {
    forall|i: int|
        0 <= i < s.len() ==> spec_is_arabic(#[trigger] s[i]) || spec_is_ascii_alphabetic(s[i])
            || spec_is_ascii_nonletter(s[i])
}

/// On text of Arabic script and printable ASCII, the Latin side of the direction vote is
/// the ASCII letters: digits, punctuation and whitespace count for neither side.
pub proof fn law_latin_vote_is_ascii_letters(s: Seq<char>)
    requires
        arabic_or_plain_ascii(s),
    ensures
        count_latin(s) == count_ascii_letters(s),
    decreases s.len(),
{
    if s.len() > 0 {
        let p = s.drop_last();
        assert forall|i: int| 0 <= i < p.len() implies spec_is_arabic(#[trigger] p[i])
            || spec_is_ascii_alphabetic(p[i]) || spec_is_ascii_nonletter(p[i]) by {
            assert(p[i] == s[i]);
        }
        law_latin_vote_is_ascii_letters(p);
        let c = s.last();
        assert(spec_is_arabic(s[s.len() - 1]) || spec_is_ascii_alphabetic(s[s.len() - 1])
            || spec_is_ascii_nonletter(s[s.len() - 1]));
        if spec_is_ascii_alphabetic(c) || spec_is_ascii_nonletter(c) {
            assert(!spec_is_arabic(c));
        }
    }
}

proof fn lemma_no_arabic(s: Seq<char>)
    requires
        forall|i: int| 0 <= i < s.len() ==> !spec_is_arabic(#[trigger] s[i]),
    ensures
        count_arabic(s) == 0,
    decreases s.len(),
{
    if s.len() > 0 {
        let p = s.drop_last();
        assert forall|i: int| 0 <= i < p.len() implies !spec_is_arabic(#[trigger] p[i]) by {
            assert(p[i] == s[i]);
        }
        lemma_no_arabic(p);
        assert(!spec_is_arabic(s[s.len() - 1]));
    }
}

proof fn lemma_letters_counted(s: Seq<char>, j: int)
    requires
        0 <= j < s.len(),
        spec_is_ascii_alphabetic(s[j]),
    ensures
        count_ascii_letters(s) > 0,
    decreases s.len(),
{
    if j < s.len() - 1 {
        assert(s.drop_last()[j] == s[j]);
        lemma_letters_counted(s.drop_last(), j);
    }
}

proof fn lemma_no_letters(s: Seq<char>)
    requires
        forall|i: int| 0 <= i < s.len() ==> !spec_is_ascii_alphabetic(#[trigger] s[i]),
    ensures
        count_ascii_letters(s) == 0,
    decreases s.len(),
{
    if s.len() > 0 {
        let p = s.drop_last();
        assert forall|i: int| 0 <= i < p.len() implies !spec_is_ascii_alphabetic(#[trigger] p[i]) by {
            assert(p[i] == s[i]);
        }
        lemma_no_letters(p);
        assert(!spec_is_ascii_alphabetic(s[s.len() - 1]));
    }
}

/// Printable ASCII text is Latin when it holds a letter, and has no direction when it holds
/// only digits, punctuation and whitespace.
pub proof fn law_ascii_text_direction(s: Seq<char>)
    requires
        forall|i: int|
            0 <= i < s.len() ==> spec_is_ascii_alphabetic(#[trigger] s[i]) || spec_is_ascii_nonletter(
                s[i],
            ),
    ensures
        (exists|i: int| 0 <= i < s.len() && spec_is_ascii_alphabetic(#[trigger] s[i]))
            ==> spec_detect_direction(s) == Some(Direction::LatinToArabic),
        (forall|i: int| 0 <= i < s.len() ==> !spec_is_ascii_alphabetic(#[trigger] s[i]))
            ==> spec_detect_direction(s) is None,
{
    assert forall|i: int| 0 <= i < s.len() implies !spec_is_arabic(#[trigger] s[i]) by {
        assert(spec_is_ascii_alphabetic(s[i]) || spec_is_ascii_nonletter(s[i]));
    }
    lemma_no_arabic(s);
    assert forall|i: int| 0 <= i < s.len() implies spec_is_arabic(#[trigger] s[i])
        || spec_is_ascii_alphabetic(s[i]) || spec_is_ascii_nonletter(s[i]) by {}
    law_latin_vote_is_ascii_letters(s);
    if exists|i: int| 0 <= i < s.len() && spec_is_ascii_alphabetic(#[trigger] s[i]) {
        let j = choose|i: int| 0 <= i < s.len() && spec_is_ascii_alphabetic(#[trigger] s[i]);
        lemma_letters_counted(s, j);
    }
    if forall|i: int| 0 <= i < s.len() ==> !spec_is_ascii_alphabetic(#[trigger] s[i]) {
        lemma_no_letters(s);
    }
}

proof fn lemma_key_names()
    ensures
        "space"@.len() == 5,
        "enter"@.len() == 5,
        "return"@ == seq!['r', 'e', 't', 'u', 'r', 'n'],
        "escape"@ == seq!['e', 's', 'c', 'a', 'p', 'e'],
        "esc"@.len() == 3,
        "backspace"@.len() == 9,
        "delete"@ == seq!['d', 'e', 'l', 'e', 't', 'e'],
        "tab"@.len() == 3,
        "arrowleft"@.len() == 9,
        "left"@ == seq!['l', 'e', 'f', 't'],
        "arrowright"@.len() == 10,
        "right"@.len() == 5,
        "arrowup"@.len() == 7,
        "up"@.len() == 2,
        "arrowdown"@.len() == 9,
        "down"@ == seq!['d', 'o', 'w', 'n'],
        "key"@ == seq!['k', 'e', 'y'],
        "digit"@ == seq!['d', 'i', 'g', 'i', 't'],
{
    reveal_strlit("space");
    reveal_strlit("enter");
    reveal_strlit("return");
    reveal_strlit("escape");
    reveal_strlit("esc");
    reveal_strlit("backspace");
    reveal_strlit("delete");
    reveal_strlit("tab");
    reveal_strlit("arrowleft");
    reveal_strlit("left");
    reveal_strlit("arrowright");
    reveal_strlit("right");
    reveal_strlit("arrowup");
    reveal_strlit("up");
    reveal_strlit("arrowdown");
    reveal_strlit("down");
    reveal_strlit("key");
    reveal_strlit("digit");
}

/// A letter key's legend is its letter in upper case: "KeyA" and "keya" give "A".
pub proof fn law_letter_key_legend(c: char)
    requires
        spec_is_ascii_alphabetic(c),
    ensures
        spec_pretty_key(seq!['K', 'e', 'y', c]) == seq![spec_ascii_upper(c)],
        spec_pretty_key(seq!['k', 'e', 'y', c]) == seq![spec_ascii_upper(c)],
{
    lemma_key_names();
    let lc = crate::text::spec_ascii_lower(c);
    let k = seq!['k', 'e', 'y', lc];
    assert(crate::text::spec_lower_seq(seq!['K', 'e', 'y', c]) =~= k);
    assert(crate::text::spec_lower_seq(seq!['k', 'e', 'y', c]) =~= k);
    assert(k[0] != "left"@[0] && k[0] != "down"@[0]);
    assert(k.take(3) =~= "key"@);
    assert(k.skip(3) =~= seq![lc]);
    assert(crate::shortcuts::spec_trim_start(seq![lc], "key"@) == seq![lc]);
    assert(crate::shortcuts::spec_trim_start(seq![lc], "digit"@) == seq![lc]);
    assert(crate::shortcuts::spec_trim_start(k, "key"@) == seq![lc]);
    assert(crate::text::spec_all_ascii(seq![lc]));
    assert(crate::text::spec_upper_seq(seq![lc]) =~= seq![spec_ascii_upper(c)]);
}

/// A digit key's legend is its digit: "Digit1" gives "1".
pub proof fn law_digit_key_legend(d: char)
    requires
        '0' <= d <= '9',
    ensures
        spec_pretty_key(seq!['D', 'i', 'g', 'i', 't', d]) == seq![d],
{
    lemma_key_names();
    let k = seq!['d', 'i', 'g', 'i', 't', d];
    assert(crate::text::spec_lower_seq(seq!['D', 'i', 'g', 'i', 't', d]) =~= k);
    assert(k.take(5) =~= "digit"@);
    assert(k.skip(5) =~= seq![d]);
    assert(k[0] != "return"@[0] && k[0] != "escape"@[0] && k[1] != "delete"@[1]);
    assert(k.take(3) != "key"@) by {
        assert(k.take(3)[0] != "key"@[0]);
    }
    assert(crate::shortcuts::spec_trim_start(k, "key"@) == k);
    assert(crate::shortcuts::spec_trim_start(seq![d], "digit"@) == seq![d]);
    assert(crate::shortcuts::spec_trim_start(k, "digit"@) == seq![d]);
    assert(crate::text::spec_all_ascii(seq![d]));
    assert(crate::text::spec_upper_seq(seq![d]) =~= seq![d]);
}

/// Undo stays within its limits: nothing is undone once the conversion is forgotten or its
/// window has passed; secure input always stops it; and through the keyboard it never
/// selects back over more than [`MAX_UNDO_CHARS`] caret stops, exactly those of the result.
pub proof fn law_undo_limits(last: LastOp, has_text_range: bool, trusted: bool, secure_input: bool)
    ensures
        spec_undo_gate(false, trusted, secure_input) == Some(Outcome::NoText),
        spec_undo_gate(true, trusted, true) == Some(Outcome::Failed),
        spec_undo_route(last, has_text_range) matches UndoRoute::ByKeys { stops } ==> stops
            <= MAX_UNDO_CHARS && stops == spec_caret_stops(last.result@),
{
}

/// With text selected, the caret is never taken to continue the last conversion.
pub proof fn law_selection_is_no_continuation(
    end: Option<usize>,
    caret: usize,
    len: usize,
    still_there: bool,
    gap: Option<Seq<char>>,
)
    requires
        len > 0,
    ensures
        spec_caret_follows(end, Some((caret, len)), still_there, gap) is None,
{
}

/// The word before the caret is reported where it lies, in UTF-16 units: it is the last
/// whitespace-delimited word of the text with its trailing whitespace left out (all of it,
/// with no whitespace inside and whitespace or the text's start before it), it is `len`
/// units long, and it ends exactly where that trimmed text ends, `from` plus the trimmed
/// text's UTF-16 length (so a character outside the Basic Multilingual Plane before it
/// counts two units, not one). There is one exactly when the text is as long as the range
/// and holds something besides whitespace.
pub proof fn law_previous_word_spans_the_word(text: Seq<char>, from: nat, end: nat)
    requires
        utf16_units(text) <= usize::MAX,
    ensures
        spec_previous_word(text, from, end) is Some <==> (utf16_units(text) == end - from
            && spec_trim_end(text).len() > 0),
        spec_previous_word(text, from, end) matches Some((start, len, w)) ==> {
            let t = spec_trim_end(text);
            &&& w.len() > 0
            &&& t.len() >= w.len()
            &&& t.skip(t.len() - w.len()) == w
            &&& forall|i: int| 0 <= i < w.len() ==> !spec_is_whitespace(#[trigger] w[i])
            &&& (t.len() == w.len() || spec_is_whitespace(t[t.len() - w.len() - 1]))
            &&& len == utf16_units(w)
            &&& start + len == from + utf16_units(t)
        },
{
    let t = spec_trim_end(text);
    lemma_trim_end(text);
    lemma_word_start(t);
    let k = spec_word_start(t);
    let w = t.skip(k as int);
    lemma_utf16_split(text, t.len() as int);
    assert(text.take(t.len() as int) == t);
    lemma_utf16_split(t, k as int);
    assert(text.take(k as int) =~= t.take(k as int));
    assert(t.skip(t.len() - w.len()) =~= w);
    assert forall|i: int| 0 <= i < w.len() implies !spec_is_whitespace(#[trigger] w[i]) by {
        assert(w[i] == t[k + i]);
    }
    if t.len() > 0 {
        assert(!spec_is_whitespace(t[t.len() - 1]));
        assert(k < t.len());
    }
}

/// The keyboard path converts the last word of the line in the direction detected on that
/// word alone (the text kept before it has no say), falling back to the expected direction
/// when the word has no letters. The edit keeps the line's head, which is empty or ends in
/// whitespace, replaces its tail, the last word with the whitespace after it, and changes
/// something; there is an edit exactly when the line has a word and converting its tail
/// changes it.
pub proof fn law_last_word_in_its_own_direction(m: MapModel, line: Seq<char>, expected: Direction)
    ensures
        spec_plan_last_word(m, line, expected) matches Some((kept, tail, c, d)) ==> {
            &&& kept + tail == line
            &&& (kept.len() == 0 || spec_is_whitespace(kept.last()))
            &&& spec_trim_end(tail).len() > 0
            &&& forall|i: int|
                0 <= i < spec_trim_end(tail).len() ==> !spec_is_whitespace(#[trigger] tail[i])
            &&& d == direction_or(spec_detect_direction(tail), expected)
            &&& c == convert_text(table_for(m, d), d, tail)
            &&& c != tail
        },
        spec_trim_end(line).len() > 0 ==> {
            let tail = line.skip(spec_word_start(spec_trim_end(line)) as int);
            let d = direction_or(spec_detect_direction(tail), expected);
            (spec_plan_last_word(m, line, expected) is Some) == (convert_text(table_for(m, d), d, tail)
                != tail)
        },
        spec_trim_end(line).len() == 0 ==> spec_plan_last_word(m, line, expected) is None,
{
    let t = spec_trim_end(line);
    lemma_trim_end(line);
    lemma_word_start(t);
    let k = spec_word_start(t);
    if t.len() > 0 {
        assert(!spec_is_whitespace(t[t.len() - 1]));
        assert(k < t.len());
        assert(crate::controller::spec_last_word_start(line) == Some(k));
        assert(line.take(k as int) + line.skip(k as int) =~= line);
        let tail = line.skip(k as int);
        assert(t =~= line.take(t.len() as int));
        lemma_trim_end_of_tail(line, k as int);
        assert forall|i: int| 0 <= i < spec_trim_end(tail).len() implies !spec_is_whitespace(
            #[trigger] tail[i],
        ) by {
            assert(tail[i] == t[k + i]);
        }
        if k > 0 {
            assert(line.take(k as int).last() == t[k - 1]);
        }
    }
}

/// The tail of a line from the start of its last word, trimmed, is that word.
proof fn lemma_trim_end_of_tail(line: Seq<char>, k: int)
    requires
        0 <= k < spec_trim_end(line).len(),
    ensures
        spec_trim_end(line.skip(k)) == spec_trim_end(line).skip(k),
{
    let t = spec_trim_end(line);
    lemma_trim_end(line);
    let w = line.skip(t.len() as int);
    assert forall|i: int| 0 <= i < w.len() implies spec_is_whitespace(#[trigger] w[i]) by {
        assert(w[i] == line[t.len() + i]);
    }
    lemma_trim_end_whitespace(t.skip(k), w);
    assert(line.skip(k) =~= t.skip(k) + w);
    assert(t.skip(k).len() > 0 && t.skip(k).last() == t.last());
}

proof fn lemma_trim_end_whitespace(r: Seq<char>, w: Seq<char>)
    requires
        forall|i: int| 0 <= i < w.len() ==> spec_is_whitespace(#[trigger] w[i]),
    ensures
        spec_trim_end(r + w) == spec_trim_end(r),
    decreases w.len(),
{
    if w.len() == 0 {
        assert(r + w =~= r);
    } else {
        let w2 = w.drop_last();
        assert forall|i: int| 0 <= i < w2.len() implies spec_is_whitespace(#[trigger] w2[i]) by {
            assert(w2[i] == w[i]);
        }
        lemma_trim_end_whitespace(r, w2);
        assert((r + w).drop_last() =~= r + w2);
        assert((r + w).last() == w[w.len() - 1]);
    }
}

/// Continuing a conversion pays no attention to whitespace at the end of its last result
/// (the space typed after the word): the plan for a result followed by whitespace is the
/// plan for the result alone.
pub proof fn law_extension_ignores_trailing_whitespace(
    m: MapModel,
    line: Seq<char>,
    r: Seq<char>,
    w: Seq<char>,
    d: Direction,
)
    requires
        forall|i: int| 0 <= i < w.len() ==> spec_is_whitespace(#[trigger] w[i]),
    ensures
        spec_plan_extension(m, line, r + w, d) == spec_plan_extension(m, line, r, d),
{
    lemma_trim_end_whitespace(r, w);
}

proof fn lemma_strip_front_prefix(p: Seq<char>, s: Seq<char>)
    requires
        forall|i: int| 0 <= i < p.len() ==> !spec_is_ascii_alphabetic(#[trigger] p[i]),
        s.len() == 0 || spec_is_ascii_alphabetic(s[0]),
    ensures
        strip_front(p + s) == s,
    decreases p.len(),
{
    if p.len() == 0 {
        assert(p + s =~= s);
    } else {
        let p2 = p.drop_first();
        assert forall|i: int| 0 <= i < p2.len() implies !spec_is_ascii_alphabetic(#[trigger] p2[i]) by {
            assert(p2[i] == p[i + 1]);
        }
        lemma_strip_front_prefix(p2, s);
        assert((p + s).drop_first() =~= p2 + s);
        assert((p + s)[0] == p[0]);
    }
}

proof fn lemma_strip_back_suffix(s: Seq<char>, q: Seq<char>)
    requires
        forall|i: int| 0 <= i < q.len() ==> !spec_is_ascii_alphabetic(#[trigger] q[i]),
        s.len() == 0 || spec_is_ascii_alphabetic(s.last()),
    ensures
        strip_back(s + q) == s,
    decreases q.len(),
{
    if q.len() == 0 {
        assert(s + q =~= s);
    } else {
        let q2 = q.drop_last();
        assert forall|i: int| 0 <= i < q2.len() implies !spec_is_ascii_alphabetic(#[trigger] q2[i]) by {
            assert(q2[i] == q[i]);
        }
        lemma_strip_back_suffix(s, q2);
        assert((s + q).drop_last() =~= s + q2);
        assert((s + q).last() == q[q.len() - 1]);
    }
}

/// Punctuation around a word, of any length on either side, is ignored: the word's core is
/// the word itself, and it is English exactly when the bare word is.
pub proof fn law_surrounding_punctuation_ignored(p: Seq<char>, w: Seq<char>, q: Seq<char>)
    requires
        w.len() > 0,
        forall|i: int| 0 <= i < w.len() ==> spec_is_ascii_alphabetic(#[trigger] w[i]),
        forall|i: int| 0 <= i < p.len() ==> !spec_is_ascii_alphabetic(#[trigger] p[i]),
        forall|i: int| 0 <= i < q.len() ==> !spec_is_ascii_alphabetic(#[trigger] q[i]),
    ensures
        word_core(p + w + q) == w,
        spec_is_english_word(p + w + q) == spec_is_english_word(w),
{
    assert(spec_is_ascii_alphabetic(w[0]));
    assert(spec_is_ascii_alphabetic(w.last()));
    let empty = Seq::<char>::empty();
    assert forall|i: int| 0 <= i < empty.len() implies !spec_is_ascii_alphabetic(#[trigger] empty[i]) by {}
    assert((w + q)[0] == w[0]);
    lemma_strip_front_prefix(p, w + q);
    assert(p + w + q =~= p + (w + q));
    lemma_strip_back_suffix(w, q);
    lemma_strip_front_prefix(empty, w);
    assert(empty + w =~= w);
    lemma_strip_back_suffix(w, empty);
    assert(w + empty =~= w);
}

proof fn lemma_key_name_contents()
    ensures
        "space"@ == seq!['s', 'p', 'a', 'c', 'e'],
        "enter"@ == seq!['e', 'n', 't', 'e', 'r'],
        "return"@ == seq!['r', 'e', 't', 'u', 'r', 'n'],
        "escape"@ == seq!['e', 's', 'c', 'a', 'p', 'e'],
        "esc"@ == seq!['e', 's', 'c'],
        "backspace"@ == seq!['b', 'a', 'c', 'k', 's', 'p', 'a', 'c', 'e'],
        "delete"@ == seq!['d', 'e', 'l', 'e', 't', 'e'],
        "tab"@ == seq!['t', 'a', 'b'],
        "arrowleft"@ == seq!['a', 'r', 'r', 'o', 'w', 'l', 'e', 'f', 't'],
        "left"@ == seq!['l', 'e', 'f', 't'],
        "arrowright"@ == seq!['a', 'r', 'r', 'o', 'w', 'r', 'i', 'g', 'h', 't'],
        "right"@ == seq!['r', 'i', 'g', 'h', 't'],
        "arrowup"@ == seq!['a', 'r', 'r', 'o', 'w', 'u', 'p'],
        "up"@ == seq!['u', 'p'],
        "arrowdown"@ == seq!['a', 'r', 'r', 'o', 'w', 'd', 'o', 'w', 'n'],
        "down"@ == seq!['d', 'o', 'w', 'n'],
        "Space"@ == seq!['S', 'p', 'a', 'c', 'e'],
        "↩"@ == seq!['\u{21A9}'],
        "⎋"@ == seq!['\u{238B}'],
        "⌫"@ == seq!['\u{232B}'],
        "⌦"@ == seq!['\u{2326}'],
        "⇥"@ == seq!['\u{21E5}'],
        "←"@ == seq!['\u{2190}'],
        "→"@ == seq!['\u{2192}'],
        "↑"@ == seq!['\u{2191}'],
        "↓"@ == seq!['\u{2193}'],
{
    reveal_strlit("space");
    reveal_strlit("enter");
    reveal_strlit("return");
    reveal_strlit("escape");
    reveal_strlit("esc");
    reveal_strlit("backspace");
    reveal_strlit("delete");
    reveal_strlit("tab");
    reveal_strlit("arrowleft");
    reveal_strlit("left");
    reveal_strlit("arrowright");
    reveal_strlit("right");
    reveal_strlit("arrowup");
    reveal_strlit("up");
    reveal_strlit("arrowdown");
    reveal_strlit("down");
    reveal_strlit("Space");
    reveal_strlit("↩");
    reveal_strlit("⎋");
    reveal_strlit("⌫");
    reveal_strlit("⌦");
    reveal_strlit("⇥");
    reveal_strlit("←");
    reveal_strlit("→");
    reveal_strlit("↑");
    reveal_strlit("↓");
}

/// Each named key has its own legend, whatever the case of its name: Backspace erases to
/// the left (U+232B), Delete erases to the right (U+2326), Return and Enter are the return
/// arrow, Escape and Esc the broken circle, Tab the rightwards arrow to bar, the arrow keys
/// their own arrows, and Space is spelled out.
pub proof fn law_named_key_legends(key: Seq<char>)
    ensures
        spec_lower_seq(key) == seq!['s', 'p', 'a', 'c', 'e'] ==> spec_pretty_key(key) == seq![
            'S',
            'p',
            'a',
            'c',
            'e',
        ],
        spec_lower_seq(key) == seq!['e', 'n', 't', 'e', 'r'] ==> spec_pretty_key(key) == seq!['\u{21A9}'],
        spec_lower_seq(key) == seq!['r', 'e', 't', 'u', 'r', 'n'] ==> spec_pretty_key(key) == seq!['\u{21A9}'],
        spec_lower_seq(key) == seq!['e', 's', 'c', 'a', 'p', 'e'] ==> spec_pretty_key(key) == seq!['\u{238B}'],
        spec_lower_seq(key) == seq!['e', 's', 'c'] ==> spec_pretty_key(key) == seq!['\u{238B}'],
        spec_lower_seq(key) == seq!['b', 'a', 'c', 'k', 's', 'p', 'a', 'c', 'e'] ==> spec_pretty_key(key)
            == seq!['\u{232B}'],
        spec_lower_seq(key) == seq!['d', 'e', 'l', 'e', 't', 'e'] ==> spec_pretty_key(key) == seq!['\u{2326}'],
        spec_lower_seq(key) == seq!['t', 'a', 'b'] ==> spec_pretty_key(key) == seq!['\u{21E5}'],
        spec_lower_seq(key) == seq!['a', 'r', 'r', 'o', 'w', 'l', 'e', 'f', 't'] ==> spec_pretty_key(key)
            == seq!['\u{2190}'],
        spec_lower_seq(key) == seq!['l', 'e', 'f', 't'] ==> spec_pretty_key(key) == seq!['\u{2190}'],
        spec_lower_seq(key) == seq!['a', 'r', 'r', 'o', 'w', 'r', 'i', 'g', 'h', 't'] ==> spec_pretty_key(key)
            == seq!['\u{2192}'],
        spec_lower_seq(key) == seq!['r', 'i', 'g', 'h', 't'] ==> spec_pretty_key(key) == seq!['\u{2192}'],
        spec_lower_seq(key) == seq!['a', 'r', 'r', 'o', 'w', 'u', 'p'] ==> spec_pretty_key(key) == seq!['\u{2191}'],
        spec_lower_seq(key) == seq!['u', 'p'] ==> spec_pretty_key(key) == seq!['\u{2191}'],
        spec_lower_seq(key) == seq!['a', 'r', 'r', 'o', 'w', 'd', 'o', 'w', 'n'] ==> spec_pretty_key(key)
            == seq!['\u{2193}'],
        spec_lower_seq(key) == seq!['d', 'o', 'w', 'n'] ==> spec_pretty_key(key) == seq!['\u{2193}'],
{
    lemma_key_name_contents();
}

} // verus!
