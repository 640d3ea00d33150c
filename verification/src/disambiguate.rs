//! Resolves keys that type more than one character.
//!
//! On the Arabic–PC layout `B` types "لا", which is also what `G` then `H`
//! type. Going back to Latin, "مهلاف" is either "libt" or "light". We try each
//! reading of the word against an English word list and keep the first real
//! word; with no verdict, the single key wins (`b` is far more frequent than `gh`).

use vstd::prelude::*;

use crate::convert::{count_alts, models, plain, plain_of, Token, TokenModel};
use crate::text::{
    ascii_lower, chars_of, extend_chars, is_ascii_alphabetic,
    spec_is_ascii_alphabetic, spec_lower_seq,
};
use crate::words::{is_listed_word, listed};

verus! {

/// Beyond this many ambiguous spots in one word, skip the search (2^n readings).
pub const MAX_AMBIGUOUS_SITES: usize = 6;

/// `w` without its leading characters that are not ASCII letters.
pub open spec fn strip_front(w: Seq<char>) -> Seq<char>
    decreases w.len(),
{
    if w.len() > 0 && !spec_is_ascii_alphabetic(w[0]) {
        strip_front(w.drop_first())
    } else {
        w
    }
}

/// `w` without its trailing characters that are not ASCII letters.
pub open spec fn strip_back(w: Seq<char>) -> Seq<char>
    decreases w.len(),
{
    if w.len() > 0 && !spec_is_ascii_alphabetic(w.last()) {
        strip_back(w.drop_last())
    } else {
        w
    }
}

/// `w` with surrounding punctuation (anything that is not an ASCII letter) trimmed away.
pub open spec fn word_core(w: Seq<char>) -> Seq<char> {
    strip_back(strip_front(w))
}

/// Whether `w`, ignoring case and surrounding punctuation, is a known English word.
pub open spec fn spec_is_english_word(w: Seq<char>) -> bool {
    let core = word_core(w);
    &&& core.len() > 0
    &&& forall|i: int| 0 <= i < core.len() ==> spec_is_ascii_alphabetic(#[trigger] core[i])
    &&& is_listed_word(spec_lower_seq(core))
}

/// Whether `word`, ignoring case and surrounding punctuation, is a known English word.
pub fn is_english_word(word: &str) -> (r: bool)
    ensures
        r == spec_is_english_word(word@),
{
    let chars = chars_of(word);
    is_english_chars(&chars)
}

pub(crate) fn is_english_chars(w: &Vec<char>) -> (r: bool)
    ensures
        r == spec_is_english_word(w@),
{
    let n = w.len();
    let mut start: usize = 0;
    assert(w@.skip(0) =~= w@);
    while start < n && !is_ascii_alphabetic(w[start])
        invariant
            start <= n == w.len(),
            strip_front(w@) == strip_front(w@.skip(start as int)),
        decreases n - start,
    {
        assert(w@.skip(start as int).drop_first() =~= w@.skip(start + 1));
        start += 1;
    }
    assert(strip_front(w@) == w@.skip(start as int));
    let mut end = n;
    assert(w@.skip(start as int) =~= w@.subrange(start as int, n as int));
    while end > start && !is_ascii_alphabetic(w[end - 1])
        invariant
            start <= end <= n == w.len(),
            word_core(w@) == strip_back(w@.subrange(start as int, end as int)),
        decreases end,
    {
        assert(w@.subrange(start as int, end as int).drop_last() =~= w@.subrange(
            start as int,
            end - 1,
        ));
        end -= 1;
    }
    assert(word_core(w@) == w@.subrange(start as int, end as int));
    if start == end {
        return false;
    }
    let mut lower: Vec<char> = Vec::new();
    let mut i = start;
    while i < end
        invariant
            start <= i <= end <= n == w.len(),
            word_core(w@) == w@.subrange(start as int, end as int),
            forall|j: int| start <= j < i ==> spec_is_ascii_alphabetic(w@[j]),
            lower@ == spec_lower_seq(w@.subrange(start as int, i as int)),
        decreases end - i,
    {
        if !is_ascii_alphabetic(w[i]) {
            assert(word_core(w@)[i - start] == w@[i as int]);
            return false;
        }
        lower.push(ascii_lower(w[i]));
        assert(lower@ =~= spec_lower_seq(w@.subrange(start as int, i + 1)));
        i += 1;
    }
    assert forall|j: int| 0 <= j < word_core(w@).len() implies spec_is_ascii_alphabetic(
        #[trigger] word_core(w@)[j],
    ) by {
        assert(word_core(w@)[j] == w@[start + j]);
    }
    listed(&lower)
}

/// The word read with the alternatives chosen by `mask`: each token with another reading
/// takes the next bit of `mask` (lowest first), and a set bit picks the other reading.
pub open spec fn render(ts: Seq<TokenModel>, mask: nat) -> Seq<char>
    decreases ts.len(),
{
    if ts.len() == 0 {
        Seq::empty()
    } else {
        match ts[0].alt {
            Some(a) => (if mask % 2 == 1 {
                a
            } else {
                plain(ts[0])
            }) + render(ts.drop_first(), mask / 2),
            None => plain(ts[0]) + render(ts.drop_first(), mask),
        }
    }
}

pub open spec fn pow2(n: nat) -> nat
    decreases n,
{
    if n == 0 {
        1
    } else {
        2 * pow2((n - 1) as nat)
    }
}

/// The first mask from `m` below `limit` whose reading is an English word.
pub open spec fn first_english(ts: Seq<TokenModel>, m: nat, limit: nat) -> Option<nat>
    decreases limit - m,
{
    if m >= limit {
        None
    } else if spec_is_english_word(render(ts, m)) {
        Some(m)
    } else {
        first_english(ts, m + 1, limit)
    }
}

/// The chosen reading: the first of the 2^n readings (mask 0, every site read as the
/// single key, first) that is an English word, else mask 0; with more than
/// [`MAX_AMBIGUOUS_SITES`] sites, mask 0 without a search.
pub open spec fn spec_resolve(ts: Seq<TokenModel>) -> Seq<char> {
    let n = count_alts(ts);
    if n > MAX_AMBIGUOUS_SITES {
        render(ts, 0)
    } else {
        match first_english(ts, 0, pow2(n)) {
            Some(m) => render(ts, m),
            None => render(ts, 0),
        }
    }
}

/// The word read with the alternatives `mask` picks.
fn render_mask(tokens: &Vec<Token>, mask: u32) -> (r: Vec<char>)
    ensures
        r@ == render(models(tokens@), mask as nat),
{
    let ghost ts = models(tokens@);
    let mut out: Vec<char> = Vec::new();
    let mut m = mask;
    let mut i: usize = 0;
    assert(ts.skip(0) =~= ts);
    assert(out@ + render(ts, mask as nat) =~= render(ts, mask as nat));
    while i < tokens.len()
        invariant
            i <= tokens.len(),
            ts == models(tokens@),
            out@ + render(ts.skip(i as int), m as nat) == render(ts, mask as nat),
        decreases tokens.len() - i,
    {
        let ghost rest = ts.skip(i as int);
        let ghost old_out = out@;
        let ghost old_m = m;
        assert(rest[0] == tokens@[i as int]@);
        assert(rest.drop_first() =~= ts.skip(i + 1));
        match &tokens[i].alt {
            Some(alt) => {
                if m % 2 == 1 {
                    extend_chars(&mut out, alt);
                } else {
                    extend_chars(&mut out, plain_of(&tokens[i]));
                }
                m = m / 2;
            },
            None => {
                extend_chars(&mut out, plain_of(&tokens[i]));
            },
        }
        assert(old_out + render(rest, old_m as nat) =~= out@ + render(ts.skip(i + 1), m as nat));
        i += 1;
    }
    assert(ts.skip(tokens.len() as int) =~= Seq::<TokenModel>::empty());
    assert(out@ + Seq::<char>::empty() =~= out@);
    out
}

/// Joins the tokens of one word, choosing between `out` and `alt` where both exist.
pub(crate) fn resolve(tokens: &Vec<Token>) -> (r: Vec<char>)
    ensures
        r@ == spec_resolve(models(tokens@)),
{
    let ghost ts = models(tokens@);
    let mut n: usize = 0;
    let mut i: usize = 0;
    assert(ts.skip(0) =~= ts);
    while i < tokens.len()
        invariant
            i <= tokens.len(),
            ts == models(tokens@),
            n <= i,
            n + count_alts(ts.skip(i as int)) == count_alts(ts),
        decreases tokens.len() - i,
    {
        let ghost rest = ts.skip(i as int);
        assert(rest[0] == tokens@[i as int]@);
        assert(rest.drop_first() =~= ts.skip(i + 1));
        if tokens[i].alt.is_some() {
            n += 1;
        }
        i += 1;
    }
    assert(ts.skip(tokens.len() as int) =~= Seq::<TokenModel>::empty());
    if n > MAX_AMBIGUOUS_SITES {
        return render_mask(tokens, 0);
    }
    let mut limit: u32 = 1;
    let mut k: usize = 0;
    while k < n
        invariant
            k <= n <= MAX_AMBIGUOUS_SITES,
            limit == pow2(k as nat),
            limit <= 64,
        decreases n - k,
    {
        proof {
            assert(pow2((k + 1) as nat) == 2 * pow2(k as nat));
            lemma_pow2_le(k as nat, 5);
            reveal_with_fuel(pow2, 6);
        }
        limit = limit * 2;
        k += 1;
    }
    // Mask 0 (every site read as the single key) is tried first, so it also wins ties.
    let mut mask: u32 = 0;
    while mask < limit
        invariant
            limit == pow2(n as nat),
            n <= MAX_AMBIGUOUS_SITES,
            n == count_alts(ts),
            ts == models(tokens@),
            first_english(ts, 0, limit as nat) == first_english(ts, mask as nat, limit as nat),
        decreases limit - mask,
    {
        let reading = render_mask(tokens, mask);
        if is_english_chars(&reading) {
            assert(first_english(ts, mask as nat, limit as nat) == Some(mask as nat));
            return reading;
        }
        mask += 1;
    }
    render_mask(tokens, 0)
}

proof fn lemma_pow2_le(k: nat, bound: nat)
    requires
        k <= bound,
    ensures
        pow2(k) <= pow2(bound),
    decreases bound,
{
    if k < bound {
        lemma_pow2_le(k, (bound - 1) as nat);
    }
}

} // verus!
