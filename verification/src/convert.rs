//! Converting text typed on the wrong layout: word by word, greedy longest match
//! over the keys of the map.

use vstd::prelude::*;

use crate::disambiguate::{resolve, spec_resolve};
use crate::is_arabic;
use crate::layout::{lookup, table_for, LayoutMap, Table1};
use crate::spec_is_arabic;
use crate::text::{
    spec_is_alphabetic, chars_of, copy_range, extend_chars, is_alphabetic, is_whitespace,
    spec_is_whitespace, string_of,
};

verus! {

/// Which way a piece of text needs converting.
#[derive(Clone, Copy, Debug, PartialEq, Eq, Hash, Structural)]
pub enum Direction {
    /// Arabic characters were typed; Latin was meant.
    ArabicToLatin,
    /// Latin characters were typed; Arabic was meant.
    LatinToArabic,
}

/// The other direction.
pub open spec fn spec_reversed(d: Direction) -> Direction {
    match d {
        Direction::ArabicToLatin => Direction::LatinToArabic,
        Direction::LatinToArabic => Direction::ArabicToLatin,
    }
}

impl Direction {
    pub fn reversed(self) -> (r: Direction)
        ensures
            r == spec_reversed(self),
    {
        match self {
            Direction::ArabicToLatin => Direction::LatinToArabic,
            Direction::LatinToArabic => Direction::ArabicToLatin,
        }
    }
}

/// Result of [`LayoutMap::convert`].
#[derive(Clone, Debug)]
pub struct Conversion {
    pub text: String,
    pub direction: Direction,
}

/// How many characters of `s` belong to an Arabic script block.
pub open spec fn count_arabic(s: Seq<char>) -> nat
    decreases s.len(),
{
    if s.len() == 0 {
        0
    } else {
        count_arabic(s.drop_last()) + if spec_is_arabic(s.last()) {
            1nat
        } else {
            0nat
        }
    }
}

/// How many characters of `s` are letters outside the Arabic script blocks.
pub open spec fn count_latin(s: Seq<char>) -> nat
    decreases s.len(),
{
    if s.len() == 0 {
        0
    } else {
        count_latin(s.drop_last()) + if !spec_is_arabic(s.last()) && spec_is_alphabetic(s.last()) {
            1nat
        } else {
            0nat
        }
    }
}

/// The majority vote of [`detect_direction`].
pub open spec fn spec_detect_direction(s: Seq<char>) -> Option<Direction> {
    let (a, l) = (count_arabic(s), count_latin(s));
    if a == 0 && l == 0 {
        None
    } else if a >= l {
        Some(Direction::ArabicToLatin)
    } else {
        Some(Direction::LatinToArabic)
    }
}

/// Majority vote between Arabic-script characters and Latin letters.
/// `None` when the text has neither (digits, punctuation, whitespace only);
/// a tie counts as Arabic, since Arabic text legitimately embeds Latin words more often than the reverse.
pub fn detect_direction(text: &str) -> (r: Option<Direction>)
    ensures
        r == spec_detect_direction(text@),
{
    let chars = chars_of(text);
    let mut arabic: usize = 0;
    let mut latin: usize = 0;
    let mut i: usize = 0;
    while i < chars.len()
        invariant
            i <= chars.len(),
            arabic == count_arabic(chars@.take(i as int)),
            latin == count_latin(chars@.take(i as int)),
            arabic + latin <= i,
        decreases chars.len() - i,
    {
        let c = chars[i];
        assert(chars@.take(i + 1).drop_last() =~= chars@.take(i as int));
        if is_arabic(c) {
            arabic += 1;
        } else if is_alphabetic(c) {
            latin += 1;
        }
        i += 1;
    }
    assert(chars@.take(chars.len() as int) =~= chars@);
    if arabic == 0 && latin == 0 {
        None
    } else if arabic >= latin {
        Some(Direction::ArabicToLatin)
    } else {
        Some(Direction::LatinToArabic)
    }
}

/// One matched key of the typed text.
pub struct TokenModel {
    /// What the key maps to; `None` for characters no key of the map types (passed through).
    pub out: Option<Seq<char>>,
    pub src: Seq<char>,
    /// For a multi-character key whose characters are also typed by single keys:
    /// the other reading, those keys one by one ("لا" as `g`+`h` instead of `b`).
    pub alt: Option<Seq<char>>,
}

/// The characters of `src` mapped one by one, when every one of them is a key.
pub open spec fn alt_of(t: Seq<(Seq<char>, Seq<char>)>, src: Seq<char>) -> Option<Seq<char>>
    decreases src.len(),
{
    if src.len() == 0 {
        Some(Seq::empty())
    } else {
        match lookup(t, seq![src[0]]) {
            Some(a) => match alt_of(t, src.drop_first()) {
                Some(rest) => Some(a + rest),
                None => None,
            },
            None => None,
        }
    }
}

/// The token for a key `src` of the map.
pub open spec fn token_of(t: Seq<(Seq<char>, Seq<char>)>, src: Seq<char>) -> TokenModel {
    TokenModel {
        out: lookup(t, src),
        src,
        alt: if src.len() > 1 {
            alt_of(t, src)
        } else {
            None
        },
    }
}

/// The length of the longest key that starts `w`, trying lengths `n` down to 1; 0 for none.
pub open spec fn match_len(t: Seq<(Seq<char>, Seq<char>)>, w: Seq<char>, n: nat) -> nat
    decreases n,
{
    if n == 0 {
        0
    } else if lookup(t, w.take(n as int)) is Some {
        n
    } else {
        match_len(t, w, (n - 1) as nat)
    }
}

pub proof fn lemma_match_len_bound(t: Seq<(Seq<char>, Seq<char>)>, w: Seq<char>, n: nat)
    ensures
        match_len(t, w, n) <= n,
        match_len(t, w, n) > 0 ==> lookup(t, w.take(match_len(t, w, n) as int)) is Some,
    decreases n,
{
    if n > 0 {
        lemma_match_len_bound(t, w, (n - 1) as nat);
    }
}

/// Greedy longest-match tokenization of `w` over the keys of `t`.
pub open spec fn spec_tokens(t: Seq<(Seq<char>, Seq<char>)>, w: Seq<char>) -> Seq<TokenModel>
    decreases w.len(),
{
    if w.len() == 0 {
        Seq::empty()
    } else {
        let n = match_len(t, w, w.len());
        if n == 0 {
            seq![TokenModel { out: None, src: w.take(1), alt: None }] + spec_tokens(t, w.skip(1))
        } else {
            proof {
                lemma_match_len_bound(t, w, w.len());
            }
            seq![token_of(t, w.take(n as int))] + spec_tokens(t, w.skip(n as int))
        }
    }
}

/// A token's own reading: what its key maps to, or the character itself.
pub open spec fn plain(tok: TokenModel) -> Seq<char> {
    match tok.out {
        Some(o) => o,
        None => tok.src,
    }
}

/// The tokens' own readings, joined.
pub open spec fn concat_plain(ts: Seq<TokenModel>) -> Seq<char>
    decreases ts.len(),
{
    if ts.len() == 0 {
        Seq::empty()
    } else {
        plain(ts[0]) + concat_plain(ts.drop_first())
    }
}

/// How many tokens have another reading.
pub open spec fn count_alts(ts: Seq<TokenModel>) -> nat
    decreases ts.len(),
{
    if ts.len() == 0 {
        0
    } else {
        (if ts[0].alt is Some {
            1nat
        } else {
            0nat
        }) + count_alts(ts.drop_first())
    }
}

/// One word converted: joined readings, except that going back to Latin a word with
/// ambiguous keys is settled by [`spec_resolve`].
pub open spec fn convert_word(
    t: Seq<(Seq<char>, Seq<char>)>,
    direction: Direction,
    w: Seq<char>,
) -> Seq<char> {
    let ts = spec_tokens(t, w);
    if direction == Direction::ArabicToLatin && count_alts(ts) > 0 {
        spec_resolve(ts)
    } else {
        concat_plain(ts)
    }
}

/// The length of the longest prefix of `s` whose characters are whitespace exactly when `ws` is.
pub open spec fn class_run(s: Seq<char>, ws: bool) -> nat
    decreases s.len(),
{
    if s.len() > 0 && spec_is_whitespace(s[0]) == ws {
        1 + class_run(s.drop_first(), ws)
    } else {
        0
    }
}

/// The length of the first run of `s`: whitespace, or not whitespace, like its first character.
pub open spec fn run_len(s: Seq<char>) -> nat {
    if s.len() == 0 {
        0
    } else {
        class_run(s, spec_is_whitespace(s[0]))
    }
}

pub proof fn lemma_class_run(s: Seq<char>, ws: bool)
    ensures
        class_run(s, ws) <= s.len(),
        forall|i: int| 0 <= i < class_run(s, ws) ==> spec_is_whitespace(#[trigger] s[i]) == ws,
        class_run(s, ws) < s.len() ==> spec_is_whitespace(s[class_run(s, ws) as int]) != ws,
    decreases s.len(),
{
    if s.len() > 0 && spec_is_whitespace(s[0]) == ws {
        lemma_class_run(s.drop_first(), ws);
        assert forall|i: int| 0 <= i < class_run(s, ws) implies spec_is_whitespace(#[trigger] s[i])
            == ws by {
            if i > 0 {
                assert(s[i] == s.drop_first()[i - 1]);
            }
        }
    }
}

pub proof fn lemma_run_len(s: Seq<char>)
    requires
        s.len() > 0,
    ensures
        1 <= run_len(s) <= s.len(),
        forall|i: int| 0 <= i < run_len(s) ==> spec_is_whitespace(#[trigger] s[i]) == spec_is_whitespace(s[0]),
        run_len(s) < s.len() ==> spec_is_whitespace(s[run_len(s) as int]) != spec_is_whitespace(s[0]),
{
    lemma_class_run(s, spec_is_whitespace(s[0]));
}

/// The text converted run by run: whitespace runs pass through, every other run is a word.
pub open spec fn convert_text(
    t: Seq<(Seq<char>, Seq<char>)>,
    direction: Direction,
    s: Seq<char>,
) -> Seq<char>
    decreases s.len(),
{
    if s.len() == 0 {
        Seq::empty()
    } else {
        proof {
            lemma_run_len(s);
        }
        let k = run_len(s) as int;
        let seg = s.take(k);
        (if spec_is_whitespace(s[0]) {
            seg
        } else {
            convert_word(t, direction, seg)
        }) + convert_text(t, direction, s.skip(k))
    }
}

/// One matched key of the typed text.
pub struct Token {
    pub out: Option<Vec<char>>,
    pub src: Vec<char>,
    pub alt: Option<Vec<char>>,
}

pub open spec fn opt_chars(o: Option<Vec<char>>) -> Option<Seq<char>> {
    match o {
        Some(v) => Some(v@),
        None => None,
    }
}

impl View for Token {
    type V = TokenModel;

    open spec fn view(&self) -> TokenModel {
        TokenModel { out: opt_chars(self.out), src: self.src@, alt: opt_chars(self.alt) }
    }
}

pub open spec fn models(ts: Seq<Token>) -> Seq<TokenModel> {
    ts.map_values(|t: Token| t@)
}

/// Lengths beyond the longest key never match.
proof fn lemma_match_len_limit(t: Table1, w: Seq<char>, n: nat, longest: nat)
    requires
        t.wf(),
        longest <= n <= w.len(),
        longest == n || longest >= t.max_len(),
    ensures
        match_len(t@, w, n) == match_len(t@, w, longest),
    decreases n,
{
    if n > longest {
        t.lemma_wf();
        lemma_lookup_in(t@, w.take(n as int));
        assert(w.take(n as int).len() == n);
        assert(lookup(t@, w.take(n as int)) is None);
        lemma_match_len_limit(t, w, (n - 1) as nat, longest);
    }
}

/// A key that is found is the key of some pair.
pub proof fn lemma_lookup_in(t: Seq<(Seq<char>, Seq<char>)>, k: Seq<char>)
    ensures
        lookup(t, k) is Some ==> exists|i: int| 0 <= i < t.len() && #[trigger] t[i].0 == k && t[i].1 == lookup(t, k)->0,
    decreases t.len(),
{
    if t.len() > 0 && t[0].0 != k {
        lemma_lookup_in(t.drop_first(), k);
        if lookup(t, k) is Some {
            let i = choose|i: int| 0 <= i < t.drop_first().len() && #[trigger] t.drop_first()[i].0 == k && t.drop_first()[i].1 == lookup(t, k)->0;
            assert(t[i + 1].0 == k);
        }
    } else if t.len() > 0 {
        assert(t[0].0 == k);
    }
}

/// The longest key starting at `w[start]`, trying `longest` characters first.
fn longest_match<'a>(table: &'a Table1, w: &Vec<char>, start: usize, longest: usize) -> (r: (usize, Option<&'a Vec<char>>))
    requires
        table.wf(),
        start + longest <= w.len(),
    ensures
        r.0 == match_len(table@, w@.skip(start as int), longest as nat),
        r.0 > 0 ==> r.1 is Some && lookup(table@, w@.subrange(start as int, start + r.0)) == Some(
            r.1->0@,
        ),
{
    let ghost ws = w@.skip(start as int);
    let mut k = longest;
    while k > 0
        invariant
            table.wf(),
            start + longest <= w.len(),
            k <= longest,
            ws == w@.skip(start as int),
            match_len(table@, ws, longest as nat) == match_len(table@, ws, k as nat),
        decreases k,
    {
        assert(ws.take(k as int) =~= w@.subrange(start as int, start + k));
        if let Some(v) = table.find(w, start, k) {
            return (k, Some(v));
        }
        k -= 1;
    }
    (0, None)
}

/// The characters of `src` mapped one by one, `None` if one of them is not a key.
fn alt_for(table: &Table1, src: &Vec<char>) -> (r: Option<Vec<char>>)
    requires
        table.wf(),
    ensures
        opt_chars(r) == alt_of(table@, src@),
{
    let mut acc: Vec<char> = Vec::new();
    let mut i: usize = 0;
    proof {
        assert(src@.skip(0) =~= src@);
        match alt_of(table@, src@) {
            Some(r) => assert(acc@ + r =~= r),
            None => {},
        }
    }
    while i < src.len()
        invariant
            table.wf(),
            i <= src.len(),
            alt_of(table@, src@) == match alt_of(table@, src@.skip(i as int)) {
                Some(r) => Some(acc@ + r),
                None => None,
            },
        decreases src.len() - i,
    {
        let ghost rest = src@.skip(i as int);
        assert(rest.drop_first() =~= src@.skip(i + 1));
        assert(src@.subrange(i as int, i + 1) =~= seq![rest[0]]);
        match table.find(src, i, 1) {
            Some(v) => {
                let ghost old_acc = acc@;
                extend_chars(&mut acc, v);
                proof {
                    match alt_of(table@, src@.skip(i + 1)) {
                        Some(r) => {
                            assert(old_acc + (v@ + r) =~= acc@ + r);
                        },
                        None => {},
                    }
                }
            },
            None => {
                return None;
            },
        }
        i += 1;
    }
    assert(src@.skip(src.len() as int) =~= Seq::<char>::empty());
    assert(acc@ + Seq::<char>::empty() =~= acc@);
    Some(acc)
}

/// Greedy longest-match over the keys of the table.
fn tokenize(table: &Table1, word: &Vec<char>) -> (r: Vec<Token>)
    requires
        table.wf(),
    ensures
        models(r@) == spec_tokens(table@, word@),
{
    let n = word.len();
    let mut tokens: Vec<Token> = Vec::new();
    let mut i: usize = 0;
    assert(word@.skip(0) =~= word@);
    while i < n
        invariant
            table.wf(),
            n == word.len(),
            i <= n,
            models(tokens@) + spec_tokens(table@, word@.skip(i as int)) == spec_tokens(
                table@,
                word@,
            ),
        decreases n - i,
    {
        let ghost ws = word@.skip(i as int);
        let rem = n - i;
        let mx = table.max_key_chars();
        let longest = if mx < rem {
            if mx == 0 {
                1
            } else {
                mx
            }
        } else {
            rem
        };
        proof {
            lemma_match_len_limit(*table, ws, rem as nat, longest as nat);
        }
        let (k, hit) = longest_match(table, word, i, longest);
        proof {
            lemma_match_len_bound(table@, ws, longest as nat);
            assert(ws.len() == rem);
            assert(ws.take(k as int) =~= word@.subrange(i as int, i + k));
        }
        let ghost old_models = models(tokens@);
        let step: usize;
        if k > 0 {
            let v = hit.unwrap();
            let src = copy_range(word, i, i + k);
            assert(src@ =~= ws.take(k as int));
            let alt = if k > 1 {
                alt_for(table, &src)
            } else {
                None
            };
            let tok = Token { out: Some(v.clone()), src, alt };
            assert(tok@ == token_of(table@, ws.take(k as int)));
            tokens.push(tok);
            step = k;
        } else {
            let src = copy_range(word, i, i + 1);
            assert(src@ =~= ws.take(1));
            tokens.push(Token { out: None, src, alt: None });
            step = 1;
        }
        proof {
            assert(ws.skip(step as int) =~= word@.skip(i + step));
            assert(models(tokens@) =~= old_models.push(tokens@.last()@));
            assert(spec_tokens(table@, ws) == seq![tokens@.last()@] + spec_tokens(
                table@,
                ws.skip(step as int),
            ));
            assert(models(tokens@) + spec_tokens(table@, word@.skip(i + step)) =~= old_models
                + spec_tokens(table@, ws));
        }
        i = i + step;
    }
    assert(word@.skip(n as int) =~= Seq::<char>::empty());
    assert(models(tokens@) + Seq::<TokenModel>::empty() =~= models(tokens@));
    tokens
}

/// A token's own reading.
pub(crate) fn plain_of(tok: &Token) -> (r: &Vec<char>)
    ensures
        r@ == plain(tok@),
{
    match &tok.out {
        Some(o) => o,
        None => &tok.src,
    }
}

/// The tokens' own readings, joined.
fn join_plain(tokens: &Vec<Token>) -> (r: Vec<char>)
    ensures
        r@ == concat_plain(models(tokens@)),
{
    let mut out: Vec<char> = Vec::new();
    let mut i: usize = 0;
    assert(models(tokens@).skip(0) =~= models(tokens@));
    assert(out@ + concat_plain(models(tokens@)) =~= concat_plain(models(tokens@)));
    while i < tokens.len()
        invariant
            i <= tokens.len(),
            out@ + concat_plain(models(tokens@).skip(i as int)) == concat_plain(models(tokens@)),
        decreases tokens.len() - i,
    {
        let ghost old_out = out@;
        let ghost rest = models(tokens@).skip(i as int);
        assert(rest[0] == tokens@[i as int]@);
        assert(rest.drop_first() =~= models(tokens@).skip(i + 1));
        extend_chars(&mut out, plain_of(&tokens[i]));
        assert(old_out + concat_plain(rest) =~= out@ + concat_plain(models(tokens@).skip(i + 1)));
        i += 1;
    }
    assert(models(tokens@).skip(tokens.len() as int) =~= Seq::<TokenModel>::empty());
    assert(out@ + Seq::<char>::empty() =~= out@);
    out
}

/// Whether any token has another reading.
fn has_alt(tokens: &Vec<Token>) -> (r: bool)
    ensures
        r == (count_alts(models(tokens@)) > 0),
{
    let mut i: usize = 0;
    assert(models(tokens@).skip(0) =~= models(tokens@));
    while i < tokens.len()
        invariant
            i <= tokens.len(),
            count_alts(models(tokens@)) == count_alts(models(tokens@).skip(i as int)),
        decreases tokens.len() - i,
    {
        let ghost rest = models(tokens@).skip(i as int);
        assert(rest[0] == tokens@[i as int]@);
        assert(rest.drop_first() =~= models(tokens@).skip(i + 1));
        if tokens[i].alt.is_some() {
            return true;
        }
        i += 1;
    }
    assert(models(tokens@).skip(tokens.len() as int) =~= Seq::<TokenModel>::empty());
    false
}

impl LayoutMap {
    /// Detects the direction and converts. `None` when there is nothing to go on
    /// (no letters of either script) — the caller should leave the text alone.
    pub fn convert(&self, text: &str) -> (r: Option<Conversion>)
        ensures
            match spec_detect_direction(text@) {
                None => r is None,
                Some(d) => r matches Some(c) && c.direction == d && c.text@ == convert_text(
                    table_for(self@, d),
                    d,
                    text@,
                ),
            },
    {
        let direction = detect_direction(text)?;
        Some(Conversion { text: self.convert_as(text, direction), direction })
    }

    /// Converts in a known direction. Characters outside the map pass through unchanged.
    pub fn convert_as(&self, text: &str, direction: Direction) -> (r: String)
        ensures
            r@ == convert_text(table_for(self@, direction), direction, text@),
    {
        let table = self.table(direction);
        let ghost t = table@;
        let chars = chars_of(text);
        let n = chars.len();
        let mut out: Vec<char> = Vec::new();
        let mut i: usize = 0;
        assert(chars@.skip(0) =~= chars@);
        // Word by word, so that the dictionary check in `disambiguate` sees whole words.
        while i < n
            invariant
                table.wf(),
                t == table@,
                t == table_for(self@, direction),
                n == chars.len(),
                i <= n,
                out@ + convert_text(t, direction, chars@.skip(i as int)) == convert_text(
                    t,
                    direction,
                    chars@,
                ),
            decreases n - i,
        {
            let ghost s = chars@.skip(i as int);
            proof {
                lemma_run_len(s);
            }
            let ws = is_whitespace(chars[i]);
            let mut j = i + 1;
            while j < n && is_whitespace(chars[j]) == ws
                invariant
                    i < j <= n,
                    n == chars.len(),
                    s == chars@.skip(i as int),
                    ws == spec_is_whitespace(s[0]),
                    j - i <= run_len(s),
                decreases n - j,
            {
                proof {
                    lemma_run_len(s);
                    if j - i == run_len(s) {
                        assert(s[(j - i) as int] == chars@[j as int]);
                    }
                }
                j += 1;
            }
            proof {
                lemma_run_len(s);
                if j < n {
                    assert(s[(j - i) as int] == chars@[j as int]);
                }
            }
            assert(j - i == run_len(s));
            let seg = copy_range(&chars, i, j);
            assert(seg@ =~= s.take((j - i) as int));
            assert(s.skip((j - i) as int) =~= chars@.skip(j as int));
            let ghost old_out = out@;
            if ws {
                extend_chars(&mut out, &seg);
            } else {
                let converted = self.convert_word(table, &seg, direction);
                extend_chars(&mut out, &converted);
            }
            assert(old_out + convert_text(t, direction, s) =~= out@ + convert_text(
                t,
                direction,
                chars@.skip(j as int),
            ));
            i = j;
        }
        assert(chars@.skip(n as int) =~= Seq::<char>::empty());
        assert(out@ + Seq::<char>::empty() =~= out@);
        string_of(&out)
    }

    /// One word, converted through `table`.
    fn convert_word(&self, table: &Table1, word: &Vec<char>, direction: Direction) -> (r: Vec<char>)
        requires
            table.wf(),
        ensures
            r@ == convert_word(table@, direction, word@),
    {
        let tokens = tokenize(table, word);
        let ambiguous = match direction {
            Direction::ArabicToLatin => has_alt(&tokens),
            Direction::LatinToArabic => false,
        };
        if ambiguous {
            resolve(&tokens)
        } else {
            join_plain(&tokens)
        }
    }
}

} // verus!
