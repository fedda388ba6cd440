//! Character-level text model shared by every module that splits, trims or
//! compares strings: the Unicode `White_Space` set, leading/trailing runs,
//! `split_whitespace`, `trim` and ASCII case folding, each as a spec function
//! with an executable counterpart proved against it.
use vstd::prelude::*;
use vstd::string::StrSliceExecFns;
use vstd::string::StringExecFns;

verus! {

broadcast use vstd::string::group_string_axioms;

// ---------------------------------------------------------------------------
// Character classes
// ---------------------------------------------------------------------------

/// The Unicode `White_Space` property (the set `char::is_whitespace` tests).
pub open spec fn is_white_space(c: char) -> bool {
    ||| ('\u{9}' <= c && c <= '\u{d}')
    ||| c == ' '
    ||| c == '\u{85}'
    ||| c == '\u{a0}'
    ||| c == '\u{1680}'
    ||| ('\u{2000}' <= c && c <= '\u{200a}')
    ||| c == '\u{2028}'
    ||| c == '\u{2029}'
    ||| c == '\u{202f}'
    ||| c == '\u{205f}'
    ||| c == '\u{3000}'
}

pub open spec fn ws_pred() -> spec_fn(char) -> bool {
    |c: char| is_white_space(c)
}

pub open spec fn non_ws_pred() -> spec_fn(char) -> bool {
    |c: char| !is_white_space(c)
}

/// Whether `c` has the Unicode `White_Space` property.
pub fn is_whitespace(c: char) -> (b: bool)
    ensures
        b == is_white_space(c),
{
    ('\u{9}' <= c && c <= '\u{d}') || c == ' ' || c == '\u{85}' || c == '\u{a0}' || c
        == '\u{1680}' || ('\u{2000}' <= c && c <= '\u{200a}') || c == '\u{2028}' || c
        == '\u{2029}' || c == '\u{202f}' || c == '\u{205f}' || c == '\u{3000}'
}

/// ASCII upper-case letters map to lower case; every other char is kept.
pub open spec fn ascii_lower_char(c: char) -> char {
    if 'A' <= c && c <= 'Z' {
        ((c as u32) + 32) as char
    } else {
        c
    }
}

/// ASCII lower-case letters map to upper case; every other char is kept.
pub open spec fn ascii_upper_char(c: char) -> char {
    if 'a' <= c && c <= 'z' {
        ((c as u32) - 32) as char
    } else {
        c
    }
}

pub open spec fn ascii_lower(s: Seq<char>) -> Seq<char> {
    s.map_values(|c: char| ascii_lower_char(c))
}

pub fn to_ascii_lower_char(c: char) -> (r: char)
    ensures
        r == ascii_lower_char(c),
{
    if 'A' <= c && c <= 'Z' {
        let v: u32 = (c as u32) + 32;
        assert(0x61 <= v <= 0x7a);
        char_from_ascii(v)
    } else {
        c
    }
}

pub fn to_ascii_upper_char(c: char) -> (r: char)
    ensures
        r == ascii_upper_char(c),
{
    if 'a' <= c && c <= 'z' {
        let v: u32 = (c as u32) - 32;
        char_from_ascii(v)
    } else {
        c
    }
}

/// The char whose scalar value is the ASCII code `v`.
fn char_from_ascii(v: u32) -> (c: char)
    requires
        v < 128,
    ensures
        c == v as char,
        c as u32 == v,
{
    let b: u8 = v as u8;
    b as char
}

// ---------------------------------------------------------------------------
// Runs at either end of a sequence
// ---------------------------------------------------------------------------

/// Length of the longest prefix of `s` whose chars all satisfy `p`.
pub open spec fn run_len<A>(s: Seq<A>, p: spec_fn(A) -> bool) -> nat
    decreases s.len(),
{
    if s.len() > 0 && p(s[0]) {
        1 + run_len(s.drop_first(), p)
    } else {
        0
    }
}

/// Length of the longest suffix of `s` whose chars all satisfy `p`.
pub open spec fn back_run_len<A>(s: Seq<A>, p: spec_fn(A) -> bool) -> nat
    decreases s.len(),
{
    if s.len() > 0 && p(s.last()) {
        1 + back_run_len(s.drop_last(), p)
    } else {
        0
    }
}

pub proof fn lemma_run_len_bounds<A>(s: Seq<A>, p: spec_fn(A) -> bool)
    ensures
        run_len(s, p) <= s.len(),
        forall|j: int| 0 <= j < run_len(s, p) ==> #[trigger] p(s[j]),
        run_len(s, p) < s.len() ==> !p(s[run_len(s, p) as int]),
    decreases s.len(),
{
    if s.len() > 0 && p(s[0]) {
        lemma_run_len_bounds(s.drop_first(), p);
        assert forall|j: int| 0 <= j < run_len(s, p) implies #[trigger] p(s[j]) by {
            if j > 0 {
                assert(s[j] == s.drop_first()[j - 1]);
            }
        }
    }
}

/// A run that was found by scanning is the run.
pub proof fn lemma_run_len_is<A>(s: Seq<A>, p: spec_fn(A) -> bool, i: int)
    requires
        0 <= i <= s.len(),
        forall|j: int| 0 <= j < i ==> #[trigger] p(s[j]),
        i == s.len() || !p(s[i]),
    ensures
        run_len(s, p) == i,
    decreases i,
{
    if i > 0 {
        let t = s.drop_first();
        assert forall|j: int| 0 <= j < i - 1 implies #[trigger] p(t[j]) by {
            assert(t[j] == s[j + 1]);
            assert(p(s[j + 1]));
        }
        if i - 1 < t.len() {
            assert(t[i - 1] == s[i]);
        }
        assert(p(s[0]));
        lemma_run_len_is(t, p, i - 1);
    }
}

pub proof fn lemma_back_run_len_bounds<A>(s: Seq<A>, p: spec_fn(A) -> bool)
    ensures
        back_run_len(s, p) <= s.len(),
        forall|j: int|
            s.len() - back_run_len(s, p) <= j < s.len() ==> #[trigger] p(s[j]),
        back_run_len(s, p) < s.len() ==> !p(s[s.len() - 1 - back_run_len(s, p)]),
    decreases s.len(),
{
    if s.len() > 0 && p(s.last()) {
        let t = s.drop_last();
        lemma_back_run_len_bounds(t, p);
        assert forall|j: int|
            s.len() - back_run_len(s, p) <= j < s.len() implies #[trigger] p(s[j]) by {
            if j < s.len() - 1 {
                assert(s[j] == t[j]);
            }
        }
        if back_run_len(s, p) < s.len() {
            assert(s[s.len() - 1 - back_run_len(s, p)] == t[t.len() - 1 - back_run_len(t, p)]);
        }
    }
}

/// A suffix run that was found by scanning backwards is the run.
pub proof fn lemma_back_run_len_is<A>(s: Seq<A>, p: spec_fn(A) -> bool, i: int)
    requires
        0 <= i <= s.len(),
        forall|j: int| s.len() - i <= j < s.len() ==> #[trigger] p(s[j]),
        i == s.len() || !p(s[s.len() - 1 - i]),
    ensures
        back_run_len(s, p) == i,
    decreases i,
{
    if i > 0 {
        let t = s.drop_last();
        assert forall|j: int| t.len() - (i - 1) <= j < t.len() implies #[trigger] p(t[j]) by {
            assert(t[j] == s[j]);
        }
        if i - 1 < t.len() {
            assert(t[t.len() - 1 - (i - 1)] == s[s.len() - 1 - i]);
        }
        assert(p(s[s.len() - 1]));
        lemma_back_run_len_is(t, p, i - 1);
    }
}

// ---------------------------------------------------------------------------
// `split_whitespace`, `trim`, joining
// ---------------------------------------------------------------------------

/// The maximal runs of non-whitespace chars of `s`, in order
/// (what `str::split_whitespace` yields).
pub open spec fn words(s: Seq<char>) -> Seq<Seq<char>>
    decreases s.len(),
{
    if s.len() == 0 {
        seq![]
    } else if is_white_space(s[0]) {
        words(s.drop_first())
    } else {
        let w = run_len(s, non_ws_pred());
        if 0 < w <= s.len() {
            seq![s.take(w as int)] + words(s.skip(w as int))
        } else {
            seq![]
        }
    }
}

/// `s` with leading and trailing whitespace removed (what `str::trim` gives).
pub open spec fn trim(s: Seq<char>) -> Seq<char> {
    let lead = run_len(s, ws_pred());
    if lead >= s.len() {
        seq![]
    } else {
        s.subrange(lead as int, s.len() - back_run_len(s, ws_pred()))
    }
}

/// The pieces joined with `sep` between consecutive pieces.
pub open spec fn join_with(pieces: Seq<Seq<char>>, sep: Seq<char>) -> Seq<char>
    decreases pieces.len(),
{
    if pieces.len() == 0 {
        seq![]
    } else if pieces.len() == 1 {
        pieces[0]
    } else {
        join_with(pieces.drop_last(), sep) + sep + pieces.last()
    }
}

pub proof fn lemma_words_skip_ws(s: Seq<char>, i: int)
    requires
        0 <= i < s.len(),
        is_white_space(s[i]),
    ensures
        words(s.skip(i)) == words(s.skip(i + 1)),
{
    let t = s.skip(i);
    assert(t[0] == s[i]);
    assert(t.drop_first() =~= s.skip(i + 1));
}

pub proof fn lemma_words_take_word(s: Seq<char>, i: int, e: int)
    requires
        0 <= i < e <= s.len(),
        forall|j: int| i <= j < e ==> !is_white_space(#[trigger] s[j]),
        e == s.len() || is_white_space(s[e]),
    ensures
        words(s.skip(i)) == seq![s.subrange(i, e)] + words(s.skip(e)),
{
    let t = s.skip(i);
    assert forall|j: int| 0 <= j < e - i implies #[trigger] non_ws_pred()(t[j]) by {
        assert(t[j] == s[i + j]);
        assert(!is_white_space(s[i + j]));
    }
    if e < s.len() {
        assert(t[e - i] == s[e]);
    }
    lemma_run_len_is(t, non_ws_pred(), e - i);
    assert(!is_white_space(t[0]));
    assert(t.take(e - i) =~= s.subrange(i, e));
    assert(t.skip(e - i) =~= s.skip(e));
}

/// The chars of `s`, in order.
pub fn chars_of(s: &str) -> (v: Vec<char>)
    ensures
        v@ == s@,
{
    let mut v: Vec<char> = Vec::new();
    for c in it: s.chars()
        invariant
            v@ == it.seq().take(it.index() as int),
    {
        v.push(c);
    }
    v
}

/// End of the word of `chars` that starts at `start`.
pub fn word_end(chars: &[char], start: usize) -> (end: usize)
    requires
        start < chars.len(),
        !is_white_space(chars@[start as int]),
    ensures
        start < end <= chars.len(),
        forall|j: int| start <= j < end ==> !is_white_space(#[trigger] chars@[j]),
        end == chars.len() || is_white_space(chars@[end as int]),
{
    let mut i = start + 1;
    while i < chars.len() && !is_whitespace(chars[i])
        invariant
            start < i <= chars.len(),
            !is_white_space(chars@[start as int]),
            forall|j: int| start <= j < i ==> !is_white_space(#[trigger] chars@[j]),
        decreases chars.len() - i,
    {
        i = i + 1;
    }
    i
}

/// Number of whitespace-separated words (`split_whitespace().count()`).
pub fn count_words(s: &str) -> (n: usize)
    ensures
        n == words(s@).len(),
{
    let chars = chars_of(s);
    let mut i: usize = 0;
    let mut n: usize = 0;
    proof {
        assert(chars@.skip(0) =~= chars@);
    }
    while i < chars.len()
        invariant
            i <= chars.len(),
            n <= i,
            n + words(chars@.skip(i as int)).len() == words(chars@).len(),
        decreases chars.len() - i,
    {
        if is_whitespace(chars[i]) {
            proof {
                lemma_words_skip_ws(chars@, i as int);
            }
            i = i + 1;
        } else {
            let e = word_end(chars.as_slice(), i);
            proof {
                lemma_words_take_word(chars@, i as int, e as int);
            }
            n = n + 1;
            i = e;
        }
    }
    proof {
        assert(chars@.skip(i as int) =~= Seq::<char>::empty());
    }
    n
}

/// Bounds `(start, end)` of `trim(chars)` inside `chars`.
pub fn trim_bounds(chars: &[char]) -> (r: (usize, usize))
    ensures
        r.0 <= r.1 <= chars.len(),
        chars@.subrange(r.0 as int, r.1 as int) == trim(chars@),
{
    let n = chars.len();
    let mut a: usize = 0;
    while a < n && is_whitespace(chars[a])
        invariant
            a <= n,
            n == chars.len(),
            forall|j: int| 0 <= j < a ==> #[trigger] ws_pred()(chars@[j]),
        decreases n - a,
    {
        a = a + 1;
    }
    proof {
        lemma_run_len_is(chars@, ws_pred(), a as int);
    }
    if a == n {
        return (0, 0);
    }
    let mut b: usize = 0;
    while b < n - a && is_whitespace(chars[n - 1 - b])
        invariant
            a < n,
            b <= n - a,
            n == chars.len(),
            forall|j: int| n - b <= j < n ==> #[trigger] ws_pred()(chars@[j]),
        decreases n - a - b,
    {
        b = b + 1;
    }
    proof {
        if b == n - a {
            assert(!ws_pred()(chars@[a as int]));
            assert(ws_pred()(chars@[n - b]));
        }
        lemma_back_run_len_is(chars@, ws_pred(), b as int);
    }
    (a, n - b)
}

/// `s.trim()`, as an owned string.
pub fn trimmed(s: &str) -> (r: String)
    ensures
        r@ == trim(s@),
{
    let chars = chars_of(s);
    let (a, b) = trim_bounds(chars.as_slice());
    let t = s.substring_char(a, b);
    String::from_str(t)
}

/// Whether the chars of `a` equal those of `lit` up to ASCII case.
pub fn eq_ignore_ascii_case(a: &[char], lit: &str) -> (b: bool)
    ensures
        b == (ascii_lower(a@) == ascii_lower(lit@)),
{
    let l = chars_of(lit);
    if a.len() != l.len() {
        proof {
            assert(ascii_lower(a@).len() != ascii_lower(lit@).len());
        }
        return false;
    }
    let mut i: usize = 0;
    while i < a.len()
        invariant
            a.len() == l.len(),
            l@ == lit@,
            i <= a.len(),
            forall|j: int| 0 <= j < i ==> ascii_lower_char(#[trigger] a@[j]) == ascii_lower_char(
                l@[j],
            ),
        decreases a.len() - i,
    {
        if to_ascii_lower_char(a[i]) != to_ascii_lower_char(l[i]) {
            proof {
                assert(ascii_lower(a@)[i as int] != ascii_lower(lit@)[i as int]);
            }
            return false;
        }
        i = i + 1;
    }
    proof {
        assert(ascii_lower(a@) =~= ascii_lower(lit@));
    }
    true
}

} // verus!

verus! {

// ---------------------------------------------------------------------------
// Unicode case mapping and alphanumerics, from std
// ---------------------------------------------------------------------------

/// What `str::to_lowercase` returns for a string: its Unicode lower-case mapping.
pub uninterp spec fn spec_to_lowercase(s: Seq<char>) -> Seq<char>;

/// Whether `char::is_alphanumeric` holds of `c` (Unicode `Alphabetic` or numeric).
pub uninterp spec fn spec_is_alphanumeric(c: char) -> bool;

/// Whether every char of `s` is ASCII.
pub open spec fn all_ascii(s: Seq<char>) -> bool {
    forall|i: int| 0 <= i < s.len() ==> (#[trigger] s[i] as u32) < 128
}

/// Whether `c` is an ASCII letter or digit.
pub open spec fn ascii_alphanumeric(c: char) -> bool {
    ('a' <= c && c <= 'z') || ('A' <= c && c <= 'Z') || ('0' <= c && c <= '9')
}

/// The lower-case mapping of `s`: the ASCII one for ASCII text, otherwise
/// what `str::to_lowercase` gives.
pub open spec fn lowercase(s: Seq<char>) -> Seq<char> {
    if all_ascii(s) {
        ascii_lower(s)
    } else {
        spec_to_lowercase(s)
    }
}

/// Whether `c` is alphanumeric: an ASCII letter or digit, or for other chars
/// what `char::is_alphanumeric` says.
pub open spec fn alphanumeric(c: char) -> bool {
    if (c as u32) < 128 {
        ascii_alphanumeric(c)
    } else {
        spec_is_alphanumeric(c)
    }
}

/// Calls `str::to_lowercase`; its result is named by `spec_to_lowercase`. On
/// ASCII text the Unicode lower-case mapping is the ASCII one: `A`–`Z` become
/// `a`–`z`, every other char is kept.
#[verifier::external_body]
pub(crate) fn to_lowercase(s: &str) -> (r: String)
    ensures
        r@ == spec_to_lowercase(s@),
        all_ascii(s@) ==> r@ == ascii_lower(s@),
{
    s.to_lowercase()
}

/// Calls `char::is_alphanumeric`; its answer is named by `spec_is_alphanumeric`.
/// Among ASCII chars exactly the letters and digits are alphanumeric.
#[verifier::external_body]
pub(crate) fn is_alphanumeric(c: char) -> (b: bool)
    ensures
        b == spec_is_alphanumeric(c),
        (c as u32) < 128 ==> b == ascii_alphanumeric(c),
{
    c.is_alphanumeric()
}

/// Appends `piece` to a string that holds `pieces` joined with `sep`.
pub(crate) fn append_piece(
    out: &mut String,
    Ghost(pieces): Ghost<Seq<Seq<char>>>,
    first: bool,
    piece: &str,
    sep: &str,
)
    requires
        old(out)@ == join_with(pieces, sep@),
        first == (pieces.len() == 0),
    ensures
        final(out)@ == join_with(pieces.push(piece@), sep@),
{
    if !first {
        out.append(sep);
    }
    out.append(piece);
    proof {
        assert(pieces.push(piece@).drop_last() =~= pieces);
        if first {
            assert(out@ =~= piece@);
        }
    }
}

} // verus!

verus! {

// ---------------------------------------------------------------------------
// Facts about `words` and joining
// ---------------------------------------------------------------------------

pub open spec fn ws_free(s: Seq<char>) -> bool {
    forall|j: int| 0 <= j < s.len() ==> !is_white_space(#[trigger] s[j])
}

pub proof fn lemma_run_len_concat<A>(x: Seq<A>, y: Seq<A>, p: spec_fn(A) -> bool)
    ensures
        run_len(x, p) < x.len() ==> run_len(x + y, p) == run_len(x, p),
        run_len(x, p) == x.len() ==> run_len(x + y, p) == x.len() + run_len(y, p),
    decreases x.len(),
{
    lemma_run_len_bounds(x, p);
    if x.len() > 0 {
        assert((x + y)[0] == x[0]);
        if p(x[0]) {
            assert((x + y).drop_first() =~= x.drop_first() + y);
            lemma_run_len_concat(x.drop_first(), y, p);
        }
    } else {
        assert(x + y =~= y);
    }
}

/// Every word is a non-empty run of non-whitespace chars.
pub proof fn lemma_words_are_words(s: Seq<char>)
    ensures
        forall|i: int|
            0 <= i < words(s).len() ==> (#[trigger] words(s)[i]).len() > 0 && ws_free(words(s)[i]),
    decreases s.len(),
{
    if s.len() == 0 {
        assert(words(s).len() == 0);
    } else if is_white_space(s[0]) {
        lemma_words_are_words(s.drop_first());
        assert(words(s) == words(s.drop_first()));
    } else {
        let w = run_len(s, non_ws_pred());
        lemma_run_len_bounds(s, non_ws_pred());
        lemma_words_are_words(s.skip(w as int));
        let t = s.take(w as int);
        assert forall|j: int| 0 <= j < t.len() implies !is_white_space(#[trigger] t[j]) by {
            assert(t[j] == s[j]);
            assert(non_ws_pred()(s[j]));
        }
        assert(ws_free(t));
        assert(run_len(s, non_ws_pred()) == 1 + run_len(s.drop_first(), non_ws_pred()));
        assert(words(s) == seq![t] + words(s.skip(w as int)));
        assert forall|i: int| 0 <= i < words(s).len() implies (#[trigger] words(s)[i]).len() > 0
            && ws_free(words(s)[i]) by {
            if i == 0 {
                assert(words(s)[0] == t);
            } else {
                assert(words(s)[i] == words(s.skip(w as int))[i - 1]);
            }
        }
    }
}

/// A single non-empty run of non-whitespace chars is one word.
pub proof fn lemma_words_single(x: Seq<char>)
    requires
        x.len() > 0,
        ws_free(x),
    ensures
        words(x) == seq![x],
{
    assert forall|j: int| 0 <= j < x.len() implies #[trigger] non_ws_pred()(x[j]) by {}
    lemma_run_len_is(x, non_ws_pred(), x.len() as int);
    assert(x.take(x.len() as int) =~= x);
    assert(x.skip(x.len() as int) =~= Seq::<char>::empty());
    assert(words(x.skip(x.len() as int)) =~= Seq::<Seq<char>>::empty());
}

/// A space separates words: `words(x + " " + y) == words(x) + words(y)`.
pub proof fn lemma_words_concat_space(x: Seq<char>, y: Seq<char>)
    ensures
        words(x + seq![' '] + y) == words(x) + words(y),
    decreases x.len(),
{
    let s = x + seq![' '] + y;
    if x.len() == 0 {
        assert(s[0] == ' ');
        assert(s.drop_first() =~= y);
        assert(words(x) =~= Seq::<Seq<char>>::empty());
        assert(words(s) =~= words(x) + words(y));
    } else if is_white_space(x[0]) {
        assert(s[0] == x[0]);
        assert(s.drop_first() =~= x.drop_first() + seq![' '] + y);
        lemma_words_concat_space(x.drop_first(), y);
    } else {
        assert(s[0] == x[0]);
        let k = run_len(x, non_ws_pred());
        lemma_run_len_bounds(x, non_ws_pred());
        lemma_run_len_concat(x, seq![' '] + y, non_ws_pred());
        assert(s =~= x + (seq![' '] + y));
        if k == x.len() {
            assert((seq![' '] + y)[0] == ' ');
            assert(run_len(seq![' '] + y, non_ws_pred()) == 0);
        }
        assert(run_len(s, non_ws_pred()) == k);
        assert(s.take(k as int) =~= x.take(k as int));
        assert(s.skip(k as int) =~= x.skip(k as int) + seq![' '] + y);
        lemma_words_concat_space(x.skip(k as int), y);
        assert(words(s) =~= words(x) + words(y));
    }
}

/// Words joined by single spaces split back into the same words.
pub proof fn lemma_words_of_join(ps: Seq<Seq<char>>)
    requires
        forall|i: int| 0 <= i < ps.len() ==> (#[trigger] ps[i]).len() > 0 && ws_free(ps[i]),
    ensures
        words(join_with(ps, seq![' '])) == ps,
    decreases ps.len(),
{
    if ps.len() == 0 {
        assert(words(Seq::<char>::empty()) =~= ps);
    } else if ps.len() == 1 {
        lemma_words_single(ps[0]);
        assert(ps =~= seq![ps[0]]);
    } else {
        let d = ps.drop_last();
        assert forall|i: int| 0 <= i < d.len() implies (#[trigger] d[i]).len() > 0 && ws_free(
            d[i],
        ) by {
            assert(d[i] == ps[i]);
        }
        lemma_words_of_join(d);
        lemma_words_concat_space(join_with(d, seq![' ']), ps.last());
        lemma_words_single(ps.last());
        assert(ps =~= d.push(ps.last()));
        assert(d + seq![ps.last()] =~= ps);
    }
}

} // verus!

verus! {

/// Collects chars into a `String` (`String::from_iter`).
#[verifier::external_body]
pub(crate) fn string_from_chars(v: &[char]) -> (s: String)
    ensures
        s@ == v@,
{
    String::from_iter(v)
}

} // verus!

verus! {

/// Whether two strings hold the same chars.
pub fn same_text(a: &str, b: &str) -> (r: bool)
    ensures
        r == (a@ == b@),
{
    let x = chars_of(a);
    let y = chars_of(b);
    if x.len() != y.len() {
        return false;
    }
    let mut i: usize = 0;
    while i < x.len()
        invariant
            x.len() == y.len(),
            x@ == a@,
            y@ == b@,
            i <= x.len(),
            forall|j: int| 0 <= j < i ==> x@[j] == y@[j],
        decreases x.len() - i,
    {
        if x[i] != y[i] {
            proof {
                assert(a@[i as int] != b@[i as int]);
            }
            return false;
        }
        i = i + 1;
    }
    proof {
        assert(x@ =~= y@);
    }
    true
}

/// `a@ + b@` as an owned string.
pub fn concat(a: &str, b: &str) -> (r: String)
    ensures
        r@ == a@ + b@,
{
    let mut r = String::from_str(a);
    r.append(b);
    r
}

} // verus!
