//! Personal Memory — dictionary replacements and snippet expansions applied to
//! transcripts before injection.
use crate::text::{
    append_piece, back_run_len, chars_of, is_alphanumeric, is_whitespace, join_with,
    lemma_back_run_len_bounds, lemma_back_run_len_is, lemma_run_len_bounds, lemma_run_len_is,
    lemma_words_are_words, lemma_words_of_join, lemma_words_skip_ws, lemma_words_take_word,
    run_len, alphanumeric, lowercase, to_lowercase, word_end, words, ws_free,
};
use vstd::prelude::*;
use vstd::string::StrSliceExecFns;
use vstd::string::StringExecFns;

verus! {

broadcast use vstd::string::group_string_axioms;

/// Whole-word replacements and snippet expansions, each keyed by the
/// lower-cased trigger. No trigger occurs twice in either table.
#[derive(Debug)]
pub struct MemoryService {
    dictionary: Vec<(String, String)>,
    snippets: Vec<(String, String)>,
}

/// The two tables as maps from lower-cased trigger to replacement text.
pub struct MemoryModel {
    pub dictionary: Map<Seq<char>, Seq<char>>,
    pub snippets: Map<Seq<char>, Seq<char>>,
}

pub open spec fn keys_distinct(v: Seq<(String, String)>) -> bool {
    forall|i: int, j: int| 0 <= i < j < v.len() ==> v[i].0@ != v[j].0@
}

pub open spec fn has_key(v: Seq<(String, String)>, k: Seq<char>) -> bool {
    exists|i: int| 0 <= i < v.len() && #[trigger] v[i].0@ == k
}

pub open spec fn entries_map(v: Seq<(String, String)>) -> Map<Seq<char>, Seq<char>> {
    Map::new(
        |k: Seq<char>| has_key(v, k),
        |k: Seq<char>| v[choose|i: int| 0 <= i < v.len() && #[trigger] v[i].0@ == k].1@,
    )
}

pub proof fn lemma_entries_map_at(v: Seq<(String, String)>, i: int)
    requires
        keys_distinct(v),
        0 <= i < v.len(),
    ensures
        entries_map(v).contains_key(v[i].0@),
        entries_map(v)[v[i].0@] == v[i].1@,
{
    let k = v[i].0@;
    assert(has_key(v, k));
    let j = choose|j: int| 0 <= j < v.len() && #[trigger] v[j].0@ == k;
    if j != i {
        if j < i {
            assert(v[j].0@ != v[i].0@);
        } else {
            assert(v[i].0@ != v[j].0@);
        }
    }
}

impl View for MemoryService {
    type V = MemoryModel;

    closed spec fn view(&self) -> MemoryModel {
        MemoryModel {
            dictionary: entries_map(self.dictionary@),
            snippets: entries_map(self.snippets@),
        }
    }
}

pub open spec fn not_alnum() -> spec_fn(char) -> bool {
    |c: char| !alphanumeric(c)
}

/// A token with the trigger found among its alphanumeric core replaced,
/// keeping whatever non-alphanumeric chars surround the core. The dictionary
/// wins over the snippets; a token with no known trigger is kept.
pub open spec fn replace_token(m: MemoryModel, t: Seq<char>) -> Seq<char> {
    let lead = run_len(t, not_alnum());
    if lead >= t.len() {
        t
    } else {
        let end = t.len() - back_run_len(t, not_alnum());
        let key = lowercase(t.subrange(lead as int, end));
        if m.dictionary.contains_key(key) {
            t.subrange(0, lead as int) + m.dictionary[key] + t.subrange(end, t.len() as int)
        } else if m.snippets.contains_key(key) {
            t.subrange(0, lead as int) + m.snippets[key] + t.subrange(end, t.len() as int)
        } else {
            t
        }
    }
}

pub open spec fn replace_fn(m: MemoryModel) -> spec_fn(Seq<char>) -> Seq<char> {
    |t: Seq<char>| replace_token(m, t)
}

pub open spec fn memory_is_empty(m: MemoryModel) -> bool {
    m.dictionary.dom() == Set::<Seq<char>>::empty() && m.snippets.dom() == Set::<
        Seq<char>,
    >::empty()
}

/// The text after Personal Memory: its whitespace-separated words, each
/// replaced, joined by single spaces.
pub open spec fn apply_memory(m: MemoryModel, text: Seq<char>) -> Seq<char> {
    join_with(words(text).map_values(replace_fn(m)), seq![' '])
}

/// Inserts `key -> value`, replacing the value of an existing `key`.
fn insert_entry(v: &mut Vec<(String, String)>, key: String, value: String)
    requires
        keys_distinct(old(v)@),
    ensures
        keys_distinct(final(v)@),
        entries_map(final(v)@) == entries_map(old(v)@).insert(key@, value@),
{
    let ghost k = key@;
    let ghost val = value@;
    match lookup(v, &key) {
        Some(i) => {
            let ghost pre = v@;
            v.set(i, (key, value));
            proof {
                let post = v@;
                assert forall|a: int, b: int| 0 <= a < b < post.len() implies post[a].0@
                    != post[b].0@ by {
                    assert(post[a].0@ == pre[a].0@);
                    assert(post[b].0@ == pre[b].0@);
                }
                assert forall|kk: Seq<char>|
                    #![auto]
                    has_key(post, kk) == (has_key(pre, kk) || kk == k) by {
                    if has_key(pre, kk) {
                        let j = choose|j: int| 0 <= j < pre.len() && #[trigger] pre[j].0@ == kk;
                        assert(post[j].0@ == kk);
                    }
                    if has_key(post, kk) {
                        let j = choose|j: int| 0 <= j < post.len() && #[trigger] post[j].0@ == kk;
                        assert(pre[j].0@ == kk);
                    }
                }
                assert forall|kk: Seq<char>| #[trigger]
                    entries_map(post).contains_key(kk) implies entries_map(post)[kk]
                    == entries_map(pre).insert(k, val)[kk] by {
                    let j = choose|j: int| 0 <= j < post.len() && #[trigger] post[j].0@ == kk;
                    lemma_entries_map_at(post, j);
                    if j != i as int {
                        lemma_entries_map_at(pre, j);
                    }
                }
                assert(entries_map(post) =~= entries_map(pre).insert(k, val));
            }
        },
        None => {
            let ghost pre = v@;
            v.push((key, value));
            proof {
                let post = v@;
                assert forall|a: int, b: int| 0 <= a < b < post.len() implies post[a].0@
                    != post[b].0@ by {
                    if b == pre.len() {
                        assert(post[a] == pre[a]);
                        if pre[a].0@ == k {
                            assert(has_key(pre, k));
                        }
                    } else {
                        assert(post[a] == pre[a]);
                        assert(post[b] == pre[b]);
                    }
                }
                assert forall|kk: Seq<char>|
                    #![auto]
                    has_key(post, kk) == (has_key(pre, kk) || kk == k) by {
                    if has_key(pre, kk) {
                        let j = choose|j: int| 0 <= j < pre.len() && #[trigger] pre[j].0@ == kk;
                        assert(post[j] == pre[j]);
                    }
                    if kk == k {
                        assert(post[pre.len() as int].0@ == k);
                    }
                    if has_key(post, kk) {
                        let j = choose|j: int| 0 <= j < post.len() && #[trigger] post[j].0@ == kk;
                        if j < pre.len() {
                            assert(post[j] == pre[j]);
                        }
                    }
                }
                assert forall|kk: Seq<char>| #[trigger]
                    entries_map(post).contains_key(kk) implies entries_map(post)[kk]
                    == entries_map(pre).insert(k, val)[kk] by {
                    let j = choose|j: int| 0 <= j < post.len() && #[trigger] post[j].0@ == kk;
                    lemma_entries_map_at(post, j);
                    if j < pre.len() {
                        assert(post[j] == pre[j]);
                        lemma_entries_map_at(pre, j);
                    }
                }
                assert(entries_map(post) =~= entries_map(pre).insert(k, val));
            }
        },
    }
}

/// Index of the entry whose key is `key`, if any.
fn lookup(v: &Vec<(String, String)>, key: &String) -> (r: Option<usize>)
    ensures
        r matches Some(i) ==> i < v.len() && v@[i as int].0@ == key@,
        r is None ==> !has_key(v@, key@),
{
    let mut i: usize = 0;
    while i < v.len()
        invariant
            i <= v.len(),
            forall|j: int| 0 <= j < i ==> #[trigger] v@[j].0@ != key@,
        decreases v.len() - i,
    {
        if v[i].0 == *key {
            return Some(i);
        }
        i = i + 1;
    }
    None
}

impl Default for MemoryService {
    fn default() -> (r: Self)
        ensures
            memory_is_empty(r@),
    {
        MemoryService::new()
    }
}

impl MemoryService {
    #[verifier::type_invariant]
    spec fn tables_well_formed(self) -> bool {
        keys_distinct(self.dictionary@) && keys_distinct(self.snippets@)
    }

    /// An empty memory.
    pub fn new() -> (r: Self)
        ensures
            memory_is_empty(r@),
    {
        let r = MemoryService { dictionary: Vec::new(), snippets: Vec::new() };
        proof {
            assert(r@.dictionary.dom() =~= Set::<Seq<char>>::empty());
            assert(r@.snippets.dom() =~= Set::<Seq<char>>::empty());
        }
        r
    }

    /// Add a dictionary term replacement (e.g. `"npm"` → `"NPM"`); the trigger
    /// is stored lower-cased, replacing an earlier term with the same trigger.
    pub fn add_term(&mut self, from: &str, to: &str)
        ensures
            final(self)@.dictionary == old(self)@.dictionary.insert(
                lowercase(from@),
                to@,
            ),
            final(self)@.snippets == old(self)@.snippets,
    {
        proof {
            use_type_invariant(&*self);
        }
        let key = to_lowercase(from);
        let value = String::from_str(to);
        let mut table: Vec<(String, String)> = Vec::new();
        std::mem::swap(&mut table, &mut self.dictionary);
        insert_entry(&mut table, key, value);
        self.dictionary = table;
    }

    /// Add a snippet expansion (e.g. `"addr"` → `"123 Main St"`); the trigger is
    /// stored lower-cased, replacing an earlier snippet with the same trigger.
    pub fn add_snippet(&mut self, trigger: &str, expansion: &str)
        ensures
            final(self)@.snippets == old(self)@.snippets.insert(
                lowercase(trigger@),
                expansion@,
            ),
            final(self)@.dictionary == old(self)@.dictionary,
    {
        proof {
            use_type_invariant(&*self);
        }
        let key = to_lowercase(trigger);
        let value = String::from_str(expansion);
        let mut table: Vec<(String, String)> = Vec::new();
        std::mem::swap(&mut table, &mut self.snippets);
        insert_entry(&mut table, key, value);
        self.snippets = table;
    }

    /// Whether neither table has an entry.
    pub fn is_empty(&self) -> (b: bool)
        ensures
            b == memory_is_empty(self@),
    {
        proof {
            use_type_invariant(self);
        }
        let b = self.dictionary.len() == 0 && self.snippets.len() == 0;
        proof {
            if self.dictionary.len() == 0 {
                assert(self@.dictionary.dom() =~= Set::<Seq<char>>::empty());
            } else {
                lemma_entries_map_at(self.dictionary@, 0);
                assert(self@.dictionary.dom().contains(self.dictionary@[0].0@));
            }
            if self.snippets.len() == 0 {
                assert(self@.snippets.dom() =~= Set::<Seq<char>>::empty());
            } else {
                lemma_entries_map_at(self.snippets@, 0);
                assert(self@.snippets.dom().contains(self.snippets@[0].0@));
            }
        }
        b
    }

    /// Apply dictionary + snippet replacements token by token, preserving any
    /// punctuation around each word. Whitespace is normalized to single spaces.
    pub fn apply(&self, text: &str) -> (r: String)
        ensures
            r@ == apply_memory(self@, text@),
    {
        let chars = chars_of(text);
        let n = chars.len();
        let mut out = String::new();
        let mut first = true;
        let ghost mut done: Seq<Seq<char>> = seq![];
        let mut i: usize = 0;
        proof {
            assert(chars@.skip(0) =~= chars@);
            assert(done + words(chars@.skip(0)) =~= words(chars@));
            reveal_strlit(" ");
        }
        while i < n
            invariant
                i <= n,
                n == chars.len(),
                chars@ == text@,
                done + words(chars@.skip(i as int)) == words(chars@),
                first == (done.len() == 0),
                out@ == join_with(done.map_values(replace_fn(self@)), seq![' ']),
                " "@ == seq![' '],
            decreases n - i,
        {
            if is_whitespace(chars[i]) {
                proof {
                    lemma_words_skip_ws(chars@, i as int);
                }
                i = i + 1;
            } else {
                let e = word_end(chars.as_slice(), i);
                proof {
                    lemma_words_take_word(chars@, i as int, e as int);
                }
                let r = self.replace_token(text, chars.as_slice(), i, e);
                let ghost replaced = done.map_values(replace_fn(self@));
                append_piece(&mut out, Ghost(replaced), first, r.as_str(), " ");
                proof {
                    let tok = chars@.subrange(i as int, e as int);
                    let old_done = done;
                    done = done.push(tok);
                    assert(done.map_values(replace_fn(self@)) =~= replaced.push(r@));
                    assert(done + words(chars@.skip(e as int)) =~= old_done + words(
                        chars@.skip(i as int),
                    ));
                }
                first = false;
                i = e;
            }
        }
        proof {
            assert(chars@.skip(n as int) =~= Seq::<char>::empty());
            assert(done =~= words(chars@));
        }
        out
    }

    /// `chars[a..b]` (one word of `text`) with its trigger replaced.
    fn replace_token(&self, text: &str, chars: &[char], a: usize, b: usize) -> (r: String)
        requires
            chars@ == text@,
            a < b <= chars.len(),
        ensures
            r@ == replace_token(self@, chars@.subrange(a as int, b as int)),
    {
        proof {
            use_type_invariant(self);
        }
        let tok = vstd::slice::slice_subrange(chars, a, b);
        let len = tok.len();
        let mut i: usize = 0;
        while i < len && !is_alphanumeric(tok[i])
            invariant
                i <= len,
                len == tok.len(),
                forall|j: int| 0 <= j < i ==> #[trigger] not_alnum()(tok@[j]),
            decreases len - i,
        {
            i = i + 1;
        }
        proof {
            lemma_run_len_is(tok@, not_alnum(), i as int);
        }
        if i == len {
            let t = text.substring_char(a, b);
            return String::from_str(t);
        }
        let mut k: usize = 0;
        while k < len - i && !is_alphanumeric(tok[len - 1 - k])
            invariant
                i < len,
                k <= len - i,
                len == tok.len(),
                forall|j: int| len - k <= j < len ==> #[trigger] not_alnum()(tok@[j]),
            decreases len - i - k,
        {
            k = k + 1;
        }
        proof {
            if k == len - i {
                assert(not_alnum()(tok@[i as int]));
            }
            lemma_back_run_len_is(tok@, not_alnum(), k as int);
        }
        let end = len - k;
        let core = text.substring_char(a + i, a + end);
        proof {
            assert(core@ =~= tok@.subrange(i as int, end as int));
        }
        let key = to_lowercase(core);
        let prefix = text.substring_char(a, a + i);
        let suffix = text.substring_char(a + end, b);
        proof {
            assert(prefix@ =~= tok@.subrange(0, i as int));
            assert(suffix@ =~= tok@.subrange(end as int, len as int));
        }
        match lookup(&self.dictionary, &key) {
            Some(idx) => {
                proof {
                    lemma_entries_map_at(self.dictionary@, idx as int);
                }
                let mut out = String::from_str(prefix);
                out.append(self.dictionary[idx].1.as_str());
                out.append(suffix);
                out
            },
            None => {
                proof {
                    assert(!self@.dictionary.contains_key(key@));
                }
                match lookup(&self.snippets, &key) {
                    Some(idx) => {
                        proof {
                            lemma_entries_map_at(self.snippets@, idx as int);
                        }
                        let mut out = String::from_str(prefix);
                        out.append(self.snippets[idx].1.as_str());
                        out.append(suffix);
                        out
                    },
                    None => {
                        proof {
                            assert(!self@.snippets.contains_key(key@));
                        }
                        let t = text.substring_char(a, b);
                        String::from_str(t)
                    },
                }
            },
        }
    }
}

// ---------------------------------------------------------------------------
// Laws of Personal Memory
// ---------------------------------------------------------------------------

/// The alphanumeric core of a token: the token without the non-alphanumeric
/// chars at either end.
pub open spec fn token_core(t: Seq<char>) -> Seq<char> {
    t.subrange(run_len(t, not_alnum()) as int, t.len() - back_run_len(t, not_alnum()))
}

pub open spec fn token_prefix(t: Seq<char>) -> Seq<char> {
    t.subrange(0, run_len(t, not_alnum()) as int)
}

pub open spec fn token_suffix(t: Seq<char>) -> Seq<char> {
    t.subrange(t.len() - back_run_len(t, not_alnum()), t.len() as int)
}

/// Every replacement text is a single non-empty word.
pub open spec fn values_are_words(m: Map<Seq<char>, Seq<char>>) -> bool {
    forall|k: Seq<char>| #[trigger] m.contains_key(k) ==> m[k].len() > 0 && ws_free(m[k])
}

/// With both tables empty, no word is replaced: the result is the text's
/// words joined by single spaces.
pub proof fn law_empty_memory_only_normalizes_whitespace(m: MemoryModel, text: Seq<char>)
    requires
        memory_is_empty(m),
    ensures
        apply_memory(m, text) == join_with(words(text), seq![' ']),
{
    assert forall|i: int| 0 <= i < words(text).len() implies replace_token(
        m,
        #[trigger] words(text)[i],
    ) == words(text)[i] by {
        let t = words(text)[i];
        let lead = run_len(t, not_alnum());
        if lead < t.len() {
            let end = t.len() - back_run_len(t, not_alnum());
            let key = lowercase(t.subrange(lead as int, end));
            assert(!m.dictionary.dom().contains(key));
            assert(!m.snippets.dom().contains(key));
        }
    }
    assert(words(text).map_values(replace_fn(m)) =~= words(text));
}

/// A term added under any casing applies to every word whose core lower-cases
/// the same way: the core is replaced and the punctuation around it is kept.
/// A dictionary term wins over a snippet with the same trigger.
pub proof fn law_added_term_applies(m: MemoryModel, from: Seq<char>, to: Seq<char>, w: Seq<char>)
    requires
        run_len(w, not_alnum()) < w.len(),
        lowercase(token_core(w)) == lowercase(from),
    ensures
        replace_token(
            MemoryModel { dictionary: m.dictionary.insert(lowercase(from), to), ..m },
            w,
        ) == token_prefix(w) + to + token_suffix(w),
{
}

/// A snippet added under any casing expands every word whose core lower-cases
/// the same way, keeping the punctuation around it, unless a dictionary term
/// has the same trigger.
pub proof fn law_added_snippet_applies(
    m: MemoryModel,
    trigger: Seq<char>,
    expansion: Seq<char>,
    w: Seq<char>,
)
    requires
        run_len(w, not_alnum()) < w.len(),
        lowercase(token_core(w)) == lowercase(trigger),
        !m.dictionary.contains_key(lowercase(trigger)),
    ensures
        replace_token(
            MemoryModel { snippets: m.snippets.insert(lowercase(trigger), expansion), ..m },
            w,
        ) == token_prefix(w) + expansion + token_suffix(w),
{
}

/// A word with no known trigger is kept exactly as spoken.
pub proof fn law_unknown_word_is_kept(m: MemoryModel, w: Seq<char>)
    requires
        !m.dictionary.contains_key(lowercase(token_core(w))),
        !m.snippets.contains_key(lowercase(token_core(w))),
    ensures
        replace_token(m, w) == w,
{
}

proof fn lemma_replaced_word_is_word(m: MemoryModel, w: Seq<char>)
    requires
        w.len() > 0,
        ws_free(w),
        values_are_words(m.dictionary),
        values_are_words(m.snippets),
    ensures
        replace_token(m, w).len() > 0,
        ws_free(replace_token(m, w)),
{
    let lead = run_len(w, not_alnum());
    lemma_run_len_bounds(w, not_alnum());
    lemma_back_run_len_bounds(w, not_alnum());
    if lead < w.len() {
        let end = w.len() - back_run_len(w, not_alnum());
        if end <= lead {
            assert(not_alnum()(w[lead as int]));
        }
        let key = lowercase(w.subrange(lead as int, end));
        let pre = w.subrange(0, lead as int);
        let suf = w.subrange(end, w.len() as int);
        if m.dictionary.contains_key(key) || m.snippets.contains_key(key) {
            let v = if m.dictionary.contains_key(key) {
                m.dictionary[key]
            } else {
                m.snippets[key]
            };
            let r = pre + v + suf;
            assert(r == replace_token(m, w));
            assert forall|j: int| 0 <= j < r.len() implies !crate::text::is_white_space(
                #[trigger] r[j],
            ) by {
                if j < pre.len() {
                    assert(r[j] == w[j]);
                } else if j < pre.len() + v.len() {
                    assert(r[j] == v[j - pre.len()]);
                } else {
                    assert(r[j] == w[end + (j - pre.len() - v.len())]);
                }
            }
        }
    }
}

/// Whitespace is normalized to single spaces: when every replacement is a
/// single word, the result's words are the text's words,
/// each replaced, and the result is exactly those words joined by one space.
pub proof fn law_apply_normalizes_whitespace(m: MemoryModel, text: Seq<char>)
    requires
        values_are_words(m.dictionary),
        values_are_words(m.snippets),
    ensures
        words(apply_memory(m, text)) == words(text).map_values(replace_fn(m)),
        apply_memory(m, text) == crate::text::join_with(words(apply_memory(m, text)), seq![' ']),
{
    let ws = words(text);
    let rs = ws.map_values(replace_fn(m));
    lemma_words_are_words(text);
    assert forall|i: int| 0 <= i < rs.len() implies (#[trigger] rs[i]).len() > 0 && ws_free(
        rs[i],
    ) by {
        assert(ws[i].len() > 0 && ws_free(ws[i]));
        lemma_replaced_word_is_word(m, ws[i]);
    }
    lemma_words_of_join(rs);
}

} // verus!
