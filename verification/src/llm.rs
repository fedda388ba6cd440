//! Local model client glue: the request URLs of an Ollama endpoint and the
//! clean-up of its replies.
use crate::text::{back_run_len, chars_of, concat, lemma_back_run_len_is, trim, trimmed};
use vstd::prelude::*;
use vstd::string::StrSliceExecFns;
use vstd::string::StringExecFns;

verus! {

broadcast use vstd::string::group_string_axioms;

pub open spec fn slash() -> spec_fn(char) -> bool {
    |c: char| c == '/'
}

/// The endpoint without its trailing slashes.
pub open spec fn base_url(endpoint: Seq<char>) -> Seq<char> {
    endpoint.take(endpoint.len() - back_run_len(endpoint, slash()))
}

/// The endpoint with every trailing `/` removed.
pub fn base(endpoint: &str) -> (r: String)
    ensures
        r@ == base_url(endpoint@),
{
    let chars = chars_of(endpoint);
    let n = chars.len();
    let mut k: usize = 0;
    while k < n && chars[n - 1 - k] == '/'
        invariant
            k <= n,
            n == chars.len(),
            forall|j: int| n - k <= j < n ==> #[trigger] slash()(chars@[j]),
        decreases n - k,
    {
        k = k + 1;
    }
    proof {
        lemma_back_run_len_is(chars@, slash(), k as int);
    }
    let t = endpoint.substring_char(0, n - k);
    proof {
        assert(t@ =~= base_url(endpoint@));
    }
    String::from_str(t)
}

/// URL of the one-shot generation API (`/api/generate`).
pub fn generate_url(endpoint: &str) -> (r: String)
    ensures
        r@ == base_url(endpoint@) + "/api/generate"@,
{
    let b = base(endpoint);
    concat(b.as_str(), "/api/generate")
}

/// URL of the installed-models API (`/api/tags`).
pub fn tags_url(endpoint: &str) -> (r: String)
    ensures
        r@ == base_url(endpoint@) + "/api/tags"@,
{
    let b = base(endpoint);
    concat(b.as_str(), "/api/tags")
}

/// A generation reply as shown to the user: trimmed.
pub fn clean_reply(response: &str) -> (r: String)
    ensures
        r@ == trim(response@),
{
    trimmed(response)
}

} // verus!
