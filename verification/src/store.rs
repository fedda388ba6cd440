//! History records: one per dictation, with the numbers the insights screen uses.
use crate::text::{count_words, words};
use vstd::prelude::*;
use vstd::string::StringExecFns;

verus! {

broadcast use vstd::string::group_string_axioms;

/// A single dictation.
#[derive(Debug, Clone)]
pub struct TranscriptionRecord {
    pub id: Option<i64>,
    pub text: String,
    pub app: Option<String>,
    pub duration_ms: i64,
    pub word_count: i64,
    /// Unix seconds.
    pub created_at: i64,
}

/// Most history rows a single request returns.
pub const MAX_HISTORY_LIMIT: i64 = 500;

impl TranscriptionRecord {
    /// Build a not-yet-stored record from text + timing; the word count is the
    /// number of whitespace-separated words of the text.
    pub fn new(text: &str, app: Option<String>, duration_ms: i64, created_at: i64) -> (r: Self)
        ensures
            r.id is None,
            r.text@ == text@,
            r.app == app,
            r.duration_ms == duration_ms,
            r.word_count == words(text@).len() as i64,
            r.created_at == created_at,
    {
        let n = count_words(text);
        TranscriptionRecord {
            id: None,
            text: String::from_str(text),
            app,
            duration_ms,
            word_count: n as i64,
            created_at,
        }
    }
}

/// The number of history rows to fetch for a requested `limit`: at least one,
/// at most [`MAX_HISTORY_LIMIT`].
pub fn history_limit(limit: i64) -> (n: i64)
    ensures
        1 <= n <= MAX_HISTORY_LIMIT,
        1 <= limit <= MAX_HISTORY_LIMIT ==> n == limit,
        limit < 1 ==> n == 1,
        limit > MAX_HISTORY_LIMIT ==> n == MAX_HISTORY_LIMIT,
{
    if limit < 1 {
        1
    } else if limit > MAX_HISTORY_LIMIT {
        MAX_HISTORY_LIMIT
    } else {
        limit
    }
}

} // verus!
