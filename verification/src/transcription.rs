//! Speech-to-text glue: the deterministic test transcriber and the pure parts
//! of the whisper.cpp backend (language selection, joining segments).
use crate::error::CoreError;
use crate::text::{same_text, trim, trimmed};
use vstd::prelude::*;
use vstd::string::StringExecFns;

verus! {

broadcast use vstd::string::group_string_axioms;

/// Deterministic transcriber for tests and the demo: whatever it hears, it
/// returns the canned text.
#[derive(Debug)]
pub struct MockTranscriber {
    canned: String,
    model: Option<String>,
}

pub struct MockTranscriberModel {
    pub canned: Seq<char>,
    pub model: Option<Seq<char>>,
}

impl View for MockTranscriber {
    type V = MockTranscriberModel;

    closed spec fn view(&self) -> MockTranscriberModel {
        MockTranscriberModel {
            canned: self.canned@,
            model: match self.model {
                Some(m) => Some(m@),
                None => None,
            },
        }
    }
}

impl MockTranscriber {
    /// A transcriber that always returns `canned`, with the model `mock` loaded.
    pub fn new(canned: &str) -> (t: Self)
        ensures
            t@.canned == canned@,
            t@.model == Some("mock"@),
    {
        MockTranscriber { canned: String::from_str(canned), model: Some(String::from_str("mock")) }
    }

    /// "Load" a model: only records its id.
    pub fn load_model(&mut self, model_id: &str) -> (r: Result<(), CoreError>)
        ensures
            r is Ok,
            final(self)@.model == Some(model_id@),
            final(self)@.canned == old(self)@.canned,
    {
        self.model = Some(String::from_str(model_id));
        Ok(())
    }

    /// The currently loaded model id, if any.
    pub fn loaded_model(&self) -> (m: Option<&str>)
        ensures
            match m {
                Some(s) => self@.model == Some(s@),
                None => self@.model is None,
            },
    {
        match &self.model {
            Some(m) => Some(m.as_str()),
            None => None,
        }
    }

    /// The transcript of any audio.
    pub fn transcribe(&self) -> (r: Result<String, CoreError>)
        ensures
            r matches Ok(s) && s@ == self@.canned,
    {
        Ok(self.canned.clone())
    }
}

/// The language to ask whisper for: `None` (auto-detect) for no language or
/// `"auto"`, otherwise the language given.
pub fn whisper_language(language: Option<&str>) -> (r: Option<&str>)
    ensures
        match language {
            None => r is None,
            Some(l) => if l@ == "auto"@ {
                r is None
            } else {
                r == Some(l)
            },
        },
{
    match language {
        None => None,
        Some(l) => {
            if same_text(l, "auto") {
                None
            } else {
                Some(l)
            }
        },
    }
}

/// Segment texts folded the way the decoder output is assembled: each segment
/// trimmed and appended, separated by a space once something was written.
pub open spec fn fold_segments(chunks: Seq<Seq<char>>) -> Seq<char>
    decreases chunks.len(),
{
    if chunks.len() == 0 {
        seq![]
    } else {
        let acc = fold_segments(chunks.drop_last());
        if acc.len() == 0 {
            trim(chunks.last())
        } else {
            acc + seq![' '] + trim(chunks.last())
        }
    }
}

/// The transcript of a decode: the folded segments, trimmed.
pub open spec fn joined_segments(chunks: Seq<Seq<char>>) -> Seq<char> {
    trim(fold_segments(chunks))
}

pub open spec fn string_views(v: Seq<String>) -> Seq<Seq<char>> {
    v.map_values(|s: String| s@)
}

/// Join the text of the decoded segments into one transcript.
pub fn join_segments(chunks: &[String]) -> (r: String)
    ensures
        r@ == joined_segments(string_views(chunks@)),
{
    let mut text = String::new();
    let mut i: usize = 0;
    proof {
        reveal_strlit(" ");
        assert(string_views(chunks@).take(0) =~= Seq::<Seq<char>>::empty());
    }
    while i < chunks.len()
        invariant
            i <= chunks.len(),
            text@ == fold_segments(string_views(chunks@).take(i as int)),
            " "@ == seq![' '],
        decreases chunks.len() - i,
    {
        let piece = trimmed(chunks[i].as_str());
        let ghost views = string_views(chunks@);
        if text.as_str().is_empty() {
            text = piece;
        } else {
            text.append(" ");
            text.append(piece.as_str());
        }
        proof {
            assert(views.take(i + 1).drop_last() =~= views.take(i as int));
            assert(views.take(i + 1).last() == chunks@[i as int]@);
        }
        i = i + 1;
    }
    proof {
        assert(string_views(chunks@).take(i as int) =~= string_views(chunks@));
    }
    trimmed(text.as_str())
}

} // verus!
