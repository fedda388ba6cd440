//! Core error type shared across every subsystem.
use vstd::prelude::*;
use vstd::string::StringExecFns;

verus! {

broadcast use vstd::string::group_string_axioms;

/// Every failure the engine reports. Errors raised by outside libraries
/// (database, file system, JSON) are carried as their rendered message.
#[derive(Debug)]
pub enum CoreError {
    /// A platform backend is not yet implemented on the current target.
    NotImplemented(&'static str),
    ModelNotLoaded,
    Transcription(String),
    Audio(String),
    Injection(String),
    Hotkey(String),
    Llm(String),
    Db(String),
    Io(String),
    Serde(String),
}

pub type Result<T> = core::result::Result<T, CoreError>;

/// The human-readable text of an error (what `to_string()` shows).
pub open spec fn error_message(e: CoreError) -> Seq<char> {
    match e {
        CoreError::NotImplemented(what) => "not implemented on this platform: "@ + what@,
        CoreError::ModelNotLoaded => "no transcription model is loaded"@,
        CoreError::Transcription(m) => "transcription failed: "@ + m@,
        CoreError::Audio(m) => "audio capture failed: "@ + m@,
        CoreError::Injection(m) => "text injection failed: "@ + m@,
        CoreError::Hotkey(m) => "hotkey registration failed: "@ + m@,
        CoreError::Llm(m) => "local model request failed: "@ + m@,
        CoreError::Db(m) => "database error: "@ + m@,
        CoreError::Io(m) => "io error: "@ + m@,
        CoreError::Serde(m) => "serialization error: "@ + m@,
    }
}

fn prefixed(prefix: &str, detail: &str) -> (r: String)
    ensures
        r@ == prefix@ + detail@,
{
    let mut r = String::from_str(prefix);
    r.append(detail);
    r
}

impl CoreError {
    /// The error's message, as `Display` renders it.
    pub fn message(&self) -> (r: String)
        ensures
            r@ == error_message(*self),
    {
        match self {
            CoreError::NotImplemented(what) => prefixed(
                "not implemented on this platform: ",
                what,
            ),
            CoreError::ModelNotLoaded => String::from_str("no transcription model is loaded"),
            CoreError::Transcription(m) => prefixed("transcription failed: ", m.as_str()),
            CoreError::Audio(m) => prefixed("audio capture failed: ", m.as_str()),
            CoreError::Injection(m) => prefixed("text injection failed: ", m.as_str()),
            CoreError::Hotkey(m) => prefixed("hotkey registration failed: ", m.as_str()),
            CoreError::Llm(m) => prefixed("local model request failed: ", m.as_str()),
            CoreError::Db(m) => prefixed("database error: ", m.as_str()),
            CoreError::Io(m) => prefixed("io error: ", m.as_str()),
            CoreError::Serde(m) => prefixed("serialization error: ", m.as_str()),
        }
    }
}

} // verus!
