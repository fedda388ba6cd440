//! The write-once engine of a push-to-talk voice keyboard: hotkey combos, the
//! dictation state machine, Personal Memory replacements, the model catalog and
//! the small parsers the platform backends rely on.
pub mod error;
pub mod text;
pub mod types;
pub mod memory;
pub mod coordinator;
pub mod hotkey;
pub mod models;
pub mod store;
pub mod transcription;
pub mod focus;
pub mod injection;
pub mod clipboard;
pub mod llm;
pub mod desktop;
