//! The desktop shell's decisions: which model the engine loads, the notices it
//! shows when push-to-talk is registered and when a dictation ends, the tray
//! tooltip of each engine state, the history rows, the model a chat uses and
//! where the recording panel is parked. The shell itself (windows, tray,
//! events) performs them.
use crate::coordinator::DictationOutcome;
use crate::error::{error_message, CoreError};
use crate::store::TranscriptionRecord;
use crate::text::{concat, same_text, trim, trimmed};
use vstd::prelude::*;
use vstd::string::StringExecFns;

verus! {

broadcast use vstd::string::group_string_axioms;

// ---------------------------------------------------------------------------
// Starting the engine
// ---------------------------------------------------------------------------

/// Where the engine's model comes from.
#[derive(Debug, Clone, PartialEq, Eq)]
pub enum ModelSource {
    /// The active model of the settings, from the models directory.
    Active,
    /// A model file given by its path.
    File(String),
}

/// The model a start request loads: the active model when no path (or only
/// whitespace) is given, otherwise the file at the given path.
pub fn model_source(model_path: &str) -> (r: ModelSource)
    ensures
        trim(model_path@).len() == 0 ==> r == ModelSource::Active,
        trim(model_path@).len() > 0 ==> (r matches ModelSource::File(p) && p@ == model_path@),
{
    let t = trimmed(model_path);
    if t.as_str().is_empty() {
        ModelSource::Active
    } else {
        ModelSource::File(String::from_str(model_path))
    }
}

/// The error shown when the active model has not been downloaded.
pub open spec fn not_downloaded_message(id: Seq<char>) -> Seq<char> {
    "model '"@ + id + "' is not downloaded — pick one in the Models tab"@
}

/// Whether the engine can start on the active model `id`: it must be on disk.
pub fn check_active_model(id: &str, downloaded: bool) -> (r: Result<(), String>)
    ensures
        downloaded ==> r is Ok,
        !downloaded ==> (r matches Err(m) && m@ == not_downloaded_message(id@)),
{
    if downloaded {
        Ok(())
    } else {
        let mut m = concat("model '", id);
        m.append("' is not downloaded — pick one in the Models tab");
        Err(m)
    }
}

/// What the shell tells the user about push-to-talk on Wayland, where the
/// shortcut portal only reports presses.
pub const WAYLAND_TOGGLE_NOTICE: &'static str = "On Wayland your shortcut is a toggle: with your target app focused, press it once to start, then press it again to stop and insert. (Configure it in Settings → Keyboard.)";

/// What the shell tells the user when push-to-talk could not be registered.
pub open spec fn hotkey_unavailable_notice(error: Seq<char>) -> Seq<char> {
    "Global push-to-talk is unavailable ("@ + error
        + "). Use the “Click to record” button (or the tray) to dictate."@
}

/// The warning shown once push-to-talk registration has been tried: the
/// toggle hint on Wayland, the failure with the record-button fallback, or
/// nothing. The engine runs either way.
pub fn hotkey_notice(registered: &Result<(), CoreError>, wayland: bool) -> (r: Option<String>)
    ensures
        match registered {
            Ok(()) => if wayland {
                r matches Some(m) && m@ == WAYLAND_TOGGLE_NOTICE@
            } else {
                r is None
            },
            Err(e) => (r matches Some(m) && m@ == hotkey_unavailable_notice(error_message(*e))),
        },
{
    match registered {
        Ok(()) => {
            if wayland {
                Some(String::from_str(WAYLAND_TOGGLE_NOTICE))
            } else {
                None
            }
        },
        Err(e) => {
            let mut m = concat("Global push-to-talk is unavailable (", e.message().as_str());
            m.append("). Use the “Click to record” button (or the tray) to dictate.");
            Some(m)
        },
    }
}

// ---------------------------------------------------------------------------
// Finishing a dictation
// ---------------------------------------------------------------------------

/// What the shell does once a dictation ends.
#[derive(Debug)]
pub struct ReleaseFollowup {
    /// The transcript to save to history and show, when one was produced.
    pub transcript: Option<String>,
    /// How long the key was held, saved with the transcript.
    pub duration_ms: i64,
    /// When typing failed: the warning to show; the transcript is then also
    /// copied to the clipboard so it can be pasted by hand.
    pub warning: Option<String>,
}

/// The warning for a transcript that could not be typed.
pub open spec fn typing_failed_warning(error: Seq<char>) -> Seq<char> {
    "Couldn't type into the focused app ("@ + error
        + "). Saved to History and copied to the clipboard — press Ctrl+V to paste."@
}

/// The follow-up of a finished dictation: a transcript is always kept, and a
/// failed injection adds the clipboard fallback and its warning.
pub fn release_followup(outcome: DictationOutcome) -> (f: ReleaseFollowup)
    ensures
        f.transcript == outcome.transcript,
        f.duration_ms == outcome.duration_ms,
        outcome.transcript is None ==> f.warning is None,
        outcome.transcript is Some ==> match outcome.inject_error {
            None => f.warning is None,
            Some(e) => (f.warning matches Some(w) && w@ == typing_failed_warning(e@)),
        },
{
    let warning = match (&outcome.transcript, &outcome.inject_error) {
        (Some(_), Some(e)) => {
            let mut w = concat("Couldn't type into the focused app (", e.as_str());
            w.append("). Saved to History and copied to the clipboard — press Ctrl+V to paste.");
            Some(w)
        },
        _ => None,
    };
    ReleaseFollowup { transcript: outcome.transcript, duration_ms: outcome.duration_ms, warning }
}

// ---------------------------------------------------------------------------
// Tray, history, chat, panel
// ---------------------------------------------------------------------------

/// The tray tooltip for an engine state.
pub open spec fn tooltip_for(state: Seq<char>) -> Seq<char> {
    if state == "recording"@ {
        "Orttaai — recording…"@
    } else if state == "processing"@ {
        "Orttaai — transcribing…"@
    } else if state == "idle"@ {
        "Orttaai — listening"@
    } else {
        "Orttaai"@
    }
}

/// The tray tooltip while the engine is in `state`.
pub fn tray_tooltip(state: &str) -> (s: &'static str)
    ensures
        s@ == tooltip_for(state@),
{
    if same_text(state, "recording") {
        "Orttaai — recording…"
    } else if same_text(state, "processing") {
        "Orttaai — transcribing…"
    } else if same_text(state, "idle") {
        "Orttaai — listening"
    } else {
        "Orttaai"
    }
}

/// One row of the history screen.
#[derive(Debug, Clone)]
pub struct HistoryItem {
    pub id: i64,
    pub text: String,
    pub app: Option<String>,
    pub word_count: i64,
    pub created_at: i64,
}

/// The history row of a stored record (a record without a row id shows 0).
pub fn history_item(record: TranscriptionRecord) -> (h: HistoryItem)
    ensures
        h.id == match record.id {
            Some(id) => id,
            None => 0,
        },
        h.text == record.text,
        h.app == record.app,
        h.word_count == record.word_count,
        h.created_at == record.created_at,
{
    let id = match record.id {
        Some(id) => id,
        None => 0,
    };
    HistoryItem {
        id,
        text: record.text,
        app: record.app,
        word_count: record.word_count,
        created_at: record.created_at,
    }
}

/// The local model a chat uses when none is chosen.
pub const DEFAULT_CHAT_MODEL: &'static str = "llama3.2";

/// The model a chat request goes to: the chosen one, or
/// [`DEFAULT_CHAT_MODEL`] when the choice is blank.
pub fn chat_model(model: &str) -> (r: String)
    ensures
        trim(model@).len() == 0 ==> r@ == DEFAULT_CHAT_MODEL@,
        trim(model@).len() > 0 ==> r@ == model@,
{
    let t = trimmed(model);
    if t.as_str().is_empty() {
        String::from_str(DEFAULT_CHAT_MODEL)
    } else {
        String::from_str(model)
    }
}

/// Width of the floating recording panel, in physical pixels.
pub const PANEL_WIDTH: i32 = 220;

/// Distance of the panel's top edge from the bottom of the monitor.
pub const PANEL_BOTTOM_OFFSET: i32 = 160;

/// A monitor dimension as the platform's signed coordinate: dimensions past
/// `i32::MAX` wrap around.
pub open spec fn signed_dim(d: u32) -> int {
    if d <= i32::MAX {
        d as int
    } else {
        d - 0x1_0000_0000
    }
}

/// Integer division that rounds toward zero, as Rust's `/` does.
pub open spec fn div_toward_zero(n: int, d: int) -> int {
    if n >= 0 {
        n / d
    } else {
        -((-n) / d)
    }
}

/// Where the recording panel is parked on a `width`×`height` monitor: centred
/// horizontally, [`PANEL_BOTTOM_OFFSET`] above the bottom edge.
pub fn panel_position(width: u32, height: u32) -> (p: (i32, i32))
    requires
        signed_dim(width) >= i32::MIN + PANEL_WIDTH,
        signed_dim(height) >= i32::MIN + PANEL_BOTTOM_OFFSET,
    ensures
        p.0 == div_toward_zero(signed_dim(width) - PANEL_WIDTH, 2),
        p.1 == signed_dim(height) - PANEL_BOTTOM_OFFSET,
{
    let w = to_signed(width);
    let h = to_signed(height);
    let n: i32 = w - PANEL_WIDTH;
    (n / 2, h - PANEL_BOTTOM_OFFSET)
}

/// `d as i32`.
fn to_signed(d: u32) -> (r: i32)
    ensures
        r == signed_dim(d),
{
    if d <= 0x7fff_ffff {
        d as i32
    } else {
        let r: i32 = #[verifier::truncate] (d as i32);
        assert(r == d - 0x1_0000_0000) by (bit_vector)
            requires
                d > 0x7fff_ffffu32,
                r == #[verifier::truncate] (d as i32),
        ;
        r
    }
}

} // verus!
