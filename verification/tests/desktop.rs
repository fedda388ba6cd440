use orttaai_core::coordinator::DictationOutcome;
use orttaai_core::desktop::{
    chat_model, check_active_model, history_item, hotkey_notice, model_source, panel_position,
    release_followup, tray_tooltip, ModelSource, DEFAULT_CHAT_MODEL, WAYLAND_TOGGLE_NOTICE,
};
use orttaai_core::error::CoreError;
use orttaai_core::store::TranscriptionRecord;
use orttaai_core::types::InjectionResult;

#[test]
fn blank_model_path_uses_the_active_model() {
    assert_eq!(model_source(""), ModelSource::Active);
    assert_eq!(model_source("  \t\n"), ModelSource::Active);
    assert_eq!(
        model_source("/models/ggml-tiny.en.bin"),
        ModelSource::File("/models/ggml-tiny.en.bin".to_string())
    );
    // The path is used as given, surrounding spaces included.
    assert_eq!(model_source(" a.bin "), ModelSource::File(" a.bin ".to_string()));
}

#[test]
fn missing_active_model_is_reported() {
    assert_eq!(check_active_model("ggml-base.en", true), Ok(()));
    assert_eq!(
        check_active_model("ggml-base.en", false),
        Err("model 'ggml-base.en' is not downloaded — pick one in the Models tab".to_string())
    );
}

#[test]
fn hotkey_notices() {
    assert_eq!(hotkey_notice(&Ok(()), false), None);
    assert_eq!(hotkey_notice(&Ok(()), true), Some(WAYLAND_TOGGLE_NOTICE.to_string()));
    assert!(WAYLAND_TOGGLE_NOTICE.starts_with("On Wayland your shortcut is a toggle"));
    let failed = Err(CoreError::Hotkey("register: grab failed".to_string()));
    assert_eq!(
        hotkey_notice(&failed, true),
        Some(
            "Global push-to-talk is unavailable (hotkey registration failed: register: grab failed). \
             Use the “Click to record” button (or the tray) to dictate."
                .to_string()
        )
    );
}

fn outcome(transcript: Option<&str>, inject_error: Option<&str>) -> DictationOutcome {
    DictationOutcome {
        result: if inject_error.is_some() {
            InjectionResult::Failed
        } else {
            InjectionResult::Success
        },
        transcript: transcript.map(|t| t.to_string()),
        duration_ms: 1500,
        inject_error: inject_error.map(|e| e.to_string()),
    }
}

#[test]
fn finished_dictation_is_kept_and_failed_typing_warns() {
    let ok = release_followup(outcome(Some("hello"), None));
    assert_eq!(ok.transcript.as_deref(), Some("hello"));
    assert_eq!(ok.duration_ms, 1500);
    assert_eq!(ok.warning, None);

    let failed = release_followup(outcome(Some("hello"), Some("text injection failed: no wtype")));
    assert_eq!(failed.transcript.as_deref(), Some("hello"));
    assert_eq!(
        failed.warning.as_deref(),
        Some(
            "Couldn't type into the focused app (text injection failed: no wtype). Saved to \
             History and copied to the clipboard — press Ctrl+V to paste."
        )
    );

    let nothing = release_followup(outcome(None, None));
    assert_eq!(nothing.transcript, None);
    assert_eq!(nothing.warning, None);
}

#[test]
fn tray_tooltips() {
    assert_eq!(tray_tooltip("recording"), "Orttaai — recording…");
    assert_eq!(tray_tooltip("processing"), "Orttaai — transcribing…");
    assert_eq!(tray_tooltip("idle"), "Orttaai — listening");
    assert_eq!(tray_tooltip("off"), "Orttaai");
    assert_eq!(tray_tooltip("Recording"), "Orttaai");
}

#[test]
fn history_rows() {
    let mut stored = TranscriptionRecord::new("hello there", Some("Firefox".to_string()), 1200, 1_700_000_000);
    stored.id = Some(7);
    let row = history_item(stored);
    assert_eq!(row.id, 7);
    assert_eq!(row.text, "hello there");
    assert_eq!(row.app.as_deref(), Some("Firefox"));
    assert_eq!(row.word_count, 2);
    assert_eq!(row.created_at, 1_700_000_000);

    let unsaved = history_item(TranscriptionRecord::new("x", None, 0, 5));
    assert_eq!(unsaved.id, 0);
    assert_eq!(unsaved.app, None);
}

#[test]
fn blank_chat_model_falls_back_to_default() {
    assert_eq!(DEFAULT_CHAT_MODEL, "llama3.2");
    assert_eq!(chat_model(""), "llama3.2");
    assert_eq!(chat_model("   "), "llama3.2");
    assert_eq!(chat_model("mistral"), "mistral");
    assert_eq!(chat_model(" mistral "), " mistral ");
}

#[test]
fn panel_is_centred_near_the_bottom() {
    assert_eq!(panel_position(1920, 1080), (850, 920));
    assert_eq!(panel_position(2560, 1440), (1170, 1280));
    // Narrower than the panel: rounds toward zero like `/` on `i32`.
    assert_eq!(panel_position(101, 100), (-59, -60));
    // Dimensions past `i32::MAX` wrap, as the platform's signed coordinates do.
    assert_eq!(panel_position(u32::MAX, 160), (-110, 0));
}
