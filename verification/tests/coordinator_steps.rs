use orttaai_core::coordinator::{is_blank_marker, DictationAction, DictationCoordinator, DictationEvent};
use orttaai_core::error::CoreError;
use orttaai_core::memory::MemoryService;
use orttaai_core::types::{InjectionResult, RecordingState, SecureFieldStatus};

fn recording(now_ms: u64) -> DictationCoordinator {
    let mut c = DictationCoordinator::new(MemoryService::new());
    assert!(matches!(c.step(DictationEvent::Press), DictationAction::StartAudio));
    assert!(matches!(
        c.step(DictationEvent::AudioStarted { result: Ok(()), now_ms }),
        DictationAction::PressDone(Ok(()))
    ));
    c
}

#[test]
fn press_while_recording_is_a_noop() {
    let mut c = recording(0);
    assert!(matches!(c.step(DictationEvent::Press), DictationAction::PressDone(Ok(()))));
    assert_eq!(c.state(), RecordingState::Recording);
}

#[test]
fn failed_audio_start_sets_error_and_next_press_recovers() {
    let mut c = DictationCoordinator::new(MemoryService::new());
    assert!(matches!(c.step(DictationEvent::Press), DictationAction::StartAudio));
    let a = c.step(DictationEvent::AudioStarted {
        result: Err(CoreError::Audio("no mic".to_string())),
        now_ms: 0,
    });
    match a {
        DictationAction::PressDone(Err(e)) => assert_eq!(e.message(), "audio capture failed: no mic"),
        other => panic!("unexpected {other:?}"),
    }
    assert_eq!(c.state(), RecordingState::Error);
    assert!(matches!(c.step(DictationEvent::Press), DictationAction::StartAudio));
    assert_eq!(c.state(), RecordingState::Idle);
}

#[test]
fn release_measures_duration_and_skips_silence() {
    let mut c = recording(1_000);
    assert!(matches!(c.step(DictationEvent::Release { now_ms: 2_250 }), DictationAction::StopAudio));
    assert_eq!(c.state(), RecordingState::Processing);
    match c.step(DictationEvent::AudioStopped(Ok(0))) {
        DictationAction::ReleaseDone(Ok(o)) => {
            assert_eq!(o.result, InjectionResult::NoTranscript);
            assert_eq!(o.duration_ms, 1_250);
            assert!(o.transcript.is_none());
        }
        other => panic!("unexpected {other:?}"),
    }
    assert_eq!(c.state(), RecordingState::Idle);
}

#[test]
fn blank_marker_transcript_is_no_transcript() {
    let mut c = recording(0);
    c.step(DictationEvent::Release { now_ms: 10 });
    assert!(matches!(c.step(DictationEvent::AudioStopped(Ok(5))), DictationAction::Transcribe));
    match c.step(DictationEvent::Transcribed(Ok("  [blank_audio] ".to_string()))) {
        DictationAction::ReleaseDone(Ok(o)) => assert_eq!(o.result, InjectionResult::NoTranscript),
        other => panic!("unexpected {other:?}"),
    }
    assert!(is_blank_marker("[BLANK_AUDIO]"));
    assert!(is_blank_marker(" [ silence ] "));
    assert!(is_blank_marker("(Silence)"));
    assert!(!is_blank_marker("silence"));
}

#[test]
fn transcription_error_is_reported() {
    let mut c = recording(0);
    c.step(DictationEvent::Release { now_ms: 10 });
    c.step(DictationEvent::AudioStopped(Ok(5)));
    match c.step(DictationEvent::Transcribed(Err(CoreError::ModelNotLoaded))) {
        DictationAction::ReleaseDone(Err(CoreError::ModelNotLoaded)) => {}
        other => panic!("unexpected {other:?}"),
    }
    assert_eq!(c.state(), RecordingState::Error);
}

#[test]
fn strict_policy_blocks_unknown_fields() {
    let mut c = recording(0);
    c.set_strict_secure(true);
    assert!(c.strict_secure());
    c.step(DictationEvent::Release { now_ms: 10 });
    c.step(DictationEvent::AudioStopped(Ok(5)));
    assert!(matches!(
        c.step(DictationEvent::Transcribed(Ok("hello".to_string()))),
        DictationAction::CheckSecureField
    ));
    match c.step(DictationEvent::SecureField(SecureFieldStatus::Unknown)) {
        DictationAction::ReleaseDone(Ok(o)) => assert_eq!(o.result, InjectionResult::BlockedSecureField),
        other => panic!("unexpected {other:?}"),
    }
}

#[test]
fn unknown_field_is_typed_into_by_default_and_failure_keeps_transcript() {
    let mut c = recording(0);
    c.step(DictationEvent::Release { now_ms: 10 });
    c.step(DictationEvent::AudioStopped(Ok(5)));
    c.step(DictationEvent::Transcribed(Ok("  hi   there ".to_string())));
    match c.step(DictationEvent::SecureField(SecureFieldStatus::Unknown)) {
        DictationAction::Inject(t) => assert_eq!(t, "hi there"),
        other => panic!("unexpected {other:?}"),
    }
    assert_eq!(c.state(), RecordingState::Idle);
    match c.step(DictationEvent::Injected(Err(CoreError::Injection("no wtype".to_string())))) {
        DictationAction::ReleaseDone(Ok(o)) => {
            assert_eq!(o.result, InjectionResult::Failed);
            assert_eq!(o.transcript.as_deref(), Some("hi there"));
            assert_eq!(o.inject_error.as_deref(), Some("text injection failed: no wtype"));
            assert_eq!(o.duration_ms, 10);
        }
        other => panic!("unexpected {other:?}"),
    }
}

#[test]
fn out_of_turn_events_are_ignored() {
    let mut c = DictationCoordinator::new(MemoryService::new());
    assert!(matches!(c.step(DictationEvent::AudioStopped(Ok(3))), DictationAction::Ignored));
    assert!(matches!(c.step(DictationEvent::Injected(Ok(InjectionResult::Success))), DictationAction::Ignored));
    assert!(matches!(c.step(DictationEvent::Press), DictationAction::StartAudio));
    assert!(matches!(c.step(DictationEvent::Release { now_ms: 1 }), DictationAction::Ignored));
    assert_eq!(c.state(), RecordingState::Idle);
}
