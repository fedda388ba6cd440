use orttaai_core::coordinator::{DictationAction, DictationCoordinator, DictationEvent, DictationOutcome};
use orttaai_core::error::CoreError;
use orttaai_core::injection::{MockTextInjector, TextInjector};
use orttaai_core::memory::MemoryService;
use orttaai_core::transcription::MockTranscriber;
use orttaai_core::types::{InjectionResult, RecordingState};

/// Drives a press the way the platform runner does, with capture that starts.
fn press(coord: &mut DictationCoordinator, now_ms: u64) -> Result<(), CoreError> {
    let mut event = DictationEvent::Press;
    loop {
        match coord.step(event) {
            DictationAction::StartAudio => {
                event = DictationEvent::AudioStarted { result: Ok(()), now_ms };
            }
            DictationAction::PressDone(r) => return r,
            other => panic!("unexpected action during press: {other:?}"),
        }
    }
}

/// Drives a release with `samples` captured audio, the mock transcriber and injector.
fn release(
    coord: &mut DictationCoordinator,
    now_ms: u64,
    samples: usize,
    transcriber: &MockTranscriber,
    injector: &mut MockTextInjector,
) -> Result<DictationOutcome, CoreError> {
    let mut event = DictationEvent::Release { now_ms };
    loop {
        match coord.step(event) {
            DictationAction::StopAudio => event = DictationEvent::AudioStopped(Ok(samples)),
            DictationAction::Transcribe => event = DictationEvent::Transcribed(transcriber.transcribe()),
            DictationAction::CheckSecureField => {
                event = DictationEvent::SecureField(injector.is_secure_field_focused())
            }
            DictationAction::Inject(text) => event = DictationEvent::Injected(injector.inject(&text)),
            DictationAction::ReleaseDone(r) => return r,
            other => panic!("unexpected action during release: {other:?}"),
        }
    }
}

#[test]
fn full_loop_injects_memory_applied_transcript() {
    let mut injector = MockTextInjector::new();
    let mut memory = MemoryService::new();
    memory.add_term("world", "WORLD");
    let transcriber = MockTranscriber::new("hello world");
    let mut coord = DictationCoordinator::new(memory);

    assert_eq!(coord.state(), RecordingState::Idle);
    press(&mut coord, 1_000).unwrap();
    assert_eq!(coord.state(), RecordingState::Recording);

    let outcome = release(&mut coord, 2_000, 16_000, &transcriber, &mut injector).unwrap();
    assert_eq!(outcome.result, InjectionResult::Success);
    assert_eq!(outcome.transcript.as_deref(), Some("hello WORLD"));
    assert_eq!(injector.log().last().as_deref(), Some("hello WORLD"));
    assert_eq!(coord.state(), RecordingState::Idle);
}

#[test]
fn secure_field_blocks_injection() {
    let mut injector = MockTextInjector::secure();
    let transcriber = MockTranscriber::new("secret password");
    let mut coord = DictationCoordinator::new(MemoryService::new());
    press(&mut coord, 0).unwrap();
    let outcome = release(&mut coord, 10, 16_000, &transcriber, &mut injector).unwrap();

    assert_eq!(outcome.result, InjectionResult::BlockedSecureField);
    assert!(outcome.transcript.is_none());
    assert!(
        injector.log().all().is_empty(),
        "nothing should be injected into a secure field"
    );
}

#[test]
fn release_without_press_is_a_noop() {
    let mut injector = MockTextInjector::new();
    let transcriber = MockTranscriber::new("ignored");
    let mut coord = DictationCoordinator::new(MemoryService::new());
    let outcome = release(&mut coord, 5, 16_000, &transcriber, &mut injector).unwrap();
    assert_eq!(outcome.result, InjectionResult::NoTranscript);
}

#[test]
fn memory_preserves_punctuation_and_is_case_insensitive() {
    let mut memory = MemoryService::new();
    memory.add_term("npm", "NPM");
    memory.add_snippet("addr", "123 Main St");

    assert_eq!(memory.apply("i love Npm."), "i love NPM.");
    assert_eq!(memory.apply("my addr, please"), "my 123 Main St, please");
    assert_eq!(memory.apply("nothing here"), "nothing here");
}
