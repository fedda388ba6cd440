//! The dictation state machine — the heart of the engine, fully OS-agnostic.
//!
//! A press starts capture; a release stops it, transcribes, applies Personal
//! Memory, checks for a secure field and injects the text. The coordinator makes
//! every decision of that loop and asks its caller, one [`DictationAction`] at a
//! time, to do the platform work (audio, transcription, injection); the caller
//! answers each action with the matching [`DictationEvent`].
use crate::error::{error_message, CoreError};
use crate::memory::{apply_memory, MemoryModel, MemoryService};
use crate::text::{ascii_lower, chars_of, eq_ignore_ascii_case, trim, trimmed};
use crate::types::{InjectionResult, RecordingState, SecureFieldStatus};
use vstd::prelude::*;

verus! {

broadcast use vstd::string::group_string_axioms;

/// Result of a completed dictation.
#[derive(Debug)]
pub struct DictationOutcome {
    pub result: InjectionResult,
    /// The final (memory-applied) transcript, when one was produced.
    pub transcript: Option<String>,
    /// How long the key was held, in milliseconds (0 when not measured).
    pub duration_ms: i64,
    /// Set when a transcript was produced but injection failed — the caller
    /// should still persist/show it and can fall back to the clipboard.
    pub inject_error: Option<String>,
}

pub struct OutcomeModel {
    pub result: InjectionResult,
    pub transcript: Option<Seq<char>>,
    pub duration_ms: i64,
    pub inject_error: Option<Seq<char>>,
}

pub open spec fn opt_view(o: Option<String>) -> Option<Seq<char>> {
    match o {
        Some(s) => Some(s@),
        None => None,
    }
}

impl View for DictationOutcome {
    type V = OutcomeModel;

    open spec fn view(&self) -> OutcomeModel {
        OutcomeModel {
            result: self.result,
            transcript: opt_view(self.transcript),
            duration_ms: self.duration_ms,
            inject_error: opt_view(self.inject_error),
        }
    }
}

/// What the caller reports back to the coordinator.
pub enum DictationEvent {
    /// The push-to-talk key went down.
    Press,
    /// The push-to-talk key went up, at `now_ms` on the caller's monotonic clock.
    Release { now_ms: u64 },
    /// Reply to [`DictationAction::StartAudio`], with the clock reading once started.
    AudioStarted { result: Result<(), CoreError>, now_ms: u64 },
    /// Reply to [`DictationAction::StopAudio`]: how many samples were captured.
    AudioStopped(Result<usize, CoreError>),
    /// Reply to [`DictationAction::Transcribe`]: the raw transcript.
    Transcribed(Result<String, CoreError>),
    /// Reply to [`DictationAction::CheckSecureField`].
    SecureField(SecureFieldStatus),
    /// Reply to [`DictationAction::Inject`].
    Injected(Result<InjectionResult, CoreError>),
}

/// What the coordinator asks its caller to do next.
#[derive(Debug)]
pub enum DictationAction {
    /// Begin capturing from the default input device.
    StartAudio,
    /// Stop capturing and report the number of buffered samples.
    StopAudio,
    /// Transcribe the buffered samples.
    Transcribe,
    /// Ask the injector whether the focused field is a secure field.
    CheckSecureField,
    /// Type this text into the focused application.
    Inject(String),
    /// The press is handled; this is what `on_press` returns.
    PressDone(Result<(), CoreError>),
    /// The release is handled; this is what `on_release` returns.
    ReleaseDone(Result<DictationOutcome, CoreError>),
    /// The event does not answer the pending request and was dropped.
    Ignored,
}

pub enum EventModel {
    Press,
    Release { now_ms: u64 },
    AudioStarted { result: Result<(), CoreError>, now_ms: u64 },
    AudioStopped(Result<usize, CoreError>),
    Transcribed(Result<Seq<char>, CoreError>),
    SecureField(SecureFieldStatus),
    Injected(Result<InjectionResult, CoreError>),
}

pub enum ActionModel {
    StartAudio,
    StopAudio,
    Transcribe,
    CheckSecureField,
    Inject(Seq<char>),
    PressDone(Result<(), CoreError>),
    ReleaseDone(Result<OutcomeModel, CoreError>),
    Ignored,
}

impl View for DictationEvent {
    type V = EventModel;

    open spec fn view(&self) -> EventModel {
        match self {
            DictationEvent::Press => EventModel::Press,
            DictationEvent::Release { now_ms } => EventModel::Release { now_ms: *now_ms },
            DictationEvent::AudioStarted { result, now_ms } => EventModel::AudioStarted {
                result: *result,
                now_ms: *now_ms,
            },
            DictationEvent::AudioStopped(r) => EventModel::AudioStopped(*r),
            DictationEvent::Transcribed(r) => EventModel::Transcribed(
                match r {
                    Ok(s) => Ok(s@),
                    Err(e) => Err(*e),
                },
            ),
            DictationEvent::SecureField(s) => EventModel::SecureField(*s),
            DictationEvent::Injected(r) => EventModel::Injected(*r),
        }
    }
}

impl View for DictationAction {
    type V = ActionModel;

    open spec fn view(&self) -> ActionModel {
        match self {
            DictationAction::StartAudio => ActionModel::StartAudio,
            DictationAction::StopAudio => ActionModel::StopAudio,
            DictationAction::Transcribe => ActionModel::Transcribe,
            DictationAction::CheckSecureField => ActionModel::CheckSecureField,
            DictationAction::Inject(t) => ActionModel::Inject(t@),
            DictationAction::PressDone(r) => ActionModel::PressDone(*r),
            DictationAction::ReleaseDone(r) => ActionModel::ReleaseDone(
                match r {
                    Ok(o) => Ok(o@),
                    Err(e) => Err(*e),
                },
            ),
            DictationAction::Ignored => ActionModel::Ignored,
        }
    }
}

/// Which reply the coordinator is waiting for.
enum Stage {
    Ready,
    StartingAudio,
    StoppingAudio { duration_ms: i64 },
    Transcribing { duration_ms: i64 },
    CheckingSecure { duration_ms: i64, text: String },
    Injecting { duration_ms: i64, text: String },
}

pub enum StageModel {
    Ready,
    StartingAudio,
    StoppingAudio { duration_ms: i64 },
    Transcribing { duration_ms: i64 },
    CheckingSecure { duration_ms: i64, text: Seq<char> },
    Injecting { duration_ms: i64, text: Seq<char> },
}

spec fn stage_model(s: Stage) -> StageModel {
    match s {
        Stage::Ready => StageModel::Ready,
        Stage::StartingAudio => StageModel::StartingAudio,
        Stage::StoppingAudio { duration_ms } => StageModel::StoppingAudio { duration_ms },
        Stage::Transcribing { duration_ms } => StageModel::Transcribing { duration_ms },
        Stage::CheckingSecure { duration_ms, text } => StageModel::CheckingSecure {
            duration_ms,
            text: text@,
        },
        Stage::Injecting { duration_ms, text } => StageModel::Injecting { duration_ms, text: text@ },
    }
}

pub struct CoordinatorModel {
    pub memory: MemoryModel,
    pub state: RecordingState,
    /// Clock reading when recording started.
    pub started: Option<u64>,
    pub strict_secure: bool,
    pub stage: StageModel,
}

/// Where the dictation loop stands: changed as one value, so that the state,
/// the start time and the pending request always agree.
struct Phase {
    state: RecordingState,
    /// Set once recording started, used to measure how long the key was held.
    started: Option<u64>,
    stage: Stage,
}

pub struct DictationCoordinator {
    memory: MemoryService,
    /// When true, also block injection if the secure status is `Unknown`
    /// (the safe-by-default opt-in where detection is impossible).
    strict_secure: bool,
    phase: Phase,
}

impl View for DictationCoordinator {
    type V = CoordinatorModel;

    closed spec fn view(&self) -> CoordinatorModel {
        CoordinatorModel {
            memory: self.memory@,
            state: self.phase.state,
            started: self.phase.started,
            strict_secure: self.strict_secure,
            stage: stage_model(self.phase.stage),
        }
    }
}

impl DictationCoordinator {
    /// Every coordinator is consistent (see [`consistent`]).
    #[verifier::type_invariant]
    spec fn is_consistent(self) -> bool {
        consistent(self@)
    }
}

// ---------------------------------------------------------------------------
// The transition relation
// ---------------------------------------------------------------------------

/// Milliseconds between `started` and `now` (0 when unknown or negative).
pub open spec fn elapsed_ms(started: Option<u64>, now: u64) -> i64 {
    match started {
        Some(s) => if now < s {
            0
        } else if now - s > i64::MAX {
            i64::MAX
        } else {
            (now - s) as i64
        },
        None => 0,
    }
}

/// whisper.cpp emits placeholder tokens like `[BLANK_AUDIO]` for silence —
/// those mean "nothing said" rather than a real transcript.
pub open spec fn blank_marker(text: Seq<char>) -> bool {
    let t = ascii_lower(trim(text));
    t == ascii_lower("[BLANK_AUDIO]"@) || t == ascii_lower("[ Silence ]"@) || t == ascii_lower(
        "(silence)"@,
    )
}

/// Whether a field with this status must not be typed into.
pub open spec fn blocks_injection(status: SecureFieldStatus, strict: bool) -> bool {
    match status {
        SecureFieldStatus::Secure => true,
        SecureFieldStatus::Unknown => strict,
        SecureFieldStatus::NotSecure => false,
    }
}

pub open spec fn outcome(
    result: InjectionResult,
    transcript: Option<Seq<char>>,
    duration_ms: i64,
    inject_error: Option<Seq<char>>,
) -> OutcomeModel {
    OutcomeModel { result, transcript, duration_ms, inject_error }
}

pub open spec fn with(c: CoordinatorModel, state: RecordingState, stage: StageModel) -> CoordinatorModel {
    CoordinatorModel { state, stage, ..c }
}

/// One step of the dictation loop: the next model and the action to perform.
pub open spec fn transition(c: CoordinatorModel, e: EventModel) -> (CoordinatorModel, ActionModel) {
    match e {
        EventModel::Press => match c.stage {
            StageModel::Ready => if c.state == RecordingState::Idle || c.state
                == RecordingState::Error {
                (with(c, RecordingState::Idle, StageModel::StartingAudio), ActionModel::StartAudio)
            } else {
                (c, ActionModel::PressDone(Ok(())))
            },
            _ => (c, ActionModel::Ignored),
        },
        EventModel::AudioStarted { result, now_ms } => match c.stage {
            StageModel::StartingAudio => match result {
                Ok(()) => (
                    CoordinatorModel {
                        started: Some(now_ms),
                        ..with(c, RecordingState::Recording, StageModel::Ready)
                    },
                    ActionModel::PressDone(Ok(())),
                ),
                Err(err) => (
                    with(c, RecordingState::Error, StageModel::Ready),
                    ActionModel::PressDone(Err(err)),
                ),
            },
            _ => (c, ActionModel::Ignored),
        },
        EventModel::Release { now_ms } => match c.stage {
            StageModel::Ready => if c.state != RecordingState::Recording {
                (c, ActionModel::ReleaseDone(Ok(outcome(InjectionResult::NoTranscript, None, 0, None))))
            } else {
                (
                    CoordinatorModel {
                        started: None,
                        ..with(
                            c,
                            RecordingState::Processing,
                            StageModel::StoppingAudio { duration_ms: elapsed_ms(c.started, now_ms) },
                        )
                    },
                    ActionModel::StopAudio,
                )
            },
            _ => (c, ActionModel::Ignored),
        },
        EventModel::AudioStopped(r) => match c.stage {
            StageModel::StoppingAudio { duration_ms } => match r {
                Err(err) => (
                    with(c, RecordingState::Error, StageModel::Ready),
                    ActionModel::ReleaseDone(Err(err)),
                ),
                Ok(n) => if n == 0 {
                    (
                        with(c, RecordingState::Idle, StageModel::Ready),
                        ActionModel::ReleaseDone(
                            Ok(outcome(InjectionResult::NoTranscript, None, duration_ms, None)),
                        ),
                    )
                } else {
                    (
                        with(c, RecordingState::Processing, StageModel::Transcribing { duration_ms }),
                        ActionModel::Transcribe,
                    )
                },
            },
            _ => (c, ActionModel::Ignored),
        },
        EventModel::Transcribed(r) => match c.stage {
            StageModel::Transcribing { duration_ms } => match r {
                Err(err) => (
                    with(c, RecordingState::Error, StageModel::Ready),
                    ActionModel::ReleaseDone(Err(err)),
                ),
                Ok(raw) => {
                    let text = apply_memory(c.memory, trim(raw));
                    if text.len() == 0 || blank_marker(text) {
                        (
                            with(c, RecordingState::Idle, StageModel::Ready),
                            ActionModel::ReleaseDone(
                                Ok(outcome(InjectionResult::NoTranscript, None, duration_ms, None)),
                            ),
                        )
                    } else {
                        (
                            with(
                                c,
                                RecordingState::Processing,
                                StageModel::CheckingSecure { duration_ms, text },
                            ),
                            ActionModel::CheckSecureField,
                        )
                    }
                },
            },
            _ => (c, ActionModel::Ignored),
        },
        EventModel::SecureField(status) => match c.stage {
            StageModel::CheckingSecure { duration_ms, text } => if blocks_injection(
                status,
                c.strict_secure,
            ) {
                (
                    with(c, RecordingState::Idle, StageModel::Ready),
                    ActionModel::ReleaseDone(
                        Ok(outcome(InjectionResult::BlockedSecureField, None, duration_ms, None)),
                    ),
                )
            } else {
                (
                    with(c, RecordingState::Idle, StageModel::Injecting { duration_ms, text }),
                    ActionModel::Inject(text),
                )
            },
            _ => (c, ActionModel::Ignored),
        },
        EventModel::Injected(r) => match c.stage {
            StageModel::Injecting { duration_ms, text } => match r {
                Ok(result) => (
                    with(c, RecordingState::Idle, StageModel::Ready),
                    ActionModel::ReleaseDone(Ok(outcome(result, Some(text), duration_ms, None))),
                ),
                Err(err) => (
                    with(c, RecordingState::Idle, StageModel::Ready),
                    ActionModel::ReleaseDone(
                        Ok(
                            outcome(
                                InjectionResult::Failed,
                                Some(text),
                                duration_ms,
                                Some(error_message(err)),
                            ),
                        ),
                    ),
                ),
            },
            _ => (c, ActionModel::Ignored),
        },
    }
}

/// The state and the pending request agree: a request is in flight only while
/// processing (or, around the audio start and the injection, while idle), and
/// recording always has a start time.
pub open spec fn consistent(c: CoordinatorModel) -> bool {
    match c.stage {
        StageModel::Ready => c.state != RecordingState::Processing && (c.state
            == RecordingState::Recording ==> c.started is Some),
        StageModel::StartingAudio => c.state == RecordingState::Idle,
        StageModel::StoppingAudio { .. } => c.state == RecordingState::Processing,
        StageModel::Transcribing { .. } => c.state == RecordingState::Processing,
        StageModel::CheckingSecure { .. } => c.state == RecordingState::Processing,
        StageModel::Injecting { .. } => c.state == RecordingState::Idle,
    }
}

fn elapsed(started: Option<u64>, now: u64) -> (d: i64)
    ensures
        d == elapsed_ms(started, now),
{
    match started {
        Some(s) => {
            if now < s {
                0
            } else if now - s > i64::MAX as u64 {
                i64::MAX
            } else {
                (now - s) as i64
            }
        },
        None => 0,
    }
}

/// Whether `text` is (up to surrounding whitespace and ASCII case) one of the
/// silence placeholders whisper.cpp emits.
pub fn is_blank_marker(text: &str) -> (b: bool)
    ensures
        b == blank_marker(text@),
{
    let t = trimmed(text);
    let tc = chars_of(t.as_str());
    eq_ignore_ascii_case(tc.as_slice(), "[BLANK_AUDIO]") || eq_ignore_ascii_case(
        tc.as_slice(),
        "[ Silence ]",
    ) || eq_ignore_ascii_case(tc.as_slice(), "(silence)")
}

fn should_block(status: SecureFieldStatus, strict: bool) -> (b: bool)
    ensures
        b == blocks_injection(status, strict),
{
    match status {
        SecureFieldStatus::Secure => true,
        SecureFieldStatus::Unknown => strict,
        SecureFieldStatus::NotSecure => false,
    }
}

fn no_transcript(duration_ms: i64) -> (a: DictationAction)
    ensures
        a@ == ActionModel::ReleaseDone(
            Ok(outcome(InjectionResult::NoTranscript, None, duration_ms, None)),
        ),
{
    DictationAction::ReleaseDone(
        Ok(
            DictationOutcome {
                result: InjectionResult::NoTranscript,
                transcript: None,
                duration_ms,
                inject_error: None,
            },
        ),
    )
}

impl DictationCoordinator {
    /// An idle coordinator that applies `memory` to every transcript.
    pub fn new(memory: MemoryService) -> (c: Self)
        ensures
            c@.memory == memory@,
            c@.state == RecordingState::Idle,
            c@.started is None,
            !c@.strict_secure,
            c@.stage == StageModel::Ready,
            consistent(c@),
    {
        DictationCoordinator {
            memory,
            strict_secure: false,
            phase: Phase { state: RecordingState::Idle, started: None, stage: Stage::Ready },
        }
    }

    pub fn state(&self) -> (s: RecordingState)
        ensures
            s == self@.state,
            consistent(self@),
    {
        proof {
            use_type_invariant(self);
        }
        self.phase.state
    }

    /// Whether an `Unknown` secure-field status blocks injection.
    pub fn strict_secure(&self) -> (b: bool)
        ensures
            b == self@.strict_secure,
    {
        self.strict_secure
    }

    /// Opt in to blocking injection when the secure-field status is unknown.
    pub fn set_strict_secure(&mut self, strict: bool)
        ensures
            final(self)@ == (CoordinatorModel { strict_secure: strict, ..old(self)@ }),
    {
        proof {
            use_type_invariant(&*self);
        }
        self.strict_secure = strict;
    }

    /// The event a record/stop toggle stands for (a tray or button click):
    /// a release while recording, a press otherwise.
    pub fn toggle_event(&self, now_ms: u64) -> (e: DictationEvent)
        ensures
            self@.state == RecordingState::Recording ==> e@ == (EventModel::Release { now_ms }),
            self@.state != RecordingState::Recording ==> e@ == EventModel::Press,
    {
        match self.phase.state {
            RecordingState::Recording => DictationEvent::Release { now_ms },
            _ => DictationEvent::Press,
        }
    }

    /// Feed one event to the state machine and get the next action.
    pub fn step(&mut self, event: DictationEvent) -> (action: DictationAction)
        ensures
            (final(self)@, action@) == transition(old(self)@, event@),
            consistent(old(self)@),
            consistent(final(self)@),
    {
        proof {
            use_type_invariant(&*self);
        }
        let ghost before = self@;
        let ghost ev = event@;
        let action = match event {
            DictationEvent::Press => self.handle_press(),
            DictationEvent::AudioStarted { result, now_ms } => self.handle_audio_started(
                result,
                now_ms,
            ),
            DictationEvent::Release { now_ms } => self.handle_release(now_ms),
            DictationEvent::AudioStopped(r) => self.handle_audio_stopped(r),
            DictationEvent::Transcribed(r) => self.handle_transcribed(r),
            DictationEvent::SecureField(status) => self.handle_secure_field(status),
            DictationEvent::Injected(r) => self.handle_injected(r),
        };
        proof {
            law_step_keeps_consistency(before, ev);
        }
        action
    }

    fn is_ready(&self) -> (b: bool)
        ensures
            b == (self@.stage == StageModel::Ready),
    {
        match self.phase.stage {
            Stage::Ready => true,
            _ => false,
        }
    }

    fn handle_press(&mut self) -> (action: DictationAction)
        ensures
            (final(self)@, action@) == transition(old(self)@, EventModel::Press),
    {
        if !self.is_ready() {
            return DictationAction::Ignored;
        }
        match self.phase.state {
            RecordingState::Idle | RecordingState::Error => {
                self.phase = Phase {
                    state: RecordingState::Idle,
                    started: self.phase.started,
                    stage: Stage::StartingAudio,
                };
                DictationAction::StartAudio
            },
            _ => DictationAction::PressDone(Ok(())),
        }
    }

    fn handle_audio_started(&mut self, result: Result<(), CoreError>, now_ms: u64) -> (action:
        DictationAction)
        ensures
            (final(self)@, action@) == transition(
                old(self)@,
                EventModel::AudioStarted { result, now_ms },
            ),
    {
        match self.phase.stage {
            Stage::StartingAudio => {},
            _ => {
                return DictationAction::Ignored;
            },
        }
        match result {
            Ok(()) => {
                self.phase = Phase {
                    state: RecordingState::Recording,
                    started: Some(now_ms),
                    stage: Stage::Ready,
                };
                DictationAction::PressDone(Ok(()))
            },
            Err(err) => {
                self.phase = Phase {
                    state: RecordingState::Error,
                    started: self.phase.started,
                    stage: Stage::Ready,
                };
                DictationAction::PressDone(Err(err))
            },
        }
    }

    fn handle_release(&mut self, now_ms: u64) -> (action: DictationAction)
        ensures
            (final(self)@, action@) == transition(old(self)@, EventModel::Release { now_ms }),
    {
        if !self.is_ready() {
            return DictationAction::Ignored;
        }
        match self.phase.state {
            RecordingState::Recording => {},
            _ => {
                return no_transcript(0);
            },
        }
        let duration_ms = elapsed(self.phase.started, now_ms);
        self.phase = Phase {
            state: RecordingState::Processing,
            started: None,
            stage: Stage::StoppingAudio { duration_ms },
        };
        DictationAction::StopAudio
    }

    fn handle_audio_stopped(&mut self, r: Result<usize, CoreError>) -> (action: DictationAction)
        ensures
            (final(self)@, action@) == transition(old(self)@, EventModel::AudioStopped(r)),
    {
        let duration_ms = match self.phase.stage {
            Stage::StoppingAudio { duration_ms } => duration_ms,
            _ => {
                return DictationAction::Ignored;
            },
        };
        let started = self.phase.started;
        match r {
            Err(err) => {
                self.phase = Phase { state: RecordingState::Error, started, stage: Stage::Ready };
                DictationAction::ReleaseDone(Err(err))
            },
            Ok(n) => {
                if n == 0 {
                    self.phase = Phase { state: RecordingState::Idle, started, stage: Stage::Ready };
                    no_transcript(duration_ms)
                } else {
                    self.phase = Phase {
                        state: RecordingState::Processing,
                        started,
                        stage: Stage::Transcribing { duration_ms },
                    };
                    DictationAction::Transcribe
                }
            },
        }
    }

    fn handle_transcribed(&mut self, r: Result<String, CoreError>) -> (action: DictationAction)
        ensures
            (final(self)@, action@) == transition(
                old(self)@,
                EventModel::Transcribed(
                    match r {
                        Ok(s) => Ok(s@),
                        Err(e) => Err(e),
                    },
                ),
            ),
    {
        let duration_ms = match self.phase.stage {
            Stage::Transcribing { duration_ms } => duration_ms,
            _ => {
                return DictationAction::Ignored;
            },
        };
        let started = self.phase.started;
        match r {
            Err(err) => {
                self.phase = Phase { state: RecordingState::Error, started, stage: Stage::Ready };
                DictationAction::ReleaseDone(Err(err))
            },
            Ok(raw) => {
                let t = trimmed(raw.as_str());
                let text = self.memory.apply(t.as_str());
                if text.as_str().is_empty() || is_blank_marker(text.as_str()) {
                    self.phase = Phase { state: RecordingState::Idle, started, stage: Stage::Ready };
                    no_transcript(duration_ms)
                } else {
                    self.phase = Phase {
                        state: RecordingState::Processing,
                        started,
                        stage: Stage::CheckingSecure { duration_ms, text },
                    };
                    DictationAction::CheckSecureField
                }
            },
        }
    }

    /// Take the phase out, leaving an idle, ready one in its place.
    fn take_phase(&mut self) -> (p: Phase)
        ensures
            final(self)@ == (CoordinatorModel {
                state: RecordingState::Idle,
                started: None,
                stage: StageModel::Ready,
                ..old(self)@
            }),
            (CoordinatorModel { state: p.state, started: p.started, stage: stage_model(p.stage), ..old(self)@ })
                == old(self)@,
    {
        let mut p = Phase { state: RecordingState::Idle, started: None, stage: Stage::Ready };
        std::mem::swap(&mut p, &mut self.phase);
        p
    }

    fn handle_secure_field(&mut self, status: SecureFieldStatus) -> (action: DictationAction)
        ensures
            (final(self)@, action@) == transition(old(self)@, EventModel::SecureField(status)),
    {
        match self.phase.stage {
            Stage::CheckingSecure { .. } => {},
            _ => {
                return DictationAction::Ignored;
            },
        }
        let p = self.take_phase();
        match p.stage {
            Stage::CheckingSecure { duration_ms, text } => {
                if should_block(status, self.strict_secure) {
                    self.phase = Phase {
                        state: RecordingState::Idle,
                        started: p.started,
                        stage: Stage::Ready,
                    };
                    DictationAction::ReleaseDone(
                        Ok(
                            DictationOutcome {
                                result: InjectionResult::BlockedSecureField,
                                transcript: None,
                                duration_ms,
                                inject_error: None,
                            },
                        ),
                    )
                } else {
                    let out = text.clone();
                    self.phase = Phase {
                        state: RecordingState::Idle,
                        started: p.started,
                        stage: Stage::Injecting { duration_ms, text },
                    };
                    DictationAction::Inject(out)
                }
            },
            _ => DictationAction::Ignored,
        }
    }

    fn handle_injected(&mut self, r: Result<InjectionResult, CoreError>) -> (action:
        DictationAction)
        ensures
            (final(self)@, action@) == transition(old(self)@, EventModel::Injected(r)),
    {
        match self.phase.stage {
            Stage::Injecting { .. } => {},
            _ => {
                return DictationAction::Ignored;
            },
        }
        let p = self.take_phase();
        match p.stage {
            Stage::Injecting { duration_ms, text } => {
                self.phase = Phase { state: RecordingState::Idle, started: p.started, stage: Stage::Ready };
                match r {
                    Ok(result) => DictationAction::ReleaseDone(
                        Ok(
                            DictationOutcome {
                                result,
                                transcript: Some(text),
                                duration_ms,
                                inject_error: None,
                            },
                        ),
                    ),
                    Err(err) => {
                        let msg = err.message();
                        DictationAction::ReleaseDone(
                            Ok(
                                DictationOutcome {
                                    result: InjectionResult::Failed,
                                    transcript: Some(text),
                                    duration_ms,
                                    inject_error: Some(msg),
                                },
                            ),
                        )
                    },
                }
            },
            _ => DictationAction::Ignored,
        }
    }
}

// ---------------------------------------------------------------------------
// Laws of the dictation loop
// ---------------------------------------------------------------------------

/// Every step keeps the state and the pending request in agreement.
pub proof fn law_step_keeps_consistency(c: CoordinatorModel, e: EventModel)
    requires
        consistent(c),
    ensures
        consistent(transition(c, e).0),
{
}

/// No step changes the Personal Memory or the secure-field policy.
pub proof fn law_step_keeps_memory_and_policy(c: CoordinatorModel, e: EventModel)
    ensures
        transition(c, e).0.memory == c.memory,
        transition(c, e).0.strict_secure == c.strict_secure,
{
}

/// An event that answers nothing pending is dropped without effect.
pub proof fn law_ignored_event_changes_nothing(c: CoordinatorModel, e: EventModel)
    ensures
        transition(c, e).1 is Ignored ==> transition(c, e).0 == c,
{
}

/// Text is only ever typed after a secure-field check whose answer allows it:
/// the injected text is the one the check was made for, and a field reported
/// secure (or unknown, under the strict policy) is never typed into.
pub proof fn law_injection_only_after_allowed_check(c: CoordinatorModel, e: EventModel)
    ensures
        transition(c, e).1 is Inject ==> {
            &&& e matches EventModel::SecureField(status)
            &&& !blocks_injection(status, c.strict_secure)
            &&& c.stage matches StageModel::CheckingSecure { text, .. }
            &&& transition(c, e).1 == ActionModel::Inject(text)
        },
{
}

/// The secure-field policy, for a transcript waiting on the check: a field
/// reported not secure is always typed into, under either policy; a secure
/// field is never typed into; an unknown one is typed into exactly when the
/// strict policy is off.
pub proof fn law_secure_field_policy(c: CoordinatorModel, duration_ms: i64, text: Seq<char>)
    requires
        c.stage == (StageModel::CheckingSecure { duration_ms, text }),
    ensures
        transition(c, EventModel::SecureField(SecureFieldStatus::NotSecure)).1
            == ActionModel::Inject(text),
        transition(c, EventModel::SecureField(SecureFieldStatus::Secure)).1 == ActionModel::ReleaseDone(
            Ok(outcome(InjectionResult::BlockedSecureField, None, duration_ms, None)),
        ),
        (transition(c, EventModel::SecureField(SecureFieldStatus::Unknown)).1
            == ActionModel::Inject(text)) <==> !c.strict_secure,
{
}

/// A secure field blocks injection: the dictation ends as `BlockedSecureField`
/// with no transcript, and the engine is idle again.
pub proof fn law_secure_field_blocks(c: CoordinatorModel, duration_ms: i64, text: Seq<char>)
    requires
        c.stage == (StageModel::CheckingSecure { duration_ms, text }),
    ensures
        transition(c, EventModel::SecureField(SecureFieldStatus::Secure)) == (
            with(c, RecordingState::Idle, StageModel::Ready),
            ActionModel::ReleaseDone(
                Ok(outcome(InjectionResult::BlockedSecureField, None, duration_ms, None)),
            ),
        ),
{
}

/// Releasing the key while not recording does nothing and reports no transcript.
pub proof fn law_release_without_press_is_noop(c: CoordinatorModel, now_ms: u64)
    requires
        c.stage == StageModel::Ready,
        c.state != RecordingState::Recording,
    ensures
        transition(c, EventModel::Release { now_ms }) == (
            c,
            ActionModel::ReleaseDone(Ok(outcome(InjectionResult::NoTranscript, None, 0, None))),
        ),
{
}

/// A press while recording is a no-op; a press after a failure starts a new
/// recording, so one error does not disable dictation.
pub proof fn law_press(c: CoordinatorModel)
    requires
        c.stage == StageModel::Ready,
    ensures
        c.state == RecordingState::Recording ==> transition(c, EventModel::Press) == (
            c,
            ActionModel::PressDone(Ok(())),
        ),
        c.state == RecordingState::Error || c.state == RecordingState::Idle ==> transition(
            c,
            EventModel::Press,
        ) == (with(c, RecordingState::Idle, StageModel::StartingAudio), ActionModel::StartAudio),
{
}

/// A failed capture start, capture stop or transcription puts the engine in
/// `Error` and hands the very error back to the caller.
pub proof fn law_failures_are_reported(c: CoordinatorModel, err: CoreError, now_ms: u64)
    ensures
        c.stage == StageModel::StartingAudio ==> transition(
            c,
            EventModel::AudioStarted { result: Err(err), now_ms },
        ) == (with(c, RecordingState::Error, StageModel::Ready), ActionModel::PressDone(Err(err))),
        c.stage is StoppingAudio ==> transition(c, EventModel::AudioStopped(Err(err))) == (
            with(c, RecordingState::Error, StageModel::Ready),
            ActionModel::ReleaseDone(Err(err)),
        ),
        c.stage is Transcribing ==> transition(c, EventModel::Transcribed(Err(err))) == (
            with(c, RecordingState::Error, StageModel::Ready),
            ActionModel::ReleaseDone(Err(err)),
        ),
{
}

/// A failed injection still hands back the transcript, marked `Failed`, with
/// the error's message, so it can be saved and copied instead of lost.
pub proof fn law_failed_injection_keeps_transcript(
    c: CoordinatorModel,
    duration_ms: i64,
    text: Seq<char>,
    err: CoreError,
)
    requires
        c.stage == (StageModel::Injecting { duration_ms, text }),
    ensures
        transition(c, EventModel::Injected(Err(err))).1 == ActionModel::ReleaseDone(
            Ok(outcome(InjectionResult::Failed, Some(text), duration_ms, Some(error_message(err)))),
        ),
        transition(c, EventModel::Injected(Err(err))).0.state == RecordingState::Idle,
{
}

/// The whole push-to-talk loop from an idle engine: hold the key, speak,
/// release — the caller is asked to start and stop the audio, transcribe, check
/// the field and type, in that order; the text typed is the trimmed transcript
/// with Personal Memory applied; the outcome reports it with the time the key
/// was held, and the engine is idle and ready again.
pub proof fn law_push_to_talk_loop(
    c: CoordinatorModel,
    pressed_ms: u64,
    released_ms: u64,
    samples: usize,
    raw: Seq<char>,
    status: SecureFieldStatus,
    result: InjectionResult,
)
    requires
        c.stage == StageModel::Ready,
        c.state == RecordingState::Idle,
        samples > 0,
        apply_memory(c.memory, trim(raw)).len() > 0,
        !blank_marker(apply_memory(c.memory, trim(raw))),
        !blocks_injection(status, c.strict_secure),
    ensures
        ({
            let text = apply_memory(c.memory, trim(raw));
            let (c1, a1) = transition(c, EventModel::Press);
            let (c2, a2) = transition(c1, EventModel::AudioStarted { result: Ok(()), now_ms: pressed_ms });
            let (c3, a3) = transition(c2, EventModel::Release { now_ms: released_ms });
            let (c4, a4) = transition(c3, EventModel::AudioStopped(Ok(samples)));
            let (c5, a5) = transition(c4, EventModel::Transcribed(Ok(raw)));
            let (c6, a6) = transition(c5, EventModel::SecureField(status));
            let (c7, a7) = transition(c6, EventModel::Injected(Ok(result)));
            &&& a1 == ActionModel::StartAudio
            &&& a2 == ActionModel::PressDone(Ok(()))
            &&& c2.state == RecordingState::Recording
            &&& a3 == ActionModel::StopAudio
            &&& c3.state == RecordingState::Processing
            &&& a4 == ActionModel::Transcribe
            &&& a5 == ActionModel::CheckSecureField
            &&& a6 == ActionModel::Inject(text)
            &&& a7 == ActionModel::ReleaseDone(
                Ok(outcome(result, Some(text), elapsed_ms(Some(pressed_ms), released_ms), None)),
            )
            &&& c7 == CoordinatorModel { started: None, ..c }
        }),
{
}

/// A release of a recording coordinator — every coordinator is consistent, as
/// `state` and `step` ensure — with samples captured and a transcript left
/// after Personal Memory: the caller is asked to stop the audio, transcribe
/// and check the field. A field that blocks injection (secure, or unknown under
/// the strict policy) ends the dictation as `BlockedSecureField` with no
/// transcript and nothing typed; otherwise the memory-applied text is typed
/// once, and the outcome carries it with the injector's result, or `Failed`
/// and the error's message. Either way the engine is idle and ready again.
pub proof fn law_release_from_recording(
    c: CoordinatorModel,
    now_ms: u64,
    samples: usize,
    raw: Seq<char>,
    status: SecureFieldStatus,
    injected: Result<InjectionResult, CoreError>,
)
    requires
        consistent(c),
        c.state == RecordingState::Recording,
        samples > 0,
        apply_memory(c.memory, trim(raw)).len() > 0,
        !blank_marker(apply_memory(c.memory, trim(raw))),
    ensures
        ({
            let text = apply_memory(c.memory, trim(raw));
            let d = elapsed_ms(c.started, now_ms);
            let (c1, a1) = transition(c, EventModel::Release { now_ms });
            let (c2, a2) = transition(c1, EventModel::AudioStopped(Ok(samples)));
            let (c3, a3) = transition(c2, EventModel::Transcribed(Ok(raw)));
            let (c4, a4) = transition(c3, EventModel::SecureField(status));
            let (c5, a5) = transition(c4, EventModel::Injected(injected));
            &&& a1 == ActionModel::StopAudio
            &&& a2 == ActionModel::Transcribe
            &&& a3 == ActionModel::CheckSecureField
            &&& blocks_injection(status, c.strict_secure) ==> {
                &&& a4 == ActionModel::ReleaseDone(
                    Ok(outcome(InjectionResult::BlockedSecureField, None, d, None)),
                )
                &&& c4.state == RecordingState::Idle
                &&& c4.stage == StageModel::Ready
            }
            &&& !blocks_injection(status, c.strict_secure) ==> {
                &&& a4 == ActionModel::Inject(text)
                &&& a5 == ActionModel::ReleaseDone(
                    Ok(
                        match injected {
                            Ok(r) => outcome(r, Some(text), d, None),
                            Err(e) => outcome(
                                InjectionResult::Failed,
                                Some(text),
                                d,
                                Some(error_message(e)),
                            ),
                        },
                    ),
                )
                &&& c5.state == RecordingState::Idle
                &&& c5.stage == StageModel::Ready
            }
        }),
{
}

/// A whole release: after the samples are transcribed and the field allows it,
/// the text typed is the trimmed transcript with Personal Memory applied, and
/// the outcome reports that text together with the injector's result.
pub proof fn law_release_types_memory_applied_transcript(
    c: CoordinatorModel,
    duration_ms: i64,
    raw: Seq<char>,
    status: SecureFieldStatus,
    result: InjectionResult,
)
    requires
        c.stage == (StageModel::Transcribing { duration_ms }),
        apply_memory(c.memory, trim(raw)).len() > 0,
        !blank_marker(apply_memory(c.memory, trim(raw))),
        !blocks_injection(status, c.strict_secure),
    ensures
        ({
            let text = apply_memory(c.memory, trim(raw));
            let (c1, a1) = transition(c, EventModel::Transcribed(Ok(raw)));
            let (c2, a2) = transition(c1, EventModel::SecureField(status));
            let (c3, a3) = transition(c2, EventModel::Injected(Ok(result)));
            &&& a1 == ActionModel::CheckSecureField
            &&& a2 == ActionModel::Inject(text)
            &&& a3 == ActionModel::ReleaseDone(Ok(outcome(result, Some(text), duration_ms, None)))
            &&& c3.state == RecordingState::Idle
            &&& c3.stage == StageModel::Ready
        }),
{
}

} // verus!
