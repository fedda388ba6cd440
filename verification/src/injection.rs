//! Text injection at the cursor: the injector interface, a recording mock,
//! the routing decisions of the system injector, and the pure parts of the
//! Wayland RemoteDesktop-portal typist.
use crate::error::CoreError;
use crate::types::{InjectionResult, SecureFieldStatus};
use vstd::prelude::*;
use vstd::string::StringExecFns;

verus! {

broadcast use vstd::string::group_string_axioms;

/// Something that can type text into the focused application.
pub trait TextInjector {
    /// Make `text` appear at the cursor in the focused application.
    fn inject(&mut self, text: &str) -> Result<InjectionResult, CoreError>;

    /// Best-effort secure/password-field check for the focused element.
    fn is_secure_field_focused(&self) -> SecureFieldStatus;

    /// Human-readable backend name, for diagnostics.
    fn backend_name(&self) -> &'static str;
}

/// A record of what a [`MockTextInjector`] "typed", oldest first.
#[derive(Debug)]
pub struct InjectionLog {
    entries: Vec<String>,
}

impl View for InjectionLog {
    type V = Seq<Seq<char>>;

    closed spec fn view(&self) -> Seq<Seq<char>> {
        self.entries@.map_values(|s: String| s@)
    }
}

impl InjectionLog {
    pub fn new() -> (l: Self)
        ensures
            l@ == Seq::<Seq<char>>::empty(),
    {
        let l = InjectionLog { entries: Vec::new() };
        proof {
            assert(l@ =~= Seq::<Seq<char>>::empty());
        }
        l
    }

    /// The most recently typed text.
    pub fn last(&self) -> (r: Option<String>)
        ensures
            self@.len() == 0 ==> r is None,
            self@.len() > 0 ==> (r matches Some(s) && s@ == self@.last()),
    {
        let n = self.entries.len();
        if n == 0 {
            None
        } else {
            Some(self.entries[n - 1].clone())
        }
    }

    /// Everything typed, oldest first.
    pub fn all(&self) -> (r: Vec<String>)
        ensures
            r@.map_values(|s: String| s@) == self@,
    {
        let mut out: Vec<String> = Vec::new();
        let mut i: usize = 0;
        while i < self.entries.len()
            invariant
                i <= self.entries.len(),
                out.len() == i,
                forall|j: int| 0 <= j < i ==> (#[trigger] out@[j])@ == self.entries@[j]@,
            decreases self.entries.len() - i,
        {
            out.push(self.entries[i].clone());
            i = i + 1;
        }
        proof {
            assert(out@.map_values(|s: String| s@) =~= self@);
        }
        out
    }

    fn push(&mut self, text: &str)
        ensures
            final(self)@ == old(self)@.push(text@),
    {
        self.entries.push(String::from_str(text));
        proof {
            assert(self@ =~= old(self)@.push(text@));
        }
    }
}

/// Records injected text instead of touching the OS. Used by tests and the demo.
#[derive(Debug)]
pub struct MockTextInjector {
    log: InjectionLog,
    secure: SecureFieldStatus,
    fail: bool,
}

pub struct MockInjectorModel {
    pub log: Seq<Seq<char>>,
    pub secure: SecureFieldStatus,
    pub fail: bool,
}

impl View for MockTextInjector {
    type V = MockInjectorModel;

    closed spec fn view(&self) -> MockInjectorModel {
        MockInjectorModel { log: self.log@, secure: self.secure, fail: self.fail }
    }
}

/// The mock after an injection of `text`: the text is logged unless the mock
/// is told to fail.
pub open spec fn after_inject(m: MockInjectorModel, text: Seq<char>) -> MockInjectorModel {
    if m.fail {
        m
    } else {
        MockInjectorModel { log: m.log.push(text), ..m }
    }
}

/// The mock after injecting `texts` in order.
pub open spec fn after_injects(m: MockInjectorModel, texts: Seq<Seq<char>>) -> MockInjectorModel
    decreases texts.len(),
{
    if texts.len() == 0 {
        m
    } else {
        after_inject(after_injects(m, texts.drop_last()), texts.last())
    }
}

/// The log lists every injection in the order made, repeats and empty texts
/// included; a failing mock logs nothing.
pub proof fn law_log_lists_every_injection(m: MockInjectorModel, texts: Seq<Seq<char>>)
    ensures
        !m.fail ==> after_injects(m, texts).log == m.log + texts,
        m.fail ==> after_injects(m, texts).log == m.log,
        after_injects(m, texts).fail == m.fail,
        after_injects(m, texts).secure == m.secure,
    decreases texts.len(),
{
    if texts.len() > 0 {
        law_log_lists_every_injection(m, texts.drop_last());
        assert(m.log + texts.drop_last() + seq![texts.last()] =~= m.log + texts);
        assert((m.log + texts.drop_last()).push(texts.last()) =~= m.log + texts);
    } else {
        assert(m.log + texts =~= m.log);
    }
}

/// The message of the mock's simulated failure.
pub open spec fn mock_failure_message() -> Seq<char> {
    "mock injection failure"@
}

impl MockTextInjector {
    /// A working injector over a field that is not secure.
    pub fn new() -> (m: Self)
        ensures
            m@.log == Seq::<Seq<char>>::empty(),
            m@.secure == SecureFieldStatus::NotSecure,
            !m@.fail,
    {
        MockTextInjector { log: InjectionLog::new(), secure: SecureFieldStatus::NotSecure, fail: false }
    }

    /// Simulate a focused secure field (so the coordinator blocks injection).
    pub fn secure() -> (m: Self)
        ensures
            m@.log == Seq::<Seq<char>>::empty(),
            m@.secure == SecureFieldStatus::Secure,
            !m@.fail,
    {
        MockTextInjector { log: InjectionLog::new(), secure: SecureFieldStatus::Secure, fail: false }
    }

    /// Simulate an unverifiable field (the honest Linux/Wayland answer) so the
    /// strict secure-field policy can be exercised.
    pub fn unknown() -> (m: Self)
        ensures
            m@.log == Seq::<Seq<char>>::empty(),
            m@.secure == SecureFieldStatus::Unknown,
            !m@.fail,
    {
        MockTextInjector { log: InjectionLog::new(), secure: SecureFieldStatus::Unknown, fail: false }
    }

    /// Simulate injection that fails, so the transcript-preserving fallback
    /// can be exercised.
    pub fn failing() -> (m: Self)
        ensures
            m@.log == Seq::<Seq<char>>::empty(),
            m@.secure == SecureFieldStatus::NotSecure,
            m@.fail,
    {
        MockTextInjector { log: InjectionLog::new(), secure: SecureFieldStatus::NotSecure, fail: true }
    }

    /// The injector's own log: every text typed so far, oldest first. It is
    /// the live record, so reading it after further injections shows them too.
    pub fn log(&self) -> (l: &InjectionLog)
        ensures
            l@ == self@.log,
    {
        &self.log
    }
}

impl Default for MockTextInjector {
    fn default() -> (m: Self)
        ensures
            m@.log == Seq::<Seq<char>>::empty(),
            m@.secure == SecureFieldStatus::NotSecure,
            !m@.fail,
    {
        MockTextInjector::new()
    }
}

impl TextInjector for MockTextInjector {
    /// Appends `text` to the log, or fails without logging if told to fail.
    fn inject(&mut self, text: &str) -> (r: Result<InjectionResult, CoreError>)
        ensures
            final(self)@ == after_inject(old(self)@, text@),
            old(self)@.fail ==> (r matches Err(CoreError::Injection(m)) && m@
                == mock_failure_message()) && final(self)@ == old(self)@,
            !old(self)@.fail ==> r == Ok::<InjectionResult, CoreError>(InjectionResult::Success)
                && final(self)@ == (MockInjectorModel {
                    log: old(self)@.log.push(text@),
                    ..old(self)@
                }),
    {
        if self.fail {
            return Err(CoreError::Injection(String::from_str("mock injection failure")));
        }
        self.log.push(text);
        Ok(InjectionResult::Success)
    }

    fn is_secure_field_focused(&self) -> (s: SecureFieldStatus)
        ensures
            s == self@.secure,
    {
        self.secure
    }

    fn backend_name(&self) -> (s: &'static str)
        ensures
            s@ == "mock"@,
    {
        "mock"
    }
}

// ---------------------------------------------------------------------------
// System injector: which way text is typed
// ---------------------------------------------------------------------------

/// How the system injector types a transcript.
#[derive(Debug, Clone, Copy, PartialEq, Eq, Structural)]
pub enum TypingRoute {
    /// The Wayland RemoteDesktop portal session.
    Portal,
    /// The `wtype` tool (Wayland without a granted portal).
    Wtype,
    /// `enigo` (Windows `SendInput`, macOS, X11).
    Enigo,
}

/// The real, OS-selected injector's decisions; the platform layer performs them.
#[derive(Debug, Clone, Copy)]
pub struct SystemTextInjector {
    pub wayland: bool,
    pub portal_ready: bool,
}

impl SystemTextInjector {
    /// An injector for a session that is (or is not) Wayland, with (or
    /// without) a granted RemoteDesktop portal session.
    pub fn new(wayland: bool, portal_ready: bool) -> (s: Self)
        ensures
            s.wayland == wayland,
            s.portal_ready == portal_ready,
    {
        SystemTextInjector { wayland, portal_ready }
    }

    /// How `text` is typed: `None` for empty text (nothing to type, the
    /// injection reports `NoTranscript`); the portal when granted; `wtype` on
    /// Wayland otherwise; `enigo` elsewhere.
    pub fn route(&self, text: &str) -> (r: Option<TypingRoute>)
        ensures
            text@.len() == 0 ==> r is None,
            text@.len() > 0 ==> r == Some(
                if self.portal_ready {
                    TypingRoute::Portal
                } else if self.wayland {
                    TypingRoute::Wtype
                } else {
                    TypingRoute::Enigo
                },
            ),
    {
        if text.is_empty() {
            None
        } else if self.portal_ready {
            Some(TypingRoute::Portal)
        } else if self.wayland {
            Some(TypingRoute::Wtype)
        } else {
            Some(TypingRoute::Enigo)
        }
    }

    /// Human-readable backend name, for diagnostics.
    pub fn backend_name(&self) -> (s: &'static str)
        ensures
            self.wayland ==> s@ == "wtype (Wayland)"@,
            !self.wayland ==> s@ == "enigo (X11)"@,
    {
        if self.wayland {
            "wtype (Wayland)"
        } else {
            "enigo (X11)"
        }
    }

    /// Linux has no reliable per-field secure-input API, so the answer is `Unknown`.
    pub fn is_secure_field_focused(&self) -> (s: SecureFieldStatus)
        ensures
            s == SecureFieldStatus::Unknown,
    {
        SecureFieldStatus::Unknown
    }
}

/// The secure-field status from a UI Automation `IsPassword` query: `None`
/// when the query failed (which always fails toward `Unknown`).
pub fn secure_status_from_query(is_password: Option<bool>) -> (s: SecureFieldStatus)
    ensures
        s == match is_password {
            Some(true) => SecureFieldStatus::Secure,
            Some(false) => SecureFieldStatus::NotSecure,
            None => SecureFieldStatus::Unknown,
        },
{
    match is_password {
        Some(true) => SecureFieldStatus::Secure,
        Some(false) => SecureFieldStatus::NotSecure,
        None => SecureFieldStatus::Unknown,
    }
}

// ---------------------------------------------------------------------------
// Wayland RemoteDesktop portal
// ---------------------------------------------------------------------------

/// The X11 keysym typed for a char: Return for line breaks, Tab, Latin-1 for
/// printable ASCII, and the Unicode keysym range for everything else.
pub open spec fn keysym(ch: char) -> int {
    if ch == '\n' || ch == '\r' {
        0xFF0D
    } else if ch == '\t' {
        0xFF09
    } else if ' ' <= ch && ch <= '~' {
        ch as int
    } else {
        0x0100_0000 + ch as int
    }
}

/// Every printable ASCII char is sent as itself (its Latin-1 keysym); a line
/// break as Return and a tab as Tab; any other char as its Unicode keysym
/// (`0x0100_0000` plus its code point). Distinct chars get distinct keysyms,
/// except that both line-break chars send Return.
pub proof fn law_keysyms(a: char, b: char)
    ensures
        ' ' <= a <= '~' ==> keysym(a) == a as int,
        keysym(a) == keysym(b) ==> a == b || ((a == '\n' || a == '\r') && (b == '\n' || b == '\r')),
        keysym('\n') == keysym('\r'),
        keysym('\n') == 0xFF0D,
        keysym('\t') == 0xFF09,
        !(' ' <= a <= '~') && a != '\n' && a != '\r' && a != '\t' ==> keysym(a) == 0x0100_0000
            + a as int,
{
}

/// Map a character to an X11 keysym for the portal.
pub fn char_to_keysym(ch: char) -> (k: i32)
    ensures
        k as int == keysym(ch),
{
    if ch == '\n' || ch == '\r' {
        0xFF0D
    } else if ch == '\t' {
        0xFF09
    } else {
        let v: u32 = ch as u32;
        if ' ' <= ch && ch <= '~' {
            v as i32
        } else {
            (0x0100_0000u32 + v) as i32
        }
    }
}

/// The restore token to persist after a portal session starts: the new token,
/// unless it is already the saved one.
pub fn restore_token_to_save(saved: &Option<String>, token: &str) -> (r: Option<String>)
    ensures
        match saved {
            Some(s) => if s@ == token@ {
                r is None
            } else {
                r matches Some(t) && t@ == token@
            },
            None => r matches Some(t) && t@ == token@,
        },
{
    match saved {
        Some(s) => {
            if crate::text::same_text(s.as_str(), token) {
                None
            } else {
                Some(String::from_str(token))
            }
        },
        None => Some(String::from_str(token)),
    }
}

/// What typing through the portal returns before any key is sent: the setup
/// error if the session was not granted, `NoTranscript` for empty text, and
/// `None` when the text must be typed.
pub fn portal_precheck(ready: &Result<(), String>, text: &str) -> (r: Option<
    Result<InjectionResult, CoreError>,
>)
    ensures
        match ready {
            Err(e) => (r matches Some(Err(CoreError::Injection(m))) && m@ == e@),
            Ok(()) => if text@.len() == 0 {
                r == Some(Ok::<InjectionResult, CoreError>(InjectionResult::NoTranscript))
            } else {
                r is None
            },
        },
{
    match ready {
        Err(e) => Some(Err(CoreError::Injection(e.clone()))),
        Ok(()) => {
            if text.is_empty() {
                Some(Ok(InjectionResult::NoTranscript))
            } else {
                None
            }
        },
    }
}

/// The injection result for the portal worker's reply: `None` when the worker
/// dropped the request.
pub fn portal_reply(reply: Option<Result<(), String>>) -> (r: Result<InjectionResult, CoreError>)
    ensures
        match reply {
            Some(Ok(())) => r == Ok::<InjectionResult, CoreError>(InjectionResult::Success),
            Some(Err(e)) => (r matches Err(CoreError::Injection(m)) && m@ == e@),
            None => (r matches Err(CoreError::Injection(m)) && m@ == "portal worker dropped"@),
        },
{
    match reply {
        Some(Ok(())) => Ok(InjectionResult::Success),
        Some(Err(e)) => Err(CoreError::Injection(e)),
        None => Err(CoreError::Injection(String::from_str("portal worker dropped"))),
    }
}

} // verus!
