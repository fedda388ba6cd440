//! Shared domain types: dictation states, injection outcomes, hotkey combos.
use crate::text::{
    ascii_lower, chars_of, eq_ignore_ascii_case, lemma_run_len_is, run_len, trim, trim_bounds,
};
use vstd::prelude::*;
use vstd::string::StrSliceExecFns;
use vstd::string::StringExecFns;

verus! {

broadcast use vstd::string::group_string_axioms;

/// Target sample rate for the transcription engine (Whisper expects 16 kHz mono).
pub const TARGET_SAMPLE_RATE: u32 = 16_000;

/// Hard recording cap, in seconds.
pub const MAX_RECORDING_SECS: u32 = 45;

/// When the countdown warning starts, in seconds.
pub const COUNTDOWN_WARNING_SECS: u32 = 35;

/// Where the dictation state machine currently is. Drives the tray icon and panel.
#[derive(Debug, Clone, Copy, PartialEq, Eq, Structural)]
pub enum RecordingState {
    Idle,
    Recording,
    Processing,
    Error,
}

/// Outcome of a text-injection attempt.
#[derive(Debug, Clone, Copy, PartialEq, Eq, Structural)]
pub enum InjectionResult {
    Success,
    BlockedSecureField,
    NoTranscript,
    /// A transcript was produced but typing it into the focused app failed.
    Failed,
}

/// Whether the focused field is a secure/password field. `Unknown` is the honest
/// answer where no reliable detection API exists.
#[derive(Debug, Clone, Copy, PartialEq, Eq, Structural)]
pub enum SecureFieldStatus {
    Secure,
    NotSecure,
    Unknown,
}

/// Speed/accuracy preset, mapped to concrete decoding parameters by the engine.
#[derive(Debug, Clone, Copy, PartialEq, Eq, Structural)]
pub enum DecodePreset {
    Fast,
    Balanced,
    Accuracy,
}

impl Default for DecodePreset {
    fn default() -> (r: Self)
        ensures
            r == DecodePreset::Balanced,
    {
        DecodePreset::Balanced
    }
}

/// A keyboard modifier for a global hotkey.
#[derive(Debug, Clone, Copy, PartialEq, Eq, Structural)]
pub enum Modifier {
    Ctrl,
    Shift,
    Alt,
    Meta,
}

/// A global hotkey combination, e.g. Ctrl+Shift+Space for push-to-talk.
#[derive(Debug, Clone, PartialEq, Eq)]
pub struct HotkeyCombo {
    pub key: String,
    pub modifiers: Vec<Modifier>,
}

/// Identifies an audio input device by its backend-specific name.
#[derive(Debug, Clone, PartialEq, Eq)]
pub struct DeviceId(pub String);

impl Default for HotkeyCombo {
    /// The default push-to-talk chord, Ctrl+Shift+Space.
    fn default() -> (r: Self)
        ensures
            r.key@ == "Space"@,
            r.modifiers@ == seq![Modifier::Ctrl, Modifier::Shift],
    {
        let mut modifiers: Vec<Modifier> = Vec::new();
        modifiers.push(Modifier::Ctrl);
        modifiers.push(Modifier::Shift);
        HotkeyCombo { key: String::from_str("Space"), modifiers }
    }
}

// ---------------------------------------------------------------------------
// Parsing "Ctrl+Shift+Space"
// ---------------------------------------------------------------------------

pub open spec fn plus_free() -> spec_fn(char) -> bool {
    |c: char| c != '+'
}

/// The pieces of `s` between `'+'` separators (what `str::split('+')` yields).
pub open spec fn split_plus(s: Seq<char>) -> Seq<Seq<char>>
    decreases s.len(),
{
    let p = run_len(s, plus_free());
    if p >= s.len() {
        seq![s]
    } else {
        seq![s.take(p as int)] + split_plus(s.skip(p as int + 1))
    }
}

/// The modifier a name stands for, compared after ASCII lower-casing.
pub open spec fn modifier_named(p: Seq<char>) -> Option<Modifier> {
    let l = ascii_lower(p);
    if l == "ctrl"@ || l == "control"@ {
        Some(Modifier::Ctrl)
    } else if l == "shift"@ {
        Some(Modifier::Shift)
    } else if l == "alt"@ || l == "option"@ {
        Some(Modifier::Alt)
    } else if l == "meta"@ || l == "cmd"@ || l == "command"@ || l == "super"@ || l == "win"@ {
        Some(Modifier::Meta)
    } else {
        None
    }
}

/// One trimmed piece folded into `(key, modifiers)`: empty pieces are skipped,
/// modifier names are appended, anything else becomes the key.
pub open spec fn parse_step(acc: (Seq<char>, Seq<Modifier>), part: Seq<char>) -> (
    Seq<char>,
    Seq<Modifier>,
) {
    if part.len() == 0 {
        acc
    } else {
        match modifier_named(part) {
            Some(m) => (acc.0, acc.1.push(m)),
            None => (part, acc.1),
        }
    }
}

pub open spec fn parse_parts(parts: Seq<Seq<char>>) -> (Seq<char>, Seq<Modifier>)
    decreases parts.len(),
{
    if parts.len() == 0 {
        ("Space"@, seq![])
    } else {
        parse_step(parse_parts(parts.drop_last()), parts.last())
    }
}

pub open spec fn trim_fn() -> spec_fn(Seq<char>) -> Seq<char> {
    |p: Seq<char>| trim(p)
}

/// `(key, modifiers)` of the combo written as `s`.
pub open spec fn parse_combo(s: Seq<char>) -> (Seq<char>, Seq<Modifier>) {
    parse_parts(split_plus(s).map_values(trim_fn()))
}

pub proof fn lemma_split_plus_piece(s: Seq<char>, start: int, e: int)
    requires
        0 <= start <= e <= s.len(),
        forall|j: int| start <= j < e ==> #[trigger] s[j] != '+',
        e == s.len() || s[e] == '+',
    ensures
        e == s.len() ==> split_plus(s.skip(start)) == seq![s.subrange(start, e)],
        e < s.len() ==> split_plus(s.skip(start)) == seq![s.subrange(start, e)] + split_plus(
            s.skip(e + 1),
        ),
{
    let t = s.skip(start);
    assert forall|j: int| 0 <= j < e - start implies #[trigger] plus_free()(t[j]) by {
        assert(t[j] == s[start + j]);
    }
    if e < s.len() {
        assert(t[e - start] == s[e]);
    }
    lemma_run_len_is(t, plus_free(), e - start);
    if e == s.len() {
        assert(t =~= s.subrange(start, e));
    } else {
        assert(t.take(e - start) =~= s.subrange(start, e));
        assert(t.skip(e - start + 1) =~= s.skip(e + 1));
    }
}

/// The modifier a name stands for (ASCII case-insensitive), if any.
pub fn modifier_from_name(p: &[char]) -> (m: Option<Modifier>)
    ensures
        m == modifier_named(p@),
{
    proof {
        reveal_strlit("ctrl");
        reveal_strlit("control");
        reveal_strlit("shift");
        reveal_strlit("alt");
        reveal_strlit("option");
        reveal_strlit("meta");
        reveal_strlit("cmd");
        reveal_strlit("command");
        reveal_strlit("super");
        reveal_strlit("win");
        assert(ascii_lower("ctrl"@) =~= "ctrl"@);
        assert(ascii_lower("control"@) =~= "control"@);
        assert(ascii_lower("shift"@) =~= "shift"@);
        assert(ascii_lower("alt"@) =~= "alt"@);
        assert(ascii_lower("option"@) =~= "option"@);
        assert(ascii_lower("meta"@) =~= "meta"@);
        assert(ascii_lower("cmd"@) =~= "cmd"@);
        assert(ascii_lower("command"@) =~= "command"@);
        assert(ascii_lower("super"@) =~= "super"@);
        assert(ascii_lower("win"@) =~= "win"@);
    }
    if eq_ignore_ascii_case(p, "ctrl") || eq_ignore_ascii_case(p, "control") {
        Some(Modifier::Ctrl)
    } else if eq_ignore_ascii_case(p, "shift") {
        Some(Modifier::Shift)
    } else if eq_ignore_ascii_case(p, "alt") || eq_ignore_ascii_case(p, "option") {
        Some(Modifier::Alt)
    } else if eq_ignore_ascii_case(p, "meta") || eq_ignore_ascii_case(p, "cmd")
        || eq_ignore_ascii_case(p, "command") || eq_ignore_ascii_case(p, "super")
        || eq_ignore_ascii_case(p, "win") {
        Some(Modifier::Meta)
    } else {
        None
    }
}

impl HotkeyCombo {
    /// Best-effort parse of a `"Ctrl+Shift+Space"`-style string: pieces between
    /// `+` are trimmed, empty pieces are skipped, modifier names (any ASCII case)
    /// collect in order, and the last other piece is the key (`"Space"` if none).
    pub fn parse(s: &str) -> (c: HotkeyCombo)
        ensures
            (c.key@, c.modifiers@) == parse_combo(s@),
    {
        let chars = chars_of(s);
        let n = chars.len();
        let mut modifiers: Vec<Modifier> = Vec::new();
        let mut key = String::from_str("Space");
        let mut start: usize = 0;
        let ghost mut done: Seq<Seq<char>> = seq![];
        proof {
            assert(chars@.skip(0) =~= chars@);
            assert(done + split_plus(chars@.skip(0)) =~= split_plus(chars@));
            assert(done.map_values(trim_fn()) =~= Seq::<Seq<char>>::empty());
        }
        loop
            invariant
                start <= n,
                n == chars.len(),
                chars@ == s@,
                done + split_plus(chars@.skip(start as int)) == split_plus(chars@),
                (key@, modifiers@) == parse_parts(done.map_values(trim_fn())),
            decreases n - start,
        {
            let mut e = start;
            while e < n && chars[e] != '+'
                invariant
                    start <= e <= n,
                    n == chars.len(),
                    forall|j: int| start <= j < e ==> #[trigger] chars@[j] != '+',
                decreases n - e,
            {
                e = e + 1;
            }
            proof {
                lemma_split_plus_piece(chars@, start as int, e as int);
            }
            let piece = vstd::slice::slice_subrange(chars.as_slice(), start, e);
            let (a, b) = trim_bounds(piece);
            let part = vstd::slice::slice_subrange(piece, a, b);
            let ghost old_done = done;
            let ghost trimmed_done = done.map_values(trim_fn());
            if part.len() > 0 {
                match modifier_from_name(part) {
                    Some(m) => {
                        modifiers.push(m);
                    },
                    None => {
                        let t = s.substring_char(start + a, start + b);
                        proof {
                            assert(t@ =~= part@);
                        }
                        key = String::from_str(t);
                    },
                }
            }
            proof {
                done = done.push(piece@);
                assert(done.map_values(trim_fn()) =~= trimmed_done.push(trim(piece@)));
                assert(done.map_values(trim_fn()).drop_last() =~= trimmed_done);
                assert(trim_fn()(piece@) == trim(piece@));
            }
            if e == n {
                proof {
                    assert(done =~= split_plus(chars@));
                }
                return HotkeyCombo { key, modifiers };
            }
            proof {
                assert(done + split_plus(chars@.skip(e + 1)) =~= old_done + split_plus(
                    chars@.skip(start as int),
                ));
            }
            start = e + 1;
        }
    }
}

} // verus!
