//! Push-to-talk hotkeys: how a combo is written for the settings screen and for
//! the XDG shortcut portal, how key names map to keyboard codes, and the toggle
//! that turns portal activations into press/release.
use crate::error::CoreError;
use crate::text::{
    append_piece, ascii_lower, ascii_upper_char, chars_of, join_with, lemma_run_len_bounds,
    lemma_run_len_concat, run_len, lowercase, string_from_chars, to_ascii_upper_char,
    to_lowercase, trim, ws_pred,
};
use crate::types::{
    modifier_named, parse_combo, parse_parts, plus_free, split_plus, trim_fn,
    HotkeyCombo, Modifier,
};
use vstd::prelude::*;
use vstd::string::StringExecFns;

verus! {

broadcast use vstd::string::group_string_axioms;

// ---------------------------------------------------------------------------
// Writing combos
// ---------------------------------------------------------------------------

/// How a modifier is written in the settings screen.
pub open spec fn modifier_label(m: Modifier) -> Seq<char> {
    match m {
        Modifier::Ctrl => "Ctrl"@,
        Modifier::Shift => "Shift"@,
        Modifier::Alt => "Alt"@,
        Modifier::Meta => "Meta"@,
    }
}

pub open spec fn label_fn() -> spec_fn(Modifier) -> Seq<char> {
    |m: Modifier| modifier_label(m)
}

/// `Ctrl+Shift+Space`: the modifier labels, then the key, joined by `+`.
pub open spec fn formatted_combo(key: Seq<char>, mods: Seq<Modifier>) -> Seq<char> {
    join_with(mods.map_values(label_fn()).push(key), seq!['+'])
}

/// How a modifier is written in an XDG accelerator.
pub open spec fn xdg_label(m: Modifier) -> Seq<char> {
    match m {
        Modifier::Ctrl => "CTRL"@,
        Modifier::Shift => "SHIFT"@,
        Modifier::Alt => "ALT"@,
        Modifier::Meta => "LOGO"@,
    }
}

pub open spec fn xdg_label_fn() -> spec_fn(Modifier) -> Seq<char> {
    |m: Modifier| xdg_label(m)
}

/// `CTRL+SHIFT+space`: the XDG modifier names, then the lower-cased key.
pub open spec fn xdg_trigger(key: Seq<char>, mods: Seq<Modifier>) -> Seq<char> {
    join_with(mods.map_values(xdg_label_fn()).push(lowercase(key)), seq!['+'])
}

fn label_of(m: Modifier) -> (s: &'static str)
    ensures
        s@ == modifier_label(m),
{
    match m {
        Modifier::Ctrl => "Ctrl",
        Modifier::Shift => "Shift",
        Modifier::Alt => "Alt",
        Modifier::Meta => "Meta",
    }
}

fn xdg_label_of(m: Modifier) -> (s: &'static str)
    ensures
        s@ == xdg_label(m),
{
    match m {
        Modifier::Ctrl => "CTRL",
        Modifier::Shift => "SHIFT",
        Modifier::Alt => "ALT",
        Modifier::Meta => "LOGO",
    }
}

/// The combo as the settings screen shows it, e.g. `Ctrl+Shift+Space`.
pub fn format_combo(combo: &HotkeyCombo) -> (s: String)
    ensures
        s@ == formatted_combo(combo.key@, combo.modifiers@),
{
    let mut out = String::new();
    let ghost labels = combo.modifiers@.map_values(label_fn());
    proof {
        reveal_strlit("+");
        assert(labels.take(0) =~= Seq::<Seq<char>>::empty());
    }
    let mut i: usize = 0;
    while i < combo.modifiers.len()
        invariant
            i <= combo.modifiers.len(),
            labels == combo.modifiers@.map_values(label_fn()),
            out@ == join_with(labels.take(i as int), seq!['+']),
            "+"@ == seq!['+'],
        decreases combo.modifiers.len() - i,
    {
        append_piece(&mut out, Ghost(labels.take(i as int)), i == 0, label_of(combo.modifiers[i]), "+");
        proof {
            assert(labels.take(i as int).push(modifier_label(combo.modifiers@[i as int]))
                =~= labels.take(i + 1));
        }
        i = i + 1;
    }
    proof {
        assert(labels.take(i as int) =~= labels);
    }
    append_piece(&mut out, Ghost(labels), combo.modifiers.len() == 0, combo.key.as_str(), "+");
    out
}

/// An XDG accelerator string (e.g. `CTRL+SHIFT+space`) for the combo, offered
/// as the preferred trigger when the shortcut portal asks the user to bind it.
pub fn combo_to_trigger(combo: &HotkeyCombo) -> (s: String)
    ensures
        s@ == xdg_trigger(combo.key@, combo.modifiers@),
{
    let mut out = String::new();
    let ghost labels = combo.modifiers@.map_values(xdg_label_fn());
    proof {
        reveal_strlit("+");
        assert(labels.take(0) =~= Seq::<Seq<char>>::empty());
    }
    let mut i: usize = 0;
    while i < combo.modifiers.len()
        invariant
            i <= combo.modifiers.len(),
            labels == combo.modifiers@.map_values(xdg_label_fn()),
            out@ == join_with(labels.take(i as int), seq!['+']),
            "+"@ == seq!['+'],
        decreases combo.modifiers.len() - i,
    {
        append_piece(
            &mut out,
            Ghost(labels.take(i as int)),
            i == 0,
            xdg_label_of(combo.modifiers[i]),
            "+",
        );
        proof {
            assert(labels.take(i as int).push(xdg_label(combo.modifiers@[i as int]))
                =~= labels.take(i + 1));
        }
        i = i + 1;
    }
    proof {
        assert(labels.take(i as int) =~= labels);
    }
    let key = to_lowercase(combo.key.as_str());
    append_piece(&mut out, Ghost(labels), combo.modifiers.len() == 0, key.as_str(), "+");
    out
}

// ---------------------------------------------------------------------------
// Round trip: the settings screen writes a combo and reads it back
// ---------------------------------------------------------------------------

/// A key name that survives being written next to modifiers: non-empty,
/// without `+`, without surrounding whitespace, and not a modifier name.
pub open spec fn plain_key_name(key: Seq<char>) -> bool {
    &&& key.len() > 0
    &&& forall|j: int| 0 <= j < key.len() ==> #[trigger] key[j] != '+'
    &&& trim(key) == key
    &&& modifier_named(key) is None
}

proof fn lemma_split_plus_free(x: Seq<char>)
    requires
        forall|j: int| 0 <= j < x.len() ==> #[trigger] x[j] != '+',
    ensures
        split_plus(x) == seq![x],
{
    assert forall|j: int| 0 <= j < x.len() implies #[trigger] plus_free()(x[j]) by {}
    crate::text::lemma_run_len_is(x, plus_free(), x.len() as int);
}

proof fn lemma_split_plus_concat(x: Seq<char>, y: Seq<char>)
    ensures
        split_plus(x + seq!['+'] + y) == split_plus(x) + split_plus(y),
    decreases x.len(),
{
    let s = x + seq!['+'] + y;
    let k = run_len(x, plus_free());
    lemma_run_len_bounds(x, plus_free());
    lemma_run_len_concat(x, seq!['+'] + y, plus_free());
    assert(s =~= x + (seq!['+'] + y));
    if k == x.len() {
        assert((seq!['+'] + y)[0] == '+');
        assert(run_len(seq!['+'] + y, plus_free()) == 0);
        assert(run_len(s, plus_free()) == x.len());
        assert(s.take(k as int) =~= x);
        assert(s.skip(k as int + 1) =~= y);
        assert(x.take(k as int) =~= x);
        assert(split_plus(x) == seq![x]);
        assert(split_plus(s) =~= split_plus(x) + split_plus(y));
    } else {
        assert(run_len(s, plus_free()) == k);
        assert(s.take(k as int) =~= x.take(k as int));
        assert(s.skip(k as int + 1) =~= x.skip(k as int + 1) + seq!['+'] + y);
        lemma_split_plus_concat(x.skip(k as int + 1), y);
        assert(split_plus(s) =~= split_plus(x) + split_plus(y));
    }
}

proof fn lemma_split_plus_join(ps: Seq<Seq<char>>)
    requires
        ps.len() > 0,
        forall|i: int, j: int|
            0 <= i < ps.len() && 0 <= j < ps[i].len() ==> #[trigger] ps[i][j] != '+',
    ensures
        split_plus(join_with(ps, seq!['+'])) == ps,
    decreases ps.len(),
{
    if ps.len() == 1 {
        lemma_split_plus_free(ps[0]);
        assert(ps =~= seq![ps[0]]);
    } else {
        let d = ps.drop_last();
        assert forall|i: int, j: int| 0 <= i < d.len() && 0 <= j < d[i].len() implies #[trigger] d[i][j]
            != '+' by {
            assert(d[i] == ps[i]);
        }
        lemma_split_plus_join(d);
        lemma_split_plus_concat(join_with(d, seq!['+']), ps.last());
        assert forall|j: int| 0 <= j < ps.last().len() implies #[trigger] ps.last()[j] != '+' by {
            assert(ps.last() == ps[ps.len() - 1]);
        }
        lemma_split_plus_free(ps.last());
        assert(d + seq![ps.last()] =~= ps);
    }
}

proof fn lemma_labels()
    ensures
        forall|m: Modifier|
            {
                &&& (#[trigger] modifier_label(m)).len() > 0
                &&& forall|j: int|
                    0 <= j < modifier_label(m).len() ==> #[trigger] modifier_label(m)[j] != '+'
                &&& trim(modifier_label(m)) == modifier_label(m)
                &&& modifier_named(modifier_label(m)) == Some(m)
            },
{
    reveal_strlit("Ctrl");
    reveal_strlit("Shift");
    reveal_strlit("Alt");
    reveal_strlit("Meta");
    reveal_strlit("ctrl");
    reveal_strlit("control");
    reveal_strlit("shift");
    reveal_strlit("alt");
    reveal_strlit("option");
    reveal_strlit("meta");
    reveal_strlit("cmd");
    reveal_strlit("command");
    reveal_strlit("super");
    reveal_strlit("win");
    assert(ascii_lower("Ctrl"@) =~= "ctrl"@);
    assert(ascii_lower("Shift"@) =~= "shift"@);
    assert(ascii_lower("Alt"@) =~= "alt"@);
    assert(ascii_lower("Meta"@) =~= "meta"@);
    assert(ascii_lower("Shift"@) != "ctrl"@);
    assert(ascii_lower("Shift"@) != "control"@);
    assert(ascii_lower("Alt"@) != "ctrl"@);
    assert(ascii_lower("Alt"@) != "control"@);
    assert(ascii_lower("Alt"@) != "shift"@);
    assert(ascii_lower("Meta"@)[0] != "ctrl"@[0]);
    assert(ascii_lower("Meta"@) != "ctrl"@);
    assert(ascii_lower("Meta"@) != "control"@);
    assert(ascii_lower("Meta"@) != "shift"@);
    assert(ascii_lower("Meta"@) != "alt"@);
    assert(ascii_lower("Meta"@) != "option"@);
    assert forall|m: Modifier| trim(#[trigger] modifier_label(m)) == modifier_label(m) by {
        let l = modifier_label(m);
        assert(!ws_pred()(l[0]));
        assert(!ws_pred()(l[l.len() - 1]));
        assert(crate::text::back_run_len(l, ws_pred()) == 0);
        assert(l.subrange(0, l.len() as int) =~= l);
    }
}

proof fn lemma_parse_labels(mods: Seq<Modifier>)
    ensures
        parse_parts(mods.map_values(label_fn()).map_values(trim_fn())) == ("Space"@, mods),
    decreases mods.len(),
{
    lemma_labels();
    let ls = mods.map_values(label_fn()).map_values(trim_fn());
    if mods.len() == 0 {
        assert(ls =~= Seq::<Seq<char>>::empty());
        assert(mods =~= Seq::<Modifier>::empty());
    } else {
        let d = mods.drop_last();
        lemma_parse_labels(d);
        assert(ls.drop_last() =~= d.map_values(label_fn()).map_values(trim_fn()));
        let m = mods.last();
        assert(ls.last() == trim(modifier_label(m)));
        assert(modifier_label(m).len() > 0);
        assert(modifier_named(modifier_label(m)) == Some(m));
        assert(d.push(m) =~= mods);
    }
}

/// Reading back a written combo gives the same combo, for any modifiers and
/// any plain key name (so the settings screen round-trips the push-to-talk key).
pub proof fn law_parse_inverts_format(key: Seq<char>, mods: Seq<Modifier>)
    requires
        plain_key_name(key),
    ensures
        parse_combo(formatted_combo(key, mods)) == (key, mods),
{
    lemma_labels();
    let labels = mods.map_values(label_fn());
    let ps = labels.push(key);
    assert forall|i: int, j: int| 0 <= i < ps.len() && 0 <= j < ps[i].len() implies #[trigger] ps[i][j]
        != '+' by {
        if i < labels.len() {
            assert(ps[i] == modifier_label(mods[i]));
        } else {
            assert(ps[i] == key);
        }
    }
    lemma_split_plus_join(ps);
    let trimmed = ps.map_values(trim_fn());
    assert(trimmed.drop_last() =~= labels.map_values(trim_fn()));
    assert(trimmed.last() == trim(key));
    lemma_parse_labels(mods);
}

// ---------------------------------------------------------------------------
// Key names to keyboard codes
// ---------------------------------------------------------------------------

pub open spec fn is_ascii_alpha(c: char) -> bool {
    ('a' <= c && c <= 'z') || ('A' <= c && c <= 'Z')
}

pub open spec fn is_ascii_digit(c: char) -> bool {
    '0' <= c && c <= '9'
}

/// Our key names as W3C UI Events code names: `a` → `KeyA`, `1` → `Digit1`,
/// `space` → `Space`, `f5` → `F5` (an ASCII first letter is upper-cased).
pub open spec fn key_code_name(key: Seq<char>) -> Seq<char> {
    if key.len() == 1 {
        if is_ascii_alpha(key[0]) {
            "Key"@ + seq![ascii_upper_char(key[0])]
        } else if is_ascii_digit(key[0]) {
            "Digit"@ + seq![key[0]]
        } else {
            key
        }
    } else if key.len() > 0 && (key[0] as u32) < 128 {
        seq![ascii_upper_char(key[0])] + key.drop_first()
    } else {
        key
    }
}

/// A key name of two or more chars keeps its length and every char after the
/// first; only an ASCII first letter is upper-cased. So a name that already is
/// a code name (`PageUp`, `ArrowUp`, `F5`) names itself.
pub proof fn law_long_key_names_keep_their_tail(key: Seq<char>)
    requires
        key.len() >= 2,
    ensures
        key_code_name(key).len() == key.len(),
        forall|i: int| 1 <= i < key.len() ==> #[trigger] key_code_name(key)[i] == key[i],
        key_code_name(key)[0] == ascii_upper_char(key[0]),
        !('a' <= key[0] && key[0] <= 'z') ==> key_code_name(key) == key,
{
    if (key[0] as u32) < 128 {
        let r = seq![ascii_upper_char(key[0])] + key.drop_first();
        assert forall|i: int| 1 <= i < key.len() implies #[trigger] r[i] == key[i] by {
            assert(r[i] == key.drop_first()[i - 1]);
        }
        if !('a' <= key[0] && key[0] <= 'z') {
            assert(r =~= key);
        }
    }
}

/// A single letter or digit names the letter's or digit's key.
pub proof fn law_single_char_key_names(c: char)
    ensures
        'a' <= c <= 'z' || 'A' <= c <= 'Z' ==> key_code_name(seq![c]) == "Key"@ + seq![
            ascii_upper_char(c),
        ],
        '0' <= c <= '9' ==> key_code_name(seq![c]) == "Digit"@ + seq![c],
{
}

/// The code a W3C code name denotes, as `Code::from_str` parses it.
pub uninterp spec fn spec_parse_code(name: Seq<char>) -> Option<global_hotkey::hotkey::Code>;

#[verifier::external_type_specification]
#[verifier::external_body]
pub struct ExCode(global_hotkey::hotkey::Code);

/// Calls `<Code as FromStr>::from_str`; its result is named by `spec_parse_code`.
#[verifier::external_body]
fn parse_code(name: &str) -> (r: Option<global_hotkey::hotkey::Code>)
    ensures
        r == spec_parse_code(name@),
{
    name.parse::<global_hotkey::hotkey::Code>().ok()
}

/// The code name of a key, see [`key_code_name`].
pub fn normalize_key_name(key: &str) -> (s: String)
    ensures
        s@ == key_code_name(key@),
{
    let chars = chars_of(key);
    if chars.len() == 1 {
        let c = chars[0];
        if ('a' <= c && c <= 'z') || ('A' <= c && c <= 'Z') {
            let mut s = String::from_str("Key");
            let mut v: Vec<char> = Vec::new();
            v.push(to_ascii_upper_char(c));
            let tail = string_from_chars(v.as_slice());
            s.append(tail.as_str());
            return s;
        } else if '0' <= c && c <= '9' {
            let mut s = String::from_str("Digit");
            s.append(key);
            proof {
                assert(key@ =~= seq![c]);
            }
            return s;
        } else {
            return String::from_str(key);
        }
    }
    if chars.len() > 0 && (chars[0] as u32) < 128 {
        let mut v: Vec<char> = Vec::new();
        v.push(to_ascii_upper_char(chars[0]));
        let mut i: usize = 1;
        while i < chars.len()
            invariant
                1 <= i <= chars.len(),
                chars@ == key@,
                v@ == seq![ascii_upper_char(chars@[0])] + chars@.subrange(1, i as int),
            decreases chars.len() - i,
        {
            v.push(chars[i]);
            i = i + 1;
            proof {
                assert(v@ =~= seq![ascii_upper_char(chars@[0])] + chars@.subrange(1, i as int));
            }
        }
        proof {
            assert(chars@.subrange(1, chars.len() as int) =~= key@.drop_first());
        }
        string_from_chars(v.as_slice())
    } else {
        String::from_str(key)
    }
}

/// The message of the error for a key that names no code.
pub open spec fn unsupported_key_message(key: Seq<char>) -> Seq<char> {
    "unsupported hotkey key: "@ + key
}

/// The keyboard code of one of our key names.
pub fn key_to_code(key: &str) -> (r: Result<global_hotkey::hotkey::Code, CoreError>)
    ensures
        spec_parse_code(key_code_name(key@)) matches Some(code) ==> r == Ok::<
            global_hotkey::hotkey::Code,
            CoreError,
        >(code),
        spec_parse_code(key_code_name(key@)) is None ==> (r matches Err(CoreError::Hotkey(m))
            && m@ == unsupported_key_message(key@)),
{
    let name = normalize_key_name(key);
    match parse_code(name.as_str()) {
        Some(code) => Ok(code),
        None => {
            let mut m = String::from_str("unsupported hotkey key: ");
            m.append(key);
            Err(CoreError::Hotkey(m))
        },
    }
}

// ---------------------------------------------------------------------------
// Toggle from shortcut activations
// ---------------------------------------------------------------------------

/// Activations closer together than this are one press (a held key repeats).
pub const TOGGLE_DEBOUNCE_MS: u64 = 700;

/// Where a toggle sends push-to-talk.
#[derive(Debug, Clone, Copy, PartialEq, Eq, Structural)]
pub enum ToggleAction {
    /// Start recording (the key went "down").
    Down,
    /// Stop and insert (the key went "up").
    Up,
}

/// Push-to-talk from a shortcut that only reliably reports activations (the
/// GNOME global-shortcuts portal): a fresh activation toggles between down
/// and up; activations within [`TOGGLE_DEBOUNCE_MS`] of the previous one —
/// the repeats of a held key — are absorbed, the window sliding with each.
pub struct ShortcutToggle {
    pub active: bool,
    pub last_activated: Option<u64>,
}

/// Whether an activation at `now` starts a new press.
pub open spec fn fresh_activation(last: Option<u64>, now: u64) -> bool {
    match last {
        None => true,
        Some(t) => now > t && now - t > TOGGLE_DEBOUNCE_MS,
    }
}

impl ShortcutToggle {
    pub fn new() -> (t: Self)
        ensures
            !t.active,
            t.last_activated is None,
    {
        ShortcutToggle { active: false, last_activated: None }
    }

    /// Record an activation at `now_ms` (monotonic milliseconds) and say
    /// which callback, if any, to fire.
    pub fn on_activated(&mut self, now_ms: u64) -> (r: Option<ToggleAction>)
        ensures
            final(self).last_activated == Some(now_ms),
            fresh_activation(old(self).last_activated, now_ms) ==> {
                &&& final(self).active == !old(self).active
                &&& r == Some(if old(self).active { ToggleAction::Up } else { ToggleAction::Down })
            },
            !fresh_activation(old(self).last_activated, now_ms) ==> {
                &&& final(self).active == old(self).active
                &&& r is None
            },
    {
        let fresh = match self.last_activated {
            None => true,
            Some(t) => now_ms > t && now_ms - t > TOGGLE_DEBOUNCE_MS,
        };
        self.last_activated = Some(now_ms);
        if fresh {
            let action = if self.active {
                ToggleAction::Up
            } else {
                ToggleAction::Down
            };
            self.active = !self.active;
            Some(action)
        } else {
            None
        }
    }
}

/// An activation starts a new press exactly when it comes more than
/// [`TOGGLE_DEBOUNCE_MS`] after the previous one, however long the pause: so
/// after any such pause the activation toggles and fires its callback.
pub proof fn law_pause_past_debounce_toggles(active: bool, last: u64, now: u64)
    ensures
        fresh_activation(Some(last), now) <==> now > last + TOGGLE_DEBOUNCE_MS,
        fresh_activation(None, now),
        now > last + TOGGLE_DEBOUNCE_MS ==> run_activations((active, Some(last)), seq![now]) == (
            (!active, Some(now)),
            seq![if active { ToggleAction::Up } else { ToggleAction::Down }],
        ),
{
    let times = seq![now];
    assert(times.drop_last() =~= Seq::<u64>::empty());
    assert(times.last() == now);
    assert(run_activations((active, Some(last)), Seq::<u64>::empty()) == (
        (active, Some(last)),
        Seq::<ToggleAction>::empty(),
    ));
    let fired = if active { ToggleAction::Up } else { ToggleAction::Down };
    assert(Seq::<ToggleAction>::empty().push(fired) =~= seq![fired]);
}

/// What a run of activations does to a toggle: the final toggle and the
/// callbacks fired, in order.
pub open spec fn run_activations(t: (bool, Option<u64>), times: Seq<u64>) -> (
    (bool, Option<u64>),
    Seq<ToggleAction>,
)
    decreases times.len(),
{
    if times.len() == 0 {
        (t, seq![])
    } else {
        let (t1, fired) = run_activations(t, times.drop_last());
        let now = times.last();
        if fresh_activation(t1.1, now) {
            (
                (!t1.0, Some(now)),
                fired.push(if t1.0 { ToggleAction::Up } else { ToggleAction::Down }),
            )
        } else {
            ((t1.0, Some(now)), fired)
        }
    }
}

/// A held key — activations each within the debounce window of the one
/// before — toggles once: only its first activation fires a callback.
pub proof fn law_held_key_toggles_once(active: bool, last: Option<u64>, times: Seq<u64>)
    requires
        times.len() > 0,
        fresh_activation(last, times[0]),
        forall|i: int|
            1 <= i < times.len() ==> !fresh_activation(Some(#[trigger] times[i - 1]), times[i]),
    ensures
        run_activations((active, last), times).1 == seq![
            if active { ToggleAction::Up } else { ToggleAction::Down },
        ],
        run_activations((active, last), times).0 == (!active, Some(times.last())),
    decreases times.len(),
{
    if times.len() == 1 {
        assert(times.drop_last() =~= Seq::<u64>::empty());
        assert(run_activations((active, last), times.drop_last()) == ((active, last), Seq::<
            ToggleAction,
        >::empty()));
        assert(times.last() == times[0]);
    } else {
        let d = times.drop_last();
        assert forall|i: int| 1 <= i < d.len() implies !fresh_activation(
            Some(#[trigger] d[i - 1]),
            d[i],
        ) by {
            assert(d[i - 1] == times[i - 1]);
            assert(d[i] == times[i]);
            assert(!fresh_activation(Some(times[i - 1]), times[i]));
        }
        law_held_key_toggles_once(active, last, d);
        assert(d.last() == times[times.len() - 2]);
        assert(!fresh_activation(Some(times[times.len() - 2]), times[times.len() - 1]));
        assert(!fresh_activation(run_activations((active, last), d).0.1, times.last()));
    }
}

/// Fired callbacks alternate: down, up, down, … starting from the toggle's state.
pub proof fn law_toggle_alternates(active: bool, last: Option<u64>, times: Seq<u64>)
    ensures
        forall|i: int|
            0 <= i < run_activations((active, last), times).1.len() ==> #[trigger] run_activations(
                (active, last),
                times,
            ).1[i] == (if (i % 2 == 0) == active {
                ToggleAction::Up
            } else {
                ToggleAction::Down
            }),
        run_activations((active, last), times).0.0 == (if run_activations(
            (active, last),
            times,
        ).1.len() % 2 == 0 {
            active
        } else {
            !active
        }),
    decreases times.len(),
{
    if times.len() > 0 {
        law_toggle_alternates(active, last, times.drop_last());
    }
}

} // verus!
