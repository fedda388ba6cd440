//! Clipboard save/restore, used by paste-based injectors and the
//! "preserve clipboard" setting.
use crate::error::CoreError;
use vstd::prelude::*;
use vstd::string::StringExecFns;

verus! {

broadcast use vstd::string::group_string_axioms;

/// A clipboard whose text can be snapshotted and put back.
pub trait Clipboard {
    /// Snapshot the current clipboard so it can be restored later.
    fn save(&mut self) -> Result<(), CoreError>;

    /// Put `text` on the clipboard.
    fn set_text(&mut self, text: &str) -> Result<(), CoreError>;

    /// Read the clipboard's current text, if any.
    fn get_text(&self) -> Result<Option<String>, CoreError>;

    /// Restore the clipboard to the last `save()`.
    fn restore(&mut self) -> Result<(), CoreError>;
}

/// In-memory clipboard for tests and the demo.
#[derive(Debug)]
pub struct MockClipboard {
    current: Option<String>,
    saved: Option<String>,
}

/// The mock's current text and the text saved by the last `save()`.
pub struct ClipboardModel {
    pub current: Option<Seq<char>>,
    pub saved: Option<Seq<char>>,
}

pub open spec fn text_view(o: Option<String>) -> Option<Seq<char>> {
    match o {
        Some(s) => Some(s@),
        None => None,
    }
}

impl View for MockClipboard {
    type V = ClipboardModel;

    closed spec fn view(&self) -> ClipboardModel {
        ClipboardModel { current: text_view(self.current), saved: text_view(self.saved) }
    }
}

/// The clipboard after `save()`.
pub open spec fn after_save(m: ClipboardModel) -> ClipboardModel {
    ClipboardModel { current: m.current, saved: m.current }
}

/// The clipboard after `set_text(text)`.
pub open spec fn after_set(m: ClipboardModel, text: Seq<char>) -> ClipboardModel {
    ClipboardModel { current: Some(text), saved: m.saved }
}

/// The clipboard after `restore()`.
pub open spec fn after_restore(m: ClipboardModel) -> ClipboardModel {
    ClipboardModel { current: m.saved, saved: m.saved }
}

/// The clipboard after `set_text` with each of `texts`, in order.
pub open spec fn after_sets(m: ClipboardModel, texts: Seq<Seq<char>>) -> ClipboardModel
    decreases texts.len(),
{
    if texts.len() == 0 {
        m
    } else {
        after_set(after_sets(m, texts.drop_last()), texts.last())
    }
}

fn copy_text(o: &Option<String>) -> (r: Option<String>)
    ensures
        text_view(r) == text_view(*o),
{
    match o {
        Some(s) => Some(s.clone()),
        None => None,
    }
}

impl MockClipboard {
    /// An empty clipboard with nothing saved.
    pub fn new() -> (c: Self)
        ensures
            c@.current is None,
            c@.saved is None,
    {
        MockClipboard { current: None, saved: None }
    }
}

impl Default for MockClipboard {
    fn default() -> (c: Self)
        ensures
            c@.current is None,
            c@.saved is None,
    {
        MockClipboard::new()
    }
}

impl Clipboard for MockClipboard {
    fn save(&mut self) -> (r: Result<(), CoreError>)
        ensures
            r is Ok,
            final(self)@ == after_save(old(self)@),
    {
        self.saved = copy_text(&self.current);
        Ok(())
    }

    fn set_text(&mut self, text: &str) -> (r: Result<(), CoreError>)
        ensures
            r is Ok,
            final(self)@ == after_set(old(self)@, text@),
    {
        self.current = Some(String::from_str(text));
        Ok(())
    }

    fn get_text(&self) -> (r: Result<Option<String>, CoreError>)
        ensures
            r matches Ok(t) && text_view(t) == self@.current,
    {
        Ok(copy_text(&self.current))
    }

    fn restore(&mut self) -> (r: Result<(), CoreError>)
        ensures
            r is Ok,
            final(self)@ == after_restore(old(self)@),
    {
        self.current = copy_text(&self.saved);
        Ok(())
    }
}

/// Restoring puts back exactly what was on the clipboard at the last save,
/// whatever text was put on it since.
pub proof fn law_restore_undoes_changes_since_save(m: ClipboardModel, texts: Seq<Seq<char>>)
    ensures
        after_restore(after_sets(after_save(m), texts)) == after_save(m),
        after_restore(after_sets(after_save(m), texts)).current == m.current,
    decreases texts.len(),
{
    if texts.len() > 0 {
        law_restore_undoes_changes_since_save(m, texts.drop_last());
    }
}

/// The real OS clipboard; no backend is wired yet, so every call reports
/// `NotImplemented`.
#[derive(Debug, Clone, Copy)]
pub struct SystemClipboard;

/// What the system clipboard reports for every call.
pub open spec fn system_clipboard_error(e: CoreError) -> bool {
    e matches CoreError::NotImplemented(what) && what@ == "system clipboard (Phase 1)"@
}

impl SystemClipboard {
    pub fn new() -> (c: Self) {
        SystemClipboard
    }
}

impl Default for SystemClipboard {
    fn default() -> (c: Self) {
        SystemClipboard::new()
    }
}

impl Clipboard for SystemClipboard {
    fn save(&mut self) -> (r: Result<(), CoreError>)
        ensures
            r matches Err(e) && system_clipboard_error(e),
    {
        Err(CoreError::NotImplemented("system clipboard (Phase 1)"))
    }

    fn set_text(&mut self, text: &str) -> (r: Result<(), CoreError>)
        ensures
            r matches Err(e) && system_clipboard_error(e),
    {
        Err(CoreError::NotImplemented("system clipboard (Phase 1)"))
    }

    fn get_text(&self) -> (r: Result<Option<String>, CoreError>)
        ensures
            r matches Err(e) && system_clipboard_error(e),
    {
        Err(CoreError::NotImplemented("system clipboard (Phase 1)"))
    }

    fn restore(&mut self) -> (r: Result<(), CoreError>)
        ensures
            r matches Err(e) && system_clipboard_error(e),
    {
        Err(CoreError::NotImplemented("system clipboard (Phase 1)"))
    }
}

} // verus!
