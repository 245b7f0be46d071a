//! What the editor's panels decide from the session: the status bar's
//! labels, how an edit in the text area reaches the session, and when the
//! close prompt shows.

use vstd::prelude::*;
use vstd::string::StrSliceExecFns;
use crate::session::{DocumentSession, edited};

verus! {

/// The status bar: file path, saved state, zoom and symbol count.
pub struct BottomBar;

impl BottomBar {
    pub fn new() -> (r: Self) {
        BottomBar
    }

    /// "File: Not saved" while the buffer holds unsaved edits, else
    /// "File: Saved".
    pub fn saved_label(&self, s: &DocumentSession) -> (r: &'static str)
        ensures
            r@ == (if s@.is_modified {
                "File: Not saved"@
            } else {
                "File: Saved"@
            }),
    {
        if s.is_modified() {
            "File: Not saved"
        } else {
            "File: Saved"
        }
    }

    /// The number of characters in the buffer.
    pub fn symbol_count(&self, s: &DocumentSession) -> (r: usize)
        ensures
            r == s@.buffer.len(),
    {
        s.buffer().as_str().unicode_len()
    }
}

/// The text area.
pub struct MainPanel;

impl MainPanel {
    pub fn new() -> (r: Self) {
        MainPanel
    }

    /// Takes the text area's content after a frame: when the widget reports
    /// a change, it becomes the buffer and the session is marked modified;
    /// otherwise nothing changes.
    pub fn apply_edit(&self, s: &mut DocumentSession, changed: bool, text: String)
        requires
            old(s).wf(),
        ensures
            final(s).wf(),
            final(s)@ == (if changed {
                edited(old(s)@, text@)
            } else {
                old(s)@
            }),
    {
        if changed {
            s.edit(text);
        }
    }
}

/// The unsaved-changes prompt shown on close.
pub struct CloseModal;

impl CloseModal {
    pub fn new() -> (r: Self) {
        CloseModal
    }

    /// The prompt shows while a close waits for the user's choice.
    pub fn is_open(&self, s: &DocumentSession) -> (r: bool)
        ensures
            r == s@.close_pending,
    {
        s.close_pending()
    }
}

/// The File menu.
pub struct TopMenu;

impl TopMenu {
    pub fn new() -> (r: Self) {
        TopMenu
    }
}

} // verus!
