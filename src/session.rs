//! The document session: one text buffer, the file it is bound to, whether it
//! is untitled or holds unsaved edits, its zoom, and the close gate.
//!
//! Reading and writing files happens outside; the session is handed what a
//! read returned, hands out what to write, and is told how the write went.

use vstd::prelude::*;
use crate::zoom::{
    ZoomStep, FONT_SCALE_DEFAULT, FONT_SCALE_MAX, FONT_SCALE_MIN, ZOOM_PERCENT_DEFAULT,
    ZOOM_PERCENT_MAX, ZOOM_PERCENT_MIN, next_font_scale, next_zoom_percent, step_for,
    step_for_delta, zoom_font_scale, zoom_percent,
};

verus! {

/// Why a file could not be read as text.
#[derive(Clone, Copy, Debug, PartialEq, Eq, Structural)]
pub enum ReadError {
    NotFound,
    PermissionDenied,
    NotText,
    Other,
}

/// Why a file could not be written.
#[derive(Clone, Copy, Debug, PartialEq, Eq, Structural)]
pub enum WriteError {
    PermissionDenied,
    Other,
}

/// What the session answers to a request to close.
#[derive(Clone, Copy, Debug, PartialEq, Eq, Structural)]
pub enum CloseDecision {
    /// Nothing unsaved: the window may close now.
    Allowed,
    /// Unsaved edits: the close waits for the user's choice.
    Deferred,
}

/// The user's answer to the unsaved-changes prompt.
#[derive(Clone, Copy, Debug, PartialEq, Eq, Structural)]
pub enum CloseChoice {
    Save,
    Discard,
    Cancel,
}

/// What the caller does after the prompt was answered.
#[derive(Clone, Copy, Debug, PartialEq, Eq, Structural)]
pub enum CloseAction {
    /// Terminate without writing anything.
    Exit,
    /// Save first, then ask to close again: the close goes through only
    /// when the save succeeded.
    SaveFirst,
    /// Go back to editing.
    Resume,
}

/// The document's state as the user sees it.
#[derive(Clone, Copy, Debug, PartialEq, Eq, Structural)]
pub enum DocState {
    /// Never saved to a chosen path, and no edits since it was opened.
    Untitled,
    /// Bound to a file and holding exactly what was last read or written.
    Clean,
    /// Holding edits that are not on disk.
    Dirty,
}

/// A full-content write of `contents` to the file at `path`.
pub struct WriteRequest {
    pub path: String,
    pub contents: String,
}

/// The abstract state of a session.
pub struct SessionView {
    pub buffer: Seq<char>,
    pub path: Option<Seq<char>>,
    pub is_new: bool,
    pub is_modified: bool,
    /// Thousandths of a point.
    pub font_scale: int,
    pub zoom_percent: int,
    pub close_pending: bool,
}

pub open spec fn opt_view(o: Option<String>) -> Option<Seq<char>> {
    match o {
        Some(s) => Some(s@),
        None => None,
    }
}

/// What every reachable session state satisfies.
pub open spec fn session_inv(v: SessionView) -> bool {
    &&& FONT_SCALE_MIN <= v.font_scale <= FONT_SCALE_MAX
    &&& ZOOM_PERCENT_MIN <= v.zoom_percent <= ZOOM_PERCENT_MAX
    &&& (v.path is None ==> v.is_new)
}

/// A session with an empty untitled buffer and default zoom.
pub open spec fn fresh() -> SessionView {
    SessionView {
        buffer: Seq::empty(),
        path: None,
        is_new: true,
        is_modified: false,
        font_scale: FONT_SCALE_DEFAULT as int,
        zoom_percent: ZOOM_PERCENT_DEFAULT as int,
        close_pending: false,
    }
}

/// After `content` was read from `path`: clean and bound to `path`.
pub open spec fn loaded(v: SessionView, path: Seq<char>, content: Seq<char>) -> SessionView {
    SessionView {
        buffer: content,
        path: Some(path),
        is_new: false,
        is_modified: false,
        ..v
    }
}

/// After "New": empty, untitled, and marked modified.
pub open spec fn new_doc(v: SessionView) -> SessionView {
    SessionView { buffer: Seq::empty(), path: None, is_new: true, is_modified: true, ..v }
}

pub open spec fn edited(v: SessionView, content: Seq<char>) -> SessionView {
    SessionView { buffer: content, is_modified: true, ..v }
}

/// After the buffer was written to `target`: clean and bound to `target`.
/// Whether the document still counts as new is left to the caller (see
/// `DocumentSession::confirm_path`), and a pending close prompt stays as it
/// was.
pub open spec fn saved(v: SessionView, target: Seq<char>) -> SessionView {
    SessionView { path: Some(target), is_modified: false, ..v }
}

/// After the user confirmed the bound path: no longer new once a path is
/// bound.
pub open spec fn path_confirmed(v: SessionView) -> SessionView {
    SessionView { is_new: v.path is None, ..v }
}

/// Applies, in order, the zoom step of each scroll delta.
pub open spec fn zoomed_by_all(v: SessionView, deltas: Seq<core::cmp::Ordering>) -> SessionView
    decreases deltas.len(),
{
    if deltas.len() == 0 {
        v
    } else {
        let prev = zoomed_by_all(v, deltas.drop_last());
        match step_for_delta(deltas.last()) {
            Some(step) => zoomed(prev, step),
            None => prev,
        }
    }
}

/// Where an in-place save writes and what: the bound path and the whole
/// buffer, or nothing when the buffer is untitled and a path must be chosen.
pub open spec fn in_place_target(v: SessionView) -> Option<(Seq<char>, Seq<char>)> {
    match v.path {
        Some(p) => Some((p, v.buffer)),
        None => None,
    }
}

pub open spec fn zoomed(v: SessionView, step: ZoomStep) -> SessionView {
    SessionView {
        font_scale: next_font_scale(v.font_scale, step),
        zoom_percent: next_zoom_percent(v.zoom_percent, step),
        ..v
    }
}

pub open spec fn doc_state(v: SessionView) -> DocState {
    if v.is_modified {
        DocState::Dirty
    } else if v.is_new {
        DocState::Untitled
    } else {
        DocState::Clean
    }
}

pub open spec fn close_decision(v: SessionView) -> CloseDecision {
    if v.is_modified {
        CloseDecision::Deferred
    } else {
        CloseDecision::Allowed
    }
}

pub open spec fn close_requested(v: SessionView) -> SessionView {
    SessionView { close_pending: v.is_modified, ..v }
}

pub open spec fn close_action(choice: CloseChoice) -> CloseAction {
    match choice {
        CloseChoice::Save => CloseAction::SaveFirst,
        CloseChoice::Discard => CloseAction::Exit,
        CloseChoice::Cancel => CloseAction::Resume,
    }
}

pub open spec fn close_resolved(v: SessionView, choice: CloseChoice) -> SessionView {
    match choice {
        CloseChoice::Save => v,
        _ => SessionView { close_pending: false, ..v },
    }
}

/// The single open document of the editor.
pub struct DocumentSession {
    buffer: String,
    path: Option<String>,
    is_new: bool,
    is_modified: bool,
    font_scale: u32,
    zoom_percent: u32,
    close_pending: bool,
}

impl View for DocumentSession {
    type V = SessionView;

    closed spec fn view(&self) -> SessionView {
        SessionView {
            buffer: self.buffer@,
            path: opt_view(self.path),
            is_new: self.is_new,
            is_modified: self.is_modified,
            font_scale: self.font_scale as int,
            zoom_percent: self.zoom_percent as int,
            close_pending: self.close_pending,
        }
    }
}

impl DocumentSession {
    pub open spec fn wf(&self) -> bool {
        session_inv(self@)
    }

    /// An empty untitled session.
    pub fn new() -> (r: Self)
        ensures
            r@ == fresh(),
            r.wf(),
    {
        DocumentSession {
            buffer: String::new(),
            path: None,
            is_new: true,
            is_modified: false,
            font_scale: FONT_SCALE_DEFAULT,
            zoom_percent: ZOOM_PERCENT_DEFAULT,
            close_pending: false,
        }
    }

    /// The session at start-up, given a path named at launch and what reading
    /// it returned: clean on that file when it was read, else empty and
    /// untitled. An empty path names no file.
    pub fn from_launch(path: String, read: Result<String, ReadError>) -> (r: Self)
        ensures
            r.wf(),
            path@.len() == 0 ==> r@ == fresh(),
            path@.len() > 0 ==> match read {
                Ok(content) => r@ == loaded(fresh(), path@, content@),
                Err(_) => r@ == fresh(),
            },
    {
        let mut s = DocumentSession::new();
        if !path.as_str().is_empty() {
            let _ = s.load(path, read);
        }
        s
    }

    /// Takes what reading `path` returned. On success the buffer holds the
    /// file's text and is clean; on failure the error is passed back and the
    /// session is left as it was.
    pub fn load(&mut self, path: String, read: Result<String, ReadError>) -> (r: Result<
        (),
        ReadError,
    >)
        requires
            old(self).wf(),
        ensures
            final(self).wf(),
            match read {
                Ok(content) => r is Ok && final(self)@ == loaded(old(self)@, path@, content@),
                Err(e) => r == Err::<(), ReadError>(e) && final(self)@ == old(self)@,
            },
    {
        match read {
            Ok(content) => {
                self.buffer = content;
                self.path = Some(path);
                self.is_new = false;
                self.is_modified = false;
                Ok(())
            },
            Err(e) => Err(e),
        }
    }

    /// Starts a new untitled document, discarding the buffer.
    pub fn new_document(&mut self)
        requires
            old(self).wf(),
        ensures
            final(self).wf(),
            final(self)@ == new_doc(old(self)@),
    {
        self.buffer = String::new();
        self.path = None;
        self.is_new = true;
        self.is_modified = true;
    }

    /// Replaces the buffer with the user's edit.
    pub fn edit(&mut self, content: String)
        requires
            old(self).wf(),
        ensures
            final(self).wf(),
            final(self)@ == edited(old(self)@, content@),
    {
        self.buffer = content;
        self.is_modified = true;
    }

    /// The write that an in-place save makes, or `None` when the buffer is
    /// untitled and a path has to be chosen first.
    pub fn save_in_place(&self) -> (r: Option<WriteRequest>)
        ensures
            match in_place_target(self@) {
                Some((p, c)) => r matches Some(w) && w.path@ == p && w.contents@ == c,
                None => r is None,
            },
    {
        match &self.path {
            Some(p) => Some(WriteRequest { path: p.clone(), contents: self.buffer.clone() }),
            None => None,
        }
    }

    /// The write that saving the buffer as `target` makes.
    pub fn save_as(&self, target: String) -> (r: WriteRequest)
        ensures
            r.path@ == target@,
            r.contents@ == self@.buffer,
    {
        WriteRequest { path: target, contents: self.buffer.clone() }
    }

    /// Takes how writing the buffer to `target` went. On success the session
    /// is clean and bound to `target`; on failure it is left as it was, still
    /// modified, and the error is passed back.
    pub fn finish_save(&mut self, target: String, outcome: Result<(), WriteError>) -> (r: Result<
        (),
        WriteError,
    >)
        requires
            old(self).wf(),
        ensures
            final(self).wf(),
            r == outcome,
            match outcome {
                Ok(_) => final(self)@ == saved(old(self)@, target@),
                Err(_) => final(self)@ == old(self)@,
            },
    {
        if outcome.is_ok() {
            self.path = Some(target);
            self.is_modified = false;
        }
        outcome
    }

    /// Records that the user chose the bound path, as after a successful
    /// save-as: a document bound to a path is then no longer new.
    pub fn confirm_path(&mut self)
        requires
            old(self).wf(),
        ensures
            final(self).wf(),
            final(self)@ == path_confirmed(old(self)@),
    {
        if self.path.is_some() {
            self.is_new = false;
        }
    }

    /// Applies one frame's scroll-with-modifier events in order. Only the
    /// zoom changes: the buffer, its path and its flags stay as they were.
    pub fn zoom_all(&mut self, deltas: &Vec<core::cmp::Ordering>)
        requires
            old(self).wf(),
        ensures
            final(self).wf(),
            final(self)@ == zoomed_by_all(old(self)@, deltas@),
            final(self)@.is_modified == old(self)@.is_modified,
            final(self)@.buffer == old(self)@.buffer,
            final(self)@.path == old(self)@.path,
            final(self)@.is_new == old(self)@.is_new,
            final(self)@.close_pending == old(self)@.close_pending,
    {
        let ghost start = self@;
        let mut i: usize = 0;
        while i < deltas.len()
            invariant
                self.wf(),
                i <= deltas@.len(),
                self@ == zoomed_by_all(start, deltas@.subrange(0, i as int)),
                self@.is_modified == start.is_modified,
                self@.buffer == start.buffer,
                self@.path == start.path,
                self@.is_new == start.is_new,
                self@.close_pending == start.close_pending,
            decreases deltas.len() - i,
        {
            let ghost before = deltas@.subrange(0, i as int);
            let ghost after = deltas@.subrange(0, i as int + 1);
            assert(after.drop_last() =~= before);
            assert(after.last() == deltas@[i as int]);
            self.zoom(deltas[i]);
            i = i + 1;
        }
        assert(deltas@.subrange(0, deltas@.len() as int) =~= deltas@);
    }

    /// Applies a scroll-with-modifier event, given how its vertical delta
    /// compares with zero: up zooms in, down zooms out, zero does nothing.
    pub fn zoom(&mut self, delta: core::cmp::Ordering)
        requires
            old(self).wf(),
        ensures
            final(self).wf(),
            match step_for_delta(delta) {
                Some(step) => final(self)@ == zoomed(old(self)@, step),
                None => final(self)@ == old(self)@,
            },
    {
        match step_for(delta) {
            Some(step) => {
                self.font_scale = zoom_font_scale(self.font_scale, step);
                self.zoom_percent = zoom_percent(self.zoom_percent, step);
            },
            None => {},
        }
    }

    /// Asks to close. Allowed at once when nothing is unsaved; otherwise the
    /// close prompt is marked pending and the close deferred. Asking again
    /// while the prompt is pending changes nothing.
    pub fn request_close(&mut self) -> (r: CloseDecision)
        requires
            old(self).wf(),
        ensures
            final(self).wf(),
            r == close_decision(old(self)@),
            final(self)@ == close_requested(old(self)@),
    {
        self.close_pending = self.is_modified;
        if self.is_modified {
            CloseDecision::Deferred
        } else {
            CloseDecision::Allowed
        }
    }

    /// Takes the user's answer to the close prompt. Discard and Cancel close
    /// the prompt; Save leaves it open, and the caller asks to close again
    /// once the save is done, which lets the close through only when nothing
    /// is left unsaved.
    pub fn resolve_close(&mut self, choice: CloseChoice) -> (r: CloseAction)
        requires
            old(self).wf(),
        ensures
            final(self).wf(),
            r == close_action(choice),
            final(self)@ == close_resolved(old(self)@, choice),
    {
        match choice {
            CloseChoice::Save => CloseAction::SaveFirst,
            CloseChoice::Discard => {
                self.close_pending = false;
                CloseAction::Exit
            },
            CloseChoice::Cancel => {
                self.close_pending = false;
                CloseAction::Resume
            },
        }
    }

    pub fn state(&self) -> (r: DocState)
        ensures
            r == doc_state(self@),
    {
        if self.is_modified {
            DocState::Dirty
        } else if self.is_new {
            DocState::Untitled
        } else {
            DocState::Clean
        }
    }

    pub fn buffer(&self) -> (r: &String)
        ensures
            r@ == self@.buffer,
    {
        &self.buffer
    }

    pub fn file_path(&self) -> (r: &Option<String>)
        ensures
            opt_view(*r) == self@.path,
    {
        &self.path
    }

    pub fn is_new(&self) -> (r: bool)
        ensures
            r == self@.is_new,
    {
        self.is_new
    }

    pub fn is_modified(&self) -> (r: bool)
        ensures
            r == self@.is_modified,
    {
        self.is_modified
    }

    /// Font scale in thousandths of a point.
    pub fn font_scale(&self) -> (r: u32)
        ensures
            r == self@.font_scale,
    {
        self.font_scale
    }

    pub fn zoom_percent(&self) -> (r: u32)
        ensures
            r == self@.zoom_percent,
    {
        self.zoom_percent
    }

    pub fn close_pending(&self) -> (r: bool)
        ensures
            r == self@.close_pending,
    {
        self.close_pending
    }
}

} // verus!
