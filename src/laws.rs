//! Properties of the session that span several operations.

use vstd::prelude::*;
use crate::session::{
    CloseChoice, CloseDecision, SessionView, close_decision, close_requested, close_resolved,
    edited, in_place_target, loaded, new_doc, saved, session_inv, zoomed,
};
use crate::zoom::{
    ZoomStep, FONT_SCALE_MAX, FONT_SCALE_MIN, ZOOM_PERCENT_MAX, ZOOM_PERCENT_MIN,
};

verus! {

/// One operation on a session that neither saves nor loads.
pub enum Step {
    Edit(Seq<char>),
    NewDocument,
    Zoom(ZoomStep),
    RequestClose,
    ResolveClose(CloseChoice),
}

pub open spec fn apply_step(v: SessionView, step: Step) -> SessionView {
    match step {
        Step::Edit(c) => edited(v, c),
        Step::NewDocument => new_doc(v),
        Step::Zoom(z) => zoomed(v, z),
        Step::RequestClose => close_requested(v),
        Step::ResolveClose(choice) => close_resolved(v, choice),
    }
}

/// The session after the steps, in order.
pub open spec fn run(v: SessionView, steps: Seq<Step>) -> SessionView
    decreases steps.len(),
{
    if steps.len() == 0 {
        v
    } else {
        run(apply_step(v, steps[0]), steps.drop_first())
    }
}

/// A modified session stays modified through any steps that neither save
/// nor load.
pub proof fn modified_persists(v: SessionView, steps: Seq<Step>)
    requires
        v.is_modified,
    ensures
        run(v, steps).is_modified,
    decreases steps.len(),
{
    if steps.len() > 0 {
        modified_persists(apply_step(v, steps[0]), steps.drop_first());
    }
}

/// Once an edit is made, the session is modified after it and after every
/// later step until a save or a load.
pub proof fn edit_marks_modified(v: SessionView, c: Seq<char>, steps: Seq<Step>)
    ensures
        run(v, seq![Step::Edit(c)] + steps).is_modified,
{
    let all = seq![Step::Edit(c)] + steps;
    assert(all.drop_first() =~= steps);
    modified_persists(edited(v, c), steps);
}

/// Saving in place right after a load writes back the loaded text, byte
/// for byte, to the loaded path, and leaves the session clean on it.
pub proof fn load_then_save_round_trip(v: SessionView, path: Seq<char>, content: Seq<char>)
    ensures
        in_place_target(loaded(v, path, content)) == Some((path, content)),
        saved(loaded(v, path, content), path).buffer == content,
        saved(loaded(v, path, content), path).path == Some(path),
        !saved(loaded(v, path, content), path).is_modified,
{
}

/// "New" gives an empty, untitled, modified buffer whatever came before,
/// and keeps the session well formed.
pub proof fn new_document_resets(v: SessionView)
    requires
        session_inv(v),
    ensures
        new_doc(v).is_new,
        new_doc(v).is_modified,
        new_doc(v).buffer.len() == 0,
        new_doc(v).path is None,
        session_inv(new_doc(v)),
{
}

/// A close goes through at once exactly when nothing is unsaved. Otherwise
/// the prompt becomes pending, asking again keeps it so, and only an answer
/// to the prompt or a successful save closes it.
pub proof fn close_gate(v: SessionView)
    ensures
        !v.is_modified ==> close_decision(v) == CloseDecision::Allowed
            && !close_requested(v).close_pending,
        v.is_modified ==> close_decision(v) == CloseDecision::Deferred
            && close_requested(v).close_pending,
        close_requested(close_requested(v)) == close_requested(v),
        v.is_modified ==> close_decision(close_requested(v)) == CloseDecision::Deferred,
{
}

/// Whether a step answers the close prompt by discarding or cancelling.
pub open spec fn dismisses_prompt(step: Step) -> bool {
    match step {
        Step::ResolveClose(choice) => choice != CloseChoice::Save,
        _ => false,
    }
}

/// A pending close prompt stays pending through any steps, short of a save
/// or a load, until it is answered with Discard or Cancel.
pub proof fn close_pending_persists(v: SessionView, steps: Seq<Step>)
    requires
        v.close_pending,
        v.is_modified,
        forall|i: int| 0 <= i < steps.len() ==> !dismisses_prompt(#[trigger] steps[i]),
    ensures
        run(v, steps).close_pending,
    decreases steps.len(),
{
    if steps.len() > 0 {
        let rest = steps.drop_first();
        assert forall|i: int| 0 <= i < rest.len() implies !dismisses_prompt(#[trigger] rest[i]) by {
            assert(rest[i] == steps[i + 1]);
        }
        assert(!dismisses_prompt(steps[0]));
        close_pending_persists(apply_step(v, steps[0]), rest);
    }
}

/// After a successful save, asking to close is allowed at once.
pub proof fn close_allowed_after_save(v: SessionView, target: Seq<char>)
    ensures
        close_decision(saved(v, target)) == CloseDecision::Allowed,
{
}

/// The session after `n` steps of zoom the same way.
pub open spec fn zoom_repeated(v: SessionView, step: ZoomStep, n: nat) -> SessionView
    decreases n,
{
    if n == 0 {
        v
    } else {
        zoomed(zoom_repeated(v, step, (n - 1) as nat), step)
    }
}

/// However many times one zooms in or out, the font scale and the zoom
/// percentage stay within their bounds, clamped at the ends.
pub proof fn zoom_stays_bounded(v: SessionView, step: ZoomStep, n: nat)
    requires
        session_inv(v),
    ensures
        session_inv(zoom_repeated(v, step, n)),
        FONT_SCALE_MIN <= zoom_repeated(v, step, n).font_scale <= FONT_SCALE_MAX,
        ZOOM_PERCENT_MIN <= zoom_repeated(v, step, n).zoom_percent <= ZOOM_PERCENT_MAX,
    decreases n,
{
    if n > 0 {
        zoom_stays_bounded(v, step, (n - 1) as nat);
    }
}

} // verus!
