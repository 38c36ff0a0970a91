//! Session-wide laws, stated over [`session_spec`] — the mathematical
//! statement of the loop that [`crate::controller::Controller::run`] and
//! [`crate::controller::Controller::handle_event`] are proved to follow.

use vstd::prelude::*;

use crate::controller::{is_exit_event, model_after_dispatch, session_spec, Controller};
use crate::keys::KeyEvent;
use crate::model::Model;

verus! {

/// Dispatch never moves to another page: no handler performs a page
/// transition today, so the current page is constant over a session.
pub proof fn lemma_dispatch_preserves_page(m: Model, evs: Seq<KeyEvent>)
    ensures
        session_spec(m, evs).0.current_page == m.current_page,
    decreases evs.len(),
{
    if evs.len() > 0 {
        let ev = evs[0];
        if is_exit_event(ev, m.current_page) {
        } else if ev.kind is Press {
            lemma_dispatch_preserves_page(model_after_dispatch(m, ev.code), evs.drop_first());
        } else {
            lemma_dispatch_preserves_page(m, evs.drop_first());
        }
    }
}

/// One render per accepted press: a session fed only press-kind events,
/// none of which meets the exit condition, draws exactly one frame per
/// event and does not exit.  The initial frame drawn by
/// [`crate::controller::Controller::init`] stands outside this count, so a
/// whole session draws one frame more than it accepts events.
pub proof fn lemma_single_render_per_press(m: Model, evs: Seq<KeyEvent>)
    requires
        forall|i: int| 0 <= i < evs.len() ==> (#[trigger] evs[i]).kind is Press,
        forall|i: int| 0 <= i < evs.len() ==> !is_exit_event(#[trigger] evs[i], m.current_page),
    ensures
        session_spec(m, evs).1 == evs.len(),
        !session_spec(m, evs).2,
    decreases evs.len(),
{
    if evs.len() > 0 {
        let m2 = model_after_dispatch(m, evs[0].code);
        assert(m2.current_page == m.current_page);
        assert(forall|i: int| 0 <= i < evs.drop_first().len() ==> (#[trigger] evs.drop_first()[i])
            == evs[i + 1]);
        lemma_single_render_per_press(m2, evs.drop_first());
    }
}

/// Order preservation: the session consumes its input strictly in
/// arrival order, so feeding one batch of events and then another is the
/// same as feeding their concatenation — as long as the first batch did
/// not already end the session.
pub proof fn lemma_session_append(m: Model, a: Seq<KeyEvent>, b: Seq<KeyEvent>)
    requires
        !session_spec(m, a).2,
    ensures
        session_spec(m, a + b).0 == session_spec(session_spec(m, a).0, b).0,
        session_spec(m, a + b).1 == session_spec(m, a).1 + session_spec(session_spec(m, a).0, b).1,
        session_spec(m, a + b).2 == session_spec(session_spec(m, a).0, b).2,
    decreases a.len(),
{
    if a.len() == 0 {
        assert(a + b =~= b);
    } else {
        let ev = a[0];
        assert((a + b)[0] == ev);
        assert((a + b).drop_first() =~= a.drop_first() + b);
        if is_exit_event(ev, m.current_page) {
        } else if ev.kind is Press {
            lemma_session_append(model_after_dispatch(m, ev.code), a.drop_first(), b);
        } else {
            lemma_session_append(m, a.drop_first(), b);
        }
    }
}

/// Non-press inertness: a non-press event that does not meet the exit
/// condition neither mutates the model nor triggers a render — the
/// session runs as if the event had never arrived.
pub proof fn lemma_non_press_inert(m: Model, ev: KeyEvent, rest: Seq<KeyEvent>)
    requires
        ev.kind !is Press,
        !is_exit_event(ev, m.current_page),
    ensures
        session_spec(m, seq![ev] + rest) == session_spec(m, rest),
{
    assert((seq![ev] + rest)[0] == ev);
    assert((seq![ev] + rest).drop_first() =~= rest);
}

/// Exit scoping, on the home page: an Escape-coded event ends the session
/// at once, whatever its kind and whatever follows it, with the model
/// untouched and nothing rendered.
pub proof fn lemma_escape_exits_on_home(m: Model, ev: KeyEvent, rest: Seq<KeyEvent>)
    requires
        m.current_page is HomeEntry,
        ev.code is Esc,
    ensures
        session_spec(m, seq![ev] + rest) == (m, 0nat, true),
{
    assert((seq![ev] + rest)[0] == ev);
}

/// Exit scoping, elsewhere: while any other page is current, no sequence
/// of events ends the session through the exit condition — Escape
/// included — because dispatch never reaches the home page.
pub proof fn lemma_no_exit_off_home(m: Model, evs: Seq<KeyEvent>)
    requires
        m.current_page !is HomeEntry,
    ensures
        !session_spec(m, evs).2,
    decreases evs.len(),
{
    if evs.len() > 0 {
        let ev = evs[0];
        if ev.kind is Press {
            lemma_no_exit_off_home(model_after_dispatch(m, ev.code), evs.drop_first());
        } else {
            lemma_no_exit_off_home(m, evs.drop_first());
        }
    }
}

/// Idempotent render: a rendered frame is a function of the model and
/// the surface dimensions alone, so rendering twice with no model
/// mutation in between yields bit-identical frames.  `synced` is what
/// [`crate::controller::Controller::render`] ensures of the canvas.
pub proof fn lemma_render_idempotent(a: Controller, b: Controller)
    requires
        a.synced(),
        b.synced(),
        a.model == b.model,
        a.canvas.width == b.canvas.width,
        a.canvas.height == b.canvas.height,
    ensures
        a.canvas.frame() == b.canvas.frame(),
{
}

/// Navigation safety: over any event sequence the model stays well
/// formed, so the home selection never leaves the list.  The step-by-step
/// boundary rule itself — clamping at both ends — is the contract of
/// [`crate::model::HomeEntryState::to_previous_item`] and
/// [`crate::model::HomeEntryState::to_next_item`].
pub proof fn lemma_selection_stays_in_bounds(m: Model, evs: Seq<KeyEvent>)
    requires
        m.wf(),
    ensures
        session_spec(m, evs).0.wf(),
    decreases evs.len(),
{
    if evs.len() > 0 {
        let ev = evs[0];
        if is_exit_event(ev, m.current_page) {
        } else if ev.kind is Press {
            lemma_selection_stays_in_bounds(model_after_dispatch(m, ev.code), evs.drop_first());
        } else {
            lemma_selection_stays_in_bounds(m, evs.drop_first());
        }
    }
}

} // verus!
