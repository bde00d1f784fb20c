//! Session-wide laws: properties of whole runs of the controller, proved
//! over the mathematical step relation [`step_model`].

use vstd::prelude::*;

use crate::document::FieldModel;
use crate::session::EventModel;
use crate::session::OutcomeModel;
use crate::session::Phase;
use crate::session::SessionModel;
use crate::session::accepts;
use crate::session::fresh_session_model;
use crate::session::outcome_model;
use crate::session::step_model;
use crate::session::title_button_id;

verus! {

/// The session state after feeding a sequence of inputs, one at a time,
/// starting from `s`.
pub open spec fn run_model(s: SessionModel, events: Seq<EventModel>) -> SessionModel
    decreases events.len(),
{
    if events.len() == 0 {
        s
    } else {
        step_model(run_model(s, events.drop_last()), events.last())
    }
}

/// `newer` extends `older`: nothing of `older` was removed or reordered.
pub open spec fn extends(older: Seq<FieldModel>, newer: Seq<FieldModel>) -> bool {
    older.len() <= newer.len() && (forall|k: int| 0 <= k < older.len() ==> newer[k] == older[k])
}

/// One step past the first `i` inputs is the state after the first
/// `i + 1` inputs.
pub proof fn lemma_run_unfold(s: SessionModel, events: Seq<EventModel>, i: int)
    requires
        0 <= i < events.len(),
    ensures
        run_model(s, events.take(i + 1)) == step_model(
            run_model(s, events.take(i)),
            events[i],
        ),
{
    assert(events.take(i + 1).drop_last() =~= events.take(i));
    assert(events.take(i + 1).last() == events[i]);
}

/// A step alters the title only on the title-form submission, taken in
/// the phase that awaits it.
pub proof fn lemma_title_change_needs_title_form(s: SessionModel, e: EventModel)
    ensures
        step_model(s, e).document.title != s.document.title ==> s.phase is AwaitingTitleForm
            && e is Form && accepts(s, e),
{
}

/// The phases only ever move forward: prompt, title form, edit loop, end.
pub open spec fn phase_rank(p: Phase) -> int {
    match p {
        Phase::AwaitingTitleButton => 0,
        Phase::AwaitingTitleForm => 1,
        Phase::Editing => 2,
        Phase::Terminated => 3,
    }
}

/// No step moves the phase backwards; in particular no phase is ever
/// re-entered once left.
pub proof fn lemma_step_phase_monotone(s: SessionModel, e: EventModel)
    ensures
        phase_rank(s.phase) <= phase_rank(step_model(s, e).phase),
{
}

/// Along a run, the phase never moves backwards.
pub proof fn lemma_run_phase_monotone(s: SessionModel, events: Seq<EventModel>, i: int, j: int)
    requires
        0 <= i <= j <= events.len(),
    ensures
        phase_rank(run_model(s, events.take(i)).phase) <= phase_rank(
            run_model(s, events.take(j)).phase,
        ),
    decreases j - i,
{
    if i < j {
        lemma_run_phase_monotone(s, events, i, j - 1);
        lemma_run_unfold(s, events, j - 1);
        lemma_step_phase_monotone(run_model(s, events.take(j - 1)), events[j - 1]);
    }
}

/// No step removes or reorders fields: each step's field list extends the
/// previous one.
pub proof fn lemma_step_fields_extend(s: SessionModel, e: EventModel)
    ensures
        extends(s.document.fields, step_model(s, e).document.fields),
{
}

/// Append-only: across a whole run the field list only ever grows, and
/// what was there stays where it was. In particular its length is
/// monotonically non-decreasing and never shrinks.
pub proof fn lemma_run_fields_append_only(s: SessionModel, events: Seq<EventModel>, i: int, j: int)
    requires
        0 <= i <= j <= events.len(),
    ensures
        extends(
            run_model(s, events.take(i)).document.fields,
            run_model(s, events.take(j)).document.fields,
        ),
        run_model(s, events.take(i)).document.fields.len() <= run_model(
            s,
            events.take(j),
        ).document.fields.len(),
    decreases j - i,
{
    if i < j {
        lemma_run_fields_append_only(s, events, i, j - 1);
        lemma_run_unfold(s, events, j - 1);
        lemma_step_fields_extend(run_model(s, events.take(j - 1)), events[j - 1]);
    }
}

/// While the title button or the title form is still awaited, no title
/// has been set. Holds of every state a fresh session can reach.
pub open spec fn title_unset_until_entry(s: SessionModel) -> bool {
    (s.phase is AwaitingTitleButton || s.phase is AwaitingTitleForm)
        ==> s.document.title is None
}

/// The invariant above holds of a fresh session and is preserved by
/// every step.
pub proof fn lemma_title_inv_preserved(s: SessionModel, e: EventModel)
    requires
        title_unset_until_entry(s),
    ensures
        title_unset_until_entry(step_model(s, e)),
{
}

/// Every state a fresh session reaches satisfies the invariant.
pub proof fn lemma_run_title_inv(target: u64, events: Seq<EventModel>, i: int)
    requires
        0 <= i <= events.len(),
    ensures
        title_unset_until_entry(run_model(fresh_session_model(target), events.take(i))),
    decreases i,
{
    if i == 0 {
        assert(events.take(0) =~= Seq::<EventModel>::empty());
    } else {
        lemma_run_title_inv(target, events, i - 1);
        lemma_run_unfold(fresh_session_model(target), events, i - 1);
        lemma_title_inv_preserved(
            run_model(fresh_session_model(target), events.take(i - 1)),
            events[i - 1],
        );
    }
}

/// Sequencing, second half: the title is set at most once per session.
/// If the step after the first `i` inputs changes the title, no later
/// step does.
pub proof fn lemma_title_set_at_most_once(
    target: u64,
    events: Seq<EventModel>,
    i: int,
    j: int,
)
    requires
        0 <= i < j < events.len(),
        step_model(run_model(fresh_session_model(target), events.take(i)), events[i]).document.title
            != run_model(fresh_session_model(target), events.take(i)).document.title,
    ensures
        step_model(run_model(fresh_session_model(target), events.take(j)), events[j]).document.title
            == run_model(fresh_session_model(target), events.take(j)).document.title,
{
    let s0 = fresh_session_model(target);
    let si = run_model(s0, events.take(i));
    let sj = run_model(s0, events.take(j));
    lemma_title_change_needs_title_form(si, events[i]);
    lemma_run_unfold(s0, events, i);
    assert(run_model(s0, events.take(i + 1)).phase is Editing);
    lemma_run_phase_monotone(s0, events, i + 1, j);
    assert(phase_rank(sj.phase) >= phase_rank(Phase::Editing));
    lemma_title_change_needs_title_form(sj, events[j]);
}

/// Sequencing, first half: if a fresh session has reached the phase that
/// awaits the title form, some earlier input was the activation of the
/// initiating title button, taken while that button was awaited.
pub proof fn lemma_title_form_phase_needs_button(target: u64, events: Seq<EventModel>, j: int)
    requires
        0 <= j <= events.len(),
        run_model(fresh_session_model(target), events.take(j)).phase is AwaitingTitleForm,
    ensures
        exists|k: int|
            0 <= k < j && events[k] == (EventModel::Button { control_id: title_button_id() })
                && run_model(
                fresh_session_model(target),
                events.take(k),
            ).phase is AwaitingTitleButton,
    decreases j,
{
    let s0 = fresh_session_model(target);
    if j == 0 {
        assert(events.take(0) =~= Seq::<EventModel>::empty());
        assert(false);
    } else {
        lemma_run_unfold(s0, events, j - 1);
        let prev = run_model(s0, events.take(j - 1));
        if prev.phase is AwaitingTitleForm {
            lemma_title_form_phase_needs_button(target, events, j - 1);
            let k = choose|k: int|
                0 <= k < j - 1 && events[k] == (EventModel::Button {
                    control_id: title_button_id(),
                }) && run_model(s0, events.take(k)).phase is AwaitingTitleButton;
            assert(0 <= k < j && events[k] == (EventModel::Button {
                control_id: title_button_id(),
            }) && run_model(s0, events.take(k)).phase is AwaitingTitleButton);
        } else {
            assert(prev.phase is AwaitingTitleButton);
            assert(accepts(prev, events[j - 1]));
            assert(events[j - 1] == (EventModel::Button { control_id: title_button_id() }));
            assert(0 <= j - 1 < j && events[j - 1] == (EventModel::Button {
                control_id: title_button_id(),
            }) && run_model(s0, events.take(j - 1)).phase is AwaitingTitleButton);
        }
    }
}

/// Sequencing: the first document mutation, the setting of the title,
/// never precedes the activation of the initiating button.
pub proof fn lemma_title_never_precedes_button(target: u64, events: Seq<EventModel>, j: int)
    requires
        0 <= j < events.len(),
        step_model(run_model(fresh_session_model(target), events.take(j)), events[j]).document.title
            != run_model(fresh_session_model(target), events.take(j)).document.title,
    ensures
        exists|k: int|
            0 <= k < j && events[k] == (EventModel::Button { control_id: title_button_id() })
                && run_model(
                fresh_session_model(target),
                events.take(k),
            ).phase is AwaitingTitleButton,
{
    lemma_title_change_needs_title_form(
        run_model(fresh_session_model(target), events.take(j)),
        events[j],
    );
    lemma_title_form_phase_needs_button(target, events, j);
}

/// Exactly-once acknowledgment: every expected interaction event yields
/// an outcome holding exactly one gateway response, and that response
/// carries the event's own acknowledgment token.
pub proof fn lemma_ack_exactly_once(s: SessionModel, e: EventModel, token_id: u64)
    requires
        accepts(s, e),
        !(e is Timeout),
    ensures
        (match outcome_model(s, e, token_id) {
            OutcomeModel::Acted { response, edits } => response.token_id == token_id,
            OutcomeModel::Fault => false,
        }),
{
}

/// An unexpected event is answered by no response at all: the session
/// faults and is aborted instead.
pub proof fn lemma_fault_no_response(s: SessionModel, e: EventModel, token_id: u64)
    requires
        !accepts(s, e),
    ensures
        outcome_model(s, e, token_id) is Fault,
{
}

/// Timeout boundary: the elapsing of the title-form wait terminates the
/// session and leaves the document untouched.
pub proof fn lemma_timeout_terminates(s: SessionModel)
    requires
        s.phase is AwaitingTitleForm,
    ensures
        step_model(s, EventModel::Timeout).phase is Terminated,
        step_model(s, EventModel::Timeout).document == s.document,
{
}

/// Once terminated, a session never mutates its document again, nor
/// moves to any other phase, whatever events still arrive.
pub proof fn lemma_terminated_stable(s: SessionModel, events: Seq<EventModel>)
    requires
        s.phase is Terminated,
    ensures
        run_model(s, events) == s,
    decreases events.len(),
{
    if events.len() > 0 {
        lemma_terminated_stable(s, events.drop_last());
    }
}

/// Timeout boundary, across the whole rest of the run: once the title
/// wait has elapsed, the session is terminated and no later event ever
/// mutates the document again.
pub proof fn lemma_no_mutation_after_timeout(s: SessionModel, events: Seq<EventModel>)
    requires
        s.phase is AwaitingTitleForm,
    ensures
        run_model(step_model(s, EventModel::Timeout), events).phase is Terminated,
        run_model(step_model(s, EventModel::Timeout), events).document == s.document,
{
    lemma_timeout_terminates(s);
    lemma_terminated_stable(step_model(s, EventModel::Timeout), events);
}

} // verus!
