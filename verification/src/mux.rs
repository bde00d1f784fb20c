//! The event multiplexer: merges the gateway's two event streams (button
//! activations and form submissions) into one feed ordered by arrival, and
//! decides the one bounded wait of a session, the wait for the title form.

use vstd::prelude::*;

use crate::session::InteractionEvent;

verus! {

/// Upper bound, in time units, on the wait for the title form.
pub const TITLE_WAIT_BOUND: u64 = 30;

/// Which of the gateway's two event streams an event arrived on.
#[derive(Clone, Copy, PartialEq, Eq, Structural, Debug)]
pub enum EventSource {
    Buttons,
    Forms,
}

/// An event stamped with its arrival time and its source stream.
pub struct StampedEvent {
    pub at: u64,
    pub source: EventSource,
    pub event: InteractionEvent,
}

/// Arrival times never decrease along the sequence.
pub open spec fn sorted_by_arrival(s: Seq<StampedEvent>) -> bool {
    forall|i: int, j: int| 0 <= i < j < s.len() ==> s[i].at <= s[j].at
}

/// All events of the sequence arrived on the given stream.
pub open spec fn all_from(s: Seq<StampedEvent>, src: EventSource) -> bool {
    forall|i: int| 0 <= i < s.len() ==> s[i].source == src
}

/// The events of the given stream, in their order.
pub open spec fn of_source(s: Seq<StampedEvent>, src: EventSource) -> Seq<StampedEvent> {
    s.filter(|e: StampedEvent| e.source == src)
}

proof fn lemma_filter_push<A>(s: Seq<A>, pred: spec_fn(A) -> bool, x: A)
    ensures
        pred(x) ==> s.push(x).filter(pred) == s.filter(pred).push(x),
        !pred(x) ==> s.push(x).filter(pred) == s.filter(pred),
{
    reveal(Seq::filter);
    assert(s.push(x).drop_last() =~= s);
    assert(s.push(x).last() == x);
}

/// Merges the two event streams into one feed: every event of either
/// stream appears exactly once, each stream's own order is kept, and the
/// interleaving follows arrival order, with no priority between the two
/// sources. This is the fair, non-starving fan-in the edit loop reads.
pub fn merge_by_arrival(buttons: Vec<StampedEvent>, forms: Vec<StampedEvent>) -> (merged: Vec<
    StampedEvent,
>)
    requires
        sorted_by_arrival(buttons@),
        sorted_by_arrival(forms@),
        all_from(buttons@, EventSource::Buttons),
        all_from(forms@, EventSource::Forms),
    ensures
        sorted_by_arrival(merged@),
        merged@.len() == buttons@.len() + forms@.len(),
        of_source(merged@, EventSource::Buttons) == buttons@,
        of_source(merged@, EventSource::Forms) == forms@,
{
    let ghost b0 = buttons@;
    let ghost f0 = forms@;
    let mut a = buttons;
    let mut b = forms;
    let mut merged: Vec<StampedEvent> = Vec::new();
    proof {
        assert(of_source(merged@, EventSource::Buttons) + a@ =~= b0);
        assert(of_source(merged@, EventSource::Forms) + b@ =~= f0);
    }
    while a.len() > 0 || b.len() > 0
        invariant
            sorted_by_arrival(a@),
            sorted_by_arrival(b@),
            sorted_by_arrival(merged@),
            all_from(a@, EventSource::Buttons),
            all_from(b@, EventSource::Forms),
            of_source(merged@, EventSource::Buttons) + a@ == b0,
            of_source(merged@, EventSource::Forms) + b@ == f0,
            merged@.len() + a@.len() + b@.len() == b0.len() + f0.len(),
            merged@.len() > 0 && a@.len() > 0 ==> merged@.last().at <= a@[0].at,
            merged@.len() > 0 && b@.len() > 0 ==> merged@.last().at <= b@[0].at,
        decreases a.len() + b.len(),
    {
        let take_button = if b.len() == 0 {
            true
        } else if a.len() == 0 {
            false
        } else {
            a[0].at <= b[0].at
        };
        if take_button {
            let ghost a_pre = a@;
            let ghost m_pre = merged@;
            let e = a.remove(0);
            merged.push(e);
            proof {
                lemma_filter_push(m_pre, |ev: StampedEvent| ev.source == EventSource::Buttons, e);
                lemma_filter_push(m_pre, |ev: StampedEvent| ev.source == EventSource::Forms, e);
                assert(of_source(merged@, EventSource::Buttons) + a@ =~= b0);
                assert(of_source(merged@, EventSource::Forms) + b@ =~= f0);
            }
        } else {
            let ghost b_pre = b@;
            let ghost m_pre = merged@;
            let e = b.remove(0);
            merged.push(e);
            proof {
                lemma_filter_push(m_pre, |ev: StampedEvent| ev.source == EventSource::Buttons, e);
                lemma_filter_push(m_pre, |ev: StampedEvent| ev.source == EventSource::Forms, e);
                assert(of_source(merged@, EventSource::Buttons) + a@ =~= b0);
                assert(of_source(merged@, EventSource::Forms) + b@ =~= f0);
            }
        }
    }
    proof {
        assert(of_source(merged@, EventSource::Buttons) =~= b0);
        assert(of_source(merged@, EventSource::Forms) =~= f0);
    }
    merged
}

/// Outcome of the bounded wait for the title form.
pub enum WaitOutcome {
    /// The submission arrived within the bound and is delivered.
    Delivered { event: InteractionEvent },
    /// The bound elapsed first; the session must end with a notice.
    TimedOut,
}

/// Decides the one bounded wait: entering the title-form phase at
/// `entered_at`, with the next form submission of this session arriving
/// as `next_form` (or never), the submission is delivered exactly when it
/// arrives within [`TITLE_WAIT_BOUND`] time units; otherwise the wait
/// times out.
pub fn bounded_title_wait(entered_at: u64, next_form: Option<StampedEvent>) -> (outcome:
    WaitOutcome)
    requires
        entered_at + TITLE_WAIT_BOUND <= u64::MAX,
    ensures
        (match (outcome, next_form) {
            (WaitOutcome::Delivered { event }, Some(s)) => s.at <= entered_at + TITLE_WAIT_BOUND
                && event == s.event,
            (WaitOutcome::TimedOut, Some(s)) => s.at > entered_at + TITLE_WAIT_BOUND,
            (WaitOutcome::TimedOut, None) => true,
            (WaitOutcome::Delivered { .. }, None) => false,
        }),
{
    match next_form {
        Some(s) => {
            if s.at <= entered_at + TITLE_WAIT_BOUND {
                WaitOutcome::Delivered { event: s.event }
            } else {
                WaitOutcome::TimedOut
            }
        },
        None => WaitOutcome::TimedOut,
    }
}

} // verus!
