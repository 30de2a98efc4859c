//! Runs as sequences of events, and what holds of every run.

use vstd::prelude::*;
use crate::config::Limits;
use crate::history::pruned;
use crate::listing::ListingView;
use crate::notify::{message_of, DeliveryMode, OutcomeView};
use crate::run::{
    action_of, first_seen, initial, scheduled, standing, step, wf, ActionView, EventView, Phase,
    RunModel,
};

verus! {

/// The state that `m` is in after the events of `events` reached it in order.
pub open spec fn run(m: RunModel, events: Seq<EventView>) -> RunModel
    decreases events.len(),
{
    if events.len() == 0 {
        m
    } else {
        run(step(m, events[0]), events.drop_first())
    }
}

/// The record whose delivery begins when `event` reaches `m`, if one does.
pub open spec fn begun(m: RunModel, event: EventView) -> Seq<ListingView> {
    let next = step(m, event);
    if next.found > m.found {
        seq![next.current->0]
    } else {
        Seq::empty()
    }
}

/// The records whose delivery begins while `events` reach `m`, in the order
/// in which they begin.
pub open spec fn deliveries(m: RunModel, events: Seq<EventView>) -> Seq<ListingView>
    decreases events.len(),
{
    if events.len() == 0 {
        Seq::empty()
    } else {
        begun(m, events[0]) + deliveries(step(m, events[0]), events.drop_first())
    }
}

/// The identifier of the record that `event` reports as delivered, if it
/// reports one: the current record's, where the run waits for an outcome and
/// the outcome is a delivery.
pub open spec fn confirmed(m: RunModel, event: EventView) -> Seq<Seq<char>> {
    if m.phase is AwaitOutcome && event == EventView::Outcome(OutcomeView::Delivered) {
        seq![m.current->0.id]
    } else {
        Seq::empty()
    }
}

/// The identifiers of the records that `events` report as delivered, in order.
pub open spec fn confirmations(m: RunModel, events: Seq<EventView>) -> Seq<Seq<char>>
    decreases events.len(),
{
    if events.len() == 0 {
        Seq::empty()
    } else {
        confirmed(m, events[0]) + confirmations(step(m, events[0]), events.drop_first())
    }
}

/// The first seen record at or after `from` lies between `from` and the end
/// of the page, every record before it is unseen, and it is seen itself.
pub proof fn lemma_first_seen(seen: Seq<Seq<char>>, records: Seq<ListingView>, from: int)
    requires
        0 <= from <= records.len(),
    ensures
        from <= first_seen(seen, records, from) <= records.len(),
        forall|j: int| from <= j < first_seen(seen, records, from) ==> !seen.contains(records[j].id),
        first_seen(seen, records, from) < records.len() ==> seen.contains(
            records[first_seen(seen, records, from)].id,
        ),
    decreases records.len() - from,
{
    if from < records.len() && !seen.contains(records[from].id) {
        lemma_first_seen(seen, records, from + 1);
    }
}

/// A run starts in a well-formed state.
pub proof fn lemma_initial_wf(limits: Limits, loaded: Seq<Seq<char>>)
    ensures
        wf(initial(limits, loaded)),
{
}

/// Every event takes a well-formed state to a well-formed state.
pub proof fn lemma_step_wf(m: RunModel, event: EventView)
    requires
        wf(m),
    ensures
        wf(step(m, event)),
{
    if let EventView::Page(records) = event {
        lemma_first_seen(m.seen, records, 0);
    }
}

/// Every sequence of events takes a well-formed state to a well-formed state.
pub proof fn lemma_run_wf(m: RunModel, events: Seq<EventView>)
    requires
        wf(m),
    ensures
        wf(run(m, events)),
    decreases events.len(),
{
    if events.len() > 0 {
        lemma_step_wf(m, events[0]);
        lemma_run_wf(step(m, events[0]), events.drop_first());
    }
}

/// Nothing is sent but for a delivery that has begun: where a state asks for
/// a message to be sent, the message is that of its current record, and the
/// current record is the one it was before the event or the one whose delivery
/// the event began.
pub proof fn lemma_sends_follow_deliveries(m: RunModel, event: EventView)
    requires
        wf(m),
    ensures
        action_of(step(m, event)) matches ActionView::Send(message) ==> {
            &&& step(m, event).current is Some
            &&& exists|mode: DeliveryMode| message == message_of(mode, step(m, event).current->0)
            &&& step(m, event).current == m.current || begun(m, event) == seq![
                step(m, event).current->0,
            ]
        },
{
    lemma_step_wf(m, event);
    let next = step(m, event);
    if let ActionView::Send(message) = action_of(next) {
        assert(next.phase is AwaitOutcome);
        let mode = next.phase->AwaitOutcome_mode;
        assert(message == message_of(mode, next.current->0));
    }
}

/// No event changes what a run was started with: its limits, the seen
/// identifiers, and whether it is a first run.
pub proof fn lemma_run_keeps_its_start(m: RunModel, events: Seq<EventView>)
    ensures
        run(m, events).limits == m.limits,
        run(m, events).seen == m.seen,
        run(m, events).first_run == m.first_run,
    decreases events.len(),
{
    if events.len() > 0 {
        lemma_run_keeps_its_start(step(m, events[0]), events.drop_first());
    }
}

/// Classification is repeatable: however far two runs from the same loaded
/// history have come, and whatever was delivered in them, each classifies
/// every record of a page as the other does, namely against the loaded history.
pub proof fn lemma_classification_is_repeatable(
    limits: Limits,
    loaded: Seq<Seq<char>>,
    first: Seq<EventView>,
    second: Seq<EventView>,
    records: Seq<ListingView>,
    i: int,
)
    ensures
        standing(run(initial(limits, loaded), first).seen, records, i) == standing(
            run(initial(limits, loaded), second).seen,
            records,
            i,
        ),
        standing(run(initial(limits, loaded), first).seen, records, i) == standing(
            loaded,
            records,
            i,
        ),
{
    lemma_run_keeps_its_start(initial(limits, loaded), first);
    lemma_run_keeps_its_start(initial(limits, loaded), second);
}

/// Once paging has stopped, the only deliveries that still begin are those
/// already scheduled, in their order.
pub proof fn lemma_stopped_run_delivers_its_queue(m: RunModel, events: Seq<EventView>)
    requires
        wf(m),
        m.stop,
    ensures
        deliveries(m, events).is_prefix_of(m.queue),
    decreases events.len(),
{
    if events.len() > 0 {
        let next = step(m, events[0]);
        lemma_step_wf(m, events[0]);
        lemma_stopped_run_delivers_its_queue(next, events.drop_first());
        let rest = deliveries(next, events.drop_first());
        if next.found > m.found {
            assert(next.queue == m.queue.drop_first());
            assert(next.current == Some(m.queue[0]));
            assert((seq![m.queue[0]] + rest) =~= m.queue.subrange(0, 1 + rest.len() as int));
        } else {
            assert(next.queue.len() == 0 || next.queue == m.queue);
            assert(deliveries(m, events) =~= rest);
        }
    }
}

/// Stop on seen: where a page holds a seen record at position `i`, every
/// delivery that begins with that page or after it is of a record of that
/// page before position `i`. The deliveries are the leading records of the
/// page, in page order; no record at or after `i` and no record of a later
/// page is among them.
pub proof fn lemma_stop_on_seen(
    m: RunModel,
    records: Seq<ListingView>,
    i: int,
    later: Seq<EventView>,
)
    requires
        wf(m),
        m.phase is AwaitPage,
        0 <= i < records.len(),
        m.seen.contains(records[i].id),
    ensures
        deliveries(m, seq![EventView::Page(records)] + later).is_prefix_of(records.take(i)),
{
    let events = seq![EventView::Page(records)] + later;
    let next = step(m, events[0]);
    assert(events.drop_first() =~= later);
    lemma_first_seen(m.seen, records, 0);
    lemma_step_wf(m, events[0]);
    let n = scheduled(m, records);
    assert(0 <= n <= i);
    assert(next.stop);
    lemma_stopped_run_delivers_its_queue(next, later);
    let rest = deliveries(next, later);
    if n > 0 {
        assert(next.queue == records.take(n).drop_first());
        assert(deliveries(m, events) =~= seq![records[0]] + rest);
        assert((seq![records[0]] + rest) =~= records.take(i).subrange(0, 1 + rest.len() as int));
    } else {
        assert(deliveries(m, events) =~= rest);
        assert(rest =~= records.take(i).subrange(0, 0));
    }
}

/// Each delivery that begins is counted once.
pub proof fn lemma_deliveries_are_counted(m: RunModel, events: Seq<EventView>)
    requires
        wf(m),
    ensures
        run(m, events).found == m.found + deliveries(m, events).len(),
    decreases events.len(),
{
    if events.len() > 0 {
        lemma_step_wf(m, events[0]);
        lemma_deliveries_are_counted(step(m, events[0]), events.drop_first());
    }
}

/// First-run cap: in a run that starts from an empty history, no more
/// deliveries begin than the first-run limit allows, whatever the pages hold
/// and however the attempts end.
pub proof fn lemma_first_run_cap(limits: Limits, events: Seq<EventView>)
    ensures
        deliveries(initial(limits, Seq::empty()), events).len() <= limits.first_run_limit,
{
    let start = initial(limits, Seq::empty());
    lemma_run_wf(start, events);
    lemma_run_keeps_its_start(start, events);
    lemma_deliveries_are_counted(start, events);
}

/// Coupling of delivery and history, event by event: an event appends an
/// identifier to the history exactly if it reports the delivery of the
/// current record, and then it appends that record's identifier. An event that
/// ends discovery prunes the history if a new record was found. Every other
/// event leaves the history as it is.
pub proof fn lemma_history_follows_delivery(m: RunModel, event: EventView)
    requires
        wf(m),
    ensures
        confirmed(m, event).len() > 0 ==> step(m, event).history == m.history.push(
            m.current->0.id,
        ),
        confirmed(m, event).len() == 0 ==> step(m, event).history == (if step(m, event).phase is Done
            && !(m.phase is Done) && m.found > 0 {
            pruned(m.history, m.limits.history_cap as nat)
        } else {
            m.history
        }),
{
    if let EventView::Page(records) = event {
        lemma_first_seen(m.seen, records, 0);
    }
}

/// After discovery has ended, nothing changes any more.
pub proof fn lemma_done_is_final(m: RunModel, events: Seq<EventView>)
    requires
        m.phase is Done || m.phase is Aborted,
    ensures
        run(m, events) == m,
        deliveries(m, events).len() == 0,
        confirmations(m, events).len() == 0,
    decreases events.len(),
{
    if events.len() > 0 {
        lemma_done_is_final(step(m, events[0]), events.drop_first());
    }
}

/// Coupling of delivery and history, over a run: while discovery goes on, the
/// history is what it was at the start followed by the identifiers of the
/// records that were reported as delivered, in the order of the reports. When
/// discovery has ended, the history is that sequence, pruned to the history
/// cap if a new record was found.
pub proof fn lemma_history_of_run(m: RunModel, events: Seq<EventView>)
    requires
        wf(m),
        !(m.phase is Done),
    ensures
        run(m, events).history == (if run(m, events).phase is Done && run(m, events).found > 0 {
            pruned(m.history + confirmations(m, events), m.limits.history_cap as nat)
        } else {
            m.history + confirmations(m, events)
        }),
    decreases events.len(),
{
    if events.len() == 0 {
        assert(m.history + confirmations(m, events) =~= m.history);
    } else {
        let next = step(m, events[0]);
        let rest = events.drop_first();
        lemma_step_wf(m, events[0]);
        lemma_history_follows_delivery(m, events[0]);
        lemma_run_keeps_its_start(next, rest);
        if next.phase is Done {
            lemma_done_is_final(next, rest);
            assert(confirmed(m, events[0]).len() == 0);
            assert(confirmations(m, events) =~= Seq::<Seq<char>>::empty());
            assert(m.history + confirmations(m, events) =~= m.history);
            if m.found == 0 {
                assert(next.found == 0);
            }
        } else {
            lemma_history_of_run(next, rest);
            assert(m.history + confirmations(m, events) =~= next.history + confirmations(
                next,
                rest,
            ));
        }
    }
}

/// Whether `event` is one that `m` waits for.
pub open spec fn awaited(m: RunModel, event: EventView) -> bool {
    match (m.phase, event) {
        (Phase::AwaitPage, EventView::Page(_)) => true,
        (Phase::AwaitPage, EventView::FetchFailed) => true,
        (Phase::AwaitOutcome { .. }, EventView::Outcome(_)) => true,
        (Phase::Backoff { .. }, EventView::Resumed) => true,
        (Phase::MessagePause, EventView::Resumed) => true,
        (Phase::PagePause, EventView::Resumed) => true,
        _ => false,
    }
}

/// How far a run is from its last page: twice the number of pages that may
/// still be fetched after the current one, and one more while the current
/// page itself is still to arrive.
pub open spec fn pages_ahead(m: RunModel) -> nat {
    let later = if m.page < m.limits.max_pages {
        2 * (m.limits.max_pages - m.page)
    } else {
        0
    };
    match m.phase {
        Phase::AwaitPage => (later + 1) as nat,
        Phase::PagePause => later as nat,
        Phase::Done { .. } => 0,
        Phase::Aborted => 0,
        _ => if m.stop {
            0
        } else {
            later as nat
        },
    }
}

/// How far the delivery of the current record is from its end: a bound on
/// the events that it can still take.
pub open spec fn attempts_ahead(m: RunModel) -> nat {
    let most = m.limits.rate_limit_retries as int;
    match m.phase {
        Phase::AwaitOutcome { mode, retries } => (2 * (most - retries) + 2 + (if mode is Rich {
            2 * most + 4
        } else {
            0
        })) as nat,
        Phase::Backoff { mode, retries, seconds } => (2 * (most - retries) + 3 + (if mode is Rich {
            2 * most + 4
        } else {
            0
        })) as nat,
        Phase::MessagePause => 1,
        _ => 0,
    }
}

/// Whether the first triple comes before the second in the order that
/// compares the first components, then the second, then the third.
pub open spec fn precedes(a: (nat, nat, nat), b: (nat, nat, nat)) -> bool {
    a.0 < b.0 || (a.0 == b.0 && (a.1 < b.1 || (a.1 == b.1 && a.2 < b.2)))
}

/// The distance of a run from its end: pages ahead, then records still
/// scheduled on the current page, then events ahead for the current record.
pub open spec fn distance(m: RunModel) -> (nat, nat, nat) {
    (pages_ahead(m), m.queue.len(), attempts_ahead(m))
}

/// An event that a run does not wait for changes nothing; a run that has
/// ended waits for none.
pub proof fn lemma_other_events_change_nothing(m: RunModel, event: EventView)
    ensures
        !awaited(m, event) ==> step(m, event) == m,
        m.phase is Done || m.phase is Aborted ==> !awaited(m, event),
{
}

/// A run ends: every event that a run waits for brings it nearer to its end.
/// The distance is a triple of natural numbers and decreases in the order of
/// [`precedes`], which has no infinite descent, so no run takes events for ever.
pub proof fn lemma_awaited_event_brings_the_end_nearer(m: RunModel, event: EventView)
    requires
        wf(m),
        awaited(m, event),
    ensures
        precedes(distance(step(m, event)), distance(m)),
{
    if let EventView::Page(records) = event {
        lemma_first_seen(m.seen, records, 0);
    }
}

} // verus!
