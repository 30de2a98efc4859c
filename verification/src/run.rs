//! The run as a state machine: from the state of a run and the event that
//! reached it to the next state, and from each state to the action that the
//! caller performs next.
//!
//! The caller owns everything that touches the outside world. It performs the
//! pending [`Action`] (fetch a page, send a message, sleep, write the history)
//! and reports what happened as an [`Event`]; every decision in between is
//! taken here.

use vstd::prelude::*;
use crate::config::Limits;
use crate::history::{pruned, SeenHistory};
use crate::listing::{record_views, ListingRecord, ListingView};
use crate::notify::{
    compose, first_mode, initial_mode, judge, message_of, verdict_of, DeliveryMode,
    DeliveryOutcome, Message, MessageView, OutcomeView, Verdict,
};

verus! {

/// What a run is waiting for.
#[derive(Clone, Copy, Debug, PartialEq, Eq, Structural)]
pub enum Phase {
    /// The content of the current page.
    AwaitPage,
    /// The outcome of an attempt to deliver the current record in `mode`,
    /// made after `retries` rate-limit retries in that mode.
    AwaitOutcome { mode: DeliveryMode, retries: u32 },
    /// The end of the pause before the current record is sent again.
    Backoff { mode: DeliveryMode, retries: u32, seconds: u64 },
    /// The end of the pause that follows a delivered message.
    MessagePause,
    /// The end of the pause that precedes the next page.
    PagePause,
    /// Nothing: discovery has ended, and the history is to be written if
    /// `persist` is set.
    Done { persist: bool },
    /// Nothing: a page could not be fetched, and nothing is to be written.
    Aborted,
}

/// What the caller reports to a run.
#[derive(Debug)]
pub enum Event {
    /// The records of the page that was asked for, in page order.
    Page(Vec<ListingRecord>),
    /// The page that was asked for could not be fetched.
    FetchFailed,
    /// How the delivery attempt that was asked for ended.
    Outcome(DeliveryOutcome),
    /// The pause that was asked for is over.
    Resumed,
}

/// Mathematical content of an [`Event`].
pub enum EventView {
    Page(Seq<ListingView>),
    FetchFailed,
    Outcome(OutcomeView),
    Resumed,
}

impl View for Event {
    type V = EventView;

    open spec fn view(&self) -> EventView {
        match self {
            Event::Page(records) => EventView::Page(record_views(records@)),
            Event::FetchFailed => EventView::FetchFailed,
            Event::Outcome(outcome) => EventView::Outcome(outcome@),
            Event::Resumed => EventView::Resumed,
        }
    }
}

/// What a run asks its caller to do next.
#[derive(Debug)]
pub enum Action {
    /// Fetch result page `page` and report its records.
    Fetch { page: u32 },
    /// Send the message and report the outcome.
    Send(Message),
    /// Sleep for so many seconds and report back.
    Sleep { seconds: u64 },
    /// End the run; write the history first if `persist` is set.
    Finish { persist: bool },
    /// End the run without writing anything.
    Abort,
}

/// Mathematical content of an [`Action`].
pub enum ActionView {
    Fetch { page: nat },
    Send(MessageView),
    Sleep { seconds: u64 },
    Finish { persist: bool },
    Abort,
}

impl View for Action {
    type V = ActionView;

    open spec fn view(&self) -> ActionView {
        match self {
            Action::Fetch { page } => ActionView::Fetch { page: *page as nat },
            Action::Send(message) => ActionView::Send(message@),
            Action::Sleep { seconds } => ActionView::Sleep { seconds: *seconds },
            Action::Finish { persist } => ActionView::Finish { persist: *persist },
            Action::Abort => ActionView::Abort,
        }
    }
}

/// The state of a run, as mathematics.
pub struct RunModel {
    /// The limits that the run was started with.
    pub limits: Limits,
    /// The identifiers that count as seen: the history as it was loaded.
    pub seen: Seq<Seq<char>>,
    /// The history as it stands: what was loaded, then the identifier of
    /// every record delivered so far.
    pub history: Seq<Seq<char>>,
    /// Whether the history was empty when it was loaded.
    pub first_run: bool,
    /// Number of the current page, counted from one.
    pub page: nat,
    /// The record whose delivery is under way.
    pub current: Option<ListingView>,
    /// The records of the current page whose delivery is still to begin.
    pub queue: Seq<ListingView>,
    /// Whether no further page is fetched.
    pub stop: bool,
    /// Number of new records found so far; the delivery of each was begun.
    pub found: nat,
    /// What the run is waiting for.
    pub phase: Phase,
}

/// Whether a record is being delivered in `phase`.
pub open spec fn in_delivery(phase: Phase) -> bool {
    phase is AwaitOutcome || phase is Backoff || phase is MessagePause
}

/// The position of the first record at or after `from` whose identifier is
/// seen; the number of records where there is none.
pub open spec fn first_seen(seen: Seq<Seq<char>>, records: Seq<ListingView>, from: int) -> int
    decreases records.len() - from,
{
    if 0 <= from < records.len() && !seen.contains(records[from].id) {
        first_seen(seen, records, from + 1)
    } else {
        from
    }
}

/// How a record of a page stands against the seen identifiers.
#[derive(Clone, Copy, Debug, PartialEq, Eq, Structural)]
pub enum Standing {
    /// Unseen, as is every record before it: the record is new.
    New,
    /// The first record of the page whose identifier is seen.
    Seen,
    /// After the first seen record: the record is not looked at.
    Skipped,
}

/// The standing of the record at position `i` of a page.
pub open spec fn standing(seen: Seq<Seq<char>>, records: Seq<ListingView>, i: int) -> Standing {
    let stop = first_seen(seen, records, 0);
    if i < stop {
        Standing::New
    } else if i == stop {
        Standing::Seen
    } else {
        Standing::Skipped
    }
}

/// How many of the leading records of a page are scheduled for delivery:
/// those before the first seen one, and in a first run no more than the
/// first-run limit leaves room for.
pub open spec fn scheduled(m: RunModel, records: Seq<ListingView>) -> int {
    let fresh = first_seen(m.seen, records, 0);
    let room = m.limits.first_run_limit - m.found;
    if m.first_run && room < fresh {
        room
    } else {
        fresh
    }
}

/// Whether paging stops with this page: it holds a seen record, or the
/// first-run limit is reached with what is scheduled from it.
pub open spec fn stops_with(m: RunModel, records: Seq<ListingView>) -> bool {
    ||| first_seen(m.seen, records, 0) < records.len()
    ||| m.first_run && m.found + scheduled(m, records) >= m.limits.first_run_limit
}

/// The state in which discovery has ended. The history is pruned and marked
/// for writing exactly if a new record was found.
pub open spec fn finished(m: RunModel) -> RunModel {
    if m.found > 0 {
        RunModel {
            history: pruned(m.history, m.limits.history_cap as nat),
            current: None,
            queue: Seq::empty(),
            phase: Phase::Done { persist: true },
            ..m
        }
    } else {
        RunModel { current: None, queue: Seq::empty(), phase: Phase::Done { persist: false }, ..m }
    }
}

/// The state after the last scheduled record of a page: finished if paging
/// stops or the page limit is reached, pausing before the next page otherwise.
pub open spec fn page_ended(m: RunModel) -> RunModel {
    if m.stop || m.page >= m.limits.max_pages {
        finished(m)
    } else {
        RunModel { current: None, queue: Seq::empty(), phase: Phase::PagePause, ..m }
    }
}

/// The state after the delivery of the current record has ended: the
/// delivery of the next scheduled record begins, or the page has ended.
pub open spec fn advanced(m: RunModel) -> RunModel {
    if m.queue.len() > 0 {
        RunModel {
            current: Some(m.queue[0]),
            queue: m.queue.drop_first(),
            found: m.found + 1,
            phase: Phase::AwaitOutcome { mode: initial_mode(m.queue[0]), retries: 0 },
            ..m
        }
    } else {
        page_ended(m)
    }
}

/// The state after a page arrived. An empty page ends discovery. Otherwise
/// the leading unseen records are scheduled and the first delivery begins.
pub open spec fn page_taken(m: RunModel, records: Seq<ListingView>) -> RunModel {
    if records.len() == 0 {
        finished(m)
    } else {
        advanced(
            RunModel {
                queue: records.take(scheduled(m, records)),
                stop: stops_with(m, records),
                ..m
            },
        )
    }
}

/// The state after the outcome of a delivery attempt arrived.
pub open spec fn outcome_taken(
    m: RunModel,
    mode: DeliveryMode,
    retries: u32,
    outcome: OutcomeView,
) -> RunModel {
    match verdict_of(mode, retries, outcome, m.limits) {
        Verdict::Succeeded => RunModel {
            history: m.history.push(m.current->0.id),
            phase: Phase::MessagePause,
            ..m
        },
        Verdict::RetryAfter(seconds) => RunModel {
            phase: Phase::Backoff { mode, retries: (retries + 1) as u32, seconds },
            ..m
        },
        Verdict::FallBack => RunModel {
            phase: Phase::AwaitOutcome { mode: DeliveryMode::Plain, retries: 0 },
            ..m
        },
        Verdict::GaveUp => advanced(m),
    }
}

/// The transition function. An event that the phase does not wait for
/// changes nothing.
pub open spec fn step(m: RunModel, event: EventView) -> RunModel {
    match (m.phase, event) {
        (Phase::AwaitPage, EventView::Page(records)) => page_taken(m, records),
        (Phase::AwaitPage, EventView::FetchFailed) => RunModel { phase: Phase::Aborted, ..m },
        (Phase::AwaitOutcome { mode, retries }, EventView::Outcome(outcome)) => outcome_taken(
            m,
            mode,
            retries,
            outcome,
        ),
        (Phase::Backoff { mode, retries, seconds }, EventView::Resumed) => RunModel {
            phase: Phase::AwaitOutcome { mode, retries },
            ..m
        },
        (Phase::MessagePause, EventView::Resumed) => advanced(m),
        (Phase::PagePause, EventView::Resumed) => RunModel {
            page: m.page + 1,
            phase: Phase::AwaitPage,
            ..m
        },
        _ => m,
    }
}

/// The action that a state asks for.
pub open spec fn action_of(m: RunModel) -> ActionView {
    match m.phase {
        Phase::AwaitPage => ActionView::Fetch { page: m.page },
        Phase::AwaitOutcome { mode, retries } => ActionView::Send(message_of(mode, m.current->0)),
        Phase::Backoff { mode, retries, seconds } => ActionView::Sleep { seconds },
        Phase::MessagePause => ActionView::Sleep { seconds: m.limits.message_delay_secs },
        Phase::PagePause => ActionView::Sleep { seconds: m.limits.page_delay_secs },
        Phase::Done { persist } => ActionView::Finish { persist },
        Phase::Aborted => ActionView::Abort,
    }
}

/// The state in which a run starts from the loaded history: waiting for the
/// first page, or finished at once where no page may be fetched.
pub open spec fn initial(limits: Limits, loaded: Seq<Seq<char>>) -> RunModel {
    RunModel {
        limits,
        seen: loaded,
        history: loaded,
        first_run: loaded.len() == 0,
        page: 1,
        current: None,
        queue: Seq::empty(),
        stop: false,
        found: 0,
        phase: if limits.max_pages == 0 {
            Phase::Done { persist: false }
        } else {
            Phase::AwaitPage
        },
    }
}

/// What holds of every state that a run reaches.
pub open spec fn wf(m: RunModel) -> bool {
    &&& m.current is Some <==> in_delivery(m.phase)
    &&& !in_delivery(m.phase) ==> m.queue.len() == 0
    &&& m.first_run ==> m.found + m.queue.len() <= m.limits.first_run_limit
    &&& 1 <= m.page
    &&& m.phase is AwaitPage || m.phase is PagePause ==> m.page <= m.limits.max_pages
    &&& m.phase is PagePause ==> m.page < m.limits.max_pages && !m.stop
    &&& m.phase is AwaitPage ==> !m.stop
    &&& m.phase matches Phase::AwaitOutcome { mode, retries } ==> retries
        <= m.limits.rate_limit_retries
    &&& m.phase matches Phase::Backoff { mode, retries, seconds } ==> retries
        <= m.limits.rate_limit_retries
}

/// A run in progress.
#[derive(Debug)]
pub struct Run {
    limits: Limits,
    seen: SeenHistory,
    history: SeenHistory,
    first_run: bool,
    page: u32,
    /// Records of the current page.
    records: Vec<ListingRecord>,
    /// Position of the current record, while one is being delivered.
    cursor: usize,
    /// Number of leading records of the current page that are scheduled.
    planned: usize,
    stop: bool,
    found: u128,
    phase: Phase,
}

impl View for Run {
    type V = RunModel;

    closed spec fn view(&self) -> RunModel {
        RunModel {
            limits: self.limits,
            seen: self.seen@,
            history: self.history@,
            first_run: self.first_run,
            page: self.page as nat,
            current: if in_delivery(self.phase) {
                Some(self.records@[self.cursor as int]@)
            } else {
                None
            },
            queue: if in_delivery(self.phase) {
                record_views(self.records@).subrange(self.cursor + 1, self.planned as int)
            } else {
                Seq::empty()
            },
            stop: self.stop,
            found: self.found as nat,
            phase: self.phase,
        }
    }
}

/// Finds the first record at or after the start of a page whose identifier
/// is in `seen`.
pub fn count_fresh(seen: &SeenHistory, records: &Vec<ListingRecord>) -> (n: usize)
    ensures
        n == first_seen(seen@, record_views(records@), 0),
        n <= records.len(),
{
    let mut i: usize = 0;
    while i < records.len() && !seen.contains(&records[i].id)
        invariant
            i <= records.len(),
            first_seen(seen@, record_views(records@), i as int) == first_seen(
                seen@,
                record_views(records@),
                0,
            ),
        decreases records.len() - i,
    {
        i = i + 1;
    }
    i
}

/// Classifies the records of a page against the seen identifiers.
pub fn classify_page(seen: &SeenHistory, records: &Vec<ListingRecord>) -> (standings: Vec<Standing>)
    ensures
        standings.len() == records.len(),
        forall|i: int|
            0 <= i < records.len() ==> standings[i] == standing(seen@, record_views(records@), i),
{
    let stop = count_fresh(seen, records);
    let mut standings: Vec<Standing> = Vec::new();
    let mut i: usize = 0;
    while i < records.len()
        invariant
            i <= records.len(),
            standings.len() == i,
            stop == first_seen(seen@, record_views(records@), 0),
            forall|j: int|
                0 <= j < i ==> standings[j] == standing(seen@, record_views(records@), j),
        decreases records.len() - i,
    {
        let s = if i < stop {
            Standing::New
        } else if i == stop {
            Standing::Seen
        } else {
            Standing::Skipped
        };
        standings.push(s);
        i = i + 1;
    }
    standings
}

impl Run {
    #[verifier::type_invariant]
    spec fn inv(self) -> bool {
        &&& in_delivery(self.phase) ==> self.cursor < self.planned <= self.records@.len()
        &&& self.page >= 1
        &&& self.found + self.remaining() <= self.pages_taken() * 0x1_0000_0000_0000_0000
        &&& wf(self@)
    }

    /// Number of scheduled records whose delivery is still to begin.
    spec fn remaining(self) -> int {
        if in_delivery(self.phase) {
            self.planned - self.cursor - 1
        } else {
            0
        }
    }

    /// Number of pages whose records were taken in.
    spec fn pages_taken(self) -> int {
        if self.phase is AwaitPage {
            self.page - 1
        } else {
            self.page as int
        }
    }

    /// Starts a run from the loaded history.
    pub fn new(limits: Limits, loaded: SeenHistory) -> (run: Run)
        ensures
            run@ == initial(limits, loaded@),
            wf(run@),
    {
        let first_run = loaded.is_empty();
        let seen = loaded.snapshot();
        let phase = if limits.max_pages == 0 {
            Phase::Done { persist: false }
        } else {
            Phase::AwaitPage
        };
        Run {
            limits,
            seen,
            history: loaded,
            first_run,
            page: 1,
            records: Vec::new(),
            cursor: 0,
            planned: 0,
            stop: false,
            found: 0,
            phase,
        }
    }

    /// The action that the run asks for.
    pub fn action(&self) -> (action: Action)
        ensures
            action@ == action_of(self@),
    {
        proof {
            use_type_invariant(self);
        }
        match self.phase {
            Phase::AwaitPage => Action::Fetch { page: self.page },
            Phase::AwaitOutcome { mode, retries } => Action::Send(
                compose(mode, &self.records[self.cursor]),
            ),
            Phase::Backoff { mode, retries, seconds } => Action::Sleep { seconds },
            Phase::MessagePause => Action::Sleep { seconds: self.limits.message_delay_secs },
            Phase::PagePause => Action::Sleep { seconds: self.limits.page_delay_secs },
            Phase::Done { persist } => Action::Finish { persist },
            Phase::Aborted => Action::Abort,
        }
    }

    /// The identifiers that count as seen in this run.
    pub fn seen(&self) -> (seen: &SeenHistory)
        ensures
            seen@ == self@.seen,
    {
        &self.seen
    }

    /// The history as it stands.
    pub fn history(&self) -> (history: &SeenHistory)
        ensures
            history@ == self@.history,
    {
        &self.history
    }

    /// What the run is waiting for.
    pub fn phase(&self) -> (phase: Phase)
        ensures
            phase == self@.phase,
    {
        self.phase
    }

    /// Number of new records found so far.
    pub fn found(&self) -> (n: u128)
        ensures
            n == self@.found,
    {
        self.found
    }

    /// Whether the run started from an empty history.
    pub fn is_first_run(&self) -> (r: bool)
        ensures
            r == self@.first_run,
    {
        self.first_run
    }

    /// Ends discovery.
    fn finish(self) -> (next: Run)
        ensures
            next@ == finished(self@),
    {
        proof {
            use_type_invariant(&self);
        }
        if self.found > 0 {
            let mut history = self.history;
            history.prune(self.limits.history_cap);
            Run {
                history,
                phase: Phase::Done { persist: true },
                ..self
            }
        } else {
            Run {
                phase: Phase::Done { persist: false },
                ..self
            }
        }
    }

    /// Ends the current page.
    fn end_page(self) -> (next: Run)
        requires
            in_delivery(self.phase),
        ensures
            next@ == page_ended(self@),
    {
        proof {
            use_type_invariant(&self);
        }
        if self.stop || self.page >= self.limits.max_pages {
            self.finish()
        } else {
            Run {
                phase: Phase::PagePause,
                ..self
            }
        }
    }

    /// Moves on from the current record.
    fn advance(self) -> (next: Run)
        requires
            in_delivery(self.phase),
        ensures
            next@ == advanced(self@),
    {
        proof {
            use_type_invariant(&self);
        }
        if self.cursor + 1 < self.planned {
            let cursor = self.cursor + 1;
            let mode = first_mode(&self.records[cursor]);
            let next = Run {
                cursor,
                found: self.found + 1,
                phase: Phase::AwaitOutcome { mode, retries: 0 },
                ..self
            };
            assert(next@.queue =~= self@.queue.drop_first());
            next
        } else {
            self.end_page()
        }
    }

    /// Takes in the records of the page that was asked for.
    fn take_page(self, records: Vec<ListingRecord>) -> (next: Run)
        requires
            self.phase is AwaitPage,
        ensures
            next@ == page_taken(self@, record_views(records@)),
    {
        proof {
            use_type_invariant(&self);
        }
        if records.len() == 0 {
            return self.finish();
        }
        let fresh = count_fresh(&self.seen, &records);
        let mut planned = fresh;
        if self.first_run {
            let room: usize = self.limits.first_run_limit - (self.found as usize);
            if room < fresh {
                planned = room;
            }
        }
        let stop = fresh < records.len() || (self.first_run && self.found + (planned as u128)
            >= self.limits.first_run_limit as u128);
        if planned > 0 {
            let mode = first_mode(&records[0]);
            let next = Run {
                records,
                cursor: 0,
                planned,
                stop,
                found: self.found + 1,
                phase: Phase::AwaitOutcome { mode, retries: 0 },
                ..self
            };
            assert(next@.queue =~= record_views(records@).take(planned as int).drop_first());
            next
        } else {
            // Nothing is scheduled only where the first record is seen or the
            // first-run limit leaves no room, and either stops paging.
            assert(stop);
            let halted = Run {
                records,
                cursor: 0,
                planned,
                stop,
                phase: Phase::Done { persist: false },
                ..self
            };
            halted.finish()
        }
    }

    /// Takes in an event and moves to the next state. An event that the run
    /// does not wait for changes nothing.
    pub fn handle(self, event: Event) -> (next: Run)
        ensures
            next@ == step(self@, event@),
            wf(self@),
            wf(next@),
    {
        proof {
            use_type_invariant(&self);
        }
        let next = match (self.phase, event) {
            (Phase::AwaitPage, Event::Page(records)) => self.take_page(records),
            (Phase::AwaitPage, Event::FetchFailed) => Run {
                phase: Phase::Aborted,
                ..self
            },
            (Phase::AwaitOutcome { mode, retries }, Event::Outcome(outcome)) => {
                match judge(mode, retries, &outcome, &self.limits) {
                    Verdict::Succeeded => {
                        let id = self.records[self.cursor].id.clone();
                        let mut history = self.history;
                        history.push(id);
                        Run {
                            history,
                            phase: Phase::MessagePause,
                            ..self
                        }
                    },
                    Verdict::RetryAfter(seconds) => Run {
                        phase: Phase::Backoff { mode, retries: retries + 1, seconds },
                        ..self
                    },
                    Verdict::FallBack => Run {
                        phase: Phase::AwaitOutcome { mode: DeliveryMode::Plain, retries: 0 },
                        ..self
                    },
                    Verdict::GaveUp => self.advance(),
                }
            },
            (Phase::Backoff { mode, retries, seconds }, Event::Resumed) => Run {
                phase: Phase::AwaitOutcome { mode, retries },
                ..self
            },
            (Phase::MessagePause, Event::Resumed) => self.advance(),
            (Phase::PagePause, Event::Resumed) => Run {
                page: self.page + 1,
                phase: Phase::AwaitPage,
                ..self
            },
            _ => self,
        };
        proof {
            use_type_invariant(&next);
        }
        next
    }
}

} // verus!
