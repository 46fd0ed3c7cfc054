//! Tailing the kernel log: a poll schedule and a delta extractor that turn
//! successive snapshots of the ring buffer into a stream of new lines.
//!
//! The log offers nothing but reads of its whole content, so a stream of
//! lines is made by polling. [`RMesgLinesIterator`] holds the state of one
//! stream and decides each move: when a snapshot is due, which of its
//! lines are new, when to wait, and which line to deliver next. Reading
//! the buffer and waiting are left to the caller, who performs what a
//! [`PullAction`] asks for and reports back.

use std::time::{SystemTime, SystemTimeError};
use vstd::prelude::*;

pub mod clock;
pub mod delta;
pub mod error;
pub mod interval;
pub mod lines;
pub mod linux;
pub mod schedule;
pub mod session;

pub use crate::error::{RMesgError, RMesgErrorView};
pub use crate::interval::Interval;
pub use crate::schedule::{suggested_poll_interval, PollSchedule};

use crate::clock::{
    clock_now, nanos_of, span_between, time_before, time_between, time_earlier,
};
use crate::delta::{extract_delta, new_lines, next_anchor};
use crate::interval::representable;
use crate::lines::lines_of;
use crate::schedule::sleep_margin;
use crate::session::{session_anchor, session_lines};

verus! {

/// Where a stream stands between two moves.
#[derive(Clone, Copy, Debug, PartialEq, Eq, Structural)]
pub enum Phase {
    /// Nothing is pending and no snapshot has been asked for.
    Idle,
    /// A snapshot is due: it has been asked for and has not arrived.
    Due,
    /// Lines are pending delivery.
    Draining,
    /// A read or the clock has failed. The stream has ended.
    Failed,
}

/// What the caller is to do next.
#[derive(Debug, PartialEq, Eq)]
pub enum PullAction {
    /// Read a snapshot of the buffer, clearing the buffer with the read if
    /// `clear` is set, and report the text or the failure.
    ReadSnapshot { clear: bool },
    /// Nothing is ready: wait this long, then pull again.
    Sleep(Interval),
    /// Deliver this line.
    Line(String),
    /// The stream has ended.
    End,
}

/// A [`PullAction`] as a mathematical value: a wait in nanoseconds and a
/// line as its characters.
pub enum ActionView {
    ReadSnapshot { clear: bool },
    Sleep(nat),
    Line(Seq<char>),
    End,
}

impl View for PullAction {
    type V = ActionView;

    open spec fn view(&self) -> ActionView {
        match self {
            PullAction::ReadSnapshot { clear } => ActionView::ReadSnapshot { clear: *clear },
            PullAction::Sleep(span) => ActionView::Sleep(span.total_nanos()),
            PullAction::Line(line) => ActionView::Line(line@),
            PullAction::End => ActionView::End,
        }
    }
}

/// The state of a stream as a mathematical value.
pub struct IteratorState {
    /// Whether each read of the buffer also clears it.
    pub clear: bool,
    /// The lines that were found new and are not yet delivered, oldest
    /// first.
    pub pending: Seq<Seq<char>>,
    /// The least time between two reads of the buffer, in nanoseconds.
    pub poll_interval: nat,
    /// The wait when nothing is pending, in nanoseconds.
    pub sleep_interval: nat,
    /// The reading of the clock at which the last snapshot was asked for;
    /// before the first, a time that makes the first one due at once.
    pub last_poll: SystemTime,
    /// The anchor: the last line of the last snapshot that held new lines.
    pub last_line: Option<Seq<char>>,
    /// Whether a snapshot has been asked for and has not arrived.
    pub due: bool,
    /// What ended the stream, once it has ended.
    pub failure: Option<RMesgErrorView>,
    /// What the clock reported, if it was the clock that ended the stream.
    pub clock_error: Option<SystemTimeError>,
}

impl IteratorState {
    /// The state of a new stream whose first snapshot is due from
    /// `last_poll` on.
    pub open spec fn initial(
        clear: bool,
        poll_interval: nat,
        last_poll: SystemTime,
    ) -> IteratorState {
        IteratorState {
            clear,
            pending: Seq::empty(),
            poll_interval,
            sleep_interval: poll_interval + sleep_margin(),
            last_poll,
            last_line: None,
            due: false,
            failure: None,
            clock_error: None,
        }
    }

    /// The outcome of making a stream at the clock reading `now`: the
    /// state of the new stream, whose last poll lies as far before `now` as
    /// the wait is long, or `None` when the poll interval and the margin
    /// do not add up to a span that can be represented, or the clock
    /// cannot go back that far.
    pub open spec fn started(clear: bool, poll_interval: nat, now: SystemTime) -> Option<
        IteratorState,
    > {
        if representable(poll_interval + sleep_margin()) {
            match time_earlier(now, poll_interval + sleep_margin()) {
                Some(back) => Some(IteratorState::initial(clear, poll_interval, back)),
                None => None,
            }
        } else {
            None
        }
    }

    /// What holds of every state that a stream gets into: the wait is the
    /// poll interval and the margin, and a stream that has ended owes no
    /// snapshot.
    pub open spec fn well_formed(self) -> bool {
        &&& self.sleep_interval == self.poll_interval + sleep_margin()
        &&& self.failure is Some ==> !self.due
    }

    /// Where the stream stands.
    pub open spec fn phase(self) -> Phase {
        if self.failure is Some {
            Phase::Failed
        } else if self.due {
            Phase::Due
        } else if self.pending.len() > 0 {
            Phase::Draining
        } else {
            Phase::Idle
        }
    }

    /// The state after a snapshot with the content `text` has been put
    /// through the delta extractor: its new lines are pending behind those
    /// that were, and the anchor has moved on if there were any.
    pub open spec fn polled(self, text: Seq<char>) -> IteratorState {
        IteratorState {
            pending: self.pending + new_lines(lines_of(text), self.last_line),
            last_line: next_anchor(lines_of(text), self.last_line),
            ..self
        }
    }

    /// The state after the snapshots with the contents `texts` have been
    /// put through the delta extractor, one after the other.
    pub open spec fn polled_all(self, texts: Seq<Seq<char>>) -> IteratorState
        decreases texts.len(),
    {
        if texts.len() == 0 {
            self
        } else {
            self.polled_all(texts.drop_last()).polled(texts.last())
        }
    }

    /// Delivery: the oldest pending line leaves the queue, or, with
    /// nothing pending, the caller is sent to wait.
    pub open spec fn drained(self) -> (IteratorState, ActionView) {
        if self.pending.len() > 0 {
            (
                IteratorState { pending: self.pending.drop_first(), ..self },
                ActionView::Line(self.pending[0]),
            )
        } else {
            (self, ActionView::Sleep(self.sleep_interval))
        }
    }

    /// A pull at the clock reading `now`, with `elapsed` nanoseconds gone
    /// since the last poll, or the error of a clock that could not tell.
    ///
    /// A stream that has ended stays ended. A snapshot that is still owed
    /// is asked for again. Otherwise a failed clock ends the stream, and
    /// what it reported is kept; a snapshot is asked for when the poll
    /// interval has passed, and `now` becomes the time of the last poll;
    /// before that, a line is delivered or the caller is sent to wait.
    pub open spec fn pulled(self, now: SystemTime, elapsed: Result<nat, SystemTimeError>) -> (
        IteratorState,
        ActionView,
    ) {
        if self.failure is Some {
            (self, ActionView::End)
        } else if self.due {
            (self, ActionView::ReadSnapshot { clear: self.clear })
        } else {
            match elapsed {
                Err(error) => (
                    IteratorState {
                        failure: Some(RMesgErrorView::UnableToAddDurationToSystemTime),
                        clock_error: Some(error),
                        ..self
                    },
                    ActionView::End,
                ),
                Ok(gone) => if gone >= self.poll_interval {
                    (
                        IteratorState { due: true, last_poll: now, ..self },
                        ActionView::ReadSnapshot { clear: self.clear },
                    )
                } else {
                    self.drained()
                },
            }
        }
    }

    /// The arrival of a snapshot with the content `text`: its new lines
    /// are queued, and a line is delivered or the caller is sent to wait.
    /// A stream that has ended stays as it is.
    pub open spec fn snapshot_read(self, text: Seq<char>) -> (IteratorState, ActionView) {
        if self.failure is Some {
            (self, ActionView::End)
        } else {
            (IteratorState { due: false, ..self.polled(text) }).drained()
        }
    }

    /// The failure of a read: the stream ends, and `cause` is kept. A
    /// stream that has ended keeps the cause it ended with.
    pub open spec fn read_failed(self, cause: RMesgErrorView) -> (IteratorState, ActionView) {
        if self.failure is Some {
            (self, ActionView::End)
        } else {
            (IteratorState { due: false, failure: Some(cause), ..self }, ActionView::End)
        }
    }
}

/// A stream of the lines that appear in the kernel log.
pub struct RMesgLinesIterator {
    clear: bool,
    lines: Vec<String>,
    schedule: PollSchedule,
    last_poll: SystemTime,
    lastline: Option<String>,
    due: bool,
    failure: Option<RMesgError>,
    clock_error: Option<SystemTimeError>,
}

impl View for RMesgLinesIterator {
    type V = IteratorState;

    closed spec fn view(&self) -> IteratorState {
        IteratorState {
            clear: self.clear,
            pending: self.lines.deep_view(),
            poll_interval: self.schedule.poll_nanos(),
            sleep_interval: self.schedule.sleep_nanos(),
            last_poll: self.last_poll,
            last_line: self.lastline.deep_view(),
            due: self.due && self.failure is None,
            failure: match self.failure {
                Some(cause) => Some(cause@),
                None => None,
            },
            clock_error: self.clock_error,
        }
    }
}

impl RMesgLinesIterator {
    /// A new stream, given the time that the clock found for its last
    /// poll: `None` when the clock could not go back that far.
    ///
    /// The stream is made when the poll interval and the margin add up to
    /// a span that can be represented and the clock found a time.
    pub fn with_last_poll(
        clear: bool,
        poll_interval: Interval,
        last_poll: Option<SystemTime>,
    ) -> (made: Result<RMesgLinesIterator, RMesgError>)
        ensures
            made is Ok <==> last_poll is Some && representable(
                poll_interval.total_nanos() + sleep_margin(),
            ),
            made matches Ok(stream) ==> stream@ == IteratorState::initial(
                clear,
                poll_interval.total_nanos(),
                last_poll->0,
            ) && stream@.well_formed(),
            made matches Err(error) ==> error@ == RMesgErrorView::UnableToAddDurationToSystemTime,
    {
        let schedule = match PollSchedule::new(poll_interval) {
            Some(schedule) => schedule,
            None => return Err(RMesgError::UnableToAddDurationToSystemTime),
        };
        let last_poll = match last_poll {
            Some(time) => time,
            None => return Err(RMesgError::UnableToAddDurationToSystemTime),
        };
        let stream = RMesgLinesIterator {
            lines: Vec::with_capacity(1000),
            schedule,
            last_poll,
            clear,
            lastline: None,
            due: false,
            failure: None,
            clock_error: None,
        };
        assert(stream.lines.deep_view() =~= Seq::<Seq<char>>::empty());
        Ok(stream)
    }

    /// Puts a snapshot with the content `rawlogs` through the delta
    /// extractor and queues its new lines. Returns how many there were.
    pub fn poll(&mut self, rawlogs: &str) -> (added: usize)
        ensures
            final(self)@ == old(self)@.polled(rawlogs@),
            added == new_lines(lines_of(rawlogs@), old(self)@.last_line).len(),
            final(self)@.well_formed(),
    {
        proof {
            use_type_invariant(&self.schedule);
            self.schedule.lemma_wait_is_poll_and_margin();
        }
        let ghost before = self.lines.deep_view();
        let (mut fresh, anchor) = extract_delta(rawlogs, self.lastline.take());
        let added: usize = fresh.len();
        let ghost found = fresh.deep_view();
        self.lastline = anchor;
        self.lines.append(&mut fresh);
        assert(self.lines.deep_view() =~= before + found);
        added
    }

    /// Delivers the oldest pending line, or sends the caller to wait.
    fn drain(&mut self) -> (action: PullAction)
        ensures
            (final(self)@, action@) == old(self)@.drained(),
    {
        if self.lines.len() > 0 {
            let ghost before = self.lines.deep_view();
            let line = self.lines.remove(0);
            assert(self.lines.deep_view() =~= before.drop_first());
            PullAction::Line(line)
        } else {
            PullAction::Sleep(self.schedule.sleep_interval())
        }
    }

    /// A pull, given the reading `now` of the clock and the time that the
    /// clock found to have passed since the last poll, or its error when
    /// it could not tell.
    pub fn pull_at(
        &mut self,
        now: SystemTime,
        elapsed: Result<Interval, SystemTimeError>,
    ) -> (action: PullAction)
        ensures
            (final(self)@, action@) == old(self)@.pulled(now, nanos_of(elapsed)),
            final(self)@.well_formed(),
    {
        proof {
            use_type_invariant(&self.schedule);
            self.schedule.lemma_wait_is_poll_and_margin();
        }
        if self.failure.is_some() {
            return PullAction::End;
        }
        if self.due {
            return PullAction::ReadSnapshot { clear: self.clear };
        }
        match elapsed {
            Err(error) => {
                self.failure = Some(RMesgError::UnableToAddDurationToSystemTime);
                self.clock_error = Some(error);
                PullAction::End
            },
            Ok(span) => {
                if self.schedule.is_due(&span) {
                    self.due = true;
                    self.last_poll = now;
                    PullAction::ReadSnapshot { clear: self.clear }
                } else {
                    self.drain()
                }
            },
        }
    }

    /// A pull: the caller asks for the next line, or has waited as it was
    /// told. The clock is read, and the move is the one that
    /// [`IteratorState::pulled`] gives for that reading and for the span
    /// that the clock finds between the last poll and that reading.
    pub fn pull(&mut self) -> (action: PullAction)
        ensures
            exists|now: SystemTime|
                (final(self)@, action@) == #[trigger] old(self)@.pulled(
                    now,
                    span_between(now, old(self)@.last_poll),
                ),
            final(self)@.well_formed(),
    {
        let now = clock_now();
        let elapsed = time_between(&now, &self.last_poll);
        self.pull_at(now, elapsed)
    }

    /// The snapshot that was asked for has arrived: its new lines are
    /// queued, and the first pending line is delivered if there is one.
    pub fn snapshot_read(&mut self, snapshot: &str) -> (action: PullAction)
        ensures
            (final(self)@, action@) == old(self)@.snapshot_read(snapshot@),
            final(self)@.well_formed(),
    {
        proof {
            use_type_invariant(&self.schedule);
            self.schedule.lemma_wait_is_poll_and_margin();
        }
        if self.failure.is_some() {
            return PullAction::End;
        }
        self.due = false;
        self.poll(snapshot);
        self.drain()
    }

    /// The read that was asked for has failed: the stream ends.
    pub fn read_failed(&mut self, cause: RMesgError) -> (action: PullAction)
        ensures
            (final(self)@, action@) == old(self)@.read_failed(cause@),
            final(self)@.well_formed(),
    {
        proof {
            use_type_invariant(&self.schedule);
            self.schedule.lemma_wait_is_poll_and_margin();
        }
        if self.failure.is_none() {
            self.due = false;
            self.failure = Some(cause);
        }
        PullAction::End
    }

    /// Where the stream stands. The state of a stream is well formed at
    /// all times.
    pub fn phase(&self) -> (phase: Phase)
        ensures
            phase == self@.phase(),
            self@.well_formed(),
    {
        proof {
            use_type_invariant(&self.schedule);
            self.schedule.lemma_wait_is_poll_and_margin();
        }
        if self.failure.is_some() {
            Phase::Failed
        } else if self.due {
            Phase::Due
        } else if self.lines.len() > 0 {
            Phase::Draining
        } else {
            Phase::Idle
        }
    }

    /// Whether each read of the buffer also clears it.
    pub fn clear(&self) -> (clear: bool)
        ensures
            clear == self@.clear,
    {
        self.clear
    }

    /// The least time between two reads of the buffer.
    pub fn poll_interval(&self) -> (span: Interval)
        ensures
            span.total_nanos() == self@.poll_interval,
    {
        self.schedule.poll_interval()
    }

    /// The wait when nothing is pending: the poll interval and the margin.
    pub fn sleep_interval(&self) -> (span: Interval)
        ensures
            span.total_nanos() == self@.sleep_interval,
            self@.sleep_interval == self@.poll_interval + sleep_margin(),
    {
        self.schedule.sleep_interval()
    }

    /// How many lines are pending delivery.
    pub fn pending(&self) -> (count: usize)
        ensures
            count == self@.pending.len(),
    {
        self.lines.len()
    }

    /// The anchor: the last line of the last snapshot that held new lines.
    pub fn last_line(&self) -> (line: Option<&String>)
        ensures
            line.deep_view() == self@.last_line,
    {
        self.lastline.as_ref()
    }

    /// What ended the stream, once it has ended.
    pub fn last_error(&self) -> (cause: Option<&RMesgError>)
        ensures
            cause is Some <==> self@.failure is Some,
            cause matches Some(error) ==> self@.failure == Some(error@),
    {
        self.failure.as_ref()
    }

    /// What the clock reported, if it was the clock that ended the stream.
    pub fn clock_error(&self) -> (report: Option<&SystemTimeError>)
        ensures
            report is Some <==> self@.clock_error is Some,
            report matches Some(error) ==> self@.clock_error == Some(*error),
    {
        self.clock_error.as_ref()
    }
}

/// The state of the stream that was made, if one was.
pub open spec fn state_of(made: Result<RMesgLinesIterator, RMesgError>) -> Option<IteratorState> {
    match made {
        Ok(stream) => Some(stream@),
        Err(_) => None,
    }
}

/// A new stream of kernel log lines that polls no more often than every
/// `poll_interval` and, with `clear` set, clears the buffer with each read.
///
/// The first snapshot is due at once: the clock is read, and the time of
/// the last poll is set as far before that reading as the wait between
/// polls is long. No stream is made when the poll interval and the margin
/// do not add up to a span that can be represented, or when the clock
/// cannot go back that far.
pub fn rmesg_lines_iter(clear: bool, poll_interval: Interval) -> (made: Result<
    RMesgLinesIterator,
    RMesgError,
>)
    ensures
        exists|now: SystemTime|
            state_of(made) == #[trigger] IteratorState::started(
                clear,
                poll_interval.total_nanos(),
                now,
            ),
        made matches Err(error) ==> error@ == RMesgErrorView::UnableToAddDurationToSystemTime,
        made matches Ok(stream) ==> stream@.well_formed(),
{
    let now = clock_now();
    match PollSchedule::new(poll_interval) {
        None => {
            let made = Err(RMesgError::UnableToAddDurationToSystemTime);
            assert(state_of(made) == IteratorState::started(
                clear,
                poll_interval.total_nanos(),
                now,
            ));
            made
        },
        Some(schedule) => {
            let last_poll = time_before(&now, &schedule.sleep_interval());
            let made = RMesgLinesIterator::with_last_poll(clear, poll_interval, last_poll);
            assert(state_of(made) == IteratorState::started(
                clear,
                poll_interval.total_nanos(),
                now,
            ));
            made
        },
    }
}

/// Every move keeps a state well formed: the wait stays the poll interval
/// and the margin, and so the longer of the two.
pub proof fn law_moves_keep_well_formed(
    state: IteratorState,
    now: SystemTime,
    elapsed: Result<nat, SystemTimeError>,
    text: Seq<char>,
    cause: RMesgErrorView,
)
    requires
        state.well_formed(),
    ensures
        state.sleep_interval > state.poll_interval,
        state.polled(text).well_formed(),
        state.drained().0.well_formed(),
        state.pulled(now, elapsed).0.well_formed(),
        state.snapshot_read(text).0.well_formed(),
        state.read_failed(cause).0.well_formed(),
{
}

/// Rate limit. Take a pull at the clock reading `now`, answered for the
/// span that the clock finds between the last poll and `now`. It asks for
/// a snapshot that is not yet owed only when that span is the poll
/// interval or more, and `now` is then the time of the last poll: the next
/// snapshot is measured from it. A pull that asks for none leaves the time
/// of the last poll as it was. The arrival of a snapshot, or the failure
/// of a read, asks for none, and a wait is always longer than the poll
/// interval.
pub proof fn law_snapshot_only_when_due(
    state: IteratorState,
    now: SystemTime,
    text: Seq<char>,
    cause: RMesgErrorView,
)
    requires
        state.well_formed(),
    ensures
        !state.due && state.pulled(now, span_between(now, state.last_poll)).1 is ReadSnapshot
            ==> span_between(now, state.last_poll) is Ok && span_between(
            now,
            state.last_poll,
        )->Ok_0 >= state.poll_interval,
        !state.due && state.pulled(now, span_between(now, state.last_poll)).1 is ReadSnapshot
            ==> state.pulled(now, span_between(now, state.last_poll)).0.last_poll == now
            && state.pulled(now, span_between(now, state.last_poll)).0.phase() == Phase::Due,
        !(state.pulled(now, span_between(now, state.last_poll)).1 is ReadSnapshot) ==> state.pulled(
            now,
            span_between(now, state.last_poll),
        ).0.last_poll == state.last_poll,
        !(state.snapshot_read(text).1 is ReadSnapshot),
        !(state.read_failed(cause).1 is ReadSnapshot),
        state.snapshot_read(text).0.last_poll == state.last_poll,
        state.pulled(now, span_between(now, state.last_poll)).1 matches ActionView::Sleep(wait)
            ==> wait > state.poll_interval,
        state.snapshot_read(text).1 matches ActionView::Sleep(wait) ==> wait > state.poll_interval,
{
}

/// A stream that has ended stays ended: every move answers with the end
/// and leaves the state as it is.
pub proof fn law_failure_is_final(
    state: IteratorState,
    now: SystemTime,
    elapsed: Result<nat, SystemTimeError>,
    text: Seq<char>,
    cause: RMesgErrorView,
)
    requires
        state.phase() == Phase::Failed,
    ensures
        state.pulled(now, elapsed) == (state, ActionView::End),
        state.snapshot_read(text) == (state, ActionView::End),
        state.read_failed(cause) == (state, ActionView::End),
{
}

/// The snapshots with the contents `texts`, each as its lines.
pub open spec fn snapshot_lines(texts: Seq<Seq<char>>) -> Seq<Seq<Seq<char>>> {
    Seq::new(texts.len(), |i: int| lines_of(texts[i]))
}

/// What a stream without an anchor queues over a run of snapshots is what
/// the session on their lines delivers, and its anchor is the session's.
pub proof fn law_polls_queue_the_session(state: IteratorState, texts: Seq<Seq<char>>)
    requires
        state.last_line is None,
    ensures
        state.polled_all(texts).pending == state.pending + session_lines(snapshot_lines(texts)),
        state.polled_all(texts).last_line == session_anchor(snapshot_lines(texts)),
    decreases texts.len(),
{
    let snapshots = snapshot_lines(texts);
    if texts.len() == 0 {
        assert(state.pending + session_lines(snapshots) =~= state.pending);
    } else {
        let earlier = texts.drop_last();
        law_polls_queue_the_session(state, earlier);
        assert(snapshot_lines(earlier) =~= snapshots.drop_last());
        assert(snapshots.last() == lines_of(texts.last()));
        let before = state.polled_all(earlier);
        assert(before.pending + new_lines(snapshots.last(), before.last_line) =~= state.pending
            + session_lines(snapshots));
    }
}

/// Delivery is first in, first out, and each line is delivered once: a
/// line that is delivered is the oldest that was pending and is pending no
/// longer, and the others keep their order.
pub proof fn law_delivery_in_order(state: IteratorState)
    requires
        state.pending.len() > 0,
    ensures
        state.drained().1 == ActionView::Line(state.pending[0]),
        state.drained().0.pending == state.pending.skip(1),
        state.drained().0.last_line == state.last_line,
{
}

} // verus!
