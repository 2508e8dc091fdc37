//! The tap session: it waits for a first tap, then counts the taps that
//! follow and remembers when the first and the latest one came.

use vstd::prelude::*;
use crate::key::{InputEvent, KeyEvent, Signal, classify, signal_of};
use crate::report::Tally;

verus! {

/// Where a session stands.
#[derive(Clone, Copy, Debug, PartialEq, Eq, Structural)]
pub enum Phase {
    /// No tap yet: the timer has not started.
    Waiting,
    /// The first tap has come: further taps are counted.
    Measuring,
    /// Stopped after the first tap: there is a result.
    Finished,
    /// Stopped before any tap: there is no result.
    Cancelled,
}

/// The mathematical state of a session. Times are microseconds on the
/// caller's clock.
pub struct SessionView {
    /// Whether the terminal reports press, repeat and release apart.
    pub enhanced: bool,
    pub phase: Phase,
    /// When the first tap came.
    pub start: nat,
    /// When the latest tap came.
    pub last: nat,
    /// The taps after the first one.
    pub count: nat,
}

impl SessionView {
    /// A session that has heard nothing yet.
    pub open spec fn fresh(enhanced: bool) -> SessionView {
        SessionView { enhanced, phase: Phase::Waiting, start: 0, last: 0, count: 0 }
    }

    /// The session after one more input event, which arrived at `now`.
    ///
    /// While waiting, a tap starts the timer and a stop cancels. While
    /// measuring, a tap is counted and moves `last`, and a stop finishes.
    /// A session that has ended hears nothing more.
    pub open spec fn hear(self, event: InputEvent, now: nat) -> SessionView {
        match (self.phase, signal_of(self.enhanced, event)) {
            (Phase::Waiting, Signal::Tap) => SessionView {
                phase: Phase::Measuring,
                start: now,
                last: now,
                ..self
            },
            (Phase::Waiting, Signal::Stop) => SessionView { phase: Phase::Cancelled, ..self },
            (Phase::Measuring, Signal::Tap) => SessionView {
                count: self.count + 1,
                last: now,
                ..self
            },
            (Phase::Measuring, Signal::Stop) => SessionView { phase: Phase::Finished, ..self },
            _ => self,
        }
    }

    /// The session after a whole sequence of timed events, in order.
    pub open spec fn hear_all(self, events: Seq<(InputEvent, nat)>) -> SessionView
        decreases events.len(),
    {
        if events.len() == 0 {
            self
        } else {
            self.hear_all(events.drop_last()).hear(events.last().0, events.last().1)
        }
    }

    /// Whether the session has ended, with or without a result.
    pub open spec fn is_over(self) -> bool {
        self.phase is Finished || self.phase is Cancelled
    }

    /// The microseconds from the first tap to the last; zero where the
    /// clock ran backwards.
    pub open spec fn elapsed(self) -> nat {
        if self.last >= self.start {
            (self.last - self.start) as nat
        } else {
            0
        }
    }

    /// What holds of every session that was reached from a fresh one:
    /// before the first tap nothing has been counted or timed.
    pub open spec fn wf(self) -> bool {
        (self.phase is Waiting || self.phase is Cancelled) ==> self.count == 0 && self.start == 0
            && self.last == 0
    }
}

/// A tap session.
#[derive(Clone, Copy, Debug)]
pub struct Session {
    enhanced: bool,
    phase: Phase,
    start: u128,
    last: u128,
    count: u32,
}

impl View for Session {
    type V = SessionView;

    closed spec fn view(&self) -> SessionView {
        SessionView {
            enhanced: self.enhanced,
            phase: self.phase,
            start: self.start as nat,
            last: self.last as nat,
            count: self.count as nat,
        }
    }
}

impl Session {
    /// The figures of a session in memory are within the range of their
    /// machine types.
    pub proof fn lemma_in_range(&self)
        ensures
            self@.count <= u32::MAX,
            self@.start <= u128::MAX,
            self@.last <= u128::MAX,
    {
    }

    /// Starts a session that waits for its first tap.
    pub fn new(enhanced: bool) -> (session: Session)
        ensures
            session@ == SessionView::fresh(enhanced),
            session@.wf(),
    {
        Session { enhanced, phase: Phase::Waiting, start: 0, last: 0, count: 0 }
    }

    /// Whether the terminal reports press, repeat and release apart.
    pub fn enhanced(&self) -> (enhanced: bool)
        ensures
            enhanced == self@.enhanced,
    {
        self.enhanced
    }

    /// Where the session stands.
    pub fn phase(&self) -> (phase: Phase)
        ensures
            phase == self@.phase,
    {
        self.phase
    }

    /// Whether the session has ended, with or without a result.
    pub fn is_over(&self) -> (over: bool)
        ensures
            over == self@.is_over(),
    {
        matches!(self.phase, Phase::Finished | Phase::Cancelled)
    }

    /// The taps after the first one.
    pub fn count(&self) -> (count: u32)
        ensures
            count == self@.count,
    {
        self.count
    }

    /// When the first tap came.
    pub fn start(&self) -> (start: u128)
        ensures
            start == self@.start,
    {
        self.start
    }

    /// When the latest tap came.
    pub fn last(&self) -> (last: u128)
        ensures
            last == self@.last,
    {
        self.last
    }

    /// Whether one more event can be heard without the counter leaving
    /// its range.
    pub fn has_room(&self) -> (b: bool)
        ensures
            b == (self@.count < u32::MAX),
            b ==> forall|event: InputEvent, now: nat| #[trigger]
                self@.hear(event, now).count <= u32::MAX,
    {
        self.count < u32::MAX
    }

    /// Hears one input event that arrived at `now`.
    ///
    /// The counter must be able to hold the tap that the event may be; a
    /// caller that cannot know it asks `has_room` first.
    pub fn hear(&mut self, event: &InputEvent, now: u128)
        requires
            old(self)@.hear(*event, now as nat).count <= u32::MAX,
        ensures
            final(self)@ == old(self)@.hear(*event, now as nat),
            old(self)@.wf() ==> final(self)@.wf(),
    {
        let signal = classify(self.enhanced, event);
        match self.phase {
            Phase::Waiting => match signal {
                Signal::Tap => {
                    self.phase = Phase::Measuring;
                    self.start = now;
                    self.last = now;
                },
                Signal::Stop => {
                    self.phase = Phase::Cancelled;
                },
                Signal::Ignore => {},
            },
            Phase::Measuring => match signal {
                Signal::Tap => {
                    self.count = self.count + 1;
                    self.last = now;
                },
                Signal::Stop => {
                    self.phase = Phase::Finished;
                },
                Signal::Ignore => {},
            },
            Phase::Finished => {},
            Phase::Cancelled => {},
        }
    }

    /// The figures of the session, once it has finished. A session that is
    /// still running, or was cancelled before its first tap, has none.
    pub fn tally(&self) -> (tally: Option<Tally>)
        ensures
            tally is Some <==> self@.phase is Finished,
            tally matches Some(t) ==> t.count == self@.count && t.micros == self@.elapsed(),
    {
        match self.phase {
            Phase::Finished => {
                let micros: u128 = if self.last >= self.start {
                    self.last - self.start
                } else {
                    0
                };
                Some(Tally { count: self.count, micros })
            },
            _ => None,
        }
    }
}

/// Hearing an event keeps what holds of every reachable session, and never
/// changes what the session believes of the terminal.
pub proof fn law_hear_keeps_wf(session: SessionView, event: InputEvent, now: nat)
    requires
        session.wf(),
    ensures
        session.hear(event, now).wf(),
        session.hear(event, now).enhanced == session.enhanced,
{
}

/// A session that has ended stays as it is, whatever it is handed.
pub proof fn law_over_is_final(session: SessionView, event: InputEvent, now: nat)
    requires
        session.is_over(),
    ensures
        session.hear(event, now) == session,
{
}

/// An event that gives no signal leaves the session as it is.
pub proof fn law_ignored_changes_nothing(session: SessionView, event: InputEvent, now: nat)
    requires
        signal_of(session.enhanced, event) == Signal::Ignore,
    ensures
        session.hear(event, now) == session,
{
}

/// A character key held together with any modifier is never counted and
/// never starts the timer: the count and both times stay, and a session
/// that was not measuring is not measuring afterwards.
pub proof fn law_modified_character_is_no_tap(session: SessionView, key: KeyEvent, now: nat)
    requires
        key.code is Char,
        !key.modifiers.is_empty(),
    ensures
        ({
            let after = session.hear(InputEvent::Key(key), now);
            &&& after.count == session.count
            &&& after.start == session.start
            &&& after.last == session.last
            &&& after.phase is Measuring ==> session.phase is Measuring
        }),
{
}

/// Stopping before the first tap cancels: nothing was counted or timed,
/// and the session has no result.
pub proof fn law_stop_while_waiting_cancels(session: SessionView, event: InputEvent, now: nat)
    requires
        session.wf(),
        session.phase is Waiting,
        signal_of(session.enhanced, event) == Signal::Stop,
    ensures
        session.hear(event, now) == (SessionView { phase: Phase::Cancelled, ..session }),
        session.hear(event, now).count == 0,
        session.hear(event, now).elapsed() == 0,
{
}

/// Hearing two sequences one after the other is hearing them joined.
pub proof fn lemma_hear_all_concat(
    session: SessionView,
    first: Seq<(InputEvent, nat)>,
    second: Seq<(InputEvent, nat)>,
)
    ensures
        session.hear_all(first + second) == session.hear_all(first).hear_all(second),
    decreases second.len(),
{
    if second.len() == 0 {
        assert(first + second =~= first);
    } else {
        assert((first + second).drop_last() =~= first + second.drop_last());
        assert((first + second).last() == second.last());
        lemma_hear_all_concat(session, first, second.drop_last());
    }
}

/// Hearing one event is hearing the sequence that holds it alone.
pub proof fn lemma_hear_all_one(session: SessionView, event: InputEvent, now: nat)
    ensures
        session.hear_all(seq![(event, now)]) == session.hear(event, now),
{
    let one = seq![(event, now)];
    assert(one.drop_last() =~= Seq::<(InputEvent, nat)>::empty());
    assert(session.hear_all(one.drop_last()) == session);
    assert(one.last() == (event, now));
}

/// A sequence of events none of which gives a signal leaves the session as
/// it is.
pub proof fn lemma_unheard_changes_nothing(session: SessionView, events: Seq<(InputEvent, nat)>)
    requires
        forall|i: int|
            0 <= i < events.len() ==> signal_of(session.enhanced, #[trigger] events[i].0)
                == Signal::Ignore,
    ensures
        session.hear_all(events) == session,
    decreases events.len(),
{
    if events.len() > 0 {
        let front = events.drop_last();
        assert forall|i: int| 0 <= i < front.len() implies signal_of(
            session.enhanced,
            #[trigger] front[i].0,
        ) == Signal::Ignore by {
            assert(front[i] == events[i]);
        }
        lemma_unheard_changes_nothing(session, front);
        assert(signal_of(session.enhanced, events[events.len() - 1].0) == Signal::Ignore);
    }
}

} // verus!
