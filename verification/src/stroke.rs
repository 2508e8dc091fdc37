//! Key strokes as the user makes them, the events in which a terminal
//! delivers them, and the proof that a session counts every stroke once.

use vstd::prelude::*;
use crate::key::{InputEvent, KeyCode, KeyEvent, KeyKind, Modifiers, Signal, is_tap_key, signal_of};
use crate::session::{
    SessionView,
    lemma_hear_all_concat,
    lemma_hear_all_one,
    lemma_unheard_changes_nothing,
};

verus! {

/// One stroke of a key: it goes down, may repeat while it is held, and
/// comes up again. Times are microseconds on the caller's clock.
pub struct Stroke {
    pub code: KeyCode,
    pub modifiers: Modifiers,
    /// When the key went down.
    pub pressed: nat,
    /// When the key repeated, once for each repeat.
    pub repeats: Seq<nat>,
    /// When the key came up.
    pub released: nat,
}

impl Stroke {
    /// The event that reports one part of the stroke.
    pub open spec fn part(self, kind: KeyKind) -> InputEvent {
        InputEvent::Key(KeyEvent { code: self.code, modifiers: self.modifiers, kind })
    }

    /// Whether the stroke is a tap: a character key with no modifier held.
    pub open spec fn is_tap(self) -> bool {
        self.code is Char && self.modifiers.is_empty()
    }

    /// The events in which a terminal delivers the stroke: a press, the
    /// repeats and a release where reporting is enhanced, a single press
    /// where it is not.
    pub open spec fn events(self, enhanced: bool) -> Seq<(InputEvent, nat)> {
        if enhanced {
            seq![(self.part(KeyKind::Press), self.pressed)] + Seq::new(
                self.repeats.len(),
                |i: int| (self.part(KeyKind::Repeat), self.repeats[i]),
            ) + seq![(self.part(KeyKind::Release), self.released)]
        } else {
            seq![(self.part(KeyKind::Press), self.pressed)]
        }
    }

    /// The one event of the stroke that a session hears.
    pub open spec fn heard(self, enhanced: bool) -> InputEvent {
        if enhanced {
            self.part(KeyKind::Release)
        } else {
            self.part(KeyKind::Press)
        }
    }

    /// The time at which a session hears the stroke.
    pub open spec fn heard_at(self, enhanced: bool) -> nat {
        if enhanced {
            self.released
        } else {
            self.pressed
        }
    }
}

/// The events in which a terminal delivers a sequence of strokes.
pub open spec fn events_of(enhanced: bool, strokes: Seq<Stroke>) -> Seq<(InputEvent, nat)>
    decreases strokes.len(),
{
    if strokes.len() == 0 {
        Seq::empty()
    } else {
        events_of(enhanced, strokes.drop_last()) + strokes.last().events(enhanced)
    }
}

/// A whole stroke acts on a session as the one event that is heard of it,
/// however many events the terminal made of it.
pub proof fn law_stroke_is_heard_once(session: SessionView, stroke: Stroke)
    ensures
        session.hear_all(stroke.events(session.enhanced)) == session.hear(
            stroke.heard(session.enhanced),
            stroke.heard_at(session.enhanced),
        ),
{
    if session.enhanced {
        let down = seq![(stroke.part(KeyKind::Press), stroke.pressed)];
        let held = Seq::new(
            stroke.repeats.len(),
            |i: int| (stroke.part(KeyKind::Repeat), stroke.repeats[i]),
        );
        let up = seq![(stroke.part(KeyKind::Release), stroke.released)];
        assert(stroke.events(true) == down + held + up);
        lemma_unheard_changes_nothing(session, down + held);
        lemma_hear_all_concat(session, down + held, up);
        lemma_hear_all_one(session, stroke.part(KeyKind::Release), stroke.released);
    } else {
        lemma_hear_all_one(session, stroke.part(KeyKind::Press), stroke.pressed);
    }
}

/// The signal of a stroke does not depend on how the terminal reports it.
pub proof fn law_stroke_signal_is_the_same(stroke: Stroke)
    ensures
        signal_of(true, stroke.heard(true)) == signal_of(false, stroke.heard(false)),
        stroke.is_tap() <==> signal_of(true, stroke.heard(true)) == Signal::Tap,
{
}

/// While a session measures, every tap stroke adds exactly one to the
/// count, with or without enhanced reporting: after `n` such strokes the
/// count has grown by `n`, and `last` is the time at which the latest one
/// was heard.
pub proof fn law_measured_strokes_count_once(session: SessionView, strokes: Seq<Stroke>)
    requires
        session.phase is Measuring,
        forall|i: int| 0 <= i < strokes.len() ==> (#[trigger] strokes[i]).is_tap(),
    ensures
        ({
            let after = session.hear_all(events_of(session.enhanced, strokes));
            &&& after.phase is Measuring
            &&& after.enhanced == session.enhanced
            &&& after.start == session.start
            &&& after.count == session.count + strokes.len()
            &&& after.last == if strokes.len() == 0 {
                session.last
            } else {
                strokes.last().heard_at(session.enhanced)
            }
        }),
    decreases strokes.len(),
{
    if strokes.len() > 0 {
        let front = strokes.drop_last();
        let stroke = strokes.last();
        assert forall|i: int| 0 <= i < front.len() implies (#[trigger] front[i]).is_tap() by {
            assert(front[i] == strokes[i]);
        }
        law_measured_strokes_count_once(session, front);
        let before = session.hear_all(events_of(session.enhanced, front));
        lemma_hear_all_concat(
            session,
            events_of(session.enhanced, front),
            stroke.events(session.enhanced),
        );
        law_stroke_is_heard_once(before, stroke);
        assert(stroke.is_tap());
        assert(is_tap_key(KeyEvent { code: stroke.code, modifiers: stroke.modifiers, kind: KeyKind::Press }));
    }
}

/// From a fresh session, the first tap stroke starts the timer and every
/// later one is counted once, with or without enhanced reporting: after
/// `n` tap strokes, `n` at least one, the count is `n - 1`, `start` is the
/// time at which the first was heard and `last` that of the latest.
pub proof fn law_strokes_count_once(enhanced: bool, strokes: Seq<Stroke>)
    requires
        strokes.len() >= 1,
        forall|i: int| 0 <= i < strokes.len() ==> (#[trigger] strokes[i]).is_tap(),
    ensures
        ({
            let after = SessionView::fresh(enhanced).hear_all(events_of(enhanced, strokes));
            &&& after.phase is Measuring
            &&& after.count == strokes.len() - 1
            &&& after.start == strokes[0].heard_at(enhanced)
            &&& after.last == strokes.last().heard_at(enhanced)
            &&& after.elapsed() == if strokes.last().heard_at(enhanced) >= strokes[0].heard_at(
                enhanced,
            ) {
                strokes.last().heard_at(enhanced) - strokes[0].heard_at(enhanced)
            } else {
                0
            }
        }),
{
    let fresh = SessionView::fresh(enhanced);
    let first = strokes[0];
    let rest = strokes.subrange(1, strokes.len() as int);
    lemma_events_of_split(enhanced, strokes);
    lemma_hear_all_concat(fresh, first.events(enhanced), events_of(enhanced, rest));
    law_stroke_is_heard_once(fresh, first);
    let started = fresh.hear(first.heard(enhanced), first.heard_at(enhanced));
    assert(first.is_tap());
    assert(started.phase is Measuring);
    assert forall|i: int| 0 <= i < rest.len() implies (#[trigger] rest[i]).is_tap() by {
        assert(rest[i] == strokes[i + 1]);
    }
    law_measured_strokes_count_once(started, rest);
    if rest.len() > 0 {
        assert(rest.last() == strokes.last());
    }
}

/// The events of a sequence of strokes are those of the first stroke,
/// then those of the others.
pub proof fn lemma_events_of_split(enhanced: bool, strokes: Seq<Stroke>)
    requires
        strokes.len() >= 1,
    ensures
        events_of(enhanced, strokes) == strokes[0].events(enhanced) + events_of(
            enhanced,
            strokes.subrange(1, strokes.len() as int),
        ),
    decreases strokes.len(),
{
    let rest = strokes.subrange(1, strokes.len() as int);
    if strokes.len() == 1 {
        assert(strokes.drop_last() =~= Seq::<Stroke>::empty());
        assert(rest =~= Seq::<Stroke>::empty());
        assert(events_of(enhanced, strokes.drop_last()) =~= Seq::<(InputEvent, nat)>::empty());
        assert(events_of(enhanced, strokes) =~= strokes[0].events(enhanced));
        assert(strokes[0].events(enhanced) + events_of(enhanced, rest) =~= strokes[0].events(
            enhanced,
        ));
    } else {
        let front = strokes.drop_last();
        lemma_events_of_split(enhanced, front);
        assert(front.subrange(1, front.len() as int) =~= rest.drop_last());
        assert(front[0] == strokes[0]);
        assert(rest.last() == strokes.last());
        assert(events_of(enhanced, strokes) =~= strokes[0].events(enhanced) + (events_of(
            enhanced,
            rest.drop_last(),
        ) + rest.last().events(enhanced)));
    }
}

} // verus!
