//! The terminal as a run changes it, and the proof that no run leaves it
//! in raw mode.
//!
//! Nothing here is executed. The model follows the actions that a run asks
//! for and the replies it gets, and records what they do to the terminal.

use vstd::prelude::*;
use crate::key::{InputEvent, Signal, signal_of};
use crate::run::{
    Action,
    Capability,
    Fault,
    Outcome,
    Reply,
    RunView,
    Stage,
    law_reachable_is_wf,
};
use crate::session::{Phase, SessionView, law_hear_keeps_wf};

verus! {

/// What is known of the terminal while a run goes on.
pub struct Terminal {
    /// Raw mode is on.
    pub raw: bool,
    /// The reporting of event kinds was switched on and not off again.
    pub reporting: bool,
    /// How often the terminal was asked to go back to cooked mode.
    pub restores: nat,
    /// The terminal refused to go back to cooked mode.
    pub restore_refused: bool,
    /// The terminal refused to switch the reporting off.
    pub pop_refused: bool,
    /// The banner has been written.
    pub banner: bool,
    /// How often the result has been written.
    pub reports: nat,
}

impl Terminal {
    /// The terminal before a run: cooked, with nothing switched on.
    pub open spec fn cooked() -> Terminal {
        Terminal {
            raw: false,
            reporting: false,
            restores: 0,
            restore_refused: false,
            pop_refused: false,
            banner: false,
            reports: 0,
        }
    }

    /// The terminal after the driver has performed `action` and got
    /// `reply`. An action that failed has changed nothing.
    pub open spec fn after(self, action: Action, reply: Reply) -> Terminal {
        let done = !(reply is Failed);
        match action {
            Action::EnterRawMode => Terminal { raw: self.raw || done, ..self },
            Action::PushFlags => Terminal { reporting: self.reporting || done, ..self },
            Action::PopFlags => Terminal {
                reporting: self.reporting && !done,
                pop_refused: self.pop_refused || !done,
                ..self
            },
            Action::LeaveRawMode => Terminal {
                raw: self.raw && !done,
                restores: self.restores + 1,
                restore_refused: self.restore_refused || !done,
                ..self
            },
            Action::WriteBanner => Terminal { banner: self.banner || done, ..self },
            Action::WriteReport => Terminal {
                reports: if done {
                    self.reports + 1
                } else {
                    self.reports
                },
                ..self
            },
            _ => self,
        }
    }

    /// The terminal after a run that began at `run` has taken `replies`,
    /// each one the reply to the action that the run asked for.
    pub open spec fn after_all(self, run: RunView, replies: Seq<Reply>) -> Terminal
        decreases replies.len(),
    {
        if replies.len() == 0 {
            self
        } else {
            self.after_all(run, replies.drop_last()).after(
                run.step_all(replies.drop_last()).action(),
                replies.last(),
            )
        }
    }

    /// How the terminal and a run belong together at every moment.
    ///
    /// Before raw mode is entered the terminal is untouched. From then on
    /// it is raw until the run has asked, once, to leave raw mode; and the
    /// reporting is on only while the session counts on it. Events are
    /// read with the banner on the screen. The result is written once, in
    /// cooked mode, by a run that completes, and never by another. At the
    /// end the terminal is cooked with the reporting off, unless it
    /// refused.
    pub open spec fn fits(self, run: RunView) -> bool {
        match run.stage {
            Stage::Probing | Stage::Entering => self == Terminal::cooked(),
            Stage::Enhancing => self == (Terminal { raw: true, ..Terminal::cooked() }),
            Stage::Greeting | Stage::Listening | Stage::Unenhancing => {
                &&& self.raw
                &&& self.restores == 0
                &&& self.reporting ==> run.session.enhanced
                &&& self.banner == !(run.stage is Greeting || run.fault == Some(Fault::WriteBanner))
                &&& self.reports == 0
            },
            Stage::Restoring => {
                &&& self.raw
                &&& self.restores == 0
                &&& self.reporting ==> self.pop_refused
                &&& self.banner == !(run.fault == Some(Fault::WriteBanner))
                &&& self.reports == 0
            },
            Stage::Reporting => {
                &&& !self.raw
                &&& self.restores == 1
                &&& self.reporting ==> self.pop_refused
                &&& self.banner
                &&& self.reports == 0
            },
            Stage::Done => {
                &&& self.raw ==> self.restore_refused
                &&& self.reporting ==> self.pop_refused
                &&& self.restores == if run.fault == Some(Fault::EnterRawMode) {
                    0nat
                } else {
                    1nat
                }
                &&& self.reports == if run.outcome() == Outcome::Completed {
                    1nat
                } else {
                    0nat
                }
                &&& self.reports == 1 ==> !self.raw && self.banner
            },
        }
    }
}

/// One step, and what it does to the terminal, keep the two together.
pub proof fn law_step_keeps_fit(run: RunView, terminal: Terminal, reply: Reply)
    requires
        run.wf(),
        terminal.fits(run),
    ensures
        terminal.after(run.action(), reply).fits(run.step(reply)),
{
    if run.stage is Listening {
        if let Reply::Input(event, now) = reply {
            law_hear_keeps_wf(run.session, event, now as nat);
        }
    }
}

/// The terminal is restored after every run.
///
/// Whatever the capability and whatever the replies: while events are
/// read the terminal is in raw mode, with the banner written; the run asks
/// at most once to leave raw mode; and once the run is over, with a
/// result, cancelled or failed, the terminal is in cooked mode with the
/// reporting off, unless the terminal itself refused the call that would
/// have restored it. A run that never got into raw mode never asks to
/// leave it. The result is written by a run that completes, once and in
/// cooked mode, and by no other.
pub proof fn law_terminal_restored(capability: Capability, replies: Seq<Reply>)
    ensures
        ({
            let run = RunView::start(capability).step_all(replies);
            let terminal = Terminal::cooked().after_all(RunView::start(capability), replies);
            &&& terminal.fits(run)
            &&& run.stage is Listening ==> terminal.raw && terminal.banner
            &&& terminal.restores <= 1
            &&& terminal.reports <= 1
            &&& run.stage is Done ==> {
                &&& terminal.raw ==> terminal.restore_refused
                &&& terminal.reporting ==> terminal.pop_refused
                &&& terminal.restores == 0 <==> run.fault == Some(Fault::EnterRawMode)
                &&& terminal.reports == 1 <==> run.outcome() == Outcome::Completed
            }
        }),
    decreases replies.len(),
{
    if replies.len() > 0 {
        let start = RunView::start(capability);
        law_terminal_restored(capability, replies.drop_last());
        law_reachable_is_wf(capability, replies.drop_last());
        law_step_keeps_fit(
            start.step_all(replies.drop_last()),
            Terminal::cooked().after_all(start, replies.drop_last()),
            replies.last(),
        );
    }
}

/// A run that is over stays as it is and asks for nothing more.
pub proof fn law_done_is_final(run: RunView, reply: Reply)
    requires
        run.stage is Done,
    ensures
        run.step(reply) == run,
        run.action() == Action::Exit(run.outcome()),
{
}

/// A run that was stopped before the first tap only restores the terminal.
///
/// Where the run reads events and its session still waits, a stop ends the
/// session without a result and sends the run on its way out of raw mode.
/// Whatever replies follow, the run never asks for a report, nothing was
/// counted, and it ends as cancelled unless leaving raw mode failed.
pub proof fn law_stop_before_first_tap(
    run: RunView,
    event: InputEvent,
    now: u128,
    replies: Seq<Reply>,
)
    requires
        run.wf(),
        run.stage is Listening,
        run.session.phase is Waiting,
        signal_of(run.session.enhanced, event) == Signal::Stop,
    ensures
        ({
            let stopped = run.step(Reply::Input(event, now));
            let after = stopped.step_all(replies);
            &&& stopped == (RunView {
                session: SessionView { phase: Phase::Cancelled, ..run.session },
                ..run
            }).close()
            &&& after.session == stopped.session
            &&& after.session.count == 0
            &&& after.stage is Unenhancing || after.stage is Restoring || after.stage is Done
            &&& after.outcome() == Outcome::Cancelled || (after.stage is Done && after.outcome()
                == Outcome::Failed(Fault::LeaveRawMode))
        }),
    decreases replies.len(),
{
    if replies.len() > 0 {
        law_stop_before_first_tap(run, event, now, replies.drop_last());
    }
}

} // verus!
