//! One run of the program as a machine that is driven from outside.
//!
//! The machine never touches the terminal. It names the next action, the
//! driver performs it and hands back a reply, and the machine decides what
//! comes next: the order in which raw mode and enhanced keyboard reporting
//! are switched on and off, when events are read, and how the run ends.

use vstd::prelude::*;
use crate::key::InputEvent;
use crate::report::Tally;
use crate::session::{Phase, Session, SessionView, law_hear_keeps_wf};

verus! {

/// How the machine learns whether the terminal reports press, repeat and
/// release apart.
#[derive(Clone, Copy, Debug, PartialEq, Eq, Structural)]
pub enum Capability {
    /// The terminal is asked.
    Probed,
    /// The platform offers no reliable query: support is taken for granted,
    /// and nothing is switched on.
    Assumed,
}

/// What the driver is asked to do.
#[derive(Clone, Copy, Debug, PartialEq, Eq, Structural)]
pub enum Action {
    /// Ask the terminal whether it supports enhanced keyboard reporting.
    Probe,
    /// Put the terminal into raw mode.
    EnterRawMode,
    /// Switch on the reporting of event kinds.
    PushFlags,
    /// Write the banner to standard output.
    WriteBanner,
    /// Block until the next input event, and note the time.
    ReadEvent,
    /// Switch off what `PushFlags` switched on.
    PopFlags,
    /// Put the terminal back into cooked mode.
    LeaveRawMode,
    /// Write the two lines of the result to standard output.
    WriteReport,
    /// Leave: the run is over.
    Exit(Outcome),
}

/// What the driver hands back after an action.
///
/// Every reply but `Failed` counts as success. Where an action expects an
/// answer and gets a bare `Done`, that is a success that brought nothing:
/// no support, no key event.
#[derive(Clone, Copy, Debug, PartialEq, Eq, Structural)]
pub enum Reply {
    /// The action succeeded.
    Done,
    /// The action failed with an I/O error.
    Failed,
    /// The answer to `Probe`.
    Supported(bool),
    /// The answer to `ReadEvent`: the event, and the microseconds on the
    /// driver's clock at which it arrived.
    Input(InputEvent, u128),
}

/// The action whose failure ends a run.
#[derive(Clone, Copy, Debug, PartialEq, Eq, Structural)]
pub enum Fault {
    EnterRawMode,
    WriteBanner,
    ReadEvent,
    LeaveRawMode,
    WriteReport,
}

impl Fault {
    /// The action that failed.
    pub open spec fn spec_action(&self) -> Action {
        match *self {
            Fault::EnterRawMode => Action::EnterRawMode,
            Fault::WriteBanner => Action::WriteBanner,
            Fault::ReadEvent => Action::ReadEvent,
            Fault::LeaveRawMode => Action::LeaveRawMode,
            Fault::WriteReport => Action::WriteReport,
        }
    }

    /// The action that failed.
    #[verifier::when_used_as_spec(spec_action)]
    pub fn action(&self) -> (action: Action)
        ensures
            action == self.spec_action(),
    {
        match self {
            Fault::EnterRawMode => Action::EnterRawMode,
            Fault::WriteBanner => Action::WriteBanner,
            Fault::ReadEvent => Action::ReadEvent,
            Fault::LeaveRawMode => Action::LeaveRawMode,
            Fault::WriteReport => Action::WriteReport,
        }
    }
}

/// How a run ended.
#[derive(Clone, Copy, Debug, PartialEq, Eq, Structural)]
pub enum Outcome {
    /// Taps were measured and reported.
    Completed,
    /// The user stopped before the first tap: nothing is reported.
    Cancelled,
    /// An action failed; its error is the one to show.
    Failed(Fault),
}

impl Outcome {
    /// The exit status of the process: 1 after a failure, else 0.
    pub open spec fn spec_exit_code(&self) -> u8 {
        if *self is Failed {
            1
        } else {
            0
        }
    }

    /// The exit status of the process.
    #[verifier::when_used_as_spec(spec_exit_code)]
    pub fn exit_code(&self) -> (code: u8)
        ensures
            code == self.spec_exit_code(),
    {
        match self {
            Outcome::Failed(_) => 1,
            _ => 0,
        }
    }
}

/// The step of a run that is waiting for its reply.
#[derive(Clone, Copy, Debug, PartialEq, Eq, Structural)]
pub enum Stage {
    Probing,
    Entering,
    Enhancing,
    Greeting,
    Listening,
    Unenhancing,
    Restoring,
    Reporting,
    Done,
}

/// The mathematical state of a run.
pub struct RunView {
    pub capability: Capability,
    pub stage: Stage,
    pub session: SessionView,
    /// The first failure that is not passed over.
    pub fault: Option<Fault>,
}

impl RunView {
    /// The run before anything was done.
    pub open spec fn start(capability: Capability) -> RunView {
        match capability {
            Capability::Probed => RunView {
                capability,
                stage: Stage::Probing,
                session: SessionView::fresh(false),
                fault: None,
            },
            Capability::Assumed => RunView {
                capability,
                stage: Stage::Entering,
                session: SessionView::fresh(true),
                fault: None,
            },
        }
    }

    /// How the run would end in its present state.
    pub open spec fn outcome(self) -> Outcome {
        match self.fault {
            Some(fault) => Outcome::Failed(fault),
            None => if self.session.phase is Finished {
                Outcome::Completed
            } else {
                Outcome::Cancelled
            },
        }
    }

    /// The action that the run is waiting on.
    pub open spec fn action(self) -> Action {
        match self.stage {
            Stage::Probing => Action::Probe,
            Stage::Entering => Action::EnterRawMode,
            Stage::Enhancing => Action::PushFlags,
            Stage::Greeting => Action::WriteBanner,
            Stage::Listening => Action::ReadEvent,
            Stage::Unenhancing => Action::PopFlags,
            Stage::Restoring => Action::LeaveRawMode,
            Stage::Reporting => Action::WriteReport,
            Stage::Done => Action::Exit(self.outcome()),
        }
    }

    /// The way out of raw mode begins: enhanced reporting is switched off
    /// first, where the session counts on it.
    pub open spec fn close(self) -> RunView {
        RunView {
            stage: if self.session.enhanced {
                Stage::Unenhancing
            } else {
                Stage::Restoring
            },
            ..self
        }
    }

    /// The run after the reply to its present action.
    ///
    /// A failed probe means no support, and a failed `PushFlags` or
    /// `PopFlags` is passed over. Any other failure is kept as the fault of
    /// the run; if raw mode is on by then, the run still goes through
    /// `close` before it ends.
    pub open spec fn step(self, reply: Reply) -> RunView {
        match self.stage {
            Stage::Probing => RunView {
                stage: Stage::Entering,
                session: SessionView::fresh(reply == Reply::Supported(true)),
                ..self
            },
            Stage::Entering => if reply is Failed {
                RunView { stage: Stage::Done, fault: Some(Fault::EnterRawMode), ..self }
            } else if self.capability is Probed && self.session.enhanced {
                RunView { stage: Stage::Enhancing, ..self }
            } else {
                RunView { stage: Stage::Greeting, ..self }
            },
            Stage::Enhancing => RunView {
                stage: Stage::Greeting,
                session: SessionView::fresh(!(reply is Failed)),
                ..self
            },
            Stage::Greeting => if reply is Failed {
                RunView { fault: Some(Fault::WriteBanner), ..self }.close()
            } else {
                RunView { stage: Stage::Listening, ..self }
            },
            Stage::Listening => match reply {
                Reply::Failed => RunView { fault: Some(Fault::ReadEvent), ..self }.close(),
                Reply::Input(event, now) => {
                    let heard = RunView { session: self.session.hear(event, now as nat), ..self };
                    if heard.session.is_over() {
                        heard.close()
                    } else {
                        heard
                    }
                },
                _ => self,
            },
            Stage::Unenhancing => RunView { stage: Stage::Restoring, ..self },
            Stage::Restoring => if reply is Failed {
                RunView {
                    stage: Stage::Done,
                    fault: if self.fault is Some {
                        self.fault
                    } else {
                        Some(Fault::LeaveRawMode)
                    },
                    ..self
                }
            } else if self.fault is None && self.session.phase is Finished {
                RunView { stage: Stage::Reporting, ..self }
            } else {
                RunView { stage: Stage::Done, ..self }
            },
            Stage::Reporting => RunView {
                stage: Stage::Done,
                fault: if reply is Failed {
                    Some(Fault::WriteReport)
                } else {
                    self.fault
                },
                ..self
            },
            Stage::Done => self,
        }
    }

    /// The run after a whole sequence of replies, in order.
    pub open spec fn step_all(self, replies: Seq<Reply>) -> RunView
        decreases replies.len(),
    {
        if replies.len() == 0 {
            self
        } else {
            self.step_all(replies.drop_last()).step(replies.last())
        }
    }

    /// Why a run may be on its way out of raw mode: its session has ended,
    /// or the banner could not be written, or an event could not be read.
    pub open spec fn closes_in_order(self) -> bool {
        match self.fault {
            None => self.session.is_over(),
            Some(fault) => fault == Fault::WriteBanner || fault == Fault::ReadEvent,
        }
    }

    /// What holds of every run that was reached from its start.
    pub open spec fn wf(self) -> bool {
        &&& self.session.wf()
        &&& match self.stage {
            Stage::Probing => self.capability is Probed && self.fault is None && self.session
                == SessionView::fresh(false),
            Stage::Entering => self.fault is None && self.session == SessionView::fresh(
                self.session.enhanced,
            ) && (self.capability is Assumed ==> self.session.enhanced),
            Stage::Enhancing => self.capability is Probed && self.fault is None && self.session
                == SessionView::fresh(true),
            Stage::Greeting => self.fault is None && self.session == SessionView::fresh(
                self.session.enhanced,
            ),
            Stage::Listening => self.fault is None && !self.session.is_over(),
            Stage::Unenhancing => self.session.enhanced && self.closes_in_order(),
            Stage::Restoring => self.closes_in_order(),
            Stage::Reporting => self.fault is None && self.session.phase is Finished,
            Stage::Done => self.fault is Some || self.session.is_over(),
        }
    }
}

/// One step keeps what holds of every reachable run.
pub proof fn law_step_keeps_wf(run: RunView, reply: Reply)
    requires
        run.wf(),
    ensures
        run.step(reply).wf(),
        run.step(reply).capability == run.capability,
{
    if run.stage is Listening {
        if let Reply::Input(event, now) = reply {
            law_hear_keeps_wf(run.session, event, now as nat);
        }
    }
}

/// Every run that was reached from its start is well formed.
pub proof fn law_reachable_is_wf(capability: Capability, replies: Seq<Reply>)
    ensures
        RunView::start(capability).step_all(replies).wf(),
    decreases replies.len(),
{
    if replies.len() > 0 {
        law_reachable_is_wf(capability, replies.drop_last());
        law_step_keeps_wf(RunView::start(capability).step_all(replies.drop_last()), replies.last());
    }
}

/// One run of the program.
#[derive(Clone, Copy, Debug)]
pub struct Run {
    capability: Capability,
    stage: Stage,
    session: Session,
    fault: Option<Fault>,
}

impl View for Run {
    type V = RunView;

    closed spec fn view(&self) -> RunView {
        RunView {
            capability: self.capability,
            stage: self.stage,
            session: self.session@,
            fault: self.fault,
        }
    }
}

impl Run {
    /// A run that has not begun.
    pub fn new(capability: Capability) -> (run: Run)
        ensures
            run@ == RunView::start(capability),
            run@.wf(),
    {
        match capability {
            Capability::Probed => Run {
                capability,
                stage: Stage::Probing,
                session: Session::new(false),
                fault: None,
            },
            Capability::Assumed => Run {
                capability,
                stage: Stage::Entering,
                session: Session::new(true),
                fault: None,
            },
        }
    }

    /// How the run learns what the terminal can do.
    pub fn capability(&self) -> (capability: Capability)
        ensures
            capability == self@.capability,
    {
        self.capability
    }

    /// The step that the run is at.
    pub fn stage(&self) -> (stage: Stage)
        ensures
            stage == self@.stage,
    {
        self.stage
    }

    /// The tap session of the run, as it stands.
    pub fn session(&self) -> (session: Session)
        ensures
            session@ == self@.session,
    {
        self.session
    }

    /// How the run would end in its present state.
    pub fn outcome(&self) -> (outcome: Outcome)
        ensures
            outcome == self@.outcome(),
    {
        match self.fault {
            Some(fault) => Outcome::Failed(fault),
            None => match self.session.phase() {
                Phase::Finished => Outcome::Completed,
                _ => Outcome::Cancelled,
            },
        }
    }

    /// The action that the driver is to perform now.
    pub fn action(&self) -> (action: Action)
        ensures
            action == self@.action(),
    {
        match self.stage {
            Stage::Probing => Action::Probe,
            Stage::Entering => Action::EnterRawMode,
            Stage::Enhancing => Action::PushFlags,
            Stage::Greeting => Action::WriteBanner,
            Stage::Listening => Action::ReadEvent,
            Stage::Unenhancing => Action::PopFlags,
            Stage::Restoring => Action::LeaveRawMode,
            Stage::Reporting => Action::WriteReport,
            Stage::Done => Action::Exit(self.outcome()),
        }
    }

    /// Whether any reply can be taken without the tap counter leaving its
    /// range.
    pub fn has_room(&self) -> (b: bool)
        ensures
            b == (self@.session.count < u32::MAX || !(self@.stage is Listening)),
            b ==> forall|reply: Reply| #[trigger] self@.step(reply).session.count <= u32::MAX,
    {
        proof {
            self.session.lemma_in_range();
        }
        self.session.has_room() || !matches!(self.stage, Stage::Listening)
    }

    fn close(&mut self)
        ensures
            final(self)@ == old(self)@.close(),
    {
        if self.session.enhanced() {
            self.stage = Stage::Unenhancing;
        } else {
            self.stage = Stage::Restoring;
        }
    }

    /// Takes the reply to the present action.
    ///
    /// The tap counter must be able to hold what the reply brings; a
    /// caller that cannot know it asks `has_room` first.
    pub fn step(&mut self, reply: Reply)
        requires
            old(self)@.step(reply).session.count <= u32::MAX,
        ensures
            final(self)@ == old(self)@.step(reply),
            old(self)@.wf() ==> final(self)@.wf(),
    {
        proof {
            if self@.wf() {
                law_step_keeps_wf(self@, reply);
            }
        }
        let failed = matches!(reply, Reply::Failed);
        match self.stage {
            Stage::Probing => {
                let supported = match reply {
                    Reply::Supported(answer) => answer,
                    _ => false,
                };
                self.session = Session::new(supported);
                self.stage = Stage::Entering;
            },
            Stage::Entering => {
                if failed {
                    self.fault = Some(Fault::EnterRawMode);
                    self.stage = Stage::Done;
                } else if matches!(self.capability, Capability::Probed) && self.session.enhanced() {
                    self.stage = Stage::Enhancing;
                } else {
                    self.stage = Stage::Greeting;
                }
            },
            Stage::Enhancing => {
                self.session = Session::new(!failed);
                self.stage = Stage::Greeting;
            },
            Stage::Greeting => {
                if failed {
                    self.fault = Some(Fault::WriteBanner);
                    self.close();
                } else {
                    self.stage = Stage::Listening;
                }
            },
            Stage::Listening => match reply {
                Reply::Failed => {
                    self.fault = Some(Fault::ReadEvent);
                    self.close();
                },
                Reply::Input(event, now) => {
                    self.session.hear(&event, now);
                    if self.session.is_over() {
                        self.close();
                    }
                },
                _ => {},
            },
            Stage::Unenhancing => {
                self.stage = Stage::Restoring;
            },
            Stage::Restoring => {
                if failed {
                    if self.fault.is_none() {
                        self.fault = Some(Fault::LeaveRawMode);
                    }
                    self.stage = Stage::Done;
                } else if self.fault.is_none() && matches!(self.session.phase(), Phase::Finished) {
                    self.stage = Stage::Reporting;
                } else {
                    self.stage = Stage::Done;
                }
            },
            Stage::Reporting => {
                if failed {
                    self.fault = Some(Fault::WriteReport);
                }
                self.stage = Stage::Done;
            },
            Stage::Done => {},
        }
    }

    /// The figures to report, once the session has finished.
    pub fn tally(&self) -> (tally: Option<Tally>)
        ensures
            tally is Some <==> self@.session.phase is Finished,
            tally matches Some(t) ==> t.count == self@.session.count && t.micros
                == self@.session.elapsed(),
    {
        self.session.tally()
    }
}

} // verus!
