//! What is left to do once the embedder has gone down.

use vstd::prelude::*;

use super::paint::Paint;

verus! {

/// What is to be done next. Each step but the last is reported on with whether it
/// came off.
#[derive(Copy, Clone, Debug, PartialEq, Eq, Structural)]
pub enum FinishStep {
    /// Take a message that still waits and drop it; it comes off if there was one.
    DropMessage,
    /// Ask the WebGL threads to exit and wait for their answer.
    ExitWebGl,
    /// Say that the WebGL threads could not be made to exit.
    WarnAboutWebGl,
    /// Open a channel for the answer of the time profiler.
    OpenProfilerReply,
    /// Ask the time profiler to exit, and wait for its answer, whatever it is.
    ExitTimeProfiler,
    /// Nothing is left.
    Finished,
}

impl FinishStep {
    /// What follows a step: messages are dropped until none waits, then the WebGL
    /// threads exit, or a warning is given, and at last the time profiler exits, if
    /// it can answer.
    pub open spec fn followed_by(self, came_off: bool) -> FinishStep {
        match self {
            FinishStep::DropMessage => if came_off {
                FinishStep::DropMessage
            } else {
                FinishStep::ExitWebGl
            },
            FinishStep::ExitWebGl => if came_off {
                FinishStep::OpenProfilerReply
            } else {
                FinishStep::WarnAboutWebGl
            },
            FinishStep::WarnAboutWebGl => FinishStep::OpenProfilerReply,
            FinishStep::OpenProfilerReply => if came_off {
                FinishStep::ExitTimeProfiler
            } else {
                FinishStep::Finished
            },
            FinishStep::ExitTimeProfiler => FinishStep::Finished,
            FinishStep::Finished => FinishStep::Finished,
        }
    }
}

impl Paint {
    /// What is to be done next, once `done`, if anything, has come off or not.
    pub fn finish_shutting_down(&self, done: Option<(FinishStep, bool)>) -> (r: FinishStep)
        ensures
            r == match done {
                None => FinishStep::DropMessage,
                Some((step, came_off)) => step.followed_by(came_off),
            },
    {
        match done {
            None => FinishStep::DropMessage,
            Some((FinishStep::DropMessage, true)) => FinishStep::DropMessage,
            Some((FinishStep::DropMessage, false)) => FinishStep::ExitWebGl,
            Some((FinishStep::ExitWebGl, true)) => FinishStep::OpenProfilerReply,
            Some((FinishStep::ExitWebGl, false)) => FinishStep::WarnAboutWebGl,
            Some((FinishStep::WarnAboutWebGl, _)) => FinishStep::OpenProfilerReply,
            Some((FinishStep::OpenProfilerReply, true)) => FinishStep::ExitTimeProfiler,
            Some((FinishStep::OpenProfilerReply, false)) => FinishStep::Finished,
            Some((FinishStep::ExitTimeProfiler, _)) => FinishStep::Finished,
            Some((FinishStep::Finished, _)) => FinishStep::Finished,
        }
    }
}

} // verus!
