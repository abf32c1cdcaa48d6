//! The driver thread's loop as a state machine.
//!
//! The thread that owns the timer does no deciding of its own. It asks the
//! machine what to do next, does it, and hands back what came of it:
//!
//! 1. read the shutdown flag, and stop if it is raised;
//! 2. poll the timer once with the waker bound to this thread;
//! 3. advance the timer, which fires what is due;
//! 4. ask the timer for its earliest deadline;
//! 5. with a deadline, read the clock; then sleep as `plan_sleep` says,
//!    and start over.

use vstd::prelude::*;
use crate::sleep::plan_sleep;
use crate::sleep::planned_sleep;
use crate::sleep::Sleep;
use crate::time::Moment;
use crate::time::Span;

verus! {

/// What the machine asks the driver thread to do.
#[derive(Clone, Copy, Debug, PartialEq, Eq, Structural)]
pub enum Request {
    /// Load the shared shutdown flag.
    ReadFlag,
    /// Poll the timer once; whether it is ready is of no interest.
    Poll,
    /// Advance the timer.
    Advance,
    /// Ask the timer for its earliest pending deadline.
    NextEvent,
    /// Read the monotonic clock.
    ReadClock,
    /// Block until the thread's wake token becomes available.
    Park,
    /// Block until the token becomes available or this much time has passed.
    ParkTimeout(Span),
    /// Return from the thread's function.
    Exit,
}

/// What the driver thread reports back.
#[derive(Clone, Copy, Debug, PartialEq, Eq, Structural)]
pub enum Reply {
    /// The shutdown flag as loaded.
    Flag(bool),
    /// The timer's earliest pending deadline, if it has one.
    NextEvent(Option<Moment>),
    /// The clock as read.
    Clock(Moment),
    /// A poll, advance or park has returned.
    Done,
}

/// Where the driver loop stands: the step it is about to take.
#[derive(Clone, Copy, Debug, PartialEq, Eq, Structural)]
pub enum Stage {
    /// At the top of an iteration, about to read the shutdown flag.
    Checking,
    /// About to poll the timer.
    Polling,
    /// About to advance the timer.
    Advancing,
    /// About to ask the timer for its earliest deadline.
    Querying,
    /// Holding that deadline, about to read the clock.
    Timing(Moment),
    /// About to block until woken.
    Parked,
    /// About to block for the given time.
    Napping(Span),
    /// The shutdown flag was seen raised; this stage is never left.
    Stopped,
}

impl Stage {
    /// The request that belongs to each stage.
    pub open spec fn request_of(self) -> Request {
        match self {
            Stage::Checking => Request::ReadFlag,
            Stage::Polling => Request::Poll,
            Stage::Advancing => Request::Advance,
            Stage::Querying => Request::NextEvent,
            Stage::Timing(_) => Request::ReadClock,
            Stage::Parked => Request::Park,
            Stage::Napping(span) => Request::ParkTimeout(span),
            Stage::Stopped => Request::Exit,
        }
    }

    /// Whether `reply` is an answer to the request of this stage.
    pub open spec fn answered_by(self, reply: Reply) -> bool {
        match self {
            Stage::Checking => reply is Flag,
            Stage::Querying => reply is NextEvent,
            Stage::Timing(_) => reply is Clock,
            Stage::Polling | Stage::Advancing | Stage::Parked | Stage::Napping(_) => reply is Done,
            Stage::Stopped => false,
        }
    }

    /// The stage after the thread has reported `reply`.
    ///
    /// A reply that does not answer the pending request changes nothing.
    pub open spec fn after(self, reply: Reply) -> Stage {
        match (self, reply) {
            (Stage::Checking, Reply::Flag(raised)) => if raised {
                Stage::Stopped
            } else {
                Stage::Polling
            },
            (Stage::Polling, Reply::Done) => Stage::Advancing,
            (Stage::Advancing, Reply::Done) => Stage::Querying,
            (Stage::Querying, Reply::NextEvent(None)) => Stage::Parked,
            (Stage::Querying, Reply::NextEvent(Some(when))) => Stage::Timing(when),
            (Stage::Timing(when), Reply::Clock(now)) => match planned_sleep(Some(when), now) {
                Sleep::Timed(span) => Stage::Napping(span),
                _ => Stage::Checking,
            },
            (Stage::Parked, Reply::Done) => Stage::Checking,
            (Stage::Napping(_), Reply::Done) => Stage::Checking,
            _ => self,
        }
    }

    /// The stage in which a fresh driver thread begins.
    pub fn start() -> (stage: Stage)
        ensures
            stage == Stage::Checking,
    {
        Stage::Checking
    }

    /// What the thread has to do now.
    pub fn request(&self) -> (request: Request)
        ensures
            request == self.request_of(),
    {
        match self {
            Stage::Checking => Request::ReadFlag,
            Stage::Polling => Request::Poll,
            Stage::Advancing => Request::Advance,
            Stage::Querying => Request::NextEvent,
            Stage::Timing(_) => Request::ReadClock,
            Stage::Parked => Request::Park,
            Stage::Napping(span) => Request::ParkTimeout(*span),
            Stage::Stopped => Request::Exit,
        }
    }

    /// Whether the loop has ended.
    pub fn is_stopped(&self) -> (stopped: bool)
        ensures
            stopped == (*self == Stage::Stopped),
    {
        match self {
            Stage::Stopped => true,
            _ => false,
        }
    }

    /// Takes the thread's report and moves to the next stage.
    pub fn step(self, reply: Reply) -> (next: Stage)
        ensures
            next == self.after(reply),
            !self.answered_by(reply) ==> next == self,
    {
        match self {
            Stage::Checking => match reply {
                Reply::Flag(raised) => if raised {
                    Stage::Stopped
                } else {
                    Stage::Polling
                },
                _ => self,
            },
            Stage::Polling => match reply {
                Reply::Done => Stage::Advancing,
                _ => self,
            },
            Stage::Advancing => match reply {
                Reply::Done => Stage::Querying,
                _ => self,
            },
            Stage::Querying => match reply {
                Reply::NextEvent(None) => Stage::Parked,
                Reply::NextEvent(Some(when)) => Stage::Timing(when),
                _ => self,
            },
            Stage::Timing(when) => match reply {
                Reply::Clock(now) => match plan_sleep(Some(when), now) {
                    Sleep::Timed(span) => Stage::Napping(span),
                    _ => Stage::Checking,
                },
                _ => self,
            },
            Stage::Parked => match reply {
                Reply::Done => Stage::Checking,
                _ => self,
            },
            Stage::Napping(_) => match reply {
                Reply::Done => Stage::Checking,
                _ => self,
            },
            Stage::Stopped => self,
        }
    }
}

} // verus!
