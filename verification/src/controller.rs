//! The controller of a driver thread: the side that starts it, hands out the
//! timer's handle, and stops it or lets it go.

use vstd::prelude::*;

verus! {

/// One step of stopping a driver thread. The steps come in this order and no
/// other: a thread that is woken before the flag is raised may look at the
/// flag, find it down and go back to sleep for good.
#[derive(Clone, Copy, Debug, PartialEq, Eq, Structural)]
pub enum Teardown {
    /// Store `true` in the shared shutdown flag.
    RaiseFlag,
    /// Wake the driver thread, whatever it is blocked on.
    Wake,
    /// Wait until the driver thread has ended; how it ended is not reported.
    Join,
    /// Nothing is left to do.
    Finished,
}

impl Teardown {
    /// The step that follows this one.
    pub open spec fn following(self) -> Teardown {
        match self {
            Teardown::RaiseFlag => Teardown::Wake,
            Teardown::Wake => Teardown::Join,
            Teardown::Join => Teardown::Finished,
            Teardown::Finished => Teardown::Finished,
        }
    }

    /// The first step for a controller whose thread slot was full or empty.
    pub open spec fn first(attached: bool) -> Teardown {
        if attached {
            Teardown::RaiseFlag
        } else {
            Teardown::Finished
        }
    }

    /// Moves on once this step has been carried out.
    pub fn next(self) -> (step: Teardown)
        ensures
            step == self.following(),
    {
        match self {
            Teardown::RaiseFlag => Teardown::Wake,
            Teardown::Wake => Teardown::Join,
            Teardown::Join => Teardown::Finished,
            Teardown::Finished => Teardown::Finished,
        }
    }

    /// Whether every step has been carried out.
    pub fn is_finished(&self) -> (finished: bool)
        ensures
            finished == (*self == Teardown::Finished),
    {
        match self {
            Teardown::Finished => true,
            _ => false,
        }
    }
}

/// The controller of one driver thread.
///
/// `J` is the join handle of the thread, `H` the handle through which other
/// threads register work with the timer, `F` the shutdown flag shared with
/// the thread. The controller reads none of them; it keeps them and decides
/// what is done with them.
///
/// The thread slot is full from creation until the controller is either told
/// to forget the thread or shut down. It is never filled again.
pub struct HelperThread<J, H, F> {
    thread: Option<J>,
    timer: H,
    done: F,
}

impl<J, H, F> HelperThread<J, H, F> {
    /// The thread slot: the join handle while the controller owns the thread.
    pub closed spec fn slot(&self) -> Option<J> {
        self.thread
    }

    /// The timer handle that the controller hands out.
    pub closed spec fn timer(&self) -> H {
        self.timer
    }

    /// The shutdown flag shared with the thread.
    pub closed spec fn flag(&self) -> F {
        self.done
    }

    /// The controller after it has let its thread go: the slot is empty,
    /// the rest is as it was.
    pub closed spec fn detached(self) -> Self {
        HelperThread { thread: None, timer: self.timer, done: self.done }
    }

    /// Letting go and shutting down are idempotent, in any mix.
    ///
    /// `forget` and `shutdown` both leave `detached()`. A controller in that
    /// state has an empty slot, so a later `shutdown` hands out no join
    /// handle and asks for no step at all (nothing is signalled, nothing is
    /// joined), and either call leaves it as it is. The timer handle and the
    /// flag are never touched.
    pub proof fn released_stays_released(self)
        ensures
            self.detached().slot() is None,
            self.detached().timer() == self.timer(),
            self.detached().flag() == self.flag(),
            Teardown::first(self.detached().slot() is Some) == Teardown::Finished,
            self.detached().detached() == self.detached(),
            self.slot() is None ==> self.detached() == self,
    {
    }

    /// Makes the controller from the outcome of spawning the driver thread.
    ///
    /// `timer` is the handle derived from the timer that was moved into the
    /// thread, `done` the flag whose other reference the thread holds, still
    /// down. A thread that could not be spawned is the one way to fail, and
    /// its error is passed on as it came.
    pub fn new<E>(spawned: Result<J, E>, timer: H, done: F) -> (made: Result<Self, E>)
        ensures
            match spawned {
                Ok(thread) => made matches Ok(helper) && helper.slot() == Some(thread)
                    && helper.timer() == timer && helper.flag() == done,
                Err(error) => made matches Err(e) && e == error,
            },
    {
        match spawned {
            Ok(thread) => Ok(HelperThread { thread: Some(thread), timer, done }),
            Err(error) => Err(error),
        }
    }

    /// A new handle to the timer. Whatever `H::clone` promises of its result
    /// holds of it.
    pub fn handle(&self) -> (handle: H) where H: Clone
        ensures
            cloned(self.timer(), handle),
    {
        self.timer.clone()
    }

    /// The shutdown flag, for the one who carries out `Teardown::RaiseFlag`.
    pub fn done(&self) -> (flag: &F)
        ensures
            *flag == self.flag(),
    {
        &self.done
    }

    /// Whether the controller still owns its thread.
    pub fn is_attached(&self) -> (attached: bool)
        ensures
            attached == (self.slot() is Some),
    {
        self.thread.is_some()
    }

    /// Lets the thread go without stopping it: the join handle is dropped
    /// and nothing is signalled. The thread then runs for as long as the
    /// process does.
    pub fn forget(&mut self)
        ensures
            *final(self) == old(self).detached(),
            final(self).slot() is None,
            final(self).timer() == old(self).timer(),
            final(self).flag() == old(self).flag(),
    {
        self.thread = None;
    }

    /// Begins the shutdown. The slot is emptied and its content handed out,
    /// together with the first step the caller has to carry out on it. A
    /// controller whose slot is already empty hands out nothing and asks for
    /// nothing.
    pub fn shutdown(&mut self) -> (out: (Option<J>, Teardown))
        ensures
            *final(self) == old(self).detached(),
            final(self).slot() is None,
            final(self).timer() == old(self).timer(),
            final(self).flag() == old(self).flag(),
            out.0 == old(self).slot(),
            out.1 == Teardown::first(old(self).slot() is Some),
    {
        let thread = self.thread.take();
        let step = if thread.is_some() {
            Teardown::RaiseFlag
        } else {
            Teardown::Finished
        };
        (thread, step)
    }
}

} // verus!
