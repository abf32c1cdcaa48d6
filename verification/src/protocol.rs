//! The driver thread among the threads around it.
//!
//! `driver` and `controller` say what each side does with what it is told.
//! This module puts them into one world with the three things they share
//! with other threads (the shutdown flag, the thread's wake token and the
//! timer's pending deadline) and with a clock, lets the events of that world
//! come in any order, and proves what holds however they come.
//!
//! The wake token is that of a parking primitive: waking makes it available
//! and wakes once, however often it is done; a blocking call returns at once
//! and uses the token up if it is available; and a blocking call may also
//! return for no reason.

use vstd::prelude::*;
use crate::controller::Teardown;
use crate::driver::Reply;
use crate::driver::Stage;
use crate::time::Moment;
use crate::time::Span;

verus! {

/// The state of the world around one driver thread.
pub struct World {
    /// Where the driver loop stands.
    pub stage: Stage,
    /// The shared shutdown flag.
    pub flag: bool,
    /// Whether the driver thread's wake token is available.
    pub token: bool,
    /// The step of the shutdown that the controller takes next. A controller
    /// that has not begun to shut down stands before the first.
    pub teardown: Teardown,
    /// The timer's earliest pending deadline.
    pub pending: Option<Moment>,
    /// The clock.
    pub clock: Moment,
    /// The deadline that the loop's last reading of the clock was held
    /// against: a timed sleep runs out when the clock reaches it.
    pub nap_until: Moment,
    /// Whether a thread has changed the timer's deadline and has not woken
    /// the driver thread since.
    pub owed: bool,
}

/// Something that happens in the world.
pub enum Event {
    /// The driver thread carries out its pending request and reports back.
    Loop,
    /// A blocking call of the driver thread returns for no reason.
    Spurious,
    /// Some thread wakes the driver thread, through its waker or directly.
    Unpark,
    /// Another thread registers or cancels work; the timer's earliest
    /// deadline becomes the one given. The thread owes a wake from now on.
    Register(Option<Moment>),
    /// The timer, polled or advanced by the driver thread, fires what is due;
    /// its earliest deadline becomes the one given.
    Fire(Option<Moment>),
    /// Time passes; the clock comes to stand at the moment given.
    Tick(Moment),
    /// The controller carries out the next step of the shutdown.
    Shutdown,
}

/// Whether the loop is about to block, or blocked.
pub open spec fn sleeping(stage: Stage) -> bool {
    stage is Parked || stage is Napping
}

/// Whether every point and length of time in the world is well formed.
pub open spec fn world_wf(w: World) -> bool {
    &&& w.clock.wf()
    &&& w.nap_until.wf()
    &&& w.pending matches Some(when) ==> when.wf()
    &&& w.stage matches Stage::Timing(when) ==> when.wf()
    &&& w.stage matches Stage::Napping(span) ==> span.wf()
}

/// Whether `e` can happen in `w`.
///
/// The driver thread can always go on, except where it blocks: from an
/// untimed block it returns only through the token, from a timed one also
/// when the time has run out. The controller can always take its next step,
/// except that joining waits for the thread to end.
pub open spec fn enabled(w: World, e: Event) -> bool {
    match e {
        Event::Loop => match w.stage {
            Stage::Stopped => false,
            Stage::Parked => w.token,
            Stage::Napping(_) => w.token || w.clock@ >= w.nap_until@,
            _ => true,
        },
        Event::Spurious => sleeping(w.stage),
        Event::Unpark => true,
        Event::Register(deadline) => deadline matches Some(when) ==> when.wf(),
        Event::Fire(deadline) => (w.stage is Polling || w.stage is Advancing) && (
        deadline matches Some(when) ==> when.wf()),
        Event::Tick(to) => to.wf() && to@ >= w.clock@,
        Event::Shutdown => match w.teardown {
            Teardown::RaiseFlag | Teardown::Wake => true,
            Teardown::Join => w.stage is Stopped,
            Teardown::Finished => false,
        },
    }
}

/// What the driver thread reports when it carries out its request in `w`.
pub open spec fn report(w: World) -> Reply {
    match w.stage {
        Stage::Checking => Reply::Flag(w.flag),
        Stage::Querying => Reply::NextEvent(w.pending),
        Stage::Timing(_) => Reply::Clock(w.clock),
        _ => Reply::Done,
    }
}

/// The world after `e` has happened in `w`.
pub open spec fn step(w: World, e: Event) -> World {
    match e {
        Event::Loop => World {
            stage: w.stage.after(report(w)),
            token: if sleeping(w.stage) {
                false
            } else {
                w.token
            },
            nap_until: match w.stage {
                Stage::Timing(when) => when,
                _ => w.nap_until,
            },
            ..w
        },
        Event::Spurious => World { stage: w.stage.after(Reply::Done), ..w },
        Event::Unpark => World { token: true, owed: false, ..w },
        Event::Register(deadline) => World { pending: deadline, owed: true, ..w },
        Event::Fire(deadline) => World { pending: deadline, ..w },
        Event::Tick(to) => World { clock: to, ..w },
        Event::Shutdown => World {
            flag: w.flag || w.teardown is RaiseFlag,
            token: w.token || w.teardown is Wake,
            teardown: w.teardown.following(),
            ..w
        },
    }
}

/// Whether `e` is a move of the driver thread itself.
pub open spec fn is_move(e: Event) -> bool {
    e is Loop || e is Spurious
}

/// Whether the events of `trace` can happen one after the other from `w`.
pub open spec fn possible(w: World, trace: Seq<Event>) -> bool
    decreases trace.len(),
{
    trace.len() == 0 || (enabled(w, trace[0]) && possible(step(w, trace[0]), trace.skip(1)))
}

/// The world after the events of `trace` have happened from `w`.
pub open spec fn run(w: World, trace: Seq<Event>) -> World
    decreases trace.len(),
{
    if trace.len() == 0 {
        w
    } else {
        run(step(w, trace[0]), trace.skip(1))
    }
}

/// The number of moves that the driver thread makes in `trace`.
pub open spec fn moves(trace: Seq<Event>) -> nat
    decreases trace.len(),
{
    if trace.len() == 0 {
        0
    } else {
        moves(trace.skip(1)) + if is_move(trace[0]) {
            1nat
        } else {
            0nat
        }
    }
}

/// The deadline that the loop is holding or sleeping on, if it holds one:
/// `Some(None)` stands for the plan to block until woken.
pub open spec fn plan(w: World) -> Option<Option<Moment>> {
    match w.stage {
        Stage::Timing(when) => Some(Some(when)),
        Stage::Napping(_) => Some(Some(w.nap_until)),
        Stage::Parked => Some(None),
        _ => None,
    }
}

/// Whether the loop holds a plan that the timer's deadline has moved away
/// from.
pub open spec fn outdated(w: World) -> bool {
    plan(w) matches Some(held) && held != w.pending
}

/// Whether the shutdown signal is on its way to the loop: the flag is raised
/// and the loop will look at it before it blocks for good.
pub open spec fn signalled(w: World) -> bool {
    w.flag && (w.token || w.stage is Checking || w.stage is Stopped)
}

/// What holds of every world that the events can lead to.
pub open spec fn inv(w: World) -> bool {
    &&& world_wf(w)
    &&& w.flag <==> !(w.teardown is RaiseFlag)
    &&& (w.teardown is Join || w.teardown is Finished) ==> signalled(w)
    &&& w.teardown is Finished ==> w.stage is Stopped
    &&& w.stage is Stopped ==> w.flag
    &&& (!w.owed && outdated(w)) ==> w.token
}

/// The world at the moment the driver thread is spawned: the loop is at its
/// top, the flag is down, no one has woken the thread, and the controller
/// has not begun to shut down.
pub open spec fn initial(w: World) -> bool {
    &&& world_wf(w)
    &&& w.stage is Checking
    &&& !w.flag
    &&& !w.token
    &&& w.teardown is RaiseFlag
    &&& !w.owed
}

/// The invariant holds when the thread is spawned.
pub proof fn inv_initial(w: World)
    requires
        initial(w),
    ensures
        inv(w),
{
}

/// Every event keeps the invariant.
pub proof fn inv_step(w: World, e: Event)
    requires
        inv(w),
        enabled(w, e),
    ensures
        inv(step(w, e)),
{
    if let Stage::Timing(when) = w.stage {
        when.view_at();
        w.clock.view_at();
        if w.clock@ < when@ {
            Span::from_nanos_view((when@ - w.clock@) as nat);
        }
    }
}

/// Every possible course of events keeps the invariant.
pub proof fn inv_run(w: World, trace: Seq<Event>)
    requires
        inv(w),
        possible(w, trace),
    ensures
        inv(run(w, trace)),
    decreases trace.len(),
{
    if trace.len() > 0 {
        inv_step(w, trace[0]);
        inv_run(step(w, trace[0]), trace.skip(1));
    }
}

} // verus!
