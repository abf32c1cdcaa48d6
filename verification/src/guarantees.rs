//! What the protocol guarantees, proved over the world of `protocol`.
//!
//! Each statement is about single events or about every possible course of
//! events, so it holds however the threads are scheduled.

use vstd::prelude::*;
use crate::driver::Stage;
use crate::protocol::enabled;
use crate::protocol::inv;
use crate::protocol::moves;
use crate::protocol::outdated;
use crate::protocol::possible;
use crate::protocol::run;
use crate::protocol::signalled;
use crate::protocol::sleeping;
use crate::protocol::step;
use crate::protocol::world_wf;
use crate::protocol::Event;
use crate::protocol::World;
use crate::time::Span;

verus! {

/// The shutdown flag is written once. No event lowers it, and the only event
/// that raises it is the first step of the controller's shutdown.
pub proof fn flag_is_written_once(w: World, e: Event)
    requires
        enabled(w, e),
    ensures
        w.flag ==> step(w, e).flag,
        !w.flag && step(w, e).flag ==> e is Shutdown && w.teardown is RaiseFlag,
{
}

/// The loop stops in one way only, by reading a raised flag at the top of an
/// iteration, and a stopped loop stays stopped.
pub proof fn stopped_is_final(w: World, e: Event)
    requires
        enabled(w, e),
    ensures
        w.stage is Stopped ==> step(w, e).stage is Stopped,
        !(w.stage is Stopped) && step(w, e).stage is Stopped ==> e is Loop && w.stage is Checking
            && w.flag,
{
}

/// A wake that comes early is kept. While the token is available, nothing
/// takes it away but the driver thread itself, when it returns from a block.
pub proof fn wake_is_kept(w: World, e: Event)
    requires
        w.token,
        enabled(w, e),
        !(e is Loop && sleeping(w.stage)),
    ensures
        step(w, e).token,
{
}

/// Wakes collapse. Waking a thread that has been woken and has not blocked
/// since changes nothing: any number of wakes between two blocks count as
/// one.
pub proof fn wakes_collapse(w: World)
    ensures
        step(step(w, Event::Unpark), Event::Unpark) == step(w, Event::Unpark),
        w.token && !w.owed ==> step(w, Event::Unpark) == w,
{
}

/// With the token available the driver thread is not blocked, whatever it
/// is about to do and whatever the clock says.
pub proof fn token_unblocks(w: World)
    requires
        w.token,
        !(w.stage is Stopped),
    ensures
        enabled(w, Event::Loop),
{
}

/// The number of moves after which a loop that is not held up has asked the
/// timer for its deadline, or has stopped.
pub open spec fn to_query(stage: Stage) -> nat {
    match stage {
        Stage::Stopped => 0,
        Stage::Querying => 1,
        Stage::Advancing => 2,
        Stage::Polling => 3,
        Stage::Checking => 4,
        Stage::Parked => 5,
        Stage::Napping(_) => 5,
        Stage::Timing(_) => 6,
    }
}

/// Whether nothing stands between the loop and its next question to the
/// timer: it is past its sleep, or the token will carry it through.
pub open spec fn on_the_way(w: World) -> bool {
    w.token || w.stage is Checking || w.stage is Polling || w.stage is Advancing
        || w.stage is Querying || w.stage is Stopped
}

/// Whether the loop asks the timer for its deadline in the course of `trace`.
pub open spec fn asks(w: World, trace: Seq<Event>) -> bool
    decreases trace.len(),
{
    trace.len() > 0 && ((trace[0] is Loop && w.stage is Querying) || asks(
        step(w, trace[0]),
        trace.skip(1),
    ))
}

/// A woken loop asks the timer again within six moves.
///
/// Take any world in which the token is available, and any course of events
/// from it. Until the loop has asked the timer for its deadline (or has
/// stopped, the flag being raised) it is never blocked, and each of its moves
/// brings it nearer: it cannot make more than six without asking. No time has
/// to pass and no second wake is needed.
pub proof fn woken_loop_asks_again(w: World, trace: Seq<Event>)
    requires
        on_the_way(w),
        possible(w, trace),
    ensures
        asks(w, trace) || ({
            let end = run(w, trace);
            &&& on_the_way(end)
            &&& end.stage is Stopped || enabled(end, Event::Loop)
            &&& moves(trace) + to_query(end.stage) <= to_query(w.stage)
        }),
        to_query(w.stage) <= 6,
    decreases trace.len(),
{
    if trace.len() > 0 && !(trace[0] is Loop && w.stage is Querying) {
        woken_loop_asks_again(step(w, trace[0]), trace.skip(1));
    }
}

/// No wakeup is lost.
///
/// In a world that the events can lead to, suppose every thread that changed
/// the timer's deadline has since woken the driver thread. Then a loop that
/// still holds an outdated plan is not blocked on it, and whenever the clock
/// has reached the timer's deadline the loop is not blocked at all: it never
/// sleeps past a deadline.
pub proof fn no_wakeup_is_lost(w: World)
    requires
        inv(w),
        !w.owed,
        !(w.stage is Stopped),
    ensures
        outdated(w) ==> w.token && enabled(w, Event::Loop),
        (w.pending matches Some(when) && w.clock@ >= when@) ==> enabled(w, Event::Loop),
{
}

/// The number of moves after which a loop that has been signalled to shut
/// down has stopped.
pub open spec fn to_stop(stage: Stage) -> nat {
    match stage {
        Stage::Stopped => 0,
        Stage::Checking => 1,
        Stage::Parked => 2,
        Stage::Napping(_) => 2,
        Stage::Timing(_) => 3,
        Stage::Querying => 4,
        Stage::Advancing => 5,
        Stage::Polling => 6,
    }
}

/// The controller's shutdown reaches the loop. Once the controller has
/// raised the flag and woken the thread, in that order, the signal is on its
/// way; and joining is possible as soon as the loop has stopped.
pub proof fn shutdown_signals(w: World)
    requires
        inv(w),
        w.teardown is Join || w.teardown is Finished,
    ensures
        signalled(w),
        w.teardown is Join && w.stage is Stopped ==> enabled(w, Event::Shutdown),
{
}

/// A signalled loop stops within six moves.
///
/// Take any world in which the shutdown signal is on its way, and any course
/// of events from it. The signal stays on its way; the loop is never blocked
/// before it has stopped, be it in an untimed sleep or in a timed one whose
/// deadline is far off; and every move brings it nearer to stopping, so that
/// it stops after six moves at most. Nothing else has to happen for that: no
/// time has to pass, no deadline to be reached, no further wake to come.
pub proof fn signalled_loop_stops(w: World, trace: Seq<Event>)
    requires
        signalled(w),
        possible(w, trace),
    ensures
        signalled(run(w, trace)),
        run(w, trace).stage is Stopped || enabled(run(w, trace), Event::Loop),
        moves(trace) + to_stop(run(w, trace).stage) <= to_stop(w.stage),
        to_stop(w.stage) <= 6,
    decreases trace.len(),
{
    if trace.len() > 0 {
        signalled_loop_stops(step(w, trace[0]), trace.skip(1));
    }
}

/// Whether `trace` holds nothing but the driver thread carrying out its
/// requests and time passing: no wake, no return without reason, no change
/// to the timer, no shutdown.
pub open spec fn quiet(trace: Seq<Event>) -> bool {
    forall|i: int| 0 <= i < trace.len() ==> #[trigger] trace[i] is Loop || trace[i] is Tick
}

/// The number of moves that an idle loop can still make before it lies
/// parked: the rest of this iteration and, if the token is available, the
/// one more that the token lets it begin.
pub open spec fn to_rest(w: World) -> nat {
    if w.token {
        match w.stage {
            Stage::Stopped => 0,
            Stage::Parked => 5,
            Stage::Napping(_) => 5,
            Stage::Querying => 6,
            Stage::Advancing => 7,
            Stage::Polling => 8,
            Stage::Checking => 9,
            Stage::Timing(_) => 10,
        }
    } else {
        match w.stage {
            Stage::Stopped => 0,
            Stage::Parked => 0,
            Stage::Querying => 1,
            Stage::Advancing => 2,
            Stage::Polling => 3,
            Stage::Checking => 4,
            Stage::Napping(_) => 5,
            Stage::Timing(_) => 6,
        }
    }
}

/// An idle loop does not spin.
///
/// Take a world in which the timer has no deadline and the flag is down, and
/// a course of events in which nobody wakes the thread and nothing changes
/// the timer. The loop makes ten moves at most. When it has none left it
/// lies parked without a token, and there it cannot move until it is woken.
pub proof fn idle_loop_comes_to_rest(w: World, trace: Seq<Event>)
    requires
        w.pending is None,
        !w.flag,
        !(w.stage is Stopped),
        quiet(trace),
        possible(w, trace),
    ensures
        moves(trace) + to_rest(run(w, trace)) <= to_rest(w),
        to_rest(w) <= 10,
        to_rest(run(w, trace)) == 0 ==> run(w, trace).stage is Parked && !run(w, trace).token
            && !enabled(run(w, trace), Event::Loop),
    decreases trace.len(),
{
    if trace.len() > 0 {
        let rest = trace.skip(1);
        assert forall|i: int| 0 <= i < rest.len() implies #[trigger] rest[i] is Loop
            || rest[i] is Tick by {
            assert(rest[i] == trace[i + 1]);
        }
        idle_loop_comes_to_rest(step(w, trace[0]), rest);
    }
}

/// A timed sleep is planned to end exactly at the deadline.
///
/// When the loop reads the clock while holding the deadline `when`: if the
/// deadline is still ahead, the loop goes to sleep for the time that remains
/// and the sleep runs out at `when`; if the deadline has been reached, the
/// loop does not sleep and starts its next iteration.
pub proof fn nap_ends_at_deadline(w: World)
    requires
        world_wf(w),
        w.stage is Timing,
    ensures
        ({
            let when = w.stage->Timing_0;
            let next = step(w, Event::Loop);
            if w.clock@ < when@ {
                &&& next.stage matches Stage::Napping(span)
                &&& w.clock@ + span@ == when@
                &&& next.nap_until == when
            } else {
                next.stage is Checking
            }
        }),
{
    let when = w.stage->Timing_0;
    when.view_at();
    if w.clock@ < when@ {
        Span::from_nanos_view((when@ - w.clock@) as nat);
    }
}

/// A timed sleep that nobody cuts short lasts until the deadline: without
/// the token, the driver thread returns from it when the clock has reached
/// the deadline, and not before.
pub proof fn nap_lasts_until_deadline(w: World)
    requires
        w.stage is Napping,
        !w.token,
    ensures
        enabled(w, Event::Loop) <==> w.clock@ >= w.nap_until@,
{
}

} // verus!
