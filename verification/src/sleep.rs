//! How long the driver thread blocks once it knows the timer's next deadline.

use vstd::prelude::*;
use crate::time::Moment;
use crate::time::Span;

verus! {

/// What the driver thread does between two passes over the timer.
#[derive(Clone, Copy, Debug, PartialEq, Eq, Structural)]
pub enum Sleep {
    /// The deadline has been reached: go round again at once.
    Skip,
    /// Block for this long, unless woken earlier.
    Timed(Span),
    /// Nothing is pending: block until woken.
    Indefinite,
}

/// The sleep that fits a timer whose earliest deadline is `next_event`, read
/// when the clock stands at `now`.
///
/// Without a deadline the thread blocks until it is woken. With a deadline
/// still ahead it blocks for exactly the time that remains. With a deadline
/// that has been reached it does not block.
pub open spec fn planned_sleep(next_event: Option<Moment>, now: Moment) -> Sleep {
    match next_event {
        None => Sleep::Indefinite,
        Some(when) => if now@ < when@ {
            Sleep::Timed(Span::from_nanos((when@ - now@) as nat))
        } else {
            Sleep::Skip
        },
    }
}

/// Decides how the driver thread sleeps, given the timer's earliest deadline
/// and the current reading of the clock.
///
/// A timed sleep is never empty and ends exactly at the deadline.
pub fn plan_sleep(next_event: Option<Moment>, now: Moment) -> (plan: Sleep)
    ensures
        plan == planned_sleep(next_event, now),
        plan matches Sleep::Timed(span) ==> next_event matches Some(when) && span@ > 0 && now@
            + span@ == when@,
{
    match next_event {
        None => Sleep::Indefinite,
        Some(when) => {
            if now.is_before(&when) {
                match when.span_since(&now) {
                    Some(span) => Sleep::Timed(span),
                    None => Sleep::Skip,
                }
            } else {
                Sleep::Skip
            }
        },
    }
}

} // verus!
