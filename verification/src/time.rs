//! Points and lengths of time on a monotonic clock, at nanosecond resolution.

use vstd::prelude::*;

verus! {

/// Nanoseconds in one second.
pub const NANOS_PER_SEC: u32 = 1_000_000_000;

/// The number of nanoseconds below which a length of time can be held:
/// one more than `u64::MAX` whole seconds and the largest sub-second part.
pub open spec fn span_limit() -> nat {
    (u64::MAX as nat + 1) * (NANOS_PER_SEC as nat)
}

/// A length of time: whole seconds and a sub-second part in nanoseconds.
///
/// The sub-second part is always below one second, so every length has
/// exactly one representation.
#[derive(Clone, Copy, Debug, PartialEq, Eq, Structural)]
pub struct Span {
    secs: u64,
    nanos: u32,
}

impl View for Span {
    type V = nat;

    /// The length in nanoseconds.
    closed spec fn view(&self) -> nat {
        self.secs as nat * (NANOS_PER_SEC as nat) + self.nanos as nat
    }
}

impl Span {
    /// The sub-second part is below one second.
    #[verifier::type_invariant]
    pub closed spec fn wf(self) -> bool {
        self.nanos < NANOS_PER_SEC
    }

    /// The length of `total` nanoseconds, for `total` below `span_limit()`.
    pub closed spec fn from_nanos(total: nat) -> Span {
        Span {
            secs: (total / (NANOS_PER_SEC as nat)) as u64,
            nanos: (total % (NANOS_PER_SEC as nat)) as u32,
        }
    }

    /// The number of nanoseconds in `secs` seconds and `nanos` nanoseconds.
    pub open spec fn total(secs: u64, nanos: u32) -> nat {
        secs as nat * (NANOS_PER_SEC as nat) + nanos as nat
    }

    /// `from_nanos` is the inverse of the view on every length that fits.
    pub proof fn from_nanos_view(total: nat)
        requires
            total < span_limit(),
        ensures
            Span::from_nanos(total).wf(),
            Span::from_nanos(total)@ == total,
    {
    }

    /// A well-formed length is determined by its number of nanoseconds.
    pub proof fn view_from_nanos(self)
        requires
            self.wf(),
        ensures
            self@ < span_limit(),
            Span::from_nanos(self@) == self,
    {
    }

    /// The length of `secs` seconds and `nanos` nanoseconds. A sub-second
    /// part of a second or more is carried into the seconds; `None` when the
    /// sum cannot be held.
    pub fn new(secs: u64, nanos: u32) -> (span: Option<Span>)
        ensures
            span == (if Span::total(secs, nanos) < span_limit() {
                Some(Span::from_nanos(Span::total(secs, nanos)))
            } else {
                None
            }),
            span matches Some(s) ==> s@ == Span::total(secs, nanos),
    {
        let carry: u32 = nanos / NANOS_PER_SEC;
        let rest: u32 = nanos % NANOS_PER_SEC;
        match secs.checked_add(carry as u64) {
            Some(whole) => Some(Span { secs: whole, nanos: rest }),
            None => None,
        }
    }

    /// The whole seconds of the length.
    pub fn secs(&self) -> (secs: u64)
        ensures
            secs == self@ / (NANOS_PER_SEC as nat),
    {
        proof {
            use_type_invariant(self);
        }
        self.secs
    }

    /// The part of the length below one second, in nanoseconds.
    pub fn subsec_nanos(&self) -> (nanos: u32)
        ensures
            nanos == self@ % (NANOS_PER_SEC as nat),
            nanos < NANOS_PER_SEC,
    {
        proof {
            use_type_invariant(self);
        }
        self.nanos
    }
}

/// A point on a monotonic clock, given by the time since the clock's origin.
#[derive(Clone, Copy, Debug, PartialEq, Eq, Structural)]
pub struct Moment {
    since_origin: Span,
}

impl View for Moment {
    type V = nat;

    /// The nanoseconds from the clock's origin to this point.
    closed spec fn view(&self) -> nat {
        self.since_origin@
    }
}

impl Moment {
    /// The span it holds is well formed.
    #[verifier::type_invariant]
    pub closed spec fn wf(self) -> bool {
        self.since_origin.wf()
    }

    /// The point `total` nanoseconds after the origin, for `total` below
    /// `span_limit()`.
    pub closed spec fn at(total: nat) -> Moment {
        Moment { since_origin: Span::from_nanos(total) }
    }

    /// A well-formed point is determined by its distance from the origin.
    pub proof fn view_at(self)
        requires
            self.wf(),
        ensures
            self@ < span_limit(),
            Moment::at(self@) == self,
    {
        self.since_origin.view_from_nanos();
    }

    /// The point that lies `since_origin` after the clock's origin.
    pub fn new(since_origin: Span) -> (moment: Moment)
        ensures
            moment@ == since_origin@,
            moment == Moment::at(since_origin@),
    {
        proof {
            use_type_invariant(since_origin);
            since_origin.view_from_nanos();
        }
        Moment { since_origin }
    }

    /// The time from the clock's origin to this point.
    pub fn since_origin(&self) -> (span: Span)
        ensures
            span@ == self@,
            span == Span::from_nanos(self@),
    {
        proof {
            use_type_invariant(self);
            self.since_origin.view_from_nanos();
        }
        self.since_origin
    }

    /// Whether this point is strictly earlier than `other`.
    pub fn is_before(&self, other: &Moment) -> (earlier: bool)
        ensures
            earlier == (self@ < other@),
    {
        proof {
            use_type_invariant(self);
            use_type_invariant(other);
        }
        self.since_origin.secs < other.since_origin.secs || (self.since_origin.secs
            == other.since_origin.secs && self.since_origin.nanos < other.since_origin.nanos)
    }

    /// The time from `earlier` to this point; `None` when `earlier` is in
    /// fact the later of the two.
    pub fn span_since(&self, earlier: &Moment) -> (span: Option<Span>)
        ensures
            span == (if earlier@ <= self@ {
                Some(Span::from_nanos((self@ - earlier@) as nat))
            } else {
                None
            }),
            span matches Some(s) ==> earlier@ + s@ == self@,
    {
        proof {
            use_type_invariant(self);
            use_type_invariant(earlier);
        }
        let a = self.since_origin;
        let b = earlier.since_origin;
        if a.secs < b.secs || (a.secs == b.secs && a.nanos < b.nanos) {
            None
        } else if a.nanos >= b.nanos {
            Some(Span { secs: a.secs - b.secs, nanos: a.nanos - b.nanos })
        } else {
            Some(Span { secs: a.secs - b.secs - 1, nanos: a.nanos + (NANOS_PER_SEC - b.nanos) })
        }
    }
}

} // verus!
