//! Frames-in-flight gate: bounds the number of mapped output surfaces.
//!
//! The count rises when the consumer maps a frame and falls when the frame is
//! released. The bound is the number of output surfaces the decoder was
//! created with; it is kept beside the count so that both are read and
//! written under one lock.
use vstd::prelude::*;

verus! {

/// Counter of mapped frames with its upper bound.
#[derive(Clone, Copy, Debug)]
pub struct FlightGate {
    count: usize,
    bound: usize,
}

impl FlightGate {
    /// Number of frames that are mapped.
    pub closed spec fn in_flight(self) -> nat {
        self.count as nat
    }

    /// Number of frames that may be mapped at once.
    pub closed spec fn limit(self) -> nat {
        self.bound as nat
    }

    /// The count is within the bound.
    pub open spec fn within_bound(self) -> bool {
        self.in_flight() <= self.limit()
    }

    /// An acquisition now would have to wait.
    pub open spec fn saturated(self) -> bool {
        self.in_flight() >= self.limit()
    }

    /// `post` is `pre` after one attempt to acquire, which was `admitted` or not.
    pub open spec fn acquire_step(pre: Self, post: Self, admitted: bool) -> bool {
        &&& admitted == !pre.saturated()
        &&& post.limit() == pre.limit()
        &&& post.in_flight() == if admitted {
            pre.in_flight() + 1
        } else {
            pre.in_flight()
        }
    }

    /// `post` is `pre` after one release.
    pub open spec fn release_step(pre: Self, post: Self) -> bool {
        &&& pre.in_flight() > 0
        &&& post.limit() == pre.limit()
        &&& post.in_flight() == pre.in_flight() - 1
    }

    /// `post` is `pre` with its bound replaced by `bound`.
    pub open spec fn resize_step(pre: Self, post: Self, bound: nat) -> bool {
        &&& post.limit() == bound
        &&& post.in_flight() == pre.in_flight()
    }

    /// A gate with nothing in flight.
    pub fn new(bound: usize) -> (gate: Self)
        ensures
            gate.in_flight() == 0,
            gate.limit() == bound,
            gate.within_bound(),
    {
        FlightGate { count: 0, bound }
    }

    /// Number of frames that are mapped.
    pub fn count(&self) -> (count: usize)
        ensures
            count == self.in_flight(),
    {
        self.count
    }

    /// Number of frames that may be mapped at once.
    pub fn bound(&self) -> (bound: usize)
        ensures
            bound == self.limit(),
    {
        self.bound
    }

    /// Whether no frame is mapped. A decoder may be destroyed only then.
    pub fn is_idle(&self) -> (idle: bool)
        ensures
            idle == (self.in_flight() == 0),
    {
        self.count == 0
    }

    /// Takes one slot if the count is below the bound. On `false` the caller
    /// waits for a release and tries again.
    pub fn try_acquire(&mut self) -> (admitted: bool)
        ensures
            Self::acquire_step(*old(self), *final(self), admitted),
            !admitted ==> *final(self) == *old(self),
            old(self).within_bound() ==> final(self).within_bound(),
    {
        if self.count >= self.bound {
            false
        } else {
            self.count = self.count + 1;
            true
        }
    }

    /// Gives one slot back.
    pub fn release(&mut self)
        requires
            old(self).in_flight() > 0,
        ensures
            Self::release_step(*old(self), *final(self)),
            old(self).within_bound() ==> final(self).within_bound(),
            old(self).within_bound() ==> !final(self).saturated(),
    {
        self.count = self.count - 1;
    }

    /// Replaces the bound after a negotiation; the count is kept.
    pub fn set_bound(&mut self, bound: usize)
        ensures
            Self::resize_step(*old(self), *final(self), bound as nat),
            final(self).within_bound() == (old(self).in_flight() <= bound),
    {
        self.bound = bound;
    }
}

/// The count never leaves the range from zero to the bound: whatever mix of
/// acquisitions and releases leads from `pre` to `post`, one step at a time,
/// a gate that was within its bound stays within it.
pub proof fn law_count_stays_within_bound(pre: FlightGate, post: FlightGate, admitted: bool)
    requires
        pre.within_bound(),
        FlightGate::acquire_step(pre, post, admitted) || FlightGate::release_step(pre, post),
    ensures
        0 <= post.in_flight() <= post.limit(),
{
}

/// A new bound keeps the count within it exactly when it is not below the
/// count. So a negotiation that does not lower the number of output
/// surfaces under the number of mapped frames keeps the count in range, and
/// one that follows the destruction of a decoder always does: no frame is
/// mapped then.
pub proof fn law_resize_keeps_count_within_bound(pre: FlightGate, post: FlightGate, bound: nat)
    requires
        FlightGate::resize_step(pre, post, bound),
    ensures
        post.within_bound() <==> pre.in_flight() <= bound,
        pre.in_flight() == 0 ==> post.within_bound(),
{
}

/// One release makes room for exactly one acquisition: on a gate that was
/// full, the next attempt after a release is admitted and the one after
/// that has to wait again.
pub proof fn law_release_admits_exactly_one(
    full: FlightGate,
    released: FlightGate,
    first: FlightGate,
    first_admitted: bool,
    second: FlightGate,
    second_admitted: bool,
)
    requires
        full.within_bound(),
        full.saturated(),
        FlightGate::release_step(full, released),
        FlightGate::acquire_step(released, first, first_admitted),
        FlightGate::acquire_step(first, second, second_admitted),
    ensures
        first_admitted,
        !second_admitted,
        first.in_flight() == full.in_flight(),
        second.in_flight() == first.in_flight(),
{
}

} // verus!
