use crate::duration::{dur_max, Duration};
use vstd::prelude::*;

verus! {

/// A backoff sequence: a mutable cursor over a series of delays.
///
/// `Some(d)` tells the caller to wait `d` and retry; `None` says the limits
/// are reached and the caller should surface the current error. Any type
/// with such a cursor is a valid backoff, so new strategies can be added
/// without touching the retry drivers.
pub trait Backoff {
    /// Advance the sequence: the next delay, or `None` once exhausted.
    fn next(&mut self) -> Option<Duration>;
}

/// A backoff policy: immutable configuration that constructs a fresh
/// backoff sequence on demand, so one policy can start many independent
/// retry loops.
pub trait BackoffBuilder {
    /// The sequence this policy builds.
    type Backoff: Backoff;

    /// Construct a new, fresh backoff sequence from this policy.
    fn build(&self) -> Self::Backoff;
}

/// A cloneable backoff sequence: usable as a policy itself, since a clone
/// can serve as the fresh cursor of a new retry loop.
pub trait Policy: Backoff + Clone {

}

impl<T: Backoff + Clone> Policy for T {

}

/// What a jittered delay may be: the un-jittered value `base` plus a random
/// extra drawn from `[0, width)`, clamped to the representable range. With
/// `width == 0` there is nothing to add.
pub open spec fn jittered_ok(base: int, width: int, v: int) -> bool {
    &&& base <= v <= dur_max()
    &&& (width == 0 ==> v == base)
    &&& (width > 0 ==> (v < base + width || (v == dur_max() && base + width > dur_max())))
}

} // verus!
