use crate::duration::Duration;
use vstd::prelude::*;

verus! {

/// A blocking sleeper: waits out a duration on the calling thread.
///
/// The engine states nothing about how the wait is performed; callers
/// supply an implementation suited to their host (a thread sleep, a timer,
/// or a no-op in tests).
pub trait BlockingSleeper {
    /// Return only after `dur` has elapsed.
    fn sleep(&self, dur: Duration);
}

/// A stub trait letting a type stand in a retry driver's sleeper slot
/// before a real sleeper is chosen. It offers no way to wait.
pub trait MaybeBlockingSleeper {

}

impl<T: BlockingSleeper> MaybeBlockingSleeper for T {

}

/// The placeholder sleeper: it satisfies only [`MaybeBlockingSleeper`], so
/// a retry loop still holding it cannot reach the waiting step — the
/// deliberate "no silent default" guard. Choose a real sleeper with
/// [`BlockingRetry::sleep`](crate::BlockingRetry::sleep) before resting.
#[derive(Clone, Copy, Debug)]
pub struct PleaseEnableAFeatureOrProvideACustomSleeper;

impl MaybeBlockingSleeper for PleaseEnableAFeatureOrProvideACustomSleeper {

}

} // verus!
