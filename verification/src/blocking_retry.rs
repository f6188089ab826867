use crate::backoff::Backoff;
use crate::blocking_sleep::{BlockingSleeper, PleaseEnableAFeatureOrProvideACustomSleeper};
use crate::driver::{driver_init, driver_step, DriverEvent, DriverModel, RetryDriver};
use crate::duration::Duration;
use vstd::prelude::*;

verus! {

/// A fallible operation that a blocking retry loop may invoke repeatedly.
///
/// The engine is generic over the error: it never constructs or inspects
/// one beyond handing it to the caller's condition and hook, and the
/// last-seen failure is what an exhausted or non-retryable loop surfaces.
pub trait BlockingRetryable {
    /// What a successful attempt produces.
    type Output;

    /// What a failed attempt produces.
    type Error;

    /// Make one attempt.
    fn run(&mut self) -> Result<Self::Output, Self::Error>;
}

/// The caller's judgement of which errors are worth retrying.
pub trait RetryCondition<E> {
    /// Whether the loop should retry after this error.
    fn retryable(&mut self, err: &E) -> bool;
}

/// Without a condition, every error is considered retryable.
impl<E> RetryCondition<E> for () {
    fn retryable(&mut self, _err: &E) -> (r: bool)
        ensures
            r,
    {
        true
    }
}

/// The caller's observation hook: told each retryable error together with
/// the delay about to be waited, strictly before the wait begins. For
/// observability only; its outcome has no effect on control flow.
pub trait RetryNotify<E> {
    /// Observe one retryable failure and the chosen delay.
    fn notify(&mut self, err: &E, dur: Duration);
}

/// Without a hook, nothing is observed.
impl<E> RetryNotify<E> for () {
    fn notify(&mut self, _err: &E, _dur: Duration) {
    }
}

/// What one turn of the blocking loop decided.
pub enum BlockingTurn<T, E> {
    /// The loop is over: the operation's value, or the failure that ends it
    /// (judged not retryable, or met by an exhausted sequence).
    Done(Result<T, E>),
    /// The failure is retryable and the sequence yielded this delay; the
    /// hook has already been notified. Wait the delay out in full, then
    /// turn again.
    Sleep(Duration),
}

/// The blocking retry driver: the operation, the sequence built from the
/// policy (inside a [`RetryDriver`]), the retry condition, the notify hook
/// and the sleeper.
///
/// One call to [`turn`](Self::turn) makes one attempt and decides; on
/// `Sleep` the caller waits through [`rest`](Self::rest) and turns again.
/// Its view is the underlying driver's model, so the trace laws of
/// [`driver_run`](crate::driver_run) describe every loop over it.
pub struct BlockingRetry<
    B: Backoff,
    F: BlockingRetryable,
    RF = (),
    NF = (),
    SF = PleaseEnableAFeatureOrProvideACustomSleeper,
> {
    driver: RetryDriver<B>,
    f: F,
    retryable: RF,
    notify: NF,
    sleeper: SF,
}

impl<B: Backoff, F: BlockingRetryable, RF, NF, SF> View for BlockingRetry<B, F, RF, NF, SF> {
    type V = DriverModel;

    closed spec fn view(&self) -> DriverModel {
        self.driver@
    }
}

impl<B: Backoff, F: BlockingRetryable> BlockingRetry<B, F> {
    /// Wrap an operation and a freshly built sequence into a driver with
    /// the defaults: every error retryable, no notification, and no sleeper
    /// chosen yet.
    pub fn new(f: F, backoff: B) -> (r: BlockingRetry<B, F>)
        ensures
            r@ == driver_init(),
            r.spec_op() == f,
    {
        BlockingRetry {
            driver: RetryDriver::new(backoff),
            f,
            retryable: (),
            notify: (),
            sleeper: PleaseEnableAFeatureOrProvideACustomSleeper,
        }
    }
}

impl<B: Backoff, F: BlockingRetryable, RF, NF, SF> BlockingRetry<B, F, RF, NF, SF> {
    /// The operation, as the contracts see it.
    pub closed spec fn spec_op(&self) -> F {
        self.f
    }

    /// The retry condition, as the contracts see it.
    pub closed spec fn spec_condition(&self) -> RF {
        self.retryable
    }

    /// The notify hook, as the contracts see it.
    pub closed spec fn spec_hook(&self) -> NF {
        self.notify
    }

    /// The sleeper, as the contracts see it.
    pub closed spec fn spec_sleeper(&self) -> SF {
        self.sleeper
    }

    /// Choose which errors are retryable; without this, all are.
    pub fn when<RN: RetryCondition<F::Error>>(self, retryable: RN) -> (r: BlockingRetry<
        B,
        F,
        RN,
        NF,
        SF,
    >)
        ensures
            r@ == self@,
            r.spec_op() == self.spec_op(),
            r.spec_condition() == retryable,
            r.spec_hook() == self.spec_hook(),
            r.spec_sleeper() == self.spec_sleeper(),
    {
        BlockingRetry {
            driver: self.driver,
            f: self.f,
            retryable,
            notify: self.notify,
            sleeper: self.sleeper,
        }
    }

    /// Choose the hook told of each retryable failure and its delay;
    /// without one, nothing is observed.
    pub fn notify<NN: RetryNotify<F::Error>>(self, notify: NN) -> (r: BlockingRetry<
        B,
        F,
        RF,
        NN,
        SF,
    >)
        ensures
            r@ == self@,
            r.spec_op() == self.spec_op(),
            r.spec_condition() == self.spec_condition(),
            r.spec_hook() == notify,
            r.spec_sleeper() == self.spec_sleeper(),
    {
        BlockingRetry {
            driver: self.driver,
            f: self.f,
            retryable: self.retryable,
            notify,
            sleeper: self.sleeper,
        }
    }

    /// Choose how the loop waits a delay out; without this, the placeholder
    /// sleeper leaves [`rest`](Self::rest) uncallable.
    pub fn sleep<SN: BlockingSleeper>(self, sleeper: SN) -> (r: BlockingRetry<B, F, RF, NF, SN>)
        ensures
            r@ == self@,
            r.spec_op() == self.spec_op(),
            r.spec_condition() == self.spec_condition(),
            r.spec_hook() == self.spec_hook(),
            r.spec_sleeper() == sleeper,
    {
        BlockingRetry {
            driver: self.driver,
            f: self.f,
            retryable: self.retryable,
            notify: self.notify,
            sleeper,
        }
    }
}

impl<
    B: Backoff,
    F: BlockingRetryable,
    RF: RetryCondition<F::Error>,
    NF: RetryNotify<F::Error>,
    SF,
> BlockingRetry<B, F, RF, NF, SF> {
    /// One turn of the loop, from idle: invoke the operation once and
    /// decide.
    ///
    /// A success, a failure judged not retryable (the sequence stays
    /// unconsulted), or a retryable failure meeting an exhausted sequence
    /// ends the loop with `Done`. Otherwise the sequence yielded a delay:
    /// the hook is notified of the error and the delay before this returns,
    /// and the caller must wait the delay out in full — through
    /// [`rest`](Self::rest) — before turning again.
    pub fn turn(&mut self) -> (r: BlockingTurn<F::Output, F::Error>)
        requires
            old(self)@.phase is Idle,
        ensures
            ({
                let started = driver_step(old(self)@, DriverEvent::Begin);
                match r {
                    BlockingTurn::Done(res) => match res {
                        Ok(_) => final(self)@ == driver_step(started, DriverEvent::Succeed),
                        Err(_) => final(self)@ == driver_step(
                            started,
                            DriverEvent::Fail { retryable: false, yielded: false },
                        ) || final(self)@ == driver_step(
                            started,
                            DriverEvent::Fail { retryable: true, yielded: false },
                        ),
                    },
                    BlockingTurn::Sleep(_) => final(self)@ == driver_step(
                        started,
                        DriverEvent::Fail { retryable: true, yielded: true },
                    ),
                }
            }),
    {
        self.driver.begin_attempt();
        match self.f.run() {
            Ok(v) => {
                self.driver.on_success();
                BlockingTurn::Done(Ok(v))
            },
            Err(err) => {
                let retry = self.retryable.retryable(&err);
                match self.driver.on_failure(retry) {
                    None => BlockingTurn::Done(Err(err)),
                    Some(dur) => {
                        self.notify.notify(&err, dur);
                        BlockingTurn::Sleep(dur)
                    },
                }
            },
        }
    }
}

impl<B: Backoff, F: BlockingRetryable, RF, NF, SF: BlockingSleeper> BlockingRetry<
    B,
    F,
    RF,
    NF,
    SF,
> {
    /// Wait the delay out through the configured sleeper, then return to
    /// idle for the next attempt.
    pub fn rest(&mut self, dur: Duration)
        requires
            old(self)@.phase is Suspended,
        ensures
            final(self)@ == driver_step(old(self)@, DriverEvent::Wake),
    {
        self.sleeper.sleep(dur);
        self.driver.wake();
    }
}

} // verus!
