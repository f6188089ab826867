use crate::backoff::Backoff;
use crate::blocking_retry::{RetryCondition, RetryNotify};
use crate::blocking_sleep::{BlockingSleeper, PleaseEnableAFeatureOrProvideACustomSleeper};
use crate::driver::{driver_init, driver_step, DriverEvent, DriverModel, RetryDriver};
use crate::duration::Duration;
use vstd::prelude::*;

verus! {

/// A fallible operation that needs exclusive access to external state on
/// every attempt: it consumes the context and yields it back alongside the
/// attempt's result, so the loop can re-supply it on the next attempt and
/// hand it back to the caller on termination — success or failure — without
/// the context being duplicable.
pub trait BlockingRetryableWithContext {
    /// The externally owned state threaded through every attempt.
    type Context;

    /// What a successful attempt produces.
    type Output;

    /// What a failed attempt produces.
    type Error;

    /// Make one attempt with exclusive access to the context.
    fn run(&mut self, ctx: Self::Context) -> (Self::Context, Result<Self::Output, Self::Error>);
}

/// What one turn of the context-carrying loop decided.
pub enum ContextTurn<C, T, E> {
    /// The loop is over: the context comes back to the caller alongside the
    /// value, or alongside the failure that ends the loop.
    Done(C, Result<T, E>),
    /// The failure is retryable and the sequence yielded this delay; the
    /// context is held for the next attempt and the hook has been notified.
    /// Wait the delay out in full, then turn again.
    Sleep(Duration),
}

/// The blocking retry driver for operations that thread a context through
/// every attempt; otherwise the same state machine as
/// [`BlockingRetry`](crate::BlockingRetry).
pub struct BlockingRetryWithContext<
    B: Backoff,
    F: BlockingRetryableWithContext,
    RF = (),
    NF = (),
    SF = PleaseEnableAFeatureOrProvideACustomSleeper,
> {
    driver: RetryDriver<B>,
    f: F,
    context: Option<F::Context>,
    retryable: RF,
    notify: NF,
    sleeper: SF,
}

impl<B: Backoff, F: BlockingRetryableWithContext, RF, NF, SF> View for BlockingRetryWithContext<
    B,
    F,
    RF,
    NF,
    SF,
> {
    type V = DriverModel;

    closed spec fn view(&self) -> DriverModel {
        self.driver@
    }
}

impl<B: Backoff, F: BlockingRetryableWithContext> BlockingRetryWithContext<B, F> {
    /// Wrap an operation and a freshly built sequence into a driver with
    /// the defaults: every error retryable, no notification, no sleeper
    /// chosen yet, and no context supplied yet.
    pub fn new(f: F, backoff: B) -> (r: BlockingRetryWithContext<B, F>)
        ensures
            r@ == driver_init(),
            r.spec_op() == f,
            r.spec_context() is None,
    {
        BlockingRetryWithContext {
            driver: RetryDriver::new(backoff),
            f,
            context: None,
            retryable: (),
            notify: (),
            sleeper: PleaseEnableAFeatureOrProvideACustomSleeper,
        }
    }
}

impl<B: Backoff, F: BlockingRetryableWithContext, RF, NF, SF> BlockingRetryWithContext<
    B,
    F,
    RF,
    NF,
    SF,
> {
    /// The operation, as the contracts see it.
    pub closed spec fn spec_op(&self) -> F {
        self.f
    }

    /// The context held for the next attempt, as the contracts see it.
    pub closed spec fn spec_context(&self) -> Option<F::Context> {
        self.context
    }

    /// The retry condition, as the contracts see it.
    pub closed spec fn spec_condition(&self) -> RF {
        self.retryable
    }

    /// The notify hook, as the contracts see it.
    pub closed spec fn spec_hook(&self) -> NF {
        self.notify
    }

    /// The sleeper, as the contracts see it.
    pub closed spec fn spec_sleeper(&self) -> SF {
        self.sleeper
    }

    /// Whether a context is held for the next attempt; turning requires
    /// one.
    pub fn has_context(&self) -> (r: bool)
        ensures
            r == (self.spec_context() is Some),
    {
        self.context.is_some()
    }

    /// Hand the externally owned context to the loop; it comes back with
    /// the terminal result.
    pub fn context(self, context: F::Context) -> (r: BlockingRetryWithContext<B, F, RF, NF, SF>)
        ensures
            r@ == self@,
            r.spec_op() == self.spec_op(),
            r.spec_context() == Some(context),
            r.spec_condition() == self.spec_condition(),
            r.spec_hook() == self.spec_hook(),
            r.spec_sleeper() == self.spec_sleeper(),
    {
        BlockingRetryWithContext {
            driver: self.driver,
            f: self.f,
            context: Some(context),
            retryable: self.retryable,
            notify: self.notify,
            sleeper: self.sleeper,
        }
    }

    /// Choose which errors are retryable; without this, all are.
    pub fn when<RN: RetryCondition<F::Error>>(self, retryable: RN) -> (r: BlockingRetryWithContext<
        B,
        F,
        RN,
        NF,
        SF,
    >)
        ensures
            r@ == self@,
            r.spec_op() == self.spec_op(),
            r.spec_context() == self.spec_context(),
            r.spec_condition() == retryable,
            r.spec_hook() == self.spec_hook(),
            r.spec_sleeper() == self.spec_sleeper(),
    {
        BlockingRetryWithContext {
            driver: self.driver,
            f: self.f,
            context: self.context,
            retryable,
            notify: self.notify,
            sleeper: self.sleeper,
        }
    }

    /// Choose the hook told of each retryable failure and its delay;
    /// without one, nothing is observed.
    pub fn notify<NN: RetryNotify<F::Error>>(self, notify: NN) -> (r: BlockingRetryWithContext<
        B,
        F,
        RF,
        NN,
        SF,
    >)
        ensures
            r@ == self@,
            r.spec_op() == self.spec_op(),
            r.spec_context() == self.spec_context(),
            r.spec_condition() == self.spec_condition(),
            r.spec_hook() == notify,
            r.spec_sleeper() == self.spec_sleeper(),
    {
        BlockingRetryWithContext {
            driver: self.driver,
            f: self.f,
            context: self.context,
            retryable: self.retryable,
            notify,
            sleeper: self.sleeper,
        }
    }

    /// Choose how the loop waits a delay out; without this, the placeholder
    /// sleeper leaves [`rest`](Self::rest) uncallable.
    pub fn sleep<SN: BlockingSleeper>(self, sleeper: SN) -> (r: BlockingRetryWithContext<
        B,
        F,
        RF,
        NF,
        SN,
    >)
        ensures
            r@ == self@,
            r.spec_op() == self.spec_op(),
            r.spec_context() == self.spec_context(),
            r.spec_condition() == self.spec_condition(),
            r.spec_hook() == self.spec_hook(),
            r.spec_sleeper() == sleeper,
    {
        BlockingRetryWithContext {
            driver: self.driver,
            f: self.f,
            context: self.context,
            retryable: self.retryable,
            notify: self.notify,
            sleeper,
        }
    }
}

impl<
    B: Backoff,
    F: BlockingRetryableWithContext,
    RF: RetryCondition<F::Error>,
    NF: RetryNotify<F::Error>,
    SF,
> BlockingRetryWithContext<B, F, RF, NF, SF> {
    /// One turn of the loop, from idle: hand the context to the operation
    /// for one attempt and decide, as
    /// [`BlockingRetry::turn`](crate::BlockingRetry::turn) does. `Done`
    /// returns the context to the caller; `Sleep` keeps it for the next
    /// attempt.
    pub fn turn(&mut self) -> (r: ContextTurn<F::Context, F::Output, F::Error>)
        requires
            old(self)@.phase is Idle,
            old(self).spec_context() is Some,
        ensures
            ({
                let started = driver_step(old(self)@, DriverEvent::Begin);
                match r {
                    ContextTurn::Done(_, res) => match res {
                        Ok(_) => final(self)@ == driver_step(started, DriverEvent::Succeed),
                        Err(_) => final(self)@ == driver_step(
                            started,
                            DriverEvent::Fail { retryable: false, yielded: false },
                        ) || final(self)@ == driver_step(
                            started,
                            DriverEvent::Fail { retryable: true, yielded: false },
                        ),
                    },
                    ContextTurn::Sleep(_) => final(self)@ == driver_step(
                        started,
                        DriverEvent::Fail { retryable: true, yielded: true },
                    ) && final(self).spec_context() is Some,
                }
            }),
    {
        self.driver.begin_attempt();
        let ctx = self.context.take().unwrap();
        let (ctx, res) = self.f.run(ctx);
        match res {
            Ok(v) => {
                self.driver.on_success();
                ContextTurn::Done(ctx, Ok(v))
            },
            Err(err) => {
                let retry = self.retryable.retryable(&err);
                match self.driver.on_failure(retry) {
                    None => ContextTurn::Done(ctx, Err(err)),
                    Some(dur) => {
                        self.context = Some(ctx);
                        self.notify.notify(&err, dur);
                        ContextTurn::Sleep(dur)
                    },
                }
            },
        }
    }
}

impl<B: Backoff, F: BlockingRetryableWithContext, RF, NF, SF: BlockingSleeper> BlockingRetryWithContext<
    B,
    F,
    RF,
    NF,
    SF,
> {
    /// Wait the delay out through the configured sleeper, then return to
    /// idle for the next attempt.
    pub fn rest(&mut self, dur: Duration)
        requires
            old(self)@.phase is Suspended,
        ensures
            final(self)@ == driver_step(old(self)@, DriverEvent::Wake),
            final(self).spec_context() == old(self).spec_context(),
    {
        self.sleeper.sleep(dur);
        self.driver.wake();
    }
}

} // verus!
