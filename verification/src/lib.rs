//! Retry support with pluggable backoff strategies.
//!
//! A backoff policy (builder) describes how long to wait between attempts;
//! building it yields a backoff sequence, a cursor that hands out one delay
//! per failed attempt until it is exhausted. A retry driver interleaves
//! invoking an operation, evaluating its result, consulting the sequence,
//! and suspending for the chosen delay. Three reference strategies are
//! offered — constant, exponential and Fibonacci delays, each with optional
//! randomized jitter — and any type with an advance-or-exhausted cursor is
//! a valid strategy of its own.

mod backoff;
mod blocking_retry;
mod blocking_retry_with_context;
mod blocking_sleep;
mod constant;
mod driver;
mod duration;
mod exponential;
mod fibonacci;
mod rng;

pub use backoff::{jittered_ok, Backoff, BackoffBuilder, Policy};
pub use blocking_retry::{
    BlockingRetry, BlockingRetryable, BlockingTurn, RetryCondition, RetryNotify,
};
pub use blocking_retry_with_context::{
    BlockingRetryWithContext, BlockingRetryableWithContext, ContextTurn,
};
pub use blocking_sleep::{
    BlockingSleeper, MaybeBlockingSleeper, PleaseEnableAFeatureOrProvideACustomSleeper,
};
pub use constant::{
    constant_exhausted, constant_init, constant_output, constant_run, constant_step,
    lemma_constant_idempotent, lemma_constant_jitter_range,
    lemma_constant_yields_exactly_max_times, lemma_constant_zero_max_times_yields_nothing,
    ConstantBackoff, ConstantBuilder, ConstantModel,
};
pub use driver::{
    driver_counts_ok, driver_enabled, driver_init, driver_run, driver_step,
    lemma_driver_run_counts, lemma_exhausted_run_counts, lemma_exhaustion_scenario,
    lemma_not_retryable_stops, retry_cycles, DriverEvent, DriverModel, Outcome, Phase, RetryDriver,
};
pub use duration::{dur_max, sat, Duration};
pub use exponential::{
    exponential_advance, exponential_base, exponential_budget_ok, exponential_bump,
    exponential_draw_ok, exponential_exhausted, exponential_init, exponential_limit,
    exponential_output, exponential_run, exponential_yield_step, lemma_exponential_idempotent,
    lemma_exponential_yields_exactly_max_times, lemma_exponential_zero_max_times_yields_nothing,
    ExponentialBackoff, ExponentialBuilder, ExponentialModel,
};
pub use fibonacci::{
    fibonacci_base, fibonacci_cap, fibonacci_exhausted, fibonacci_init, fibonacci_limit,
    fibonacci_output, fibonacci_run, fibonacci_step, lemma_fibonacci_idempotent,
    lemma_fibonacci_yields_exactly_max_times, lemma_fibonacci_zero_max_times_yields_nothing,
    FibonacciBackoff, FibonacciBuilder, FibonacciModel,
};
