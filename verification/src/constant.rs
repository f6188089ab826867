use crate::backoff::{jittered_ok, Backoff, BackoffBuilder};
use crate::duration::{dur_max, Duration};
use crate::rng::{rng_from_entropy, rng_next_u32, rng_with_seed};
use vstd::prelude::*;

verus! {

/// The state of a constant backoff sequence as mathematical values:
/// everything `next` reads apart from the jitter generator.
pub ghost struct ConstantModel {
    pub delay: int,
    pub max_times: Option<int>,
    pub jitter: bool,
    pub attempts: int,
}

/// A constant sequence is exhausted once the attempt counter has reached its
/// bound; an unbounded one never exhausts.
pub open spec fn constant_exhausted(m: ConstantModel) -> bool {
    m.max_times matches Some(n) && m.attempts >= n
}

/// One advance of a constant sequence that is not exhausted: only the
/// attempt counter moves, and only in bounded mode.
pub open spec fn constant_step(m: ConstantModel) -> ConstantModel {
    if m.max_times is Some {
        ConstantModel { attempts: m.attempts + 1, ..m }
    } else {
        m
    }
}

/// The state after `k` advances of a constant sequence.
pub open spec fn constant_run(m: ConstantModel, k: nat) -> ConstantModel
    decreases k,
{
    if k == 0 {
        m
    } else {
        let prev = constant_run(m, (k - 1) as nat);
        if constant_exhausted(prev) {
            prev
        } else {
            constant_step(prev)
        }
    }
}

/// The delay a jitter-free constant sequence yields in state `m`.
pub open spec fn constant_output(m: ConstantModel) -> Option<int> {
    if constant_exhausted(m) {
        None
    } else {
        Some(m.delay)
    }
}

/// ConstantBuilder configures a [`ConstantBackoff`]: a steady delay with a
/// fixed number of retries.
///
/// Defaults: delay 1s, max_times 3, jitter off, no fixed jitter seed.
#[derive(Debug, Clone, Copy)]
pub struct ConstantBuilder {
    pub delay: Duration,
    pub max_times: Option<usize>,
    pub jitter: bool,
    pub seed: Option<u64>,
}

/// The fresh sequence state a constant policy starts from: a pure function
/// of the policy's fields.
pub open spec fn constant_init(b: ConstantBuilder) -> ConstantModel {
    ConstantModel {
        delay: b.delay@,
        max_times: match b.max_times {
            Some(n) => Some(n as int),
            None => None,
        },
        jitter: b.jitter,
        attempts: 0,
    }
}

impl ConstantBuilder {
    /// A constant policy with the default delay of one second and three
    /// attempts.
    pub fn new() -> (r: Self)
        ensures
            r.delay@ == 1_000_000_000,
            r.max_times == Some(3usize),
            !r.jitter,
            r.seed is None,
    {
        ConstantBuilder {
            delay: Duration::from_secs(1),
            max_times: Some(3),
            jitter: false,
            seed: None,
        }
    }

    /// Set the delay.
    pub fn with_delay(self, delay: Duration) -> (r: Self)
        ensures
            r == (ConstantBuilder { delay, ..self }),
    {
        ConstantBuilder { delay, ..self }
    }

    /// Set the maximum number of delays handed out.
    pub fn with_max_times(self, max_times: usize) -> (r: Self)
        ensures
            r == (ConstantBuilder { max_times: Some(max_times), ..self }),
    {
        ConstantBuilder { max_times: Some(max_times), ..self }
    }

    /// Enable jitter: a random extra below the delay is added to each yield.
    pub fn with_jitter(self) -> (r: Self)
        ensures
            r == (ConstantBuilder { jitter: true, ..self }),
    {
        ConstantBuilder { jitter: true, ..self }
    }

    /// Fix the seed of the jitter generator; without one, the generator is
    /// seeded from the host's entropy.
    pub fn with_jitter_seed(self, seed: u64) -> (r: Self)
        ensures
            r == (ConstantBuilder { seed: Some(seed), ..self }),
    {
        ConstantBuilder { seed: Some(seed), ..self }
    }

    /// Remove the bound on attempts: the sequence never exhausts by itself.
    pub fn without_max_times(self) -> (r: Self)
        ensures
            r == (ConstantBuilder { max_times: None, ..self }),
    {
        ConstantBuilder { max_times: None, ..self }
    }

    /// Construct a fresh sequence. The starting state is a function of the
    /// policy's fields alone, so one policy starts many equal sequences.
    pub fn build(&self) -> (r: ConstantBackoff)
        ensures
            r@ == constant_init(*self),
    {
        ConstantBackoff {
            delay: self.delay,
            max_times: self.max_times,
            attempts: 0,
            jitter: self.jitter,
            rng: match self.seed {
                Some(s) => rng_with_seed(s),
                None => rng_from_entropy(),
            },
        }
    }
}

impl Default for ConstantBuilder {
    fn default() -> (r: Self)
        ensures
            r.delay@ == 1_000_000_000,
            r.max_times == Some(3usize),
            !r.jitter,
            r.seed is None,
    {
        ConstantBuilder::new()
    }
}

impl BackoffBuilder for ConstantBuilder {
    type Backoff = ConstantBackoff;

    fn build(&self) -> (r: ConstantBackoff)
        ensures
            r@ == constant_init(*self),
    {
        ConstantBuilder::build(self)
    }
}

/// A steady sequence: the same configured delay on every advance, up to the
/// configured number of attempts. Built by [`ConstantBuilder`].
pub struct ConstantBackoff {
    delay: Duration,
    max_times: Option<usize>,
    attempts: usize,
    jitter: bool,
    rng: fastrand::Rng,
}

impl View for ConstantBackoff {
    type V = ConstantModel;

    closed spec fn view(&self) -> ConstantModel {
        ConstantModel {
            delay: self.delay@,
            max_times: match self.max_times {
                Some(n) => Some(n as int),
                None => None,
            },
            jitter: self.jitter,
            attempts: self.attempts as int,
        }
    }
}

impl ConstantBackoff {
    /// Advance the sequence: the configured delay, or `None` once
    /// `max_times` delays have been handed out.
    ///
    /// Without jitter the result is exactly the configured delay; with
    /// jitter a random extra below the delay is added, so every yielded
    /// value is at least the delay and below twice the delay (clamped to
    /// the representable range).
    pub fn next(&mut self) -> (r: Option<Duration>)
        ensures
            constant_exhausted(old(self)@) ==> r is None && final(self)@ == old(self)@,
            !constant_exhausted(old(self)@) ==> final(self)@ == constant_step(old(self)@)
                && match r {
                Some(d) => if old(self)@.jitter {
                    jittered_ok(old(self)@.delay, old(self)@.delay, d@)
                } else {
                    d@ == old(self)@.delay
                },
                None => false,
            },
    {
        match self.max_times {
            None => {
                let d = self.delay_value();
                Some(d)
            },
            Some(max_times) => {
                if self.attempts >= max_times {
                    None
                } else {
                    self.attempts = self.attempts + 1;
                    let d = self.delay_value();
                    Some(d)
                }
            },
        }
    }

    /// The value to yield: the configured delay, jittered when enabled.
    fn delay_value(&mut self) -> (r: Duration)
        ensures
            final(self)@ == old(self)@,
            if old(self)@.jitter {
                jittered_ok(old(self)@.delay, old(self)@.delay, r@)
            } else {
                r@ == old(self)@.delay
            },
    {
        if self.jitter {
            let draw = rng_next_u32(&mut self.rng);
            let extra = self.delay.frac_mul(draw);
            self.delay.saturating_add(extra)
        } else {
            self.delay
        }
    }
}

impl Backoff for ConstantBackoff {
    fn next(&mut self) -> (r: Option<Duration>)
        ensures
            constant_exhausted(old(self)@) ==> r is None && final(self)@ == old(self)@,
            !constant_exhausted(old(self)@) ==> final(self)@ == constant_step(old(self)@)
                && match r {
                Some(d) => if old(self)@.jitter {
                    jittered_ok(old(self)@.delay, old(self)@.delay, d@)
                } else {
                    d@ == old(self)@.delay
                },
                None => false,
            },
    {
        ConstantBackoff::next(self)
    }
}

/// After `k` advances of a bounded constant sequence, the attempt counter
/// stands at the smaller of `k` more than it was and the bound, and nothing
/// else has moved.
proof fn lemma_constant_run_attempts(m: ConstantModel, n: int, k: nat)
    requires
        m.max_times == Some(n),
        0 <= m.attempts <= n,
    ensures
        constant_run(m, k) == (ConstantModel {
            attempts: if m.attempts + k <= n {
                m.attempts + k
            } else {
                n
            },
            ..m
        }),
    decreases k,
{
    if k > 0 {
        lemma_constant_run_attempts(m, n, (k - 1) as nat);
    }
}

/// A constant sequence fresh from a policy with `max_times = n` yields a
/// delay on each of its first `n` advances and is exhausted from then on,
/// with or without jitter. In particular, with `n = 0` it yields nothing.
pub proof fn lemma_constant_yields_exactly_max_times(m: ConstantModel, n: int, k: nat)
    requires
        m.max_times == Some(n),
        m.attempts == 0,
        0 <= n,
    ensures
        k < n ==> !constant_exhausted(constant_run(m, k)),
        k >= n ==> constant_exhausted(constant_run(m, k)),
{
    lemma_constant_run_attempts(m, n, k);
}

/// A constant sequence from a policy with `max_times = 0` yields nothing:
/// it is exhausted from the start, with or without jitter.
pub proof fn lemma_constant_zero_max_times_yields_nothing(m: ConstantModel)
    requires
        m.max_times == Some(0int),
        m.attempts == 0,
    ensures
        constant_exhausted(m),
        constant_output(m) is None,
{
}

/// Two jitter-free constant policies that agree on delay and attempt bound
/// — their jitter seeds may differ or be absent — start sequences that pass
/// through equal states and yield equal delays at every step: driving both
/// to exhaustion gives identical delay sequences.
pub proof fn lemma_constant_idempotent(b1: ConstantBuilder, b2: ConstantBuilder, k: nat)
    requires
        b1.delay == b2.delay,
        b1.max_times == b2.max_times,
        !b1.jitter,
        !b2.jitter,
    ensures
        constant_run(constant_init(b1), k) == constant_run(constant_init(b2), k),
        constant_output(constant_run(constant_init(b1), k)) == constant_output(
            constant_run(constant_init(b2), k),
        ),
{
}

/// Every jittered constant delay lies in `[delay, 2 * delay)` whenever the
/// delay is non-zero and twice it is representable.
pub proof fn lemma_constant_jitter_range(base: int, v: int)
    requires
        jittered_ok(base, base, v),
        0 < base,
        2 * base <= dur_max(),
    ensures
        base <= v < 2 * base,
{
}

} // verus!
