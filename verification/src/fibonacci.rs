use crate::backoff::{jittered_ok, Backoff, BackoffBuilder};
use crate::duration::{dur_max, sat, Duration};
use crate::rng::{rng_from_entropy, rng_next_u32, rng_with_seed};
use vstd::prelude::*;

verus! {

/// The state of a Fibonacci backoff sequence as mathematical values:
/// everything `next` reads apart from the jitter generator.
pub ghost struct FibonacciModel {
    pub jitter: bool,
    pub min_delay: int,
    pub max_delay: Option<int>,
    pub max_times: Option<int>,
    pub previous: Option<int>,
    pub current: Option<int>,
    pub attempts: int,
}

/// The bound on attempts; an unbounded sequence stops only at the counter's
/// own ceiling.
pub open spec fn fibonacci_limit(m: FibonacciModel) -> int {
    match m.max_times {
        Some(n) => n,
        None => usize::MAX as int,
    }
}

/// Whether the attempt counter has reached its bound.
pub open spec fn fibonacci_exhausted(m: FibonacciModel) -> bool {
    m.attempts >= fibonacci_limit(m)
}

/// The cap above which the delay stops climbing.
pub open spec fn fibonacci_cap(m: FibonacciModel) -> int {
    match m.max_delay {
        Some(md) => md,
        None => dur_max(),
    }
}

/// The un-jittered delay the sequence computes in state `m`: the minimum
/// delay on the first advance, the same again on the second (no previous
/// term yet), then the saturating sum of the two preceding un-jittered
/// delays — unless the current delay has reached the cap, where it stays.
pub open spec fn fibonacci_base(m: FibonacciModel) -> int {
    match m.current {
        None => m.min_delay,
        Some(cur) => if cur < fibonacci_cap(m) {
            match m.previous {
                Some(p) => sat(cur + p),
                None => cur,
            }
        } else {
            cur
        },
    }
}

/// One advance of a sequence that is not exhausted. The drawn jitter never
/// touches the recorded state, so the evolution is the same with and
/// without jitter.
pub open spec fn fibonacci_step(m: FibonacciModel) -> FibonacciModel {
    match m.current {
        None => FibonacciModel { current: Some(m.min_delay), attempts: m.attempts + 1, ..m },
        Some(cur) => if cur < fibonacci_cap(m) {
            match m.previous {
                Some(p) => FibonacciModel {
                    current: Some(sat(cur + p)),
                    previous: Some(cur),
                    attempts: m.attempts + 1,
                    ..m
                },
                None => FibonacciModel { previous: Some(cur), attempts: m.attempts + 1, ..m },
            }
        } else {
            FibonacciModel { attempts: m.attempts + 1, ..m }
        },
    }
}

/// FibonacciBuilder configures a [`FibonacciBackoff`]: each delay is the
/// sum of the two before it.
///
/// Defaults: jitter off, min_delay 1s, max_delay 60s, max_times 3, no
/// fixed jitter seed.
#[derive(Debug, Clone, Copy)]
pub struct FibonacciBuilder {
    pub jitter: bool,
    pub min_delay: Duration,
    pub max_delay: Option<Duration>,
    pub max_times: Option<usize>,
    pub seed: Option<u64>,
}

/// The fresh sequence state a Fibonacci policy starts from: a pure function
/// of the policy's fields.
pub open spec fn fibonacci_init(b: FibonacciBuilder) -> FibonacciModel {
    FibonacciModel {
        jitter: b.jitter,
        min_delay: b.min_delay@,
        max_delay: match b.max_delay {
            Some(d) => Some(d@),
            None => None,
        },
        max_times: match b.max_times {
            Some(n) => Some(n as int),
            None => None,
        },
        previous: None,
        current: None,
        attempts: 0,
    }
}

impl FibonacciBuilder {
    /// A Fibonacci policy with the defaults above.
    pub fn new() -> (r: Self)
        ensures
            !r.jitter,
            r.min_delay@ == 1_000_000_000,
            r.max_delay matches Some(d) && d@ == 60_000_000_000,
            r.max_times == Some(3usize),
            r.seed is None,
    {
        FibonacciBuilder {
            jitter: false,
            min_delay: Duration::from_secs(1),
            max_delay: Some(Duration::from_secs(60)),
            max_times: Some(3),
            seed: None,
        }
    }

    /// Enable jitter: a random extra below the minimum delay is added to
    /// each yield; the recorded delays stay un-jittered.
    pub fn with_jitter(self) -> (r: Self)
        ensures
            r == (FibonacciBuilder { jitter: true, ..self }),
    {
        FibonacciBuilder { jitter: true, ..self }
    }

    /// Fix the seed of the jitter generator; without one, the generator is
    /// seeded from the host's entropy.
    pub fn with_jitter_seed(self, seed: u64) -> (r: Self)
        ensures
            r == (FibonacciBuilder { seed: Some(seed), ..self }),
    {
        FibonacciBuilder { seed: Some(seed), ..self }
    }

    /// Set the first delay.
    pub fn with_min_delay(self, min_delay: Duration) -> (r: Self)
        ensures
            r == (FibonacciBuilder { min_delay, ..self }),
    {
        FibonacciBuilder { min_delay, ..self }
    }

    /// Cap the delay: it stops climbing once the cap is reached.
    pub fn with_max_delay(self, max_delay: Duration) -> (r: Self)
        ensures
            r == (FibonacciBuilder { max_delay: Some(max_delay), ..self }),
    {
        FibonacciBuilder { max_delay: Some(max_delay), ..self }
    }

    /// Remove the cap: the delay keeps climbing, saturating only at the
    /// largest representable duration.
    pub fn without_max_delay(self) -> (r: Self)
        ensures
            r == (FibonacciBuilder { max_delay: None, ..self }),
    {
        FibonacciBuilder { max_delay: None, ..self }
    }

    /// Set the maximum number of delays handed out.
    pub fn with_max_times(self, max_times: usize) -> (r: Self)
        ensures
            r == (FibonacciBuilder { max_times: Some(max_times), ..self }),
    {
        FibonacciBuilder { max_times: Some(max_times), ..self }
    }

    /// Remove the bound on attempts: the sequence stops by itself only at
    /// the counter's ceiling.
    pub fn without_max_times(self) -> (r: Self)
        ensures
            r == (FibonacciBuilder { max_times: None, ..self }),
    {
        FibonacciBuilder { max_times: None, ..self }
    }

    /// Construct a fresh sequence. The starting state is a function of the
    /// policy's fields alone, so one policy starts many equal sequences.
    pub fn build(&self) -> (r: FibonacciBackoff)
        ensures
            r@ == fibonacci_init(*self),
    {
        FibonacciBackoff {
            jitter: self.jitter,
            min_delay: self.min_delay,
            max_delay: self.max_delay,
            max_times: self.max_times,
            previous_delay: None,
            current_delay: None,
            attempts: 0,
            rng: match self.seed {
                Some(s) => rng_with_seed(s),
                None => rng_from_entropy(),
            },
        }
    }
}

impl Default for FibonacciBuilder {
    fn default() -> (r: Self)
        ensures
            !r.jitter,
            r.min_delay@ == 1_000_000_000,
            r.max_delay matches Some(d) && d@ == 60_000_000_000,
            r.max_times == Some(3usize),
            r.seed is None,
    {
        FibonacciBuilder::new()
    }
}

impl BackoffBuilder for FibonacciBuilder {
    type Backoff = FibonacciBackoff;

    fn build(&self) -> (r: FibonacciBackoff)
        ensures
            r@ == fibonacci_init(*self),
    {
        FibonacciBuilder::build(self)
    }
}

/// A sequence whose delay is the saturating sum of the two preceding
/// un-jittered delays, held where it stands once the cap is reached. Built
/// by [`FibonacciBuilder`].
pub struct FibonacciBackoff {
    jitter: bool,
    min_delay: Duration,
    max_delay: Option<Duration>,
    max_times: Option<usize>,
    previous_delay: Option<Duration>,
    current_delay: Option<Duration>,
    attempts: usize,
    rng: fastrand::Rng,
}

impl View for FibonacciBackoff {
    type V = FibonacciModel;

    closed spec fn view(&self) -> FibonacciModel {
        FibonacciModel {
            jitter: self.jitter,
            min_delay: self.min_delay@,
            max_delay: match self.max_delay {
                Some(d) => Some(d@),
                None => None,
            },
            max_times: match self.max_times {
                Some(n) => Some(n as int),
                None => None,
            },
            previous: match self.previous_delay {
                Some(d) => Some(d@),
                None => None,
            },
            current: match self.current_delay {
                Some(d) => Some(d@),
                None => None,
            },
            attempts: self.attempts as int,
        }
    }
}

impl FibonacciBackoff {
    /// Advance the sequence: the next Fibonacci delay, or `None` once
    /// `max_times` delays have been handed out.
    ///
    /// Without jitter the result is exactly the computed delay; with jitter
    /// a random extra below the minimum delay is added, drawn independently
    /// on every advance.
    pub fn next(&mut self) -> (r: Option<Duration>)
        ensures
            fibonacci_exhausted(old(self)@) ==> r is None && final(self)@ == old(self)@,
            !fibonacci_exhausted(old(self)@) ==> final(self)@ == fibonacci_step(old(self)@)
                && match r {
                Some(d) => if old(self)@.jitter {
                    jittered_ok(fibonacci_base(old(self)@), old(self)@.min_delay, d@)
                } else {
                    d@ == fibonacci_base(old(self)@)
                },
                None => false,
            },
    {
        let ghost m = self@;
        let limit: usize = match self.max_times {
            Some(n) => n,
            None => usize::MAX,
        };
        if self.attempts >= limit {
            return None;
        }
        self.attempts = self.attempts + 1;

        let base: Duration = match self.current_delay {
            None => {
                self.current_delay = Some(self.min_delay);
                self.min_delay
            },
            Some(cur) => {
                let mut next = cur;
                let cap = match self.max_delay {
                    Some(md) => md,
                    None => Duration::max_value(),
                };
                if next.lt(&cap) {
                    if let Some(prev) = self.previous_delay {
                        next = next.saturating_add(prev);
                        self.current_delay = Some(next);
                    }
                    self.previous_delay = Some(cur);
                }
                next
            },
        };
        proof {
            assert(base@ == fibonacci_base(m));
            assert(self@ == fibonacci_step(m));
        }

        if self.jitter {
            let draw = rng_next_u32(&mut self.rng);
            let extra = self.min_delay.frac_mul(draw);
            Some(base.saturating_add(extra))
        } else {
            Some(base)
        }
    }
}

impl Backoff for FibonacciBackoff {
    fn next(&mut self) -> (r: Option<Duration>)
        ensures
            fibonacci_exhausted(old(self)@) ==> r is None && final(self)@ == old(self)@,
            !fibonacci_exhausted(old(self)@) ==> final(self)@ == fibonacci_step(old(self)@)
                && match r {
                Some(d) => if old(self)@.jitter {
                    jittered_ok(fibonacci_base(old(self)@), old(self)@.min_delay, d@)
                } else {
                    d@ == fibonacci_base(old(self)@)
                },
                None => false,
            },
    {
        FibonacciBackoff::next(self)
    }
}

/// The state after `k` advances of a Fibonacci sequence.
pub open spec fn fibonacci_run(m: FibonacciModel, k: nat) -> FibonacciModel
    decreases k,
{
    if k == 0 {
        m
    } else {
        let prev = fibonacci_run(m, (k - 1) as nat);
        if fibonacci_exhausted(prev) {
            prev
        } else {
            fibonacci_step(prev)
        }
    }
}

/// The delay a jitter-free sequence yields in state `m`.
pub open spec fn fibonacci_output(m: FibonacciModel) -> Option<int> {
    if fibonacci_exhausted(m) {
        None
    } else {
        Some(fibonacci_base(m))
    }
}

/// Advancing moves the attempt counter up to its bound and nothing further,
/// and leaves the bound itself alone.
proof fn lemma_fibonacci_run_attempts(m: FibonacciModel, n: int, k: nat)
    requires
        m.max_times == Some(n),
        0 <= m.attempts <= n,
    ensures
        fibonacci_run(m, k).max_times == m.max_times,
        fibonacci_run(m, k).attempts == if m.attempts + k <= n {
            m.attempts + k
        } else {
            n
        },
    decreases k,
{
    if k > 0 {
        lemma_fibonacci_run_attempts(m, n, (k - 1) as nat);
    }
}

/// A Fibonacci sequence fresh from a policy with `max_times = n` yields a
/// delay on each of its first `n` advances and is exhausted from then on,
/// with or without jitter. In particular, with `n = 0` it yields nothing.
pub proof fn lemma_fibonacci_yields_exactly_max_times(m: FibonacciModel, n: int, k: nat)
    requires
        m.max_times == Some(n),
        m.attempts == 0,
        0 <= n,
    ensures
        k < n ==> !fibonacci_exhausted(fibonacci_run(m, k)),
        k >= n ==> fibonacci_exhausted(fibonacci_run(m, k)),
{
    lemma_fibonacci_run_attempts(m, n, k);
}

/// A Fibonacci sequence from a policy with `max_times = 0` yields nothing:
/// it is exhausted from the start, with or without jitter.
pub proof fn lemma_fibonacci_zero_max_times_yields_nothing(m: FibonacciModel)
    requires
        m.max_times == Some(0int),
        m.attempts == 0,
    ensures
        fibonacci_exhausted(m),
        fibonacci_output(m) is None,
{
}

/// Two jitter-free Fibonacci policies that agree on delays and attempt
/// bound — their jitter seeds may differ or be absent — start sequences
/// that pass through equal states and yield equal delays at every step:
/// driving both to exhaustion gives identical delay sequences.
pub proof fn lemma_fibonacci_idempotent(b1: FibonacciBuilder, b2: FibonacciBuilder, k: nat)
    requires
        b1.min_delay == b2.min_delay,
        b1.max_delay == b2.max_delay,
        b1.max_times == b2.max_times,
        !b1.jitter,
        !b2.jitter,
    ensures
        fibonacci_run(fibonacci_init(b1), k) == fibonacci_run(fibonacci_init(b2), k),
        fibonacci_output(fibonacci_run(fibonacci_init(b1), k)) == fibonacci_output(
            fibonacci_run(fibonacci_init(b2), k),
        ),
{
}

} // verus!
