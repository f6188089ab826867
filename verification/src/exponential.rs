use crate::backoff::{jittered_ok, Backoff, BackoffBuilder};
use crate::duration::{sat, Duration};
use crate::rng::{rng_from_entropy, rng_next_u32, rng_with_seed};
use vstd::prelude::*;

verus! {

/// The state of an exponential backoff sequence as mathematical values:
/// everything `next` reads apart from the jitter generator.
pub ghost struct ExponentialModel {
    pub jitter: bool,
    /// Growth factor in thousandths: 2000 doubles the delay each step.
    pub factor: int,
    pub min_delay: int,
    pub max_delay: Option<int>,
    pub max_times: Option<int>,
    pub total_delay: Option<int>,
    pub current: Option<int>,
    pub cumulative: int,
    pub attempts: int,
}

/// The bound on attempts; an unbounded sequence stops only at the counter's
/// own ceiling.
pub open spec fn exponential_limit(m: ExponentialModel) -> int {
    match m.max_times {
        Some(n) => n,
        None => usize::MAX as int,
    }
}

/// Whether the attempt counter has reached its bound.
pub open spec fn exponential_exhausted(m: ExponentialModel) -> bool {
    m.attempts >= exponential_limit(m)
}

/// The un-jittered delay the sequence computes in state `m`: the minimum
/// delay at first, afterwards the recorded delay grown by the factor, held
/// back by the maximum delay once reached, saturating at the representable
/// ceiling.
pub open spec fn exponential_base(m: ExponentialModel) -> int {
    match m.current {
        None => m.min_delay,
        Some(cur) => match m.max_delay {
            Some(md) => {
                let grown = if cur < md {
                    sat(cur * m.factor / 1000)
                } else {
                    cur
                };
                if grown > md {
                    md
                } else {
                    grown
                }
            },
            None => sat(cur * m.factor / 1000),
        },
    }
}

/// What the drawn value may be in state `m`: the base exactly, or with
/// jitter the base plus a random extra below the base.
pub open spec fn exponential_draw_ok(m: ExponentialModel, v: int) -> bool {
    if m.jitter {
        jittered_ok(exponential_base(m), exponential_base(m), v)
    } else {
        v == exponential_base(m)
    }
}

/// Whether yielding `v` still fits the total-delay budget, if one is set.
pub open spec fn exponential_budget_ok(m: ExponentialModel, v: int) -> bool {
    match m.total_delay {
        None => true,
        Some(t) => m.cumulative + v <= t,
    }
}

/// The state after yielding `v`: one more attempt, the pre-jitter base
/// recorded for the next growth step (so jitter does not compound), and the
/// cumulative delay advanced when a budget is set.
pub open spec fn exponential_yield_step(m: ExponentialModel, v: int) -> ExponentialModel {
    ExponentialModel {
        attempts: m.attempts + 1,
        current: Some(exponential_base(m)),
        cumulative: if m.total_delay is Some {
            sat(m.cumulative + v)
        } else {
            m.cumulative
        },
        ..m
    }
}

/// The state after a budget refusal: only the attempt counter has moved.
pub open spec fn exponential_bump(m: ExponentialModel) -> ExponentialModel {
    ExponentialModel { attempts: m.attempts + 1, ..m }
}

/// ExponentialBuilder configures an [`ExponentialBackoff`]: a delay grown
/// by a factor on each retry.
///
/// Defaults: jitter off, factor 2000 (doubling), min_delay 1s, max_delay
/// 60s, max_times 3, no total-delay budget, no fixed jitter seed.
#[derive(Debug, Clone, Copy)]
pub struct ExponentialBuilder {
    pub jitter: bool,
    /// Growth factor in thousandths: 2000 doubles the delay each step.
    pub factor: u64,
    pub min_delay: Duration,
    pub max_delay: Option<Duration>,
    pub max_times: Option<usize>,
    pub total_delay: Option<Duration>,
    pub seed: Option<u64>,
}

/// The fresh sequence state an exponential policy starts from: a pure
/// function of the policy's fields.
pub open spec fn exponential_init(b: ExponentialBuilder) -> ExponentialModel {
    ExponentialModel {
        jitter: b.jitter,
        factor: b.factor as int,
        min_delay: b.min_delay@,
        max_delay: match b.max_delay {
            Some(d) => Some(d@),
            None => None,
        },
        max_times: match b.max_times {
            Some(n) => Some(n as int),
            None => None,
        },
        total_delay: match b.total_delay {
            Some(d) => Some(d@),
            None => None,
        },
        current: None,
        cumulative: 0,
        attempts: 0,
    }
}

impl ExponentialBuilder {
    /// An exponential policy with the defaults above.
    pub fn new() -> (r: Self)
        ensures
            !r.jitter,
            r.factor == 2000u64,
            r.min_delay@ == 1_000_000_000,
            r.max_delay matches Some(d) && d@ == 60_000_000_000,
            r.max_times == Some(3usize),
            r.total_delay is None,
            r.seed is None,
    {
        ExponentialBuilder {
            jitter: false,
            factor: 2000,
            min_delay: Duration::from_secs(1),
            max_delay: Some(Duration::from_secs(60)),
            max_times: Some(3),
            total_delay: None,
            seed: None,
        }
    }

    /// Enable jitter: a random extra below the current delay is added to
    /// each yield; the recorded delay stays un-jittered.
    pub fn with_jitter(self) -> (r: Self)
        ensures
            r == (ExponentialBuilder { jitter: true, ..self }),
    {
        ExponentialBuilder { jitter: true, ..self }
    }

    /// Fix the seed of the jitter generator; without one, the generator is
    /// seeded from the host's entropy.
    pub fn with_jitter_seed(self, seed: u64) -> (r: Self)
        ensures
            r == (ExponentialBuilder { seed: Some(seed), ..self }),
    {
        ExponentialBuilder { seed: Some(seed), ..self }
    }

    /// Set the growth factor, in thousandths: 1500 grows each delay by
    /// half. A factor below 1000 would shrink the delays, a caller contract
    /// violation.
    pub fn with_factor(self, factor: u64) -> (r: Self)
        requires
            factor >= 1000,
        ensures
            r == (ExponentialBuilder { factor, ..self }),
    {
        ExponentialBuilder { factor, ..self }
    }

    /// Set the first delay.
    pub fn with_min_delay(self, min_delay: Duration) -> (r: Self)
        ensures
            r == (ExponentialBuilder { min_delay, ..self }),
    {
        ExponentialBuilder { min_delay, ..self }
    }

    /// Cap the delay: it stops growing once the cap is reached.
    pub fn with_max_delay(self, max_delay: Duration) -> (r: Self)
        ensures
            r == (ExponentialBuilder { max_delay: Some(max_delay), ..self }),
    {
        ExponentialBuilder { max_delay: Some(max_delay), ..self }
    }

    /// Remove the cap: the delay keeps growing, saturating only at the
    /// largest representable duration.
    pub fn without_max_delay(self) -> (r: Self)
        ensures
            r == (ExponentialBuilder { max_delay: None, ..self }),
    {
        ExponentialBuilder { max_delay: None, ..self }
    }

    /// Set the maximum number of delays handed out.
    pub fn with_max_times(self, max_times: usize) -> (r: Self)
        ensures
            r == (ExponentialBuilder { max_times: Some(max_times), ..self }),
    {
        ExponentialBuilder { max_times: Some(max_times), ..self }
    }

    /// Remove the bound on attempts: the sequence stops by itself only at
    /// the counter's ceiling, or on a total-delay budget if one is set.
    pub fn without_max_times(self) -> (r: Self)
        ensures
            r == (ExponentialBuilder { max_times: None, ..self }),
    {
        ExponentialBuilder { max_times: None, ..self }
    }

    /// Set (or clear) a total-delay budget: the sequence exhausts once the
    /// sum of yielded delays would pass it, even with attempts remaining.
    pub fn with_total_delay(self, total_delay: Option<Duration>) -> (r: Self)
        ensures
            r == (ExponentialBuilder { total_delay, ..self }),
    {
        ExponentialBuilder { total_delay, ..self }
    }

    /// Construct a fresh sequence. The starting state is a function of the
    /// policy's fields alone, so one policy starts many equal sequences.
    pub fn build(&self) -> (r: ExponentialBackoff)
        ensures
            r@ == exponential_init(*self),
    {
        ExponentialBackoff {
            jitter: self.jitter,
            factor: self.factor,
            min_delay: self.min_delay,
            max_delay: self.max_delay,
            max_times: self.max_times,
            total_delay: self.total_delay,
            current_delay: None,
            cumulative_delay: Duration::zero(),
            attempts: 0,
            rng: match self.seed {
                Some(s) => rng_with_seed(s),
                None => rng_from_entropy(),
            },
        }
    }
}

impl Default for ExponentialBuilder {
    fn default() -> (r: Self)
        ensures
            !r.jitter,
            r.factor == 2000u64,
            r.min_delay@ == 1_000_000_000,
            r.max_delay matches Some(d) && d@ == 60_000_000_000,
            r.max_times == Some(3usize),
            r.total_delay is None,
            r.seed is None,
    {
        ExponentialBuilder::new()
    }
}

impl BackoffBuilder for ExponentialBuilder {
    type Backoff = ExponentialBackoff;

    fn build(&self) -> (r: ExponentialBackoff)
        ensures
            r@ == exponential_init(*self),
    {
        ExponentialBuilder::build(self)
    }
}

/// A sequence whose delay is multiplied by the configured factor on each
/// advance, clamped by the maximum delay and saturating at the
/// representable ceiling. Built by [`ExponentialBuilder`].
pub struct ExponentialBackoff {
    jitter: bool,
    factor: u64,
    min_delay: Duration,
    max_delay: Option<Duration>,
    max_times: Option<usize>,
    total_delay: Option<Duration>,
    current_delay: Option<Duration>,
    cumulative_delay: Duration,
    attempts: usize,
    rng: fastrand::Rng,
}

impl View for ExponentialBackoff {
    type V = ExponentialModel;

    closed spec fn view(&self) -> ExponentialModel {
        ExponentialModel {
            jitter: self.jitter,
            factor: self.factor as int,
            min_delay: self.min_delay@,
            max_delay: match self.max_delay {
                Some(d) => Some(d@),
                None => None,
            },
            max_times: match self.max_times {
                Some(n) => Some(n as int),
                None => None,
            },
            total_delay: match self.total_delay {
                Some(d) => Some(d@),
                None => None,
            },
            current: match self.current_delay {
                Some(d) => Some(d@),
                None => None,
            },
            cumulative: self.cumulative_delay@,
            attempts: self.attempts as int,
        }
    }
}

impl ExponentialBackoff {
    /// Advance the sequence.
    ///
    /// `None` comes exactly when the attempt bound is reached (the state is
    /// then unchanged) or when the yielded value would push the cumulative
    /// delay past the total-delay budget (only the attempt counter moves).
    /// Otherwise the result is the grown delay — with jitter, plus a random
    /// extra below it — and the pre-jitter delay is recorded for the next
    /// growth step.
    pub fn next(&mut self) -> (r: Option<Duration>)
        ensures
            exponential_exhausted(old(self)@) ==> r is None && final(self)@ == old(self)@,
            !exponential_exhausted(old(self)@) ==> match r {
                Some(d) => exponential_draw_ok(old(self)@, d@) && exponential_budget_ok(
                    old(self)@,
                    d@,
                ) && final(self)@ == exponential_yield_step(old(self)@, d@),
                None => final(self)@ == exponential_bump(old(self)@) && exists|v: int|
                    exponential_draw_ok(old(self)@, v) && !exponential_budget_ok(old(self)@, v),
            },
    {
        let ghost m = self@;
        let limit: usize = match self.max_times {
            Some(n) => n,
            None => usize::MAX,
        };
        if self.attempts >= limit {
            return None;
        }
        self.attempts = self.attempts + 1;

        let base: Duration = match self.current_delay {
            None => self.min_delay,
            Some(cur) => match self.max_delay {
                Some(md) => {
                    let mut c = cur;
                    if c.lt(&md) {
                        c = c.saturating_mul(self.factor);
                    }
                    if md.lt(&c) {
                        c = md;
                    }
                    c
                },
                None => cur.saturating_mul(self.factor),
            },
        };
        proof {
            assert(base@ == exponential_base(m));
        }

        let value: Duration = if self.jitter {
            let draw = rng_next_u32(&mut self.rng);
            let extra = base.frac_mul(draw);
            base.saturating_add(extra)
        } else {
            base
        };
        proof {
            assert(exponential_draw_ok(m, value@));
        }

        let pass: bool = match self.total_delay {
            None => true,
            Some(t) => {
                let cum = self.cumulative_delay.total_nanos();
                let v = value.total_nanos();
                cum + v <= t.total_nanos()
            },
        };
        if !pass {
            proof {
                assert(exponential_draw_ok(m, value@) && !exponential_budget_ok(m, value@));
            }
            return None;
        }
        if self.total_delay.is_some() {
            self.cumulative_delay = self.cumulative_delay.saturating_add(value);
        }
        self.current_delay = Some(base);
        Some(value)
    }
}

impl Backoff for ExponentialBackoff {
    fn next(&mut self) -> (r: Option<Duration>)
        ensures
            exponential_exhausted(old(self)@) ==> r is None && final(self)@ == old(self)@,
            !exponential_exhausted(old(self)@) ==> match r {
                Some(d) => exponential_draw_ok(old(self)@, d@) && exponential_budget_ok(
                    old(self)@,
                    d@,
                ) && final(self)@ == exponential_yield_step(old(self)@, d@),
                None => final(self)@ == exponential_bump(old(self)@) && exists|v: int|
                    exponential_draw_ok(old(self)@, v) && !exponential_budget_ok(old(self)@, v),
            },
    {
        ExponentialBackoff::next(self)
    }
}

/// One advance of a sequence without a total-delay budget: the drawn value
/// never touches the recorded state, so the evolution is the same with and
/// without jitter.
pub open spec fn exponential_advance(m: ExponentialModel) -> ExponentialModel {
    if exponential_exhausted(m) {
        m
    } else {
        ExponentialModel { attempts: m.attempts + 1, current: Some(exponential_base(m)), ..m }
    }
}

/// The state after `k` advances of a sequence without a total-delay budget.
pub open spec fn exponential_run(m: ExponentialModel, k: nat) -> ExponentialModel
    decreases k,
{
    if k == 0 {
        m
    } else {
        exponential_advance(exponential_run(m, (k - 1) as nat))
    }
}

/// The delay a jitter-free sequence yields in state `m`.
pub open spec fn exponential_output(m: ExponentialModel) -> Option<int> {
    if exponential_exhausted(m) {
        None
    } else {
        Some(exponential_base(m))
    }
}

/// Advancing moves the attempt counter up to its bound and nothing further,
/// and leaves the bound itself alone.
proof fn lemma_exponential_run_attempts(m: ExponentialModel, n: int, k: nat)
    requires
        m.max_times == Some(n),
        0 <= m.attempts <= n,
    ensures
        exponential_run(m, k).max_times == m.max_times,
        exponential_run(m, k).attempts == if m.attempts + k <= n {
            m.attempts + k
        } else {
            n
        },
    decreases k,
{
    if k > 0 {
        lemma_exponential_run_attempts(m, n, (k - 1) as nat);
    }
}

/// An exponential sequence fresh from a policy with `max_times = n` and no
/// total-delay budget yields a delay on each of its first `n` advances and
/// is exhausted from then on, with or without jitter. In particular, with
/// `n = 0` it yields nothing.
pub proof fn lemma_exponential_yields_exactly_max_times(m: ExponentialModel, n: int, k: nat)
    requires
        m.max_times == Some(n),
        m.attempts == 0,
        0 <= n,
    ensures
        k < n ==> !exponential_exhausted(exponential_run(m, k)),
        k >= n ==> exponential_exhausted(exponential_run(m, k)),
{
    lemma_exponential_run_attempts(m, n, k);
}

/// An exponential sequence from a policy with `max_times = 0` yields
/// nothing: it is exhausted from the start, with or without jitter.
pub proof fn lemma_exponential_zero_max_times_yields_nothing(m: ExponentialModel)
    requires
        m.max_times == Some(0int),
        m.attempts == 0,
    ensures
        exponential_exhausted(m),
        exponential_output(m) is None,
{
}

/// Two jitter-free exponential policies that agree on factor, delays and
/// attempt bound — their jitter seeds may differ or be absent — start
/// sequences that pass through equal states and yield equal delays at every
/// step: driving both to exhaustion gives identical delay sequences.
pub proof fn lemma_exponential_idempotent(b1: ExponentialBuilder, b2: ExponentialBuilder, k: nat)
    requires
        b1.factor == b2.factor,
        b1.min_delay == b2.min_delay,
        b1.max_delay == b2.max_delay,
        b1.max_times == b2.max_times,
        b1.total_delay == b2.total_delay,
        !b1.jitter,
        !b2.jitter,
    ensures
        exponential_run(exponential_init(b1), k) == exponential_run(exponential_init(b2), k),
        exponential_output(exponential_run(exponential_init(b1), k)) == exponential_output(
            exponential_run(exponential_init(b2), k),
        ),
{
}

} // verus!
