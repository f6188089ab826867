use crate::backoff::Backoff;
use crate::duration::Duration;
use vstd::prelude::*;

verus! {

/// Why a finished retry loop stopped.
#[derive(Clone, Copy, PartialEq, Eq, Structural, Debug)]
pub enum Outcome {
    /// The operation returned a value.
    Success,
    /// A failure was judged not worth retrying; the sequence was never
    /// consulted for it.
    NotRetryable,
    /// A retryable failure met an exhausted sequence.
    Exhausted,
}

/// The phase a retry loop is in: exactly one at any instant.
#[derive(Clone, Copy, PartialEq, Eq, Structural, Debug)]
pub enum Phase {
    /// No attempt in flight; about to invoke the operation.
    Idle,
    /// The operation has been invoked and its result is pending.
    Attempting,
    /// A delay is being waited out before the next attempt.
    Suspended,
    /// The loop is over, for the recorded reason.
    Complete(Outcome),
}

/// The driver's state as the specification sees it: the phase, and how
/// often the operation was invoked, the sequence yielded a delay, and the
/// notify hook was told of a failure.
pub ghost struct DriverModel {
    pub phase: Phase,
    pub attempts: nat,
    pub yields: nat,
    pub notifies: nat,
}

/// What the loop around the driver reports to it.
pub ghost enum DriverEvent {
    /// The operation was invoked for a fresh attempt.
    Begin,
    /// The attempt in flight resolved with a value.
    Succeed,
    /// The attempt in flight resolved with an error; `retryable` is the
    /// caller's judgement of it, `yielded` whether the sequence had a delay
    /// left (ignored when not retryable — the sequence is not consulted).
    Fail { retryable: bool, yielded: bool },
    /// The delay being waited out has fully elapsed.
    Wake,
}

/// A fresh driver: idle, with nothing counted yet.
pub open spec fn driver_init() -> DriverModel {
    DriverModel { phase: Phase::Idle, attempts: 0, yields: 0, notifies: 0 }
}

/// Which events the driver accepts in a given state. A complete loop
/// accepts none.
pub open spec fn driver_enabled(m: DriverModel, e: DriverEvent) -> bool {
    match e {
        DriverEvent::Begin => m.phase is Idle,
        DriverEvent::Succeed => m.phase is Attempting,
        DriverEvent::Fail { .. } => m.phase is Attempting,
        DriverEvent::Wake => m.phase is Suspended,
    }
}

/// The state after one event. A retryable failure with a delay available
/// counts its notification together with the transition into suspension:
/// the hook is told strictly before the wait begins, and the next attempt
/// starts only after the wait has fully elapsed.
pub open spec fn driver_step(m: DriverModel, e: DriverEvent) -> DriverModel {
    match e {
        DriverEvent::Begin => DriverModel {
            phase: Phase::Attempting,
            attempts: m.attempts + 1,
            ..m
        },
        DriverEvent::Succeed => DriverModel { phase: Phase::Complete(Outcome::Success), ..m },
        DriverEvent::Fail { retryable, yielded } => if !retryable {
            DriverModel { phase: Phase::Complete(Outcome::NotRetryable), ..m }
        } else if !yielded {
            DriverModel { phase: Phase::Complete(Outcome::Exhausted), ..m }
        } else {
            DriverModel {
                phase: Phase::Suspended,
                yields: m.yields + 1,
                notifies: m.notifies + 1,
                ..m
            }
        },
        DriverEvent::Wake => DriverModel { phase: Phase::Idle, ..m },
    }
}

/// The state a fresh driver reaches after a trace of events.
pub open spec fn driver_run(t: Seq<DriverEvent>) -> DriverModel
    decreases t.len(),
{
    if t.len() == 0 {
        driver_init()
    } else {
        driver_step(driver_run(t.drop_last()), t.last())
    }
}

/// Whether a trace only ever offers events the driver accepts.
pub open spec fn valid_trace(t: Seq<DriverEvent>) -> bool
    decreases t.len(),
{
    t.len() == 0 || (valid_trace(t.drop_last()) && driver_enabled(
        driver_run(t.drop_last()),
        t.last(),
    ))
}

/// The counters every reachable state satisfies: one notification per taken
/// delay, and one more attempt than taken delays exactly while an attempt
/// is in hand or the loop is over.
pub open spec fn driver_counts_ok(m: DriverModel) -> bool {
    &&& m.notifies == m.yields
    &&& match m.phase {
        Phase::Idle | Phase::Suspended => m.attempts == m.yields,
        Phase::Attempting | Phase::Complete(_) => m.attempts == m.yields + 1,
    }
}

/// Every state reachable by a valid trace satisfies [`driver_counts_ok`].
pub proof fn lemma_driver_run_counts(t: Seq<DriverEvent>)
    requires
        valid_trace(t),
    ensures
        driver_counts_ok(driver_run(t)),
    decreases t.len(),
{
    if t.len() > 0 {
        lemma_driver_run_counts(t.drop_last());
    }
}

/// A loop that ends by exhaustion made exactly one more attempt than the
/// delays its sequence yielded, and notified its hook exactly once per
/// delay — each notification with the transition into suspension, before
/// the wait it announces. With a sequence yielding three delays, that is
/// four attempts and three notifications.
pub proof fn lemma_exhausted_run_counts(t: Seq<DriverEvent>)
    requires
        valid_trace(t),
        driver_run(t).phase == Phase::Complete(Outcome::Exhausted),
    ensures
        driver_run(t).attempts == driver_run(t).yields + 1,
        driver_run(t).notifies == driver_run(t).yields,
{
    lemma_driver_run_counts(t);
}

/// Extending a trace by one event runs one step further, and is valid
/// exactly when the trace was valid and the state accepts the event.
proof fn lemma_run_push(t: Seq<DriverEvent>, e: DriverEvent)
    ensures
        driver_run(t.push(e)) == driver_step(driver_run(t), e),
        valid_trace(t.push(e)) == (valid_trace(t) && driver_enabled(driver_run(t), e)),
{
    assert(t.push(e).drop_last() =~= t);
    assert(t.push(e).last() == e);
}

/// The trace of `n` full retry cycles: attempt, retryable failure with a
/// delay available, wake once the delay has elapsed.
pub open spec fn retry_cycles(n: nat) -> Seq<DriverEvent>
    decreases n,
{
    if n == 0 {
        Seq::empty()
    } else {
        retry_cycles((n - 1) as nat).push(DriverEvent::Begin).push(
            DriverEvent::Fail { retryable: true, yielded: true },
        ).push(DriverEvent::Wake)
    }
}

/// After `n` full retry cycles the driver is idle again, with `n` attempts
/// made, `n` delays taken and `n` notifications given.
proof fn lemma_retry_cycles(n: nat)
    ensures
        valid_trace(retry_cycles(n)),
        driver_run(retry_cycles(n)) == (DriverModel {
            phase: Phase::Idle,
            attempts: n,
            yields: n,
            notifies: n,
        }),
    decreases n,
{
    if n == 0 {
        assert(retry_cycles(0) =~= Seq::<DriverEvent>::empty());
    } else {
        let prev = retry_cycles((n - 1) as nat);
        lemma_retry_cycles((n - 1) as nat);
        lemma_run_push(prev, DriverEvent::Begin);
        lemma_run_push(prev.push(DriverEvent::Begin), DriverEvent::Fail { retryable: true, yielded: true });
        lemma_run_push(
            prev.push(DriverEvent::Begin).push(DriverEvent::Fail { retryable: true, yielded: true }),
            DriverEvent::Wake,
        );
    }
}

/// The whole exhaustion scenario, made concrete: a loop whose every attempt
/// fails retryably, over a sequence that yields exactly `n` delays before
/// exhausting, runs `n` full cycles and one final attempt, and ends with
/// `n + 1` attempts made and `n` notifications given — each strictly before
/// its suspension. With a sequence yielding three delays, that is four
/// attempts and three notifications.
pub proof fn lemma_exhaustion_scenario(n: nat)
    ensures
        ({
            let t = retry_cycles(n).push(DriverEvent::Begin).push(
                DriverEvent::Fail { retryable: true, yielded: false },
            );
            valid_trace(t) && driver_run(t) == (DriverModel {
                phase: Phase::Complete(Outcome::Exhausted),
                attempts: n + 1,
                yields: n,
                notifies: n,
            })
        }),
{
    let cycles = retry_cycles(n);
    lemma_retry_cycles(n);
    lemma_run_push(cycles, DriverEvent::Begin);
    lemma_run_push(
        cycles.push(DriverEvent::Begin),
        DriverEvent::Fail { retryable: true, yielded: false },
    );
}

/// In a valid trace, every event is accepted by the state before it.
proof fn lemma_trace_enabled(t: Seq<DriverEvent>, i: int)
    requires
        valid_trace(t),
        0 <= i < t.len(),
    ensures
        driver_enabled(driver_run(t.take(i)), t[i]),
    decreases t.len(),
{
    if i == t.len() - 1 {
        assert(t.take(i) =~= t.drop_last());
    } else {
        lemma_trace_enabled(t.drop_last(), i);
        assert(t.drop_last().take(i) =~= t.take(i));
    }
}

/// A loop whose first attempt fails with a non-retryable error stops there:
/// the operation ran exactly once, the sequence was never consulted, and no
/// suspension took place — no valid trace extends past that failure.
pub proof fn lemma_not_retryable_stops(t: Seq<DriverEvent>)
    requires
        valid_trace(t),
        t.len() >= 2,
        t[0] == DriverEvent::Begin,
        t[1] matches DriverEvent::Fail { retryable: false, .. },
    ensures
        t.len() == 2,
        driver_run(t) == (DriverModel {
            phase: Phase::Complete(Outcome::NotRetryable),
            attempts: 1,
            yields: 0,
            notifies: 0,
        }),
{
    let t2 = t.take(2);
    assert(t2.drop_last() =~= t.take(1));
    assert(t.take(1).drop_last() =~= t.take(0));
    assert(t.take(0).len() == 0);
    assert(t.take(1).last() == t[0]);
    assert(t2.last() == t[1]);
    assert(driver_run(t.take(0)) == driver_init());
    assert(driver_run(t.take(1)) == driver_step(driver_run(t.take(1).drop_last()), t[0]));
    assert(driver_run(t.take(1)) == driver_step(driver_init(), t[0]));
    assert(driver_run(t2) == driver_step(driver_run(t.take(1)), t[1]));
    if t.len() > 2 {
        lemma_trace_enabled(t, 2);
        assert(false);
    }
    assert(t =~= t2);
}

/// The retry driver's decision core: the backoff sequence it owns, advanced
/// in place, with the loop's phase and counters carried as its model. A
/// loop drives it by reporting what happened — attempt started, attempt
/// resolved, delay elapsed — and it decides what comes next; the loop
/// performs the work (invoking the operation, notifying, waiting) between
/// the transitions, and must respect each method's phase requirement.
pub struct RetryDriver<B: Backoff> {
    backoff: B,
    model: Ghost<DriverModel>,
}

impl<B: Backoff> View for RetryDriver<B> {
    type V = DriverModel;

    closed spec fn view(&self) -> DriverModel {
        self.model@
    }
}

impl<B: Backoff> RetryDriver<B> {
    /// A fresh driver over a fresh sequence, in its idle phase.
    pub fn new(backoff: B) -> (r: Self)
        ensures
            r@ == driver_init(),
    {
        RetryDriver { backoff, model: Ghost(driver_init()) }
    }

    /// Record that the operation was invoked for a fresh attempt.
    pub fn begin_attempt(&mut self)
        requires
            old(self)@.phase is Idle,
        ensures
            final(self)@ == driver_step(old(self)@, DriverEvent::Begin),
    {
        proof {
            self.model@ = driver_step(self.model@, DriverEvent::Begin);
        }
    }

    /// The attempt in flight resolved with a value: the loop is complete.
    pub fn on_success(&mut self)
        requires
            old(self)@.phase is Attempting,
        ensures
            final(self)@ == driver_step(old(self)@, DriverEvent::Succeed),
    {
        proof {
            self.model@ = driver_step(self.model@, DriverEvent::Succeed);
        }
    }

    /// The attempt in flight resolved with an error, which the caller's
    /// condition judged `retryable` or not.
    ///
    /// A non-retryable failure completes the loop at once — the sequence is
    /// not consulted. Otherwise the sequence is advanced exactly once:
    /// exhaustion completes the loop (the caller surfaces the error it
    /// holds), and a delay moves the driver into its suspended phase — the
    /// caller must notify its hook and wait out the returned delay in full
    /// before waking the driver for the next attempt.
    pub fn on_failure(&mut self, retryable: bool) -> (r: Option<Duration>)
        requires
            old(self)@.phase is Attempting,
        ensures
            !retryable ==> r is None && final(self)@ == driver_step(
                old(self)@,
                DriverEvent::Fail { retryable: false, yielded: false },
            ),
            retryable ==> match r {
                None => final(self)@ == driver_step(
                    old(self)@,
                    DriverEvent::Fail { retryable: true, yielded: false },
                ),
                Some(_) => final(self)@ == driver_step(
                    old(self)@,
                    DriverEvent::Fail { retryable: true, yielded: true },
                ),
            },
    {
        if !retryable {
            proof {
                self.model@ = driver_step(
                    self.model@,
                    DriverEvent::Fail { retryable: false, yielded: false },
                );
            }
            return None;
        }
        let next = self.backoff.next();
        match next {
            None => {
                proof {
                    self.model@ = driver_step(
                        self.model@,
                        DriverEvent::Fail { retryable: true, yielded: false },
                    );
                }
                None
            },
            Some(dur) => {
                proof {
                    self.model@ = driver_step(
                        self.model@,
                        DriverEvent::Fail { retryable: true, yielded: true },
                    );
                }
                Some(dur)
            },
        }
    }

    /// The delay has fully elapsed: back to idle, ready for the next
    /// attempt.
    pub fn wake(&mut self)
        requires
            old(self)@.phase is Suspended,
        ensures
            final(self)@ == driver_step(old(self)@, DriverEvent::Wake),
    {
        proof {
            self.model@ = driver_step(self.model@, DriverEvent::Wake);
        }
    }
}

} // verus!
