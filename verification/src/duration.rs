use vstd::arithmetic::div_mod::{lemma_fundamental_div_mod, lemma_multiply_divide_lt};
use vstd::arithmetic::mul::lemma_mul_inequality;
use vstd::prelude::*;

verus! {

/// Nanoseconds in one second; the sub-second field stays below this.
pub const NANOS_PER_SEC: u32 = 1_000_000_000;

/// Total nanoseconds of the largest representable duration.
pub open spec fn dur_max() -> int {
    0xffff_ffff_ffff_ffff as int * 1_000_000_000 + 999_999_999
}

/// Clamp a mathematical nanosecond count to the representable range.
pub open spec fn sat(n: int) -> int {
    if n > dur_max() {
        dur_max()
    } else {
        n
    }
}

/// A non-negative span of time, kept as whole seconds plus a sub-second
/// nanosecond remainder. Its view is the total count of nanoseconds.
///
/// All arithmetic offered here saturates at the largest representable
/// value instead of overflowing.
#[derive(Debug, Clone, Copy, PartialEq, Eq, PartialOrd, Ord, Structural)]
pub struct Duration {
    secs: u64,
    nanos: u32,
}

impl View for Duration {
    type V = int;

    closed spec fn view(&self) -> int {
        self.secs as int * 1_000_000_000 + self.nanos as int
    }
}

impl Duration {
    #[verifier::type_invariant]
    spec fn inv(self) -> bool {
        self.nanos < 1_000_000_000
    }

    /// A duration of whole seconds.
    pub fn from_secs(secs: u64) -> (r: Duration)
        ensures
            r@ == secs as int * 1_000_000_000,
            0 <= r@ <= dur_max(),
    {
        Duration { secs, nanos: 0 }
    }

    /// A duration of whole milliseconds.
    pub fn from_millis(millis: u64) -> (r: Duration)
        ensures
            r@ == millis as int * 1_000_000,
            0 <= r@ <= dur_max(),
    {
        let secs = millis / 1000;
        let rem = (millis % 1000) as u32;
        proof {
            lemma_fundamental_div_mod(millis as int, 1000);
            assert((millis as int / 1000) * 1_000_000_000 + (millis as int % 1000) * 1_000_000
                == (1000 * (millis as int / 1000) + millis as int % 1000) * 1_000_000)
                by (nonlinear_arith);
        }
        Duration { secs, nanos: rem * 1_000_000 }
    }

    /// A duration of whole microseconds.
    pub fn from_micros(micros: u64) -> (r: Duration)
        ensures
            r@ == micros as int * 1_000,
            0 <= r@ <= dur_max(),
    {
        let secs = micros / 1_000_000;
        let rem = (micros % 1_000_000) as u32;
        proof {
            lemma_fundamental_div_mod(micros as int, 1_000_000);
            assert((micros as int / 1_000_000) * 1_000_000_000 + (micros as int % 1_000_000)
                * 1_000 == (1_000_000 * (micros as int / 1_000_000) + micros as int % 1_000_000)
                * 1_000) by (nonlinear_arith);
        }
        Duration { secs, nanos: rem * 1_000 }
    }

    /// A duration of nanoseconds.
    pub fn from_nanos(nanos: u64) -> (r: Duration)
        ensures
            r@ == nanos as int,
            0 <= r@ <= dur_max(),
    {
        let secs = nanos / 1_000_000_000;
        let rem = (nanos % 1_000_000_000) as u32;
        proof {
            lemma_fundamental_div_mod(nanos as int, 1_000_000_000);
        }
        Duration { secs, nanos: rem }
    }

    /// The largest representable duration.
    pub fn max_value() -> (r: Duration)
        ensures
            r@ == dur_max(),
    {
        Duration { secs: u64::MAX, nanos: 999_999_999 }
    }

    /// A duration of no time.
    pub fn zero() -> (r: Duration)
        ensures
            r@ == 0,
    {
        Duration { secs: 0, nanos: 0 }
    }

    /// The whole seconds of this duration.
    pub fn as_secs(&self) -> (r: u64)
        ensures
            r as int == self@ / 1_000_000_000,
    {
        proof {
            use_type_invariant(self);
            vstd::arithmetic::div_mod::lemma_fundamental_div_mod_converse_div(
                self@,
                1_000_000_000,
                self.secs as int,
                self.nanos as int,
            );
        }
        self.secs
    }

    /// The sub-second remainder of this duration, in nanoseconds.
    pub fn subsec_nanos(&self) -> (r: u32)
        ensures
            r as int == self@ % 1_000_000_000,
    {
        proof {
            use_type_invariant(self);
            vstd::arithmetic::div_mod::lemma_fundamental_div_mod_converse_mod(
                self@,
                1_000_000_000,
                self.secs as int,
                self.nanos as int,
            );
        }
        self.nanos
    }

    /// Whether this duration is strictly shorter than `other`.
    pub fn lt(&self, other: &Duration) -> (r: bool)
        ensures
            r == (self@ < other@),
    {
        proof {
            use_type_invariant(self);
            use_type_invariant(other);
            lemma_lex_order(
                self.secs as int,
                self.nanos as int,
                other.secs as int,
                other.nanos as int,
            );
        }
        self.secs < other.secs || (self.secs == other.secs && self.nanos < other.nanos)
    }

    /// The total count of nanoseconds in this duration.
    pub fn total_nanos(&self) -> (r: u128)
        ensures
            r as int == self@,
            0 <= self@ <= dur_max(),
    {
        proof {
            use_type_invariant(self);
            lemma_mul_inequality(self.secs as int, 0xffff_ffff_ffff_ffff, 1_000_000_000);
        }
        (self.secs as u128) * (NANOS_PER_SEC as u128) + (self.nanos as u128)
    }

    /// The duration of `total` nanoseconds, clamped to the representable range.
    pub fn from_total_nanos_sat(total: u128) -> (r: Duration)
        ensures
            r@ == sat(total as int),
    {
        if total > 0xffff_ffff_ffff_ffff * 1_000_000_000 + 999_999_999 {
            Duration::max_value()
        } else {
            let secs128 = total / 1_000_000_000;
            let rem = (total % 1_000_000_000) as u32;
            proof {
                lemma_fundamental_div_mod(total as int, 1_000_000_000);
                assert(total as int / 1_000_000_000 <= 0xffff_ffff_ffff_ffff) by {
                    if total as int / 1_000_000_000 > 0xffff_ffff_ffff_ffff {
                        assert((0xffff_ffff_ffff_ffff + 1) * 1_000_000_000 <= (total as int
                            / 1_000_000_000) * 1_000_000_000) by (nonlinear_arith)
                            requires
                                0xffff_ffff_ffff_ffff + 1 <= total as int / 1_000_000_000,
                        ;
                    }
                }
            }
            let secs = secs128 as u64;
            Duration { secs, nanos: rem }
        }
    }

    /// The sum of two durations, clamped to the representable range.
    pub fn saturating_add(self, rhs: Duration) -> (r: Duration)
        ensures
            r@ == sat(self@ + rhs@),
            self@ <= r@ <= dur_max(),
            rhs@ <= r@,
    {
        proof {
            use_type_invariant(&self);
            use_type_invariant(&rhs);
        }
        let mut nanos = self.nanos + rhs.nanos;
        let mut carry: u64 = 0;
        if nanos >= NANOS_PER_SEC {
            nanos = nanos - NANOS_PER_SEC;
            carry = 1;
        }
        if self.secs <= u64::MAX - rhs.secs {
            let s = self.secs + rhs.secs;
            if carry == 1 && s == u64::MAX {
                Duration::max_value()
            } else {
                Duration { secs: s + carry, nanos }
            }
        } else {
            proof {
                assert(self@ + rhs@ > dur_max()) by (nonlinear_arith)
                    requires
                        self.secs as int + rhs.secs as int > 0xffff_ffff_ffff_ffff,
                        self@ == self.secs as int * 1_000_000_000 + self.nanos as int,
                        rhs@ == rhs.secs as int * 1_000_000_000 + rhs.nanos as int,
                        self.nanos < 1_000_000_000,
                        rhs.nanos < 1_000_000_000,
                ;
            }
            Duration::max_value()
        }
    }

    /// The fraction `numer / 2^32` of this duration, rounded down.
    ///
    /// The result is always at most the duration itself, and strictly
    /// smaller whenever the duration is non-zero, whatever `numer` holds.
    pub fn frac_mul(self, numer: u32) -> (r: Duration)
        ensures
            r@ == self@ * numer as int / 0x1_0000_0000,
            0 <= r@ <= self@,
            self@ > 0 ==> r@ < self@,
    {
        let t = self.total_nanos();
        proof {
            lemma_mul_inequality(t as int, dur_max(), numer as int);
            lemma_mul_inequality(numer as int, 0xffff_ffff, dur_max());
            assert(t as int * numer as int <= dur_max() * 0xffff_ffff) by (nonlinear_arith)
                requires
                    0 <= t as int <= dur_max(),
                    0 <= numer as int <= 0xffff_ffff,
            ;
        }
        let p = t * (numer as u128);
        let q = p / 0x1_0000_0000;
        proof {
            assert((p as int) < 0x1_0000_0000 * (t as int + 1)) by (nonlinear_arith)
                requires
                    p as int == t as int * numer as int,
                    0 <= (numer as int) < 0x1_0000_0000,
                    0 <= t as int,
            ;
            lemma_multiply_divide_lt(p as int, 0x1_0000_0000, t as int + 1);
            if t as int > 0 {
                assert((p as int) < 0x1_0000_0000 * (t as int)) by (nonlinear_arith)
                    requires
                        p as int == t as int * numer as int,
                        0 <= (numer as int) < 0x1_0000_0000,
                        1 <= t as int,
                ;
                lemma_multiply_divide_lt(p as int, 0x1_0000_0000, t as int);
            }
        }
        Duration::from_total_nanos_sat(q)
    }

    /// This duration scaled by `factor / 1000`, rounded down and clamped
    /// to the representable range.
    pub fn saturating_mul(self, factor: u64) -> (r: Duration)
        ensures
            r@ == sat(self@ * factor as int / 1000),
            0 <= r@ <= dur_max(),
    {
        let t = self.total_nanos();
        if factor == 0 {
            return Duration::zero();
        }
        if t > u128::MAX / (factor as u128) {
            proof {
                lemma_fundamental_div_mod(u128::MAX as int, factor as int);
                assert(t as int * factor as int > u128::MAX as int) by (nonlinear_arith)
                    requires
                        t as int >= u128::MAX as int / factor as int + 1,
                        u128::MAX as int == factor as int * (u128::MAX as int / factor as int) + (
                        u128::MAX as int % factor as int),
                        0 <= (u128::MAX as int % factor as int) < (factor as int),
                        factor as int >= 1,
                ;
                assert(t as int * factor as int / 1000 > dur_max()) by (nonlinear_arith)
                    requires
                        t as int * factor as int > u128::MAX as int,
                        u128::MAX as int > (dur_max() + 1) * 1000,
                ;
            }
            return Duration::max_value();
        }
        proof {
            lemma_fundamental_div_mod(u128::MAX as int, factor as int);
            assert(t as int * factor as int <= u128::MAX as int) by (nonlinear_arith)
                requires
                    t as int <= u128::MAX as int / factor as int,
                    u128::MAX as int == factor as int * (u128::MAX as int / factor as int) + (
                    u128::MAX as int % factor as int),
                    0 <= u128::MAX as int % factor as int,
                    factor as int >= 1,
                    0 <= t as int,
            ;
        }
        let p = t * (factor as u128);
        let q = p / 1000;
        Duration::from_total_nanos_sat(q)
    }
}

/// Lexicographic comparison of (seconds, nanoseconds) pairs agrees with
/// comparison of total nanosecond counts when both remainders are sub-second.
proof fn lemma_lex_order(s1: int, n1: int, s2: int, n2: int)
    requires
        0 <= n1 < 1_000_000_000,
        0 <= n2 < 1_000_000_000,
        0 <= s1,
        0 <= s2,
    ensures
        (s1 * 1_000_000_000 + n1 < s2 * 1_000_000_000 + n2) <==> (s1 < s2 || (s1 == s2 && n1
            < n2)),
{
    assert((s1 * 1_000_000_000 + n1 < s2 * 1_000_000_000 + n2) <==> (s1 < s2 || (s1 == s2 && n1
        < n2))) by (nonlinear_arith)
        requires
            0 <= n1 < 1_000_000_000,
            0 <= n2 < 1_000_000_000,
    ;
}

} // verus!
