//! Retry plans: their construction, with silent defaulting, and the delays they yield.
use crate::backoff::{
    backoff_base, backoff_current, backoff_factor, backoff_uncapped, next_delay_millis, saturate,
};
use tokio_retry2::strategy::ExponentialBackoff;
use vstd::arithmetic::power::pow;
use vstd::prelude::*;

verus! {

/// The base used when none, or zero, is given.
pub const EXPONENT_BASE: u32 = 2;

/// The factor, in milliseconds, used when none, or zero, is given.
pub const FACTOR: u32 = 100;

/// The number of attempts used when no configuration is given.
pub const NUMBER_OF_RETRIES: u32 = 5;

/// Retry settings as a connection's configuration carries them.
#[derive(Clone, Copy, Debug, PartialEq, Eq)]
pub struct ConnectionRetryStrategy {
    pub exponent_base: u32,
    pub factor: u32,
    pub number_of_retries: u32,
}

/// An exponential backoff plan: the delay before attempt `i` (counted from 1) is
/// `factor * exponent_base^i` milliseconds, for `number_of_retries` attempts.
#[derive(Clone, Copy, Debug, PartialEq, Eq)]
pub struct RetryStrategy {
    pub factor: u32,
    pub exponent_base: u32,
    pub number_of_retries: u32,
}

/// `value`, or `default` where `value` is zero.
pub open spec fn positive_or(value: u32, default: u32) -> u32 {
    if value > 0 {
        value
    } else {
        default
    }
}

/// The plan built from the given settings: a zero base or factor is replaced by
/// its default, the number of attempts is kept as it is.
pub open spec fn exponential_plan(exponent_base: u32, factor: u32, number_of_retries: u32) -> RetryStrategy {
    RetryStrategy {
        factor: positive_or(factor, FACTOR),
        exponent_base: positive_or(exponent_base, EXPONENT_BASE),
        number_of_retries,
    }
}

impl RetryStrategy {
    /// Base and factor are both positive.
    pub open spec fn well_formed(&self) -> bool {
        self.exponent_base > 0 && self.factor > 0
    }

    /// The unjittered delay before attempt `i` (counted from 1), in milliseconds,
    /// saturating at `u64::MAX`.
    pub open spec fn delay_at(&self, i: nat) -> int {
        saturate(self.factor * pow(self.exponent_base as int, i))
    }

    /// Every unjittered delay of the plan, in order.
    pub open spec fn delays(&self) -> Seq<int> {
        Seq::new(self.number_of_retries as nat, |k: int| self.delay_at((k + 1) as nat))
    }
}

/// Saturating first and multiplying after saturates to the same value.
proof fn lemma_saturate_mul(a: int, b: int)
    requires
        a >= 0,
        b >= 0,
    ensures
        saturate(saturate(a) * b) == saturate(a * b),
{
    if a > u64::MAX && b > 0 {
        assert(u64::MAX * b >= u64::MAX && a * b >= a) by (nonlinear_arith)
            requires
                a > u64::MAX,
                b > 0,
        ;
    }
}

/// A power of a natural number is a natural number.
proof fn lemma_pow_nonneg(b: nat, e: nat)
    ensures
        pow(b as int, e) >= 0,
    decreases e,
{
    reveal(pow);
    if e > 0 {
        lemma_pow_nonneg(b, (e - 1) as nat);
        assert(b * pow(b as int, (e - 1) as nat) >= 0) by (nonlinear_arith)
            requires
                pow(b as int, (e - 1) as nat) >= 0,
        ;
    }
}

/// Builds a plan from the given settings. A zero base becomes [`EXPONENT_BASE`],
/// a zero factor becomes [`FACTOR`]; the number of attempts is kept, zero included.
pub fn get_exponential_backoff(exponent_base: u32, factor: u32, number_of_retries: u32) -> (r:
    RetryStrategy)
    ensures
        r == exponential_plan(exponent_base, factor, number_of_retries),
        r.well_formed(),
{
    let exponent_base = if exponent_base > 0 {
        exponent_base
    } else {
        EXPONENT_BASE
    };
    let factor = if factor > 0 {
        factor
    } else {
        FACTOR
    };
    RetryStrategy { factor, exponent_base, number_of_retries }
}

/// Builds a plan whose every delay is `fixed_interval` milliseconds (a zero
/// interval becomes [`FACTOR`]).
pub fn get_fixed_interval_backoff(fixed_interval: u32, number_of_retries: u32) -> (r:
    RetryStrategy)
    ensures
        r == exponential_plan(1, fixed_interval, number_of_retries),
        r.well_formed(),
{
    get_exponential_backoff(1, fixed_interval, number_of_retries)
}

impl RetryStrategy {
    /// Builds a plan from a configuration where one is given, else from the
    /// defaults ([`EXPONENT_BASE`], [`FACTOR`], [`NUMBER_OF_RETRIES`]).
    pub fn new(data: Option<ConnectionRetryStrategy>) -> (r: Self)
        ensures
            r == match data {
                Some(s) => exponential_plan(s.exponent_base, s.factor, s.number_of_retries),
                None => exponential_plan(EXPONENT_BASE, FACTOR, NUMBER_OF_RETRIES),
            },
            r.well_formed(),
    {
        match data {
            Some(ref strategy) => get_exponential_backoff(
                strategy.exponent_base,
                strategy.factor,
                strategy.number_of_retries,
            ),
            None => get_exponential_backoff(EXPONENT_BASE, FACTOR, NUMBER_OF_RETRIES),
        }
    }

    /// The plan's delays before jitter, in milliseconds, one per attempt: the
    /// `i`-th (counted from 1) is `factor * exponent_base^i`, saturating at `u64::MAX`.
    pub fn unjittered_delays(&self) -> (r: Vec<u64>)
        ensures
            r@.len() == self.number_of_retries,
            forall|k: int| 0 <= k < r@.len() ==> r@[k] == self.delays()[k],
    {
        let mut backoff = ExponentialBackoff::from_millis(self.exponent_base as u64).factor(
            self.factor as u64,
        );
        let mut delays: Vec<u64> = Vec::new();
        let mut i: u32 = 0;
        proof {
            vstd::arithmetic::power::lemma_pow1(self.exponent_base as int);
        }
        while i < self.number_of_retries
            invariant
                i <= self.number_of_retries,
                delays@.len() == i,
                forall|k: int| 0 <= k < i ==> delays@[k] == self.delays()[k],
                backoff_current(backoff) == saturate(pow(self.exponent_base as int, (i + 1) as nat)),
                backoff_base(backoff) == self.exponent_base,
                backoff_factor(backoff) == self.factor,
                backoff_uncapped(backoff),
            decreases self.number_of_retries - i,
        {
            let ghost power = pow(self.exponent_base as int, (i + 1) as nat);
            let next = next_delay_millis(&mut backoff);
            proof {
                lemma_pow_nonneg(self.exponent_base as nat, (i + 1) as nat);
                lemma_saturate_mul(power, self.factor as int);
                lemma_saturate_mul(power, self.exponent_base as int);
                reveal(pow);
                assert(pow(self.exponent_base as int, (i + 2) as nat) == self.exponent_base * power);
            }
            let delay = next.unwrap();
            assert(delay == self.delays()[i as int]) by {
                assert(power * self.factor == self.factor * power);
            }
            delays.push(delay);
            i += 1;
        }
        delays
    }
}

} // verus!
