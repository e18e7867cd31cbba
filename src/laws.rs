//! Properties that hold of every plan built by the constructors.
use crate::backoff::saturate;
use crate::strategy::{exponential_plan, positive_or, EXPONENT_BASE, FACTOR};
use vstd::arithmetic::power::{lemma1_pow, pow};
use vstd::prelude::*;

verus! {

/// A plan yields exactly as many delays as it was given attempts.
pub proof fn law_delay_count(exponent_base: u32, factor: u32, number_of_retries: u32)
    ensures
        exponential_plan(exponent_base, factor, number_of_retries).delays().len()
            == number_of_retries,
{
}

/// The `i`-th delay (counted from 1) is the effective factor times the effective
/// base to the power `i`, saturating at `u64::MAX`.
pub proof fn law_delay_growth(exponent_base: u32, factor: u32, number_of_retries: u32, i: nat)
    requires
        1 <= i <= number_of_retries,
    ensures
        exponential_plan(exponent_base, factor, number_of_retries).delays()[i - 1] == saturate(
            positive_or(factor, FACTOR) * pow(positive_or(exponent_base, EXPONENT_BASE) as int, i),
        ),
{
}

/// With no attempts, a plan yields no delay, whatever its base and factor.
pub proof fn law_no_attempts(exponent_base: u32, factor: u32)
    ensures
        exponential_plan(exponent_base, factor, 0).delays() =~= Seq::<int>::empty(),
{
}

/// A zero base yields the delays of the default base, and a zero factor those of
/// the default factor.
pub proof fn law_zero_settings_default(exponent_base: u32, factor: u32, number_of_retries: u32)
    ensures
        exponential_plan(0, factor, number_of_retries).delays() == exponential_plan(
            EXPONENT_BASE,
            factor,
            number_of_retries,
        ).delays(),
        exponential_plan(exponent_base, 0, number_of_retries).delays() == exponential_plan(
            exponent_base,
            FACTOR,
            number_of_retries,
        ).delays(),
{
}

/// With base 1 every delay equals the effective factor: the delays do not grow.
pub proof fn law_fixed_interval(fixed_interval: u32, number_of_retries: u32, k: int)
    requires
        0 <= k < number_of_retries,
    ensures
        exponential_plan(1, fixed_interval, number_of_retries).delays()[k] == positive_or(
            fixed_interval,
            FACTOR,
        ),
{
    lemma1_pow((k + 1) as nat);
}

} // verus!
