use vstd::prelude::*;

use crate::error::ContractError;

verus! {

/// Seconds in one week: the width of each pricing step.
pub const SECONDS_PER_WEEK: u64 = 604800;

/// Smallest currency units in one whole unit of the payment currency; the
/// price at genesis is exactly one whole unit.
pub const UNITS_PER_WHOLE: u128 = 1000000;

/// Ten to the `n`-th power, over the unbounded naturals.
pub open spec fn pow10(n: nat) -> nat
    decreases n,
{
    if n == 0 {
        1
    } else {
        10 * pow10((n - 1) as nat)
    }
}

/// Seconds elapsed since genesis; an instant before genesis counts as no
/// elapsed time at all.
pub open spec fn spec_elapsed_seconds(current_time: u64, genesis_time: u64) -> nat {
    if current_time >= genesis_time {
        (current_time - genesis_time) as nat
    } else {
        0
    }
}

/// Completed weeks since genesis.
pub open spec fn spec_elapsed_weeks(current_time: u64, genesis_time: u64) -> nat {
    spec_elapsed_seconds(current_time, genesis_time) / (SECONDS_PER_WEEK as nat)
}

/// The minimum acceptable payment in smallest currency units: one whole
/// unit at genesis, ten times more for every further completed week.
pub open spec fn spec_required_amount(current_time: u64, genesis_time: u64) -> nat {
    pow10(spec_elapsed_weeks(current_time, genesis_time)) * (UNITS_PER_WHOLE as nat)
}

pub proof fn lemma_pow10_positive(n: nat)
    ensures
        pow10(n) >= 1,
    decreases n,
{
    if n > 0 {
        lemma_pow10_positive((n - 1) as nat);
    }
}

pub proof fn lemma_pow10_monotonic(a: nat, b: nat)
    requires
        a <= b,
    ensures
        pow10(a) <= pow10(b),
    decreases b,
{
    if a < b {
        lemma_pow10_monotonic(a, (b - 1) as nat);
        lemma_pow10_positive((b - 1) as nat);
    }
}

/// Law: the required amount never moves backward as time advances, for any
/// two instants at or after genesis.
pub proof fn lemma_price_monotonic(genesis_time: u64, t1: u64, t2: u64)
    requires
        genesis_time <= t1,
        t1 <= t2,
    ensures
        spec_required_amount(t1, genesis_time) <= spec_required_amount(t2, genesis_time),
{
    let e1 = spec_elapsed_seconds(t1, genesis_time);
    let e2 = spec_elapsed_seconds(t2, genesis_time);
    vstd::arithmetic::div_mod::lemma_div_is_ordered(
        e1 as int,
        e2 as int,
        SECONDS_PER_WEEK as int,
    );
    lemma_pow10_monotonic(
        spec_elapsed_weeks(t1, genesis_time),
        spec_elapsed_weeks(t2, genesis_time),
    );
}

/// Law: the required amount grows by exactly a factor of ten whenever the
/// count of completed weeks since genesis grows by one.
pub proof fn lemma_price_week_factor(genesis_time: u64, t1: u64, t2: u64)
    requires
        genesis_time <= t1,
        t1 <= t2,
        spec_elapsed_weeks(t2, genesis_time) == spec_elapsed_weeks(t1, genesis_time) + 1,
    ensures
        spec_required_amount(t2, genesis_time) == 10 * spec_required_amount(t1, genesis_time),
{
    let w1 = spec_elapsed_weeks(t1, genesis_time);
    assert(pow10(w1 + 1) == 10 * pow10(w1));
    vstd::arithmetic::mul::lemma_mul_is_associative(
        10,
        pow10(w1) as int,
        UNITS_PER_WHOLE as int,
    );
}

/// Computes the minimum acceptable payment for `current_time`, failing
/// rather than wrapping when the price leaves the `u128` range.
pub fn required_payment_amount(current_time: u64, genesis_time: u64) -> (r: Result<
    u128,
    ContractError,
>)
    ensures
        spec_required_amount(current_time, genesis_time) <= u128::MAX ==> r == Ok::<
            u128,
            ContractError,
        >(spec_required_amount(current_time, genesis_time) as u128),
        spec_required_amount(current_time, genesis_time) > u128::MAX ==> r == Err::<
            u128,
            ContractError,
        >(ContractError::ArithmeticOverflow),
{
    let elapsed_seconds: u64 = if current_time >= genesis_time {
        current_time - genesis_time
    } else {
        0
    };
    let elapsed_weeks: u64 = elapsed_seconds / SECONDS_PER_WEEK;
    let mut base: u128 = 1;
    let mut i: u64 = 0;
    while i < elapsed_weeks
        invariant
            i <= elapsed_weeks,
            base as nat == pow10(i as nat),
            elapsed_weeks as nat == spec_elapsed_weeks(current_time, genesis_time),
        decreases elapsed_weeks - i,
    {
        match base.checked_mul(10) {
            Some(b) => {
                base = b;
            },
            None => {
                proof {
                    lemma_pow10_monotonic((i + 1) as nat, elapsed_weeks as nat);
                }
                return Err(ContractError::ArithmeticOverflow);
            },
        }
        i = i + 1;
    }
    match base.checked_mul(UNITS_PER_WHOLE) {
        Some(total) => Ok(total),
        None => Err(ContractError::ArithmeticOverflow),
    }
}

} // verus!
