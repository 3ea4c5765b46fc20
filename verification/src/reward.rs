//! Reward accrual: how much a claim pays, and when one may be made.
//!
//! A participant earns a fixed rate per declared stake unit for every whole
//! period that has passed since the last claim. Time that does not fill a
//! period earns nothing, and a claim is open only once more than one period
//! has passed.

use vstd::prelude::*;
use crate::error::CustomError;

verus! {

/// The largest stake weight that a participant may present.
pub const MAX_WEIGHT: u64 = 1111;

/// What one stake unit earns in one period.
pub const REWARD_RATE_PER_UNIT: u64 = 1_000_000_000;

/// The length of a period, in seconds.
pub const REWARD_PERIOD: u64 = 10;

/// The seconds between the last claim and `now`; negative when `now` lies
/// before the last claim.
pub open spec fn elapsed(last_claim_time: u64, now: u64) -> int {
    now - last_claim_time
}

/// The whole periods contained in the elapsed time.
pub open spec fn periods_elapsed(last_claim_time: u64, now: u64) -> int {
    elapsed(last_claim_time, now) / (REWARD_PERIOD as int)
}

/// The reward for `weight` stake units over the whole periods elapsed, as an
/// unbounded integer: the weight times the rate times the number of whole
/// periods.
pub open spec fn reward_amount(weight: u64, last_claim_time: u64, now: u64) -> int {
    weight * (REWARD_RATE_PER_UNIT * periods_elapsed(last_claim_time, now))
}

/// What computing the reward of `weight` stake units at `now` comes to, for a
/// record last claimed at `last_claim_time`: the first check that fails, in
/// the order weight, cooldown, overflow, or else the reward.
pub open spec fn reward_outcome(weight: u64, last_claim_time: u64, now: u64) -> Result<
    u64,
    CustomError,
> {
    if weight > MAX_WEIGHT {
        Err(CustomError::InvalidWeight)
    } else if elapsed(last_claim_time, now) <= REWARD_PERIOD {
        Err(CustomError::TooSoon)
    } else if reward_amount(weight, last_claim_time, now) > u64::MAX {
        Err(CustomError::ArithmeticOverflow)
    } else {
        Ok(reward_amount(weight, last_claim_time, now) as u64)
    }
}

/// Computes the reward that a claim presenting `weight` stake units earns at
/// `now`, for a record last claimed at `last_claim_time`.
///
/// The weight is checked against the ceiling first, whatever the timing. The
/// cooldown is strict: a claim made exactly one period after the last one is
/// too soon. A product that does not fit in 64 bits is an error, never a
/// wrapped value.
pub fn compute_reward(weight: u64, last_claim_time: u64, now: u64) -> (outcome: Result<
    u64,
    CustomError,
>)
    ensures
        outcome == reward_outcome(weight, last_claim_time, now),
{
    if weight > MAX_WEIGHT {
        return Err(CustomError::InvalidWeight);
    }
    if now <= last_claim_time || now - last_claim_time <= REWARD_PERIOD {
        return Err(CustomError::TooSoon);
    }
    let periods: u64 = (now - last_claim_time) / REWARD_PERIOD;
    let per_period: u64 = match weight.checked_mul(REWARD_RATE_PER_UNIT) {
        Some(product) => product,
        None => {
            return Err(CustomError::ArithmeticOverflow);
        },
    };
    assert(per_period * periods == reward_amount(weight, last_claim_time, now)) by {
        assert(weight * REWARD_RATE_PER_UNIT * periods == weight * (REWARD_RATE_PER_UNIT * periods))
            by (nonlinear_arith);
    }
    match per_period.checked_mul(periods) {
        Some(reward) => Ok(reward),
        None => Err(CustomError::ArithmeticOverflow),
    }
}

} // verus!
