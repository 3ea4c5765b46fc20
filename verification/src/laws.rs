//! What holds of the operations, whatever the accounts and the arguments.
//!
//! Each law is stated over the outcome functions that the operations'
//! contracts are written with, so it holds of every call.

use vstd::prelude::*;
use crate::address::Address;
use crate::authority::{
    derives, is_vault_derivation, program_address, program_id, vault_authority_of,
    vault_seed_list, with_nonce,
};
use crate::error::CustomError;
use crate::reward::{
    elapsed, periods_elapsed, reward_amount, reward_outcome, MAX_WEIGHT, REWARD_PERIOD,
    REWARD_RATE_PER_UNIT,
};
use crate::state::{Claim, Deposit, InitializeUser, InitializeVault, TokenAccount, Transfer};
use crate::wolf_staking::{
    claim_outcome, claim_rejection, deposit_transfer, initialize_user_outcome,
    initialize_vault_outcome, new_vault,
};

verus! {

/// A claim made no more than one period after the last one is too soon, and
/// changes nothing. A claim made exactly one period after the last one is
/// among them. The weight must be within the ceiling, or the claim is
/// rejected for its weight instead.
pub proof fn claim_within_cooldown_is_too_soon(
    ctx: Claim,
    derived: Option<Seq<u8>>,
    presented_weight: u64,
    now: u64,
)
    requires
        presented_weight <= MAX_WEIGHT,
        elapsed(ctx.user_account.last_claim_time, now) <= REWARD_PERIOD,
    ensures
        claim_outcome(ctx, derived, presented_weight, now) == (
            Err::<Transfer, CustomError>(CustomError::TooSoon),
            ctx,
        ),
{
}

/// A claim that presents more than the ceiling is rejected for its weight,
/// whatever the timing, and changes nothing.
pub proof fn claim_above_ceiling_is_invalid_weight(
    ctx: Claim,
    derived: Option<Seq<u8>>,
    presented_weight: u64,
    now: u64,
)
    requires
        presented_weight > MAX_WEIGHT,
    ensures
        claim_outcome(ctx, derived, presented_weight, now) == (
            Err::<Transfer, CustomError>(CustomError::InvalidWeight),
            ctx,
        ),
{
}

/// A claim succeeds exactly when every check passes: the weight is within the
/// ceiling, more than one period has passed, the vault holds the reward, the
/// receiving account is the participant's own, the supplied nonce
/// reconstructs the vault's address, and the claimed total has room for the
/// reward.
pub proof fn claim_succeeds_exactly_when_all_checks_pass(
    ctx: Claim,
    derived: Option<Seq<u8>>,
    presented_weight: u64,
    now: u64,
)
    ensures
        claim_outcome(ctx, derived, presented_weight, now).0 is Ok <==> {
            let reward = reward_amount(presented_weight, ctx.user_account.last_claim_time, now);
            &&& presented_weight <= MAX_WEIGHT
            &&& elapsed(ctx.user_account.last_claim_time, now) > REWARD_PERIOD
            &&& reward <= ctx.vault_account.amount
            &&& ctx.to.owner == ctx.user
            &&& derived == Some(ctx.vault_account.key@)
            &&& ctx.user_account.total_claimed + reward <= u64::MAX
        },
{
}

/// The reward is a function of the presented weight, the last claim time and
/// the time of the claim, and of nothing else: two successful claims that
/// agree in these three transfer the same amount, whatever the accounts.
pub proof fn reward_depends_on_weight_and_times_only(
    first: Claim,
    first_derived: Option<Seq<u8>>,
    second: Claim,
    second_derived: Option<Seq<u8>>,
    presented_weight: u64,
    now: u64,
)
    requires
        first.user_account.last_claim_time == second.user_account.last_claim_time,
        claim_outcome(first, first_derived, presented_weight, now).0 is Ok,
        claim_outcome(second, second_derived, presented_weight, now).0 is Ok,
    ensures
        claim_outcome(first, first_derived, presented_weight, now).0.unwrap().amount
            == claim_outcome(second, second_derived, presented_weight, now).0.unwrap().amount,
{
}

/// The reward that a successful claim transfers is exactly the presented
/// weight times the rate times the whole periods elapsed: the elapsed time
/// divided by the period, rounded down. Time that does not fill a period
/// earns nothing.
pub proof fn reward_is_weight_times_rate_times_whole_periods(
    ctx: Claim,
    derived: Option<Seq<u8>>,
    presented_weight: u64,
    now: u64,
)
    requires
        claim_outcome(ctx, derived, presented_weight, now).0 is Ok,
    ensures
        claim_outcome(ctx, derived, presented_weight, now).0.unwrap().amount == presented_weight
            * REWARD_RATE_PER_UNIT * ((now - ctx.user_account.last_claim_time) / (
        REWARD_PERIOD as int)),
        claim_outcome(ctx, derived, presented_weight, now).0.unwrap().amount == reward_amount(
            presented_weight,
            ctx.user_account.last_claim_time,
            now,
        ),
{
    let periods = periods_elapsed(ctx.user_account.last_claim_time, now);
    assert(presented_weight * REWARD_RATE_PER_UNIT * periods == presented_weight * (
    REWARD_RATE_PER_UNIT * periods)) by (nonlinear_arith);
}

/// A successful claim moves the record's last claim time strictly forward, to
/// `now`, adds exactly the reward to the claimed total, records the presented
/// weight, and leaves the owner and the other accounts as they were.
pub proof fn successful_claim_updates_record(
    ctx: Claim,
    derived: Option<Seq<u8>>,
    presented_weight: u64,
    now: u64,
)
    requires
        claim_outcome(ctx, derived, presented_weight, now).0 is Ok,
    ensures
        ({
            let (outcome, after) = claim_outcome(ctx, derived, presented_weight, now);
            &&& after.user_account.last_claim_time == now
            &&& after.user_account.last_claim_time > ctx.user_account.last_claim_time
            &&& after.user_account.total_claimed == ctx.user_account.total_claimed
                + outcome.unwrap().amount
            &&& after.user_account.stake_weight == presented_weight
            &&& after.user_account.owner == ctx.user_account.owner
            &&& after.vault_account == ctx.vault_account
            &&& after.to == ctx.to
            &&& after.user == ctx.user
        }),
{
}

/// No claim, accepted or rejected, moves a record's last claim time or its
/// claimed total backwards, or changes its owner.
pub proof fn record_never_goes_back(
    ctx: Claim,
    derived: Option<Seq<u8>>,
    presented_weight: u64,
    now: u64,
)
    ensures
        ({
            let after = claim_outcome(ctx, derived, presented_weight, now).1;
            &&& after.user_account.last_claim_time >= ctx.user_account.last_claim_time
            &&& after.user_account.total_claimed >= ctx.user_account.total_claimed
            &&& after.user_account.owner == ctx.user_account.owner
        }),
{
    let reward = reward_amount(presented_weight, ctx.user_account.last_claim_time, now);
    if claim_rejection(ctx, derived, presented_weight, now) is None {
        assert(reward_outcome(presented_weight, ctx.user_account.last_claim_time, now) is Ok);
        assert(reward >= 0) by (nonlinear_arith)
            requires
                reward == presented_weight * (REWARD_RATE_PER_UNIT * periods_elapsed(
                    ctx.user_account.last_claim_time,
                    now,
                )),
                periods_elapsed(ctx.user_account.last_claim_time, now) >= 0,
                REWARD_RATE_PER_UNIT >= 0,
        ;
    }
}

/// A claim whose reward the vault cannot pay is rejected for want of funds,
/// and changes nothing: no transfer is asked for, and the record stays as it
/// was. This is the case in which the weight is within the ceiling, the
/// cooldown is over and the reward fits in 64 bits.
pub proof fn claim_beyond_vault_balance_is_rejected(
    ctx: Claim,
    derived: Option<Seq<u8>>,
    presented_weight: u64,
    now: u64,
)
    requires
        reward_outcome(presented_weight, ctx.user_account.last_claim_time, now) is Ok,
        ctx.vault_account.amount < reward_amount(
            presented_weight,
            ctx.user_account.last_claim_time,
            now,
        ),
    ensures
        claim_outcome(ctx, derived, presented_weight, now) == (
            Err::<Transfer, CustomError>(CustomError::InsufficientVaultFunds),
            ctx,
        ),
{
}

/// After a successful claim at `now`, a further claim no more than one period
/// later is too soon and changes nothing, whatever nonce it supplies. A claim
/// one second later is among them.
pub proof fn second_claim_within_cooldown_is_too_soon(
    ctx: Claim,
    derived: Option<Seq<u8>>,
    presented_weight: u64,
    now: u64,
    second_derived: Option<Seq<u8>>,
    second_weight: u64,
    later: u64,
)
    requires
        claim_outcome(ctx, derived, presented_weight, now).0 is Ok,
        second_weight <= MAX_WEIGHT,
        later - now <= REWARD_PERIOD,
    ensures
        ({
            let after = claim_outcome(ctx, derived, presented_weight, now).1;
            claim_outcome(after, second_derived, second_weight, later) == (
                Err::<Transfer, CustomError>(CustomError::TooSoon),
                after,
            )
        }),
{
}

/// A deposit asks for tokens to be moved into the vault and nothing else, and
/// funds in the vault do not shorten the cooldown: however much the vault
/// holds, a claim at the very time of the last claim is too soon.
pub proof fn deposit_does_not_open_a_claim(
    deposit: Deposit,
    amount: u64,
    ctx: Claim,
    funded: u64,
    derived: Option<Seq<u8>>,
    presented_weight: u64,
)
    requires
        presented_weight <= MAX_WEIGHT,
    ensures
        deposit_transfer(deposit, amount).to == deposit.vault_account.key,
        deposit_transfer(deposit, amount).amount == amount,
        ({
            let funded_ctx = Claim {
                vault_account: TokenAccount { amount: funded, ..ctx.vault_account },
                ..ctx
            };
            claim_outcome(funded_ctx, derived, presented_weight, ctx.user_account.last_claim_time)
                == (Err::<Transfer, CustomError>(CustomError::TooSoon), funded_ctx)
        }),
{
}

/// Creating a stake record a second time fails with `AlreadyExists` and
/// leaves the record of the first call as it is.
pub proof fn second_initialize_user_already_exists(ctx: InitializeUser, now: u64, later: u64)
    requires
        initialize_user_outcome(ctx, now).0 is Ok,
    ensures
        ({
            let first = initialize_user_outcome(ctx, now).1;
            initialize_user_outcome(first, later) == (
                Err::<(), CustomError>(CustomError::AlreadyExists),
                first,
            )
        }),
{
}

/// Creating a vault a second time fails with `AlreadyExists` and leaves the
/// vault of the first call as it is, whatever address is derived.
pub proof fn second_initialize_vault_already_exists(
    ctx: InitializeVault,
    derived: Option<Address>,
    second_derived: Option<Address>,
)
    requires
        initialize_vault_outcome(ctx, derived).0 is Ok,
    ensures
        ({
            let first = initialize_vault_outcome(ctx, derived).1;
            initialize_vault_outcome(first, second_derived) == (
                Err::<(), CustomError>(CustomError::AlreadyExists),
                first,
            )
        }),
{
}

/// Deriving the vault address of a token type has one outcome: two addresses
/// derived for the same token type are the same address, and an address is
/// never derived where none can be.
pub proof fn vault_derivation_is_unique(
    mint: Seq<u8>,
    first: Option<Address>,
    second: Option<Address>,
)
    requires
        is_vault_derivation(mint, first),
        is_vault_derivation(mint, second),
    ensures
        first == second,
{
    let seeds = vault_seed_list(mint);
    match (first, second) {
        (Some(a), Some(b)) => {
            let m = choose|m: u8| derives(seeds, program_id(), a@, m);
            let n = choose|n: u8| derives(seeds, program_id(), b@, n);
            assert(program_address(with_nonce(seeds, m), program_id()) is Some);
            assert(program_address(with_nonce(seeds, n), program_id()) is Some);
            assert(m == n);
            a.lemma_same_bytes(b);
        },
        (Some(a), None) => {
            let m = choose|m: u8| derives(seeds, program_id(), a@, m);
            assert(program_address(with_nonce(seeds, m), program_id()) is Some);
        },
        (None, Some(b)) => {
            let n = choose|n: u8| derives(seeds, program_id(), b@, n);
            assert(program_address(with_nonce(seeds, n), program_id()) is Some);
        },
        (None, None) => {},
    }
}

/// The nonce of a vault's derivation is the nonce that a claim must supply:
/// with it, the vault's seeds reconstruct the vault's address, so a claim
/// against the vault as it was created is not rejected for its nonce.
pub proof fn derived_nonce_authorizes_claim(
    ctx: Claim,
    key: Address,
    nonce: u8,
    presented_weight: u64,
    now: u64,
)
    requires
        derives(vault_seed_list(ctx.to.mint@), program_id(), key@, nonce),
        ctx.vault_account == new_vault(key, ctx.to.mint),
    ensures
        claim_rejection(ctx, vault_authority_of(ctx.to.mint@, nonce), presented_weight, now)
            != Some(CustomError::InvalidNonce),
{
}

} // verus!
