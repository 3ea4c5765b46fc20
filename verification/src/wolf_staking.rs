//! The four operations: creating a vault, creating a stake record, depositing
//! and claiming.
//!
//! Each operation is all or nothing: it either returns `Ok` and leaves its
//! accounts in the state that its contract gives, or returns an error and
//! leaves them as they were. No operation moves tokens itself. `deposit` and
//! `claim` return the `Transfer` that the token ledger is to carry out, and
//! read a balance only as it stood when the operation began.

use vstd::prelude::*;
use crate::address::{address_bytes, Address};
use crate::authority::{
    derives, is_vault_derivation, program_id, vault_address, vault_authority, vault_authority_of,
    vault_seed_list,
};
use crate::error::CustomError;
use crate::reward::{compute_reward, reward_amount, reward_outcome};
use crate::state::{Claim, Deposit, InitializeUser, InitializeVault, TokenAccount, Transfer, User};

verus! {

/// A vault as it is created: at `key`, for `mint`, empty, and under its own
/// authority.
pub open spec fn new_vault(key: Address, mint: Address) -> TokenAccount {
    TokenAccount { key, mint, owner: key, amount: 0 }
}

/// What creating a vault comes to when `derived` is the address derived for
/// it, if one could be derived.
pub open spec fn initialize_vault_outcome(ctx: InitializeVault, derived: Option<Address>) -> (
    Result<(), CustomError>,
    InitializeVault,
) {
    if ctx.vault_account is Some {
        (Err(CustomError::AlreadyExists), ctx)
    } else {
        match derived {
            None => (Err(CustomError::InvalidNonce), ctx),
            Some(key) => (
                Ok(()),
                InitializeVault { vault_account: Some(new_vault(key, ctx.mint)), ..ctx },
            ),
        }
    }
}

/// A stake record as it is created for `owner` at `now`.
pub open spec fn new_record(owner: Address, now: u64) -> User {
    User { owner, total_claimed: 0, stake_weight: 0, last_claim_time: now }
}

/// What creating a stake record at `now` comes to.
pub open spec fn initialize_user_outcome(ctx: InitializeUser, now: u64) -> (
    Result<(), CustomError>,
    InitializeUser,
) {
    if ctx.user_account is Some {
        (Err(CustomError::AlreadyExists), ctx)
    } else {
        (Ok(()), InitializeUser { user_account: Some(new_record(ctx.user, now)), ..ctx })
    }
}

/// The transfer that a deposit of `amount` asks for: out of the depositor's
/// token account, into the vault, signed by the depositor.
pub open spec fn deposit_transfer(ctx: Deposit, amount: u64) -> Transfer {
    Transfer {
        from: ctx.depositor_token_account.key,
        to: ctx.vault_account.key,
        authority: ctx.depositor,
        amount,
    }
}

/// Why a claim is rejected, if it is: the first check that fails, in the
/// order weight, cooldown, overflow of the reward, solvency of the vault,
/// ownership of the receiving account, the vault's authority, overflow of the
/// claimed total. `derived` is the address that the vault's seeds reconstruct
/// with the nonce that the claim supplies.
pub open spec fn claim_rejection(
    ctx: Claim,
    derived: Option<Seq<u8>>,
    presented_weight: u64,
    now: u64,
) -> Option<CustomError> {
    match reward_outcome(presented_weight, ctx.user_account.last_claim_time, now) {
        Err(reason) => Some(reason),
        Ok(reward) => {
            if reward > ctx.vault_account.amount {
                Some(CustomError::InsufficientVaultFunds)
            } else if ctx.to.owner != ctx.user {
                Some(CustomError::UnauthorizedRecipient)
            } else if derived != Some(ctx.vault_account.key@) {
                Some(CustomError::InvalidNonce)
            } else if ctx.user_account.total_claimed + reward > u64::MAX {
                Some(CustomError::ArithmeticOverflow)
            } else {
                None
            }
        },
    }
}

/// The stake record after a claim that was not rejected.
pub open spec fn record_after_claim(record: User, presented_weight: u64, now: u64) -> User {
    User {
        owner: record.owner,
        total_claimed: (record.total_claimed + reward_amount(
            presented_weight,
            record.last_claim_time,
            now,
        )) as u64,
        stake_weight: presented_weight,
        last_claim_time: now,
    }
}

/// The transfer that a claim that was not rejected asks for: the reward, out
/// of the vault, into the receiving account, on the vault's own authority.
pub open spec fn claim_transfer(ctx: Claim, presented_weight: u64, now: u64) -> Transfer {
    Transfer {
        from: ctx.vault_account.key,
        to: ctx.to.key,
        authority: ctx.vault_account.key,
        amount: reward_amount(presented_weight, ctx.user_account.last_claim_time, now) as u64,
    }
}

/// What a claim comes to: the rejection and the accounts unchanged, or the
/// transfer and the accounts with the stake record brought up to date.
pub open spec fn claim_outcome(
    ctx: Claim,
    derived: Option<Seq<u8>>,
    presented_weight: u64,
    now: u64,
) -> (Result<Transfer, CustomError>, Claim) {
    match claim_rejection(ctx, derived, presented_weight, now) {
        Some(reason) => (Err(reason), ctx),
        None => (
            Ok(claim_transfer(ctx, presented_weight, now)),
            Claim {
                user_account: record_after_claim(ctx.user_account, presented_weight, now),
                ..ctx
            },
        ),
    }
}

/// Creates the vault of `ctx.mint` at `derived`, the address derived for it.
///
/// Fails with `AlreadyExists` if a vault stands there already, and with
/// `InvalidNonce` if no address could be derived.
pub fn initialize_vault_at(ctx: &mut InitializeVault, derived: Option<Address>) -> (outcome:
    Result<(), CustomError>)
    ensures
        outcome == initialize_vault_outcome(*old(ctx), derived).0,
        *final(ctx) == initialize_vault_outcome(*old(ctx), derived).1,
{
    if ctx.vault_account.is_some() {
        return Err(CustomError::AlreadyExists);
    }
    match derived {
        None => Err(CustomError::InvalidNonce),
        Some(key) => {
            ctx.vault_account = Some(TokenAccount { key, mint: ctx.mint, owner: key, amount: 0 });
            Ok(())
        },
    }
}

/// Creates the vault of the token type `ctx.mint`.
///
/// The vault stands at the address derived from the tag `vault` and the token
/// type, is empty, and is its own authority: no key can sign for it, only
/// this program with the nonce of the derivation. Creating a vault twice is
/// an error, not a no-op: the second call fails with `AlreadyExists` and
/// leaves the first vault as it is. `InvalidNonce` is returned in the one
/// case in which no nonce derives an address for the token type.
pub fn initialize_vault(ctx: &mut InitializeVault) -> (outcome: Result<(), CustomError>)
    ensures
        exists|derived: Option<Address>|
            {
                &&& #[trigger] is_vault_derivation(old(ctx).mint@, derived)
                &&& outcome == initialize_vault_outcome(*old(ctx), derived).0
                &&& *final(ctx) == initialize_vault_outcome(*old(ctx), derived).1
            },
{
    let found = vault_address(&ctx.mint);
    let derived = match found {
        Some((key, _)) => Some(key),
        None => None,
    };
    proof {
        if let Some((key, nonce)) = found {
            assert(derives(vault_seed_list(ctx.mint@), program_id(), key@, nonce));
        }
        assert(is_vault_derivation(ctx.mint@, derived));
    }
    initialize_vault_at(ctx, derived)
}

/// Creates the stake record of the participant `ctx.user` at `now`: nothing
/// claimed, no stake weight, and the cooldown running from `now`.
///
/// Creating a record twice is an error, not a no-op: the second call fails
/// with `AlreadyExists` and leaves the first record as it is.
pub fn initialize_user(ctx: &mut InitializeUser, now: u64) -> (outcome: Result<(), CustomError>)
    ensures
        outcome == initialize_user_outcome(*old(ctx), now).0,
        *final(ctx) == initialize_user_outcome(*old(ctx), now).1,
{
    if ctx.user_account.is_some() {
        return Err(CustomError::AlreadyExists);
    }
    ctx.user_account = Some(
        User { owner: ctx.user, total_claimed: 0, stake_weight: 0, last_claim_time: now },
    );
    Ok(())
}

/// Asks for `amount` tokens to be moved from the depositor's token account
/// into the vault, signed by the depositor.
///
/// A deposit touches no stake record and earns no eligibility: a stake weight
/// is declared by a claim only. Whether the depositor's account holds
/// `amount` is for the token ledger to decide when it carries the transfer
/// out.
pub fn deposit(ctx: &Deposit, amount: u64) -> (transfer: Transfer)
    ensures
        transfer == deposit_transfer(*ctx, amount),
{
    Transfer {
        from: ctx.depositor_token_account.key,
        to: ctx.vault_account.key,
        authority: ctx.depositor,
        amount,
    }
}

/// Decides a claim, given `authority`: the address that the vault's seeds
/// reconstruct with the nonce that the claim supplies, or `None` if they
/// reconstruct none.
///
/// The checks are made in the order of `claim_rejection`, and all of them
/// before anything is changed. A claim that passes returns the transfer of
/// the reward and sets the record's last claim time to `now`, adds the reward
/// to its claimed total, and records the presented weight.
pub fn claim_with_authority(
    ctx: &mut Claim,
    authority: Option<Address>,
    presented_weight: u64,
    now: u64,
) -> (outcome: Result<Transfer, CustomError>)
    ensures
        outcome == claim_outcome(*old(ctx), address_bytes(authority), presented_weight, now).0,
        *final(ctx) == claim_outcome(*old(ctx), address_bytes(authority), presented_weight, now).1,
{
    let reward: u64 = match compute_reward(presented_weight, ctx.user_account.last_claim_time, now) {
        Ok(reward) => reward,
        Err(reason) => {
            return Err(reason);
        },
    };
    if reward > ctx.vault_account.amount {
        return Err(CustomError::InsufficientVaultFunds);
    }
    proof {
        ctx.to.owner.lemma_same_bytes(ctx.user);
    }
    if ctx.to.owner != ctx.user {
        return Err(CustomError::UnauthorizedRecipient);
    }
    let authorized = match authority {
        Some(found) => found == ctx.vault_account.key,
        None => false,
    };
    if !authorized {
        return Err(CustomError::InvalidNonce);
    }
    let total: u64 = match ctx.user_account.total_claimed.checked_add(reward) {
        Some(total) => total,
        None => {
            return Err(CustomError::ArithmeticOverflow);
        },
    };
    let transfer = Transfer {
        from: ctx.vault_account.key,
        to: ctx.to.key,
        authority: ctx.vault_account.key,
        amount: reward,
    };
    ctx.user_account.last_claim_time = now;
    ctx.user_account.total_claimed = total;
    ctx.user_account.stake_weight = presented_weight;
    Ok(transfer)
}

/// Claims the reward that has accrued to the participant `ctx.user` at `now`,
/// presenting `presented_weight` stake units and the nonce of the vault's
/// derivation.
///
/// The vault's address is reconstructed from the tag `vault`, the token type
/// of the receiving account and `authority_nonce`; the claim is rejected with
/// `InvalidNonce` unless that is the address of `ctx.vault_account`. The rest
/// is `claim_with_authority`.
///
/// The presented weight is taken on the participant's word. It is held
/// against the ceiling and against nothing else: not against what the
/// participant deposited, nor against any proof of holdings. Whether it
/// should be is an open question of the design, and nothing is added here to
/// settle it.
pub fn claim(ctx: &mut Claim, authority_nonce: u8, presented_weight: u64, now: u64) -> (outcome:
    Result<Transfer, CustomError>)
    ensures
        outcome == claim_outcome(
            *old(ctx),
            vault_authority_of(old(ctx).to.mint@, authority_nonce),
            presented_weight,
            now,
        ).0,
        *final(ctx) == claim_outcome(
            *old(ctx),
            vault_authority_of(old(ctx).to.mint@, authority_nonce),
            presented_weight,
            now,
        ).1,
{
    let authority = vault_authority(&ctx.to.mint, authority_nonce);
    claim_with_authority(ctx, authority, presented_weight, now)
}

} // verus!
