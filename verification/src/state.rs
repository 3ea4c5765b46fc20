//! The records that the operations read and change, and the accounts that
//! each operation is given.

use vstd::prelude::*;
use crate::address::Address;

verus! {

/// The stake record of one participant.
///
/// `stake_weight` is whatever the participant presented at the last successful
/// claim. It is not checked against any holdings: a participant may present
/// any weight up to the ceiling.
#[derive(Clone, Copy, Debug, PartialEq, Eq)]
pub struct User {
    /// The participant who controls the record. Never changes.
    pub owner: Address,
    /// The sum of all rewards claimed so far.
    pub total_claimed: u64,
    /// The stake weight presented at the last successful claim; 0 before the
    /// first.
    pub stake_weight: u64,
    /// When the last successful claim was made, or when the record was
    /// created if there has been none. Seconds since the epoch.
    pub last_claim_time: u64,
}

/// What the operations read of an account that holds tokens. The balance is
/// kept by the token ledger; the value here is the balance as it stood when
/// the operation began.
#[derive(Clone, Copy, Debug, PartialEq, Eq)]
pub struct TokenAccount {
    /// The address of the account itself.
    pub key: Address,
    /// The token type that the account holds.
    pub mint: Address,
    /// Who may move tokens out of the account.
    pub owner: Address,
    /// The balance.
    pub amount: u64,
}

/// An instruction to the token ledger: move `amount` tokens from one account
/// to another, on the authority of `authority`.
#[derive(Clone, Copy, Debug, PartialEq, Eq)]
pub struct Transfer {
    /// The account that the tokens are taken from.
    pub from: Address,
    /// The account that receives them.
    pub to: Address,
    /// On whose authority they move: the signer of a deposit, the vault
    /// itself for a claim.
    pub authority: Address,
    /// How many tokens move.
    pub amount: u64,
}

/// The accounts for creating the vault of one token type.
#[derive(Clone, Copy, Debug, PartialEq, Eq)]
pub struct InitializeVault {
    /// What stands at the vault's derived address: `None` until a vault has
    /// been created there.
    pub vault_account: Option<TokenAccount>,
    /// Who pays for the allocation. The accounting rules do not read it.
    pub payer: Address,
    /// The token type of the vault.
    pub mint: Address,
}

/// The accounts for creating the stake record of one participant.
#[derive(Clone, Copy, Debug, PartialEq, Eq)]
pub struct InitializeUser {
    /// What stands at the participant's derived record address: `None` until
    /// a record has been created there.
    pub user_account: Option<User>,
    /// The participant.
    pub user: Address,
}

/// The accounts for a deposit.
#[derive(Clone, Copy, Debug, PartialEq, Eq)]
pub struct Deposit {
    /// The vault that receives the tokens.
    pub vault_account: TokenAccount,
    /// The participant, who signs for the transfer.
    pub depositor: Address,
    /// The account that the tokens are taken from.
    pub depositor_token_account: TokenAccount,
}

/// The accounts for a claim.
#[derive(Clone, Copy, Debug, PartialEq, Eq)]
pub struct Claim {
    /// The vault that pays the reward.
    pub vault_account: TokenAccount,
    /// The stake record of the claiming participant.
    pub user_account: User,
    /// The account that receives the reward.
    pub to: TokenAccount,
    /// The claiming participant, who signs.
    pub user: Address,
}

} // verus!
