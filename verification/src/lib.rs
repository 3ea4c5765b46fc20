//! A staking-reward accounting engine: participants deposit a fungible token
//! into a vault whose spending authority is a derived address, and claim
//! rewards that accrue per whole elapsed period and per declared stake unit.
//!
//! The operations are in [`wolf_staking`]. They decide and account; they do
//! not move tokens, read a clock or allocate accounts. A caller hands them
//! the accounts as plain values and the time, and carries out the transfer
//! that they return.

pub mod address;
pub mod authority;
pub mod error;
pub mod laws;
pub mod reward;
pub mod state;
pub mod wolf_staking;

pub use crate::address::Address;
pub use crate::authority::id;
pub use crate::error::CustomError;
pub use crate::state::{
    Claim, Deposit, InitializeUser, InitializeVault, TokenAccount, Transfer, User,
};
