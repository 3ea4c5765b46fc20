//! Why an operation was rejected.

use vstd::prelude::*;

verus! {

/// The reasons for which an operation aborts. Every failure is terminal for
/// the operation: nothing that the operation would have changed is changed.
#[derive(Clone, Copy, Debug, PartialEq, Eq, Structural)]
pub enum CustomError {
    /// The presented stake weight exceeds the ceiling of the system.
    InvalidWeight,
    /// The cooldown period has not strictly elapsed since the last claim.
    TooSoon,
    /// The reward, or the accumulated total, does not fit in 64 bits.
    ArithmeticOverflow,
    /// The reward exceeds what the vault holds.
    InsufficientVaultFunds,
    /// The receiving account is not owned by the claiming participant.
    UnauthorizedRecipient,
    /// The supplied nonce does not reconstruct the vault's derived address;
    /// or, when a vault is created, no nonce derives an address for it.
    InvalidNonce,
    /// The vault or the stake record has been initialized before.
    AlreadyExists,
}

} // verus!
