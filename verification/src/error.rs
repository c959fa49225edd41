//! The ways in which a call on the staking service can fail.

use vstd::prelude::*;

verus! {

/// Why a call was turned down. Every failure leaves the ledger as it was.
#[derive(Clone, Copy, Debug, PartialEq, Eq, Structural)]
pub enum ContractError {
    /// A stake came without any payment entry.
    NoFunds,
    /// A stake came with more than one payment entry.
    MultipleDenoms,
    /// The single payment entry is not in the staking denomination.
    MissingDenom,
    /// The new balance would not fit the amount type.
    Overflow,
    /// The caller of an unstake has no record.
    UserNotFound,
    /// The caller of an unstake asked for more than the record holds.
    NotEnoughTokens,
    /// No validator has been set yet.
    ValidatorUnset,
}

} // verus!
