//! The messages that the staking service accepts and the answers it gives.

use vstd::prelude::*;

verus! {

/// Configuration handed over once, when the service is set up.
#[derive(Clone, Debug, PartialEq, Eq)]
pub struct InstantiateMsg {
    /// The validator that every stake is delegated to.
    pub validator: String,
    /// The address of the kernel that the host platform routes through.
    pub kernel_address: String,
    /// The owner, where it is not the account that sets the service up.
    pub owner: Option<String>,
}

/// A request that changes the ledger.
#[derive(Clone, Debug, PartialEq, Eq)]
pub enum ExecuteMsg {
    /// Stake the funds that came with the call.
    STAKE {  },
    /// Withdraw `amount` of the caller's staked principal.
    UNSTAKE { amount: u128 },
}

/// A request that only reads the ledger.
#[derive(Clone, Debug, PartialEq, Eq)]
pub enum QueryMsg {
    /// Ask for the principal that `staker` has staked.
    GetStakedAmount { staker: String },
}

/// The answer to [`QueryMsg::GetStakedAmount`].
#[derive(Clone, Copy, Debug, PartialEq, Eq, Structural)]
pub struct GetStakedAmount {
    pub amount: u128,
}

} // verus!
