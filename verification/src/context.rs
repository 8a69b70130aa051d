use vstd::prelude::*;

verus! {

/// The name of an account: a contract or a calling principal.
pub type AccountId = String;

/// One relayed observation: the rate in fixed point, the time at which it was
/// resolved, and the identifier of the request that produced it.
pub type RateRecord = (u128, u64, u64);

/// What the host knows of the current invocation.
#[derive(Clone, Debug)]
pub struct CallContext {
    /// The account that runs the contract.
    pub current_account_id: AccountId,
    /// The account that signed the transaction at the root of the call chain.
    pub signer_account_id: AccountId,
    /// The account that made this call: the principal of every owner check.
    pub predecessor_account_id: AccountId,
    /// The time of the current block.
    pub block_timestamp: u64,
    /// The execution budget that was attached to this invocation.
    pub prepaid_gas: u64,
    /// The part of that budget that is already spent.
    pub used_gas: u64,
    /// Whether the contract already has a stored state.
    pub state_exists: bool,
}

impl CallContext {
    /// The budget that is left: what was attached less what is spent.
    pub open spec fn spec_remaining_gas(&self) -> int {
        self.prepaid_gas - self.used_gas
    }

    /// A context is sound when no more was spent than was attached.
    pub open spec fn budget_sound(&self) -> bool {
        self.used_gas <= self.prepaid_gas
    }

    /// The execution budget that is left to this invocation.
    pub fn remaining_gas(&self) -> (remaining: u64)
        requires
            self.budget_sound(),
        ensures
            remaining == self.spec_remaining_gas(),
    {
        self.prepaid_gas - self.used_gas
    }
}

} // verus!
