use crate::context::AccountId;
use vstd::prelude::*;

verus! {

/// A question to a reference service.
#[derive(Debug, PartialEq, Eq)]
pub enum Query {
    /// The rate of one base in terms of one quote.
    ReferenceData { base: String, quote: String },
    /// The rates of a batch of pairs, all or nothing.
    ReferenceDataBulk { bases: Vec<String>, quotes: Vec<String> },
}

/// A question on its way to the account that answers it, with what the call
/// may spend. The host dispatches it; its answer comes back later.
#[derive(Debug, PartialEq, Eq)]
pub struct ForwardedCall {
    /// The account that is asked.
    pub target: AccountId,
    /// What it is asked.
    pub query: Query,
    /// The deposit that goes with the call.
    pub deposit: u128,
    /// The execution budget of the call.
    pub gas: u64,
}

/// What a rate cache does with the answer to a request.
#[derive(Debug, PartialEq, Eq)]
pub enum Continuation {
    /// Keep the rate under one composite symbol.
    SetSingle { symbol: String },
    /// Keep the rates of a batch under its composite symbols, in order.
    SetMultiple { symbols: Vec<String> },
}

/// A request that a rate cache has issued and not yet heard of: the call that
/// goes out, and the continuation that runs on the answer.
#[derive(Debug, PartialEq, Eq)]
pub struct PendingRequest {
    /// The call that goes out.
    pub call: ForwardedCall,
    /// The account on which the continuation runs: the cache itself.
    pub receiver: AccountId,
    /// What runs on the answer.
    pub continuation: Continuation,
    /// The deposit that goes with the continuation.
    pub continuation_deposit: u128,
    /// The execution budget of the continuation.
    pub continuation_gas: u64,
}

} // verus!
