use vstd::prelude::*;

verus! {

/// The part `numerator / denominator` of a budget, rounded down.
pub open spec fn spec_share(budget: u64, numerator: int, denominator: int) -> int {
    budget * numerator / denominator
}

/// The budget that a proxy hands to the call it forwards: nine tenths of what
/// is left of the budget of its own invocation. The last tenth stays with the
/// proxy.
pub open spec fn spec_forward_share(remaining: u64) -> int {
    spec_share(remaining, 9, 10)
}

/// The budget that a rate cache hands to each of the two legs of a request,
/// the call through the proxy and its own continuation: two fifths of what is
/// left. The last fifth stays unallocated.
pub open spec fn spec_request_share(remaining: u64) -> int {
    spec_share(remaining, 2, 5)
}

/// Nine tenths of `remaining`, rounded down.
pub fn forward_share(remaining: u64) -> (gas: u64)
    ensures
        gas == spec_forward_share(remaining),
{
    let wide: u128 = remaining as u128;
    (wide * 9 / 10) as u64
}

/// Two fifths of `remaining`, rounded down.
pub fn request_share(remaining: u64) -> (gas: u64)
    ensures
        gas == spec_request_share(remaining),
{
    let wide: u128 = remaining as u128;
    (wide * 2 / 5) as u64
}

/// Both legs of a request together never take more than what is left.
pub proof fn lemma_request_shares_fit(remaining: u64)
    ensures
        0 <= spec_request_share(remaining),
        2 * spec_request_share(remaining) <= remaining,
{
}

/// A forwarded call never gets more than what is left.
pub proof fn lemma_forward_share_fits(remaining: u64)
    ensures
        0 <= spec_forward_share(remaining) <= remaining,
{
}

} // verus!
