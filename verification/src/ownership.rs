use crate::context::{AccountId, CallContext};
use crate::error::OracleError;
use vstd::prelude::*;

verus! {

/// Whether `caller` may use the privileged operations of a contract that
/// `owner` owns: only the owner may.
pub open spec fn authorized(owner: Seq<char>, caller: Seq<char>) -> bool {
    caller == owner
}

/// What a transfer of ownership to `new_owner` gives when `caller` asks for
/// it: the new owner, or a refusal that leaves the owner as it was.
pub open spec fn spec_transfer(owner: Seq<char>, caller: Seq<char>, new_owner: Seq<char>) -> Result<
    Seq<char>,
    OracleError,
> {
    if authorized(owner, caller) {
        Ok(new_owner)
    } else {
        Err(OracleError::NotAnOwner)
    }
}

/// Decides whether the caller of this invocation is `owner`.
pub fn is_owner(ctx: &CallContext, owner: &AccountId) -> (allowed: bool)
    ensures
        allowed == authorized(owner@, ctx.predecessor_account_id@),
{
    ctx.predecessor_account_id == *owner
}

/// A transfer takes effect at once and for exactly one principal: when the
/// owner hands a contract to someone else, the former owner is refused from
/// then on and the new owner is accepted.
pub proof fn lemma_transfer_is_one_shot(owner: Seq<char>, new_owner: Seq<char>, next: Seq<char>)
    requires
        new_owner != owner,
    ensures
        spec_transfer(owner, owner, new_owner) == Ok::<Seq<char>, OracleError>(new_owner),
        !authorized(new_owner, owner),
        authorized(new_owner, new_owner),
        spec_transfer(new_owner, owner, next) == Err::<Seq<char>, OracleError>(
            OracleError::NotAnOwner,
        ),
        spec_transfer(new_owner, new_owner, next) == Ok::<Seq<char>, OracleError>(next),
{
}

} // verus!
