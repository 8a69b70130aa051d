use crate::context::{AccountId, CallContext, RateRecord};
use crate::error::OracleError;
use crate::gas::{forward_share, spec_forward_share};
use crate::ownership::{authorized, is_owner, spec_transfer};
use crate::request::{ForwardedCall, Query};
use vstd::prelude::*;

verus! {

/// What a proxy forwards to: a service that answers questions about
/// reference rates at the time of the call.
pub trait StdRef {
    /// The answer that the service owes for one pair at time `now`.
    spec fn reference_data(&self, base: Seq<char>, quote: Seq<char>, now: u64) -> Option<
        RateRecord,
    >;

    /// Whether the service can work out its answer for one pair.
    spec fn answers(&self, base: Seq<char>, quote: Seq<char>, now: u64) -> bool;

    /// The answer that the service owes for a batch at time `now`.
    spec fn reference_data_bulk(
        &self,
        bases: Seq<Seq<char>>,
        quotes: Seq<Seq<char>>,
        now: u64,
    ) -> Option<Seq<RateRecord>>;

    /// Whether the service can work out its answer for a batch.
    spec fn answers_bulk(&self, bases: Seq<Seq<char>>, quotes: Seq<Seq<char>>, now: u64) -> bool;

    /// The rate of `base` in terms of `quote`, or nothing.
    fn get_reference_data(&self, ctx: &CallContext, base: String, quote: String) -> (data: Option<
        RateRecord,
    >)
        requires
            self.answers(base@, quote@, ctx.block_timestamp),
        ensures
            data == self.reference_data(base@, quote@, ctx.block_timestamp),
    ;

    /// The rates of a batch of pairs, all or nothing. Refused when the batch
    /// has different numbers of bases and quotes.
    fn get_reference_data_bulk(&self, ctx: &CallContext, bases: Vec<String>, quotes: Vec<String>) -> (answer:
        Result<Option<Vec<RateRecord>>, OracleError>)
        requires
            bases.len() == quotes.len() ==> self.answers_bulk(
                bases.deep_view(),
                quotes.deep_view(),
                ctx.block_timestamp,
            ),
        ensures
            bases.len() != quotes.len() ==> answer == Err::<Option<Vec<RateRecord>>, OracleError>(
                OracleError::BadInputLength,
            ),
            bases.len() == quotes.len() ==> answer is Ok && (match answer.unwrap() {
                Some(data) => Some(data@),
                None => None,
            }) == self.reference_data_bulk(
                bases.deep_view(),
                quotes.deep_view(),
                ctx.block_timestamp,
            ),
    ;
}

/// The proxy: the account of the reference service that it forwards to, and
/// the account that may change it.
pub struct StdProxy {
    /// The account of the reference service.
    pub ref_: AccountId,
    /// The account that may point the proxy elsewhere and hand it on.
    pub owner: AccountId,
}

impl StdProxy {
    /// A proxy to `ref_` that the signer of the transaction owns. Refused when
    /// the contract already has a stored state.
    pub fn new(ctx: &CallContext, ref_: AccountId) -> (created: Result<Self, OracleError>)
        ensures
            ctx.state_exists ==> created == Err::<Self, OracleError>(
                OracleError::AlreadyInitialized,
            ),
            !ctx.state_exists ==> created is Ok && created.unwrap().ref_ == ref_
                && created.unwrap().owner@ == ctx.signer_account_id@,
    {
        if ctx.state_exists {
            return Err(OracleError::AlreadyInitialized);
        }
        Ok(StdProxy { ref_, owner: ctx.signer_account_id.clone() })
    }

    /// The account that owns the proxy.
    pub fn get_owner(&self) -> (owner: AccountId)
        ensures
            owner@ == self.owner@,
    {
        self.owner.clone()
    }

    /// Hands the proxy to `new_owner`. Only the owner may.
    pub fn transfer_ownership(&mut self, ctx: &CallContext, new_owner: AccountId) -> (done: Result<
        (),
        OracleError,
    >)
        ensures
            final(self).ref_ == old(self).ref_,
            match spec_transfer(old(self).owner@, ctx.predecessor_account_id@, new_owner@) {
                Ok(owner) => done == Ok::<(), OracleError>(()) && final(self).owner@ == owner,
                Err(e) => done == Err::<(), OracleError>(e) && final(self).owner == old(
                    self,
                ).owner,
            },
    {
        if !is_owner(ctx, &self.owner) {
            return Err(OracleError::NotAnOwner);
        }
        self.owner = new_owner;
        Ok(())
    }

    /// The account of the reference service.
    pub fn get_ref(&self) -> (target: AccountId)
        ensures
            target@ == self.ref_@,
    {
        self.ref_.clone()
    }

    /// Points the proxy to the reference service at `new_ref`. Only the owner
    /// may.
    pub fn set_ref(&mut self, ctx: &CallContext, new_ref: AccountId) -> (done: Result<
        (),
        OracleError,
    >)
        ensures
            final(self).owner == old(self).owner,
            authorized(old(self).owner@, ctx.predecessor_account_id@) ==> done == Ok::<
                (),
                OracleError,
            >(()) && final(self).ref_ == new_ref,
            !authorized(old(self).owner@, ctx.predecessor_account_id@) ==> done == Err::<
                (),
                OracleError,
            >(OracleError::NotAnOwner) && final(self).ref_ == old(self).ref_,
    {
        if !is_owner(ctx, &self.owner) {
            return Err(OracleError::NotAnOwner);
        }
        self.ref_ = new_ref;
        Ok(())
    }

    /// Forwards the question for one pair to the reference service, with nine
    /// tenths of what is left of the budget of this invocation, attached less
    /// spent, and no deposit.
    pub fn get_reference_data(&mut self, ctx: &CallContext, base: String, quote: String) -> (call:
        ForwardedCall)
        requires
            ctx.budget_sound(),
        ensures
            *final(self) == *old(self),
            call.target == old(self).ref_,
            call.query == (Query::ReferenceData { base, quote }),
            call.deposit == 0,
            call.gas == spec_forward_share(ctx.spec_remaining_gas() as u64),
    {
        ForwardedCall {
            target: self.ref_.clone(),
            query: Query::ReferenceData { base, quote },
            deposit: 0,
            gas: forward_share(ctx.remaining_gas()),
        }
    }

    /// Forwards the question for a batch to the reference service, with nine
    /// tenths of what is left of the budget of this invocation, attached less
    /// spent, and no deposit. Whether the batch has as many bases as quotes
    /// is for the service to judge.
    pub fn get_reference_data_bulk(
        &mut self,
        ctx: &CallContext,
        bases: Vec<String>,
        quotes: Vec<String>,
    ) -> (call: ForwardedCall)
        requires
            ctx.budget_sound(),
        ensures
            *final(self) == *old(self),
            call.target == old(self).ref_,
            call.query == (Query::ReferenceDataBulk { bases, quotes }),
            call.deposit == 0,
            call.gas == spec_forward_share(ctx.spec_remaining_gas() as u64),
    {
        ForwardedCall {
            target: self.ref_.clone(),
            query: Query::ReferenceDataBulk { bases, quotes },
            deposit: 0,
            gas: forward_share(ctx.remaining_gas()),
        }
    }
}

} // verus!
