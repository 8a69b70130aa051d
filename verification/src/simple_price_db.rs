use crate::batch::{last_of, lemma_last_write_wins, spec_write_first};
use crate::context::{AccountId, CallContext, RateRecord};
use crate::error::OracleError;
use crate::gas::{request_share, spec_request_share};
use crate::ownership::{authorized, is_owner};
use crate::request::{Continuation, ForwardedCall, PendingRequest, Query};
use crate::symbol_map::SymbolMap;
use vstd::prelude::*;
use vstd::string::*;

verus! {

/// The composite symbol of a pair: base, a slash, quote.
pub open spec fn spec_composite(base: Seq<char>, quote: Seq<char>) -> Seq<char> {
    base + seq!['/'] + quote
}

/// The composite symbols of a batch of pairs, in the order of the batch.
pub open spec fn spec_composites(bases: Seq<Seq<char>>, quotes: Seq<Seq<char>>) -> Seq<Seq<char>> {
    Seq::new(bases.len(), |i: int| spec_composite(bases[i], quotes[i]))
}

/// The price that a cache holds under a symbol.
pub open spec fn spec_get_price(prices: Map<Seq<char>, u128>, symbol: Seq<char>) -> Option<u128> {
    if prices.contains_key(symbol) {
        Some(prices[symbol])
    } else {
        None
    }
}

/// The rates of a sequence of answers, without their times.
pub open spec fn spec_rates(values: Seq<RateRecord>) -> Seq<u128> {
    Seq::new(values.len(), |i: int| values[i].0)
}

/// The prices after the continuation of a single request has run on
/// `value`: the rate of a present value is kept under `symbol`, its times are
/// dropped; an absent value changes nothing.
pub open spec fn spec_callback_set_single(
    prices: Map<Seq<char>, u128>,
    symbol: Seq<char>,
    value: Option<RateRecord>,
) -> Map<Seq<char>, u128> {
    match value {
        Some(data) => prices.insert(symbol, data.0),
        None => prices,
    }
}

/// The prices after the continuation of a bulk request has run on
/// `values`: the rates of a present batch are kept pairwise under the
/// symbols, in order, as far as both go; an absent batch changes nothing.
pub open spec fn spec_callback_set_multiple(
    prices: Map<Seq<char>, u128>,
    symbols: Seq<Seq<char>>,
    values: Option<Seq<RateRecord>>,
) -> Map<Seq<char>, u128> {
    match values {
        Some(data) => spec_write_first(
            prices,
            symbols,
            spec_rates(data),
            if symbols.len() <= data.len() {
                symbols.len()
            } else {
                data.len()
            },
        ),
        None => prices,
    }
}

/// Whether `request` is what a cache at `receiver` issues to the proxy at
/// `oracle` with `remaining` budget left: `query` goes out and
/// `continuation` runs on the answer, each with two fifths of that budget
/// and no deposit.
pub open spec fn issued(
    request: PendingRequest,
    oracle: AccountId,
    receiver: AccountId,
    remaining: u64,
    query: Query,
) -> bool {
    &&& request.call.target == oracle
    &&& request.call.query == query
    &&& request.call.deposit == 0
    &&& request.call.gas == spec_request_share(remaining)
    &&& request.receiver == receiver
    &&& request.continuation_deposit == 0
    &&& request.continuation_gas == spec_request_share(remaining)
}

/// The composite symbol under which a cache keeps the rate of a pair.
pub fn composite_symbol(base: &String, quote: &String) -> (symbol: String)
    ensures
        symbol@ == spec_composite(base@, quote@),
{
    proof {
        reveal_strlit("/");
    }
    let symbol = base.clone().concat("/").concat(quote.as_str());
    assert("/"@ =~= seq!['/']);
    symbol
}

/// The continuations of a rate cache: what runs on the answer to a request.
pub trait SelfCallback: Sized {
    /// The prices that the cache holds.
    spec fn cached(&self) -> Map<Seq<char>, u128>;

    /// Runs on the answer to a single request: keeps the rate of a present
    /// answer; on an absent answer it changes nothing of the cache at all.
    fn callback_set_single(&mut self, symbol: String, value_opt: Option<RateRecord>)
        ensures
            final(self).cached() == spec_callback_set_single(
                old(self).cached(),
                symbol@,
                value_opt,
            ),
            value_opt is None ==> *final(self) == *old(self),
    ;

    /// Runs on the answer to a bulk request: keeps the rates of a present
    /// batch; on an absent batch it changes nothing of the cache at all.
    fn callback_set_multiple(&mut self, symbols: Vec<String>, values_opt: Option<Vec<RateRecord>>)
        ensures
            final(self).cached() == spec_callback_set_multiple(
                old(self).cached(),
                symbols.deep_view(),
                match values_opt {
                    Some(values) => Some(values@),
                    None => None,
                },
            ),
            values_opt is None ==> *final(self) == *old(self),
    ;
}

/// The rate cache: the prices that came back, by composite symbol, the proxy
/// that it asks, and the account that may change the proxy.
pub struct SimplePriceDB {
    /// The account that may point the cache to another proxy.
    pub owner: AccountId,
    /// The account of the proxy.
    pub oracle: AccountId,
    /// The rate that came back last for each composite symbol.
    pub prices: SymbolMap<u128>,
}

impl SimplePriceDB {
    /// Whether the cache is well formed: no symbol has two entries. `new`
    /// gives such a cache and every operation keeps it so.
    pub open spec fn wf(&self) -> bool {
        self.prices.wf()
    }

    /// An empty cache that asks `oracle` and that `owner` owns. Refused when
    /// the contract already has a stored state.
    pub fn new(ctx: &CallContext, oracle: AccountId, owner: AccountId) -> (created: Result<
        Self,
        OracleError,
    >)
        ensures
            ctx.state_exists ==> created == Err::<Self, OracleError>(
                OracleError::AlreadyInitialized,
            ),
            !ctx.state_exists ==> created is Ok && created.unwrap().wf()
                && created.unwrap().owner == owner && created.unwrap().oracle == oracle
                && created.unwrap().prices@ == Map::<
                Seq<char>,
                u128,
            >::empty(),
    {
        if ctx.state_exists {
            return Err(OracleError::AlreadyInitialized);
        }
        Ok(SimplePriceDB { owner, oracle, prices: SymbolMap::new() })
    }

    /// The account that owns the cache.
    pub fn get_owner(&self) -> (owner: AccountId)
        ensures
            owner@ == self.owner@,
    {
        self.owner.clone()
    }

    /// The account of the proxy.
    pub fn get_oracle(&self) -> (oracle: AccountId)
        ensures
            oracle@ == self.oracle@,
    {
        self.oracle.clone()
    }

    /// Points the cache to the proxy at `new_oracle`. Only the owner may.
    pub fn set_oracle(&mut self, ctx: &CallContext, new_oracle: AccountId) -> (done: Result<
        (),
        OracleError,
    >)
        ensures
            final(self).owner == old(self).owner,
            final(self).prices == old(self).prices,
            authorized(old(self).owner@, ctx.predecessor_account_id@) ==> done == Ok::<
                (),
                OracleError,
            >(()) && final(self).oracle == new_oracle,
            !authorized(old(self).owner@, ctx.predecessor_account_id@) ==> done == Err::<
                (),
                OracleError,
            >(OracleError::NotAnOwner) && final(self).oracle == old(self).oracle,
    {
        if !is_owner(ctx, &self.owner) {
            return Err(OracleError::NotAnOwner);
        }
        self.oracle = new_oracle;
        Ok(())
    }

    /// The price that the cache holds under `symbol`.
    pub fn get_price(&self, symbol: String) -> (price: Option<u128>)
        ensures
            price == spec_get_price(self.prices@, symbol@),
    {
        self.prices.get(&symbol)
    }

    /// Issues the request for the rate of one pair: the question goes to the
    /// proxy, and the continuation will keep the answer under the composite
    /// symbol of the pair. Nothing is returned of the rate itself, and the
    /// cache is unchanged until the continuation runs.
    pub fn set_single(&self, ctx: &CallContext, base: String, quote: String) -> (request:
        PendingRequest)
        requires
            ctx.budget_sound(),
        ensures
            issued(
                request,
                self.oracle,
                ctx.current_account_id,
                ctx.spec_remaining_gas() as u64,
                Query::ReferenceData { base, quote },
            ),
            request.continuation matches Continuation::SetSingle { symbol } && symbol@
                == spec_composite(base@, quote@),
    {
        let symbol = composite_symbol(&base, &quote);
        let share: u64 = request_share(ctx.remaining_gas());
        PendingRequest {
            call: ForwardedCall {
                target: self.oracle.clone(),
                query: Query::ReferenceData { base, quote },
                deposit: 0,
                gas: share,
            },
            receiver: ctx.current_account_id.clone(),
            continuation: Continuation::SetSingle { symbol },
            continuation_deposit: 0,
            continuation_gas: share,
        }
    }

    /// Issues the request for the rates of a batch of pairs: the question
    /// goes to the proxy, and the continuation will keep the answers under
    /// the composite symbols of the pairs, in the order of the batch. Refused
    /// when the batch has different numbers of bases and quotes, before the
    /// budget is looked at. The cache is unchanged either way.
    pub fn set_multiple(&mut self, ctx: &CallContext, bases: Vec<String>, quotes: Vec<String>) -> (issue:
        Result<PendingRequest, OracleError>)
        requires
            bases.len() == quotes.len() ==> ctx.budget_sound(),
        ensures
            *final(self) == *old(self),
            bases.len() != quotes.len() ==> issue == Err::<PendingRequest, OracleError>(
                OracleError::BasesQuotesSizeIsNotEqual {
                    bases: bases.len(),
                    quotes: quotes.len(),
                },
            ),
            bases.len() == quotes.len() ==> issue is Ok && issued(
                issue.unwrap(),
                old(self).oracle,
                ctx.current_account_id,
                ctx.spec_remaining_gas() as u64,
                Query::ReferenceDataBulk { bases, quotes },
            ) && (issue.unwrap().continuation matches Continuation::SetMultiple { symbols }
                && symbols.deep_view() == spec_composites(bases.deep_view(), quotes.deep_view())),
    {
        if bases.len() != quotes.len() {
            return Err(
                OracleError::BasesQuotesSizeIsNotEqual {
                    bases: bases.len(),
                    quotes: quotes.len(),
                },
            );
        }
        let n: usize = bases.len();
        let mut symbols: Vec<String> = Vec::new();
        let mut i: usize = 0;
        while i < n
            invariant
                n == bases.len(),
                n == quotes.len(),
                i <= n,
                symbols.len() == i,
                forall|j: int|
                    0 <= j < i ==> (#[trigger] symbols[j])@ == spec_composite(
                        bases[j]@,
                        quotes[j]@,
                    ),
            decreases n - i,
        {
            symbols.push(composite_symbol(&bases[i], &quotes[i]));
            i = i + 1;
        }
        assert(symbols.deep_view() =~= spec_composites(bases.deep_view(), quotes.deep_view()));
        let share: u64 = request_share(ctx.remaining_gas());
        Ok(
            PendingRequest {
                call: ForwardedCall {
                    target: self.oracle.clone(),
                    query: Query::ReferenceDataBulk { bases, quotes },
                    deposit: 0,
                    gas: share,
                },
                receiver: ctx.current_account_id.clone(),
                continuation: Continuation::SetMultiple { symbols },
                continuation_deposit: 0,
                continuation_gas: share,
            },
        )
    }

    /// The continuation of a single request: keeps the rate of a present
    /// answer under `symbol` and drops its times; on an absent answer it
    /// changes nothing.
    pub fn callback_set_single(&mut self, symbol: String, value_opt: Option<RateRecord>)
        ensures
            final(self).owner == old(self).owner,
            final(self).oracle == old(self).oracle,
            final(self).prices@ == spec_callback_set_single(old(self).prices@, symbol@, value_opt),
            value_opt is None ==> *final(self) == *old(self),
            old(self).wf() ==> final(self).wf(),
    {
        match value_opt {
            Some(data) => {
                self.prices.insert(symbol, data.0);
            },
            None => {},
        }
    }

    /// The continuation of a bulk request: keeps the rates of a present
    /// batch pairwise under `symbols`, in order, as far as both go; on an
    /// absent batch it changes nothing, whatever single pairs would have
    /// given.
    pub fn callback_set_multiple(&mut self, symbols: Vec<String>, values_opt: Option<Vec<RateRecord>>)
        ensures
            final(self).owner == old(self).owner,
            final(self).oracle == old(self).oracle,
            final(self).prices@ == spec_callback_set_multiple(
                old(self).prices@,
                symbols.deep_view(),
                match values_opt {
                    Some(values) => Some(values@),
                    None => None,
                },
            ),
            values_opt is None ==> *final(self) == *old(self),
            old(self).wf() ==> final(self).wf(),
    {
        match values_opt {
            Some(values) => {
                let n: usize = if symbols.len() <= values.len() {
                    symbols.len()
                } else {
                    values.len()
                };
                let ghost before = self.prices@;
                let ghost names = symbols.deep_view();
                let ghost rates = spec_rates(values@);
                let mut i: usize = 0;
                while i < n
                    invariant
                        n <= symbols.len(),
                        n <= values.len(),
                        i <= n,
                        names == symbols.deep_view(),
                        rates == spec_rates(values@),
                        self.owner == old(self).owner,
                        self.oracle == old(self).oracle,
                        old(self).prices.wf() ==> self.prices.wf(),
                        self.prices@ == spec_write_first(before, names, rates, i as nat),
                    decreases n - i,
                {
                    self.prices.insert(symbols[i].clone(), values[i].0);
                    i = i + 1;
                }
            },
            None => {},
        }
    }
}

impl SelfCallback for SimplePriceDB {
    open spec fn cached(&self) -> Map<Seq<char>, u128> {
        self.prices@
    }

    fn callback_set_single(&mut self, symbol: String, value_opt: Option<RateRecord>) {
        SimplePriceDB::callback_set_single(self, symbol, value_opt)
    }

    fn callback_set_multiple(&mut self, symbols: Vec<String>, values_opt: Option<Vec<RateRecord>>) {
        SimplePriceDB::callback_set_multiple(self, symbols, values_opt)
    }
}

/// Only the rate is kept: answers with one rate and different times leave
/// the same prices, and the rate is what the cache then holds under the
/// symbol.
pub proof fn lemma_callback_keeps_rate_only(
    prices: Map<Seq<char>, u128>,
    symbol: Seq<char>,
    rate: u128,
    times: (u64, u64),
    other_times: (u64, u64),
)
    ensures
        spec_callback_set_single(prices, symbol, Some((rate, times.0, times.1)))
            == spec_callback_set_single(prices, symbol, Some((rate, other_times.0, other_times.1))),
        spec_get_price(
            spec_callback_set_single(prices, symbol, Some((rate, times.0, times.1))),
            symbol,
        ) == Some(rate),
{
}

/// An absent answer changes nothing: after a continuation has run on it,
/// every symbol has the price that it had before.
pub proof fn lemma_absent_answer_changes_nothing(
    prices: Map<Seq<char>, u128>,
    symbol: Seq<char>,
    symbols: Seq<Seq<char>>,
    other: Seq<char>,
)
    ensures
        spec_callback_set_single(prices, symbol, None) == prices,
        spec_callback_set_multiple(prices, symbols, None) == prices,
        spec_get_price(spec_callback_set_single(prices, symbol, None), other) == spec_get_price(
            prices,
            other,
        ),
        spec_get_price(spec_callback_set_multiple(prices, symbols, None), other) == spec_get_price(
            prices,
            other,
        ),
{
}

/// The answers of a batch go to the symbols of the batch place by place:
/// where a batch of distinct symbols comes with one answer for each, every
/// symbol then has the rate of the answer at its own place.
pub proof fn lemma_batch_is_kept_in_order(
    prices: Map<Seq<char>, u128>,
    symbols: Seq<Seq<char>>,
    values: Seq<RateRecord>,
    i: int,
)
    requires
        symbols.len() == values.len(),
        0 <= i < symbols.len(),
        forall|j: int, k: int| 0 <= j < k < symbols.len() ==> symbols[j] != symbols[k],
    ensures
        spec_get_price(spec_callback_set_multiple(prices, symbols, Some(values)), symbols[i])
            == Some(values[i].0),
{
    assert(last_of(symbols, symbols[i], symbols.len(), i));
    lemma_last_write_wins(prices, symbols, spec_rates(values), symbols.len(), symbols[i]);
}

} // verus!
