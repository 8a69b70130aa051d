use crate::batch::{
    last_of, lemma_last_write_wins, lemma_write_except, not_among, spec_write_first_except,
};
use crate::context::{AccountId, CallContext, RateRecord};
use crate::decimal::{parse_rate, spec_parse_rate};
use crate::error::OracleError;
use crate::ownership::{authorized, is_owner, spec_transfer};
use crate::std_proxy::StdRef;
use crate::symbol_map::SymbolMap;
use crate::rate::{can_cross_rate, cross_rate, cross_rate_defined, spec_cross_rate, SCALE};
use vstd::prelude::*;
use vstd::string::*;

verus! {

/// The symbol of the unit in which every rate is relayed.
pub open spec fn usd() -> Seq<char> {
    "USD"@
}

/// The record of a symbol at time `now`: for the unit itself always a rate of
/// exactly one, resolved now; for any other symbol what was relayed last.
pub open spec fn spec_get_refs(
    refs: Map<Seq<char>, RateRecord>,
    symbol: Seq<char>,
    now: u64,
) -> Option<RateRecord> {
    if symbol == usd() {
        Some((SCALE, now, 0u64))
    } else if refs.contains_key(symbol) {
        Some(refs[symbol])
    } else {
        None
    }
}

/// The rate of `base` in terms of `quote` with the resolve times of both, or
/// nothing when either of them has no record.
pub open spec fn spec_reference_data(
    refs: Map<Seq<char>, RateRecord>,
    base: Seq<char>,
    quote: Seq<char>,
    now: u64,
) -> Option<RateRecord> {
    match (spec_get_refs(refs, base, now), spec_get_refs(refs, quote, now)) {
        (Some(b), Some(q)) => Some((spec_cross_rate(b.0, q.0) as u128, b.1, q.1)),
        _ => None,
    }
}

/// Whether the pair can be answered: where both sides have a record, their
/// cross rate can be computed.
pub open spec fn quotable(
    refs: Map<Seq<char>, RateRecord>,
    base: Seq<char>,
    quote: Seq<char>,
    now: u64,
) -> bool {
    match (spec_get_refs(refs, base, now), spec_get_refs(refs, quote, now)) {
        (Some(b), Some(q)) => cross_rate_defined(b.0, q.0),
        _ => true,
    }
}

/// The answer to pair `i` of a batch.
pub open spec fn spec_pair_data(
    refs: Map<Seq<char>, RateRecord>,
    bases: Seq<Seq<char>>,
    quotes: Seq<Seq<char>>,
    now: u64,
    i: int,
) -> Option<RateRecord> {
    spec_reference_data(refs, bases[i], quotes[i], now)
}

/// Whether each of the first `n` pairs of a batch has an answer.
pub open spec fn all_present(
    refs: Map<Seq<char>, RateRecord>,
    bases: Seq<Seq<char>>,
    quotes: Seq<Seq<char>>,
    now: u64,
    n: int,
) -> bool {
    forall|i: int| 0 <= i < n ==> (#[trigger] spec_pair_data(refs, bases, quotes, now, i)) is Some
}

/// The answer to a batch: the answers to its pairs in order, or nothing at all
/// when any one pair has no answer.
pub open spec fn spec_reference_data_bulk(
    refs: Map<Seq<char>, RateRecord>,
    bases: Seq<Seq<char>>,
    quotes: Seq<Seq<char>>,
    now: u64,
) -> Option<Seq<RateRecord>> {
    if all_present(refs, bases, quotes, now, bases.len() as int) {
        Some(
            Seq::new(
                bases.len(),
                |i: int| spec_pair_data(refs, bases, quotes, now, i).unwrap(),
            ),
        )
    } else {
        None
    }
}

/// Whether a batch can be answered: every pair that is reached can be
/// answered. A pair is reached when all pairs before it have an answer.
pub open spec fn bulk_quotable(
    refs: Map<Seq<char>, RateRecord>,
    bases: Seq<Seq<char>>,
    quotes: Seq<Seq<char>>,
    now: u64,
) -> bool {
    forall|i: int|
        0 <= i < bases.len() && all_present(refs, bases, quotes, now, i) ==> quotable(
            refs,
            #[trigger] bases[i],
            quotes[i],
            now,
        )
}

/// The view of an answer to a batch.
pub open spec fn bulk_view(answer: Option<Vec<RateRecord>>) -> Option<Seq<RateRecord>> {
    match answer {
        Some(data) => Some(data@),
        None => None,
    }
}

/// Whether each of the first `n` rate texts stands for a rate.
pub open spec fn all_parse(rates: Seq<Seq<char>>, n: int) -> bool {
    forall|i: int| 0 <= i < n ==> spec_parse_rate(#[trigger] rates[i]) is Some
}

/// The records that a relay carries, one for each symbol.
pub open spec fn spec_records(
    rates: Seq<Seq<char>>,
    resolve_times: Seq<u64>,
    request_ids: Seq<u64>,
) -> Seq<RateRecord> {
    Seq::new(
        rates.len(),
        |i: int| (spec_parse_rate(rates[i]).unwrap(), resolve_times[i], request_ids[i]),
    )
}

/// The rates after a relay is written: its records in order, each in the
/// place of whatever its symbol had before. A record under the symbol of the
/// unit is not written: the unit is never stored.
pub open spec fn spec_relay(
    refs: Map<Seq<char>, RateRecord>,
    symbols: Seq<Seq<char>>,
    records: Seq<RateRecord>,
) -> Map<Seq<char>, RateRecord> {
    spec_write_first_except(refs, symbols, records, symbols.len(), usd())
}

/// Whether a relay is accepted: the owner sends it, it has one rate, one
/// resolve time and one request identifier for each symbol, and every rate
/// text stands for a rate.
pub open spec fn relay_accepted(
    owner: Seq<char>,
    caller: Seq<char>,
    symbols: Seq<Seq<char>>,
    rates: Seq<Seq<char>>,
    resolve_times: Seq<u64>,
    request_ids: Seq<u64>,
) -> bool {
    &&& authorized(owner, caller)
    &&& rates.len() == symbols.len()
    &&& resolve_times.len() == symbols.len()
    &&& request_ids.len() == symbols.len()
    &&& all_parse(rates, rates.len() as int)
}

/// Whether `refusal` is the one that a relay meets: the first of the checks
/// that fails, in the order owner, rates, resolve times, request identifiers,
/// rate texts from the first to the last.
pub open spec fn relay_refused(
    refusal: OracleError,
    owner: Seq<char>,
    caller: Seq<char>,
    symbols: Seq<Seq<char>>,
    rates: Seq<Seq<char>>,
    resolve_times: Seq<u64>,
    request_ids: Seq<u64>,
) -> bool {
    match refusal {
        OracleError::NotAnOwner => !authorized(owner, caller),
        OracleError::BadRatesLength => authorized(owner, caller) && rates.len() != symbols.len(),
        OracleError::BadResolveTimesLength => authorized(owner, caller) && rates.len()
            == symbols.len() && resolve_times.len() != symbols.len(),
        OracleError::BadRequestIdsLength => authorized(owner, caller) && rates.len()
            == symbols.len() && resolve_times.len() == symbols.len() && request_ids.len()
            != symbols.len(),
        OracleError::FailToParseRate { rate, symbol } => authorized(owner, caller) && rates.len()
            == symbols.len() && resolve_times.len() == symbols.len() && request_ids.len()
            == symbols.len() && exists|i: int|
            0 <= i < rates.len() && all_parse(rates, i) && spec_parse_rate(#[trigger] rates[i])
                is None && rate@ == rates[i] && symbol@ == symbols[i],
        _ => false,
    }
}

/// The reference store: the rates that were relayed, by symbol, and the
/// account that may relay.
pub struct StdReferenceBasic {
    /// The record that was relayed last for each symbol. The symbol of the
    /// unit has no entry here: its record is made up on every read.
    pub refs: SymbolMap<RateRecord>,
    /// The account that may relay rates and hand the store to a new owner.
    pub owner: AccountId,
}

impl StdReferenceBasic {
    /// Whether the store is well formed: no symbol has two entries, and the
    /// unit has none. `new` gives such a store and every operation keeps it
    /// so.
    pub open spec fn wf(&self) -> bool {
        self.refs.wf() && !self.refs@.contains_key(usd())
    }

    /// An empty store that the signer of the transaction owns. Refused when
    /// the contract already has a stored state.
    pub fn new(ctx: &CallContext) -> (created: Result<Self, OracleError>)
        ensures
            ctx.state_exists ==> created == Err::<Self, OracleError>(
                OracleError::AlreadyInitialized,
            ),
            !ctx.state_exists ==> created is Ok && created.unwrap().wf()
                && created.unwrap().refs@ == Map::<Seq<char>, RateRecord>::empty()
                && created.unwrap().owner@ == ctx.signer_account_id@,
    {
        if ctx.state_exists {
            return Err(OracleError::AlreadyInitialized);
        }
        Ok(StdReferenceBasic { refs: SymbolMap::new(), owner: ctx.signer_account_id.clone() })
    }

    /// The account that owns the store.
    pub fn get_owner(&self) -> (owner: AccountId)
        ensures
            owner@ == self.owner@,
    {
        self.owner.clone()
    }

    /// Hands the store to `new_owner`. Only the owner may.
    pub fn transfer_ownership(&mut self, ctx: &CallContext, new_owner: AccountId) -> (done: Result<
        (),
        OracleError,
    >)
        ensures
            final(self).refs == old(self).refs,
            old(self).wf() ==> final(self).wf(),
            match spec_transfer(old(self).owner@, ctx.predecessor_account_id@, new_owner@) {
                Ok(owner) => done == Ok::<(), OracleError>(()) && final(self).owner@ == owner,
                Err(e) => done == Err::<(), OracleError>(e) && final(self).owner == old(
                    self,
                ).owner,
            },
    {
        if !is_owner(ctx, &self.owner) {
            return Err(OracleError::NotAnOwner);
        }
        self.owner = new_owner;
        Ok(())
    }

    /// The record of `symbol` at the time of this invocation.
    pub fn get_refs(&self, ctx: &CallContext, symbol: String) -> (record: Option<RateRecord>)
        ensures
            record == spec_get_refs(self.refs@, symbol@, ctx.block_timestamp),
    {
        let unit = String::from_str("USD");
        if symbol == unit {
            Some((SCALE, ctx.block_timestamp, 0))
        } else {
            self.refs.get(&symbol)
        }
    }

    /// Decides whether the pair can be answered.
    pub fn can_quote(&self, ctx: &CallContext, base: &String, quote: &String) -> (yes: bool)
        ensures
            yes == quotable(self.refs@, base@, quote@, ctx.block_timestamp),
    {
        match (self.get_refs(ctx, base.clone()), self.get_refs(ctx, quote.clone())) {
            (Some(b), Some(q)) => can_cross_rate(b.0, q.0),
            _ => true,
        }
    }

    /// The rate of `base` in terms of `quote`, with the resolve times of both.
    /// Nothing when either of the two has no record.
    pub fn get_reference_data(&self, ctx: &CallContext, base: String, quote: String) -> (data:
        Option<RateRecord>)
        requires
            quotable(self.refs@, base@, quote@, ctx.block_timestamp),
        ensures
            data == spec_reference_data(self.refs@, base@, quote@, ctx.block_timestamp),
            data is None <==> spec_get_refs(self.refs@, base@, ctx.block_timestamp) is None
                || spec_get_refs(self.refs@, quote@, ctx.block_timestamp) is None,
    {
        match (self.get_refs(ctx, base), self.get_refs(ctx, quote)) {
            (Some(b), Some(q)) => Some((cross_rate(b.0, q.0), b.1, q.1)),
            _ => None,
        }
    }

    /// The answer to the pair where it can be worked out: `get_reference_data`
    /// behind the test that it asks of its caller. Nothing at all when the
    /// cross rate of the two records cannot be computed.
    pub fn try_get_reference_data(&self, ctx: &CallContext, base: String, quote: String) -> (data:
        Option<Option<RateRecord>>)
        ensures
            data == (if quotable(self.refs@, base@, quote@, ctx.block_timestamp) {
                Some(spec_reference_data(self.refs@, base@, quote@, ctx.block_timestamp))
            } else {
                None
            }),
    {
        if self.can_quote(ctx, &base, &quote) {
            Some(self.get_reference_data(ctx, base, quote))
        } else {
            None
        }
    }

    /// Decides whether the batch can be answered.
    pub fn can_quote_bulk(&self, ctx: &CallContext, bases: &Vec<String>, quotes: &Vec<String>) -> (yes:
        bool)
        requires
            bases.len() == quotes.len(),
        ensures
            yes == bulk_quotable(
                self.refs@,
                bases.deep_view(),
                quotes.deep_view(),
                ctx.block_timestamp,
            ),
    {
        let ghost refs = self.refs@;
        let ghost b = bases.deep_view();
        let ghost q = quotes.deep_view();
        let ghost now = ctx.block_timestamp;
        let n: usize = bases.len();
        let mut i: usize = 0;
        while i < n
            invariant
                n == bases.len(),
                n == quotes.len(),
                i <= n,
                refs == self.refs@,
                b == bases.deep_view(),
                q == quotes.deep_view(),
                now == ctx.block_timestamp,
                all_present(refs, b, q, now, i as int),
                forall|j: int| 0 <= j < i ==> quotable(refs, #[trigger] b[j], q[j], now),
            decreases n - i,
        {
            if !self.can_quote(ctx, &bases[i], &quotes[i]) {
                return false;
            }
            let base = self.get_refs(ctx, bases[i].clone());
            let quote = self.get_refs(ctx, quotes[i].clone());
            if base.is_none() || quote.is_none() {
                assert(spec_pair_data(refs, b, q, now, i as int) is None);
                assert forall|j: int| 0 <= j < b.len() && all_present(refs, b, q, now, j) implies quotable(
                    refs,
                    #[trigger] b[j],
                    q[j],
                    now,
                ) by {
                    if j > i {
                        assert(spec_pair_data(refs, b, q, now, i as int) is None);
                    }
                }
                return true;
            }
            assert(spec_pair_data(refs, b, q, now, i as int) is Some);
            i = i + 1;
        }
        true
    }

    /// The answers to the pairs of a batch, in order, or nothing at all when
    /// any one pair has no answer. Refused when the batch has different
    /// numbers of bases and quotes.
    pub fn get_reference_data_bulk(
        &self,
        ctx: &CallContext,
        bases: Vec<String>,
        quotes: Vec<String>,
    ) -> (answer: Result<Option<Vec<RateRecord>>, OracleError>)
        requires
            bases.len() == quotes.len() ==> bulk_quotable(
                self.refs@,
                bases.deep_view(),
                quotes.deep_view(),
                ctx.block_timestamp,
            ),
        ensures
            bases.len() != quotes.len() ==> answer == Err::<Option<Vec<RateRecord>>, OracleError>(
                OracleError::BadInputLength,
            ),
            bases.len() == quotes.len() ==> answer is Ok && bulk_view(answer.unwrap())
                == spec_reference_data_bulk(
                self.refs@,
                bases.deep_view(),
                quotes.deep_view(),
                ctx.block_timestamp,
            ),
    {
        if bases.len() != quotes.len() {
            return Err(OracleError::BadInputLength);
        }
        let ghost refs = self.refs@;
        let ghost b = bases.deep_view();
        let ghost q = quotes.deep_view();
        let ghost now = ctx.block_timestamp;
        let n: usize = bases.len();
        let mut data: Vec<RateRecord> = Vec::new();
        let mut i: usize = 0;
        while i < n
            invariant
                n == bases.len(),
                n == quotes.len(),
                i <= n,
                refs == self.refs@,
                b == bases.deep_view(),
                q == quotes.deep_view(),
                now == ctx.block_timestamp,
                bulk_quotable(refs, b, q, now),
                all_present(refs, b, q, now, i as int),
                data.len() == i,
                forall|j: int|
                    0 <= j < i ==> Some(#[trigger] data[j]) == spec_pair_data(refs, b, q, now, j),
            decreases n - i,
        {
            assert(quotable(refs, b[i as int], q[i as int], now));
            match self.get_reference_data(ctx, bases[i].clone(), quotes[i].clone()) {
                Some(pair) => {
                    assert(spec_pair_data(refs, b, q, now, i as int) == Some(pair));
                    data.push(pair);
                },
                None => {
                    assert(spec_pair_data(refs, b, q, now, i as int) is None);
                    return Ok(None);
                },
            }
            i = i + 1;
        }
        assert(data@ =~= spec_reference_data_bulk(refs, b, q, now).unwrap());
        Ok(Some(data))
    }

    /// The answer to the batch where it can be worked out:
    /// `get_reference_data_bulk` behind the test that it asks of its caller.
    /// Nothing at all when a pair that is reached has records whose cross
    /// rate cannot be computed.
    pub fn try_get_reference_data_bulk(
        &self,
        ctx: &CallContext,
        bases: Vec<String>,
        quotes: Vec<String>,
    ) -> (answer: Option<Result<Option<Vec<RateRecord>>, OracleError>>)
        ensures
            bases.len() != quotes.len() ==> answer == Some(
                Err::<Option<Vec<RateRecord>>, OracleError>(OracleError::BadInputLength),
            ),
            bases.len() == quotes.len() && !bulk_quotable(
                self.refs@,
                bases.deep_view(),
                quotes.deep_view(),
                ctx.block_timestamp,
            ) ==> answer is None,
            bases.len() == quotes.len() && bulk_quotable(
                self.refs@,
                bases.deep_view(),
                quotes.deep_view(),
                ctx.block_timestamp,
            ) ==> answer is Some && answer.unwrap() is Ok && bulk_view(answer.unwrap().unwrap())
                == spec_reference_data_bulk(
                self.refs@,
                bases.deep_view(),
                quotes.deep_view(),
                ctx.block_timestamp,
            ),
    {
        if bases.len() == quotes.len() && !self.can_quote_bulk(ctx, &bases, &quotes) {
            None
        } else {
            Some(self.get_reference_data_bulk(ctx, bases, quotes))
        }
    }

    /// Takes a batch of rates in: the record of each symbol takes the place of
    /// whatever the symbol had before, in the order of the batch. A record
    /// under the symbol of the unit is checked like the others and then left
    /// out: the unit is never stored. Only the owner may relay. The whole
    /// batch is checked before anything is written, so a refused relay leaves
    /// the store as it was.
    pub fn relay(
        &mut self,
        ctx: &CallContext,
        symbols: Vec<String>,
        rates: Vec<String>,
        resolve_times: Vec<u64>,
        request_ids: Vec<u64>,
    ) -> (done: Result<(), OracleError>)
        ensures
            final(self).owner == old(self).owner,
            !old(self).refs@.contains_key(usd()) ==> !final(self).refs@.contains_key(usd()),
            old(self).wf() ==> final(self).wf(),
            match done {
                Ok(()) => relay_accepted(
                    old(self).owner@,
                    ctx.predecessor_account_id@,
                    symbols.deep_view(),
                    rates.deep_view(),
                    resolve_times@,
                    request_ids@,
                ) && final(self).refs@ == spec_relay(
                    old(self).refs@,
                    symbols.deep_view(),
                    spec_records(rates.deep_view(), resolve_times@, request_ids@),
                ),
                Err(refusal) => relay_refused(
                    refusal,
                    old(self).owner@,
                    ctx.predecessor_account_id@,
                    symbols.deep_view(),
                    rates.deep_view(),
                    resolve_times@,
                    request_ids@,
                ) && final(self).refs == old(self).refs,
            },
    {
        if !is_owner(ctx, &self.owner) {
            return Err(OracleError::NotAnOwner);
        }
        let n: usize = symbols.len();
        if rates.len() != n {
            return Err(OracleError::BadRatesLength);
        }
        if resolve_times.len() != n {
            return Err(OracleError::BadResolveTimesLength);
        }
        if request_ids.len() != n {
            return Err(OracleError::BadRequestIdsLength);
        }
        let ghost names = symbols.deep_view();
        let ghost texts = rates.deep_view();
        let mut parsed: Vec<u128> = Vec::new();
        let mut i: usize = 0;
        while i < n
            invariant
                n == symbols.len(),
                n == rates.len(),
                i <= n,
                n == resolve_times.len(),
                n == request_ids.len(),
                names == symbols.deep_view(),
                texts == rates.deep_view(),
                *self == *old(self),
                authorized(self.owner@, ctx.predecessor_account_id@),
                all_parse(texts, i as int),
                parsed.len() == i,
                forall|j: int| 0 <= j < i ==> Some(#[trigger] parsed[j]) == spec_parse_rate(texts[j]),
            decreases n - i,
        {
            match parse_rate(rates[i].as_str()) {
                Some(rate) => {
                    parsed.push(rate);
                },
                None => {
                    assert(spec_parse_rate(texts[i as int]) is None);
                    assert(names[i as int] == symbols[i as int]@);
                    return Err(
                        OracleError::FailToParseRate {
                            rate: rates[i].clone(),
                            symbol: symbols[i].clone(),
                        },
                    );
                },
            }
            i = i + 1;
        }
        let ghost before = self.refs@;
        let ghost records = spec_records(texts, resolve_times@, request_ids@);
        let unit = String::from_str("USD");
        let mut k: usize = 0;
        while k < n
            invariant
                n == symbols.len(),
                n == parsed.len(),
                n == resolve_times.len(),
                n == request_ids.len(),
                n == records.len(),
                k <= n,
                names == symbols.deep_view(),
                self.owner == old(self).owner,
                forall|j: int|
                    0 <= j < n ==> #[trigger] records[j] == (
                        parsed[j],
                        resolve_times[j],
                        request_ids[j],
                    ),
                unit@ == usd(),
                old(self).refs.wf() ==> self.refs.wf(),
                self.refs@ == spec_write_first_except(before, names, records, k as nat, usd()),
            decreases n - k,
        {
            if symbols[k] == unit {
                assert(names[k as int] == usd());
            } else {
                assert(names[k as int] != usd());
                self.refs.insert(
                    symbols[k].clone(),
                    (parsed[k], resolve_times[k], request_ids[k]),
                );
            }
            k = k + 1;
        }
        proof {
            lemma_write_except(before, names, records, n as nat, usd(), usd());
        }
        Ok(())
    }
}

impl StdRef for StdReferenceBasic {
    open spec fn reference_data(&self, base: Seq<char>, quote: Seq<char>, now: u64) -> Option<
        RateRecord,
    > {
        spec_reference_data(self.refs@, base, quote, now)
    }

    open spec fn answers(&self, base: Seq<char>, quote: Seq<char>, now: u64) -> bool {
        quotable(self.refs@, base, quote, now)
    }

    open spec fn reference_data_bulk(
        &self,
        bases: Seq<Seq<char>>,
        quotes: Seq<Seq<char>>,
        now: u64,
    ) -> Option<Seq<RateRecord>> {
        spec_reference_data_bulk(self.refs@, bases, quotes, now)
    }

    open spec fn answers_bulk(&self, bases: Seq<Seq<char>>, quotes: Seq<Seq<char>>, now: u64) -> bool {
        bulk_quotable(self.refs@, bases, quotes, now)
    }

    fn get_reference_data(&self, ctx: &CallContext, base: String, quote: String) -> (data: Option<
        RateRecord,
    >) {
        StdReferenceBasic::get_reference_data(self, ctx, base, quote)
    }

    fn get_reference_data_bulk(&self, ctx: &CallContext, bases: Vec<String>, quotes: Vec<String>) -> (answer:
        Result<Option<Vec<RateRecord>>, OracleError>) {
        StdReferenceBasic::get_reference_data_bulk(self, ctx, bases, quotes)
    }
}

/// A relayed record is what a read gives right after the relay: after one
/// symbol other than the unit is relayed with a rate text that stands for
/// `rate`, its record is that rate with the resolve time and the request
/// identifier that came with it.
pub proof fn lemma_relayed_record_is_read(
    refs: Map<Seq<char>, RateRecord>,
    symbol: Seq<char>,
    rate_text: Seq<char>,
    rate: u128,
    resolve_time: u64,
    request_id: u64,
    now: u64,
)
    requires
        symbol != usd(),
        spec_parse_rate(rate_text) == Some(rate),
    ensures
        spec_get_refs(
            spec_relay(
                refs,
                seq![symbol],
                spec_records(seq![rate_text], seq![resolve_time], seq![request_id]),
            ),
            symbol,
            now,
        ) == Some((rate, resolve_time, request_id)),
{
    let symbols = seq![symbol];
    let records = spec_records(seq![rate_text], seq![resolve_time], seq![request_id]);
    assert(spec_write_first_except(refs, symbols, records, 0, usd()) == refs);
    assert(spec_relay(refs, symbols, records) == refs.insert(symbols[0], records[0]));
}

/// Last write wins: after a relay a symbol of the batch, other than the
/// unit, has the record of its last entry in the batch.
pub proof fn lemma_relay_last_write_wins(
    refs: Map<Seq<char>, RateRecord>,
    symbols: Seq<Seq<char>>,
    records: Seq<RateRecord>,
    symbol: Seq<char>,
    i: int,
    now: u64,
)
    requires
        symbol != usd(),
        last_of(symbols, symbol, symbols.len(), i),
    ensures
        spec_get_refs(spec_relay(refs, symbols, records), symbol, now) == Some(records[i]),
{
    lemma_write_except(refs, symbols, records, symbols.len(), usd(), symbol);
    lemma_last_write_wins(refs, symbols, records, symbols.len(), symbol);
}

/// A record stays until its symbol is relayed again: a relay without
/// `symbol` leaves the read of `symbol` as it was.
pub proof fn lemma_relay_keeps_other_symbols(
    refs: Map<Seq<char>, RateRecord>,
    symbols: Seq<Seq<char>>,
    records: Seq<RateRecord>,
    symbol: Seq<char>,
    now: u64,
)
    requires
        not_among(symbols, symbol, symbols.len()),
    ensures
        spec_get_refs(spec_relay(refs, symbols, records), symbol, now) == spec_get_refs(
            refs,
            symbol,
            now,
        ),
{
    lemma_write_except(refs, symbols, records, symbols.len(), usd(), symbol);
    lemma_last_write_wins(refs, symbols, records, symbols.len(), symbol);
}

/// The unit cannot be overridden: whatever was relayed, also under the
/// symbol of the unit itself, the unit reads as a rate of exactly one that
/// was resolved now.
pub proof fn lemma_usd_is_fixed(
    refs: Map<Seq<char>, RateRecord>,
    symbols: Seq<Seq<char>>,
    records: Seq<RateRecord>,
    now: u64,
)
    ensures
        spec_get_refs(refs, usd(), now) == Some((SCALE, now, 0u64)),
        spec_get_refs(spec_relay(refs, symbols, records), usd(), now) == Some((SCALE, now, 0u64)),
{
}

/// The unit is never stored: a relay, whatever its symbols, puts nothing
/// under the symbol of the unit, so rates that held no such entry hold none
/// afterwards.
pub proof fn lemma_relay_never_stores_usd(
    refs: Map<Seq<char>, RateRecord>,
    symbols: Seq<Seq<char>>,
    records: Seq<RateRecord>,
)
    ensures
        spec_relay(refs, symbols, records).contains_key(usd()) == refs.contains_key(usd()),
        !refs.contains_key(usd()) ==> !spec_relay(refs, symbols, records).contains_key(usd()),
{
    lemma_write_except(refs, symbols, records, symbols.len(), usd(), usd());
}

/// The cross rate is the scaled quotient of the two rates, rounded down, and
/// the two times are the resolve times of base and quote.
pub proof fn lemma_reference_data_formula(
    refs: Map<Seq<char>, RateRecord>,
    base: Seq<char>,
    quote: Seq<char>,
    now: u64,
    b: RateRecord,
    q: RateRecord,
)
    requires
        spec_get_refs(refs, base, now) == Some(b),
        spec_get_refs(refs, quote, now) == Some(q),
        q.0 > 0,
        b.0 * SCALE * SCALE / (q.0 as int) <= u128::MAX,
    ensures
        spec_reference_data(refs, base, quote, now) is Some,
        spec_reference_data(refs, base, quote, now).unwrap().0 == b.0 * 1_000_000_000
            * 1_000_000_000 / (q.0 as int),
        spec_reference_data(refs, base, quote, now).unwrap().0 * q.0 <= b.0 * 1_000_000_000
            * 1_000_000_000 < (spec_reference_data(refs, base, quote, now).unwrap().0 + 1) * q.0,
        spec_reference_data(refs, base, quote, now).unwrap().1 == b.1,
        spec_reference_data(refs, base, quote, now).unwrap().2 == q.1,
{
    let product: int = b.0 * 1_000_000_000 * 1_000_000_000;
    let rate: int = product / (q.0 as int);
    assert(product >= 0) by (nonlinear_arith)
        requires
            product == b.0 * 1_000_000_000 * 1_000_000_000,
            b.0 >= 0,
    ;
    assert(0 <= rate && rate * q.0 <= product < (rate + 1) * q.0) by (nonlinear_arith)
        requires
            rate == product / (q.0 as int),
            q.0 > 0,
            product >= 0,
    ;
}

/// A pair has no answer exactly when one of its two symbols has no record:
/// it is not the unit and was never relayed.
pub proof fn lemma_reference_data_absent_iff(
    refs: Map<Seq<char>, RateRecord>,
    base: Seq<char>,
    quote: Seq<char>,
    now: u64,
)
    ensures
        spec_reference_data(refs, base, quote, now) is None <==> (base != usd()
            && !refs.contains_key(base)) || (quote != usd() && !refs.contains_key(quote)),
{
}

/// All or nothing: a batch in which one pair has no answer has no answer at
/// all, whatever the other pairs would give; a batch in which every pair has
/// an answer gives one answer for each pair.
pub proof fn lemma_bulk_all_or_nothing(
    refs: Map<Seq<char>, RateRecord>,
    bases: Seq<Seq<char>>,
    quotes: Seq<Seq<char>>,
    now: u64,
)
    ensures
        (exists|i: int|
            0 <= i < bases.len() && (#[trigger] spec_pair_data(refs, bases, quotes, now, i))
                is None) <==> spec_reference_data_bulk(refs, bases, quotes, now) is None,
        spec_reference_data_bulk(refs, bases, quotes, now) is Some ==> {
            let data = spec_reference_data_bulk(refs, bases, quotes, now).unwrap();
            &&& data.len() == bases.len()
            &&& forall|i: int|
                0 <= i < bases.len() ==> Some(#[trigger] data[i]) == spec_reference_data(
                    refs,
                    bases[i],
                    quotes[i],
                    now,
                )
        },
{
}

} // verus!
