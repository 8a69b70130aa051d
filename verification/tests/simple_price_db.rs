use std_reference::context::{AccountId, CallContext};
use std_reference::error::OracleError;
use std_reference::gas::request_share;
use std_reference::request::{Continuation, ForwardedCall, PendingRequest, Query};
use std_reference::simple_price_db::{composite_symbol, SelfCallback, SimplePriceDB};
use std_reference::std_proxy::StdProxy;
use std_reference::std_ref_basic::StdReferenceBasic;

fn alice() -> AccountId {
    "alice.near".to_string()
}

fn bob() -> AccountId {
    "bob.near".to_string()
}

fn carol() -> AccountId {
    "carol.near".to_string()
}

fn std_proxy() -> AccountId {
    "std_proxy.near".to_string()
}

fn another_oracle() -> AccountId {
    "another_oracle.near".to_string()
}

fn get_context() -> CallContext {
    CallContext {
        current_account_id: alice(),
        signer_account_id: bob(),
        predecessor_account_id: carol(),
        block_timestamp: 0,
        prepaid_gas: 10u64.pow(18),
        used_gas: 0,
        state_exists: false,
    }
}

fn strings(items: &[&str]) -> Vec<String> {
    items.iter().map(|s| s.to_string()).collect()
}

#[test]
fn lib_test_create_new_contract() {
    let context = get_context();
    let contract = SimplePriceDB::new(&context, std_proxy(), alice()).unwrap();

    assert_eq!(std_proxy(), contract.oracle);
    assert_eq!(alice(), contract.owner);

    assert_eq!(std_proxy(), contract.get_oracle());
    assert_eq!(alice(), contract.get_owner());
    assert!(contract.prices.is_empty());
}

#[test]
fn test_create_cache_twice_is_refused() {
    let mut context = get_context();
    context.state_exists = true;
    assert_eq!(
        Some(OracleError::AlreadyInitialized),
        SimplePriceDB::new(&context, std_proxy(), alice()).err()
    );
}

#[test]
fn test_set_oracle_fail() {
    let context = get_context();
    let mut contract = SimplePriceDB::new(&context, std_proxy(), alice()).unwrap();

    let refused = contract.set_oracle(&context, another_oracle());
    assert_eq!(Err(OracleError::NotAnOwner), refused);
    assert_eq!("NOT_AN_OWNER", refused.unwrap_err().message());
    assert_eq!(std_proxy(), contract.get_oracle());
}

#[test]
fn test_set_oracle_ok() {
    let mut context = get_context();
    context.predecessor_account_id = alice();
    let mut contract = SimplePriceDB::new(&context, std_proxy(), alice()).unwrap();

    assert_eq!(Ok(()), contract.set_oracle(&context, another_oracle()));
    assert_eq!(another_oracle(), contract.get_oracle());
    assert_eq!(alice(), contract.get_owner());
}

#[test]
fn test_get_price_of_unknown_symbol() {
    let context = get_context();
    let contract = SimplePriceDB::new(&context, std_proxy(), alice()).unwrap();
    assert_eq!(None, contract.get_price("BTC/USD".into()));
}

#[test]
fn test_composite_symbol() {
    assert_eq!("BTC/USD", composite_symbol(&"BTC".to_string(), &"USD".to_string()));
    assert_eq!("/", composite_symbol(&String::new(), &String::new()));
    assert_eq!("a/b/c", composite_symbol(&"a/b".to_string(), &"c".to_string()));
}

#[test]
fn test_request_share_values() {
    assert_eq!(0, request_share(0));
    assert_eq!(0, request_share(2));
    assert_eq!(1, request_share(3));
    assert_eq!(2, request_share(5));
    assert_eq!(3, request_share(9));
    assert_eq!(400_000_000_000_000_000, request_share(10u64.pow(18)));
    assert_eq!(7_378_697_629_483_820_646, request_share(u64::MAX));
}

#[test]
fn test_set_single_issues_request() {
    let mut context = get_context();
    context.used_gas = 5;
    let contract = SimplePriceDB::new(&context, std_proxy(), alice()).unwrap();
    assert_eq!(999_999_999_999_999_995, context.remaining_gas());
    let request = contract.set_single(&context, "BTC".into(), "USD".into());
    assert_eq!(
        PendingRequest {
            call: ForwardedCall {
                target: std_proxy(),
                query: Query::ReferenceData { base: "BTC".into(), quote: "USD".into() },
                deposit: 0,
                gas: 399_999_999_999_999_998,
            },
            receiver: alice(),
            continuation: Continuation::SetSingle { symbol: "BTC/USD".into() },
            continuation_deposit: 0,
            continuation_gas: 399_999_999_999_999_998,
        },
        request
    );
    // nothing is kept until the continuation runs
    assert_eq!(None, contract.get_price("BTC/USD".into()));
}

#[test]
fn test_set_multiple_issues_request_in_order() {
    let context = get_context();
    let mut contract = SimplePriceDB::new(&context, std_proxy(), alice()).unwrap();
    let request = contract
        .set_multiple(&context, strings(&["BTC", "ETH", "USD"]), strings(&["USD", "BTC", "ETH"]))
        .unwrap();
    assert_eq!(
        PendingRequest {
            call: ForwardedCall {
                target: std_proxy(),
                query: Query::ReferenceDataBulk {
                    bases: strings(&["BTC", "ETH", "USD"]),
                    quotes: strings(&["USD", "BTC", "ETH"]),
                },
                deposit: 0,
                gas: 400_000_000_000_000_000,
            },
            receiver: alice(),
            continuation: Continuation::SetMultiple {
                symbols: strings(&["BTC/USD", "ETH/BTC", "USD/ETH"]),
            },
            continuation_deposit: 0,
            continuation_gas: 400_000_000_000_000_000,
        },
        request
    );
    assert!(contract.prices.is_empty());
}

#[test]
fn test_set_multiple_size_mismatch_touches_nothing() {
    let context = get_context();
    let mut contract = SimplePriceDB::new(&context, std_proxy(), alice()).unwrap();
    contract.callback_set_single("BTC/USD".into(), Some((7, 1, 2)));

    let refused =
        contract.set_multiple(&context, strings(&["BTC", "ETH"]), strings(&["USD"])).unwrap_err();
    assert_eq!(OracleError::BasesQuotesSizeIsNotEqual { bases: 2, quotes: 1 }, refused);
    assert_eq!("BASES_QUOTES_SIZE_IS_NOT_EQUAL:2!=1", refused.message());

    assert_eq!(Some(7), contract.get_price("BTC/USD".into()));
    assert_eq!(None, contract.get_price("ETH/USD".into()));
    assert_eq!(1, contract.prices.entries.len());
    assert_eq!(std_proxy(), contract.get_oracle());
    assert_eq!(alice(), contract.get_owner());
}

#[test]
fn test_size_mismatch_message_with_long_numbers() {
    let refused = OracleError::BasesQuotesSizeIsNotEqual { bases: 0, quotes: 1203 };
    assert_eq!("BASES_QUOTES_SIZE_IS_NOT_EQUAL:0!=1203", refused.message());
}

#[test]
fn test_callback_set_single_keeps_rate_only() {
    let context = get_context();
    let mut contract = SimplePriceDB::new(&context, std_proxy(), alice()).unwrap();
    contract.callback_set_single(
        "BTC/USD".into(),
        Some((111_000_000_000_000_000_000, 333, 444)),
    );
    assert_eq!(Some(111_000_000_000_000_000_000), contract.get_price("BTC/USD".into()));
    assert_eq!(
        vec![("BTC/USD".to_string(), 111_000_000_000_000_000_000u128)],
        contract.prices.entries
    );

    contract.callback_set_single("BTC/USD".into(), Some((5, 1, 1)));
    assert_eq!(Some(5), contract.get_price("BTC/USD".into()));
}

#[test]
fn test_callback_set_single_absent_changes_nothing() {
    let context = get_context();
    let mut contract = SimplePriceDB::new(&context, std_proxy(), alice()).unwrap();

    contract.callback_set_single("BTC/USD".into(), None);
    assert_eq!(None, contract.get_price("BTC/USD".into()));
    assert!(contract.prices.is_empty());

    contract.callback_set_single("BTC/USD".into(), Some((9, 1, 2)));
    contract.callback_set_single("BTC/USD".into(), None);
    assert_eq!(Some(9), contract.get_price("BTC/USD".into()));
}

#[test]
fn test_callback_set_multiple_keeps_pairwise() {
    let context = get_context();
    let mut contract = SimplePriceDB::new(&context, std_proxy(), alice()).unwrap();
    contract.callback_set_multiple(
        strings(&["BTC/USD", "ETH/USD", "BTC/ETH"]),
        Some(vec![(10, 1, 2), (20, 3, 4), (30, 5, 6)]),
    );
    assert_eq!(Some(10), contract.get_price("BTC/USD".into()));
    assert_eq!(Some(20), contract.get_price("ETH/USD".into()));
    assert_eq!(Some(30), contract.get_price("BTC/ETH".into()));
}

#[test]
fn test_callback_set_multiple_absent_changes_nothing() {
    let context = get_context();
    let mut contract = SimplePriceDB::new(&context, std_proxy(), alice()).unwrap();
    contract.callback_set_single("BTC/USD".into(), Some((9, 1, 2)));
    contract.callback_set_multiple(strings(&["BTC/USD", "ETH/USD"]), None);
    assert_eq!(Some(9), contract.get_price("BTC/USD".into()));
    assert_eq!(None, contract.get_price("ETH/USD".into()));
}

#[test]
fn test_callback_set_multiple_goes_as_far_as_both_go() {
    let context = get_context();
    let mut contract = SimplePriceDB::new(&context, std_proxy(), alice()).unwrap();
    contract.callback_set_multiple(strings(&["A/B", "C/D", "E/F"]), Some(vec![(1, 0, 0)]));
    assert_eq!(Some(1), contract.get_price("A/B".into()));
    assert_eq!(None, contract.get_price("C/D".into()));

    contract.callback_set_multiple(strings(&["C/D"]), Some(vec![(2, 0, 0), (3, 0, 0)]));
    assert_eq!(Some(2), contract.get_price("C/D".into()));
    assert_eq!(None, contract.get_price("E/F".into()));

    // the last answer for a symbol that stands twice wins
    contract.callback_set_multiple(strings(&["A/B", "A/B"]), Some(vec![(7, 0, 0), (8, 0, 0)]));
    assert_eq!(Some(8), contract.get_price("A/B".into()));
}

#[test]
fn test_callbacks_through_trait() {
    let context = get_context();
    let mut contract = SimplePriceDB::new(&context, std_proxy(), alice()).unwrap();
    SelfCallback::callback_set_single(&mut contract, "BTC/USD".into(), Some((4, 1, 2)));
    SelfCallback::callback_set_multiple(
        &mut contract,
        strings(&["ETH/USD"]),
        Some(vec![(6, 1, 2)]),
    );
    assert_eq!(Some(4), contract.get_price("BTC/USD".into()));
    assert_eq!(Some(6), contract.get_price("ETH/USD".into()));
}

#[test]
fn test_request_through_proxy_and_store_ends_in_cache() {
    // the store
    let mut store_context = get_context();
    store_context.predecessor_account_id = bob();
    store_context.current_account_id = "std_basic.near".to_string();
    let mut store = StdReferenceBasic::new(&store_context).unwrap();
    store
        .relay(
            &store_context,
            strings(&["BTC", "ETH"]),
            strings(&["111000000000", "222000000000"]),
            vec![333, 444],
            vec![555, 666],
        )
        .unwrap();
    // the proxy and the cache
    let context = get_context();
    let mut proxy = StdProxy::new(&context, "std_basic.near".to_string()).unwrap();
    let mut cache = SimplePriceDB::new(&context, std_proxy(), alice()).unwrap();

    let request = cache.set_single(&context, "BTC".into(), "ETH".into());
    let (base, quote) = match request.call.query {
        Query::ReferenceData { base, quote } => (base, quote),
        Query::ReferenceDataBulk { .. } => unreachable!(),
    };
    let mut proxy_context = get_context();
    proxy_context.prepaid_gas = request.call.gas;
    let forwarded = proxy.get_reference_data(&proxy_context, base, quote);
    assert_eq!("std_basic.near", forwarded.target);
    assert_eq!(360_000_000_000_000_000, forwarded.gas);
    let answer = match forwarded.query {
        Query::ReferenceData { base, quote } => {
            assert!(store.can_quote(&store_context, &base, &quote));
            store.get_reference_data(&store_context, base, quote)
        }
        Query::ReferenceDataBulk { .. } => unreachable!(),
    };
    match request.continuation {
        Continuation::SetSingle { symbol } => cache.callback_set_single(symbol, answer),
        Continuation::SetMultiple { .. } => unreachable!(),
    }
    assert_eq!(Some(500_000_000_000_000_000), cache.get_price("BTC/ETH".into()));
}

#[test]
fn test_set_multiple_size_mismatch_comes_before_the_budget() {
    let mut context = get_context();
    context.prepaid_gas = 1;
    context.used_gas = 2;
    let mut contract = SimplePriceDB::new(&context, std_proxy(), alice()).unwrap();
    let refused = contract.set_multiple(&context, strings(&["BTC"]), vec![]).unwrap_err();
    assert_eq!(OracleError::BasesQuotesSizeIsNotEqual { bases: 1, quotes: 0 }, refused);
    assert_eq!("BASES_QUOTES_SIZE_IS_NOT_EQUAL:1!=0", refused.message());
    assert!(contract.prices.is_empty());
}

#[test]
fn test_request_through_proxy_with_budget_spent() {
    let mut context = get_context();
    context.prepaid_gas = 1000;
    context.used_gas = 500;
    let cache = SimplePriceDB::new(&context, std_proxy(), alice()).unwrap();
    let request = cache.set_single(&context, "BTC".into(), "USD".into());
    assert_eq!(200, request.call.gas);
    assert_eq!(200, request.continuation_gas);

    // the proxy runs on what the call was given, of which some is spent
    let mut proxy_context = get_context();
    proxy_context.prepaid_gas = request.call.gas;
    proxy_context.used_gas = 100;
    let mut proxy = StdProxy::new(&proxy_context, "std_basic.near".to_string()).unwrap();
    let forwarded = proxy.get_reference_data(&proxy_context, "BTC".into(), "USD".into());
    assert_eq!(90, forwarded.gas);
}
