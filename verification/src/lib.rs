//! A price-oracle pipeline in three parts: a reference store of relayed rates
//! that answers cross-rate queries, a proxy that forwards queries to a store,
//! and a rate cache that requests rates through a proxy and keeps what comes
//! back.
//!
//! Every operation takes the facts of the current invocation (caller, time,
//! execution budget) as a [`context::CallContext`], and every operation that
//! starts an asynchronous call returns a description of it for the host to
//! dispatch.

pub mod batch;
pub mod context;
pub mod decimal;
pub mod error;
pub mod gas;
pub mod ownership;
pub mod rate;
pub mod request;
pub mod simple_price_db;
pub mod std_proxy;
pub mod symbol_map;
pub mod std_ref_basic;
