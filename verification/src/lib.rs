//! A typed model of tradable financial instruments for a brokerage API
//! client: the closed set of contract variants (forex pair, crypto asset,
//! stock, index, future, option, commodity), a shared capability interface
//! over them, fallible narrowing from the generic sum type back to a
//! concrete variant, query parsing for contract lookup, and a proxy view
//! for partially known instruments.

pub mod contract;
pub mod currency;
pub mod date;
pub mod decimal;
pub mod exchange;
pub mod figi;
pub mod ids;
pub mod proxy;
pub mod query;
pub mod records;
pub mod resolve;
pub mod security;
pub mod text;
