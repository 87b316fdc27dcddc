//! The concrete instrument records, one per asset class. Every record
//! shares the mandatory field set of the capability interface; each adds
//! its variant-specific fields. Records are plain immutable data: they are
//! populated from broker-provided responses and never mutated.

use crate::currency::Currency;
use crate::date::Date;
use crate::decimal::Decimal;
use crate::exchange::{Primary, Routing};
use crate::ids::{ContractId, SecurityId};
use vstd::prelude::*;

verus! {

/// A forex contract, like GBPUSD.
#[derive(Debug, Clone, PartialEq, PartialOrd)]
pub struct Forex {
    pub contract_id: ContractId,
    pub min_tick: Decimal,
    pub symbol: String,
    pub exchange: Routing,
    pub trading_class: String,
    pub currency: Currency,
    pub local_symbol: String,
    pub long_name: String,
    pub order_types: Vec<String>,
    pub valid_exchanges: Vec<Routing>,
}

/// A crypto contract, like BTC.
#[derive(Debug, Clone, PartialEq, PartialOrd)]
pub struct Crypto {
    pub contract_id: ContractId,
    pub min_tick: Decimal,
    pub symbol: String,
    pub trading_class: String,
    pub currency: Currency,
    pub local_symbol: String,
    pub long_name: String,
    pub order_types: Vec<String>,
    pub valid_exchanges: Vec<Routing>,
}

/// An equity contract, like AAPL.
#[derive(Debug, Clone, PartialEq, PartialOrd)]
pub struct Stock {
    pub contract_id: ContractId,
    pub min_tick: Decimal,
    pub symbol: String,
    pub exchange: Routing,
    pub primary_exchange: Primary,
    pub stock_type: String,
    pub security_ids: Vec<SecurityId>,
    pub sector: String,
    pub trading_class: String,
    pub currency: Currency,
    pub local_symbol: String,
    pub long_name: String,
    pub order_types: Vec<String>,
    pub valid_exchanges: Vec<Routing>,
}

/// An index, like SPX.
#[derive(Debug, Clone, PartialEq, PartialOrd)]
pub struct Index {
    pub contract_id: ContractId,
    pub min_tick: Decimal,
    pub symbol: String,
    pub exchange: Routing,
    pub currency: Currency,
    pub local_symbol: String,
    pub long_name: String,
    pub order_types: Vec<String>,
    pub valid_exchanges: Vec<Routing>,
}

/// A commodity, like XAUUSD.
#[derive(Debug, Clone, PartialEq, PartialOrd)]
pub struct Commodity {
    pub contract_id: ContractId,
    pub min_tick: Decimal,
    pub symbol: String,
    pub exchange: Routing,
    pub trading_class: String,
    pub currency: Currency,
    pub local_symbol: String,
    pub long_name: String,
    pub order_types: Vec<String>,
    pub valid_exchanges: Vec<Routing>,
}

/// A futures contract, like FGBL MAR 23.
#[derive(Debug, Clone, PartialEq, PartialOrd)]
pub struct SecFuture {
    pub contract_id: ContractId,
    pub min_tick: Decimal,
    pub symbol: String,
    pub exchange: Routing,
    pub multiplier: u32,
    pub expiration_date: Date,
    pub trading_class: String,
    pub underlying_contract_id: ContractId,
    pub currency: Currency,
    pub local_symbol: String,
    pub long_name: String,
    pub order_types: Vec<String>,
    pub valid_exchanges: Vec<Routing>,
}

/// The fields shared by the call and put legs of a vanilla option.
#[derive(Debug, Clone, PartialEq, PartialOrd)]
pub struct SecOptionInner {
    pub contract_id: ContractId,
    pub min_tick: Decimal,
    pub symbol: String,
    pub exchange: Routing,
    pub strike: Decimal,
    pub multiplier: u32,
    pub expiration_date: Date,
    pub underlying_contract_id: ContractId,
    pub sector: String,
    pub trading_class: String,
    pub currency: Currency,
    pub local_symbol: String,
    pub long_name: String,
    pub order_types: Vec<String>,
    pub valid_exchanges: Vec<Routing>,
}

/// A vanilla option contract, either a call or a put over the same inner
/// record.
#[derive(Debug, Clone, PartialEq, PartialOrd)]
pub enum SecOption {
    /// A vanilla call option: pays max(S - K, 0) at expiry.
    Call(SecOptionInner),
    /// A vanilla put option: pays max(K - S, 0) at expiry.
    Put(SecOptionInner),
}

/// The inner record of an option, the same whichever leg wraps it.
pub open spec fn spec_option_inner(o: SecOption) -> SecOptionInner {
    match o {
        SecOption::Call(inner) => inner,
        SecOption::Put(inner) => inner,
    }
}

impl SecOption {
    /// The option is a call.
    pub open spec fn spec_is_call(&self) -> bool {
        *self is Call
    }

    /// The option is a put.
    pub open spec fn spec_is_put(&self) -> bool {
        *self is Put
    }

    /// Return `true` if the option is a call option.
    pub fn is_call(&self) -> (r: bool)
        ensures
            r == self.spec_is_call(),
    {
        match self {
            SecOption::Call(_) => true,
            SecOption::Put(_) => false,
        }
    }

    /// Return `true` if the option is a put option.
    pub fn is_put(&self) -> (r: bool)
        ensures
            r == self.spec_is_put(),
    {
        !self.is_call()
    }

    /// Get a reference to the underlying contract's specifications.
    pub fn as_inner_ref(&self) -> (r: &SecOptionInner)
        ensures
            *r == spec_option_inner(*self),
    {
        match self {
            SecOption::Call(inner) => inner,
            SecOption::Put(inner) => inner,
        }
    }

    /// Transform the option into its underlying specification.
    pub fn into_inner(self) -> (r: SecOptionInner)
        ensures
            r == spec_option_inner(self),
    {
        match self {
            SecOption::Call(inner) => inner,
            SecOption::Put(inner) => inner,
        }
    }
}

/// Exactly one of call and put holds of any option value.
pub proof fn lemma_call_put_complementary(o: SecOption)
    ensures
        o.spec_is_call() <==> !o.spec_is_put(),
{
}

/// The inner record does not depend on the call/put tag: both legs over
/// the same inner record expose exactly the same field values.
pub proof fn lemma_inner_ignores_tag(inner: SecOptionInner)
    ensures
        spec_option_inner(SecOption::Call(inner)) == spec_option_inner(SecOption::Put(inner)),
        spec_option_inner(SecOption::Call(inner)) == inner,
{
}

} // verus!
