//! The proxy wrapper: a reduced, type-safe view of an instrument that may
//! represent partial knowledge rather than a fully resolved
//! contract-detail record. A `Proxy<Contract>` can be narrowed per
//! variant by the same tag-check rule as the sum type itself, and each
//! per-variant proxy re-exposes that variant's extra fields.

use crate::contract::{
    spec_contract_id, spec_currency, spec_local_symbol, spec_symbol, Contract, ContractType,
};
use crate::currency::Currency;
use crate::date::Date;
use crate::decimal::Decimal;
use crate::exchange::Primary;
use crate::ids::ContractId;
use crate::records::{
    spec_option_inner, Commodity, Crypto, Forex, Index, SecFuture, SecOption, Stock,
};
use crate::security::{Security, WrongContractType};
use vstd::prelude::*;

verus! {

/// Holds information about a contract but lacks the information of a
/// full [`Contract`].
#[derive(Debug, Clone, PartialEq, PartialOrd)]
pub struct Proxy<S: Security> {
    /// The (possibly partially populated) instrument value.
    pub inner: S,
}

impl<S: Security> Proxy<S> {
    /// Wrap an instrument value, however much of it is known.
    pub fn new(inner: S) -> (r: Proxy<S>)
        ensures
            r.inner == inner,
    {
        Proxy { inner }
    }

    /// Get the underlying security's contract ID.
    pub fn contract_id(&self) -> (r: ContractId)
        ensures
            r == spec_contract_id(self.inner.as_contract()),
    {
        self.inner.contract_id()
    }

    /// Get the underlying security's symbol.
    pub fn symbol(&self) -> (r: &str)
        ensures
            r@ == spec_symbol(self.inner.as_contract()),
    {
        self.inner.symbol()
    }

    /// Get the underlying security's currency.
    pub fn currency(&self) -> (r: Currency)
        ensures
            r == spec_currency(self.inner.as_contract()),
    {
        self.inner.currency()
    }

    /// Get the underlying security's local symbol.
    pub fn local_symbol(&self) -> (r: &str)
        ensures
            r@ == spec_local_symbol(self.inner.as_contract()),
    {
        self.inner.local_symbol()
    }
}

impl Proxy<Contract> {
    /// Get the type of contract.
    pub fn contract_type(&self) -> (r: ContractType)
        ensures
            r == crate::contract::spec_contract_type(self.inner),
    {
        match &self.inner {
            Contract::Forex(_) => ContractType::Forex,
            Contract::Crypto(_) => ContractType::Crypto,
            Contract::Stock(_) => ContractType::Stock,
            Contract::Index(_) => ContractType::Index,
            Contract::Commodity(_) => ContractType::Commodity,
            Contract::SecFuture(_) => ContractType::SecFuture,
            Contract::SecOption(_) => ContractType::SecOption,
        }
    }

    /// Coerce the proxy to a [`Forex`] proxy, failing if another variant
    /// is held.
    pub fn forex(self) -> (r: Result<Proxy<Forex>, WrongContractType>)
        ensures
            self.inner matches Contract::Forex(t) ==> (r matches Ok(p) && p.inner == t),
            !(self.inner is Forex) ==> r == Err::<Proxy<Forex>, WrongContractType>(
                (WrongContractType { expected: ContractType::Forex }),
            ),
    {
        match self.inner {
            Contract::Forex(t) => Ok(Proxy::<Forex> { inner: t }),
            _ => Err(WrongContractType { expected: ContractType::Forex }),
        }
    }

    /// Coerce the proxy to a [`Crypto`] proxy, failing if another variant
    /// is held.
    pub fn crypto(self) -> (r: Result<Proxy<Crypto>, WrongContractType>)
        ensures
            self.inner matches Contract::Crypto(t) ==> (r matches Ok(p) && p.inner == t),
            !(self.inner is Crypto) ==> r == Err::<Proxy<Crypto>, WrongContractType>(
                (WrongContractType { expected: ContractType::Crypto }),
            ),
    {
        match self.inner {
            Contract::Crypto(t) => Ok(Proxy::<Crypto> { inner: t }),
            _ => Err(WrongContractType { expected: ContractType::Crypto }),
        }
    }

    /// Coerce the proxy to a [`Stock`] proxy, failing if another variant
    /// is held.
    pub fn stock(self) -> (r: Result<Proxy<Stock>, WrongContractType>)
        ensures
            self.inner matches Contract::Stock(t) ==> (r matches Ok(p) && p.inner == t),
            !(self.inner is Stock) ==> r == Err::<Proxy<Stock>, WrongContractType>(
                (WrongContractType { expected: ContractType::Stock }),
            ),
    {
        match self.inner {
            Contract::Stock(t) => Ok(Proxy::<Stock> { inner: t }),
            _ => Err(WrongContractType { expected: ContractType::Stock }),
        }
    }

    /// Coerce the proxy to an [`Index`] proxy, failing if another variant
    /// is held.
    pub fn index(self) -> (r: Result<Proxy<Index>, WrongContractType>)
        ensures
            self.inner matches Contract::Index(t) ==> (r matches Ok(p) && p.inner == t),
            !(self.inner is Index) ==> r == Err::<Proxy<Index>, WrongContractType>(
                (WrongContractType { expected: ContractType::Index }),
            ),
    {
        match self.inner {
            Contract::Index(t) => Ok(Proxy::<Index> { inner: t }),
            _ => Err(WrongContractType { expected: ContractType::Index }),
        }
    }

    /// Coerce the proxy to a [`Commodity`] proxy, failing if another
    /// variant is held.
    pub fn commodity(self) -> (r: Result<Proxy<Commodity>, WrongContractType>)
        ensures
            self.inner matches Contract::Commodity(t) ==> (r matches Ok(p) && p.inner == t),
            !(self.inner is Commodity) ==> r == Err::<Proxy<Commodity>, WrongContractType>(
                (WrongContractType { expected: ContractType::Commodity }),
            ),
    {
        match self.inner {
            Contract::Commodity(t) => Ok(Proxy::<Commodity> { inner: t }),
            _ => Err(WrongContractType { expected: ContractType::Commodity }),
        }
    }

    /// Coerce the proxy to a [`SecFuture`] proxy, failing if another
    /// variant is held.
    pub fn sec_future(self) -> (r: Result<Proxy<SecFuture>, WrongContractType>)
        ensures
            self.inner matches Contract::SecFuture(t) ==> (r matches Ok(p) && p.inner == t),
            !(self.inner is SecFuture) ==> r == Err::<Proxy<SecFuture>, WrongContractType>(
                (WrongContractType { expected: ContractType::SecFuture }),
            ),
    {
        match self.inner {
            Contract::SecFuture(t) => Ok(Proxy::<SecFuture> { inner: t }),
            _ => Err(WrongContractType { expected: ContractType::SecFuture }),
        }
    }

    /// Coerce the proxy to a [`SecOption`] proxy, failing if another
    /// variant is held.
    pub fn sec_option(self) -> (r: Result<Proxy<SecOption>, WrongContractType>)
        ensures
            self.inner matches Contract::SecOption(t) ==> (r matches Ok(p) && p.inner == t),
            !(self.inner is SecOption) ==> r == Err::<Proxy<SecOption>, WrongContractType>(
                (WrongContractType { expected: ContractType::SecOption }),
            ),
    {
        match self.inner {
            Contract::SecOption(t) => Ok(Proxy::<SecOption> { inner: t }),
            _ => Err(WrongContractType { expected: ContractType::SecOption }),
        }
    }
}

impl Proxy<Forex> {
    /// Get the [`Forex`] trading class.
    pub fn trading_class(&self) -> (r: &str)
        ensures
            r@ == self.inner.trading_class@,
    {
        self.inner.trading_class.as_str()
    }
}

impl Proxy<Crypto> {
    /// Get the [`Crypto`] trading class.
    pub fn trading_class(&self) -> (r: &str)
        ensures
            r@ == self.inner.trading_class@,
    {
        self.inner.trading_class.as_str()
    }
}

impl Proxy<Stock> {
    /// Get the [`Stock`] trading class.
    pub fn trading_class(&self) -> (r: &str)
        ensures
            r@ == self.inner.trading_class@,
    {
        self.inner.trading_class.as_str()
    }

    /// Get the [`Stock`] primary exchange.
    pub fn primary_exchange(&self) -> (r: Primary)
        ensures
            r == self.inner.primary_exchange,
    {
        self.inner.primary_exchange
    }
}

impl Proxy<Commodity> {
    /// Get the [`Commodity`] trading class.
    pub fn trading_class(&self) -> (r: &str)
        ensures
            r@ == self.inner.trading_class@,
    {
        self.inner.trading_class.as_str()
    }
}

impl Proxy<SecFuture> {
    /// Get the [`SecFuture`] trading class.
    pub fn trading_class(&self) -> (r: &str)
        ensures
            r@ == self.inner.trading_class@,
    {
        self.inner.trading_class.as_str()
    }

    /// Get the [`SecFuture`] expiration date.
    pub fn expiration_date(&self) -> (r: Date)
        ensures
            r == self.inner.expiration_date,
    {
        self.inner.expiration_date
    }

    /// Get the [`SecFuture`] multiplier.
    pub fn multiplier(&self) -> (r: u32)
        ensures
            r == self.inner.multiplier,
    {
        self.inner.multiplier
    }
}

impl Proxy<SecOption> {
    /// Get the [`SecOption`] trading class.
    pub fn trading_class(&self) -> (r: &str)
        ensures
            r@ == spec_option_inner(self.inner).trading_class@,
    {
        self.inner.as_inner_ref().trading_class.as_str()
    }

    /// Get the [`SecOption`] expiration date.
    pub fn expiration_date(&self) -> (r: Date)
        ensures
            r == spec_option_inner(self.inner).expiration_date,
    {
        self.inner.as_inner_ref().expiration_date
    }

    /// Get the [`SecOption`] strike price.
    pub fn strike(&self) -> (r: Decimal)
        ensures
            r == spec_option_inner(self.inner).strike,
    {
        self.inner.as_inner_ref().strike
    }

    /// Return true if the [`SecOption`] is a call.
    pub fn is_call(&self) -> (r: bool)
        ensures
            r == self.inner.spec_is_call(),
    {
        self.inner.is_call()
    }

    /// Return true if the [`SecOption`] is a put.
    pub fn is_put(&self) -> (r: bool)
        ensures
            r == self.inner.spec_is_put(),
    {
        self.inner.is_put()
    }

    /// Get the [`SecOption`] multiplier.
    pub fn multiplier(&self) -> (r: u32)
        ensures
            r == spec_option_inner(self.inner).multiplier,
    {
        self.inner.as_inner_ref().multiplier
    }
}

} // verus!
