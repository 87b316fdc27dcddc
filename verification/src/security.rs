//! The security capability interface: every concrete instrument record and
//! the contract sum type itself expose the shared accessor set, can be
//! wrapped into the sum type, and can be recovered from it by a fallible
//! narrowing. The narrowing contract is exact: it succeeds if and only if
//! the sum value holds the requested type, and then returns that value
//! unchanged.

use crate::contract::{
    spec_contract_id, spec_currency, spec_local_symbol, spec_long_name, spec_min_tick,
    spec_order_types, spec_symbol, spec_valid_exchanges, Contract, ContractType,
};
use crate::currency::Currency;
use crate::decimal::Decimal;
use crate::exchange::Routing;
use crate::ids::ContractId;
use crate::records::{Commodity, Crypto, Forex, Index, SecFuture, SecOption, Stock};
use vstd::prelude::*;

verus! {

/// The error of a failed narrowing: the sum type held a different variant
/// than the one requested. Carries the requested variant's tag.
#[derive(Debug, Clone, Copy, PartialEq, Eq, PartialOrd, Ord, Hash, Structural)]
pub struct WrongContractType {
    /// The variant the caller asked for.
    pub expected: ContractType,
}

/// A type that participates in the contract sum type: it can be wrapped
/// into a [`Contract`] and recovered from one by a fallible narrowing.
pub trait Valid: Sized {
    /// The place of this value in the contract sum type.
    spec fn as_contract(&self) -> Contract;

    /// Whether the sum-type value `c` holds this concrete type.
    spec fn wraps(c: Contract) -> bool;

    /// Wrapping a value always produces a contract this type can be
    /// recovered from.
    proof fn lemma_wraps(&self)
        ensures
            Self::wraps(self.as_contract()),
    ;

    /// Two values with the same place in the sum type are the same value.
    proof fn lemma_as_contract_injective(&self, other: &Self)
        requires
            self.as_contract() == other.as_contract(),
        ensures
            *self == *other,
    ;

    /// Wrap the value into the contract sum type.
    fn into_contract(self) -> (r: Contract)
        ensures
            r == self.as_contract(),
    ;

    /// Attempt to recover this concrete type from the sum type: succeeds
    /// with the original value exactly when the contract holds this type.
    fn from_contract(c: Contract) -> (r: Result<Self, WrongContractType>)
        ensures
            Self::wraps(c) ==> (r matches Ok(s) && s.as_contract() == c),
            !Self::wraps(c) ==> r is Err,
    ;
}

/// Attributes shared by any tradable contract or asset. All valid
/// contracts implement this trait; each accessor is a pure read of an
/// already-validated field, stated against the spec-level view of the
/// value's place in the sum type.
pub trait Security: Valid {
    /// Get the security's unique contract ID.
    fn contract_id(&self) -> (r: ContractId)
        ensures
            r == spec_contract_id(self.as_contract()),
    ;

    /// Get the security's minimum tick size.
    fn min_tick(&self) -> (r: Decimal)
        ensures
            r == spec_min_tick(self.as_contract()),
    ;

    /// Get the security's symbol.
    fn symbol(&self) -> (r: &str)
        ensures
            r@ == spec_symbol(self.as_contract()),
    ;

    /// Get the security's currency.
    fn currency(&self) -> (r: Currency)
        ensures
            r == spec_currency(self.as_contract()),
    ;

    /// Get the security's local symbol.
    fn local_symbol(&self) -> (r: &str)
        ensures
            r@ == spec_local_symbol(self.as_contract()),
    ;

    /// Get the security's long name.
    fn long_name(&self) -> (r: &str)
        ensures
            r@ == spec_long_name(self.as_contract()),
    ;

    /// Get the security's supported order-type codes.
    fn order_types(&self) -> (r: &Vec<String>)
        ensures
            r@ == spec_order_types(self.as_contract()),
    ;

    /// Get the security's valid exchanges.
    fn valid_exchanges(&self) -> (r: &Vec<Routing>)
        ensures
            r@ == spec_valid_exchanges(self.as_contract()),
    ;
}

/// Round trip through the sum type: wrapping any capability-typed value
/// into a [`Contract`] and narrowing that contract back to the same type
/// always succeeds and returns the original value.
pub fn wrap_narrow_round_trip<S: Security>(s: S) -> (r: Result<S, WrongContractType>)
    ensures
        r matches Ok(s2) && s2 == s,
{
    proof {
        s.lemma_wraps();
    }
    let ghost gs = s;
    let c = s.into_contract();
    let r = S::from_contract(c);
    proof {
        match &r {
            Ok(s2) => gs.lemma_as_contract_injective(s2),
            Err(_) => (),
        }
    }
    r
}

impl Valid for Forex {
    open spec fn as_contract(&self) -> Contract {
        Contract::Forex(*self)
    }

    open spec fn wraps(c: Contract) -> bool {
        c is Forex
    }

    proof fn lemma_wraps(&self) {
    }

    proof fn lemma_as_contract_injective(&self, other: &Self) {
    }

    fn into_contract(self) -> (r: Contract) {
        Contract::Forex(self)
    }

    fn from_contract(c: Contract) -> (r: Result<Self, WrongContractType>) {
        c.forex()
    }
}

impl Security for Forex {
    fn contract_id(&self) -> (r: ContractId) {
        self.contract_id
    }

    fn min_tick(&self) -> (r: Decimal) {
        self.min_tick
    }

    fn symbol(&self) -> (r: &str) {
        self.symbol.as_str()
    }

    fn currency(&self) -> (r: Currency) {
        self.currency
    }

    fn local_symbol(&self) -> (r: &str) {
        self.local_symbol.as_str()
    }

    fn long_name(&self) -> (r: &str) {
        self.long_name.as_str()
    }

    fn order_types(&self) -> (r: &Vec<String>) {
        &self.order_types
    }

    fn valid_exchanges(&self) -> (r: &Vec<Routing>) {
        &self.valid_exchanges
    }
}

impl Valid for Crypto {
    open spec fn as_contract(&self) -> Contract {
        Contract::Crypto(*self)
    }

    open spec fn wraps(c: Contract) -> bool {
        c is Crypto
    }

    proof fn lemma_wraps(&self) {
    }

    proof fn lemma_as_contract_injective(&self, other: &Self) {
    }

    fn into_contract(self) -> (r: Contract) {
        Contract::Crypto(self)
    }

    fn from_contract(c: Contract) -> (r: Result<Self, WrongContractType>) {
        c.crypto()
    }
}

impl Security for Crypto {
    fn contract_id(&self) -> (r: ContractId) {
        self.contract_id
    }

    fn min_tick(&self) -> (r: Decimal) {
        self.min_tick
    }

    fn symbol(&self) -> (r: &str) {
        self.symbol.as_str()
    }

    fn currency(&self) -> (r: Currency) {
        self.currency
    }

    fn local_symbol(&self) -> (r: &str) {
        self.local_symbol.as_str()
    }

    fn long_name(&self) -> (r: &str) {
        self.long_name.as_str()
    }

    fn order_types(&self) -> (r: &Vec<String>) {
        &self.order_types
    }

    fn valid_exchanges(&self) -> (r: &Vec<Routing>) {
        &self.valid_exchanges
    }
}

impl Valid for Stock {
    open spec fn as_contract(&self) -> Contract {
        Contract::Stock(*self)
    }

    open spec fn wraps(c: Contract) -> bool {
        c is Stock
    }

    proof fn lemma_wraps(&self) {
    }

    proof fn lemma_as_contract_injective(&self, other: &Self) {
    }

    fn into_contract(self) -> (r: Contract) {
        Contract::Stock(self)
    }

    fn from_contract(c: Contract) -> (r: Result<Self, WrongContractType>) {
        c.stock()
    }
}

impl Security for Stock {
    fn contract_id(&self) -> (r: ContractId) {
        self.contract_id
    }

    fn min_tick(&self) -> (r: Decimal) {
        self.min_tick
    }

    fn symbol(&self) -> (r: &str) {
        self.symbol.as_str()
    }

    fn currency(&self) -> (r: Currency) {
        self.currency
    }

    fn local_symbol(&self) -> (r: &str) {
        self.local_symbol.as_str()
    }

    fn long_name(&self) -> (r: &str) {
        self.long_name.as_str()
    }

    fn order_types(&self) -> (r: &Vec<String>) {
        &self.order_types
    }

    fn valid_exchanges(&self) -> (r: &Vec<Routing>) {
        &self.valid_exchanges
    }
}

impl Valid for Index {
    open spec fn as_contract(&self) -> Contract {
        Contract::Index(*self)
    }

    open spec fn wraps(c: Contract) -> bool {
        c is Index
    }

    proof fn lemma_wraps(&self) {
    }

    proof fn lemma_as_contract_injective(&self, other: &Self) {
    }

    fn into_contract(self) -> (r: Contract) {
        Contract::Index(self)
    }

    fn from_contract(c: Contract) -> (r: Result<Self, WrongContractType>) {
        c.index()
    }
}

impl Security for Index {
    fn contract_id(&self) -> (r: ContractId) {
        self.contract_id
    }

    fn min_tick(&self) -> (r: Decimal) {
        self.min_tick
    }

    fn symbol(&self) -> (r: &str) {
        self.symbol.as_str()
    }

    fn currency(&self) -> (r: Currency) {
        self.currency
    }

    fn local_symbol(&self) -> (r: &str) {
        self.local_symbol.as_str()
    }

    fn long_name(&self) -> (r: &str) {
        self.long_name.as_str()
    }

    fn order_types(&self) -> (r: &Vec<String>) {
        &self.order_types
    }

    fn valid_exchanges(&self) -> (r: &Vec<Routing>) {
        &self.valid_exchanges
    }
}

impl Valid for SecFuture {
    open spec fn as_contract(&self) -> Contract {
        Contract::SecFuture(*self)
    }

    open spec fn wraps(c: Contract) -> bool {
        c is SecFuture
    }

    proof fn lemma_wraps(&self) {
    }

    proof fn lemma_as_contract_injective(&self, other: &Self) {
    }

    fn into_contract(self) -> (r: Contract) {
        Contract::SecFuture(self)
    }

    fn from_contract(c: Contract) -> (r: Result<Self, WrongContractType>) {
        c.secfuture()
    }
}

impl Security for SecFuture {
    fn contract_id(&self) -> (r: ContractId) {
        self.contract_id
    }

    fn min_tick(&self) -> (r: Decimal) {
        self.min_tick
    }

    fn symbol(&self) -> (r: &str) {
        self.symbol.as_str()
    }

    fn currency(&self) -> (r: Currency) {
        self.currency
    }

    fn local_symbol(&self) -> (r: &str) {
        self.local_symbol.as_str()
    }

    fn long_name(&self) -> (r: &str) {
        self.long_name.as_str()
    }

    fn order_types(&self) -> (r: &Vec<String>) {
        &self.order_types
    }

    fn valid_exchanges(&self) -> (r: &Vec<Routing>) {
        &self.valid_exchanges
    }
}

impl Valid for SecOption {
    open spec fn as_contract(&self) -> Contract {
        Contract::SecOption(*self)
    }

    open spec fn wraps(c: Contract) -> bool {
        c is SecOption
    }

    proof fn lemma_wraps(&self) {
    }

    proof fn lemma_as_contract_injective(&self, other: &Self) {
    }

    fn into_contract(self) -> (r: Contract) {
        Contract::SecOption(self)
    }

    fn from_contract(c: Contract) -> (r: Result<Self, WrongContractType>) {
        c.secoption()
    }
}

impl Security for SecOption {
    fn contract_id(&self) -> (r: ContractId) {
        self.as_inner_ref().contract_id
    }

    fn min_tick(&self) -> (r: Decimal) {
        self.as_inner_ref().min_tick
    }

    fn symbol(&self) -> (r: &str) {
        self.as_inner_ref().symbol.as_str()
    }

    fn currency(&self) -> (r: Currency) {
        self.as_inner_ref().currency
    }

    fn local_symbol(&self) -> (r: &str) {
        self.as_inner_ref().local_symbol.as_str()
    }

    fn long_name(&self) -> (r: &str) {
        self.as_inner_ref().long_name.as_str()
    }

    fn order_types(&self) -> (r: &Vec<String>) {
        &self.as_inner_ref().order_types
    }

    fn valid_exchanges(&self) -> (r: &Vec<Routing>) {
        &self.as_inner_ref().valid_exchanges
    }
}

impl Valid for Commodity {
    open spec fn as_contract(&self) -> Contract {
        Contract::Commodity(*self)
    }

    open spec fn wraps(c: Contract) -> bool {
        c is Commodity
    }

    proof fn lemma_wraps(&self) {
    }

    proof fn lemma_as_contract_injective(&self, other: &Self) {
    }

    fn into_contract(self) -> (r: Contract) {
        Contract::Commodity(self)
    }

    fn from_contract(c: Contract) -> (r: Result<Self, WrongContractType>) {
        c.commodity()
    }
}

impl Security for Commodity {
    fn contract_id(&self) -> (r: ContractId) {
        self.contract_id
    }

    fn min_tick(&self) -> (r: Decimal) {
        self.min_tick
    }

    fn symbol(&self) -> (r: &str) {
        self.symbol.as_str()
    }

    fn currency(&self) -> (r: Currency) {
        self.currency
    }

    fn local_symbol(&self) -> (r: &str) {
        self.local_symbol.as_str()
    }

    fn long_name(&self) -> (r: &str) {
        self.long_name.as_str()
    }

    fn order_types(&self) -> (r: &Vec<String>) {
        &self.order_types
    }

    fn valid_exchanges(&self) -> (r: &Vec<Routing>) {
        &self.valid_exchanges
    }
}

} // verus!
