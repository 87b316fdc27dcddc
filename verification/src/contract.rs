//! The contract sum type: a closed tagged union over the seven concrete
//! instrument records, with per-variant fallible narrowing and a spec-level
//! view of every shared field. Narrowing is a tag check: it either hands
//! back the held record untouched or fails with the requested variant's
//! tag.

use crate::currency::Currency;
use crate::decimal::Decimal;
use crate::exchange::Routing;
use crate::ids::ContractId;
use crate::records::{
    spec_option_inner, Commodity, Crypto, Forex, Index, SecFuture, SecOption, Stock,
};
use crate::security::{Security, Valid, WrongContractType};
use vstd::prelude::*;

verus! {

/// Wrapper enum for all possible contracts available in the API.
#[derive(Debug, Clone, PartialEq, PartialOrd)]
pub enum Contract {
    /// A [`Forex`] contract.
    Forex(Forex),
    /// A [`Crypto`] contract.
    Crypto(Crypto),
    /// A [`Stock`] contract.
    Stock(Stock),
    /// An [`Index`] contract.
    Index(Index),
    /// A [`SecFuture`] contract.
    SecFuture(SecFuture),
    /// A [`SecOption`] contract.
    SecOption(SecOption),
    /// A [`Commodity`] contract.
    Commodity(Commodity),
}

/// The asset-class tag of a contract, for consumption by reporting code.
#[derive(Debug, Clone, Copy, PartialEq, Eq, PartialOrd, Ord, Hash, Structural)]
pub enum ContractType {
    Forex,
    Crypto,
    Stock,
    Index,
    Commodity,
    SecFuture,
    SecOption,
}

/// The tag held by a contract value.
pub open spec fn spec_contract_type(c: Contract) -> ContractType {
    match c {
        Contract::Forex(_) => ContractType::Forex,
        Contract::Crypto(_) => ContractType::Crypto,
        Contract::Stock(_) => ContractType::Stock,
        Contract::Index(_) => ContractType::Index,
        Contract::SecFuture(_) => ContractType::SecFuture,
        Contract::SecOption(_) => ContractType::SecOption,
        Contract::Commodity(_) => ContractType::Commodity,
    }
}

/// The contract id of whichever variant is held.
pub open spec fn spec_contract_id(c: Contract) -> ContractId {
    match c {
        Contract::Forex(t) => t.contract_id,
        Contract::Crypto(t) => t.contract_id,
        Contract::Stock(t) => t.contract_id,
        Contract::Index(t) => t.contract_id,
        Contract::SecFuture(t) => t.contract_id,
        Contract::SecOption(t) => spec_option_inner(t).contract_id,
        Contract::Commodity(t) => t.contract_id,
    }
}

/// The minimum tick size of whichever variant is held.
pub open spec fn spec_min_tick(c: Contract) -> Decimal {
    match c {
        Contract::Forex(t) => t.min_tick,
        Contract::Crypto(t) => t.min_tick,
        Contract::Stock(t) => t.min_tick,
        Contract::Index(t) => t.min_tick,
        Contract::SecFuture(t) => t.min_tick,
        Contract::SecOption(t) => spec_option_inner(t).min_tick,
        Contract::Commodity(t) => t.min_tick,
    }
}

/// The symbol of whichever variant is held.
pub open spec fn spec_symbol(c: Contract) -> Seq<char> {
    match c {
        Contract::Forex(t) => t.symbol@,
        Contract::Crypto(t) => t.symbol@,
        Contract::Stock(t) => t.symbol@,
        Contract::Index(t) => t.symbol@,
        Contract::SecFuture(t) => t.symbol@,
        Contract::SecOption(t) => spec_option_inner(t).symbol@,
        Contract::Commodity(t) => t.symbol@,
    }
}

/// The currency of whichever variant is held.
pub open spec fn spec_currency(c: Contract) -> Currency {
    match c {
        Contract::Forex(t) => t.currency,
        Contract::Crypto(t) => t.currency,
        Contract::Stock(t) => t.currency,
        Contract::Index(t) => t.currency,
        Contract::SecFuture(t) => t.currency,
        Contract::SecOption(t) => spec_option_inner(t).currency,
        Contract::Commodity(t) => t.currency,
    }
}

/// The local symbol of whichever variant is held.
pub open spec fn spec_local_symbol(c: Contract) -> Seq<char> {
    match c {
        Contract::Forex(t) => t.local_symbol@,
        Contract::Crypto(t) => t.local_symbol@,
        Contract::Stock(t) => t.local_symbol@,
        Contract::Index(t) => t.local_symbol@,
        Contract::SecFuture(t) => t.local_symbol@,
        Contract::SecOption(t) => spec_option_inner(t).local_symbol@,
        Contract::Commodity(t) => t.local_symbol@,
    }
}

/// The long name of whichever variant is held.
pub open spec fn spec_long_name(c: Contract) -> Seq<char> {
    match c {
        Contract::Forex(t) => t.long_name@,
        Contract::Crypto(t) => t.long_name@,
        Contract::Stock(t) => t.long_name@,
        Contract::Index(t) => t.long_name@,
        Contract::SecFuture(t) => t.long_name@,
        Contract::SecOption(t) => spec_option_inner(t).long_name@,
        Contract::Commodity(t) => t.long_name@,
    }
}

/// The supported order-type codes of whichever variant is held.
pub open spec fn spec_order_types(c: Contract) -> Seq<String> {
    match c {
        Contract::Forex(t) => t.order_types@,
        Contract::Crypto(t) => t.order_types@,
        Contract::Stock(t) => t.order_types@,
        Contract::Index(t) => t.order_types@,
        Contract::SecFuture(t) => t.order_types@,
        Contract::SecOption(t) => spec_option_inner(t).order_types@,
        Contract::Commodity(t) => t.order_types@,
    }
}

/// The valid routing destinations of whichever variant is held.
pub open spec fn spec_valid_exchanges(c: Contract) -> Seq<Routing> {
    match c {
        Contract::Forex(t) => t.valid_exchanges@,
        Contract::Crypto(t) => t.valid_exchanges@,
        Contract::Stock(t) => t.valid_exchanges@,
        Contract::Index(t) => t.valid_exchanges@,
        Contract::SecFuture(t) => t.valid_exchanges@,
        Contract::SecOption(t) => spec_option_inner(t).valid_exchanges@,
        Contract::Commodity(t) => t.valid_exchanges@,
    }
}

impl Contract {
    /// Coerce the contract reference to a [`Forex`] reference, failing if
    /// another variant is held.
    pub fn forex_ref(&self) -> (r: Result<&Forex, WrongContractType>)
        ensures
            (*self) matches Contract::Forex(t) ==> (r matches Ok(x) && *x == t),
            !((*self) is Forex) ==> r == Err::<&Forex, WrongContractType>(
                (WrongContractType { expected: ContractType::Forex }),
            ),
    {
        match self {
            Contract::Forex(t) => Ok(t),
            _ => Err(WrongContractType { expected: ContractType::Forex }),
        }
    }

    /// Coerce the contract to a [`Forex`], failing if another variant is
    /// held.
    pub fn forex(self) -> (r: Result<Forex, WrongContractType>)
        ensures
            self matches Contract::Forex(t) ==> r == Ok::<Forex, WrongContractType>(t),
            !(self is Forex) ==> r == Err::<Forex, WrongContractType>(
                (WrongContractType { expected: ContractType::Forex }),
            ),
    {
        match self {
            Contract::Forex(t) => Ok(t),
            _ => Err(WrongContractType { expected: ContractType::Forex }),
        }
    }

    /// Coerce the contract reference to a [`Crypto`] reference, failing if
    /// another variant is held.
    pub fn crypto_ref(&self) -> (r: Result<&Crypto, WrongContractType>)
        ensures
            (*self) matches Contract::Crypto(t) ==> (r matches Ok(x) && *x == t),
            !((*self) is Crypto) ==> r == Err::<&Crypto, WrongContractType>(
                (WrongContractType { expected: ContractType::Crypto }),
            ),
    {
        match self {
            Contract::Crypto(t) => Ok(t),
            _ => Err(WrongContractType { expected: ContractType::Crypto }),
        }
    }

    /// Coerce the contract to a [`Crypto`], failing if another variant is
    /// held.
    pub fn crypto(self) -> (r: Result<Crypto, WrongContractType>)
        ensures
            self matches Contract::Crypto(t) ==> r == Ok::<Crypto, WrongContractType>(t),
            !(self is Crypto) ==> r == Err::<Crypto, WrongContractType>(
                (WrongContractType { expected: ContractType::Crypto }),
            ),
    {
        match self {
            Contract::Crypto(t) => Ok(t),
            _ => Err(WrongContractType { expected: ContractType::Crypto }),
        }
    }

    /// Coerce the contract reference to a [`Stock`] reference, failing if
    /// another variant is held.
    pub fn stock_ref(&self) -> (r: Result<&Stock, WrongContractType>)
        ensures
            (*self) matches Contract::Stock(t) ==> (r matches Ok(x) && *x == t),
            !((*self) is Stock) ==> r == Err::<&Stock, WrongContractType>(
                (WrongContractType { expected: ContractType::Stock }),
            ),
    {
        match self {
            Contract::Stock(t) => Ok(t),
            _ => Err(WrongContractType { expected: ContractType::Stock }),
        }
    }

    /// Coerce the contract to a [`Stock`], failing if another variant is
    /// held.
    pub fn stock(self) -> (r: Result<Stock, WrongContractType>)
        ensures
            self matches Contract::Stock(t) ==> r == Ok::<Stock, WrongContractType>(t),
            !(self is Stock) ==> r == Err::<Stock, WrongContractType>(
                (WrongContractType { expected: ContractType::Stock }),
            ),
    {
        match self {
            Contract::Stock(t) => Ok(t),
            _ => Err(WrongContractType { expected: ContractType::Stock }),
        }
    }

    /// Coerce the contract reference to an [`Index`] reference, failing if
    /// another variant is held.
    pub fn index_ref(&self) -> (r: Result<&Index, WrongContractType>)
        ensures
            (*self) matches Contract::Index(t) ==> (r matches Ok(x) && *x == t),
            !((*self) is Index) ==> r == Err::<&Index, WrongContractType>(
                (WrongContractType { expected: ContractType::Index }),
            ),
    {
        match self {
            Contract::Index(t) => Ok(t),
            _ => Err(WrongContractType { expected: ContractType::Index }),
        }
    }

    /// Coerce the contract to an [`Index`], failing if another variant is
    /// held.
    pub fn index(self) -> (r: Result<Index, WrongContractType>)
        ensures
            self matches Contract::Index(t) ==> r == Ok::<Index, WrongContractType>(t),
            !(self is Index) ==> r == Err::<Index, WrongContractType>(
                (WrongContractType { expected: ContractType::Index }),
            ),
    {
        match self {
            Contract::Index(t) => Ok(t),
            _ => Err(WrongContractType { expected: ContractType::Index }),
        }
    }

    /// Coerce the contract reference to a [`SecFuture`] reference, failing
    /// if another variant is held.
    pub fn secfuture_ref(&self) -> (r: Result<&SecFuture, WrongContractType>)
        ensures
            (*self) matches Contract::SecFuture(t) ==> (r matches Ok(x) && *x == t),
            !((*self) is SecFuture) ==> r == Err::<&SecFuture, WrongContractType>(
                (WrongContractType { expected: ContractType::SecFuture }),
            ),
    {
        match self {
            Contract::SecFuture(t) => Ok(t),
            _ => Err(WrongContractType { expected: ContractType::SecFuture }),
        }
    }

    /// Coerce the contract to a [`SecFuture`], failing if another variant
    /// is held.
    pub fn secfuture(self) -> (r: Result<SecFuture, WrongContractType>)
        ensures
            self matches Contract::SecFuture(t) ==> r == Ok::<SecFuture, WrongContractType>(t),
            !(self is SecFuture) ==> r == Err::<SecFuture, WrongContractType>(
                (WrongContractType { expected: ContractType::SecFuture }),
            ),
    {
        match self {
            Contract::SecFuture(t) => Ok(t),
            _ => Err(WrongContractType { expected: ContractType::SecFuture }),
        }
    }

    /// Coerce the contract reference to a [`SecOption`] reference, failing
    /// if another variant is held.
    pub fn secoption_ref(&self) -> (r: Result<&SecOption, WrongContractType>)
        ensures
            (*self) matches Contract::SecOption(t) ==> (r matches Ok(x) && *x == t),
            !((*self) is SecOption) ==> r == Err::<&SecOption, WrongContractType>(
                (WrongContractType { expected: ContractType::SecOption }),
            ),
    {
        match self {
            Contract::SecOption(t) => Ok(t),
            _ => Err(WrongContractType { expected: ContractType::SecOption }),
        }
    }

    /// Coerce the contract to a [`SecOption`], failing if another variant
    /// is held.
    pub fn secoption(self) -> (r: Result<SecOption, WrongContractType>)
        ensures
            self matches Contract::SecOption(t) ==> r == Ok::<SecOption, WrongContractType>(t),
            !(self is SecOption) ==> r == Err::<SecOption, WrongContractType>(
                (WrongContractType { expected: ContractType::SecOption }),
            ),
    {
        match self {
            Contract::SecOption(t) => Ok(t),
            _ => Err(WrongContractType { expected: ContractType::SecOption }),
        }
    }

    /// Coerce the contract reference to a [`Commodity`] reference, failing
    /// if another variant is held.
    pub fn commodity_ref(&self) -> (r: Result<&Commodity, WrongContractType>)
        ensures
            (*self) matches Contract::Commodity(t) ==> (r matches Ok(x) && *x == t),
            !((*self) is Commodity) ==> r == Err::<&Commodity, WrongContractType>(
                (WrongContractType { expected: ContractType::Commodity }),
            ),
    {
        match self {
            Contract::Commodity(t) => Ok(t),
            _ => Err(WrongContractType { expected: ContractType::Commodity }),
        }
    }

    /// Coerce the contract to a [`Commodity`], failing if another variant
    /// is held.
    pub fn commodity(self) -> (r: Result<Commodity, WrongContractType>)
        ensures
            self matches Contract::Commodity(t) ==> r == Ok::<Commodity, WrongContractType>(t),
            !(self is Commodity) ==> r == Err::<Commodity, WrongContractType>(
                (WrongContractType { expected: ContractType::Commodity }),
            ),
    {
        match self {
            Contract::Commodity(t) => Ok(t),
            _ => Err(WrongContractType { expected: ContractType::Commodity }),
        }
    }
}

/// A contract wraps exactly its own variant's concrete type: narrowing to
/// the held variant is the one that can succeed, and narrowing to each of
/// the six others fails.
pub proof fn lemma_variants_exclusive(c: Contract)
    ensures
        <Forex as Valid>::wraps(c) <==> spec_contract_type(c) == ContractType::Forex,
        <Crypto as Valid>::wraps(c) <==> spec_contract_type(c) == ContractType::Crypto,
        <Stock as Valid>::wraps(c) <==> spec_contract_type(c) == ContractType::Stock,
        <Index as Valid>::wraps(c) <==> spec_contract_type(c) == ContractType::Index,
        <SecFuture as Valid>::wraps(c) <==> spec_contract_type(c) == ContractType::SecFuture,
        <SecOption as Valid>::wraps(c) <==> spec_contract_type(c) == ContractType::SecOption,
        <Commodity as Valid>::wraps(c) <==> spec_contract_type(c) == ContractType::Commodity,
{
}

impl Valid for Contract {
    open spec fn as_contract(&self) -> Contract {
        *self
    }

    open spec fn wraps(c: Contract) -> bool {
        true
    }

    proof fn lemma_wraps(&self) {
    }

    proof fn lemma_as_contract_injective(&self, other: &Self) {
    }

    fn into_contract(self) -> (r: Contract) {
        self
    }

    fn from_contract(c: Contract) -> (r: Result<Self, WrongContractType>) {
        Ok(c)
    }
}

impl Security for Contract {
    fn contract_id(&self) -> (r: ContractId) {
        match self {
            Contract::Forex(t) => t.contract_id,
            Contract::Crypto(t) => t.contract_id,
            Contract::Stock(t) => t.contract_id,
            Contract::Index(t) => t.contract_id,
            Contract::SecFuture(t) => t.contract_id,
            Contract::SecOption(t) => t.as_inner_ref().contract_id,
            Contract::Commodity(t) => t.contract_id,
        }
    }

    fn min_tick(&self) -> (r: Decimal) {
        match self {
            Contract::Forex(t) => t.min_tick,
            Contract::Crypto(t) => t.min_tick,
            Contract::Stock(t) => t.min_tick,
            Contract::Index(t) => t.min_tick,
            Contract::SecFuture(t) => t.min_tick,
            Contract::SecOption(t) => t.as_inner_ref().min_tick,
            Contract::Commodity(t) => t.min_tick,
        }
    }

    fn symbol(&self) -> (r: &str) {
        match self {
            Contract::Forex(t) => t.symbol.as_str(),
            Contract::Crypto(t) => t.symbol.as_str(),
            Contract::Stock(t) => t.symbol.as_str(),
            Contract::Index(t) => t.symbol.as_str(),
            Contract::SecFuture(t) => t.symbol.as_str(),
            Contract::SecOption(t) => t.as_inner_ref().symbol.as_str(),
            Contract::Commodity(t) => t.symbol.as_str(),
        }
    }

    fn currency(&self) -> (r: Currency) {
        match self {
            Contract::Forex(t) => t.currency,
            Contract::Crypto(t) => t.currency,
            Contract::Stock(t) => t.currency,
            Contract::Index(t) => t.currency,
            Contract::SecFuture(t) => t.currency,
            Contract::SecOption(t) => t.as_inner_ref().currency,
            Contract::Commodity(t) => t.currency,
        }
    }

    fn local_symbol(&self) -> (r: &str) {
        match self {
            Contract::Forex(t) => t.local_symbol.as_str(),
            Contract::Crypto(t) => t.local_symbol.as_str(),
            Contract::Stock(t) => t.local_symbol.as_str(),
            Contract::Index(t) => t.local_symbol.as_str(),
            Contract::SecFuture(t) => t.local_symbol.as_str(),
            Contract::SecOption(t) => t.as_inner_ref().local_symbol.as_str(),
            Contract::Commodity(t) => t.local_symbol.as_str(),
        }
    }

    fn long_name(&self) -> (r: &str) {
        match self {
            Contract::Forex(t) => t.long_name.as_str(),
            Contract::Crypto(t) => t.long_name.as_str(),
            Contract::Stock(t) => t.long_name.as_str(),
            Contract::Index(t) => t.long_name.as_str(),
            Contract::SecFuture(t) => t.long_name.as_str(),
            Contract::SecOption(t) => t.as_inner_ref().long_name.as_str(),
            Contract::Commodity(t) => t.long_name.as_str(),
        }
    }

    fn order_types(&self) -> (r: &Vec<String>) {
        match self {
            Contract::Forex(t) => &t.order_types,
            Contract::Crypto(t) => &t.order_types,
            Contract::Stock(t) => &t.order_types,
            Contract::Index(t) => &t.order_types,
            Contract::SecFuture(t) => &t.order_types,
            Contract::SecOption(t) => &t.as_inner_ref().order_types,
            Contract::Commodity(t) => &t.order_types,
        }
    }

    fn valid_exchanges(&self) -> (r: &Vec<Routing>) {
        match self {
            Contract::Forex(t) => &t.valid_exchanges,
            Contract::Crypto(t) => &t.valid_exchanges,
            Contract::Stock(t) => &t.valid_exchanges,
            Contract::Index(t) => &t.valid_exchanges,
            Contract::SecFuture(t) => &t.valid_exchanges,
            Contract::SecOption(t) => &t.as_inner_ref().valid_exchanges,
            Contract::Commodity(t) => &t.valid_exchanges,
        }
    }
}

} // verus!
