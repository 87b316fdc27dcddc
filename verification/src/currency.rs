//! Opaque currency-code enumeration. The instrument model only stores and
//! compares currencies; exchange rates and formatting are not its business.

use vstd::prelude::*;

verus! {

/// An ISO-style currency code.
#[derive(Debug, Clone, Copy, PartialEq, Eq, PartialOrd, Ord, Hash, Structural)]
pub enum Currency {
    Aud,
    Cad,
    Chf,
    Cnh,
    Dkk,
    Eur,
    Gbp,
    Hkd,
    Jpy,
    Krw,
    Mxn,
    Nok,
    Nzd,
    Sek,
    Usd,
}

} // verus!
