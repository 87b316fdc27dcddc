//! Exact decimal quantities held as plain integer values. Minimum tick
//! sizes and option strikes are prices quoted in decimal steps; holding
//! them as a scaled integer keeps their comparison exact. Callers that
//! need a binary floating-point value convert at the boundary.

use vstd::prelude::*;

verus! {

/// A decimal number `mantissa * 10^-scale`, e.g. `Decimal::new(25, 4)`
/// for a 0.0025 tick. Equality is structural: the representation is not
/// normalized, so `(10, 1)` and `(100, 2)` are distinct values.
#[derive(Debug, Clone, Copy, PartialEq, Eq, PartialOrd, Ord, Hash, Structural)]
pub struct Decimal {
    pub mantissa: i64,
    pub scale: u8,
}

impl Decimal {
    /// Build the decimal `mantissa * 10^-scale`.
    pub fn new(mantissa: i64, scale: u8) -> (r: Decimal)
        ensures
            r == (Decimal { mantissa, scale }),
    {
        Decimal { mantissa, scale }
    }

    /// A whole number, e.g. a strike of 72.
    pub fn whole(units: i64) -> (r: Decimal)
        ensures
            r == (Decimal { mantissa: units, scale: 0u8 }),
    {
        Decimal { mantissa: units, scale: 0 }
    }
}

} // verus!
