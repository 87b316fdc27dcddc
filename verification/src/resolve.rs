//! The decision step of the query-resolution protocol. Sending a query
//! and awaiting the broker's contract response are the connection's
//! business; this module owns the one decision the protocol makes: narrow
//! the received contract to the caller-chosen concrete type, or fail with
//! a single unified error that carries the query that produced the
//! mismatch.

use crate::contract::Contract;
use crate::query::Query;
use crate::security::Security;
use vstd::prelude::*;

verus! {

/// The resolution protocol's terminal error: the broker returned a
/// contract of a different asset class than the one requested. Carries
/// the query that produced the mismatch, for diagnostics.
#[derive(Debug, Clone, Copy, PartialEq, Eq, PartialOrd, Ord, Hash)]
pub struct UnexpectedSecurityType {
    /// The query whose response held the wrong variant.
    pub query: Query,
}

/// Narrow the contract received for `query` to the caller-chosen concrete
/// type. Succeeds with the received record unchanged exactly when the
/// response holds that type; any variant-specific narrow error is folded
/// into the single unified mismatch error.
pub fn resolve_response<S: Security>(query: Query, response: Contract) -> (r: Result<
    S,
    UnexpectedSecurityType,
>)
    ensures
        S::wraps(response) ==> (r matches Ok(s) && s.as_contract() == response),
        !S::wraps(response) ==> r == Err::<S, UnexpectedSecurityType>(
            (UnexpectedSecurityType { query }),
        ),
{
    match S::from_contract(response) {
        Ok(s) => Ok(s),
        Err(_) => Err(UnexpectedSecurityType { query }),
    }
}

} // verus!
