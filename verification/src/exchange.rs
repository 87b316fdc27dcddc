//! Opaque venue enumerations: the primary exchanges an instrument can be
//! listed on and the routing destinations an order can be sent to. The
//! instrument model only stores and compares these values.

use vstd::prelude::*;

verus! {

/// A specific listing exchange / trading venue.
#[derive(Debug, Clone, Copy, PartialEq, Eq, PartialOrd, Ord, Hash, Structural)]
pub enum Primary {
    Amex,
    Arca,
    Bats,
    Cboe,
    Globex,
    Idealpro,
    Iex,
    Nasdaq,
    Nyse,
    Paxos,
}

/// A destination an order may be routed to: either broker-optimized venue
/// selection ("smart" routing, the default) or a specific exchange.
#[derive(Debug, Clone, Copy, PartialEq, Eq, PartialOrd, Ord, Hash, Structural)]
pub enum Routing {
    /// Broker-optimized venue selection.
    Smart,
    /// Direct routing to one specific exchange.
    Primary(Primary),
}

} // verus!
