//! Building owned strings from character sequences.

use vstd::prelude::*;

verus! {

/// Relies on `String::from_iter` (via `Iterator::collect`): collecting
/// characters yields the string of exactly those characters, in order.
#[verifier::external_body]
pub(crate) fn string_from_chars(v: &Vec<char>) -> (r: String)
    ensures
        r@ == v@,
{
    v.iter().collect()
}

} // verus!
