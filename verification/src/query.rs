//! Contract lookup queries. A query is either a broker contract id with a
//! routing destination or a FIGI; free text is disambiguated by its first
//! character, since a FIGI always begins with a letter. An empty string is
//! its own error: there is no way to tell which form was meant.

use crate::exchange::Routing;
use crate::figi::{lemma_figi_view_injective, spec_valid_figi, Figi, InvalidFigi};
use crate::ids::{spec_digits_value, spec_is_digit, ContractId, ParseError};
use crate::ids::{spec_all_digits, spec_digits_part, spec_parse_i64};
use crate::ids::{lemma_digits_value_nonneg, lemma_parse_int_literal, parse_i64};
use crate::ids::{lemma_render_u64, render_i64, spec_render_i64};
use crate::text::string_from_chars;
use vstd::prelude::*;

verus! {

/// A request for resolving a full contract: either a broker contract id
/// with a routing destination, or a FIGI. When parsed from a string, the
/// routing defaults to [`Routing::Smart`].
#[derive(Debug, Clone, Copy, PartialEq, Eq, PartialOrd, Ord, Hash)]
pub enum Query {
    /// A broker contract id with which to make a query.
    IbContractId(ContractId, Routing),
    /// A FIGI.
    Figi(Figi),
}

/// The ways a textual query can be invalid.
#[derive(Debug, Clone, Copy, PartialEq, Eq)]
pub enum InvalidQuery {
    /// The input led with a numeric character but failed to parse as a
    /// contract id.
    IbContractId(ParseError),
    /// The input led with a non-numeric character but failed FIGI
    /// validation.
    Figi(InvalidFigi),
    /// The input was empty, so it is impossible to tell whether a contract
    /// id or a FIGI was meant.
    Empty,
}

/// Whether a character counts as numeric for the leading-character
/// disambiguation. On ASCII these are exactly the digits; the behaviour on
/// other Unicode number characters is pinned only at the call.
pub uninterp spec fn spec_char_is_numeric(c: char) -> bool;

/// Relies on `char::is_numeric`: true exactly for characters in the
/// Unicode number categories, a function of the character alone; among
/// ASCII characters those are the digits `'0'..='9'`.
#[verifier::external_body]
fn char_is_numeric(c: char) -> (r: bool)
    ensures
        r == spec_char_is_numeric(c),
        (c as u32) < 128 ==> (r <==> spec_is_digit(c)),
{
    c.is_numeric()
}

/// Parse a query from free text: a numeric first character means a
/// contract id with smart routing, anything else is tried as a FIGI, and
/// an empty input is rejected as ambiguous.
pub fn parse_query(s: &str) -> (r: Result<Query, InvalidQuery>)
    ensures
        s@.len() == 0 <==> r == Err::<Query, InvalidQuery>(InvalidQuery::Empty),
        s@.len() > 0 && spec_char_is_numeric(s@[0]) ==> r == (match spec_parse_i64(s@) {
            Ok(v) => Ok::<Query, InvalidQuery>(
                Query::IbContractId(ContractId(v), Routing::Smart),
            ),
            Err(e) => Err::<Query, InvalidQuery>(InvalidQuery::IbContractId(e)),
        }),
        s@.len() > 0 && !spec_char_is_numeric(s@[0]) && spec_valid_figi(s@) ==> (r matches Ok(q)
            && q matches Query::Figi(f) && f@ == s@),
        s@.len() > 0 && !spec_char_is_numeric(s@[0]) && s@.len() != 12 ==> r == Err::<
            Query,
            InvalidQuery,
        >(InvalidQuery::Figi(InvalidFigi::Length)),
        s@.len() > 0 && !spec_char_is_numeric(s@[0]) && s@.len() == 12 && !spec_valid_figi(s@)
            ==> r == Err::<Query, InvalidQuery>(InvalidQuery::Figi(InvalidFigi::Character)),
        s@.len() > 0 && spec_all_digits(s@) && spec_digits_value(s@) <= i64::MAX ==> r == Ok::<
            Query,
            InvalidQuery,
        >(Query::IbContractId(ContractId(spec_digits_value(s@) as i64), Routing::Smart)),
        spec_valid_figi(s@) ==> (r matches Ok(q) && q matches Query::Figi(f) && f@ == s@),
{
    let n = s.unicode_len();
    if n == 0 {
        return Err(InvalidQuery::Empty);
    }
    let first = s.get_char(0);
    proof {
        if spec_all_digits(s@) {
            assert(spec_is_digit(s@[0]));
        }
    }
    if char_is_numeric(first) {
        proof {
            if s@.len() > 0 && spec_all_digits(s@) && spec_digits_value(s@) <= i64::MAX {
                assert(spec_digits_part(s@) =~= s@);
                lemma_digits_value_nonneg(s@);
                lemma_parse_int_literal(s@);
            }
        }
        match parse_i64(s) {
            Ok(v) => Ok(Query::IbContractId(ContractId(v), Routing::Smart)),
            Err(e) => Err(InvalidQuery::IbContractId(e)),
        }
    } else {
        match Figi::parse(s) {
            Ok(f) => Ok(Query::Figi(f)),
            Err(e) => Err(InvalidQuery::Figi(e)),
        }
    }
}

impl core::str::FromStr for Query {
    type Err = InvalidQuery;

    fn from_str(s: &str) -> Result<Self, Self::Err> {
        parse_query(s)
    }
}

/// Render a query as the text [`parse_query`] reads: the decimal contract
/// id, a leading minus for a negative id, or the FIGI's characters. The
/// routing of a contract-id query has no textual form.
pub fn render_query(q: &Query) -> (r: String)
    ensures
        (*q) matches Query::IbContractId(id, _) ==> r@ == spec_render_i64(id.0 as int),
        (*q) matches Query::Figi(f) ==> r@ == f@,
{
    match q {
        Query::IbContractId(id, _) => {
            let v = render_i64(id.0);
            string_from_chars(&v)
        },
        Query::Figi(f) => f.to_text(),
    }
}

/// The text round trip: rendering a query and parsing the text back
/// yields the original query. This holds of every query the textual form
/// can express: a FIGI query, or a contract-id query with a non-negative
/// id and the default smart routing (parsing always assigns smart
/// routing, and a negative id renders with a sign no query text allows).
pub fn query_text_round_trip(q: &Query) -> (r: Result<Query, InvalidQuery>)
    ensures
        (*q) matches Query::IbContractId(id, rt) ==> ((id.0 >= 0 && rt == Routing::Smart)
            ==> r == Ok::<Query, InvalidQuery>(*q)),
        (*q) matches Query::Figi(f) ==> (f.valid() ==> r == Ok::<Query, InvalidQuery>(*q)),
{
    let s = render_query(q);
    let r = parse_query(s.as_str());
    proof {
        match *q {
            Query::IbContractId(id, rt) => {
                if id.0 >= 0 {
                    lemma_render_u64(id.0 as int);
                }
            },
            Query::Figi(f) => {
                if f.valid() {
                    match r {
                        Ok(Query::Figi(f2)) => lemma_figi_view_injective(f, f2),
                        _ => (),
                    }
                }
            },
        }
    }
    r
}

} // verus!
