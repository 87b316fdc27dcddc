//! Broker-assigned contract identifiers, industry security identifiers,
//! and a verified decimal-integer parser with the exact error behaviour of
//! the standard library's `i64` parser: an empty string, a string whose
//! digit part is missing or interrupted by a non-digit, and a value out of
//! the 64-bit range are each told apart.

use vstd::arithmetic::div_mod::lemma_fundamental_div_mod;
use vstd::prelude::*;

verus! {

/// A unique identifier used by the broker's trading systems to define a
/// specific contract.
#[derive(Debug, Clone, Copy, PartialEq, Eq, PartialOrd, Ord, Hash, Structural)]
pub struct ContractId(pub i64);

/// Identifiers used by the broader industry / regulators to define a
/// specific contract / asset, each an opaque string tagged by scheme.
#[derive(Debug, Clone, PartialEq, Eq, PartialOrd, Ord, Hash)]
pub enum SecurityId {
    Cusip(String),
    Sedol(String),
    Isin(String),
    Ric(String),
}

/// The ways a string can fail to parse as a 64-bit integer.
#[derive(Debug, Clone, Copy, PartialEq, Eq, PartialOrd, Ord, Hash, Structural)]
pub enum ParseError {
    /// The input was empty.
    Empty,
    /// The digit part was missing, or a non-digit character was reached
    /// before the accumulated value overflowed.
    InvalidDigit,
    /// The value exceeded `i64::MAX`.
    PosOverflow,
    /// The value fell below `i64::MIN`.
    NegOverflow,
}

/// An ASCII decimal digit.
pub open spec fn spec_is_digit(c: char) -> bool {
    '0' <= c && c <= '9'
}

/// The numeric value of an ASCII decimal digit.
pub open spec fn spec_digit(c: char) -> int {
    c as u32 - '0' as u32
}

/// Every character of `s` is an ASCII decimal digit.
pub open spec fn spec_all_digits(s: Seq<char>) -> bool {
    forall|i: int| 0 <= i < s.len() ==> spec_is_digit(#[trigger] s[i])
}

/// The value of a digit string read in base 10.
pub open spec fn spec_digits_value(s: Seq<char>) -> int
    decreases s.len(),
{
    if s.len() == 0 {
        0
    } else {
        spec_digits_value(s.drop_last()) * 10 + spec_digit(s.last())
    }
}

/// The number of leading ASCII-digit characters of `s`.
pub open spec fn spec_digit_prefix_len(s: Seq<char>) -> int
    decreases s.len(),
{
    if s.len() == 0 {
        0
    } else if !spec_is_digit(s[0]) {
        0
    } else {
        1 + spec_digit_prefix_len(s.drop_first())
    }
}

/// The input starts with an explicit sign character.
pub open spec fn spec_has_sign(s: Seq<char>) -> bool {
    s.len() > 0 && (s[0] == '+' || s[0] == '-')
}

/// The input denotes a negative number.
pub open spec fn spec_is_negative(s: Seq<char>) -> bool {
    s.len() > 0 && s[0] == '-'
}

/// The input with its sign character, if any, removed.
pub open spec fn spec_digits_part(s: Seq<char>) -> Seq<char> {
    if spec_has_sign(s) {
        s.drop_first()
    } else {
        s
    }
}

/// A well-formed integer literal: an optional sign followed by one or
/// more ASCII digits.
pub open spec fn spec_is_int_literal(s: Seq<char>) -> bool {
    spec_digits_part(s).len() > 0 && spec_all_digits(spec_digits_part(s))
}

/// The mathematical value of a well-formed integer literal.
pub open spec fn spec_int_value(s: Seq<char>) -> int {
    if spec_is_negative(s) {
        -spec_digits_value(spec_digits_part(s))
    } else {
        spec_digits_value(spec_digits_part(s))
    }
}

/// What parsing `s` as an `i64` returns. The scan reads digits left to
/// right, so an overflow among the leading digits is reported even when a
/// later character is not a digit, exactly as the standard parser does.
pub open spec fn spec_parse_i64(s: Seq<char>) -> Result<i64, ParseError> {
    let dp = spec_digits_part(s);
    let k = spec_digit_prefix_len(dp);
    let limit: int = if spec_is_negative(s) {
        0x8000_0000_0000_0000
    } else {
        0x7fff_ffff_ffff_ffff
    };
    if s.len() == 0 {
        Err(ParseError::Empty)
    } else if dp.len() == 0 {
        Err(ParseError::InvalidDigit)
    } else if spec_digits_value(dp.subrange(0, k)) > limit {
        Err(
            if spec_is_negative(s) {
                ParseError::NegOverflow
            } else {
                ParseError::PosOverflow
            },
        )
    } else if k < dp.len() {
        Err(ParseError::InvalidDigit)
    } else {
        Ok(spec_int_value(s) as i64)
    }
}

/// The value of a digit string is never negative.
pub proof fn lemma_digits_value_nonneg(s: Seq<char>)
    requires
        spec_all_digits(s),
    ensures
        spec_digits_value(s) >= 0,
    decreases s.len(),
{
    if s.len() > 0 {
        assert(spec_all_digits(s.drop_last()));
        lemma_digits_value_nonneg(s.drop_last());
    }
}

/// Extending a digit string can only grow its value.
pub proof fn lemma_digits_value_mono(s: Seq<char>, a: int)
    requires
        spec_all_digits(s),
        0 <= a <= s.len(),
    ensures
        spec_digits_value(s.subrange(0, a)) <= spec_digits_value(s),
    decreases s.len() - a,
{
    if a == s.len() {
        assert(s.subrange(0, a) =~= s);
    } else {
        let t = s.subrange(0, a + 1);
        assert(t.drop_last() =~= s.subrange(0, a));
        assert(spec_all_digits(s.subrange(0, a)));
        lemma_digits_value_nonneg(s.subrange(0, a));
        assert(spec_digits_value(t) == spec_digits_value(s.subrange(0, a)) * 10 + spec_digit(
            t.last(),
        ));
        lemma_digits_value_mono(s, a + 1);
    }
}

/// The digit prefix is exactly the leading run of digits: `k` digits
/// followed by the string's end or a non-digit.
pub proof fn lemma_digit_prefix_len_is(s: Seq<char>, k: int)
    requires
        0 <= k <= s.len(),
        forall|i: int| 0 <= i < k ==> spec_is_digit(#[trigger] s[i]),
        k < s.len() ==> !spec_is_digit(s[k]),
    ensures
        spec_digit_prefix_len(s) == k,
    decreases s.len(),
{
    if s.len() == 0 {
    } else if k == 0 {
    } else {
        let t = s.drop_first();
        assert(forall|i: int| 0 <= i < k - 1 ==> spec_is_digit(#[trigger] t[i]));
        lemma_digit_prefix_len_is(t, k - 1);
    }
}

/// A fully digit string is its own digit prefix.
pub proof fn lemma_all_digits_prefix(s: Seq<char>)
    requires
        spec_all_digits(s),
    ensures
        spec_digit_prefix_len(s) == s.len(),
{
    lemma_digit_prefix_len_is(s, s.len() as int);
}

/// Parse a signed 64-bit integer from decimal text, with the standard
/// parser's exact acceptance and error behaviour.
pub fn parse_i64(s: &str) -> (r: Result<i64, ParseError>)
    ensures
        r == spec_parse_i64(s@),
{
    let ghost gs = s@;
    let n = s.unicode_len();
    if n == 0 {
        return Err(ParseError::Empty);
    }
    let first = s.get_char(0);
    let neg = first == '-';
    let signed = neg || first == '+';
    let start: usize = if signed {
        1
    } else {
        0
    };
    let ghost dp = spec_digits_part(gs);
    proof {
        assert(dp =~= gs.subrange(start as int, n as int));
    }
    if start == n {
        proof {
            lemma_digit_prefix_len_is(dp, 0);
        }
        return Err(ParseError::InvalidDigit);
    }
    let limit: u64 = if neg {
        9_223_372_036_854_775_808
    } else {
        9_223_372_036_854_775_807
    };
    let mut acc: u64 = 0;
    let mut i: usize = start;
    while i < n
        invariant
            gs == s@,
            n == gs.len(),
            start <= i <= n,
            start < n,
            start == if spec_has_sign(gs) { 1int } else { 0int },
            neg == spec_is_negative(gs),
            dp == spec_digits_part(gs),
            dp =~= gs.subrange(start as int, n as int),
            limit == if neg { 0x8000_0000_0000_0000u64 } else { 0x7fff_ffff_ffff_ffffu64 },
            forall|j: int| 0 <= j < i - start ==> spec_is_digit(#[trigger] dp[j]),
            acc == spec_digits_value(dp.subrange(0, i - start)),
            acc <= limit,
        decreases n - i,
    {
        let c = s.get_char(i);
        proof {
            assert(dp[i - start] == gs[i as int]);
        }
        if !(c >= '0' && c <= '9') {
            proof {
                let k = (i - start) as int;
                lemma_digit_prefix_len_is(dp, k);
            }
            return Err(ParseError::InvalidDigit);
        }
        let d: u64 = (c as u32 - 48) as u64;
        proof {
            assert(d == spec_digit(dp[i - start]));
            assert(d <= 9);
        }
        if acc > (limit - d) / 10 {
            proof {
                let k = (i - start) as int;
                let pre = dp.subrange(0, k + 1);
                assert(pre.drop_last() =~= dp.subrange(0, k));
                assert(spec_digits_value(pre) == acc * 10 + d);
                // acc > (limit - d) / 10 forces acc * 10 + d > limit
                assert(acc * 10 + d > limit) by (nonlinear_arith)
                    requires
                        acc > (limit - d) / 10,
                        d <= 9,
                        d <= limit,
                        acc >= 0;
                let kk = spec_digit_prefix_len(dp);
                assert(forall|j: int| 0 <= j < k + 1 ==> spec_is_digit(#[trigger] dp[j]));
                lemma_digits_prefix_at_least(dp, k + 1);
                lemma_digit_prefix_all_digits(dp);
                assert(dp.subrange(0, kk).subrange(0, k + 1) =~= pre);
                lemma_digits_value_mono(dp.subrange(0, kk), k + 1);
            }
            return Err(if neg {
                ParseError::NegOverflow
            } else {
                ParseError::PosOverflow
            });
        }
        proof {
            // acc <= (limit - d) / 10 keeps acc * 10 + d within limit
            assert(acc * 10 + d <= limit) by (nonlinear_arith)
                requires
                    acc <= (limit - d) / 10,
                    d <= 9,
                    d <= limit,
                    acc >= 0;
            let k = (i - start) as int;
            let pre = dp.subrange(0, k + 1);
            assert(pre.drop_last() =~= dp.subrange(0, k));
        }
        acc = acc * 10 + d;
        i += 1;
    }
    proof {
        assert(dp.subrange(0, (n - start) as int) =~= dp);
        lemma_all_digits_prefix(dp);
    }
    if neg {
        if acc == 9_223_372_036_854_775_808 {
            Ok(i64::MIN)
        } else {
            Ok(-(acc as i64))
        }
    } else {
        Ok(acc as i64)
    }
}

/// The digit prefix stays within the string and consists of digits.
pub proof fn lemma_digit_prefix_props(s: Seq<char>)
    ensures
        0 <= spec_digit_prefix_len(s) <= s.len(),
        forall|i: int| 0 <= i < spec_digit_prefix_len(s) ==> spec_is_digit(#[trigger] s[i]),
    decreases s.len(),
{
    if s.len() == 0 {
    } else if !spec_is_digit(s[0]) {
    } else {
        let t = s.drop_first();
        lemma_digit_prefix_props(t);
        assert forall|i: int| 0 <= i < spec_digit_prefix_len(s) implies spec_is_digit(
            s[i],
        ) by {
            if i >= 1 {
                assert(s[i] == t[i - 1]);
                assert(spec_is_digit(t[i - 1]));
            }
        }
    }
}

/// If the first `m` characters of `s` are digits, the digit prefix is at
/// least `m` long.
pub proof fn lemma_digits_prefix_at_least(s: Seq<char>, m: int)
    requires
        0 <= m <= s.len(),
        forall|i: int| 0 <= i < m ==> spec_is_digit(#[trigger] s[i]),
    ensures
        spec_digit_prefix_len(s) >= m,
    decreases s.len(),
{
    if m > 0 {
        assert(spec_is_digit(s[0]));
        let t = s.drop_first();
        assert forall|i: int| 0 <= i < m - 1 implies spec_is_digit(t[i]) by {
            assert(t[i] == s[i + 1]);
        }
        lemma_digits_prefix_at_least(t, m - 1);
        assert(spec_digit_prefix_len(s) == 1 + spec_digit_prefix_len(t));
    } else {
        lemma_digit_prefix_props(s);
    }
}

/// The digit prefix of `s`, taken as its own string, is all digits.
pub proof fn lemma_digit_prefix_all_digits(s: Seq<char>)
    ensures
        0 <= spec_digit_prefix_len(s) <= s.len(),
        spec_all_digits(s.subrange(0, spec_digit_prefix_len(s))),
{
    lemma_digit_prefix_props(s);
    let kk = spec_digit_prefix_len(s);
    assert forall|i: int| 0 <= i < kk implies spec_is_digit(s.subrange(0, kk)[i]) by {
        assert(s.subrange(0, kk)[i] == s[i]);
    }
}

/// A well-formed literal whose value fits in an `i64` parses to exactly
/// that value.
pub proof fn lemma_parse_int_literal(s: Seq<char>)
    requires
        spec_is_int_literal(s),
        i64::MIN <= spec_int_value(s) <= i64::MAX,
    ensures
        spec_parse_i64(s) == Ok::<i64, ParseError>(spec_int_value(s) as i64),
{
    let dp = spec_digits_part(s);
    lemma_all_digits_prefix(dp);
    assert(dp.subrange(0, dp.len() as int) =~= dp);
    lemma_digits_value_nonneg(dp);
}

/// The character of a single decimal digit.
pub open spec fn spec_digit_char(d: int) -> char {
    if d == 0 {
        '0'
    } else if d == 1 {
        '1'
    } else if d == 2 {
        '2'
    } else if d == 3 {
        '3'
    } else if d == 4 {
        '4'
    } else if d == 5 {
        '5'
    } else if d == 6 {
        '6'
    } else if d == 7 {
        '7'
    } else if d == 8 {
        '8'
    } else {
        '9'
    }
}

/// The decimal rendering of a non-negative number: its digits in order,
/// without leading zeros.
pub open spec fn spec_render_u64(n: int) -> Seq<char>
    decreases n,
{
    if n < 10 {
        seq![spec_digit_char(n)]
    } else {
        spec_render_u64(n / 10).push(spec_digit_char(n % 10))
    }
}

/// The decimal rendering of `n` is a non-empty digit string whose value
/// is `n` again.
pub proof fn lemma_render_u64(n: int)
    requires
        0 <= n,
    ensures
        spec_all_digits(spec_render_u64(n)),
        spec_render_u64(n).len() >= 1,
        spec_digits_value(spec_render_u64(n)) == n,
    decreases n,
{
    if n < 10 {
        let s = spec_render_u64(n);
        assert(s.drop_last() =~= Seq::<char>::empty());
        assert(s.last() == spec_digit_char(n));
        assert(spec_digit(spec_digit_char(n)) == n);
        assert(spec_digits_value(s) == spec_digits_value(s.drop_last()) * 10 + spec_digit(
            s.last(),
        ));
        assert(spec_digits_value(Seq::<char>::empty()) == 0);
    } else {
        lemma_render_u64(n / 10);
        lemma_fundamental_div_mod(n, 10);
        let s = spec_render_u64(n / 10);
        let c = spec_digit_char(n % 10);
        assert(s.push(c).drop_last() =~= s);
        assert(s.push(c).last() == c);
        assert(spec_is_digit(c));
        assert(spec_digit(c) == n % 10);
        assert(forall|i: int|
            0 <= i < s.push(c).len() ==> spec_is_digit(#[trigger] s.push(c)[i]));
    }
}

/// One decimal digit as a character.
fn digit_char(d: u64) -> (c: char)
    requires
        d < 10,
    ensures
        c == spec_digit_char(d as int),
{
    if d == 0 {
        '0'
    } else if d == 1 {
        '1'
    } else if d == 2 {
        '2'
    } else if d == 3 {
        '3'
    } else if d == 4 {
        '4'
    } else if d == 5 {
        '5'
    } else if d == 6 {
        '6'
    } else if d == 7 {
        '7'
    } else if d == 8 {
        '8'
    } else {
        '9'
    }
}

/// Append the decimal digits of `n` to `out`.
pub fn render_u64(n: u64, out: &mut Vec<char>)
    ensures
        final(out)@ == old(out)@ + spec_render_u64(n as int),
    decreases n,
{
    if n < 10 {
        out.push(digit_char(n));
        assert(out@ =~= old(out)@ + spec_render_u64(n as int));
    } else {
        render_u64(n / 10, out);
        out.push(digit_char(n % 10));
        assert(out@ =~= old(out)@ + spec_render_u64(n as int));
    }
}

/// The decimal rendering of any 64-bit value: a minus sign for a
/// negative number, then the magnitude's digits.
pub open spec fn spec_render_i64(v: int) -> Seq<char> {
    if v >= 0 {
        spec_render_u64(v)
    } else {
        seq!['-'] + spec_render_u64(-v)
    }
}

/// The decimal digits of `v`, with a leading minus when negative.
pub fn render_i64(v: i64) -> (r: Vec<char>)
    ensures
        r@ == spec_render_i64(v as int),
{
    let mut out: Vec<char> = Vec::new();
    if v >= 0 {
        render_u64(v as u64, &mut out);
    } else {
        out.push('-');
        let mag: i128 = -(v as i128);
        render_u64(mag as u64, &mut out);
        proof {
            assert(out@ =~= seq!['-'] + spec_render_u64(-(v as int)));
        }
    }
    out
}

/// Rendering a value and parsing the text back yields the value again.
pub proof fn lemma_parse_render_i64(v: int)
    requires
        i64::MIN <= v <= i64::MAX,
    ensures
        spec_parse_i64(spec_render_i64(v)) == Ok::<i64, ParseError>(v as i64),
{
    if v >= 0 {
        let s = spec_render_u64(v);
        lemma_render_u64(v);
        assert(spec_is_digit(s[0]));
        assert(!spec_has_sign(s));
        assert(spec_digits_part(s) =~= s);
        lemma_parse_int_literal(s);
    } else {
        let s = seq!['-'] + spec_render_u64(-v);
        lemma_render_u64(-v);
        assert(s[0] == '-');
        assert(s.drop_first() =~= spec_render_u64(-v));
        assert(spec_is_int_literal(s));
        assert(spec_int_value(s) == v);
        lemma_parse_int_literal(s);
    }
}

impl ContractId {
    /// The id in decimal text.
    pub fn to_text(&self) -> (r: String)
        ensures
            r@ == spec_render_i64(self.0 as int),
    {
        let v = render_i64(self.0);
        crate::text::string_from_chars(&v)
    }

    /// Parse a contract id from decimal text, as the standard integer
    /// parser reads it.
    pub fn parse(s: &str) -> (r: Result<ContractId, ParseError>)
        ensures
            r == (match spec_parse_i64(s@) {
                Ok(v) => Ok::<ContractId, ParseError>(ContractId(v)),
                Err(e) => Err::<ContractId, ParseError>(e),
            }),
    {
        match parse_i64(s) {
            Ok(v) => Ok(ContractId(v)),
            Err(e) => Err(e),
        }
    }
}

/// The text round trip: a contract id rendered to decimal text always
/// parses back to the same id.
pub fn contract_id_text_round_trip(id: ContractId) -> (r: Result<ContractId, ParseError>)
    ensures
        r == Ok::<ContractId, ParseError>(id),
{
    proof {
        lemma_parse_render_i64(id.0 as int);
    }
    let text = id.to_text();
    ContractId::parse(text.as_str())
}

impl core::str::FromStr for ContractId {
    type Err = ParseError;

    fn from_str(s: &str) -> Result<Self, Self::Err> {
        ContractId::parse(s)
    }
}

} // verus!
