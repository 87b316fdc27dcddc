//! Query parsing, integer parsing, FIGI validation, dates, decimals, and
//! the text round trip.

use ibkr_contracts::date::Date;
use ibkr_contracts::decimal::Decimal;
use ibkr_contracts::exchange::Routing;
use ibkr_contracts::figi::{Figi, InvalidFigi};
use ibkr_contracts::ids::{contract_id_text_round_trip, parse_i64, ContractId, ParseError};
use ibkr_contracts::query::{parse_query, query_text_round_trip, render_query, InvalidQuery, Query};

#[test]
fn numeric_query_parses_to_smart_routed_contract_id() {
    let q = parse_query("12345").unwrap();
    assert_eq!(q, Query::IbContractId(ContractId(12345), Routing::Smart));
}

#[test]
fn numeric_query_keeps_leading_zero_value() {
    let q = parse_query("007").unwrap();
    assert_eq!(q, Query::IbContractId(ContractId(7), Routing::Smart));
}

#[test]
fn empty_query_is_its_own_error() {
    assert!(matches!(parse_query(""), Err(InvalidQuery::Empty)));
}

#[test]
fn figi_query_parses_to_figi() {
    let q = parse_query("BBG000B9XRY4").unwrap();
    match q {
        Query::Figi(f) => assert_eq!(f.to_text(), "BBG000B9XRY4"),
        Query::IbContractId(_, _) => panic!("expected a FIGI query"),
    }
}

#[test]
fn short_letter_leading_query_fails_figi_length() {
    assert!(matches!(
        parse_query("ABC"),
        Err(InvalidQuery::Figi(InvalidFigi::Length))
    ));
}

#[test]
fn lowercase_twelve_char_query_fails_figi_character() {
    assert!(matches!(
        parse_query("bbg000b9xry4"),
        Err(InvalidQuery::Figi(InvalidFigi::Character))
    ));
}

#[test]
fn numeric_query_with_stray_letter_fails_invalid_digit() {
    assert!(matches!(
        parse_query("12a45"),
        Err(InvalidQuery::IbContractId(ParseError::InvalidDigit))
    ));
}

#[test]
fn numeric_query_overflow_fails_pos_overflow() {
    assert!(matches!(
        parse_query("99999999999999999999"),
        Err(InvalidQuery::IbContractId(ParseError::PosOverflow))
    ));
}

#[test]
fn unicode_digit_leads_to_contract_id_branch() {
    // An Arabic-Indic digit is numeric, so the input is read as a contract
    // id and fails integer parsing, never FIGI validation.
    let mut s = String::new();
    s.push(char::from_u32(0x0664).unwrap());
    s.push('2');
    assert!(matches!(
        parse_query(&s),
        Err(InvalidQuery::IbContractId(ParseError::InvalidDigit))
    ));
}

#[test]
fn parse_i64_round_numbers() {
    assert_eq!(parse_i64("0"), Ok(0));
    assert_eq!(parse_i64("42"), Ok(42));
    assert_eq!(parse_i64("+42"), Ok(42));
    assert_eq!(parse_i64("-42"), Ok(-42));
}

#[test]
fn parse_i64_limits() {
    assert_eq!(parse_i64("9223372036854775807"), Ok(i64::MAX));
    assert_eq!(parse_i64("-9223372036854775808"), Ok(i64::MIN));
    assert_eq!(parse_i64("9223372036854775808"), Err(ParseError::PosOverflow));
    assert_eq!(
        parse_i64("-9223372036854775809"),
        Err(ParseError::NegOverflow)
    );
}

#[test]
fn parse_i64_error_kinds() {
    assert_eq!(parse_i64(""), Err(ParseError::Empty));
    assert_eq!(parse_i64("+"), Err(ParseError::InvalidDigit));
    assert_eq!(parse_i64("-"), Err(ParseError::InvalidDigit));
    assert_eq!(parse_i64("--1"), Err(ParseError::InvalidDigit));
    assert_eq!(parse_i64("12 3"), Err(ParseError::InvalidDigit));
}

#[test]
fn parse_i64_overflow_before_invalid_digit() {
    // The scan reads left to right: the overflow among the leading digits
    // is hit before the stray letter, exactly as the standard parser.
    assert_eq!(
        parse_i64("99999999999999999999x"),
        Err(ParseError::PosOverflow)
    );
}

#[test]
fn contract_id_parses_from_text() {
    assert_eq!(ContractId::parse("42"), Ok(ContractId(42)));
    assert_eq!(ContractId::parse("-7"), Ok(ContractId(-7)));
    assert_eq!(ContractId::parse("x"), Err(ParseError::InvalidDigit));
}

#[test]
fn figi_parse_accepts_and_reports_its_text() {
    let f = Figi::parse("BBG000BLNNH6").unwrap();
    assert_eq!(f.to_text(), "BBG000BLNNH6");
    assert_eq!(f.code()[0], 'B');
}

#[test]
fn figi_parse_rejects_digit_lead() {
    assert_eq!(Figi::parse("0BG000B9XRY4"), Err(InvalidFigi::Character));
}

#[test]
fn render_query_writes_decimal_or_figi_text() {
    let q = Query::IbContractId(ContractId(12345), Routing::Smart);
    assert_eq!(render_query(&q), "12345");
    let neg = Query::IbContractId(ContractId(-7), Routing::Smart);
    assert_eq!(render_query(&neg), "-7");
    let f = Query::Figi(Figi::parse("BBG000B9XRY4").unwrap());
    assert_eq!(render_query(&f), "BBG000B9XRY4");
}

#[test]
fn query_text_survives_round_trip() {
    let q = Query::IbContractId(ContractId(265598), Routing::Smart);
    assert_eq!(query_text_round_trip(&q), Ok(q));
    let f = Query::Figi(Figi::parse("BBG000B9XRY4").unwrap());
    assert_eq!(query_text_round_trip(&f), Ok(f));
}

#[test]
fn contract_id_text_survives_round_trip() {
    assert_eq!(ContractId(0).to_text(), "0");
    assert_eq!(ContractId(265598).to_text(), "265598");
    assert_eq!(ContractId(-42).to_text(), "-42");
    assert_eq!(ContractId(i64::MIN).to_text(), "-9223372036854775808");
    for id in [0, 7, -7, 265598, i64::MAX, i64::MIN] {
        assert_eq!(contract_id_text_round_trip(ContractId(id)), Ok(ContractId(id)));
    }
}

#[test]
fn from_str_goes_through_the_same_parsers() {
    let q: Query = "12345".parse().unwrap();
    assert_eq!(q, Query::IbContractId(ContractId(12345), Routing::Smart));
    assert!("".parse::<Query>().is_err());
    let id: ContractId = "-42".parse().unwrap();
    assert_eq!(id, ContractId(-42));
}

#[test]
fn date_accepts_only_well_formed_days() {
    assert_eq!(
        Date::new(2024, 3, 15),
        Some(Date { year: 2024, month: 3, day: 15 })
    );
    assert_eq!(
        Date::new(2024, 2, 29),
        Some(Date { year: 2024, month: 2, day: 29 })
    );
    assert_eq!(Date::new(2023, 2, 29), None);
    assert_eq!(Date::new(1900, 2, 29), None);
    assert_eq!(
        Date::new(2000, 2, 29),
        Some(Date { year: 2000, month: 2, day: 29 })
    );
    assert_eq!(Date::new(2024, 4, 31), None);
    assert_eq!(Date::new(2024, 13, 1), None);
    assert_eq!(Date::new(2024, 0, 10), None);
    assert_eq!(Date::new(0, 1, 1), None);
}

#[test]
fn decimal_holds_exact_scaled_values() {
    let tick = Decimal::new(25, 4);
    assert_eq!(tick.mantissa, 25);
    assert_eq!(tick.scale, 4);
    let strike = Decimal::whole(72);
    assert_eq!(strike, Decimal { mantissa: 72, scale: 0 });
    assert_ne!(Decimal::new(10, 1), Decimal::new(100, 2));
}
