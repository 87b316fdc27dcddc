//! The contract sum type, narrowing, the capability interface, option
//! legs, the resolution protocol, and the proxy wrapper.

use ibkr_contracts::contract::{Contract, ContractType};
use ibkr_contracts::currency::Currency;
use ibkr_contracts::date::Date;
use ibkr_contracts::decimal::Decimal;
use ibkr_contracts::exchange::{Primary, Routing};
use ibkr_contracts::figi::Figi;
use ibkr_contracts::ids::{ContractId, SecurityId};
use ibkr_contracts::proxy::Proxy;
use ibkr_contracts::query::Query;
use ibkr_contracts::records::{
    Commodity, Crypto, Forex, Index, SecFuture, SecOption, SecOptionInner, Stock,
};
use ibkr_contracts::resolve::{resolve_response, UnexpectedSecurityType};
use ibkr_contracts::security::{wrap_narrow_round_trip, Security, Valid, WrongContractType};

fn forex() -> Forex {
    Forex {
        contract_id: ContractId(12087792),
        min_tick: Decimal::new(5, 5),
        symbol: String::from("EUR"),
        exchange: Routing::Primary(Primary::Idealpro),
        trading_class: String::from("EUR.USD"),
        currency: Currency::Usd,
        local_symbol: String::from("EUR.USD"),
        long_name: String::from("European Monetary Union Euro"),
        order_types: vec![String::from("LMT"), String::from("MKT")],
        valid_exchanges: vec![Routing::Smart, Routing::Primary(Primary::Idealpro)],
    }
}

fn stock() -> Stock {
    Stock {
        contract_id: ContractId(265598),
        min_tick: Decimal::new(1, 2),
        symbol: String::from("AAPL"),
        exchange: Routing::Smart,
        primary_exchange: Primary::Nasdaq,
        stock_type: String::from("COMMON"),
        security_ids: vec![SecurityId::Isin(String::from("US0378331005"))],
        sector: String::from("Technology"),
        trading_class: String::from("NMS"),
        currency: Currency::Usd,
        local_symbol: String::from("AAPL"),
        long_name: String::from("Apple Inc"),
        order_types: vec![String::from("LMT")],
        valid_exchanges: vec![Routing::Smart],
    }
}

fn future() -> SecFuture {
    SecFuture {
        contract_id: ContractId(637533641),
        min_tick: Decimal::new(25, 2),
        symbol: String::from("ES"),
        exchange: Routing::Primary(Primary::Globex),
        multiplier: 1000,
        expiration_date: Date::new(2024, 3, 15).unwrap(),
        trading_class: String::from("ES"),
        underlying_contract_id: ContractId(11004968),
        currency: Currency::Usd,
        local_symbol: String::from("ESH4"),
        long_name: String::from("E-mini S&P 500"),
        order_types: vec![String::from("LMT")],
        valid_exchanges: vec![Routing::Primary(Primary::Globex)],
    }
}

fn option_inner() -> SecOptionInner {
    SecOptionInner {
        contract_id: ContractId(653318228),
        min_tick: Decimal::new(1, 2),
        symbol: String::from("BMW"),
        exchange: Routing::Smart,
        strike: Decimal::whole(72),
        multiplier: 100,
        expiration_date: Date::new(2022, 12, 16).unwrap(),
        underlying_contract_id: ContractId(14094),
        sector: String::from("Consumer, Cyclical"),
        trading_class: String::from("BMW"),
        currency: Currency::Eur,
        local_symbol: String::from("P BMW  20221216 72 M"),
        long_name: String::from("Bayerische Motoren Werke AG"),
        order_types: vec![String::from("LMT")],
        valid_exchanges: vec![Routing::Smart],
    }
}

fn index() -> Index {
    Index {
        contract_id: ContractId(416904),
        min_tick: Decimal::new(25, 2),
        symbol: String::from("SPX"),
        exchange: Routing::Primary(Primary::Cboe),
        currency: Currency::Usd,
        local_symbol: String::from("SPX"),
        long_name: String::from("S&P 500 Stock Index"),
        order_types: vec![String::from("LMT")],
        valid_exchanges: vec![Routing::Smart],
    }
}

fn crypto() -> Crypto {
    Crypto {
        contract_id: ContractId(479624278),
        min_tick: Decimal::new(25, 4),
        symbol: String::from("BTC"),
        trading_class: String::from("BTC.USD"),
        currency: Currency::Usd,
        local_symbol: String::from("BTC.USD"),
        long_name: String::from("Bitcoin"),
        order_types: vec![String::from("LMT")],
        valid_exchanges: vec![Routing::Primary(Primary::Paxos)],
    }
}

fn commodity() -> Commodity {
    Commodity {
        contract_id: ContractId(254094),
        min_tick: Decimal::new(1, 2),
        symbol: String::from("XAUUSD"),
        exchange: Routing::Smart,
        trading_class: String::from("XAUUSD"),
        currency: Currency::Usd,
        local_symbol: String::from("XAUUSD"),
        long_name: String::from("London Gold"),
        order_types: vec![String::from("LMT")],
        valid_exchanges: vec![Routing::Smart],
    }
}

#[test]
fn narrowing_to_held_variant_returns_original() {
    let fx = forex();
    let c = Contract::Forex(fx.clone());
    assert_eq!(c.forex_ref().unwrap(), &fx);
    assert_eq!(c.forex().unwrap(), fx);

    let stk = stock();
    let c = Contract::Stock(stk.clone());
    assert_eq!(c.stock_ref().unwrap(), &stk);
    assert_eq!(c.stock().unwrap(), stk);

    let fut = future();
    let c = Contract::SecFuture(fut.clone());
    assert_eq!(c.secfuture().unwrap(), fut);

    let opt = SecOption::Call(option_inner());
    let c = Contract::SecOption(opt.clone());
    assert_eq!(c.secoption().unwrap(), opt);

    let ind = index();
    assert_eq!(Contract::Index(ind.clone()).index().unwrap(), ind);
    let cr = crypto();
    assert_eq!(Contract::Crypto(cr.clone()).crypto().unwrap(), cr);
    let cm = commodity();
    assert_eq!(Contract::Commodity(cm.clone()).commodity().unwrap(), cm);
}

#[test]
fn narrowing_to_other_variant_names_requested_type() {
    let c = Contract::Forex(forex());
    assert_eq!(
        c.stock_ref().unwrap_err(),
        WrongContractType { expected: ContractType::Stock }
    );
    assert_eq!(
        c.clone().crypto().unwrap_err(),
        WrongContractType { expected: ContractType::Crypto }
    );
    assert_eq!(
        c.clone().index().unwrap_err(),
        WrongContractType { expected: ContractType::Index }
    );
    assert_eq!(
        c.clone().secfuture().unwrap_err(),
        WrongContractType { expected: ContractType::SecFuture }
    );
    assert_eq!(
        c.clone().secoption().unwrap_err(),
        WrongContractType { expected: ContractType::SecOption }
    );
    assert_eq!(
        c.clone().commodity().unwrap_err(),
        WrongContractType { expected: ContractType::Commodity }
    );
    let s = Contract::Stock(stock());
    assert_eq!(
        s.forex().unwrap_err(),
        WrongContractType { expected: ContractType::Forex }
    );
}

#[test]
fn wrap_then_narrow_returns_original_for_every_variant() {
    assert_eq!(wrap_narrow_round_trip(forex()).unwrap(), forex());
    assert_eq!(wrap_narrow_round_trip(stock()).unwrap(), stock());
    assert_eq!(wrap_narrow_round_trip(future()).unwrap(), future());
    assert_eq!(wrap_narrow_round_trip(index()).unwrap(), index());
    assert_eq!(wrap_narrow_round_trip(crypto()).unwrap(), crypto());
    assert_eq!(wrap_narrow_round_trip(commodity()).unwrap(), commodity());
    let opt = SecOption::Put(option_inner());
    assert_eq!(wrap_narrow_round_trip(opt.clone()).unwrap(), opt);
    let c = Contract::Stock(stock());
    assert_eq!(wrap_narrow_round_trip(c.clone()).unwrap(), c);
}

#[test]
fn valid_conversions_agree_with_narrowing() {
    let fx = forex();
    let c = fx.clone().into_contract();
    assert_eq!(c, Contract::Forex(fx.clone()));
    assert_eq!(Forex::from_contract(c).unwrap(), fx);
    assert_eq!(
        Stock::from_contract(Contract::Forex(forex())).unwrap_err(),
        WrongContractType { expected: ContractType::Stock }
    );
}

#[test]
fn option_legs_are_complementary() {
    let call = SecOption::Call(option_inner());
    let put = SecOption::Put(option_inner());
    assert!(call.is_call() && !call.is_put());
    assert!(put.is_put() && !put.is_call());
}

#[test]
fn option_inner_record_ignores_leg_tag() {
    let call = SecOption::Call(option_inner());
    let put = SecOption::Put(option_inner());
    assert_eq!(call.as_inner_ref(), put.as_inner_ref());
    assert_eq!(call.as_inner_ref(), &option_inner());
    assert_eq!(call.into_inner(), option_inner());
    assert_eq!(put.into_inner(), option_inner());
}

#[test]
fn capability_accessors_dispatch_through_contract() {
    let c = Contract::Stock(stock());
    assert_eq!(c.contract_id(), ContractId(265598));
    assert_eq!(c.min_tick(), Decimal::new(1, 2));
    assert_eq!(c.symbol(), "AAPL");
    assert_eq!(c.currency(), Currency::Usd);
    assert_eq!(c.local_symbol(), "AAPL");
    assert_eq!(c.long_name(), "Apple Inc");
    assert_eq!(c.order_types(), &vec![String::from("LMT")]);
    assert_eq!(c.valid_exchanges(), &vec![Routing::Smart]);

    let o = Contract::SecOption(SecOption::Call(option_inner()));
    assert_eq!(o.contract_id(), ContractId(653318228));
    assert_eq!(o.symbol(), "BMW");
    assert_eq!(o.currency(), Currency::Eur);
}

#[test]
fn record_accessors_match_fields() {
    let fx = forex();
    assert_eq!(fx.contract_id(), ContractId(12087792));
    assert_eq!(fx.symbol(), "EUR");
    assert_eq!(fx.local_symbol(), "EUR.USD");
    assert_eq!(fx.min_tick(), Decimal::new(5, 5));
    assert_eq!(fx.long_name(), "European Monetary Union Euro");
    assert_eq!(
        fx.order_types(),
        &vec![String::from("LMT"), String::from("MKT")]
    );
}

#[test]
fn resolving_figi_reply_as_stock_returns_record_unmodified() {
    let query = Query::Figi(Figi::parse("BBG000B9XRY4").unwrap());
    let reply = Contract::Stock(stock());
    let got: Stock = resolve_response(query, reply).unwrap();
    assert_eq!(got, stock());
}

#[test]
fn resolving_figi_reply_as_forex_is_unexpected_security_type() {
    let query = Query::Figi(Figi::parse("BBG000B9XRY4").unwrap());
    let reply = Contract::Stock(stock());
    let got: Result<Forex, UnexpectedSecurityType> = resolve_response(query, reply);
    assert_eq!(got.unwrap_err(), UnexpectedSecurityType { query });
}

#[test]
fn resolving_as_contract_always_succeeds() {
    let query = Query::Figi(Figi::parse("BBG000B9XRY4").unwrap());
    let reply = Contract::Index(index());
    let got: Contract = resolve_response(query, reply.clone()).unwrap();
    assert_eq!(got, reply);
}

#[test]
fn proxy_narrows_future_and_reads_its_fields() {
    let p = Proxy::new(Contract::SecFuture(future()));
    assert_eq!(p.contract_type(), ContractType::SecFuture);
    let pf: Proxy<SecFuture> = p.clone().sec_future().unwrap();
    assert_eq!(pf.multiplier(), 1000);
    assert_eq!(pf.expiration_date(), Date::new(2024, 3, 15).unwrap());
    assert_eq!(pf.trading_class(), "ES");
    assert_eq!(
        p.stock().unwrap_err(),
        WrongContractType { expected: ContractType::Stock }
    );
}

#[test]
fn proxy_exposes_reduced_accessor_set() {
    let p = Proxy::new(Contract::Forex(forex()));
    assert_eq!(p.contract_id(), ContractId(12087792));
    assert_eq!(p.symbol(), "EUR");
    assert_eq!(p.currency(), Currency::Usd);
    assert_eq!(p.local_symbol(), "EUR.USD");
    assert_eq!(p.contract_type(), ContractType::Forex);
}

#[test]
fn proxy_variant_accessors_read_extra_fields() {
    let pf = Proxy::new(forex());
    assert_eq!(pf.trading_class(), "EUR.USD");
    let ps = Proxy::new(stock());
    assert_eq!(ps.primary_exchange(), Primary::Nasdaq);
    assert_eq!(ps.trading_class(), "NMS");
    let pc = Proxy::new(crypto());
    assert_eq!(pc.trading_class(), "BTC.USD");
    let pm = Proxy::new(commodity());
    assert_eq!(pm.trading_class(), "XAUUSD");
    let po = Proxy::new(SecOption::Put(option_inner()));
    assert_eq!(po.strike(), Decimal::whole(72));
    assert_eq!(po.multiplier(), 100);
    assert_eq!(po.expiration_date(), Date::new(2022, 12, 16).unwrap());
    assert_eq!(po.trading_class(), "BMW");
    assert!(po.is_put() && !po.is_call());
}

#[test]
fn proxy_narrows_every_variant_exactly_once() {
    assert!(Proxy::new(Contract::Forex(forex())).forex().is_ok());
    assert!(Proxy::new(Contract::Crypto(crypto())).crypto().is_ok());
    assert!(Proxy::new(Contract::Stock(stock())).stock().is_ok());
    assert!(Proxy::new(Contract::Index(index())).index().is_ok());
    assert!(Proxy::new(Contract::Commodity(commodity())).commodity().is_ok());
    assert!(Proxy::new(Contract::SecFuture(future())).sec_future().is_ok());
    let opt = Contract::SecOption(SecOption::Call(option_inner()));
    assert!(Proxy::new(opt.clone()).sec_option().is_ok());
    assert!(Proxy::new(opt).forex().is_err());
}
