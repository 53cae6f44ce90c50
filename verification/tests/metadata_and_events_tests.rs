use mmb_core::common::{BeforeAfter, CurrencyCode, CurrencyPair, ExchangeAccountId, OrderSide};
use mmb_core::currency_pair_metadata::{CurrencyPairMetadata, Precision};
use mmb_core::decimal::{Decimal, Round};
use mmb_core::events::{
    nothing_to_do, ExchangeBalance, ExchangeBalancesAndPositions, should_ignore_event, AllowedEventSourceType, EventSourceType, LiquidationPriceEvent, MetricsEvent,
    MetricsEventInfo, MetricsEventInfoBase, MetricsEventType, OrderStatus, TradeId, LIQUIDATION_PRICE_CURRENT_VERSION,
};

fn d(text: &str) -> Decimal {
    let parsed: rust_decimal::Decimal = text.parse().expect("a decimal");
    Decimal::from_parts(parsed.mantissa(), parsed.scale()).expect("in range")
}

fn metadata() -> CurrencyPairMetadata {
    CurrencyPairMetadata {
        is_derivative: false,
        base_currency_code: CurrencyCode::new("BTC"),
        quote_currency_code: CurrencyCode::new("USDT"),
        amount_currency_code: CurrencyCode::new("BTC"),
        balance_currency_code: None,
        currency_pair: CurrencyPair::new("BTC/USDT"),
        price_precision: Precision::ByTick { tick: d("0.5") },
        amount_precision: Precision::ByFraction { precision: 3 },
        amount_multiplier: d("1"),
    }
}

#[test]
fn trade_code_by_side() {
    let metadata = metadata();
    assert_eq!(metadata.get_trade_code(OrderSide::Buy, BeforeAfter::Before).code, "USDT");
    assert_eq!(metadata.get_trade_code(OrderSide::Sell, BeforeAfter::Before).code, "BTC");
    assert_eq!(metadata.get_trade_code(OrderSide::Buy, BeforeAfter::After).code, "BTC");
    assert_eq!(metadata.get_trade_code(OrderSide::Sell, BeforeAfter::After).code, "USDT");
    assert_eq!(metadata.currency_pair().pair, "BTC/USDT");
}

#[test]
fn conversion_from_and_into_the_amount_currency() {
    let metadata = metadata();
    let from = |code: &str| {
        metadata.convert_amount_from_amount_currency_code(&CurrencyCode::new(code), d("0.5"), d("20000"))
    };
    assert!(from("BTC").expect("an amount").equals(&d("0.5")));
    assert!(from("USDT").expect("an amount").equals(&d("10000")));
    assert!(from("ETH").is_none());
    let into = |code: &str| {
        metadata.convert_amount_into_amount_currency_code(&CurrencyCode::new(code), d("10000"), d("20000"))
    };
    assert!(into("BTC").expect("an amount").equals(&d("10000")));
    assert!(into("USDT").expect("an amount").equals(&d("0.5")));
    assert!(into("ETH").is_none());

    // With the quote currency as the amount currency the base side divides.
    let quoted = CurrencyPairMetadata { amount_currency_code: CurrencyCode::new("USDT"), ..metadata.clone() };
    assert!(quoted
        .convert_amount_from_amount_currency_code(&CurrencyCode::new("BTC"), d("10000"), d("20000"))
        .expect("an amount")
        .equals(&d("0.5")));
    assert!(quoted
        .convert_amount_into_amount_currency_code(&CurrencyCode::new("BTC"), d("0.5"), d("20000"))
        .expect("an amount")
        .equals(&d("10000")));
    assert!(quoted
        .convert_amount_from_amount_currency_code(&CurrencyCode::new("BTC"), d("1"), d("0"))
        .is_none());
}

#[test]
fn rounding_by_fraction_and_by_tick() {
    let metadata = metadata();
    assert!(metadata.round_to_remove_amount_precision_error(d("0.12345")).expect("rounded").equals(&d("0.123")));
    assert!(metadata.round_to_remove_amount_precision_error(d("0.1235")).expect("rounded").equals(&d("0.124")));
    assert!(metadata.round_amount(d("0.1239"), Round::Floor).expect("rounded").equals(&d("0.123")));
    assert!(metadata.round_amount(d("0.1231"), Round::Ceiling).expect("rounded").equals(&d("0.124")));
    assert!(metadata.round_price(d("20000.3"), Round::ToNearest).expect("rounded").equals(&d("20000.5")));
    assert!(metadata.round_price(d("20000.2"), Round::ToNearest).expect("rounded").equals(&d("20000")));
    assert!(metadata.round_price(d("20000.2"), Round::Ceiling).expect("rounded").equals(&d("20000.5")));
    assert!(metadata.round_price(d("20000.7"), Round::Floor).expect("rounded").equals(&d("20000.5")));
    let broken = CurrencyPairMetadata { price_precision: Precision::ByTick { tick: d("0") }, ..metadata.clone() };
    assert!(broken.round_price(d("1"), Round::Floor).is_none());
}

#[test]
fn margin_of_a_market() {
    let metadata = metadata();
    assert!(metadata.get_amount_tick().equals(&d("0.001")));
    assert!(metadata.is_amount_within_symbol_margin_error(d("0.001")));
    assert!(metadata.is_amount_within_symbol_margin_error(d("-0.001")));
    assert!(metadata.is_amount_within_symbol_margin_error(d("0")));
    assert!(!metadata.is_amount_within_symbol_margin_error(d("0.0011")));
    assert!(!metadata.is_amount_within_symbol_margin_error(d("-0.002")));
    assert!(Precision::ByTick { tick: d("0.25") }.tick().equals(&d("0.25")));
    assert!(Precision::ByFraction { precision: 40 }.tick().equals(&Decimal::from_parts(1, 28).expect("in range")));
    assert!(Precision::ByFraction { precision: 0 }.tick().equals(&d("1")));
}

#[test]
fn descriptions_are_compared_by_what_they_say() {
    let metadata = metadata();
    assert!(metadata.same(&metadata.clone()));
    assert!(metadata.same(&CurrencyPairMetadata { amount_multiplier: d("1.00"), ..metadata.clone() }));
    assert!(!metadata.same(&CurrencyPairMetadata { amount_multiplier: d("2"), ..metadata.clone() }));
    assert!(!metadata.same(&CurrencyPairMetadata { is_derivative: true, ..metadata.clone() }));
    assert!(!metadata.same(&CurrencyPairMetadata {
        balance_currency_code: Some(CurrencyCode::new("BTC")),
        ..metadata.clone()
    }));
    assert!(!metadata.same(&CurrencyPairMetadata {
        amount_precision: Precision::ByFraction { precision: 4 },
        ..metadata.clone()
    }));
    assert!(!metadata.same(&CurrencyPairMetadata {
        price_precision: Precision::ByFraction { precision: 1 },
        ..metadata.clone()
    }));
    assert!(!metadata.same(&CurrencyPairMetadata { quote_currency_code: CurrencyCode::new("EUR"), ..metadata.clone() }));
}

#[test]
fn trade_id_from_text() {
    assert!(matches!(TradeId::from_text("12345".to_string()), TradeId::Number(12345)));
    assert!(matches!(TradeId::from_text("18446744073709551615".to_string()), TradeId::Number(u64::MAX)));
    match TradeId::from_text("18446744073709551616".to_string()) {
        TradeId::String(text) => assert_eq!(text, "18446744073709551616"),
        TradeId::Number(_) => panic!("too large for a number"),
    }
    match TradeId::from_text("a1b2".to_string()) {
        TradeId::String(text) => assert_eq!(text, "a1b2"),
        TradeId::Number(_) => panic!("not a number"),
    }
    assert_eq!(TradeId::Number(7).get_number(), 7);
    assert!(TradeId::Number(7).same(&TradeId::Number(7)));
    assert!(!TradeId::Number(7).same(&TradeId::Number(8)));
    assert!(TradeId::String("x".to_string()).same(&TradeId::String("x".to_string())));
    assert!(!TradeId::String("x".to_string()).same(&TradeId::String("y".to_string())));
    assert!(matches!(TradeId::Number(7).clone(), TradeId::Number(7)));
}

#[test]
fn events_from_sources_that_are_not_allowed_are_ignored() {
    let all = AllowedEventSourceType::All;
    let fallback_only = AllowedEventSourceType::FallbackOnly;
    let non_fallback = AllowedEventSourceType::NonFallback;
    for source in [
        EventSourceType::RestFallback,
        EventSourceType::Rest,
        EventSourceType::WebSocket,
        EventSourceType::Rpc,
    ] {
        assert!(!should_ignore_event(all, source));
    }
    assert!(!should_ignore_event(fallback_only, EventSourceType::RestFallback));
    assert!(should_ignore_event(fallback_only, EventSourceType::Rest));
    assert!(should_ignore_event(fallback_only, EventSourceType::WebSocket));
    assert!(should_ignore_event(fallback_only, EventSourceType::Rpc));
    assert!(should_ignore_event(non_fallback, EventSourceType::RestFallback));
    assert!(!should_ignore_event(non_fallback, EventSourceType::Rest));
    assert!(!should_ignore_event(non_fallback, EventSourceType::WebSocket));
    assert!(should_ignore_event(non_fallback, EventSourceType::Rpc));
    assert_eq!(AllowedEventSourceType::default(), all);
}

#[test]
fn metrics_events() {
    let info = MetricsEventInfo::new(1_000, 1_250, EventSourceType::WebSocket, MetricsEventType::TradeEvent);
    assert_eq!(info.source_type, EventSourceType::WebSocket);
    assert_eq!(info.base.event_type(), MetricsEventType::TradeEvent);
    assert_eq!(info.base.latency(-50), Some(200));
    let event = MetricsEvent::new(&info.base, 20).expect("a latency");
    assert_eq!(event.latency, 270);
    assert_eq!(event.measure_time, 1_250);
    assert_eq!(event.event_type, MetricsEventType::TradeEvent);
    let extreme = MetricsEventInfoBase::new(i64::MIN, i64::MAX, MetricsEventType::OrderLifeCycle(OrderStatus::Created));
    assert_eq!(extreme.latency(0), None);
    assert!(MetricsEvent::new(&extreme, 0).is_none());
    assert_eq!(MetricsEventInfoBase::new(i64::MAX, i64::MAX, MetricsEventType::TradeToMl).latency(i64::MAX), Some(i64::MAX));
    nothing_to_do();
}

#[test]
fn liquidation_price_event_has_the_current_version() {
    let event = LiquidationPriceEvent::new(
        5,
        ExchangeAccountId::new("Binance", 0),
        CurrencyPair::new("BTC/USDT"),
        d("15000"),
        d("20000"),
        OrderSide::Buy,
    );
    assert_eq!(event.version, LIQUIDATION_PRICE_CURRENT_VERSION);
    assert_eq!(event.version, 1);
    assert_eq!(event.event_creation_time, 5);
    assert!(event.liq_price.equals(&d("15000")));
    assert!(event.entry_price.equals(&d("20000")));
    assert_eq!(event.side, OrderSide::Buy);
}

#[test]
fn trade_id_as_text() {
    assert_eq!(TradeId::Number(0).to_text(), "0");
    assert_eq!(TradeId::Number(12345).to_text(), "12345");
    assert_eq!(TradeId::Number(u64::MAX).to_text(), "18446744073709551615");
    assert_eq!(TradeId::String("a1b2".to_string()).to_text(), "a1b2");
    assert!(TradeId::from_text(TradeId::Number(77).to_text()).same(&TradeId::Number(77)));
}

#[test]
fn only_balances_above_zero_are_shown() {
    let balance = |code: &str, amount: &str| ExchangeBalance { currency_code: CurrencyCode::new(code), balance: d(amount) };
    let report = ExchangeBalancesAndPositions {
        balances: vec![balance("BTC", "0.5"), balance("ETH", "0"), balance("EOS", "-1"), balance("USDT", "0.00000001")],
        positions: None,
    };
    let shown = report.non_zero_balances();
    assert_eq!(shown.len(), 2);
    assert_eq!(shown[0].currency_code.code, "BTC");
    assert!(shown[0].balance.equals(&d("0.5")));
    assert_eq!(shown[1].currency_code.code, "USDT");
    assert!(shown[1].balance.equals(&d("0.00000001")));

    let empty = ExchangeBalancesAndPositions { balances: Vec::new(), positions: Some(Vec::new()) };
    assert!(empty.non_zero_balances().is_empty());
}

/// The number that a text is stated to be read as: an optional plus sign,
/// then decimal digits only, at least one, within what a `u64` holds.
fn stated_number(text: &str) -> Option<u64> {
    let digits = text.strip_prefix('+').unwrap_or(text);
    if digits.is_empty() {
        return None;
    }
    let mut value: u128 = 0;
    for c in digits.chars() {
        let digit = match c {
            '0'..='9' => c as u128 - '0' as u128,
            _ => return None,
        };
        value = (10 * value + digit).min(u128::MAX / 20);
    }
    u64::try_from(value).ok()
}

#[test]
fn a_trade_id_is_a_number_where_the_text_is_stated_to_be_one() {
    let texts = [
        "",
        "+",
        "-",
        "0",
        "+0",
        "-0",
        "00",
        "007",
        "+007",
        "7",
        "42",
        "+42",
        "-42",
        "++42",
        "+-42",
        "4+2",
        "42+",
        " 42",
        "42 ",
        "4 2",
        "4_2",
        "4.2",
        "4e2",
        "0x10",
        "a1b2",
        "\u{ff11}\u{ff12}",
        "\u{0663}",
        "18446744073709551615",
        "+18446744073709551615",
        "18446744073709551616",
        "184467440737095516150",
        "99999999999999999999",
        "000000000000000000000000000000000000000000001",
        "340282366920938463463374607431768211456",
    ];
    for text in texts {
        match (TradeId::from_text(text.to_string()), stated_number(text)) {
            (TradeId::Number(number), Some(stated)) => assert_eq!(number, stated, "{:?}", text),
            (TradeId::String(kept), None) => assert_eq!(kept, text),
            (read, stated) => panic!("{:?} was read as {:?}, stated {:?}", text, read, stated),
        }
    }
}
