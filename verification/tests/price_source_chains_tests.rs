use mmb_core::common::{CurrencyCode, CurrencyPair, ExchangeAccountId};
use mmb_core::currency_pair_metadata::{CurrencyPairMetadata, Precision};
use mmb_core::decimal::Decimal;
use mmb_core::exchange::CurrencyPairToMetadataConverter;
use mmb_core::price_source_chains::{
    map_to_used_trade_places, prepare_price_source_chains, ChainError, CurrencyPriceSourceSettings,
    ExchangeIdCurrencyPairSettings, PriceByOrderSide, PriceCache, PriceSourceChain, PriceSourceChains, RebaseDirection,
    RebasePriceStep, TradePlace,
};

fn exchange_id() -> String {
    "Binance".to_string()
}

fn exchange_account_id() -> ExchangeAccountId {
    ExchangeAccountId::new("Binance", 0)
}

fn exchange_account_id_2() -> ExchangeAccountId {
    ExchangeAccountId::new("Binance", 1)
}

fn exchange_account_id_3() -> ExchangeAccountId {
    ExchangeAccountId::new("Binance", 2)
}

fn code(text: &str) -> CurrencyCode {
    CurrencyCode::new(text)
}

fn pair_from_codes(base: &str, quote: &str) -> CurrencyPair {
    CurrencyPair::new(&format!("{}/{}", base, quote))
}

fn currency_pair_metadata(base: &str, quote: &str) -> CurrencyPairMetadata {
    CurrencyPairMetadata {
        is_derivative: false,
        base_currency_code: code(base),
        quote_currency_code: code(quote),
        amount_currency_code: code(base),
        balance_currency_code: None,
        currency_pair: pair_from_codes(base, quote),
        price_precision: Precision::ByTick { tick: Decimal::from_parts(1, 1).expect("in range") },
        amount_precision: Precision::ByTick { tick: Decimal::zero() },
        amount_multiplier: Decimal::from_int(1),
    }
}

fn setting(exchange_account_id: ExchangeAccountId, currency_pair: CurrencyPair) -> ExchangeIdCurrencyPairSettings {
    ExchangeIdCurrencyPairSettings { exchange_account_id, currency_pair }
}

fn converter_of(markets: Vec<(ExchangeAccountId, CurrencyPairMetadata)>) -> CurrencyPairToMetadataConverter {
    let mut converter = CurrencyPairToMetadataConverter::new();
    for (exchange_account_id, metadata) in markets {
        converter.add(exchange_account_id, metadata);
    }
    converter
}

fn assert_same(actual: &PriceSourceChain, expected: &PriceSourceChain) {
    assert!(actual.same(expected), "expected {:?}, got {:?}", expected, actual);
}

#[test]
fn when_start_equal_end() {
    let price_source_settings = vec![CurrencyPriceSourceSettings::new(code("USDT"), code("USDT"), Vec::new())];

    let converter = converter_of(Vec::new());

    let actual = prepare_price_source_chains(&price_source_settings, &converter).expect("chains");

    let expected = PriceSourceChain::new(code("USDT"), code("USDT"), Vec::new());

    assert_same(actual.first().expect("in test"), &expected);
}

#[test]
fn when_start_equal_end_and_currency_pair() {
    let price_source_settings = vec![CurrencyPriceSourceSettings::new(
        code("USDT"),
        code("USDT"),
        vec![setting(exchange_account_id(), pair_from_codes("USDT", "USDT"))],
    )];

    let converter = converter_of(Vec::new());

    let actual = prepare_price_source_chains(&price_source_settings, &converter).expect("chains");

    let expected = PriceSourceChain::new(code("USDT"), code("USDT"), Vec::new());

    assert_same(actual.first().expect("in test"), &expected);
}

#[test]
fn when_one_currency_pair() {
    let base = "USDT";
    let quote = "BTC";
    let currency_pair = pair_from_codes(base, quote);

    let price_source_settings = vec![CurrencyPriceSourceSettings::new(
        code(quote),
        code(base),
        vec![setting(exchange_account_id(), currency_pair)],
    )];

    let converter = converter_of(vec![(exchange_account_id(), currency_pair_metadata(base, quote))]);

    let actual = prepare_price_source_chains(&price_source_settings, &converter).expect("chains");

    let expected = PriceSourceChain::new(
        code(quote),
        code(base),
        vec![RebasePriceStep::new(exchange_id(), currency_pair_metadata(base, quote), RebaseDirection::ToBase)],
    );

    assert_same(actual.first().expect("in test"), &expected);
}

fn two_currency_pairs(
    first_currency: &str,
    second_currency: &str,
    third_currency: &str,
    fourth_currency: &str,
    first_pair_direction: RebaseDirection,
    second_pair_direction: RebaseDirection,
) {
    let price_source_settings = vec![CurrencyPriceSourceSettings::new(
        code("EOS"),
        code("USDT"),
        vec![
            setting(exchange_account_id(), pair_from_codes(first_currency, second_currency)),
            setting(exchange_account_id_2(), pair_from_codes(third_currency, fourth_currency)),
        ],
    )];

    let converter = converter_of(vec![
        (exchange_account_id(), currency_pair_metadata(first_currency, second_currency)),
        (exchange_account_id_2(), currency_pair_metadata(third_currency, fourth_currency)),
    ]);

    let actual = prepare_price_source_chains(&price_source_settings, &converter).expect("chains");

    let expected = PriceSourceChain::new(
        code("EOS"),
        code("USDT"),
        vec![
            RebasePriceStep::new(
                exchange_id(),
                currency_pair_metadata(first_currency, second_currency),
                first_pair_direction,
            ),
            RebasePriceStep::new(
                exchange_id(),
                currency_pair_metadata(third_currency, fourth_currency),
                second_pair_direction,
            ),
        ],
    );

    assert_same(actual.first().expect("in test"), &expected);
}

#[test]
fn when_two_currency_pairs_eos_sell_btc_sell_usdt() {
    two_currency_pairs("EOS", "BTC", "BTC", "USDT", RebaseDirection::ToQuote, RebaseDirection::ToQuote);
}

#[test]
fn when_two_currency_pairs_eos_sell_btc_buy_usdt() {
    two_currency_pairs("EOS", "BTC", "USDT", "BTC", RebaseDirection::ToQuote, RebaseDirection::ToBase);
}

#[test]
fn when_two_currency_pairs_eos_buy_btc_sell_usdt() {
    two_currency_pairs("BTC", "EOS", "BTC", "USDT", RebaseDirection::ToBase, RebaseDirection::ToQuote);
}

#[test]
fn when_two_currency_pairs_eos_buy_btc_buy_usdt() {
    two_currency_pairs("BTC", "EOS", "USDT", "BTC", RebaseDirection::ToBase, RebaseDirection::ToBase);
}

#[test]
fn when_three_currency_pairs_karma_sell_eos_buy_btc_sell_usdt() {
    let eos = "EOS";
    let btc = "BTC";
    let usdt = "USDT";
    let karma = "KARMA";

    let price_source_settings = vec![CurrencyPriceSourceSettings::new(
        code(karma),
        code(usdt),
        vec![
            setting(exchange_account_id(), pair_from_codes(btc, eos)),
            setting(exchange_account_id_2(), pair_from_codes(karma, eos)),
            setting(exchange_account_id_3(), pair_from_codes(btc, usdt)),
        ],
    )];

    let converter = converter_of(vec![
        (exchange_account_id(), currency_pair_metadata(btc, eos)),
        (exchange_account_id_3(), currency_pair_metadata(btc, usdt)),
        (exchange_account_id_2(), currency_pair_metadata(karma, eos)),
    ]);

    let actual = prepare_price_source_chains(&price_source_settings, &converter).expect("chains");

    let expected = PriceSourceChain::new(
        code(karma),
        code(usdt),
        vec![
            RebasePriceStep::new(exchange_id(), currency_pair_metadata(karma, eos), RebaseDirection::ToQuote),
            RebasePriceStep::new(exchange_id(), currency_pair_metadata(btc, eos), RebaseDirection::ToBase),
            RebasePriceStep::new(exchange_id(), currency_pair_metadata(btc, usdt), RebaseDirection::ToQuote),
        ],
    );

    assert_same(actual.first().expect("in test"), &expected);

    let places = map_to_used_trade_places(&actual);
    let texts: Vec<(String, String)> =
        places.into_iter().map(|place| (place.exchange_id, place.currency_pair.pair)).collect();
    assert_eq!(
        texts,
        vec![
            ("Binance".to_string(), "KARMA/EOS".to_string()),
            ("Binance".to_string(), "BTC/EOS".to_string()),
            ("Binance".to_string(), "BTC/USDT".to_string()),
        ]
    );
}

#[test]
fn a_market_that_is_not_described_is_an_error() {
    // The second account trades BTC/USDT, not KARMA/EOS.
    let price_source_settings = vec![CurrencyPriceSourceSettings::new(
        code("EOS"),
        code("USDT"),
        vec![
            setting(exchange_account_id(), pair_from_codes("BTC", "EOS")),
            setting(exchange_account_id_2(), pair_from_codes("KARMA", "EOS")),
            setting(exchange_account_id_3(), pair_from_codes("BTC", "USDT")),
        ],
    )];
    let converter = converter_of(vec![
        (exchange_account_id(), currency_pair_metadata("BTC", "EOS")),
        (exchange_account_id_3(), currency_pair_metadata("BTC", "USDT")),
        (exchange_account_id_2(), currency_pair_metadata("BTC", "USDT")),
    ]);
    assert_eq!(
        prepare_price_source_chains(&price_source_settings, &converter).map(|_| ()),
        Err(ChainError::UnknownMarket)
    );
}

#[test]
fn a_currency_that_no_market_trades_is_an_error() {
    let price_source_settings = vec![CurrencyPriceSourceSettings::new(
        code("KARMA"),
        code("USDT"),
        vec![
            setting(exchange_account_id(), pair_from_codes("BTC", "EOS")),
            setting(exchange_account_id_2(), pair_from_codes("BTC", "USDT")),
        ],
    )];
    let converter = converter_of(vec![
        (exchange_account_id(), currency_pair_metadata("BTC", "EOS")),
        (exchange_account_id_2(), currency_pair_metadata("BTC", "USDT")),
    ]);
    assert_eq!(
        prepare_price_source_chains(&price_source_settings, &converter).map(|_| ()),
        Err(ChainError::NoPairForCurrency)
    );
}

#[test]
fn two_markets_for_one_currency_are_an_error() {
    let price_source_settings = vec![CurrencyPriceSourceSettings::new(
        code("BTC"),
        code("USDT"),
        vec![
            setting(exchange_account_id(), pair_from_codes("BTC", "EOS")),
            setting(exchange_account_id_2(), pair_from_codes("BTC", "USDT")),
        ],
    )];
    let converter = converter_of(vec![
        (exchange_account_id(), currency_pair_metadata("BTC", "EOS")),
        (exchange_account_id_2(), currency_pair_metadata("BTC", "USDT")),
    ]);
    assert_eq!(
        prepare_price_source_chains(&price_source_settings, &converter).map(|_| ()),
        Err(ChainError::SeveralPairsForCurrency)
    );
}

#[test]
fn no_settings_are_an_error() {
    let converter = converter_of(Vec::new());
    assert_eq!(prepare_price_source_chains(&Vec::new(), &converter).map(|_| ()), Err(ChainError::EmptySettings));
}

#[test]
fn a_chain_may_end_before_the_end_currency() {
    // The only market leads from BTC to USDT; the end is never reached, and
    // the chain holds the one step that could be taken.
    let price_source_settings = vec![CurrencyPriceSourceSettings::new(
        code("BTC"),
        code("EUR"),
        vec![setting(exchange_account_id(), pair_from_codes("BTC", "USDT"))],
    )];
    let converter = converter_of(vec![(exchange_account_id(), currency_pair_metadata("BTC", "USDT"))]);
    let actual = prepare_price_source_chains(&price_source_settings, &converter).expect("chains");
    assert_eq!(actual.len(), 1);
    assert_eq!(actual[0].rebase_price_steps.len(), 1);
    assert_eq!(actual[0].rebase_price_steps[0].direction, RebaseDirection::ToQuote);
    assert_eq!(actual[0].rebase_price_steps[0].target().code, "USDT");
}

#[test]
fn used_trade_places_hold_each_market_once() {
    let step = |base: &str, quote: &str| {
        RebasePriceStep::new(exchange_id(), currency_pair_metadata(base, quote), RebaseDirection::ToQuote)
    };
    let other = RebasePriceStep::new("Kraken".to_string(), currency_pair_metadata("BTC", "USDT"), RebaseDirection::ToBase);
    let chains = vec![
        PriceSourceChain::new(code("EOS"), code("USDT"), vec![step("EOS", "BTC"), step("BTC", "USDT")]),
        PriceSourceChain::new(code("USDT"), code("USDT"), Vec::new()),
        PriceSourceChain::new(code("BTC"), code("USDT"), vec![step("BTC", "USDT"), other, step("EOS", "BTC")]),
    ];
    let places: Vec<(String, String)> = map_to_used_trade_places(&chains)
        .into_iter()
        .map(|place| (place.exchange_id, place.currency_pair.pair))
        .collect();
    assert_eq!(
        places,
        vec![
            ("Binance".to_string(), "EOS/BTC".to_string()),
            ("Binance".to_string(), "BTC/USDT".to_string()),
            ("Kraken".to_string(), "BTC/USDT".to_string()),
        ]
    );
    assert!(map_to_used_trade_places(&Vec::new()).is_empty());
}

fn d(text: &str) -> Decimal {
    let parsed: rust_decimal::Decimal = text.parse().expect("a decimal");
    Decimal::from_parts(parsed.mantissa(), parsed.scale()).expect("in range")
}

fn place(pair: &str) -> TradePlace {
    TradePlace { exchange_id: exchange_id(), currency_pair: CurrencyPair::new(pair) }
}

#[test]
fn the_price_cache_changes_only_on_new_prices() {
    let mut cache = PriceCache::new();
    let first = PriceByOrderSide::new(Some(d("10")), Some(d("11")));
    assert!(cache.try_update_cache(place("BTC/USDT"), first));
    assert_eq!(cache.prices.len(), 1);

    let same_by_value = PriceByOrderSide::new(Some(d("10.0")), Some(d("11.00")));
    assert!(!cache.try_update_cache(place("BTC/USDT"), same_by_value));
    assert_eq!(cache.prices.len(), 1);

    let without_ask = PriceByOrderSide::new(Some(d("10")), None);
    assert!(cache.try_update_cache(place("BTC/USDT"), without_ask));
    assert_eq!(cache.prices.len(), 1);
    let held = cache.prices.get(&place("BTC/USDT")).expect("held");
    assert!(held.same(&without_ask));
    assert!(!held.same(&first));

    assert!(cache.try_update_cache(place("ETH/USDT"), without_ask));
    assert_eq!(cache.prices.len(), 2);
    assert!(!cache.try_update_cache(place("ETH/USDT"), without_ask));
}

#[test]
fn chains_are_found_by_their_ends() {
    let price_source_settings = vec![
        CurrencyPriceSourceSettings::new(
            code("BTC"),
            code("USDT"),
            vec![setting(exchange_account_id(), pair_from_codes("USDT", "BTC"))],
        ),
        CurrencyPriceSourceSettings::new(
            code("EOS"),
            code("USDT"),
            vec![
                setting(exchange_account_id(), pair_from_codes("EOS", "BTC")),
                setting(exchange_account_id_2(), pair_from_codes("BTC", "USDT")),
            ],
        ),
    ];
    let converter = converter_of(vec![
        (exchange_account_id(), currency_pair_metadata("USDT", "BTC")),
        (exchange_account_id(), currency_pair_metadata("EOS", "BTC")),
        (exchange_account_id_2(), currency_pair_metadata("BTC", "USDT")),
    ]);
    let chains = PriceSourceChains::new(&price_source_settings, &converter).expect("chains");
    assert_eq!(chains.chains.len(), 2);

    let short = chains.get(&code("BTC"), &code("USDT")).expect("a chain");
    assert_eq!(short.rebase_price_steps.len(), 1);
    let long = chains.get(&code("EOS"), &code("USDT")).expect("a chain");
    assert_eq!(long.rebase_price_steps.len(), 2);
    assert!(chains.get(&code("USDT"), &code("BTC")).is_none());
    assert!(chains.get(&code("EOS"), &code("BTC")).is_none());
}

#[test]
fn chains_of_settings_that_fail_are_refused() {
    let converter = converter_of(Vec::new());
    assert!(matches!(PriceSourceChains::new(&Vec::new(), &converter), Err(ChainError::EmptySettings)));

    let price_source_settings = vec![CurrencyPriceSourceSettings::new(
        code("BTC"),
        code("USDT"),
        vec![setting(exchange_account_id(), pair_from_codes("BTC", "USDT"))],
    )];
    assert!(matches!(
        PriceSourceChains::new(&price_source_settings, &converter),
        Err(ChainError::UnknownMarket)
    ));
}
