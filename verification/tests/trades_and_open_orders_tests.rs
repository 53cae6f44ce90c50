use mmb_core::common::{ClientOrderId, CurrencyCode, CurrencyPair, ExchangeAccountId, OrderSide};
use mmb_core::currency_pair_metadata::{CurrencyPairMetadata, Precision};
use mmb_core::decimal::Decimal;
use mmb_core::events::{OrderStatus, TradeId};
use mmb_core::exchange::Exchange;
use mmb_core::open_orders::{OrderInfo, OrderTrade};
use mmb_core::orders::{ExchangeOrderId, OrderSnapshot, OrderType, OrdersPool};
use mmb_core::price_source_chains::TradePlace;
use mmb_core::trades::{LastTrades, TradeError, TradeOptions};

fn d(text: &str) -> Decimal {
    let parsed: rust_decimal::Decimal = text.parse().expect("a decimal");
    Decimal::from_parts(parsed.mantissa(), parsed.scale()).expect("in range")
}

fn exchange() -> Exchange {
    Exchange::new(ExchangeAccountId::new("Binance", 0))
}

fn btc_usdt() -> CurrencyPair {
    CurrencyPair::new("BTC/USDT")
}

fn place() -> TradePlace {
    TradePlace { exchange_id: "Binance".to_owned(), currency_pair: btc_usdt() }
}

fn options(subscribe_to_market_data: bool, request_trades: bool, supports_trade_incremented_id: bool) -> TradeOptions {
    TradeOptions { subscribe_to_market_data, request_trades, supports_trade_incremented_id }
}

fn trade(
    exchange: &Exchange,
    options: &TradeOptions,
    state: &mut LastTrades,
    trade_id: TradeId,
    transaction_time: i64,
    now: i64,
) -> Result<Option<usize>, TradeError> {
    exchange
        .handle_trade(options, state, &btc_usdt(), trade_id, d("20000"), d("0.5"), OrderSide::Sell, transaction_time, now)
        .map(|event| event.map(|event| event.trades.len()))
}

#[test]
fn a_trade_is_handed_on_where_trades_are_not_polled() {
    let exchange = exchange();
    let mut state = LastTrades::new();
    let event = exchange
        .handle_trade(
            &options(false, false, false),
            &mut state,
            &btc_usdt(),
            TradeId::Number(7),
            d("20000"),
            d("0.5"),
            OrderSide::Sell,
            100,
            150,
        )
        .expect("accepted")
        .expect("handed on");
    assert_eq!(event.exchange_account_id.exchange_id, "Binance");
    assert_eq!(event.currency_pair.pair, "BTC/USDT");
    assert_eq!(event.receipt_time, 150);
    assert_eq!(event.trades.len(), 1);
    assert!(matches!(event.trades[0].trade_id, TradeId::Number(7)));
    assert!(event.trades[0].price.equals(&d("20000")));
    assert!(event.trades[0].quantity.equals(&d("0.5")));
    assert_eq!(event.trades[0].side, OrderSide::Sell);
    assert_eq!(event.trades[0].transaction_time, 100);
    assert_eq!(state.last_trades_update_time.get(&place()), Some(&150));
    assert!(state.last_trades.get(&place()).is_none());
}

#[test]
fn a_trade_is_not_handed_on_where_market_data_come_by_subscription() {
    let exchange = exchange();
    let mut state = LastTrades::new();
    let told = trade(&exchange, &options(true, true, true), &mut state, TradeId::Number(7), 100, 150);
    assert_eq!(told, Ok(None));
    assert_eq!(state.last_trades_update_time.get(&place()), Some(&150));
    assert!(state.last_trades.get(&place()).is_none());
}

#[test]
fn polled_trades_are_handed_on_when_their_number_is_higher() {
    let exchange = exchange();
    let polled = options(false, true, true);
    let mut state = LastTrades::new();

    // The first trade of a market is remembered and not handed on.
    assert_eq!(trade(&exchange, &polled, &mut state, TradeId::Number(7), 100, 150), Ok(None));
    assert!(matches!(state.last_trades.get(&place()).expect("remembered").trade_id, TradeId::Number(7)));

    assert_eq!(trade(&exchange, &polled, &mut state, TradeId::Number(7), 200, 250), Ok(None));
    assert_eq!(trade(&exchange, &polled, &mut state, TradeId::Number(6), 300, 350), Ok(None));
    assert!(matches!(state.last_trades.get(&place()).expect("remembered").trade_id, TradeId::Number(7)));
    assert_eq!(state.last_trades_update_time.get(&place()), Some(&350));

    assert_eq!(trade(&exchange, &polled, &mut state, TradeId::Number(8), 50, 400), Ok(Some(1)));
    assert!(matches!(state.last_trades.get(&place()).expect("remembered").trade_id, TradeId::Number(8)));
    assert_eq!(state.last_trades.len(), 1);
}

#[test]
fn polled_trades_without_numbers_are_handed_on_when_they_are_later() {
    let exchange = exchange();
    let polled = options(false, true, false);
    let mut state = LastTrades::new();
    let id = |text: &str| TradeId::String(text.to_owned());

    assert_eq!(trade(&exchange, &polled, &mut state, id("a"), 100, 150), Ok(None));
    assert_eq!(trade(&exchange, &polled, &mut state, id("b"), 100, 160), Ok(None));
    assert_eq!(trade(&exchange, &polled, &mut state, id("c"), 99, 170), Ok(None));
    assert_eq!(trade(&exchange, &polled, &mut state, id("d"), 101, 180), Ok(Some(1)));
    assert_eq!(state.last_trades.get(&place()).expect("remembered").transaction_time, 101);
}

#[test]
fn a_text_where_a_number_is_needed_is_an_error() {
    let exchange = exchange();
    let polled = options(false, true, true);
    let mut state = LastTrades::new();
    assert_eq!(trade(&exchange, &polled, &mut state, TradeId::Number(7), 100, 150), Ok(None));
    assert_eq!(
        trade(&exchange, &polled, &mut state, TradeId::String("x".to_owned()), 200, 250),
        Err(TradeError::TradeIdNotANumber)
    );
    assert!(matches!(state.last_trades.get(&place()).expect("remembered").trade_id, TradeId::Number(7)));
    assert_eq!(state.last_trades_update_time.get(&place()), Some(&250));
}

fn open_order(client_order_id: &str, exchange_order_id: &str, amount: &str) -> OrderInfo {
    OrderInfo {
        currency_pair: btc_usdt(),
        exchange_order_id: ExchangeOrderId::new(exchange_order_id),
        client_order_id: ClientOrderId::new(client_order_id),
        order_side: OrderSide::Sell,
        order_status: OrderStatus::Created,
        price: d("20000"),
        amount: d(amount),
    }
}

fn fresh(n: usize) -> Vec<ClientOrderId> {
    (0..n).map(|i| ClientOrderId::new(&format!("fresh-{}", i))).collect()
}

#[test]
fn open_orders_that_the_pool_lacks_are_added() {
    let exchange = exchange();
    let mut orders = OrdersPool::new();
    let mut known = OrderSnapshot::with_params(
        ClientOrderId::new("known"),
        OrderType::Limit,
        None,
        exchange.exchange_account_id.clone(),
        btc_usdt(),
        d("1"),
        d("2"),
        OrderSide::Buy,
        None,
    );
    known.exchange_order_id = Some(ExchangeOrderId::new("e-known"));
    orders.add_snapshot_initial(known);

    let open_orders = vec![
        open_order("other", "e-known", "1"),
        open_order("mine", "e-1", "3"),
        open_order("", "e-2", "4"),
        open_order("", "e-2", "5"),
    ];
    exchange.add_missing_open_orders(&mut orders, &open_orders, &fresh(4));

    assert_eq!(orders.len(), 3);
    let mine = orders.get_by_client_id(&ClientOrderId::new("mine")).expect("added");
    assert_eq!(mine.order_type, OrderType::Unknown);
    assert_eq!(mine.role, None);
    assert_eq!(mine.status, OrderStatus::Created);
    assert_eq!(mine.side, OrderSide::Sell);
    assert!(mine.amount.equals(&d("3")));
    assert!(mine.price.equals(&d("20000")));
    assert_eq!(mine.exchange_order_id.as_ref().expect("known to the exchange").id, "e-1");
    assert_eq!(mine.exchange_account_id.exchange_id, "Binance");
    assert!(mine.fills.is_empty());

    // The order without an identifier got the fresh one of its place, and the
    // exchange's order is added once.
    let unnamed = orders.get_by_exchange_id(&ExchangeOrderId::new("e-2")).expect("added");
    assert_eq!(unnamed.client_order_id.id, "fresh-2");
    assert!(unnamed.amount.equals(&d("4")));
    assert!(orders.get_by_client_id(&ClientOrderId::new("fresh-3")).is_none());
    assert!(orders.get_by_client_id(&ClientOrderId::new("other")).is_none());

    exchange.add_missing_open_orders(&mut orders, &open_orders, &fresh(4));
    assert_eq!(orders.len(), 3);
}

#[test]
fn open_orders_beyond_the_fresh_identifiers_are_left_out() {
    let exchange = exchange();
    let mut orders = OrdersPool::new();
    let open_orders = vec![open_order("a", "e-1", "1"), open_order("b", "e-2", "1"), open_order("c", "e-3", "1")];
    exchange.add_missing_open_orders(&mut orders, &open_orders, &fresh(2));
    assert_eq!(orders.len(), 2);
    assert!(orders.get_by_client_id(&ClientOrderId::new("c")).is_none());
    assert_eq!(orders.position_by_exchange_id(&ExchangeOrderId::new("e-2")), 1);
    assert_eq!(orders.position_by_exchange_id(&ExchangeOrderId::new("e-3")), 2);
    assert_eq!(orders.position_by_client_id(&ClientOrderId::new("a")), 0);
}

#[test]
fn the_trades_of_an_order_are_picked_by_the_identifier_of_the_exchange() {
    let trade = |id: Option<&str>| OrderTrade { exchange_order_id: id.map(ExchangeOrderId::new) };
    let my_trades = vec![trade(Some("e-1")), trade(None), trade(Some("e-2")), trade(Some("e-1"))];

    let of_first = Exchange::get_my_trades_with_filter(&my_trades, &Some(ExchangeOrderId::new("e-1")));
    assert_eq!(of_first.len(), 2);
    assert!(of_first.iter().all(|trade| trade.exchange_order_id.as_ref().expect("named").id == "e-1"));

    let of_none = Exchange::get_my_trades_with_filter(&my_trades, &None);
    assert_eq!(of_none.len(), 1);
    assert!(of_none[0].exchange_order_id.is_none());

    assert!(Exchange::get_my_trades_with_filter(&my_trades, &Some(ExchangeOrderId::new("e-3"))).is_empty());
}

#[test]
fn a_currency_pair_is_made_of_its_codes() {
    let pair = CurrencyPair::from_codes(&CurrencyCode::new("BTC"), &CurrencyCode::new("USDT"));
    assert_eq!(pair.pair, "BTC/USDT");
}

#[test]
fn the_commission_is_taken_in_what_the_order_receives() {
    let mut metadata = CurrencyPairMetadata {
        is_derivative: false,
        base_currency_code: CurrencyCode::new("BTC"),
        quote_currency_code: CurrencyCode::new("USDT"),
        amount_currency_code: CurrencyCode::new("BTC"),
        balance_currency_code: None,
        currency_pair: btc_usdt(),
        price_precision: Precision::ByTick { tick: d("0.1") },
        amount_precision: Precision::ByTick { tick: d("0.001") },
        amount_multiplier: d("1"),
    };
    assert_eq!(metadata.get_commission_currency_code(OrderSide::Buy).code, "BTC");
    assert_eq!(metadata.get_commission_currency_code(OrderSide::Sell).code, "USDT");
    metadata.balance_currency_code = Some(CurrencyCode::new("ETH"));
    assert_eq!(metadata.get_commission_currency_code(OrderSide::Buy).code, "ETH");
    assert_eq!(metadata.get_commission_currency_code(OrderSide::Sell).code, "ETH");
}
