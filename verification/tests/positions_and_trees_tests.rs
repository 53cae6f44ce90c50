use mmb_core::balance_position_by_fill_amount::{BalancePositionByFillAmount, PositionChange, PositionRecord};
use mmb_core::balance_reservation::BalanceReservation;
use mmb_core::balance_reservation_storage::BalanceReservationStorage;
use mmb_core::balances::ReserveParameters;
use mmb_core::common::{
    BalanceRequest, ClientOrderFillId, ConfigurationDescriptor, CurrencyCode, CurrencyPair, ExchangeAccountId,
    OrderSide, ReservationId, TradePlaceAccount,
};
use mmb_core::currency_pair_metadata::{CurrencyPairMetadata, Precision};
use mmb_core::decimal::Decimal;
use mmb_core::errors::BalanceError;
use mmb_core::service_value_tree::ServiceValueTree;
use mmb_core::vec_map::VecMap;
use mmb_core::virtual_balance_holder::VirtualBalanceHolder;

fn d(text: &str) -> Decimal {
    let parsed: rust_decimal::Decimal = text.parse().expect("a decimal");
    Decimal::from_parts(parsed.mantissa(), parsed.scale()).expect("in range")
}

fn account() -> ExchangeAccountId {
    ExchangeAccountId::new("Binance", 0)
}

fn pair(text: &str) -> CurrencyPair {
    CurrencyPair::new(text)
}

fn place(text: &str) -> TradePlaceAccount {
    TradePlaceAccount::new(account(), pair(text))
}

fn fill(text: &str) -> Option<ClientOrderFillId> {
    Some(ClientOrderFillId::new(text))
}

fn request(code: &str) -> BalanceRequest {
    BalanceRequest::new(
        ConfigurationDescriptor::new("service", "key"),
        account(),
        pair("BTC/USDT"),
        CurrencyCode::new(code),
    )
}

#[test]
fn position_add_accumulates_and_records_history() {
    let mut tracker = BalancePositionByFillAmount::new();
    assert!(tracker.get(&account(), &pair("BTC/USDT")).is_none());
    assert_eq!(tracker.add(&account(), &pair("BTC/USDT"), d("0.5"), fill("f1"), 10), Ok(()));
    assert_eq!(tracker.add(&account(), &pair("BTC/USDT"), d("-0.2"), fill("f2"), 20), Ok(()));
    assert_eq!(tracker.add(&account(), &pair("ETH/USDT"), d("3"), fill("f3"), 20), Ok(()));
    assert_eq!(tracker.add(&account(), &pair("BTC/USDT"), d("1"), None, 30), Ok(()));
    assert!(tracker.get(&account(), &pair("BTC/USDT")).expect("a position").equals(&d("1.3")));
    assert!(tracker.get(&account(), &pair("ETH/USDT")).expect("a position").equals(&d("3")));
    assert_eq!(tracker.changes().len(), 3);
    assert_eq!(tracker.positions().len(), 2);
}

#[test]
fn position_history_is_kept_in_time_order() {
    let mut tracker = BalancePositionByFillAmount::new();
    assert_eq!(tracker.add(&account(), &pair("BTC/USDT"), d("0.5"), fill("f1"), 10), Ok(()));
    assert_eq!(
        tracker.add(&account(), &pair("BTC/USDT"), d("0.5"), fill("f2"), 9),
        Err(BalanceError::TimeWentBack)
    );
    assert!(tracker.get(&account(), &pair("BTC/USDT")).expect("a position").equals(&d("0.5")));
    // Without a fill nothing is recorded, so the time does not matter.
    assert_eq!(tracker.add(&account(), &pair("BTC/USDT"), d("0.5"), None, 9), Ok(()));
    assert_eq!(tracker.add(&account(), &pair("BTC/USDT"), d("0.5"), fill("f3"), 10), Ok(()));
}

#[test]
fn position_set_checks_the_previous_position() {
    let mut tracker = BalancePositionByFillAmount::new();
    assert_eq!(
        tracker.set(&account(), &pair("BTC/USDT"), Some(d("1")), d("2"), None, 1),
        Err(BalanceError::PositionMismatch)
    );
    assert_eq!(tracker.set(&account(), &pair("BTC/USDT"), None, d("2"), None, 1), Ok(()));
    assert_eq!(
        tracker.set(&account(), &pair("BTC/USDT"), None, d("3"), None, 1),
        Err(BalanceError::PositionMismatch)
    );
    assert_eq!(
        tracker.set(&account(), &pair("BTC/USDT"), Some(d("2.5")), d("3"), None, 1),
        Err(BalanceError::PositionMismatch)
    );
    assert_eq!(tracker.set(&account(), &pair("BTC/USDT"), Some(d("2.0")), d("3"), fill("f"), 1), Ok(()));
    assert!(tracker.get(&account(), &pair("BTC/USDT")).expect("a position").equals(&d("3")));
}

#[test]
fn last_position_change_before_period() {
    let mut tracker = BalancePositionByFillAmount::new();
    for (index, (market, time)) in [
        ("BTC/USDT", 10),
        ("ETH/USDT", 20),
        ("BTC/USDT", 30),
        ("ETH/USDT", 30),
        ("BTC/USDT", 50),
        ("ETH/USDT", 60),
    ]
    .iter()
    .enumerate()
    {
        let id = format!("f{}", index);
        assert_eq!(tracker.add(&account(), &pair(market), d("1"), fill(&id), *time), Ok(()));
    }
    let last = |market: &str, moment: i64| {
        tracker
            .get_last_position_change_before_period(&place(market), moment)
            .map(|change| (change.client_order_fill_id.id, change.change_time))
    };
    assert_eq!(last("BTC/USDT", 9), None);
    assert_eq!(last("BTC/USDT", 10), Some(("f0".to_string(), 10)));
    assert_eq!(last("BTC/USDT", 29), Some(("f0".to_string(), 10)));
    assert_eq!(last("BTC/USDT", 30), Some(("f2".to_string(), 30)));
    assert_eq!(last("ETH/USDT", 30), Some(("f3".to_string(), 30)));
    assert_eq!(last("ETH/USDT", 19), None);
    assert_eq!(last("ETH/USDT", 1000), Some(("f5".to_string(), 60)));
    assert_eq!(last("BTC/USDT", 1000), Some(("f4".to_string(), 50)));
    assert_eq!(last("XRP/USDT", 1000), None);
}

#[test]
fn tracker_from_parts_checks_the_order_of_time() {
    let record = |time: i64| PositionRecord {
        trade_place: place("BTC/USDT"),
        change: PositionChange::new(ClientOrderFillId::new("f"), time),
    };
    assert!(BalancePositionByFillAmount::from_parts(VecMap::new(), vec![record(1), record(1), record(3)]).is_some());
    assert!(BalancePositionByFillAmount::from_parts(VecMap::new(), vec![record(1), record(3), record(2)]).is_none());
    assert!(BalancePositionByFillAmount::from_parts(VecMap::new(), Vec::new()).is_some());
    let copy = BalancePositionByFillAmount::from_parts(VecMap::new(), vec![record(1)]).expect("ordered").clone();
    assert_eq!(copy.changes().len(), 1);
}

#[test]
fn value_tree_sets_and_adds() {
    let mut tree = ServiceValueTree::new();
    assert!(tree.get_by_balance_request(&request("BTC")).is_none());
    assert!(tree.add_by_request(&request("BTC"), d("1.5")));
    assert!(tree.add_by_request(&request("BTC"), d("-0.25")));
    assert!(tree.add_by_request(&request("USDT"), d("7")));
    assert!(tree.get_by_balance_request(&request("BTC")).expect("a value").equals(&d("1.25")));
    assert!(tree.planned_sum(&request("BTC"), d("1")).expect("a sum").equals(&d("2.25")));
    assert!(tree.planned_sum(&request("ETH"), d("1")).expect("a sum").equals(&d("1")));
    tree.set_by_balance_request(&request("BTC"), d("9"));
    assert!(tree.get_by_balance_request(&request("BTC")).expect("a value").equals(&d("9")));
    assert!(tree.get_by_balance_request(&request("USDT")).expect("a value").equals(&d("7")));
    assert_eq!(tree.tree.len(), 2);
    let copy = tree.clone();
    assert!(copy.get_by_balance_request(&request("BTC")).expect("a value").equals(&d("9")));
    // A sum that overflows leaves the tree as it was.
    let max = Decimal::from_parts(79_228_162_514_264_337_593_543_950_335, 0).expect("in range");
    assert!(!tree.add_by_request(&request("BTC"), max));
    assert!(tree.get_by_balance_request(&request("BTC")).expect("a value").equals(&d("9")));
}

#[test]
fn value_tree_adds_exactly_or_not_at_all() {
    let mut tree = ServiceValueTree::new();
    assert!(tree.add_exactly_by_request(&request("BTC"), d("100")));
    assert!(tree.add_exactly_by_request(&request("BTC"), d("0.5")));
    assert!(tree.planned_exact_sum(&request("BTC"), d("1")).expect("a sum").equals(&d("101.5")));
    let tail = Decimal::from_parts(1, 28).expect("in range");
    assert!(tree.planned_exact_sum(&request("BTC"), tail).is_none());
    assert!(!tree.add_exactly_by_request(&request("BTC"), tail));
    assert!(tree.get_by_balance_request(&request("BTC")).expect("a value").equals(&d("100.5")));
    // The arithmetic itself rounds the sum.
    assert!(tree.planned_sum(&request("BTC"), tail).expect("a sum").equals(&d("100.5")));
    assert!(tree.add_by_request(&request("BTC"), tail));
    assert!(tree.add_exactly_by_request(&request("USDT"), tail));
    assert!(tree.get_by_balance_request(&request("USDT")).expect("a value").equals(&tail));
}

#[test]
fn requests_differ_in_every_part() {
    let mut tree = ServiceValueTree::new();
    let base = request("BTC");
    tree.set_by_balance_request(&base, d("1"));
    let other_descriptor = BalanceRequest { configuration_descriptor: ConfigurationDescriptor::new("service", "other"), ..request("BTC") };
    let other_account = BalanceRequest { exchange_account_id: ExchangeAccountId::new("Binance", 1), ..request("BTC") };
    let other_pair = BalanceRequest { currency_pair: pair("BTC/EUR"), ..request("BTC") };
    assert!(tree.get_by_balance_request(&other_descriptor).is_none());
    assert!(tree.get_by_balance_request(&other_account).is_none());
    assert!(tree.get_by_balance_request(&other_pair).is_none());
    assert!(tree.get_by_balance_request(&request("USDT")).is_none());
    assert!(tree.get_by_balance_request(&request("BTC")).is_some());
}

#[test]
fn association_list_keeps_one_entry_per_key() {
    let mut map: VecMap<ReservationId, u32> = VecMap::new();
    map.insert(ReservationId::new(1), 10);
    map.insert(ReservationId::new(2), 20);
    map.insert(ReservationId::new(1), 11);
    assert_eq!(map.len(), 2);
    assert_eq!(map.get(&ReservationId::new(1)), Some(&11));
    assert_eq!(map.position(&ReservationId::new(2)), 1);
    assert_eq!(map.position(&ReservationId::new(3)), 2);
    assert!(map.contains_key(&ReservationId::new(2)));
    assert_eq!(map.remove(&ReservationId::new(1)), Some(11));
    assert_eq!(map.remove(&ReservationId::new(1)), None);
    assert_eq!(map.get(&ReservationId::new(1)), None);
    assert_eq!(map.get(&ReservationId::new(2)), Some(&20));
    map.clear();
    assert_eq!(map.len(), 0);
}

fn market(is_derivative: bool, balance_code: Option<&str>) -> CurrencyPairMetadata {
    CurrencyPairMetadata {
        is_derivative,
        base_currency_code: CurrencyCode::new("BTC"),
        quote_currency_code: CurrencyCode::new("USDT"),
        amount_currency_code: CurrencyCode::new("BTC"),
        balance_currency_code: balance_code.map(CurrencyCode::new),
        currency_pair: pair("BTC/USDT"),
        price_precision: Precision::ByTick { tick: d("0.1") },
        amount_precision: Precision::ByTick { tick: d("0.001") },
        amount_multiplier: d("1"),
    }
}

fn reservation(amount: &str) -> BalanceReservation {
    BalanceReservation::new(
        ConfigurationDescriptor::new("service", "key"),
        account(),
        market(false, None),
        OrderSide::Buy,
        d("0.2"),
        d(amount),
        d("0"),
        d("1"),
        CurrencyCode::new("USDT"),
    )
}

#[test]
fn holder_adds_differences_to_reported_balances() {
    let mut holder = VirtualBalanceHolder::new();
    let spot = market(false, None);
    assert!(holder.get_virtual_balance(&request("USDT"), &spot, None).is_none());
    assert!(holder.get_raw_exchange_balance(&account(), &CurrencyCode::new("USDT")).is_none());

    holder.set_raw_balance(&account(), &CurrencyCode::new("USDT"), d("100"));
    assert!(holder.get_virtual_balance(&request("USDT"), &spot, None).expect("known").equals(&d("100")));
    assert!(holder.get_virtual_balance(&request("BTC"), &spot, None).is_none());

    assert!(holder.add_balance(&request("USDT"), d("-30.5")));
    assert!(holder.add_balance(&request("USDT"), d("0.25")));
    assert!(holder.get_virtual_balance(&request("USDT"), &spot, None).expect("known").equals(&d("69.75")));
    assert!(holder.get_raw_exchange_balance(&account(), &CurrencyCode::new("USDT")).expect("known").equals(&d("100")));

    holder.set_raw_balance(&account(), &CurrencyCode::new("USDT"), d("50"));
    assert_eq!(holder.get_raw_exchange_balances().len(), 1);
    assert!(holder.get_virtual_balance(&request("USDT"), &spot, None).expect("known").equals(&d("19.75")));
    let diffs = holder.get_virtual_balance_diffs();
    assert!(diffs.get_by_balance_request(&request("USDT")).expect("recorded").equals(&d("-30.25")));
    assert!(diffs.get_by_balance_request(&request("BTC")).is_none());
}

#[test]
fn holder_refuses_a_difference_that_overflows() {
    let mut holder = VirtualBalanceHolder::new();
    let largest = Decimal::from_parts(79228162514264337593543950335, 0).expect("in range");
    assert!(holder.add_balance(&request("USDT"), largest));
    assert!(!holder.add_balance(&request("USDT"), largest));
    let diffs = holder.get_virtual_balance_diffs();
    assert!(diffs.get_by_balance_request(&request("USDT")).expect("recorded").equals(&largest));
}

#[test]
fn holder_converts_the_balance_of_a_derivative_market() {
    let mut holder = VirtualBalanceHolder::new();
    let derivative = market(true, Some("BTC"));
    holder.set_raw_balance(&account(), &CurrencyCode::new("BTC"), d("2"));

    assert!(holder.get_virtual_balance(&request("BTC"), &derivative, None).expect("known").equals(&d("2")));
    assert!(holder.get_virtual_balance(&request("USDT"), &derivative, None).is_none());
    let in_quote = holder.get_virtual_balance(&request("USDT"), &derivative, Some(d("10"))).expect("known");
    assert!(in_quote.equals(&d("20")));

    let without_balance_currency = market(true, None);
    assert!(holder.get_virtual_balance(&request("BTC"), &without_balance_currency, None).is_none());
}

#[test]
fn storage_keeps_reservations_by_identifier() {
    let mut storage = BalanceReservationStorage::new();
    assert_eq!(storage.len(), 0);
    assert!(storage.try_get(ReservationId::new(1)).is_none());

    storage.add(ReservationId::new(1), reservation("5"));
    storage.add(ReservationId::new(2), reservation("6"));
    storage.add(ReservationId::new(3), reservation("7"));
    assert_eq!(storage.len(), 3);
    assert_eq!(storage.position(ReservationId::new(2)), 1);
    assert_eq!(storage.position(ReservationId::new(9)), 3);
    assert!(storage.at(2).amount.equals(&d("7")));
    assert!(storage.try_get(ReservationId::new(2)).expect("stored").amount.equals(&d("6")));
    assert_eq!(storage.get_reservation_ids().iter().map(|id| id.id).collect::<Vec<u64>>(), vec![1, 2, 3]);
    assert_eq!(storage.get_all_raw_reservations().len(), 3);

    storage.add(ReservationId::new(2), reservation("8"));
    assert_eq!(storage.len(), 3);
    assert!(storage.try_get(ReservationId::new(2)).expect("stored").amount.equals(&d("8")));

    storage.try_get_mut(ReservationId::new(1)).expect("stored").unreserved_amount = d("1");
    assert!(storage.try_get(ReservationId::new(1)).expect("stored").unreserved_amount.equals(&d("1")));
    assert!(storage.try_get_mut(ReservationId::new(9)).is_none());

    storage.replace(0, reservation("9"));
    assert!(storage.try_get(ReservationId::new(1)).expect("stored").amount.equals(&d("9")));

    let removed = storage.remove(ReservationId::new(2)).expect("stored");
    assert!(removed.amount.equals(&d("8")));
    assert!(storage.remove(ReservationId::new(2)).is_none());
    assert_eq!(storage.get_reservation_ids().iter().map(|id| id.id).collect::<Vec<u64>>(), vec![1, 3]);

    let copy = storage.clone();
    storage.clear();
    assert_eq!(storage.len(), 0);
    assert_eq!(copy.len(), 2);
}

#[test]
fn parameters_of_a_reservation_for_another_amount() {
    let made = reservation("5");
    let parameters = ReserveParameters::from_reservation(&made, d("2"));
    assert!(parameters.amount.equals(&d("2")));
    assert!(parameters.price.equals(&d("0.2")));
    assert!(matches!(parameters.order_side, OrderSide::Buy));
    assert_eq!(parameters.exchange_account_id.exchange_id, "Binance");
    assert_eq!(parameters.currency_pair_metadata.currency_pair.pair, "BTC/USDT");
    assert_eq!(parameters.configuration_descriptor.service_name, "service");
}
