use mmb_core::balance_reservation::BalanceReservation;
use mmb_core::balance_reservation_manager::BalanceReservationManager;
use mmb_core::balances::ReserveParameters;
use mmb_core::common::{
    BalanceRequest, BeforeAfter, ClientOrderId, ConfigurationDescriptor, CurrencyCode, CurrencyPair, ExchangeAccountId,
    OrderSide, ReservationId,
};
use mmb_core::currency_pair_metadata::{CurrencyPairMetadata, Precision};
use mmb_core::decimal::Decimal;
use mmb_core::exchange::{CurrencyPairToMetadataConverter, Exchange};
use mmb_core::vec_map::VecMap;

fn d(text: &str) -> Decimal {
    let parsed: rust_decimal::Decimal = text.parse().expect("a decimal");
    Decimal::from_parts(parsed.mantissa(), parsed.scale()).expect("in range")
}

fn account() -> ExchangeAccountId {
    ExchangeAccountId::new("Binance", 0)
}

fn spot() -> CurrencyPairMetadata {
    CurrencyPairMetadata {
        is_derivative: false,
        base_currency_code: CurrencyCode::new("BTC"),
        quote_currency_code: CurrencyCode::new("USDT"),
        amount_currency_code: CurrencyCode::new("BTC"),
        balance_currency_code: None,
        currency_pair: CurrencyPair::new("BTC/USDT"),
        price_precision: Precision::ByFraction { precision: 2 },
        amount_precision: Precision::ByFraction { precision: 8 },
        amount_multiplier: d("1"),
    }
}

fn manager() -> BalanceReservationManager {
    let mut exchange = Exchange::new(account());
    exchange.set_leverage(CurrencyPair::new("BTC/USDT"), d("1"));
    let mut exchanges: VecMap<ExchangeAccountId, Exchange> = VecMap::new();
    exchanges.insert(account(), exchange);
    let mut converter = CurrencyPairToMetadataConverter::new();
    converter.add(account(), spot());
    let mut manager = BalanceReservationManager::new(exchanges, converter);
    manager.virtual_balance_holder.set_raw_balance(&account(), &CurrencyCode::new("USDT"), d("100000"));
    manager.virtual_balance_holder.set_raw_balance(&account(), &CurrencyCode::new("BTC"), d("10"));
    manager
}

fn parameters(side: OrderSide, price: &str, amount: &str) -> ReserveParameters {
    ReserveParameters::new(
        ConfigurationDescriptor::new("service", "key"),
        account(),
        spot(),
        side,
        d(price),
        d(amount),
    )
}

fn reserve(manager: &mut BalanceReservationManager, side: OrderSide, price: &str, amount: &str) -> ReservationId {
    let mut id = ReservationId::new(0);
    assert!(manager.try_reserve(&parameters(side, price, amount), &mut id));
    id
}

fn sum(values: impl Iterator<Item = Decimal>) -> Decimal {
    values.fold(Decimal::zero(), |total, value| total.exact_add(value).expect("exact"))
}

/// The not approved amount and what is left of the parts, canceled or not,
/// add up to what the reservation has reserved.
fn is_balanced(reservation: &BalanceReservation) -> bool {
    let parts = sum(reservation.approved_parts.entries.iter().map(|(_, part)| part.unreserved_amount));
    reservation.not_approved_amount.exact_add(parts).expect("exact").equals(&reservation.unreserved_amount)
}

fn all_balanced(manager: &BalanceReservationManager) -> bool {
    manager.balance_reservation_storage.reservations.entries.iter().all(|(_, reservation)| is_balanced(reservation))
}

/// Under every request the tree holds what the reservations of that request
/// have reserved together.
fn is_in_step(manager: &BalanceReservationManager) -> bool {
    let reservations = &manager.balance_reservation_storage.reservations.entries;
    let requests: Vec<BalanceRequest> = reservations
        .iter()
        .map(|(_, reservation)| {
            BalanceRequest::new(
                reservation.configuration_descriptor.clone(),
                reservation.exchange_account_id.clone(),
                reservation.currency_pair_metadata.currency_pair(),
                reservation.currency_pair_metadata.get_trade_code(reservation.order_side, BeforeAfter::Before),
            )
        })
        .collect();
    let of_reservations = requests.iter().all(|request| {
        let together = sum(reservations
            .iter()
            .zip(requests.iter())
            .filter(|(_, other)| {
                other.currency_code.code == request.currency_code.code
                    && other.currency_pair.pair == request.currency_pair.pair
            })
            .map(|((_, reservation), _)| reservation.unreserved_amount));
        manager
            .reserved_amount_in_amount_currency
            .get_by_balance_request(request)
            .unwrap_or(Decimal::zero())
            .equals(&together)
    });
    let of_the_tree = manager.reserved_amount_in_amount_currency.tree.entries.iter().all(|(request, value)| {
        value.is_zero() || requests.iter().any(|other| other.currency_code.code == request.currency_code.code)
    });
    of_reservations && of_the_tree
}

fn order(text: &str) -> ClientOrderId {
    ClientOrderId::new(text)
}

#[test]
fn reservations_stay_balanced() {
    let mut manager = manager();
    let first = reserve(&mut manager, OrderSide::Buy, "20000", "0.5");
    let second = reserve(&mut manager, OrderSide::Buy, "20000", "0.25");
    let third = reserve(&mut manager, OrderSide::Sell, "20000", "1");
    assert!(all_balanced(&manager));
    manager.approve_reservation(first, &order("o1"), d("0.2"), 1).expect("approved");
    manager.approve_reservation(first, &order("o2"), d("0.1"), 2).expect("approved");
    manager.approve_reservation(third, &order("o3"), d("1"), 3).expect("approved");
    assert!(all_balanced(&manager));
    manager.unreserve(first, d("0.05"), &Some(order("o1"))).expect("unreserved");
    manager.unreserve(first, d("0.1"), &None).expect("unreserved");
    manager.unreserve(third, d("0.5"), &Some(order("o3"))).expect("unreserved");
    assert!(all_balanced(&manager));
    manager.cancel_approved_reservation(first, &order("o2")).expect("canceled");
    assert!(all_balanced(&manager));
    assert_eq!(manager.try_transfer_reservation(first, second, d("0.1"), &None, 4), Ok(true));
    assert_eq!(manager.try_transfer_reservation(second, first, d("0.3"), &None, 5), Ok(true));
    assert!(all_balanced(&manager));
    assert_eq!(manager.balance_reservation_storage.len(), 3);
}

#[test]
fn price_update_of_a_partly_unreserved_reservation_unbalances_it() {
    let mut manager = manager();
    let id = reserve(&mut manager, OrderSide::Sell, "20000", "1");
    assert!(manager.try_update_reservation_price(id, d("21000")));
    assert!(all_balanced(&manager));
    manager.unreserve(id, d("0.25"), &None).expect("unreserved");
    assert!(all_balanced(&manager));
    assert!(manager.try_update_reservation_price(id, d("22000")));
    let reservation = manager.get_reservation(&id).expect("the reservation");
    assert!(reservation.not_approved_amount.equals(&d("1")));
    assert!(reservation.unreserved_amount.equals(&d("0.75")));
    assert!(!all_balanced(&manager));
}

#[test]
fn reserved_tree_stays_in_step() {
    let mut manager = manager();
    assert!(is_in_step(&manager));
    let first = reserve(&mut manager, OrderSide::Buy, "20000", "0.5");
    let second = reserve(&mut manager, OrderSide::Buy, "30000", "0.25");
    let third = reserve(&mut manager, OrderSide::Sell, "20000", "1");
    assert!(is_in_step(&manager));
    manager.approve_reservation(first, &order("o1"), d("0.2"), 1).expect("approved");
    manager.unreserve(first, d("0.05"), &Some(order("o1"))).expect("unreserved");
    manager.unreserve(third, d("1"), &None).expect("unreserved");
    manager.cancel_approved_reservation(first, &order("o1")).expect("canceled");
    assert!(is_in_step(&manager));
    manager.unreserve(second, d("0.25"), &None).expect("unreserved");
    assert!(is_in_step(&manager));
    assert_eq!(manager.balance_reservation_storage.len(), 1);
    manager
        .reserved_amount_in_amount_currency
        .set_by_balance_request(&BalanceRequest::new(
            ConfigurationDescriptor::new("service", "key"),
            account(),
            CurrencyPair::new("BTC/USDT"),
            CurrencyCode::new("USDT"),
        ), d("3"));
    assert!(!is_in_step(&manager));
    manager.sync_reservation_amounts().expect("recomputed");
    assert!(is_in_step(&manager));
}

#[test]
fn reserve_then_unreserve_restores_the_state() {
    let mut manager = manager();
    reserve(&mut manager, OrderSide::Buy, "20000", "0.5");
    let before = manager.get_state();
    let id = reserve(&mut manager, OrderSide::Buy, "25000", "0.125");
    manager.unreserve(id, d("0.125"), &None).expect("unreserved");
    let after = manager.get_state();
    assert_eq!(
        after.balance_reservations_by_reservation_id.get_reservation_ids(),
        before.balance_reservations_by_reservation_id.get_reservation_ids()
    );
    let request = BalanceRequest::new(
        ConfigurationDescriptor::new("service", "key"),
        account(),
        CurrencyPair::new("BTC/USDT"),
        CurrencyCode::new("USDT"),
    );
    let value = |tree: &mmb_core::service_value_tree::ServiceValueTree| {
        tree.get_by_balance_request(&request).unwrap_or(Decimal::zero())
    };
    assert!(value(&after.reserved_amount).equals(&value(&before.reserved_amount)));
    assert!(value(&after.reserved_amount).equals(&d("0.5")));
    let balance = |state: &mmb_core::balances::Balances| {
        state.virtual_balance_holder.get_virtual_balance(&request, &spot(), Some(d("20000"))).expect("a balance")
    };
    assert!(balance(&after).equals(&balance(&before)));
    assert!(balance(&after).equals(&d("90000")));
}

#[test]
fn transfer_conserves_what_is_reserved() {
    let mut manager = manager();
    let src = reserve(&mut manager, OrderSide::Buy, "20000", "0.5");
    let dst = reserve(&mut manager, OrderSide::Buy, "20000", "0.25");
    let together = |manager: &BalanceReservationManager| {
        sum([src, dst].iter().map(|id| manager.get_reservation(id).expect("the reservation").unreserved_amount))
    };
    assert!(together(&manager).equals(&d("0.75")));
    for amount in ["0.1", "0.00000001", "0.2", "0.12345678"] {
        assert_eq!(manager.try_transfer_reservation(src, dst, d(amount), &None, 1), Ok(true));
        assert!(together(&manager).equals(&d("0.75")));
    }
    assert_eq!(manager.try_transfer_reservation(dst, src, d("0.3"), &None, 1), Ok(true));
    assert!(together(&manager).equals(&d("0.75")));
    assert!(is_in_step(&manager));
}

#[test]
fn a_transfer_of_all_that_is_reserved_keeps_the_tree_in_step() {
    let mut manager = manager();
    let src = reserve(&mut manager, OrderSide::Buy, "20000", "0.5");
    let dst = reserve(&mut manager, OrderSide::Buy, "20000", "0.25");
    assert_eq!(manager.try_transfer_reservation(src, dst, d("0.5"), &None, 1), Ok(true));
    assert!(manager.get_reservation(&src).is_none());
    assert!(manager.get_reservation(&dst).expect("the reservation").unreserved_amount.equals(&d("0.75")));
    assert!(is_in_step(&manager));
    assert!(all_balanced(&manager));
}

#[test]
fn a_price_update_that_costs_more_moves_the_tree_out_of_step() {
    let mut manager = manager();
    let id = reserve(&mut manager, OrderSide::Buy, "20000", "0.5");
    assert!(is_in_step(&manager));
    assert!(manager.try_update_reservation_price(id, d("25000")));
    // What the higher price costs more, 2500, is a tenth of an amount at the
    // new price: the tree gains it, the reservation does not.
    let reservation = manager.get_reservation(&id).expect("the reservation");
    assert!(reservation.unreserved_amount.equals(&d("0.5")));
    let reserved = manager
        .reserved_amount_in_amount_currency
        .get_by_balance_request(&BalanceRequest::new(
            ConfigurationDescriptor::new("service", "key"),
            account(),
            CurrencyPair::new("BTC/USDT"),
            CurrencyCode::new("USDT"),
        ))
        .expect("reserved");
    assert!(reserved.equals(&d("0.6")));
    assert!(!is_in_step(&manager));
    assert!(all_balanced(&manager));
}
