use mmb_core::balance_reservation::BalanceReservation;
use mmb_core::balance_reservation_manager::BalanceReservationManager;
use mmb_core::balances::ReserveParameters;
use mmb_core::common::{
    BalanceRequest, ClientOrderFillId, ClientOrderId, ConfigurationDescriptor, CurrencyCode, CurrencyPair,
    ExchangeAccountId, OrderSide, ReservationId,
};
use mmb_core::currency_pair_metadata::{CurrencyPairMetadata, Precision};
use mmb_core::decimal::Decimal;
use mmb_core::errors::BalanceError;
use mmb_core::exchange::{CurrencyPairToMetadataConverter, Exchange};
use mmb_core::vec_map::VecMap;

fn d(text: &str) -> Decimal {
    let parsed: rust_decimal::Decimal = text.parse().expect("a decimal");
    Decimal::from_parts(parsed.mantissa(), parsed.scale()).expect("in range")
}

fn assert_dec(actual: Decimal, expected: &str) {
    assert!(
        actual.equals(&d(expected)),
        "expected {}, got {}e-{}",
        expected,
        actual.mantissa(),
        actual.scale()
    );
}

fn descriptor() -> ConfigurationDescriptor {
    ConfigurationDescriptor::new("LiquidityGenerator", "btc_usdt")
}

fn account() -> ExchangeAccountId {
    ExchangeAccountId::new("Binance", 0)
}

fn btc() -> CurrencyCode {
    CurrencyCode::new("BTC")
}

fn usdt() -> CurrencyCode {
    CurrencyCode::new("USDT")
}

fn pair() -> CurrencyPair {
    CurrencyPair::new("BTC/USDT")
}

fn spot() -> CurrencyPairMetadata {
    CurrencyPairMetadata {
        is_derivative: false,
        base_currency_code: btc(),
        quote_currency_code: usdt(),
        amount_currency_code: btc(),
        balance_currency_code: None,
        currency_pair: pair(),
        price_precision: Precision::ByFraction { precision: 2 },
        amount_precision: Precision::ByFraction { precision: 8 },
        amount_multiplier: d("1"),
    }
}

fn inverse_perpetual() -> CurrencyPairMetadata {
    CurrencyPairMetadata {
        is_derivative: true,
        base_currency_code: btc(),
        quote_currency_code: usdt(),
        amount_currency_code: btc(),
        balance_currency_code: Some(btc()),
        currency_pair: pair(),
        price_precision: Precision::ByFraction { precision: 2 },
        amount_precision: Precision::ByFraction { precision: 8 },
        amount_multiplier: d("1"),
    }
}

fn manager_for(metadata: &CurrencyPairMetadata, leverage: &str) -> BalanceReservationManager {
    let mut exchange = Exchange::new(account());
    exchange.set_leverage(pair(), d(leverage));
    let mut exchanges: VecMap<ExchangeAccountId, Exchange> = VecMap::new();
    exchanges.insert(account(), exchange);
    let mut converter = CurrencyPairToMetadataConverter::new();
    converter.add(account(), metadata.clone());
    BalanceReservationManager::new(exchanges, converter)
}

fn spot_manager(quote_balance: &str, base_balance: &str) -> BalanceReservationManager {
    let mut manager = manager_for(&spot(), "1");
    manager.virtual_balance_holder.set_raw_balance(&account(), &usdt(), d(quote_balance));
    manager.virtual_balance_holder.set_raw_balance(&account(), &btc(), d(base_balance));
    manager
}

fn parameters(metadata: CurrencyPairMetadata, side: OrderSide, price: &str, amount: &str) -> ReserveParameters {
    ReserveParameters::new(descriptor(), account(), metadata, side, d(price), d(amount))
}

fn request(code: CurrencyCode) -> BalanceRequest {
    BalanceRequest::new(descriptor(), account(), pair(), code)
}

fn virtual_balance(manager: &BalanceReservationManager, metadata: &CurrencyPairMetadata, code: CurrencyCode) -> Decimal {
    manager
        .virtual_balance_holder
        .get_virtual_balance(&request(code), metadata, Some(d("20000")))
        .expect("a balance")
}

fn reserved(manager: &BalanceReservationManager, code: CurrencyCode) -> Decimal {
    manager
        .reserved_amount_in_amount_currency
        .get_by_balance_request(&request(code))
        .unwrap_or(Decimal::zero())
}

fn reserve(manager: &mut BalanceReservationManager, parameters: &ReserveParameters) -> ReservationId {
    let mut id = ReservationId::new(0);
    assert!(manager.try_reserve(parameters, &mut id));
    id
}

fn reservation(manager: &BalanceReservationManager, id: ReservationId) -> &BalanceReservation {
    manager.get_reservation(&id).expect("the reservation")
}

fn order(text: &str) -> ClientOrderId {
    ClientOrderId::new(text)
}

#[test]
fn spot_reserve_takes_cost_from_the_quote_balance() {
    let mut manager = spot_manager("20000", "0");
    let id = reserve(&mut manager, &parameters(spot(), OrderSide::Buy, "20000", "0.5"));
    assert_eq!(id.id, 1);
    assert_dec(virtual_balance(&manager, &spot(), usdt()), "10000");
    assert_dec(reserved(&manager, usdt()), "0.5");
    let made = reservation(&manager, id);
    assert_dec(made.unreserved_amount, "0.5");
    assert_dec(made.not_approved_amount, "0.5");
    assert_dec(made.amount, "0.5");
    assert_dec(made.cost, "0.5");
    assert_dec(made.taken_free_amount, "0");
    assert_eq!(made.reservation_currency_code.code, "USDT");
}

#[test]
fn spot_unreserve_gives_everything_back() {
    let mut manager = spot_manager("20000", "0");
    let id = reserve(&mut manager, &parameters(spot(), OrderSide::Buy, "20000", "0.5"));
    assert_eq!(manager.unreserve(id, d("0.5"), &None), Ok(()));
    assert_dec(virtual_balance(&manager, &spot(), usdt()), "20000");
    assert_dec(reserved(&manager, usdt()), "0");
    assert!(manager.get_reservation(&id).is_none());
}

#[test]
fn approval_moves_amount_into_a_part() {
    let mut manager = spot_manager("20000", "0");
    let id = reserve(&mut manager, &parameters(spot(), OrderSide::Buy, "20000", "0.5"));
    assert_eq!(manager.approve_reservation(id, &order("o1"), d("0.2"), 1_000), Ok(()));
    {
        let made = reservation(&manager, id);
        assert_dec(made.not_approved_amount, "0.3");
        let part = made.approved_parts.get(&order("o1")).expect("the part");
        assert_dec(part.amount, "0.2");
        assert_dec(part.unreserved_amount, "0.2");
        assert!(!part.is_canceled);
        assert_eq!(part.date_time, 1_000);
    }
    assert_eq!(manager.unreserve(id, d("0.2"), &Some(order("o1"))), Ok(()));
    let made = reservation(&manager, id);
    let part = made.approved_parts.get(&order("o1")).expect("the part");
    assert_dec(part.unreserved_amount, "0");
    assert_dec(made.unreserved_amount, "0.3");
    assert_dec(reserved(&manager, usdt()), "0.3");
}

#[test]
fn second_approval_for_the_same_order_changes_nothing() {
    let mut manager = spot_manager("20000", "0");
    let id = reserve(&mut manager, &parameters(spot(), OrderSide::Buy, "20000", "0.5"));
    assert_eq!(manager.approve_reservation(id, &order("o1"), d("0.2"), 1), Ok(()));
    assert_eq!(manager.approve_reservation(id, &order("o1"), d("0.1"), 2), Ok(()));
    let made = reservation(&manager, id);
    assert_dec(made.not_approved_amount, "0.3");
    assert_eq!(made.approved_parts.len(), 1);
}

#[test]
fn second_approval_is_reported_by_the_reservation() {
    let mut made = BalanceReservation::new(
        descriptor(),
        account(),
        spot(),
        OrderSide::Buy,
        d("20000"),
        d("0.5"),
        d("0"),
        d("0.5"),
        usdt(),
    );
    assert_eq!(made.approve(&order("o1"), d("0.2"), 1), Ok(()));
    assert_eq!(made.approve(&order("o1"), d("0.1"), 2), Err(BalanceError::DoubleApproval));
    assert_dec(made.not_approved_amount, "0.3");
    assert_eq!(made.approved_parts.len(), 1);
}

#[test]
fn unreserve_without_an_order_may_leave_the_margin() {
    let mut manager = spot_manager("20000", "0");
    let id = reserve(&mut manager, &parameters(spot(), OrderSide::Buy, "20000", "0.5"));
    assert_eq!(manager.approve_reservation(id, &order("o1"), d("0.49999999"), 1), Ok(()));
    // More than is not approved, but only the margin would remain reserved.
    assert_eq!(manager.unreserve(id, d("0.49999999"), &None), Ok(()));
    assert!(manager.get_reservation(&id).is_none());
    assert_dec(reserved(&manager, usdt()), "0");
    assert_dec(virtual_balance(&manager, &spot(), usdt()), "20000");
}

#[test]
fn approval_of_an_unknown_reservation_changes_nothing() {
    let mut manager = spot_manager("20000", "0");
    assert_eq!(manager.approve_reservation(ReservationId::new(7), &order("o1"), d("0.2"), 1), Ok(()));
    assert_eq!(manager.cancel_approved_reservation(ReservationId::new(7), &order("o1")), Ok(()));
}

#[test]
fn approval_beyond_the_not_approved_amount_fails() {
    let mut manager = spot_manager("20000", "0");
    let id = reserve(&mut manager, &parameters(spot(), OrderSide::Buy, "20000", "0.5"));
    assert_eq!(
        manager.approve_reservation(id, &order("o1"), d("0.6"), 1),
        Err(BalanceError::NegativeNotApproved)
    );
    // The amount was taken before the test.
    assert_dec(reservation(&manager, id).not_approved_amount, "-0.1");
    assert_eq!(reservation(&manager, id).approved_parts.len(), 0);
}

#[test]
fn approval_within_the_margin_of_zero_is_accepted() {
    let mut manager = spot_manager("20000", "0");
    let id = reserve(&mut manager, &parameters(spot(), OrderSide::Buy, "20000", "0.5"));
    assert_eq!(manager.approve_reservation(id, &order("o1"), d("0.50000001"), 1), Ok(()));
    assert_dec(reservation(&manager, id).not_approved_amount, "-0.00000001");
}

#[test]
fn canceling_a_part_returns_it_to_the_not_approved_amount() {
    let mut manager = spot_manager("20000", "0");
    let id = reserve(&mut manager, &parameters(spot(), OrderSide::Buy, "20000", "0.5"));
    assert_eq!(manager.approve_reservation(id, &order("o1"), d("0.2"), 1), Ok(()));
    assert_eq!(manager.cancel_approved_reservation(id, &order("o1")), Ok(()));
    {
        let made = reservation(&manager, id);
        assert_dec(made.not_approved_amount, "0.5");
        assert_dec(made.unreserved_amount, "0.5");
        let part = made.approved_parts.get(&order("o1")).expect("the part");
        assert!(part.is_canceled);
        // The amount was moved, not copied: the part holds nothing.
        assert_dec(part.unreserved_amount, "0");
        assert_dec(part.amount, "0.2");
    }
    assert_eq!(manager.cancel_approved_reservation(id, &order("o1")), Err(BalanceError::AlreadyCanceled));
    assert_eq!(manager.cancel_approved_reservation(id, &order("other")), Ok(()));
}

#[test]
fn nothing_can_be_unreserved_from_a_canceled_part() {
    let mut manager = spot_manager("20000", "0");
    let id = reserve(&mut manager, &parameters(spot(), OrderSide::Buy, "20000", "0.5"));
    assert_eq!(manager.approve_reservation(id, &order("o1"), d("0.2"), 1), Ok(()));
    assert_eq!(manager.cancel_approved_reservation(id, &order("o1")), Ok(()));
    assert_eq!(manager.unreserve(id, d("0.1"), &Some(order("o1"))), Err(BalanceError::NegativeApprovedResidual));
    {
        let made = reservation(&manager, id);
        assert_dec(made.not_approved_amount, "0.5");
        assert_dec(made.unreserved_amount, "0.5");
    }
    // What went back to the not approved amount is given back without an order.
    assert_eq!(manager.unreserve(id, d("0.1"), &None), Ok(()));
    let made = reservation(&manager, id);
    assert_dec(made.not_approved_amount, "0.4");
    assert_dec(made.unreserved_amount, "0.4");
}

#[test]
fn unreserve_of_an_unknown_reservation() {
    let mut manager = spot_manager("20000", "0");
    assert_eq!(manager.unreserve(ReservationId::new(9), d("1"), &None), Err(BalanceError::UnknownReservation));
    assert_eq!(manager.unreserve(ReservationId::new(9), d("0"), &None), Ok(()));
    manager.is_call_from_clone = true;
    assert_eq!(manager.unreserve(ReservationId::new(9), d("1"), &None), Ok(()));
}

#[test]
fn unreserve_that_rounds_to_zero_changes_nothing() {
    let mut manager = spot_manager("20000", "0");
    let id = reserve(&mut manager, &parameters(spot(), OrderSide::Buy, "20000", "0.5"));
    assert_eq!(manager.unreserve(id, d("0.000000001"), &None), Ok(()));
    assert_dec(reservation(&manager, id).unreserved_amount, "0.5");
    assert_dec(reserved(&manager, usdt()), "0.5");
}

#[test]
fn unreserve_for_an_unknown_exchange_changes_nothing() {
    let mut manager = spot_manager("20000", "0");
    let id = reserve(&mut manager, &parameters(spot(), OrderSide::Buy, "20000", "0.5"));
    manager.exchanges_by_id.clear();
    assert_eq!(manager.unreserve(id, d("0.5"), &None), Ok(()));
    assert_dec(reservation(&manager, id).unreserved_amount, "0.5");
}

#[test]
fn unreserve_without_an_order_beyond_the_not_approved_amount_fails() {
    let mut manager = spot_manager("20000", "0");
    let id = reserve(&mut manager, &parameters(spot(), OrderSide::Buy, "20000", "0.5"));
    assert_eq!(manager.approve_reservation(id, &order("o1"), d("0.4"), 1), Ok(()));
    assert_eq!(manager.unreserve(id, d("0.2"), &None), Err(BalanceError::ClientOrderIdRequired));
}

#[test]
fn unreserve_beyond_an_approved_part_fails() {
    let mut manager = spot_manager("20000", "0");
    let id = reserve(&mut manager, &parameters(spot(), OrderSide::Buy, "20000", "0.5"));
    assert_eq!(manager.approve_reservation(id, &order("o1"), d("0.2"), 1), Ok(()));
    assert_eq!(
        manager.unreserve(id, d("0.3"), &Some(order("o1"))),
        Err(BalanceError::NegativeApprovedResidual)
    );
    assert_dec(reservation(&manager, id).unreserved_amount, "0.5");
}

#[test]
fn unreserve_for_an_order_without_a_part_uses_the_not_approved_amount() {
    let mut manager = spot_manager("20000", "0");
    let id = reserve(&mut manager, &parameters(spot(), OrderSide::Buy, "20000", "0.5"));
    assert_eq!(manager.unreserve(id, d("0.1"), &Some(order("missing"))), Ok(()));
    assert_dec(reservation(&manager, id).not_approved_amount, "0.4");
    assert_dec(reservation(&manager, id).unreserved_amount, "0.4");
}

#[test]
fn unreserve_with_a_zero_tick_cannot_round() {
    let mut metadata = spot();
    metadata.amount_precision = Precision::ByTick { tick: d("0") };
    let mut manager = manager_for(&metadata, "1");
    manager.virtual_balance_holder.set_raw_balance(&account(), &usdt(), d("20000"));
    let mut made = BalanceReservation::new(
        descriptor(),
        account(),
        metadata,
        OrderSide::Buy,
        d("20000"),
        d("0.5"),
        d("0"),
        d("0.5"),
        usdt(),
    );
    made.unreserved_amount = d("0.5");
    manager.balance_reservation_storage.add(ReservationId::new(3), made);
    assert_eq!(
        manager.unreserve(ReservationId::new(3), d("0.5"), &None),
        Err(BalanceError::PrecisionRoundingFailed)
    );
}

#[test]
fn reserve_fails_without_balance() {
    let mut manager = spot_manager("9999", "0");
    let mut id = ReservationId::new(5);
    assert!(!manager.try_reserve(&parameters(spot(), OrderSide::Buy, "20000", "0.5"), &mut id));
    assert_eq!(id.id, 0);
    assert!(!manager.can_reserve(&parameters(spot(), OrderSide::Buy, "20000", "0.5")));
    assert!(manager.can_reserve(&parameters(spot(), OrderSide::Buy, "19998", "0.5")));
    assert_dec(virtual_balance(&manager, &spot(), usdt()), "9999");
    assert_eq!(manager.balance_reservation_storage.len(), 0);
}

#[test]
fn reserve_fails_without_leverage() {
    let mut manager = spot_manager("20000", "0");
    manager.exchanges_by_id.clear();
    let mut id = ReservationId::new(0);
    assert!(!manager.try_reserve(&parameters(spot(), OrderSide::Buy, "20000", "0.5"), &mut id));
}

#[test]
fn sell_reserves_the_base_currency() {
    let mut manager = spot_manager("0", "2");
    let id = reserve(&mut manager, &parameters(spot(), OrderSide::Sell, "20000", "0.5"));
    assert_dec(virtual_balance(&manager, &spot(), btc()), "1.5");
    assert_dec(reserved(&manager, btc()), "0.5");
    assert_eq!(reservation(&manager, id).reservation_currency_code.code, "BTC");
}

#[test]
fn derivative_reservation_takes_the_free_position_first() {
    let metadata = inverse_perpetual();
    let mut manager = manager_for(&metadata, "10");
    manager.virtual_balance_holder.set_raw_balance(&account(), &btc(), d("1"));
    assert_eq!(manager.restore_fill_amount_position(&account(), &metadata, d("0.3"), 1), Ok(()));

    let (cost, taken) = manager
        .calculate_reservation_cost(&parameters(inverse_perpetual(), OrderSide::Sell, "20000", "0.2"))
        .expect("a cost");
    assert_dec(cost, "0");
    assert_dec(taken, "0.2");

    let (cost, taken) = manager
        .calculate_reservation_cost(&parameters(inverse_perpetual(), OrderSide::Sell, "20000", "0.5"))
        .expect("a cost");
    assert_dec(cost, "0.02");
    assert_dec(taken, "0.3");

    // A buy cannot close a long position.
    let (cost, taken) = manager
        .calculate_reservation_cost(&parameters(inverse_perpetual(), OrderSide::Buy, "20000", "0.5"))
        .expect("a cost");
    assert_dec(cost, "0.05");
    assert_dec(taken, "0");

    let preset = manager
        .get_currency_code_and_reservation_amount(&parameters(inverse_perpetual(), OrderSide::Sell, "20000", "0.5"))
        .expect("a preset");
    assert_eq!(preset.reservation_currency_code.code, "BTC");
    assert_dec(preset.amount_in_reservation_currency_code, "0.5");
    assert_dec(preset.taken_free_amount_in_amount_currency_code, "0.3");
    assert_dec(preset.cost_in_amount_currency_code, "0.02");
    assert_dec(preset.cost_in_reservation_currency_code, "0.02");
}

#[test]
fn free_position_is_shared_between_reservations() {
    let metadata = inverse_perpetual();
    let mut manager = manager_for(&metadata, "10");
    manager.virtual_balance_holder.set_raw_balance(&account(), &btc(), d("1"));
    assert_eq!(manager.restore_fill_amount_position(&account(), &metadata, d("0.3"), 1), Ok(()));
    assert_dec(manager.get_position_in_amount_currency_code(&account(), &metadata, OrderSide::Sell), "0.3");
    assert_dec(manager.get_position_in_amount_currency_code(&account(), &metadata, OrderSide::Buy), "0");
    let id = reserve(&mut manager, &parameters(inverse_perpetual(), OrderSide::Sell, "20000", "0.2"));
    assert_dec(reservation(&manager, id).taken_free_amount, "0.2");
    assert_dec(
        manager
            .get_unreserved_position_in_amount_currency_code(&account(), &metadata, OrderSide::Sell)
            .expect("a position"),
        "0.1",
    );
}

#[test]
fn derivative_balance_keeps_an_untouchable_part() {
    let metadata = inverse_perpetual();
    let mut manager = manager_for(&metadata, "10");
    manager.virtual_balance_holder.set_raw_balance(&account(), &btc(), d("1"));
    let available = manager
        .try_get_available_balance(&descriptor(), &account(), &metadata, OrderSide::Sell, d("20000"), false, false)
        .expect("a balance");
    assert_dec(available, "0.95");
    let leveraged = manager
        .get_available_leveraged_balance(&descriptor(), &account(), &metadata, OrderSide::Sell, d("20000"))
        .expect("a balance");
    assert_dec(leveraged, "9.5");
    assert_dec(
        BalanceReservationManager::get_untouchable_amount(&metadata, d("2")).expect("an amount"),
        "0.1",
    );
    assert_dec(BalanceReservationManager::get_untouchable_amount(&spot(), d("2")).expect("an amount"), "0");
}

#[test]
fn available_balance_is_unknown_without_a_reported_balance() {
    let manager = manager_for(&spot(), "1");
    assert!(manager
        .try_get_available_balance(&descriptor(), &account(), &spot(), OrderSide::Buy, d("20000"), true, false)
        .is_none());
    assert_dec(manager.get_available_balance(&parameters(spot(), OrderSide::Buy, "20000", "1"), true), "0");
}

#[test]
fn available_balance_with_unknown_side() {
    let manager = spot_manager("20000", "2");
    let of = |code: CurrencyCode| {
        manager.try_get_available_balance_with_unknown_side(&descriptor(), &account(), &spot(), &code, d("20000"))
    };
    assert_dec(of(usdt()).expect("a balance"), "20000");
    assert_dec(of(btc()).expect("a balance"), "2");
    assert!(of(CurrencyCode::new("ETH")).is_none());
}

#[test]
fn limit_binds_reservations() {
    let mut manager = spot_manager("20000", "0");
    manager.set_target_amount_limit(&descriptor(), &account(), &spot(), d("0.4"));
    let available = manager
        .try_get_available_balance(&descriptor(), &account(), &spot(), OrderSide::Buy, d("20000"), true, false)
        .expect("a balance");
    assert_dec(available, "8000");
    reserve(&mut manager, &parameters(spot(), OrderSide::Buy, "20000", "0.3"));
    let mut id = ReservationId::new(0);
    assert!(!manager.try_reserve(&parameters(spot(), OrderSide::Buy, "20000", "0.2"), &mut id));
    assert!(!manager.can_reserve_with_limit(&parameters(spot(), OrderSide::Buy, "20000", "0.2")));
    assert!(manager.can_reserve_with_limit(&parameters(spot(), OrderSide::Buy, "20000", "0.1")));
    assert_dec(reserved(&manager, usdt()), "0.3");
}

#[test]
fn beyond_the_limit_only_moves_towards_it_are_allowed() {
    let mut manager = spot_manager("20000", "5");
    manager.set_target_amount_limit(&descriptor(), &account(), &spot(), d("0.4"));
    let mut change = Decimal::zero();
    // A position of 1 is beyond the limit of 0.4.
    assert_eq!(
        manager.handle_position_fill_amount_change(
            OrderSide::Buy,
            &None,
            d("1"),
            d("20000"),
            &descriptor(),
            &account(),
            &spot(),
            &btc(),
            &mut change,
            1,
        ),
        Ok(())
    );
    assert!(manager.validate_position_and_limits(&request(btc())));
    assert!(!manager.can_reserve_with_limit(&parameters(spot(), OrderSide::Buy, "20000", "0.1")));
    assert!(manager.can_reserve_with_limit(&parameters(spot(), OrderSide::Sell, "20000", "0.1")));
    assert!(manager.can_reserve_with_limit(&parameters(spot(), OrderSide::Sell, "20000", "1.4")));
    assert!(!manager.can_reserve_with_limit(&parameters(spot(), OrderSide::Sell, "20000", "2")));
}

#[test]
fn position_percent_of_the_limit() {
    let mut manager = spot_manager("20000", "5");
    assert!(manager.get_fill_amount_position_percent(&descriptor(), &account(), &spot(), OrderSide::Buy).is_none());
    manager.set_target_amount_limit(&descriptor(), &account(), &spot(), d("0.4"));
    let mut change = Decimal::zero();
    manager
        .handle_position_fill_amount_change(
            OrderSide::Buy,
            &None,
            d("0.1"),
            d("20000"),
            &descriptor(),
            &account(),
            &spot(),
            &btc(),
            &mut change,
            1,
        )
        .expect("a fill");
    let percent = |side| {
        manager
            .get_fill_amount_position_percent(&descriptor(), &account(), &spot(), side)
            .expect("a share")
    };
    assert_dec(percent(OrderSide::Buy), "0.25");
    assert_dec(percent(OrderSide::Sell), "0");
    let values = manager.get_position_values(&descriptor(), &account(), &spot(), OrderSide::Sell).expect("values");
    assert_dec(values.position, "-0.1");
    assert_dec(values.limit.expect("a limit"), "0.4");
    assert_dec(manager.get_position(&account(), &pair(), OrderSide::Buy).expect("a position"), "0.1");
    assert!(manager.get_position(&account(), &CurrencyPair::new("ETH/USDT"), OrderSide::Buy).is_none());
}

#[test]
fn try_reserve_multiple_makes_all_or_none() {
    let mut manager = spot_manager("20000", "0");
    let both = vec![
        parameters(spot(), OrderSide::Buy, "20000", "0.25"),
        parameters(spot(), OrderSide::Buy, "20000", "0.5"),
    ];
    let (made, ids) = manager.try_reserve_multiple(&both);
    assert!(made);
    assert_eq!(ids, vec![ReservationId::new(1), ReservationId::new(2)]);
    assert_dec(virtual_balance(&manager, &spot(), usdt()), "5000");
    assert_dec(reserved(&manager, usdt()), "0.75");

    let too_much = vec![
        parameters(spot(), OrderSide::Buy, "20000", "0.125"),
        parameters(spot(), OrderSide::Buy, "20000", "0.5"),
    ];
    let (made, ids) = manager.try_reserve_multiple(&too_much);
    assert!(!made);
    assert!(ids.is_empty());
    assert_dec(virtual_balance(&manager, &spot(), usdt()), "5000");
    assert_dec(reserved(&manager, usdt()), "0.75");
    assert_eq!(manager.balance_reservation_storage.len(), 2);
    // The state is the one from before: the identifiers that were tried are free again.
    assert_eq!(manager.reservation_id.id, 2);
    assert_eq!(manager.balance_reservation_storage.get_reservation_ids(), vec![
        ReservationId::new(1),
        ReservationId::new(2),
    ]);
    assert_eq!(reserve(&mut manager, &parameters(spot(), OrderSide::Buy, "20000", "0.125")).id, 3);
    let (made, ids) = manager.try_reserve_multiple(&Vec::new());
    assert!(made);
    assert!(ids.is_empty());
}

#[test]
fn transfer_moves_amount_between_reservations() {
    let mut manager = spot_manager("20000", "0");
    let src = reserve(&mut manager, &parameters(spot(), OrderSide::Buy, "20000", "0.5"));
    let dst = reserve(&mut manager, &parameters(spot(), OrderSide::Buy, "20000", "0.25"));
    assert_eq!(manager.try_transfer_reservation(src, dst, d("0.2"), &None, 5), Ok(true));
    assert_dec(reservation(&manager, src).unreserved_amount, "0.3");
    assert_dec(reservation(&manager, src).not_approved_amount, "0.3");
    assert_dec(reservation(&manager, src).amount, "0.3");
    assert_dec(reservation(&manager, src).cost, "0.3");
    assert_dec(reservation(&manager, dst).unreserved_amount, "0.45");
    assert_dec(reservation(&manager, dst).not_approved_amount, "0.45");
    assert_dec(reservation(&manager, dst).amount, "0.45");
    assert_dec(reservation(&manager, dst).cost, "0.45");
    assert_dec(reserved(&manager, usdt()), "0.75");
    assert_dec(virtual_balance(&manager, &spot(), usdt()), "5000");
}

#[test]
fn transfer_of_everything_removes_the_source() {
    let mut manager = spot_manager("20000", "0");
    let src = reserve(&mut manager, &parameters(spot(), OrderSide::Buy, "20000", "0.5"));
    let dst = reserve(&mut manager, &parameters(spot(), OrderSide::Buy, "20000", "0.25"));
    assert_eq!(manager.try_transfer_reservation(src, dst, d("0.5"), &None, 5), Ok(true));
    assert!(manager.get_reservation(&src).is_none());
    assert_dec(reservation(&manager, dst).unreserved_amount, "0.75");
    assert_dec(reserved(&manager, usdt()), "0.75");
}

#[test]
fn transfer_of_an_approved_part() {
    let mut manager = spot_manager("20000", "0");
    let src = reserve(&mut manager, &parameters(spot(), OrderSide::Buy, "20000", "0.5"));
    let dst = reserve(&mut manager, &parameters(spot(), OrderSide::Buy, "20000", "0.25"));
    assert_eq!(manager.approve_reservation(src, &order("o1"), d("0.3"), 1), Ok(()));
    assert_eq!(manager.try_transfer_reservation(src, dst, d("0.1"), &Some(order("o1")), 9), Ok(true));
    let part = reservation(&manager, src).approved_parts.get(&order("o1")).expect("the part");
    assert_dec(part.unreserved_amount, "0.2");
    assert_dec(part.amount, "0.2");
    let moved = reservation(&manager, dst).approved_parts.get(&order("o1")).expect("the part");
    assert_dec(moved.unreserved_amount, "0.1");
    assert_dec(moved.amount, "0.1");
    assert_eq!(moved.date_time, 9);
    assert_dec(reservation(&manager, dst).not_approved_amount, "0.25");
    // The whole rest of the part: it is dropped at the source.
    assert_eq!(manager.try_transfer_reservation(src, dst, d("0.2"), &Some(order("o1")), 10), Ok(true));
    assert!(reservation(&manager, src).approved_parts.get(&order("o1")).is_none());
}

#[test]
fn transfer_errors() {
    let mut manager = spot_manager("20000", "5");
    let src = reserve(&mut manager, &parameters(spot(), OrderSide::Buy, "20000", "0.5"));
    let dst = reserve(&mut manager, &parameters(spot(), OrderSide::Buy, "20000", "0.25"));
    let other_side = reserve(&mut manager, &parameters(spot(), OrderSide::Sell, "20000", "0.25"));
    assert_eq!(
        manager.try_transfer_reservation(src, ReservationId::new(99), d("0.1"), &None, 1),
        Err(BalanceError::UnknownReservation)
    );
    assert_eq!(
        manager.try_transfer_reservation(src, other_side, d("0.1"), &None, 1),
        Err(BalanceError::TransferSourceMismatch)
    );
    assert_eq!(manager.try_transfer_reservation(src, dst, d("0"), &None, 1), Ok(false));
    assert_eq!(
        manager.try_transfer_reservation(src, dst, d("0.1"), &Some(order("o1")), 1),
        Err(BalanceError::ApprovedPartNotFound)
    );
    assert_eq!(
        manager.try_transfer_reservation(src, dst, d("0.6"), &None, 1),
        Err(BalanceError::NegativeUnreserved)
    );
    assert_eq!(manager.approve_reservation(src, &order("o2"), d("0.1"), 1), Ok(()));
    assert_eq!(
        manager.try_transfer_reservation(src, dst, d("0.2"), &Some(order("o2")), 1),
        Err(BalanceError::NegativeApprovedResidual)
    );
}

#[test]
fn transfer_between_prices_on_a_derivative_needs_balance() {
    let metadata = CurrencyPairMetadata { balance_currency_code: Some(usdt()), ..inverse_perpetual() };
    let mut manager = manager_for(&metadata, "1");
    let make = |price: &str, amount: &str| {
        let mut made = BalanceReservation::new(
            descriptor(),
            account(),
            metadata.clone(),
            OrderSide::Buy,
            d(price),
            d(amount),
            d("0"),
            d(amount),
            usdt(),
        );
        made.unreserved_amount = d(amount);
        made
    };
    manager.balance_reservation_storage.add(ReservationId::new(1), make("20000", "1"));
    manager.balance_reservation_storage.add(ReservationId::new(2), make("40000", "1"));
    // No balance was reported: what is available is unknown.
    assert_eq!(
        manager.try_transfer_reservation(ReservationId::new(1), ReservationId::new(2), d("0.5"), &None, 1),
        Err(BalanceError::BalanceUnavailable)
    );
    // 0.5 at 20000 less 0.5 at 40000 is -10000, more than the 95 available.
    manager.virtual_balance_holder.set_raw_balance(&account(), &usdt(), d("100"));
    assert_eq!(
        manager.try_transfer_reservation(ReservationId::new(1), ReservationId::new(2), d("0.5"), &None, 1),
        Ok(false)
    );
    manager.virtual_balance_holder.set_raw_balance(&account(), &usdt(), d("100000"));
    assert_eq!(
        manager.try_transfer_reservation(ReservationId::new(1), ReservationId::new(2), d("0.5"), &None, 1),
        Ok(true)
    );
}

#[test]
fn price_update_pays_the_difference() {
    let mut manager = spot_manager("20000", "0");
    let id = reserve(&mut manager, &parameters(spot(), OrderSide::Buy, "20000", "0.5"));
    assert!(manager.try_update_reservation_price(id, d("30000")));
    assert_dec(reservation(&manager, id).price, "30000");
    assert_dec(reservation(&manager, id).not_approved_amount, "0.5");
    // 0.5 at 30000 costs 15000; 10000 were paid at the old price, and the
    // difference of 5000 is 1/6 of an amount at the new price.
    let balance = virtual_balance(&manager, &spot(), usdt());
    assert!(balance.lt(&d("10000")));
    assert!(balance.gt(&d("4999")));
    assert!(!manager.try_update_reservation_price(id, d("100000")));
    assert!(!manager.try_update_reservation_price(ReservationId::new(77), d("1")));
    assert_dec(reservation(&manager, id).price, "30000");
}

#[test]
fn spot_fill_changes_balance_and_position() {
    let mut manager = spot_manager("20000", "1");
    let mut change = Decimal::zero();
    assert_eq!(
        manager.handle_position_fill_amount_change(
            OrderSide::Sell,
            &None,
            d("0.25"),
            d("20000"),
            &descriptor(),
            &account(),
            &spot(),
            &btc(),
            &mut change,
            10,
        ),
        Ok(())
    );
    assert_dec(change, "0.25");
    assert_dec(virtual_balance(&manager, &spot(), btc()), "0.75");
    assert_dec(manager.position_by_fill_amount_in_amount_currency.get(&account(), &pair()).expect("a position"), "0.25");

    assert_eq!(
        manager.handle_position_fill_amount_change(
            OrderSide::Buy,
            &None,
            d("0.25"),
            d("20000"),
            &descriptor(),
            &account(),
            &spot(),
            &usdt(),
            &mut change,
            11,
        ),
        Ok(())
    );
    assert_dec(change, "5000");
    assert_dec(virtual_balance(&manager, &spot(), usdt()), "15000");
    // The quote currency is not the amount currency: the position stays.
    assert_dec(manager.position_by_fill_amount_in_amount_currency.get(&account(), &pair()).expect("a position"), "0.25");
}

#[test]
fn derivative_fill_closes_position_before_it_opens_one() {
    let metadata = inverse_perpetual();
    let mut manager = manager_for(&metadata, "10");
    manager.virtual_balance_holder.set_raw_balance(&account(), &btc(), d("1"));
    assert_eq!(manager.restore_fill_amount_position(&account(), &metadata, d("0.3"), 1), Ok(()));
    let mut change = Decimal::zero();
    // A sell of 0.5 closes the long 0.3 and opens 0.2: (0.3 - 0.2) / 10.
    assert_eq!(
        manager.handle_position_fill_amount_change(
            OrderSide::Sell,
            &None,
            d("0.5"),
            d("20000"),
            &descriptor(),
            &account(),
            &metadata,
            &btc(),
            &mut change,
            2,
        ),
        Ok(())
    );
    assert_dec(change, "0.01");
    assert_dec(virtual_balance(&manager, &metadata, btc()), "1.01");
    // The amount currency is the base currency: the position moves against
    // the fill.
    assert_dec(manager.position_by_fill_amount_in_amount_currency.get(&account(), &pair()).expect("a position"), "-0.2");
}

#[test]
fn derivative_fill_needs_leverage() {
    let metadata = inverse_perpetual();
    let mut manager = manager_for(&metadata, "10");
    manager.exchanges_by_id.clear();
    let mut change = d("7");
    assert_eq!(
        manager.handle_position_fill_amount_change(
            OrderSide::Sell,
            &None,
            d("0.5"),
            d("20000"),
            &descriptor(),
            &account(),
            &metadata,
            &btc(),
            &mut change,
            2,
        ),
        Err(BalanceError::LeverageMissing)
    );
    assert_dec(change, "7");
    assert_eq!(
        manager.handle_position_fill_amount_change_commission(
            &btc(),
            d("0.001"),
            &btc(),
            d("0.001"),
            d("20000"),
            &descriptor(),
            &account(),
            &metadata,
        ),
        Err(BalanceError::LeverageMissing)
    );
}

#[test]
fn derivative_without_balance_currency() {
    let metadata = CurrencyPairMetadata { balance_currency_code: None, ..inverse_perpetual() };
    let mut manager = manager_for(&metadata, "10");
    assert_eq!(
        manager.add_virtual_balance(&request(btc()), &metadata, d("20000"), d("1")),
        Err(BalanceError::MissingBalanceCurrency)
    );
}

#[test]
fn commission_is_taken_from_the_balance() {
    let mut manager = spot_manager("20000", "1");
    assert_eq!(
        manager.handle_position_fill_amount_change_commission(
            &usdt(),
            d("10"),
            &usdt(),
            d("10"),
            d("20000"),
            &descriptor(),
            &account(),
            &spot(),
        ),
        Ok(())
    );
    assert_dec(virtual_balance(&manager, &spot(), usdt()), "19990");

    // On a derivative the commission in another currency than the balance's
    // is taken converted, by the leverage.
    let metadata = inverse_perpetual();
    let mut manager = manager_for(&metadata, "10");
    manager.virtual_balance_holder.set_raw_balance(&account(), &btc(), d("1"));
    assert_eq!(
        manager.handle_position_fill_amount_change_commission(
            &CurrencyCode::new("BNB"),
            d("3"),
            &usdt(),
            d("200"),
            d("20000"),
            &descriptor(),
            &account(),
            &metadata,
        ),
        Ok(())
    );
    // 200 USDT are 0.01 BTC at 20000; by the leverage 0.001.
    assert_dec(virtual_balance(&manager, &metadata, btc()), "0.999");
}

#[test]
fn restoring_a_position_on_spot_fails() {
    let mut manager = spot_manager("20000", "1");
    assert_eq!(
        manager.restore_fill_amount_position(&account(), &spot(), d("1"), 1),
        Err(BalanceError::RestorationOnSpot)
    );
}

#[test]
fn zero_proportion_of_an_empty_reservation() {
    let mut manager = spot_manager("20000", "0");
    let made = BalanceReservation::new(
        descriptor(),
        account(),
        spot(),
        OrderSide::Buy,
        d("20000"),
        d("0"),
        d("0"),
        d("0"),
        usdt(),
    );
    assert_eq!(made.get_proportional_cost_amount(d("0")).map(|cost| cost.is_zero()), Ok(true));
    assert_eq!(made.get_proportional_cost_amount(d("1")).map(|cost| cost.is_zero()), Err(BalanceError::ZeroProportion));
    manager.balance_reservation_storage.add(ReservationId::new(4), made);
    assert_eq!(
        manager.add_reserved_amount(&request(usdt()), ReservationId::new(4), d("1"), true),
        Err(BalanceError::ZeroProportion)
    );
    assert_eq!(
        manager.add_reserved_amount(&request(usdt()), ReservationId::new(5), d("1"), true),
        Err(BalanceError::UnknownReservation)
    );
}

#[test]
fn arithmetic_failure_leaves_the_state_unchanged() {
    let mut manager = spot_manager("20000", "0");
    // A currency outside the pair cannot be converted.
    assert_eq!(
        manager.add_virtual_balance(&request(CurrencyCode::new("ETH")), &spot(), d("20000"), d("1")),
        Err(BalanceError::Arithmetic)
    );
    assert!(manager.virtual_balance_holder.get_virtual_balance_diffs().tree.len() == 0);
}

#[test]
fn sync_recomputes_the_reserved_tree() {
    let mut manager = spot_manager("20000", "5");
    reserve(&mut manager, &parameters(spot(), OrderSide::Buy, "20000", "0.25"));
    reserve(&mut manager, &parameters(spot(), OrderSide::Buy, "10000", "0.5"));
    reserve(&mut manager, &parameters(spot(), OrderSide::Sell, "20000", "1"));
    manager.set_target_amount_limit(&descriptor(), &account(), &spot(), d("10"));
    let state = manager.get_state();

    let mut restored = spot_manager("20000", "5");
    assert_eq!(restored.update_reserved_balances(&state.balance_reservations_by_reservation_id), Ok(()));
    assert_dec(reserved(&restored, usdt()), "0.75");
    assert_dec(reserved(&restored, btc()), "1");
    assert_eq!(restored.reservation_id.id, 3);
    assert_eq!(restored.balance_reservation_storage.get_reservation_ids(), vec![
        ReservationId::new(1),
        ReservationId::new(2),
        ReservationId::new(3),
    ]);
    restored.restore_fill_amount_limits(state.amount_limits, state.position_by_fill_amount);
    assert!(restored.amount_limits_in_amount_currency.get_by_balance_request(&request(usdt())).is_some());
    // The next reservation does not reuse an identifier.
    assert_eq!(reserve(&mut restored, &parameters(spot(), OrderSide::Sell, "20000", "1")).id, 4);

    restored.reserved_amount_in_amount_currency.set_by_balance_request(&request(usdt()), d("42"));
    assert_eq!(restored.sync_reservation_amounts(), Ok(()));
    assert_dec(reserved(&restored, usdt()), "0.75");
    assert_dec(reserved(&restored, btc()), "2");
}

#[test]
fn reservation_can_be_changed_in_place() {
    let mut manager = spot_manager("20000", "0");
    let id = reserve(&mut manager, &parameters(spot(), OrderSide::Buy, "20000", "0.5"));
    manager.get_mut_reservation(&id).expect("the reservation").price = d("21000");
    assert_dec(reservation(&manager, id).price, "21000");
    manager.try_get_mut_reservation(id).expect("the reservation").price = d("22000");
    assert_dec(manager.try_get_reservation(id).expect("the reservation").price, "22000");
    assert!(manager.get_mut_reservation(&ReservationId::new(8)).is_none());
    assert_eq!(
        manager.try_get_mut_reservation(ReservationId::new(8)).map(|_| ()),
        Err(BalanceError::UnknownReservation)
    );
    assert_eq!(
        manager.try_get_reservation(ReservationId::new(8)).map(|_| ()),
        Err(BalanceError::UnknownReservation)
    );
}

#[test]
fn clone_of_the_manager_is_independent() {
    let mut manager = spot_manager("20000", "0");
    let id = reserve(&mut manager, &parameters(spot(), OrderSide::Buy, "20000", "0.5"));
    let mut copy = manager.clone();
    copy.is_call_from_clone = true;
    assert_eq!(copy.unreserve(id, d("0.5"), &None), Ok(()));
    assert!(copy.get_reservation(&id).is_none());
    assert_eq!(copy.unreserve(id, d("0.5"), &None), Ok(()));
    assert_dec(virtual_balance(&copy, &spot(), usdt()), "20000");
    // The manager itself is as it was.
    assert_dec(reservation(&manager, id).unreserved_amount, "0.5");
    assert_dec(virtual_balance(&manager, &spot(), usdt()), "10000");
    assert!(manager.knows_exchange(&account()));
    assert!(!manager.knows_exchange(&ExchangeAccountId::new("Binance", 1)));
    assert_eq!(reserve(&mut copy, &parameters(spot(), OrderSide::Buy, "20000", "0.5")).id, 2);
}

#[test]
fn balances_with_long_fractions_do_not_stop_reservations() {
    // A leverage of 3 leaves costs with 28 decimal places, which do not add
    // up exactly with a balance of 100.
    let metadata = inverse_perpetual();
    let mut manager = manager_for(&metadata, "3");
    manager.virtual_balance_holder.set_raw_balance(&account(), &btc(), d("100"));
    let first = reserve(&mut manager, &parameters(inverse_perpetual(), OrderSide::Sell, "20000", "1"));
    let second = reserve(&mut manager, &parameters(inverse_perpetual(), OrderSide::Sell, "20000", "2"));
    assert_eq!(reservation(&manager, first).cost.scale(), 28);
    assert_dec(reserved(&manager, btc()), "3");
    let balance = virtual_balance(&manager, &metadata, btc());
    assert!(balance.gt(&d("98.9999")) && balance.lt(&d("99.0001")));
    assert_eq!(manager.unreserve(first, d("1"), &None), Ok(()));
    assert_eq!(manager.unreserve(second, d("2"), &None), Ok(()));
    assert_dec(reserved(&manager, btc()), "0");
    let balance = virtual_balance(&manager, &metadata, btc());
    assert!(balance.gt(&d("99.9999")) && balance.lt(&d("100.0001")));
}

#[test]
fn giving_up_several_reservations_leaves_nothing_behind() {
    let mut metadata = spot();
    metadata.amount_precision = Precision::ByFraction { precision: 2 };
    let mut manager = manager_for(&metadata, "1");
    manager.virtual_balance_holder.set_raw_balance(&account(), &usdt(), d("20000"));
    // An amount below half a step of the precision, which an unreserve would
    // round to nothing, and one that the balance does not allow.
    let several = vec![
        parameters(metadata.clone(), OrderSide::Buy, "20000", "0.001"),
        parameters(metadata.clone(), OrderSide::Buy, "20000", "5"),
    ];
    let (made, ids) = manager.try_reserve_multiple(&several);
    assert!(!made);
    assert!(ids.is_empty());
    assert_eq!(manager.balance_reservation_storage.len(), 0);
    assert_eq!(manager.reservation_id.id, 0);
    assert_dec(virtual_balance(&manager, &metadata, usdt()), "20000");
    assert_dec(reserved(&manager, usdt()), "0");
    assert_eq!(manager.reserved_amount_in_amount_currency.tree.len(), 0);
}

#[test]
fn a_snapshot_whose_tree_cannot_be_computed_replaces_nothing() {
    let mut manager = spot_manager("20000", "5");
    let kept = reserve(&mut manager, &parameters(spot(), OrderSide::Buy, "20000", "0.25"));

    let mut donor = spot_manager("20000", "5");
    reserve(&mut donor, &parameters(spot(), OrderSide::Buy, "20000", "0.25"));
    reserve(&mut donor, &parameters(spot(), OrderSide::Buy, "20000", "0.25"));
    let mut snapshot = donor.get_state().balance_reservations_by_reservation_id;
    // Two amounts that a decimal cannot hold the sum of.
    let largest = Decimal::from_parts(79228162514264337593543950335, 0).expect("in range");
    snapshot.try_get_mut(ReservationId::new(1)).expect("stored").unreserved_amount = largest;
    snapshot.try_get_mut(ReservationId::new(2)).expect("stored").unreserved_amount = largest;

    assert_eq!(manager.update_reserved_balances(&snapshot), Err(BalanceError::Arithmetic));
    assert_eq!(manager.balance_reservation_storage.get_reservation_ids(), vec![kept]);
    assert_dec(reservation(&manager, kept).unreserved_amount, "0.25");
    assert_dec(reserved(&manager, usdt()), "0.25");
    assert_eq!(manager.reservation_id.id, 1);
}

#[test]
fn a_fill_that_cannot_be_recorded_changes_nothing() {
    let mut manager = spot_manager("20000", "1");
    let fill = |manager: &mut BalanceReservationManager, id: &str, now: i64, change: &mut Decimal| {
        manager.handle_position_fill_amount_change(
            OrderSide::Sell,
            &Some(ClientOrderFillId::new(id)),
            d("0.25"),
            d("20000"),
            &descriptor(),
            &account(),
            &spot(),
            &btc(),
            change,
            now,
        )
    };
    let mut change = d("7");
    assert_eq!(fill(&mut manager, "f-1", 10, &mut change), Ok(()));
    assert_dec(change, "0.25");
    assert_dec(virtual_balance(&manager, &spot(), btc()), "0.75");

    // A fill that claims to be earlier than the last one is refused, and
    // neither the balance nor the position nor the report has changed.
    let mut change = d("7");
    assert_eq!(fill(&mut manager, "f-2", 5, &mut change), Err(BalanceError::TimeWentBack));
    assert_dec(change, "7");
    assert_dec(virtual_balance(&manager, &spot(), btc()), "0.75");
    let position = manager
        .position_by_fill_amount_in_amount_currency
        .get(&account(), &pair())
        .expect("a position");
    assert_dec(position, "0.25");
    assert_eq!(manager.position_by_fill_amount_in_amount_currency.changes().len(), 1);

    assert_eq!(fill(&mut manager, "f-3", 10, &mut change), Ok(()));
    assert_dec(virtual_balance(&manager, &spot(), btc()), "0.5");
}
