//! The balance reservation manager: its state and what it answers about
//! balances, positions and limits. What changes the state is in the modules
//! beside this one.
//!
//! Every function is stated over the view of the manager, a value of
//! [`ManagerView`]: the queries return what a function of the view returns,
//! and the operations leave the manager with the view that a function of the
//! old view gives.

use crate::balance_position_by_fill_amount::{BalancePositionByFillAmount, PositionChange, PositionsView};
use crate::balance_reservation::{BalanceReservation, ReservationView};
use crate::balance_reservation_storage::{BalanceReservationStorage, Reservations};
use crate::balances::{BalancePositionModel, Balances, BalancesView, ReserveParameters};
use crate::common::{
    BalanceRequest, BeforeAfter, ConfigurationDescriptor, CurrencyCode, CurrencyPair, DateTime, ExchangeAccountId,
    OrderSide, ReservationId, TradePlaceAccount,
};
use crate::currency_pair_metadata::CurrencyPairMetadata;
use crate::decimal::Decimal;
use crate::exchange::{clone_exchanges, exchanges_view, CurrencyPairToMetadataConverter, Exchange, ExchangesView};
use crate::service_value_tree::{ServiceValueTree, TreeEntries};
use crate::vec_map::{lemma_first_index, lemma_first_index_same_keys, lookup, present, Key, VecMap};
use crate::virtual_balance_holder::{HolderView, VirtualBalanceHolder};
use vstd::prelude::*;

verus! {

/// The share of a derivative's balance that is never handed out: the
/// mantissa of 0.05.
pub const UNTOUCHABLE_MANTISSA: i128 = 5;

/// The number of decimal places of that share.
pub const UNTOUCHABLE_SCALE: u32 = 2;

/// The share of a derivative's balance that is never handed out: 0.05.
pub open spec fn spec_untouchable_rate() -> Decimal {
    Decimal::spec_from_parts(UNTOUCHABLE_MANTISSA, UNTOUCHABLE_SCALE).unwrap()
}

/// The amount, or zero where there is none.
pub open spec fn or_zero(amount: Option<Decimal>) -> Decimal {
    match amount {
        Some(value) => value,
        None => Decimal::spec_zero(),
    }
}

/// The free amounts taken by the reservations of one side, summed in the
/// order of the reservations; `None` where a sum is not exact.
pub open spec fn spec_taken_free_sum(reservations: Reservations, side: OrderSide) -> Option<Decimal>
    decreases reservations.len(),
{
    if reservations.len() == 0 {
        Some(Decimal::spec_zero())
    } else {
        match spec_taken_free_sum(reservations.drop_last(), side) {
            Some(sum) => if reservations.last().1.order_side == side {
                sum.spec_exact_add(reservations.last().1.taken_free_amount)
            } else {
                Some(sum)
            },
            None => None,
        }
    }
}

/// Where the sum over the first reservations fails, the sum over all fails.
proof fn lemma_taken_free_sum_fails(reservations: Reservations, side: OrderSide, n: int)
    requires
        0 <= n <= reservations.len(),
        spec_taken_free_sum(reservations.take(n), side) is None,
    ensures
        spec_taken_free_sum(reservations, side) is None,
    decreases reservations.len() - n,
{
    if n < reservations.len() {
        let next = reservations.take(n + 1);
        assert(next.drop_last() == reservations.take(n));
        lemma_taken_free_sum_fails(reservations, side, n + 1);
    } else {
        assert(reservations.take(n) == reservations);
    }
}

/// The request for the currency `currency_code` of a market.
pub open spec fn spec_request(
    configuration_descriptor: ConfigurationDescriptor,
    exchange_account_id: ExchangeAccountId,
    currency_pair_metadata: CurrencyPairMetadata,
    currency_code: CurrencyCode,
) -> BalanceRequest {
    BalanceRequest {
        configuration_descriptor,
        exchange_account_id,
        currency_pair: currency_pair_metadata.currency_pair,
        currency_code,
    }
}

/// The request under which a reservation is accounted: for its reservation
/// currency in its market.
pub open spec fn spec_request_of(reservation: ReservationView) -> BalanceRequest {
    spec_request(
        reservation.configuration_descriptor,
        reservation.exchange_account_id,
        reservation.currency_pair_metadata,
        reservation.reservation_currency_code,
    )
}

/// The state of the manager as contracts see it.
pub struct ManagerView {
    pub exchanges: ExchangesView,
    pub metadata: Seq<(TradePlaceAccount, CurrencyPairMetadata)>,
    /// What is reserved under each request, in the amount currency.
    pub reserved: TreeEntries,
    /// The limit set for each request, in the amount currency.
    pub limits: TreeEntries,
    pub positions: PositionsView,
    /// The identifier handed out last.
    pub reservation_id: ReservationId,
    pub holder: HolderView,
    pub reservations: Reservations,
    pub is_call_from_clone: bool,
}

impl ManagerView {
    /// The leverage configured for a market of an account; `None` for an
    /// unknown account or market.
    pub open spec fn spec_leverage(self, exchange_account_id: ExchangeAccountId, currency_pair: CurrencyPair) -> Option<
        Decimal,
    > {
        match lookup(self.exchanges, exchange_account_id@) {
            Some(leverages) => lookup(leverages, currency_pair@),
            None => None,
        }
    }

    /// The position of a market, zero where none is recorded.
    pub open spec fn spec_fill_position(self, exchange_account_id: ExchangeAccountId, currency_pair: CurrencyPair) -> Decimal {
        or_zero(lookup(self.positions.positions, (exchange_account_id@, currency_pair@)))
    }

    /// How much of a derivative's position an order of the given side would
    /// close: the short position for a buy, the long position for a sell,
    /// zero on a spot market.
    pub open spec fn spec_position_in_amount_currency(
        self,
        exchange_account_id: ExchangeAccountId,
        currency_pair_metadata: CurrencyPairMetadata,
        trade_side: OrderSide,
    ) -> Decimal {
        if !currency_pair_metadata.is_derivative {
            Decimal::spec_zero()
        } else {
            let current = self.spec_fill_position(exchange_account_id, currency_pair_metadata.currency_pair);
            match trade_side {
                OrderSide::Buy => Decimal::spec_zero().spec_max(current.spec_neg()),
                OrderSide::Sell => Decimal::spec_zero().spec_max(current),
            }
        }
    }

    /// What is left of that position after the free amounts that the
    /// reservations of the same side have taken, at least zero.
    pub open spec fn spec_unreserved_position(
        self,
        exchange_account_id: ExchangeAccountId,
        currency_pair_metadata: CurrencyPairMetadata,
        trade_side: OrderSide,
    ) -> Option<Decimal> {
        let position = self.spec_position_in_amount_currency(exchange_account_id, currency_pair_metadata, trade_side);
        match spec_taken_free_sum(self.reservations, trade_side) {
            Some(taken) => match position.spec_exact_sub(taken) {
                Some(rest) => Some(Decimal::spec_zero().spec_max(rest)),
                None => None,
            },
            None => None,
        }
    }

    /// The part of a balance that is never handed out: 5% on a derivative
    /// market, nothing on a spot market.
    pub open spec fn spec_untouchable(currency_pair_metadata: CurrencyPairMetadata, amount: Decimal) -> Option<Decimal> {
        if currency_pair_metadata.is_derivative {
            amount.spec_mul(spec_untouchable_rate())
        } else {
            Some(Decimal::spec_zero())
        }
    }

    /// The position of a market as it counts against the limit of one side:
    /// the position itself for a buy, its negation for a sell. `None` where
    /// the market is not described.
    pub open spec fn spec_position(
        self,
        exchange_account_id: ExchangeAccountId,
        currency_pair: CurrencyPair,
        trade_side: OrderSide,
    ) -> Option<Decimal> {
        match lookup(self.metadata, (exchange_account_id@, currency_pair@)) {
            None => None,
            Some(metadata) => {
                let position = self.spec_fill_position(exchange_account_id, currency_pair);
                if metadata.spec_trade_code(trade_side, BeforeAfter::Before)@ == metadata.base_currency_code@ {
                    Some(position.spec_neg())
                } else {
                    Some(position)
                }
            },
        }
    }

    /// The position of a market as it counts against the limit of one side,
    /// with that limit.
    pub open spec fn spec_position_values(
        self,
        configuration_descriptor: ConfigurationDescriptor,
        exchange_account_id: ExchangeAccountId,
        currency_pair_metadata: CurrencyPairMetadata,
        trade_side: OrderSide,
    ) -> Option<BalancePositionModel> {
        let request = spec_request(
            configuration_descriptor,
            exchange_account_id,
            currency_pair_metadata,
            currency_pair_metadata.spec_trade_code(trade_side, BeforeAfter::Before),
        );
        match self.spec_position(exchange_account_id, currency_pair_metadata.currency_pair, trade_side) {
            Some(position) => Some(BalancePositionModel { position, limit: lookup(self.limits, request@) }),
            None => None,
        }
    }

    /// What the limit leaves of the limit: the limit (zero where none is
    /// set) less what is reserved under the request and the position.
    pub open spec fn spec_limit_left(self, request: BalanceRequest, position: BalancePositionModel) -> Option<Decimal> {
        match or_zero(lookup(self.reserved, request@)).spec_exact_add(position.position) {
            Some(used) => or_zero(position.limit).spec_exact_sub(used),
            None => None,
        }
    }

    /// A balance in the request's currency as an amount: times the leverage,
    /// by the multiplier, converted into the amount currency.
    pub open spec fn spec_leveraged_amount(
        request: BalanceRequest,
        currency_pair_metadata: CurrencyPairMetadata,
        balance: Decimal,
        price: Decimal,
        leverage: Decimal,
    ) -> Option<Decimal> {
        match balance.spec_mul(leverage) {
            Some(leveraged) => match leveraged.spec_div(currency_pair_metadata.amount_multiplier) {
                Some(scaled) => currency_pair_metadata.spec_into_amount_currency(request.currency_code@, scaled, price),
                None => None,
            },
            None => None,
        }
    }

    /// An amount as a balance in the request's currency: converted from the
    /// amount currency, by the leverage, times the multiplier.
    pub open spec fn spec_plain_balance(
        request: BalanceRequest,
        currency_pair_metadata: CurrencyPairMetadata,
        amount: Decimal,
        price: Decimal,
        leverage: Decimal,
    ) -> Option<Decimal> {
        match currency_pair_metadata.spec_from_amount_currency(request.currency_code@, amount, price) {
            Some(in_code) => match in_code.spec_div(leverage) {
                Some(plain) => plain.spec_mul(currency_pair_metadata.amount_multiplier),
                None => None,
            },
            None => None,
        }
    }

    /// The balance that the limit of the request allows: the smaller of the
    /// balance and what the limit leaves, both as amounts, taken back to the
    /// request's currency, and at least zero.
    pub open spec fn spec_balance_with_limits(
        self,
        request: BalanceRequest,
        currency_pair_metadata: CurrencyPairMetadata,
        trade_side: OrderSide,
        balance: Decimal,
        price: Decimal,
        leverage: Decimal,
    ) -> Option<Decimal> {
        match self.spec_position_values(
            request.configuration_descriptor,
            request.exchange_account_id,
            currency_pair_metadata,
            trade_side,
        ) {
            None => None,
            Some(position) => match self.spec_limit_left(request, position) {
                None => None,
                Some(limit_left) => match Self::spec_leveraged_amount(
                    request,
                    currency_pair_metadata,
                    balance,
                    price,
                    leverage,
                ) {
                    None => None,
                    Some(balance_in_amount) => match Self::spec_plain_balance(
                        request,
                        currency_pair_metadata,
                        balance_in_amount.spec_min(limit_left),
                        price,
                        leverage,
                    ) {
                        None => None,
                        Some(limited) => Some(Decimal::spec_zero().spec_max(limited)),
                    },
                },
            },
        }
    }

    /// A derivative's balance with the free position added, where asked for,
    /// and the untouchable part taken off.
    pub open spec fn spec_derivative_balance(
        self,
        request: BalanceRequest,
        currency_pair_metadata: CurrencyPairMetadata,
        trade_side: OrderSide,
        balance: Decimal,
        price: Decimal,
        leverage: Decimal,
        include_free_amount: bool,
    ) -> Option<Decimal> {
        let with_free = if include_free_amount {
            match self.spec_unreserved_position(request.exchange_account_id, currency_pair_metadata, trade_side) {
                None => None,
                Some(free) => match Self::spec_plain_balance(request, currency_pair_metadata, free, price, leverage) {
                    None => None,
                    Some(free_in_code) => balance.spec_add(free_in_code),
                },
            }
        } else {
            Some(balance)
        };
        match with_free {
            None => None,
            Some(total) => match Self::spec_untouchable(currency_pair_metadata, total) {
                None => None,
                Some(untouchable) => total.spec_sub(untouchable),
            },
        }
    }

    /// The balance available to an order of the given side at the given
    /// price, in the currency that the order pays with.
    ///
    /// It is the virtual balance of that currency; on a derivative market
    /// with the free position added, where asked for, and the untouchable
    /// part taken off; cut down to what the limit of the request allows,
    /// where one is set; and, where asked for, times the leverage and by the
    /// multiplier. `None` where the virtual balance or the leverage is
    /// unknown and where a step of the arithmetic fails.
    pub open spec fn spec_available_balance(
        self,
        configuration_descriptor: ConfigurationDescriptor,
        exchange_account_id: ExchangeAccountId,
        currency_pair_metadata: CurrencyPairMetadata,
        trade_side: OrderSide,
        price: Decimal,
        include_free_amount: bool,
        is_leveraged: bool,
    ) -> Option<Decimal> {
        let request = spec_request(
            configuration_descriptor,
            exchange_account_id,
            currency_pair_metadata,
            currency_pair_metadata.spec_trade_code(trade_side, BeforeAfter::Before),
        );
        match self.holder.spec_virtual_balance(request, currency_pair_metadata, Some(price)) {
            None => None,
            Some(raw) => match self.spec_leverage(exchange_account_id, currency_pair_metadata.currency_pair) {
                None => None,
                Some(leverage) => {
                    let adjusted = if currency_pair_metadata.is_derivative {
                        self.spec_derivative_balance(
                            request,
                            currency_pair_metadata,
                            trade_side,
                            raw,
                            price,
                            leverage,
                            include_free_amount,
                        )
                    } else {
                        Some(raw)
                    };
                    match adjusted {
                        None => None,
                        Some(balance) => {
                            let limited = if present(self.limits, request@) {
                                self.spec_balance_with_limits(
                                    request,
                                    currency_pair_metadata,
                                    trade_side,
                                    balance,
                                    price,
                                    leverage,
                                )
                            } else {
                                Some(balance)
                            };
                            match limited {
                                None => None,
                                Some(balance) => if is_leveraged {
                                    match balance.spec_mul(leverage) {
                                        Some(leveraged) => leveraged.spec_div(currency_pair_metadata.amount_multiplier),
                                        None => None,
                                    }
                                } else {
                                    Some(balance)
                                },
                            }
                        },
                    }
                },
            }
        }
    }

    /// The balance available for the parameters of a reservation, zero where
    /// it is unknown.
    pub open spec fn spec_available_for(self, parameters: ReserveParameters, include_free_amount: bool) -> Decimal {
        or_zero(
            self.spec_available_balance(
                parameters.configuration_descriptor,
                parameters.exchange_account_id,
                parameters.currency_pair_metadata,
                parameters.order_side,
                parameters.price,
                include_free_amount,
                false,
            ),
        )
    }

    /// The balance available in a currency of a market: that of the side
    /// that pays with the currency, buy first; the virtual balance for a
    /// currency that neither side pays with.
    pub open spec fn spec_available_balance_with_unknown_side(
        self,
        configuration_descriptor: ConfigurationDescriptor,
        exchange_account_id: ExchangeAccountId,
        currency_pair_metadata: CurrencyPairMetadata,
        currency_code: CurrencyCode,
        price: Decimal,
    ) -> Option<Decimal> {
        if currency_pair_metadata.spec_trade_code(OrderSide::Buy, BeforeAfter::Before)@ == currency_code@ {
            self.spec_available_balance(
                configuration_descriptor,
                exchange_account_id,
                currency_pair_metadata,
                OrderSide::Buy,
                price,
                true,
                false,
            )
        } else if currency_pair_metadata.spec_trade_code(OrderSide::Sell, BeforeAfter::Before)@ == currency_code@ {
            self.spec_available_balance(
                configuration_descriptor,
                exchange_account_id,
                currency_pair_metadata,
                OrderSide::Sell,
                price,
                true,
                false,
            )
        } else {
            self.holder.spec_virtual_balance(
                spec_request(configuration_descriptor, exchange_account_id, currency_pair_metadata, currency_code),
                currency_pair_metadata,
                Some(price),
            )
        }
    }

    /// How far the position has used up its limit, between 0 and 1: the
    /// position by the limit. `None` where no limit is set.
    pub open spec fn spec_position_percent(
        self,
        configuration_descriptor: ConfigurationDescriptor,
        exchange_account_id: ExchangeAccountId,
        currency_pair_metadata: CurrencyPairMetadata,
        side: OrderSide,
    ) -> Option<Decimal> {
        match self.spec_position_values(configuration_descriptor, exchange_account_id, currency_pair_metadata, side) {
            None => None,
            Some(position) => match position.limit {
                None => None,
                Some(limit) => match position.position.spec_div(limit) {
                    None => None,
                    Some(share) => Some(Decimal::spec_from_int(1).spec_min(Decimal::spec_zero().spec_max(share))),
                },
            },
        }
    }

    /// Whether the position of the request's market is beyond the limit set
    /// for the request.
    pub open spec fn spec_position_exceeds_limit(self, request: BalanceRequest) -> bool {
        match (
            lookup(self.limits, request@),
            lookup(self.positions.positions, (request.exchange_account_id@, request.currency_pair@)),
        ) {
            (Some(limit), Some(position)) => position.spec_abs()@ > limit@,
            _ => false,
        }
    }

    /// The state as a snapshot.
    pub open spec fn spec_state(self) -> BalancesView {
        BalancesView {
            holder: self.holder,
            reserved: self.reserved,
            positions: self.positions,
            limits: self.limits,
            reservations: self.reservations,
        }
    }
}

/// The balance reservation manager.
#[derive(Debug)]
pub struct BalanceReservationManager {
    pub exchanges_by_id: VecMap<ExchangeAccountId, Exchange>,
    pub currency_pair_to_metadata_converter: CurrencyPairToMetadataConverter,
    pub reserved_amount_in_amount_currency: ServiceValueTree,
    pub amount_limits_in_amount_currency: ServiceValueTree,
    pub position_by_fill_amount_in_amount_currency: BalancePositionByFillAmount,
    pub reservation_id: ReservationId,
    pub virtual_balance_holder: VirtualBalanceHolder,
    pub balance_reservation_storage: BalanceReservationStorage,
    pub is_call_from_clone: bool,
}

impl View for BalanceReservationManager {
    type V = ManagerView;

    open spec fn view(&self) -> ManagerView {
        ManagerView {
            exchanges: exchanges_view(self.exchanges_by_id.entries@),
            metadata: self.currency_pair_to_metadata_converter.metadata.entries@,
            reserved: self.reserved_amount_in_amount_currency@,
            limits: self.amount_limits_in_amount_currency@,
            positions: self.position_by_fill_amount_in_amount_currency@,
            reservation_id: self.reservation_id,
            holder: self.virtual_balance_holder@,
            reservations: self.balance_reservation_storage@,
            is_call_from_clone: self.is_call_from_clone,
        }
    }
}

/// The share of a derivative's balance that is never handed out: 0.05.
pub fn untouchable_rate() -> (r: Decimal)
    ensures
        r == spec_untouchable_rate(),
{
    proof {
        Decimal::lemma_from_parts(UNTOUCHABLE_MANTISSA, UNTOUCHABLE_SCALE);
    }
    Decimal::from_parts(UNTOUCHABLE_MANTISSA, UNTOUCHABLE_SCALE).unwrap()
}

/// The request for the currency `currency_code` of a market.
pub fn make_request(
    configuration_descriptor: &ConfigurationDescriptor,
    exchange_account_id: &ExchangeAccountId,
    currency_pair_metadata: &CurrencyPairMetadata,
    currency_code: &CurrencyCode,
) -> (r: BalanceRequest)
    ensures
        r == spec_request(*configuration_descriptor, *exchange_account_id, *currency_pair_metadata, *currency_code),
{
    BalanceRequest::new(
        configuration_descriptor.clone(),
        exchange_account_id.clone(),
        currency_pair_metadata.currency_pair(),
        currency_code.clone(),
    )
}

/// The request under which a reservation is accounted.
pub fn request_of(reservation: &BalanceReservation) -> (r: BalanceRequest)
    ensures
        r == spec_request_of(reservation@),
{
    make_request(
        &reservation.configuration_descriptor,
        &reservation.exchange_account_id,
        &reservation.currency_pair_metadata,
        &reservation.reservation_currency_code,
    )
}

impl Clone for BalanceReservationManager {
    fn clone(&self) -> (r: Self)
        ensures
            r@ == self@,
            self.wf() ==> r.wf(),
    {
        BalanceReservationManager {
            exchanges_by_id: clone_exchanges(&self.exchanges_by_id),
            currency_pair_to_metadata_converter: self.currency_pair_to_metadata_converter.clone(),
            reserved_amount_in_amount_currency: self.reserved_amount_in_amount_currency.clone(),
            amount_limits_in_amount_currency: self.amount_limits_in_amount_currency.clone(),
            position_by_fill_amount_in_amount_currency: self.position_by_fill_amount_in_amount_currency.clone(),
            reservation_id: self.reservation_id,
            virtual_balance_holder: self.virtual_balance_holder.clone(),
            balance_reservation_storage: self.balance_reservation_storage.clone(),
            is_call_from_clone: self.is_call_from_clone,
        }
    }
}

impl BalanceReservationManager {
    /// Whether the account is one of the manager's exchanges.
    pub fn knows_exchange(&self, exchange_account_id: &ExchangeAccountId) -> (r: bool)
        ensures
            r == present(self@.exchanges, exchange_account_id@),
    {
        proof {
            lemma_first_index_same_keys(self.exchanges_by_id.entries@, self@.exchanges, exchange_account_id@);
        }
        self.exchanges_by_id.contains_key(exchange_account_id)
    }

    /// The history of positions is in the order of time, and no store or
    /// tree of the manager holds an identifier or a request twice.
    pub open spec fn wf(&self) -> bool {
        &&& self.position_by_fill_amount_in_amount_currency.wf()
        &&& self.balance_reservation_storage.wf()
        &&& self.reserved_amount_in_amount_currency.wf()
        &&& self.amount_limits_in_amount_currency.wf()
        &&& self.virtual_balance_holder.wf()
    }

    /// A manager for the given exchanges and markets, with no balances,
    /// reservations, limits or positions.
    pub fn new(
        exchanges_by_id: VecMap<ExchangeAccountId, Exchange>,
        currency_pair_to_metadata_converter: CurrencyPairToMetadataConverter,
    ) -> (r: Self)
        ensures
            r@ == (ManagerView {
                exchanges: exchanges_view(exchanges_by_id.entries@),
                metadata: currency_pair_to_metadata_converter.metadata.entries@,
                reserved: Seq::empty(),
                limits: Seq::empty(),
                positions: PositionsView { positions: Seq::empty(), changes: Seq::empty() },
                reservation_id: ReservationId { id: 0 },
                holder: HolderView { raw: Seq::empty(), diffs: Seq::empty() },
                reservations: Seq::empty(),
                is_call_from_clone: false,
            }),
            r.wf(),
    {
        BalanceReservationManager {
            exchanges_by_id,
            currency_pair_to_metadata_converter,
            reserved_amount_in_amount_currency: ServiceValueTree::new(),
            amount_limits_in_amount_currency: ServiceValueTree::new(),
            position_by_fill_amount_in_amount_currency: BalancePositionByFillAmount::new(),
            reservation_id: ReservationId::new(0),
            virtual_balance_holder: VirtualBalanceHolder::new(),
            balance_reservation_storage: BalanceReservationStorage::new(),
            is_call_from_clone: false,
        }
    }

    /// The reservation with the identifier.
    pub fn get_reservation(&self, reservation_id: &ReservationId) -> (r: Option<&BalanceReservation>)
        ensures
            match r {
                Some(reservation) => lookup(self@.reservations, reservation_id.id) == Some(reservation@),
                None => lookup(self@.reservations, reservation_id.id) is None,
            },
    {
        self.balance_reservation_storage.try_get(*reservation_id)
    }

    /// The reservation with the identifier, to be changed in place.
    pub fn get_mut_reservation(&mut self, reservation_id: &ReservationId) -> (r: Option<&mut BalanceReservation>)
        ensures
            match r {
                Some(reservation) => lookup(old(self)@.reservations, reservation_id.id) == Some(reservation@)
                    && final(self)@.reservations =~= crate::vec_map::spec_insert(
                    old(self)@.reservations,
                    *reservation_id,
                    final(reservation)@,
                ),
                None => lookup(old(self)@.reservations, reservation_id.id) is None && final(self)@.reservations
                    == old(self)@.reservations,
            },
            final(self)@ == (ManagerView { reservations: final(self)@.reservations, ..old(self)@ }),
            old(self).wf() && (r matches Some(reservation) ==> final(reservation).wf()) ==> final(self).wf(),
            old(self).wf() ==> (r matches Some(reservation) ==> reservation.wf()),
    {
        self.balance_reservation_storage.try_get_mut(*reservation_id)
    }

    /// The reservation with the identifier, to be changed in place, or the
    /// error that there is none.
    pub fn try_get_mut_reservation(&mut self, reservation_id: ReservationId) -> (r: Result<
        &mut BalanceReservation,
        crate::errors::BalanceError,
    >)
        ensures
            match r {
                Ok(reservation) => lookup(old(self)@.reservations, reservation_id.id) == Some(reservation@)
                    && final(self)@.reservations =~= crate::vec_map::spec_insert(
                    old(self)@.reservations,
                    reservation_id,
                    final(reservation)@,
                ),
                Err(e) => e == crate::errors::BalanceError::UnknownReservation && lookup(
                    old(self)@.reservations,
                    reservation_id.id,
                ) is None && final(self)@.reservations == old(self)@.reservations,
            },
            final(self)@ == (ManagerView { reservations: final(self)@.reservations, ..old(self)@ }),
            old(self).wf() && (r matches Ok(reservation) ==> final(reservation).wf()) ==> final(self).wf(),
            old(self).wf() ==> (r matches Ok(reservation) ==> reservation.wf()),
    {
        match self.balance_reservation_storage.try_get_mut(reservation_id) {
            Some(reservation) => Ok(reservation),
            None => Err(crate::errors::BalanceError::UnknownReservation),
        }
    }

    /// The reservation with the identifier, or the error that there is none.
    pub fn try_get_reservation(&self, reservation_id: ReservationId) -> (r: Result<
        &BalanceReservation,
        crate::errors::BalanceError,
    >)
        ensures
            match r {
                Ok(reservation) => lookup(self@.reservations, reservation_id.id) == Some(reservation@),
                Err(e) => e == crate::errors::BalanceError::UnknownReservation && lookup(
                    self@.reservations,
                    reservation_id.id,
                ) is None,
            },
    {
        match self.balance_reservation_storage.try_get(reservation_id) {
            Some(reservation) => Ok(reservation),
            None => Err(crate::errors::BalanceError::UnknownReservation),
        }
    }

    /// The leverage configured for a market of an account.
    pub fn try_get_leverage(&self, exchange_account_id: &ExchangeAccountId, currency_pair: &CurrencyPair) -> (r: Option<
        Decimal,
    >)
        ensures
            r == self@.spec_leverage(*exchange_account_id, *currency_pair),
    {
        proof {
            lemma_first_index_same_keys(self.exchanges_by_id.entries@, self@.exchanges, exchange_account_id@);
            lemma_first_index(self.exchanges_by_id.entries@, exchange_account_id@);
        }
        match self.exchanges_by_id.get(exchange_account_id) {
            Some(exchange) => exchange.get_leverage(currency_pair),
            None => None,
        }
    }

    /// The position of a market, zero where none is recorded.
    fn fill_position(&self, exchange_account_id: &ExchangeAccountId, currency_pair: &CurrencyPair) -> (r: Decimal)
        ensures
            r == self@.spec_fill_position(*exchange_account_id, *currency_pair),
    {
        match self.position_by_fill_amount_in_amount_currency.get(exchange_account_id, currency_pair) {
            Some(position) => position,
            None => Decimal::zero(),
        }
    }

    /// How much of a derivative's position an order of the given side would
    /// close.
    pub fn get_position_in_amount_currency_code(
        &self,
        exchange_account_id: &ExchangeAccountId,
        currency_pair_metadata: &CurrencyPairMetadata,
        trade_side: OrderSide,
    ) -> (r: Decimal)
        ensures
            r == self@.spec_position_in_amount_currency(*exchange_account_id, *currency_pair_metadata, trade_side),
    {
        if !currency_pair_metadata.is_derivative {
            return Decimal::zero();
        }
        let current = self.fill_position(exchange_account_id, &currency_pair_metadata.currency_pair);
        match trade_side {
            OrderSide::Buy => Decimal::zero().max(current.neg()),
            OrderSide::Sell => Decimal::zero().max(current),
        }
    }

    /// The free amounts taken by the reservations of one side.
    fn taken_free_sum(&self, trade_side: OrderSide) -> (r: Option<Decimal>)
        ensures
            r == spec_taken_free_sum(self@.reservations, trade_side),
    {
        let mut sum = Decimal::zero();
        let mut i: usize = 0;
        let n = self.balance_reservation_storage.len();
        while i < n
            invariant
                i <= n,
                n == self@.reservations.len(),
                Some(sum) == spec_taken_free_sum(self@.reservations.take(i as int), trade_side),
            decreases n - i,
        {
            proof {
                let next = self@.reservations.take(i + 1);
                assert(next.drop_last() == self@.reservations.take(i as int));
                assert(next.last() == self@.reservations[i as int]);
            }
            let reservation = self.balance_reservation_storage.at(i);
            if reservation.order_side == trade_side {
                match sum.exact_add(reservation.taken_free_amount) {
                    Some(total) => {
                        sum = total;
                    },
                    None => {
                        proof {
                            lemma_taken_free_sum_fails(self@.reservations, trade_side, i + 1);
                        }
                        return None;
                    },
                }
            }
            i = i + 1;
        }
        proof {
            assert(self@.reservations.take(i as int) == self@.reservations);
        }
        Some(sum)
    }

    /// What is left of a derivative's position after the free amounts that
    /// the reservations of the same side have taken.
    pub fn get_unreserved_position_in_amount_currency_code(
        &self,
        exchange_account_id: &ExchangeAccountId,
        currency_pair_metadata: &CurrencyPairMetadata,
        trade_side: OrderSide,
    ) -> (r: Option<Decimal>)
        ensures
            r == self@.spec_unreserved_position(*exchange_account_id, *currency_pair_metadata, trade_side),
    {
        let position = self.get_position_in_amount_currency_code(
            exchange_account_id,
            currency_pair_metadata,
            trade_side,
        );
        match self.taken_free_sum(trade_side) {
            Some(taken) => match position.exact_sub(taken) {
                Some(rest) => Some(Decimal::zero().max(rest)),
                None => None,
            },
            None => None,
        }
    }

    /// The part of a balance that is never handed out.
    pub fn get_untouchable_amount(currency_pair_metadata: &CurrencyPairMetadata, amount: Decimal) -> (r: Option<Decimal>)
        ensures
            r == ManagerView::spec_untouchable(*currency_pair_metadata, amount),
    {
        if currency_pair_metadata.is_derivative {
            amount.checked_mul(untouchable_rate())
        } else {
            Some(Decimal::zero())
        }
    }

    /// The position of a market as it counts against the limit of one side.
    pub fn get_position(&self, exchange_account_id: &ExchangeAccountId, currency_pair: &CurrencyPair, trade_side: OrderSide) -> (r:
        Option<Decimal>)
        ensures
            r == self@.spec_position(*exchange_account_id, *currency_pair, trade_side),
    {
        match self.currency_pair_to_metadata_converter.try_get_currency_pair_metadata(
            exchange_account_id,
            currency_pair,
        ) {
            None => None,
            Some(metadata) => {
                let position = self.fill_position(exchange_account_id, currency_pair);
                let code = metadata.get_trade_code(trade_side, BeforeAfter::Before);
                if code.same(&metadata.base_currency_code) {
                    Some(position.neg())
                } else {
                    Some(position)
                }
            },
        }
    }

    /// The position of a market as it counts against the limit of one side,
    /// with that limit.
    pub fn get_position_values(
        &self,
        configuration_descriptor: &ConfigurationDescriptor,
        exchange_account_id: &ExchangeAccountId,
        currency_pair_metadata: &CurrencyPairMetadata,
        trade_side: OrderSide,
    ) -> (r: Option<BalancePositionModel>)
        ensures
            r == self@.spec_position_values(
                *configuration_descriptor,
                *exchange_account_id,
                *currency_pair_metadata,
                trade_side,
            ),
    {
        let code = currency_pair_metadata.get_trade_code(trade_side, BeforeAfter::Before);
        let request = make_request(configuration_descriptor, exchange_account_id, currency_pair_metadata, &code);
        let limit = self.amount_limits_in_amount_currency.get_by_balance_request(&request);
        match self.get_position(exchange_account_id, &currency_pair_metadata.currency_pair, trade_side) {
            Some(position) => Some(BalancePositionModel { position, limit }),
            None => None,
        }
    }

    /// A balance in the request's currency as an amount.
    fn leveraged_amount(
        request: &BalanceRequest,
        currency_pair_metadata: &CurrencyPairMetadata,
        balance: Decimal,
        price: Decimal,
        leverage: Decimal,
    ) -> (r: Option<Decimal>)
        ensures
            r == ManagerView::spec_leveraged_amount(*request, *currency_pair_metadata, balance, price, leverage),
    {
        match balance.checked_mul(leverage) {
            Some(leveraged) => match leveraged.checked_div(currency_pair_metadata.amount_multiplier) {
                Some(scaled) => currency_pair_metadata.convert_amount_into_amount_currency_code(
                    &request.currency_code,
                    scaled,
                    price,
                ),
                None => None,
            },
            None => None,
        }
    }

    /// An amount as a balance in the request's currency.
    fn plain_balance(
        request: &BalanceRequest,
        currency_pair_metadata: &CurrencyPairMetadata,
        amount: Decimal,
        price: Decimal,
        leverage: Decimal,
    ) -> (r: Option<Decimal>)
        ensures
            r == ManagerView::spec_plain_balance(*request, *currency_pair_metadata, amount, price, leverage),
    {
        match currency_pair_metadata.convert_amount_from_amount_currency_code(&request.currency_code, amount, price) {
            Some(in_code) => match in_code.checked_div(leverage) {
                Some(plain) => plain.checked_mul(currency_pair_metadata.amount_multiplier),
                None => None,
            },
            None => None,
        }
    }

    /// The balance that the limit of the request allows.
    pub fn get_balance_with_applied_limits(
        &self,
        request: &BalanceRequest,
        currency_pair_metadata: &CurrencyPairMetadata,
        trade_side: OrderSide,
        balance_in_currency_code: Decimal,
        price: Decimal,
        leverage: Decimal,
    ) -> (r: Option<Decimal>)
        ensures
            r == self@.spec_balance_with_limits(
                *request,
                *currency_pair_metadata,
                trade_side,
                balance_in_currency_code,
                price,
                leverage,
            ),
    {
        let position = match self.get_position_values(
            &request.configuration_descriptor,
            &request.exchange_account_id,
            currency_pair_metadata,
            trade_side,
        ) {
            Some(position) => position,
            None => return None,
        };
        let reserved_amount_in_amount_currency = match self.reserved_amount_in_amount_currency.get_by_balance_request(
            request,
        ) {
            Some(reserved) => reserved,
            None => Decimal::zero(),
        };
        let reservation_with_fills_in_amount_currency = match reserved_amount_in_amount_currency.exact_add(
            position.position,
        ) {
            Some(used) => used,
            None => return None,
        };
        let total_amount_limit_in_amount_currency = match position.limit {
            Some(limit) => limit,
            None => Decimal::zero(),
        };
        let limit_left_in_amount_currency = match total_amount_limit_in_amount_currency.exact_sub(
            reservation_with_fills_in_amount_currency,
        ) {
            Some(left) => left,
            None => return None,
        };
        let balance_in_amount_currency = match Self::leveraged_amount(
            request,
            currency_pair_metadata,
            balance_in_currency_code,
            price,
            leverage,
        ) {
            Some(amount) => amount,
            None => return None,
        };
        let limited_balance_in_amount_currency = balance_in_amount_currency.min(limit_left_in_amount_currency);
        match Self::plain_balance(request, currency_pair_metadata, limited_balance_in_amount_currency, price, leverage) {
            Some(limited) => Some(Decimal::zero().max(limited)),
            None => None,
        }
    }

    /// A derivative's balance with the free position added, where asked for,
    /// and the untouchable part taken off.
    fn derivative_balance(
        &self,
        request: &BalanceRequest,
        currency_pair_metadata: &CurrencyPairMetadata,
        trade_side: OrderSide,
        balance: Decimal,
        price: Decimal,
        leverage: Decimal,
        include_free_amount: bool,
    ) -> (r: Option<Decimal>)
        ensures
            r == self@.spec_derivative_balance(
                *request,
                *currency_pair_metadata,
                trade_side,
                balance,
                price,
                leverage,
                include_free_amount,
            ),
    {
        let mut total = balance;
        if include_free_amount {
            let free = match self.get_unreserved_position_in_amount_currency_code(
                &request.exchange_account_id,
                currency_pair_metadata,
                trade_side,
            ) {
                Some(free) => free,
                None => return None,
            };
            let free_in_code = match Self::plain_balance(request, currency_pair_metadata, free, price, leverage) {
                Some(free_in_code) => free_in_code,
                None => return None,
            };
            total = match balance.checked_add(free_in_code) {
                Some(total) => total,
                None => return None,
            };
        }
        match Self::get_untouchable_amount(currency_pair_metadata, total) {
            Some(untouchable) => total.checked_sub(untouchable),
            None => None,
        }
    }

    /// The balance available to an order of the given side at the given
    /// price, in the currency that the order pays with.
    pub fn try_get_available_balance(
        &self,
        configuration_descriptor: &ConfigurationDescriptor,
        exchange_account_id: &ExchangeAccountId,
        currency_pair_metadata: &CurrencyPairMetadata,
        trade_side: OrderSide,
        price: Decimal,
        include_free_amount: bool,
        is_leveraged: bool,
    ) -> (r: Option<Decimal>)
        ensures
            r == self@.spec_available_balance(
                *configuration_descriptor,
                *exchange_account_id,
                *currency_pair_metadata,
                trade_side,
                price,
                include_free_amount,
                is_leveraged,
            ),
    {
        let currency_code = currency_pair_metadata.get_trade_code(trade_side, BeforeAfter::Before);
        let request = make_request(
            configuration_descriptor,
            exchange_account_id,
            currency_pair_metadata,
            &currency_code,
        );
        let mut balance_in_currency_code = match self.virtual_balance_holder.get_virtual_balance(
            &request,
            currency_pair_metadata,
            Some(price),
        ) {
            Some(balance) => balance,
            None => return None,
        };
        let leverage = match self.try_get_leverage(exchange_account_id, &currency_pair_metadata.currency_pair) {
            Some(leverage) => leverage,
            None => return None,
        };
        if currency_pair_metadata.is_derivative {
            balance_in_currency_code = match self.derivative_balance(
                &request,
                currency_pair_metadata,
                trade_side,
                balance_in_currency_code,
                price,
                leverage,
                include_free_amount,
            ) {
                Some(balance) => balance,
                None => return None,
            };
        }
        if self.amount_limits_in_amount_currency.tree.contains_key(&request) {
            balance_in_currency_code = match self.get_balance_with_applied_limits(
                &request,
                currency_pair_metadata,
                trade_side,
                balance_in_currency_code,
                price,
                leverage,
            ) {
                Some(balance) => balance,
                None => return None,
            };
        }
        if is_leveraged {
            match balance_in_currency_code.checked_mul(leverage) {
                Some(leveraged) => leveraged.checked_div(currency_pair_metadata.amount_multiplier),
                None => None,
            }
        } else {
            Some(balance_in_currency_code)
        }
    }

    /// The balance available for the parameters of a reservation, zero where
    /// it is unknown.
    pub fn get_available_balance(&self, parameters: &ReserveParameters, include_free_amount: bool) -> (r: Decimal)
        ensures
            r == self@.spec_available_for(*parameters, include_free_amount),
    {
        match self.try_get_available_balance(
            &parameters.configuration_descriptor,
            &parameters.exchange_account_id,
            &parameters.currency_pair_metadata,
            parameters.order_side,
            parameters.price,
            include_free_amount,
            false,
        ) {
            Some(balance) => balance,
            None => Decimal::zero(),
        }
    }

    /// The balance available in a currency of a market, whichever side pays
    /// with it.
    pub fn try_get_available_balance_with_unknown_side(
        &self,
        configuration_descriptor: &ConfigurationDescriptor,
        exchange_account_id: &ExchangeAccountId,
        currency_pair_metadata: &CurrencyPairMetadata,
        currency_code: &CurrencyCode,
        price: Decimal,
    ) -> (r: Option<Decimal>)
        ensures
            r == self@.spec_available_balance_with_unknown_side(
                *configuration_descriptor,
                *exchange_account_id,
                *currency_pair_metadata,
                *currency_code,
                price,
            ),
    {
        if currency_pair_metadata.get_trade_code(OrderSide::Buy, BeforeAfter::Before).same(currency_code) {
            return self.try_get_available_balance(
                configuration_descriptor,
                exchange_account_id,
                currency_pair_metadata,
                OrderSide::Buy,
                price,
                true,
                false,
            );
        }
        if currency_pair_metadata.get_trade_code(OrderSide::Sell, BeforeAfter::Before).same(currency_code) {
            return self.try_get_available_balance(
                configuration_descriptor,
                exchange_account_id,
                currency_pair_metadata,
                OrderSide::Sell,
                price,
                true,
                false,
            );
        }
        let request = make_request(configuration_descriptor, exchange_account_id, currency_pair_metadata, currency_code);
        self.virtual_balance_holder.get_virtual_balance(&request, currency_pair_metadata, Some(price))
    }

    /// The balance available to an order with the leverage applied: how much
    /// can be put into orders.
    pub fn get_available_leveraged_balance(
        &self,
        configuration_descriptor: &ConfigurationDescriptor,
        exchange_account_id: &ExchangeAccountId,
        currency_pair_metadata: &CurrencyPairMetadata,
        trade_side: OrderSide,
        price: Decimal,
    ) -> (r: Option<Decimal>)
        ensures
            r == self@.spec_available_balance(
                *configuration_descriptor,
                *exchange_account_id,
                *currency_pair_metadata,
                trade_side,
                price,
                true,
                true,
            ),
    {
        self.try_get_available_balance(
            configuration_descriptor,
            exchange_account_id,
            currency_pair_metadata,
            trade_side,
            price,
            true,
            true,
        )
    }

    /// How far the position has used up its limit, between 0 and 1.
    pub fn get_fill_amount_position_percent(
        &self,
        configuration_descriptor: &ConfigurationDescriptor,
        exchange_account_id: &ExchangeAccountId,
        currency_pair_metadata: &CurrencyPairMetadata,
        side: OrderSide,
    ) -> (r: Option<Decimal>)
        ensures
            r == self@.spec_position_percent(
                *configuration_descriptor,
                *exchange_account_id,
                *currency_pair_metadata,
                side,
            ),
    {
        let position = match self.get_position_values(
            configuration_descriptor,
            exchange_account_id,
            currency_pair_metadata,
            side,
        ) {
            Some(position) => position,
            None => return None,
        };
        let limit = match position.limit {
            Some(limit) => limit,
            None => return None,
        };
        match position.position.checked_div(limit) {
            Some(share) => Some(Decimal::from_int(1).min(Decimal::zero().max(share))),
            None => None,
        }
    }

    /// Whether the position of the request's market is beyond the limit set
    /// for the request. Such a position is recorded all the same: the engine
    /// records what the exchange reports.
    pub fn validate_position_and_limits(&self, request: &BalanceRequest) -> (r: bool)
        ensures
            r == self@.spec_position_exceeds_limit(*request),
    {
        let limit = match self.amount_limits_in_amount_currency.get_by_balance_request(request) {
            Some(limit) => limit,
            None => return false,
        };
        let position = match self.position_by_fill_amount_in_amount_currency.get(
            &request.exchange_account_id,
            &request.currency_pair,
        ) {
            Some(position) => position,
            None => return false,
        };
        position.abs().gt(&limit)
    }

    /// The last change of position in a market made no later than the start
    /// of a period.
    pub fn get_last_position_change_before_period(&self, trade_place: &TradePlaceAccount, start_of_period: DateTime) -> (r:
        Option<PositionChange>)
        requires
            self.wf(),
        ensures
            r == self@.positions.spec_last_change_before(trade_place@, start_of_period),
    {
        self.position_by_fill_amount_in_amount_currency.get_last_position_change_before_period(
            trade_place,
            start_of_period,
        )
    }

    /// A snapshot of the state.
    pub fn get_state(&self) -> (r: Balances)
        ensures
            r@ == self@.spec_state(),
    {
        Balances::new(
            self.virtual_balance_holder.clone(),
            self.reserved_amount_in_amount_currency.clone(),
            self.position_by_fill_amount_in_amount_currency.clone(),
            self.amount_limits_in_amount_currency.clone(),
            self.balance_reservation_storage.clone(),
        )
    }

    /// Installs limits and positions from a snapshot.
    pub fn restore_fill_amount_limits(
        &mut self,
        amount_limits: ServiceValueTree,
        position_by_fill_amount: BalancePositionByFillAmount,
    )
        ensures
            final(self)@ == (ManagerView { limits: amount_limits@, positions: position_by_fill_amount@, ..old(self)@ }),
            old(self).wf() && amount_limits.wf() && position_by_fill_amount.wf() ==> final(self).wf(),
    {
        self.amount_limits_in_amount_currency = amount_limits;
        self.position_by_fill_amount_in_amount_currency = position_by_fill_amount;
    }

    /// Sets the limit of a market, for both of its currencies.
    pub fn set_target_amount_limit(
        &mut self,
        configuration_descriptor: &ConfigurationDescriptor,
        exchange_account_id: &ExchangeAccountId,
        currency_pair_metadata: &CurrencyPairMetadata,
        limit: Decimal,
    )
        ensures
            final(self)@ == (ManagerView {
                limits: crate::vec_map::spec_insert(
                    crate::vec_map::spec_insert(
                        old(self)@.limits,
                        spec_request(
                            *configuration_descriptor,
                            *exchange_account_id,
                            *currency_pair_metadata,
                            currency_pair_metadata.base_currency_code,
                        ),
                        limit,
                    ),
                    spec_request(
                        *configuration_descriptor,
                        *exchange_account_id,
                        *currency_pair_metadata,
                        currency_pair_metadata.quote_currency_code,
                    ),
                    limit,
                ),
                ..old(self)@
            }),
            old(self).wf() ==> final(self).wf(),
    {
        let base_request = make_request(
            configuration_descriptor,
            exchange_account_id,
            currency_pair_metadata,
            &currency_pair_metadata.base_currency_code,
        );
        self.amount_limits_in_amount_currency.set_by_balance_request(&base_request, limit);
        let quote_request = make_request(
            configuration_descriptor,
            exchange_account_id,
            currency_pair_metadata,
            &currency_pair_metadata.quote_currency_code,
        );
        self.amount_limits_in_amount_currency.set_by_balance_request(&quote_request, limit);
    }
}

} // verus!
