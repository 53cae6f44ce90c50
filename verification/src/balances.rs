//! What is handed to and out of the balance reservation manager: the
//! parameters of a reservation, what a reservation would take, a position
//! with its limit, and a snapshot of the manager's state.

use crate::balance_position_by_fill_amount::{BalancePositionByFillAmount, PositionsView};
use crate::balance_reservation::{BalanceReservation, ReservationView};
use crate::balance_reservation_storage::{BalanceReservationStorage, Reservations};
use crate::common::{ConfigurationDescriptor, CurrencyCode, ExchangeAccountId, OrderSide};
use crate::currency_pair_metadata::CurrencyPairMetadata;
use crate::decimal::Decimal;
use crate::service_value_tree::{ServiceValueTree, TreeEntries};
use crate::virtual_balance_holder::{HolderView, VirtualBalanceHolder};
use vstd::prelude::*;

verus! {

/// What a reservation is asked for.
#[derive(Debug)]
pub struct ReserveParameters {
    pub configuration_descriptor: ConfigurationDescriptor,
    pub exchange_account_id: ExchangeAccountId,
    pub currency_pair_metadata: CurrencyPairMetadata,
    pub order_side: OrderSide,
    pub price: Decimal,
    /// The amount, in the amount currency.
    pub amount: Decimal,
}

impl Clone for ReserveParameters {
    fn clone(&self) -> (r: Self)
        ensures
            r == *self,
    {
        ReserveParameters {
            configuration_descriptor: self.configuration_descriptor.clone(),
            exchange_account_id: self.exchange_account_id.clone(),
            currency_pair_metadata: self.currency_pair_metadata.clone(),
            order_side: self.order_side,
            price: self.price,
            amount: self.amount,
        }
    }
}

impl ReserveParameters {
    /// The parameters that a reservation was made with, for another amount.
    pub open spec fn spec_from_reservation(reservation: ReservationView, amount: Decimal) -> ReserveParameters {
        ReserveParameters {
            configuration_descriptor: reservation.configuration_descriptor,
            exchange_account_id: reservation.exchange_account_id,
            currency_pair_metadata: reservation.currency_pair_metadata,
            order_side: reservation.order_side,
            price: reservation.price,
            amount,
        }
    }

    /// The parameters of a reservation.
    pub fn new(
        configuration_descriptor: ConfigurationDescriptor,
        exchange_account_id: ExchangeAccountId,
        currency_pair_metadata: CurrencyPairMetadata,
        order_side: OrderSide,
        price: Decimal,
        amount: Decimal,
    ) -> (r: Self)
        ensures
            r == (ReserveParameters {
                configuration_descriptor,
                exchange_account_id,
                currency_pair_metadata,
                order_side,
                price,
                amount,
            }),
    {
        ReserveParameters {
            configuration_descriptor,
            exchange_account_id,
            currency_pair_metadata,
            order_side,
            price,
            amount,
        }
    }

    /// The parameters that a reservation was made with, for another amount.
    pub fn from_reservation(reservation: &BalanceReservation, amount: Decimal) -> (r: Self)
        ensures
            r == Self::spec_from_reservation(reservation@, amount),
    {
        ReserveParameters {
            configuration_descriptor: reservation.configuration_descriptor.clone(),
            exchange_account_id: reservation.exchange_account_id.clone(),
            currency_pair_metadata: reservation.currency_pair_metadata.clone(),
            order_side: reservation.order_side,
            price: reservation.price,
            amount,
        }
    }
}

/// What a reservation would take.
#[derive(Debug)]
pub struct BalanceReservationPreset {
    pub reservation_currency_code: CurrencyCode,
    pub amount_in_reservation_currency_code: Decimal,
    pub taken_free_amount_in_amount_currency_code: Decimal,
    pub cost_in_reservation_currency_code: Decimal,
    pub cost_in_amount_currency_code: Decimal,
}

impl BalanceReservationPreset {
    /// What a reservation would take.
    pub fn new(
        reservation_currency_code: CurrencyCode,
        amount_in_reservation_currency_code: Decimal,
        taken_free_amount_in_amount_currency_code: Decimal,
        cost_in_reservation_currency_code: Decimal,
        cost_in_amount_currency_code: Decimal,
    ) -> (r: Self)
        ensures
            r == (BalanceReservationPreset {
                reservation_currency_code,
                amount_in_reservation_currency_code,
                taken_free_amount_in_amount_currency_code,
                cost_in_reservation_currency_code,
                cost_in_amount_currency_code,
            }),
    {
        BalanceReservationPreset {
            reservation_currency_code,
            amount_in_reservation_currency_code,
            taken_free_amount_in_amount_currency_code,
            cost_in_reservation_currency_code,
            cost_in_amount_currency_code,
        }
    }
}

/// The position of a market as seen from one side, with the limit set for it.
#[derive(Clone, Copy, Debug)]
pub struct BalancePositionModel {
    pub position: Decimal,
    pub limit: Option<Decimal>,
}

/// A snapshot of the manager's state, from which it can be restored.
#[derive(Debug)]
pub struct Balances {
    pub virtual_balance_holder: VirtualBalanceHolder,
    pub reserved_amount: ServiceValueTree,
    pub position_by_fill_amount: BalancePositionByFillAmount,
    pub amount_limits: ServiceValueTree,
    pub balance_reservations_by_reservation_id: BalanceReservationStorage,
}

/// A snapshot as contracts see it.
pub struct BalancesView {
    pub holder: HolderView,
    pub reserved: TreeEntries,
    pub positions: PositionsView,
    pub limits: TreeEntries,
    pub reservations: Reservations,
}

impl View for Balances {
    type V = BalancesView;

    open spec fn view(&self) -> BalancesView {
        BalancesView {
            holder: self.virtual_balance_holder@,
            reserved: self.reserved_amount@,
            positions: self.position_by_fill_amount@,
            limits: self.amount_limits@,
            reservations: self.balance_reservations_by_reservation_id@,
        }
    }
}

impl Balances {
    /// The snapshot made of the given parts.
    pub fn new(
        virtual_balance_holder: VirtualBalanceHolder,
        reserved_amount: ServiceValueTree,
        position_by_fill_amount: BalancePositionByFillAmount,
        amount_limits: ServiceValueTree,
        balance_reservations_by_reservation_id: BalanceReservationStorage,
    ) -> (r: Self)
        ensures
            r@ == (BalancesView {
                holder: virtual_balance_holder@,
                reserved: reserved_amount@,
                positions: position_by_fill_amount@,
                limits: amount_limits@,
                reservations: balance_reservations_by_reservation_id@,
            }),
    {
        Balances {
            virtual_balance_holder,
            reserved_amount,
            position_by_fill_amount,
            amount_limits,
            balance_reservations_by_reservation_id,
        }
    }
}

} // verus!
