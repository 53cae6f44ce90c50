//! Giving reserved amounts back, approving parts of a reservation for orders
//! and canceling such parts.

use crate::balance_reservation_manager::{request_of, spec_request_of, BalanceReservationManager, ManagerView};
use crate::common::{BalanceRequest, ClientOrderId, DateTime, ReservationId};
use crate::decimal::Decimal;
use crate::errors::BalanceError;
use crate::vec_map::{lookup, present, spec_remove};
use vstd::prelude::*;

verus! {

impl ManagerView {
    /// Takes an amount out of the not approved amount, or out of the part
    /// approved for an order, of the reservation with the identifier.
    pub open spec fn spec_unreserve_not_approved_part(
        self,
        reservation_id: ReservationId,
        client_order_id: Option<ClientOrderId>,
        amount_to_unreserve: Decimal,
    ) -> (ManagerView, Result<(), BalanceError>) {
        match lookup(self.reservations, reservation_id.id) {
            None => (self, Err(BalanceError::UnknownReservation)),
            Some(reservation) => {
                let (next, result) = reservation.spec_unreserve_part(client_order_id, amount_to_unreserve);
                (self.spec_with_reservation(reservation_id, next), result)
            },
        }
    }

    /// The end of an unreserve: a reservation that has nothing left
    /// reserved, within the margin of its market, or less than nothing,
    /// leaves the store. What it still had reserved, if not exactly zero, is
    /// taken out of the virtual balance and the tree of reserved amounts as
    /// well, so that both stay in step with the reservations.
    pub open spec fn spec_finish_unreserve(self, reservation_id: ReservationId, request: BalanceRequest) -> (
        ManagerView,
        Result<(), BalanceError>,
    ) {
        match lookup(self.reservations, reservation_id.id) {
            None => (self, Err(BalanceError::UnknownReservation)),
            Some(reservation) => if reservation.unreserved_amount@ < 0 || reservation.spec_within_margin(
                reservation.unreserved_amount,
            ) {
                let removed = ManagerView {
                    reservations: spec_remove(self.reservations, reservation_id.id),
                    ..self
                };
                if reservation.unreserved_amount@ != 0 {
                    let (next, _, result) = removed.spec_add_reserved_amount_by_reservation(
                        request,
                        reservation,
                        reservation.unreserved_amount.spec_neg(),
                        true,
                    );
                    (next, result)
                } else {
                    (removed, Ok(()))
                }
            } else {
                (self, Ok(()))
            },
        }
    }

    /// Gives `amount` of a reservation back.
    ///
    /// An unknown reservation is an error, unless the manager is a clone or
    /// the amount is zero: then nothing happens. The amount is rounded to
    /// the precision of the market; where that fails the result is an error.
    /// Nothing happens where the rounded amount is zero while the
    /// reservation's amount is not, and where the reservation's exchange is
    /// unknown. Else the amount leaves the not approved amount or the part
    /// approved for the order, the reservation and the tree of reserved
    /// amounts lose it, and the virtual balance regains its share of the
    /// cost. A reservation that is left with nothing leaves the store.
    pub open spec fn spec_unreserve(
        self,
        reservation_id: ReservationId,
        amount: Decimal,
        client_or_order_id: Option<ClientOrderId>,
    ) -> (ManagerView, Result<(), BalanceError>) {
        match lookup(self.reservations, reservation_id.id) {
            None => if self.is_call_from_clone || amount@ == 0 {
                (self, Ok(()))
            } else {
                (self, Err(BalanceError::UnknownReservation))
            },
            Some(reservation) => match reservation.currency_pair_metadata.spec_round_amount(amount) {
                None => (self, Err(BalanceError::PrecisionRoundingFailed)),
                Some(amount_to_unreserve) => if amount_to_unreserve@ == 0 && reservation.amount@ != 0 {
                    (self, Ok(()))
                } else if !present(self.exchanges, reservation.exchange_account_id@) {
                    (self, Ok(()))
                } else {
                    let (after_part, part_result) = self.spec_unreserve_not_approved_part(
                        reservation_id,
                        client_or_order_id,
                        amount_to_unreserve,
                    );
                    match part_result {
                        Err(e) => (after_part, Err(e)),
                        Ok(()) => {
                            let request = spec_request_of(reservation);
                            let (after_amount, amount_result) = after_part.spec_add_reserved_amount(
                                request,
                                reservation_id,
                                amount_to_unreserve.spec_neg(),
                                true,
                            );
                            match amount_result {
                                Err(e) => (after_amount, Err(e)),
                                Ok(()) => after_amount.spec_finish_unreserve(reservation_id, request),
                            }
                        },
                    }
                },
            },
        }
    }

    /// Approves `amount` of a reservation for an order. An unknown
    /// reservation, and an order that a part is approved for already, change
    /// nothing and are no error.
    pub open spec fn spec_approve_reservation(
        self,
        reservation_id: ReservationId,
        client_order_id: ClientOrderId,
        amount: Decimal,
        now: DateTime,
    ) -> (ManagerView, Result<(), BalanceError>) {
        match lookup(self.reservations, reservation_id.id) {
            None => (self, Ok(())),
            Some(reservation) => {
                let (next, result) = reservation.spec_approve(client_order_id, amount, now);
                (
                    self.spec_with_reservation(reservation_id, next),
                    if result == Err::<(), BalanceError>(BalanceError::DoubleApproval) {
                        Ok(())
                    } else {
                        result
                    },
                )
            },
        }
    }

    /// Cancels the part of a reservation approved for an order. An unknown
    /// reservation changes nothing.
    pub open spec fn spec_cancel_approved_reservation(self, reservation_id: ReservationId, client_order_id: ClientOrderId) -> (
        ManagerView,
        Result<(), BalanceError>,
    ) {
        match lookup(self.reservations, reservation_id.id) {
            None => (self, Ok(())),
            Some(reservation) => {
                let (next, result) = reservation.spec_cancel(client_order_id);
                (self.spec_with_reservation(reservation_id, next), result)
            },
        }
    }
}

impl BalanceReservationManager {
    /// Takes an amount out of the not approved amount, or out of the part
    /// approved for an order, of the reservation with the identifier.
    pub fn unreserve_not_approved_part(
        &mut self,
        reservation_id: ReservationId,
        client_order_id: &Option<ClientOrderId>,
        amount_to_unreserve: Decimal,
    ) -> (r: Result<(), BalanceError>)
        ensures
            (final(self)@, r) == old(self)@.spec_unreserve_not_approved_part(
                reservation_id,
                *client_order_id,
                amount_to_unreserve,
            ),
            old(self).wf() ==> final(self).wf(),
    {
        let i = self.balance_reservation_storage.position(reservation_id);
        if i >= self.balance_reservation_storage.len() {
            return Err(BalanceError::UnknownReservation);
        }
        let r = self.balance_reservation_storage.reservations.entries[i].1.unreserve_not_approved_part(
            client_order_id,
            amount_to_unreserve,
        );
        proof {
            let before = old(self)@.reservations;
            let next = before[i as int].1.spec_unreserve_part(*client_order_id, amount_to_unreserve).0;
            assert(self@.reservations =~= before.update(i as int, (before[i as int].0, next)));
        }
        r
    }

    /// Gives `amount` of a reservation back.
    pub fn unreserve(
        &mut self,
        reservation_id: ReservationId,
        amount: Decimal,
        client_or_order_id: &Option<ClientOrderId>,
    ) -> (r: Result<(), BalanceError>)
        ensures
            (final(self)@, r) == old(self)@.spec_unreserve(reservation_id, amount, *client_or_order_id),
            old(self).wf() ==> final(self).wf(),
    {
        let i = self.balance_reservation_storage.position(reservation_id);
        if i >= self.balance_reservation_storage.len() {
            if self.is_call_from_clone || amount.is_zero() {
                return Ok(());
            }
            return Err(BalanceError::UnknownReservation);
        }
        let reservation = self.balance_reservation_storage.at(i);
        let amount_to_unreserve = match reservation.currency_pair_metadata.round_to_remove_amount_precision_error(
            amount,
        ) {
            Some(rounded) => rounded,
            None => return Err(BalanceError::PrecisionRoundingFailed),
        };
        if amount_to_unreserve.is_zero() && !reservation.amount.is_zero() {
            return Ok(());
        }
        if !self.knows_exchange(&reservation.exchange_account_id) {
            return Ok(());
        }
        let balance_request = request_of(reservation);
        match self.unreserve_not_approved_part(reservation_id, client_or_order_id, amount_to_unreserve) {
            Err(e) => return Err(e),
            Ok(()) => {},
        }
        match self.add_reserved_amount(&balance_request, reservation_id, amount_to_unreserve.neg(), true) {
            Err(e) => return Err(e),
            Ok(()) => {},
        }
        self.finish_unreserve(reservation_id, &balance_request)
    }

    /// The end of an unreserve: a reservation that has nothing left reserved
    /// leaves the store, and what it still had is taken out of the balances.
    fn finish_unreserve(&mut self, reservation_id: ReservationId, balance_request: &BalanceRequest) -> (r: Result<
        (),
        BalanceError,
    >)
        ensures
            (final(self)@, r) == old(self)@.spec_finish_unreserve(reservation_id, *balance_request),
            old(self).wf() ==> final(self).wf(),
    {
        let i = self.balance_reservation_storage.position(reservation_id);
        if i >= self.balance_reservation_storage.len() {
            return Err(BalanceError::UnknownReservation);
        }
        let reservation = self.balance_reservation_storage.at(i);
        let left = reservation.unreserved_amount;
        if left.is_negative() || reservation.is_amount_within_symbol_margin_error(left) {
            match self.balance_reservation_storage.remove(reservation_id) {
                None => Err(BalanceError::UnknownReservation),
                Some(removed) => {
                    let mut removed = removed;
                    if !left.is_zero() {
                        self.add_reserved_amount_by_reservation(balance_request, &mut removed, left.neg(), true)
                    } else {
                        Ok(())
                    }
                },
            }
        } else {
            Ok(())
        }
    }

    /// Approves `amount` of a reservation for an order.
    pub fn approve_reservation(
        &mut self,
        reservation_id: ReservationId,
        client_order_id: &ClientOrderId,
        amount: Decimal,
        now: DateTime,
    ) -> (r: Result<(), BalanceError>)
        ensures
            (final(self)@, r) == old(self)@.spec_approve_reservation(reservation_id, *client_order_id, amount, now),
            old(self).wf() ==> final(self).wf(),
    {
        let i = self.balance_reservation_storage.position(reservation_id);
        if i >= self.balance_reservation_storage.len() {
            return Ok(());
        }
        let r = self.balance_reservation_storage.reservations.entries[i].1.approve(client_order_id, amount, now);
        proof {
            let before = old(self)@.reservations;
            let next = before[i as int].1.spec_approve(*client_order_id, amount, now).0;
            assert(self@.reservations =~= before.update(i as int, (before[i as int].0, next)));
        }
        match r {
            Err(BalanceError::DoubleApproval) => Ok(()),
            other => other,
        }
    }

    /// Cancels the part of a reservation approved for an order.
    pub fn cancel_approved_reservation(&mut self, reservation_id: ReservationId, client_order_id: &ClientOrderId) -> (r:
        Result<(), BalanceError>)
        ensures
            (final(self)@, r) == old(self)@.spec_cancel_approved_reservation(reservation_id, *client_order_id),
            old(self).wf() ==> final(self).wf(),
    {
        let i = self.balance_reservation_storage.position(reservation_id);
        if i >= self.balance_reservation_storage.len() {
            return Ok(());
        }
        let r = self.balance_reservation_storage.reservations.entries[i].1.cancel_approved(client_order_id);
        proof {
            let before = old(self)@.reservations;
            let next = before[i as int].1.spec_cancel(*client_order_id).0;
            assert(self@.reservations =~= before.update(i as int, (before[i as int].0, next)));
        }
        r
    }
}

} // verus!
