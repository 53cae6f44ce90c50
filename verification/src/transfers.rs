//! Moving a reserved amount from one reservation to another.

use crate::balance_reservation::{BalanceReservation, ReservationView};
use crate::balance_reservation_manager::{request_of, spec_request_of, BalanceReservationManager, ManagerView};
use crate::common::{BalanceRequest, ClientOrderId, DateTime, ReservationId};
use crate::decimal::Decimal;
use crate::errors::BalanceError;
use crate::vec_map::{lookup, spec_remove, Key};
use vstd::prelude::*;

verus! {

/// Whether two reservations are made under the same configuration, on the
/// same account, in the same market and for the same side.
pub open spec fn spec_same_source(a: ReservationView, b: ReservationView) -> bool {
    &&& a.configuration_descriptor@ == b.configuration_descriptor@
    &&& a.exchange_account_id@ == b.exchange_account_id@
    &&& a.currency_pair_metadata.spec_same(&b.currency_pair_metadata)
    &&& a.order_side == b.order_side
}

impl ManagerView {
    /// The second half of one side of a transfer, after the amount was moved
    /// within the reservation: the reservation and the tree of reserved
    /// amounts take `diff`, the virtual balance pays the change of cost, and
    /// the reservation's cost and amount follow. A reservation that is left
    /// with `new_unreserved_amount` within the margin of zero leaves the
    /// store. The result is the change of cost: at the source the share of
    /// the cost that falls to `diff`, at the target what it is given.
    pub open spec fn spec_settle_transfer(
        self,
        reservation_id: ReservationId,
        request: BalanceRequest,
        diff: Decimal,
        new_unreserved_amount: Decimal,
        is_src_request: bool,
        target_cost_diff: Decimal,
    ) -> (ManagerView, Result<Decimal, BalanceError>) {
        let (added, add_result) = self.spec_add_reserved_amount(request, reservation_id, diff, false);
        match add_result {
            Err(e) => (added, Err(e)),
            Ok(()) => match lookup(added.reservations, reservation_id.id) {
                None => (added, Err(BalanceError::UnknownReservation)),
                Some(reservation) => {
                    let cost = if is_src_request {
                        reservation.spec_proportional_cost(diff)
                    } else {
                        Ok(target_cost_diff)
                    };
                    match cost {
                        Err(e) => (added, Err(e)),
                        Ok(cost_diff) => {
                            let (paid, pay_result) = added.spec_add_virtual_balance(
                                request,
                                reservation.currency_pair_metadata,
                                cost_diff.spec_neg(),
                                reservation.price,
                            );
                            match pay_result {
                                Err(e) => (paid, Err(e)),
                                Ok(()) => match reservation.cost.spec_add(cost_diff) {
                                    None => (paid, Err(BalanceError::Arithmetic)),
                                    Some(cost) => match reservation.amount.spec_exact_add(diff) {
                                        None => (paid, Err(BalanceError::Arithmetic)),
                                        Some(amount) => if reservation.spec_within_margin(new_unreserved_amount) {
                                            (
                                                ManagerView {
                                                    reservations: spec_remove(paid.reservations, reservation_id.id),
                                                    ..paid
                                                },
                                                Ok(cost_diff),
                                            )
                                        } else {
                                            (
                                                paid.spec_with_reservation(
                                                    reservation_id,
                                                    ReservationView { cost, amount, ..reservation },
                                                ),
                                                Ok(cost_diff),
                                            )
                                        },
                                    },
                                },
                            }
                        },
                    }
                },
            },
        }
    }

    /// One side of a transfer: sets what a reservation has reserved to
    /// `new_unreserved_amount`.
    ///
    /// An amount below zero by more than the margin is an error. The
    /// difference to what was reserved goes into the not approved amount or
    /// into the part of the order, then the balances follow.
    pub open spec fn spec_update_unreserved_amount_for_transfer(
        self,
        reservation_id: ReservationId,
        new_unreserved_amount: Decimal,
        client_order_id: Option<ClientOrderId>,
        is_src_request: bool,
        target_cost_diff: Decimal,
        now: DateTime,
    ) -> (ManagerView, Result<Decimal, BalanceError>) {
        match lookup(self.reservations, reservation_id.id) {
            None => (self, Err(BalanceError::UnknownReservation)),
            Some(reservation) => if new_unreserved_amount@ < 0 && !reservation.spec_within_margin(
                new_unreserved_amount,
            ) {
                (self, Err(BalanceError::NegativeUnreserved))
            } else {
                match new_unreserved_amount.spec_exact_sub(reservation.unreserved_amount) {
                    None => (self, Err(BalanceError::Arithmetic)),
                    Some(diff) => {
                        let (moved, move_result) = reservation.spec_move_amount(
                            client_order_id,
                            diff,
                            is_src_request,
                            now,
                        );
                        let next = self.spec_with_reservation(reservation_id, moved);
                        match move_result {
                            Err(e) => (next, Err(e)),
                            Ok(()) => next.spec_settle_transfer(
                                reservation_id,
                                spec_request_of(moved),
                                diff,
                                new_unreserved_amount,
                                is_src_request,
                                target_cost_diff,
                            ),
                        }
                    },
                }
            },
        }
    }

    /// Moves `amount_to_move` from one reservation to another: the source
    /// gives it up with its share of the cost, the target takes both.
    pub open spec fn spec_transfer_amount(
        self,
        src_reservation_id: ReservationId,
        dst_reservation_id: ReservationId,
        amount_to_move: Decimal,
        client_order_id: Option<ClientOrderId>,
        now: DateTime,
    ) -> (ManagerView, Result<(), BalanceError>) {
        match lookup(self.reservations, src_reservation_id.id) {
            None => (self, Err(BalanceError::UnknownReservation)),
            Some(src) => match src.unreserved_amount.spec_exact_sub(amount_to_move) {
                None => (self, Err(BalanceError::Arithmetic)),
                Some(new_src) => {
                    let (after_src, src_result) = self.spec_update_unreserved_amount_for_transfer(
                        src_reservation_id,
                        new_src,
                        client_order_id,
                        true,
                        Decimal::spec_zero(),
                        now,
                    );
                    match src_result {
                        Err(e) => (after_src, Err(e)),
                        Ok(src_cost_diff) => match lookup(after_src.reservations, dst_reservation_id.id) {
                            None => (after_src, Err(BalanceError::UnknownReservation)),
                            Some(dst) => match dst.unreserved_amount.spec_exact_add(amount_to_move) {
                                None => (after_src, Err(BalanceError::Arithmetic)),
                                Some(new_dst) => {
                                    let (after_dst, dst_result) = after_src.spec_update_unreserved_amount_for_transfer(
                                        dst_reservation_id,
                                        new_dst,
                                        client_order_id,
                                        false,
                                        src_cost_diff.spec_neg(),
                                        now,
                                    );
                                    match dst_result {
                                        Err(e) => (after_dst, Err(e)),
                                        Ok(_) => (after_dst, Ok(())),
                                    }
                                },
                            },
                        },
                    }
                },
            },
        }
    }

    /// Whether the balance of a derivative allows a transfer between two
    /// reservations at different prices: what is available to the target,
    /// plus the amount at the source's price, less the amount at the
    /// target's price, must not be below zero.
    pub open spec fn spec_transfer_affordable(self, src: ReservationView, dst: ReservationView, amount_to_move: Decimal) -> Result<
        bool,
        BalanceError,
    > {
        match (src.spec_in_reservation_currency(amount_to_move), dst.spec_in_reservation_currency(amount_to_move)) {
            (Some(add_amount), Some(sub_amount)) => match add_amount.spec_sub(sub_amount) {
                None => Err(BalanceError::Arithmetic),
                Some(balance_diff) => match self.spec_available_balance(
                    dst.configuration_descriptor,
                    dst.exchange_account_id,
                    dst.currency_pair_metadata,
                    dst.order_side,
                    dst.price,
                    true,
                    false,
                ) {
                    None => Err(BalanceError::BalanceUnavailable),
                    Some(available) => match available.spec_add(balance_diff) {
                        None => Err(BalanceError::Arithmetic),
                        Some(rest) => Ok(rest@ >= 0),
                    },
                },
            },
            _ => Err(BalanceError::Arithmetic),
        }
    }

    /// Transfers `amount` from one reservation to another of the same
    /// source.
    ///
    /// It is an error where either reservation is unknown, where the two
    /// differ in configuration, account, market or side, and where the
    /// amount cannot be rounded. The result is `false`, and nothing changes,
    /// where the rounded amount is zero, and where the prices differ on a
    /// derivative market whose balance does not allow the transfer. Else
    /// the amount is moved and the result is `true`.
    pub open spec fn spec_try_transfer_reservation(
        self,
        src_reservation_id: ReservationId,
        dst_reservation_id: ReservationId,
        amount: Decimal,
        client_order_id: Option<ClientOrderId>,
        now: DateTime,
    ) -> (ManagerView, Result<bool, BalanceError>) {
        match (lookup(self.reservations, src_reservation_id.id), lookup(self.reservations, dst_reservation_id.id)) {
            (Some(src), Some(dst)) => if !spec_same_source(src, dst) {
                (self, Err(BalanceError::TransferSourceMismatch))
            } else {
                match src.currency_pair_metadata.spec_round_amount(amount) {
                    None => (self, Err(BalanceError::PrecisionRoundingFailed)),
                    Some(amount_to_move) => if amount_to_move@ == 0 {
                        (self, Ok(false))
                    } else {
                        let affordable = if src.price@ != dst.price@ && src.currency_pair_metadata.is_derivative {
                            self.spec_transfer_affordable(src, dst, amount_to_move)
                        } else {
                            Ok(true)
                        };
                        match affordable {
                            Err(e) => (self, Err(e)),
                            Ok(false) => (self, Ok(false)),
                            Ok(true) => {
                                let (next, result) = self.spec_transfer_amount(
                                    src_reservation_id,
                                    dst_reservation_id,
                                    amount_to_move,
                                    client_order_id,
                                    now,
                                );
                                match result {
                                    Err(e) => (next, Err(e)),
                                    Ok(()) => (next, Ok(true)),
                                }
                            },
                        }
                    },
                }
            },
            _ => (self, Err(BalanceError::UnknownReservation)),
        }
    }
}

/// Whether two reservations are made under the same configuration, on the
/// same account, in the same market and for the same side.
pub fn same_source(a: &BalanceReservation, b: &BalanceReservation) -> (r: bool)
    ensures
        r == spec_same_source(a@, b@),
{
    a.configuration_descriptor.same(&b.configuration_descriptor) && a.exchange_account_id.same(
        &b.exchange_account_id,
    ) && a.currency_pair_metadata.same(&b.currency_pair_metadata) && a.order_side == b.order_side
}

impl BalanceReservationManager {
    /// The second half of one side of a transfer.
    fn settle_transfer(
        &mut self,
        reservation_id: ReservationId,
        request: &BalanceRequest,
        diff: Decimal,
        new_unreserved_amount: Decimal,
        is_src_request: bool,
        target_cost_diff: Decimal,
    ) -> (r: Result<Decimal, BalanceError>)
        ensures
            (final(self)@, r) == old(self)@.spec_settle_transfer(
                reservation_id,
                *request,
                diff,
                new_unreserved_amount,
                is_src_request,
                target_cost_diff,
            ),
            old(self).wf() ==> final(self).wf(),
    {
        match self.add_reserved_amount(request, reservation_id, diff, false) {
            Err(e) => return Err(e),
            Ok(()) => {},
        }
        let i = self.balance_reservation_storage.position(reservation_id);
        if i >= self.balance_reservation_storage.len() {
            return Err(BalanceError::UnknownReservation);
        }
        let reservation = self.balance_reservation_storage.at(i);
        let cost_diff = if is_src_request {
            match reservation.get_proportional_cost_amount(diff) {
                Ok(cost) => cost,
                Err(e) => return Err(e),
            }
        } else {
            target_cost_diff
        };
        let metadata = reservation.currency_pair_metadata.clone();
        let price = reservation.price;
        let old_cost = reservation.cost;
        let old_amount = reservation.amount;
        let leaves = reservation.is_amount_within_symbol_margin_error(new_unreserved_amount);
        match self.add_virtual_balance_by_currency_pair_metadata(request, &metadata, cost_diff.neg(), price) {
            Err(e) => return Err(e),
            Ok(()) => {},
        }
        let cost = match old_cost.checked_add(cost_diff) {
            Some(cost) => cost,
            None => return Err(BalanceError::Arithmetic),
        };
        let amount = match old_amount.exact_add(diff) {
            Some(amount) => amount,
            None => return Err(BalanceError::Arithmetic),
        };
        if leaves {
            let _ = self.balance_reservation_storage.remove(reservation_id);
        } else {
            let ghost before = self@.reservations;
            self.balance_reservation_storage.reservations.entries[i].1.cost = cost;
            self.balance_reservation_storage.reservations.entries[i].1.amount = amount;
            proof {
                assert(self@.reservations =~= before.update(
                    i as int,
                    (before[i as int].0, ReservationView { cost, amount, ..before[i as int].1 }),
                ));
            }
        }
        Ok(cost_diff)
    }

    /// One side of a transfer: sets what a reservation has reserved to
    /// `new_unreserved_amount`. The result is the change of the
    /// reservation's cost.
    pub fn update_unreserved_amount_for_transfer(
        &mut self,
        reservation_id: ReservationId,
        new_unreserved_amount: Decimal,
        client_order_id: &Option<ClientOrderId>,
        is_src_request: bool,
        target_cost_diff: Decimal,
        now: DateTime,
    ) -> (r: Result<Decimal, BalanceError>)
        ensures
            (final(self)@, r) == old(self)@.spec_update_unreserved_amount_for_transfer(
                reservation_id,
                new_unreserved_amount,
                *client_order_id,
                is_src_request,
                target_cost_diff,
                now,
            ),
            old(self).wf() ==> final(self).wf(),
    {
        let i = self.balance_reservation_storage.position(reservation_id);
        if i >= self.balance_reservation_storage.len() {
            return Err(BalanceError::UnknownReservation);
        }
        let reservation = self.balance_reservation_storage.at(i);
        if new_unreserved_amount.is_negative() && !reservation.is_amount_within_symbol_margin_error(
            new_unreserved_amount,
        ) {
            return Err(BalanceError::NegativeUnreserved);
        }
        let diff = match new_unreserved_amount.exact_sub(reservation.unreserved_amount) {
            Some(diff) => diff,
            None => return Err(BalanceError::Arithmetic),
        };
        let moved = self.balance_reservation_storage.reservations.entries[i].1.move_amount(
            client_order_id,
            diff,
            is_src_request,
            now,
        );
        proof {
            let before = old(self)@.reservations;
            let next = before[i as int].1.spec_move_amount(*client_order_id, diff, is_src_request, now).0;
            assert(self@.reservations =~= before.update(i as int, (before[i as int].0, next)));
        }
        match moved {
            Err(e) => return Err(e),
            Ok(()) => {},
        }
        let balance_request = request_of(self.balance_reservation_storage.at(i));
        self.settle_transfer(
            reservation_id,
            &balance_request,
            diff,
            new_unreserved_amount,
            is_src_request,
            target_cost_diff,
        )
    }

    /// Moves `amount_to_move` from one reservation to another.
    pub fn transfer_amount(
        &mut self,
        src_reservation_id: ReservationId,
        dst_reservation_id: ReservationId,
        amount_to_move: Decimal,
        client_order_id: &Option<ClientOrderId>,
        now: DateTime,
    ) -> (r: Result<(), BalanceError>)
        ensures
            (final(self)@, r) == old(self)@.spec_transfer_amount(
                src_reservation_id,
                dst_reservation_id,
                amount_to_move,
                *client_order_id,
                now,
            ),
            old(self).wf() ==> final(self).wf(),
    {
        let new_src_unreserved_amount = match self.balance_reservation_storage.try_get(src_reservation_id) {
            None => return Err(BalanceError::UnknownReservation),
            Some(src) => match src.unreserved_amount.exact_sub(amount_to_move) {
                Some(rest) => rest,
                None => return Err(BalanceError::Arithmetic),
            },
        };
        let src_cost_diff = match self.update_unreserved_amount_for_transfer(
            src_reservation_id,
            new_src_unreserved_amount,
            client_order_id,
            true,
            Decimal::zero(),
            now,
        ) {
            Ok(cost_diff) => cost_diff,
            Err(e) => return Err(e),
        };
        let new_dst_unreserved_amount = match self.balance_reservation_storage.try_get(dst_reservation_id) {
            None => return Err(BalanceError::UnknownReservation),
            Some(dst) => match dst.unreserved_amount.exact_add(amount_to_move) {
                Some(total) => total,
                None => return Err(BalanceError::Arithmetic),
            },
        };
        match self.update_unreserved_amount_for_transfer(
            dst_reservation_id,
            new_dst_unreserved_amount,
            client_order_id,
            false,
            src_cost_diff.neg(),
            now,
        ) {
            Ok(_) => Ok(()),
            Err(e) => Err(e),
        }
    }

    /// Whether the balance of a derivative allows a transfer between two
    /// reservations at different prices.
    fn transfer_affordable(&self, src: &BalanceReservation, dst: &BalanceReservation, amount_to_move: Decimal) -> (r: Result<
        bool,
        BalanceError,
    >)
        ensures
            r == self@.spec_transfer_affordable(src@, dst@, amount_to_move),
    {
        let add_amount = match src.convert_in_reservation_currency(amount_to_move) {
            Some(amount) => amount,
            None => return Err(BalanceError::Arithmetic),
        };
        let sub_amount = match dst.convert_in_reservation_currency(amount_to_move) {
            Some(amount) => amount,
            None => return Err(BalanceError::Arithmetic),
        };
        let balance_diff_amount = match add_amount.checked_sub(sub_amount) {
            Some(diff) => diff,
            None => return Err(BalanceError::Arithmetic),
        };
        let available_balance = match self.try_get_available_balance(
            &dst.configuration_descriptor,
            &dst.exchange_account_id,
            &dst.currency_pair_metadata,
            dst.order_side,
            dst.price,
            true,
            false,
        ) {
            Some(balance) => balance,
            None => return Err(BalanceError::BalanceUnavailable),
        };
        match available_balance.checked_add(balance_diff_amount) {
            Some(rest) => Ok(!rest.is_negative()),
            None => Err(BalanceError::Arithmetic),
        }
    }

    /// Transfers `amount` from one reservation to another of the same
    /// source. Returns whether the amount was moved.
    pub fn try_transfer_reservation(
        &mut self,
        src_reservation_id: ReservationId,
        dst_reservation_id: ReservationId,
        amount: Decimal,
        client_order_id: &Option<ClientOrderId>,
        now: DateTime,
    ) -> (r: Result<bool, BalanceError>)
        ensures
            (final(self)@, r) == old(self)@.spec_try_transfer_reservation(
                src_reservation_id,
                dst_reservation_id,
                amount,
                *client_order_id,
                now,
            ),
            old(self).wf() ==> final(self).wf(),
    {
        let src_reservation = match self.balance_reservation_storage.try_get(src_reservation_id) {
            Some(reservation) => reservation,
            None => return Err(BalanceError::UnknownReservation),
        };
        let dst_reservation = match self.balance_reservation_storage.try_get(dst_reservation_id) {
            Some(reservation) => reservation,
            None => return Err(BalanceError::UnknownReservation),
        };
        if !same_source(src_reservation, dst_reservation) {
            return Err(BalanceError::TransferSourceMismatch);
        }
        let amount_to_move = match src_reservation.currency_pair_metadata.round_to_remove_amount_precision_error(
            amount,
        ) {
            Some(rounded) => rounded,
            None => return Err(BalanceError::PrecisionRoundingFailed),
        };
        if amount_to_move.is_zero() {
            return Ok(false);
        }
        if !src_reservation.price.equals(&dst_reservation.price) && src_reservation.currency_pair_metadata.is_derivative {
            match self.transfer_affordable(src_reservation, dst_reservation, amount_to_move) {
                Err(e) => return Err(e),
                Ok(false) => return Ok(false),
                Ok(true) => {},
            }
        }
        match self.transfer_amount(src_reservation_id, dst_reservation_id, amount_to_move, client_order_id, now) {
            Ok(()) => Ok(true),
            Err(e) => Err(e),
        }
    }
}

} // verus!
