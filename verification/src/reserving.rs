//! Making reservations: whether the balance and the limit of a market allow
//! one, what it costs, and how its price is changed afterwards.

use crate::balance_reservation::{spec_active_sum, BalanceReservation, ReservationView};
use crate::balance_reservation_manager::{make_request, or_zero, request_of, spec_request, spec_request_of, BalanceReservationManager, ManagerView};
use crate::balances::{BalanceReservationPreset, ReserveParameters};
use crate::common::{BeforeAfter, OrderSide, ReservationId};
use crate::decimal::Decimal;

use crate::vec_map::{lookup, present};
use vstd::prelude::*;

verus! {

/// What a change of price does to a reservation.
#[derive(Clone, Copy, Debug)]
pub struct PriceChange {
    /// By how much the reserved amount changes, in the amount currency.
    pub diff: Decimal,
    /// The new not approved amount.
    pub rest: Decimal,
    /// What the reservation has reserved, less `diff`.
    pub lowered: Decimal,
}

/// A reservation made, with the amount that it was made for.
pub type Reserved = (ReservationId, Decimal);

impl ManagerView {
    /// What a reservation costs in the amount currency, and how much of the
    /// free position it takes.
    ///
    /// On a spot market it costs its amount and takes nothing. On a
    /// derivative market the free position of the side is taken first, and
    /// what is left of the amount costs `amount * multiplier / leverage`.
    pub open spec fn spec_reservation_cost(self, parameters: ReserveParameters) -> Option<(Decimal, Decimal)> {
        let metadata = parameters.currency_pair_metadata;
        if !metadata.is_derivative {
            Some((parameters.amount, Decimal::spec_zero()))
        } else {
            match self.spec_unreserved_position(parameters.exchange_account_id, metadata, parameters.order_side) {
                None => None,
                Some(free) => match parameters.amount.spec_exact_sub(free) {
                    None => None,
                    Some(rest) => {
                        let amount_to_pay_for = Decimal::spec_zero().spec_max(rest);
                        match parameters.amount.spec_exact_sub(amount_to_pay_for) {
                            None => None,
                            Some(taken_free_amount) => match self.spec_leverage(
                                parameters.exchange_account_id,
                                metadata.currency_pair,
                            ) {
                                None => None,
                                Some(leverage) => match amount_to_pay_for.spec_mul(metadata.amount_multiplier) {
                                    None => None,
                                    Some(product) => match product.spec_div(leverage) {
                                        None => None,
                                        Some(cost) => Some((cost, taken_free_amount)),
                                    },
                                },
                            },
                        }
                    },
                },
            }
        }
    }

    /// What a reservation would take: the currency that its side pays with,
    /// its amount and its cost in that currency, its cost in the amount
    /// currency and the free position taken.
    pub open spec fn spec_preset(self, parameters: ReserveParameters) -> Option<BalanceReservationPreset> {
        let metadata = parameters.currency_pair_metadata;
        let code = metadata.spec_trade_code(parameters.order_side, BeforeAfter::Before);
        match metadata.spec_from_amount_currency(code@, parameters.amount, parameters.price) {
            None => None,
            Some(amount_in_reservation_currency_code) => match self.spec_reservation_cost(parameters) {
                None => None,
                Some((cost_in_amount_currency_code, taken_free_amount)) => match metadata.spec_from_amount_currency(
                    code@,
                    cost_in_amount_currency_code,
                    parameters.price,
                ) {
                    None => None,
                    Some(cost_in_reservation_currency_code) => Some(
                        BalanceReservationPreset {
                            reservation_currency_code: code,
                            amount_in_reservation_currency_code,
                            taken_free_amount_in_amount_currency_code: taken_free_amount,
                            cost_in_reservation_currency_code,
                            cost_in_amount_currency_code,
                        },
                    ),
                },
            },
        }
    }

    /// Whether the limit of the market allows a reservation.
    ///
    /// Without a limit it does. With one, the position that would result if
    /// everything reserved were filled, the position plus (for a buy) or
    /// minus (for a sell) what is reserved with the new amount, must be
    /// within the limit, or else nearer to zero than the position is now.
    pub open spec fn spec_can_reserve_with_limit(self, parameters: ReserveParameters) -> bool {
        let metadata = parameters.currency_pair_metadata;
        let request = spec_request(
            parameters.configuration_descriptor,
            parameters.exchange_account_id,
            metadata,
            metadata.spec_trade_code(parameters.order_side, BeforeAfter::Before),
        );
        match lookup(self.limits, request@) {
            None => true,
            Some(limit) => match or_zero(lookup(self.reserved, request@)).spec_exact_add(parameters.amount) {
                None => false,
                Some(new_reserved_amount) => {
                    let position = self.spec_fill_position(parameters.exchange_account_id, metadata.currency_pair);
                    let potential = if parameters.order_side == OrderSide::Buy {
                        position.spec_exact_add(new_reserved_amount)
                    } else {
                        position.spec_exact_sub(new_reserved_amount)
                    };
                    match potential {
                        None => false,
                        Some(potential_position) => potential_position.spec_abs()@ <= limit@
                            || potential_position.spec_abs()@ < position.spec_abs()@,
                    }
                },
            },
        }
    }

    /// What a reservation would take, if it can be made: the limit must
    /// allow it, and the available balance (without the free position, which
    /// the cost accounts for) less the cost, rounded to the precision of the
    /// market, must not be below zero.
    pub open spec fn spec_can_reserve_core(self, parameters: ReserveParameters) -> Option<BalanceReservationPreset> {
        match self.spec_preset(parameters) {
            None => None,
            Some(preset) => match self.spec_available_for(parameters, false).spec_sub(
                preset.cost_in_reservation_currency_code,
            ) {
                None => None,
                Some(new_balance) => if !self.spec_can_reserve_with_limit(parameters) {
                    None
                } else {
                    match parameters.currency_pair_metadata.spec_round_amount(new_balance) {
                        None => None,
                        Some(rounded) => if rounded@ >= 0 {
                            Some(preset)
                        } else {
                            None
                        },
                    }
                },
            },
        }
    }

    /// Makes a reservation, where it can be made: the reservation enters the
    /// store under the next identifier, with its amount reserved; the tree
    /// of reserved amounts gains the amount and the virtual balance pays the
    /// cost. Nothing changes where the result is `None`.
    pub open spec fn spec_try_reserve(self, parameters: ReserveParameters) -> (ManagerView, Option<ReservationId>) {
        match self.spec_can_reserve_core(parameters) {
            None => (self, None),
            Some(preset) => if self.reservation_id.id == u64::MAX {
                (self, None)
            } else {
                let id = ReservationId { id: (self.reservation_id.id + 1) as u64 };
                if present(self.reservations, id.id) {
                    (self, None)
                } else {
                    let reservation = ReservationView::spec_new(
                        parameters.configuration_descriptor,
                        parameters.exchange_account_id,
                        parameters.currency_pair_metadata,
                        parameters.order_side,
                        parameters.price,
                        parameters.amount,
                        preset.taken_free_amount_in_amount_currency_code,
                        preset.cost_in_amount_currency_code,
                        preset.reservation_currency_code,
                    );
                    match self.spec_plan_reserved(spec_request_of(reservation), reservation, parameters.amount, true) {
                        Err(_) => (self, None),
                        Ok(plan) => (
                            ManagerView {
                                reservation_id: id,
                                reservations: self.reservations.push(
                                    (id, ReservationView { unreserved_amount: plan.unreserved_amount, ..reservation }),
                                ),
                                ..self.spec_commit(plan)
                            },
                            Some(id),
                        ),
                    }
                }
            },
        }
    }

    /// Tries each reservation in turn and collects those that were made.
    pub open spec fn spec_reserve_each(self, parameters: Seq<ReserveParameters>) -> (ManagerView, Seq<Reserved>)
        decreases parameters.len(),
    {
        if parameters.len() == 0 {
            (self, Seq::empty())
        } else {
            let (state, made) = self.spec_reserve_each(parameters.drop_last());
            let (next, result) = state.spec_try_reserve(parameters.last());
            match result {
                Some(id) => (next, made.push((id, parameters.last().amount))),
                None => (next, made),
            }
        }
    }

    /// Makes all of the reservations or none: they are tried in turn, and
    /// where one cannot be made, the state is the one from before, as if
    /// none had been tried.
    pub open spec fn spec_try_reserve_multiple(self, parameters: Seq<ReserveParameters>) -> (
        ManagerView,
        bool,
        Seq<ReservationId>,
    ) {
        let (state, made) = self.spec_reserve_each(parameters);
        if made.len() != parameters.len() {
            (self, false, Seq::empty())
        } else {
            (state, true, Seq::new(made.len(), |i: int| made[i].0))
        }
    }

    /// What a new price does to a reservation; `None` where the available
    /// balance does not allow it or the arithmetic fails.
    ///
    /// The amount that is approved for no order becomes the reservation's
    /// amount less what is left of the parts that were not canceled. Its
    /// worth in the reservation's currency at the new price, less the worth
    /// of the old not approved amount at the old price, must be within the
    /// balance available at the new price.
    pub open spec fn spec_price_change(self, reservation: ReservationView, new_price: Decimal) -> Option<PriceChange> {
        let metadata = reservation.currency_pair_metadata;
        let code = reservation.reservation_currency_code@;
        match spec_active_sum(reservation.approved_parts) {
            None => None,
            Some(approved_sum) => match reservation.amount.spec_exact_sub(approved_sum) {
                None => None,
                Some(rest) => match (
                    metadata.spec_from_amount_currency(code, rest, new_price),
                    reservation.spec_in_reservation_currency(reservation.not_approved_amount),
                ) {
                    (Some(new_rest), Some(not_approved)) => match new_rest.spec_sub(not_approved) {
                        None => None,
                        Some(diff_in_code) => match self.spec_available_balance(
                            reservation.configuration_descriptor,
                            reservation.exchange_account_id,
                            metadata,
                            reservation.order_side,
                            new_price,
                            true,
                            false,
                        ) {
                            None => None,
                            Some(old_balance) => match old_balance.spec_sub(diff_in_code) {
                                None => None,
                                Some(new_balance) => if new_balance@ < 0 {
                                    None
                                } else {
                                    match metadata.spec_into_amount_currency(code, diff_in_code, new_price) {
                                        None => None,
                                        Some(diff) => match reservation.unreserved_amount.spec_exact_sub(diff) {
                                            None => None,
                                            Some(lowered) => Some(PriceChange { diff, rest, lowered }),
                                        },
                                    }
                                },
                            },
                        },
                    },
                    _ => None,
                },
            },
        }
    }

    /// Changes the price of a reservation, where the balance allows it. The
    /// virtual balance pays for the change at the new price, and the not
    /// approved amount is set anew. Nothing changes where the result is
    /// `false`.
    pub open spec fn spec_try_update_reservation_price(self, reservation_id: ReservationId, new_price: Decimal) -> (
        ManagerView,
        bool,
    ) {
        match lookup(self.reservations, reservation_id.id) {
            None => (self, false),
            Some(reservation) => match self.spec_price_change(reservation, new_price) {
                None => (self, false),
                Some(change) => {
                    let repriced = ReservationView { price: new_price, unreserved_amount: change.lowered, ..reservation };
                    match self.spec_plan_reserved(spec_request_of(reservation), repriced, change.diff, true) {
                        Err(_) => (self, false),
                        Ok(plan) => (
                            self.spec_commit(plan).spec_with_reservation(
                                reservation_id,
                                ReservationView {
                                    unreserved_amount: plan.unreserved_amount,
                                    not_approved_amount: change.rest,
                                    ..repriced
                                },
                            ),
                            true,
                        ),
                    }
                },
            },
        }
    }
}

impl BalanceReservationManager {
    /// What a reservation costs in the amount currency, and how much of the
    /// free position it takes.
    pub fn calculate_reservation_cost(&self, reserve_parameters: &ReserveParameters) -> (r: Option<(Decimal, Decimal)>)
        ensures
            r == self@.spec_reservation_cost(*reserve_parameters),
    {
        let metadata = &reserve_parameters.currency_pair_metadata;
        if !metadata.is_derivative {
            return Some((reserve_parameters.amount, Decimal::zero()));
        }
        let free_amount = match self.get_unreserved_position_in_amount_currency_code(
            &reserve_parameters.exchange_account_id,
            metadata,
            reserve_parameters.order_side,
        ) {
            Some(free) => free,
            None => return None,
        };
        let rest = match reserve_parameters.amount.exact_sub(free_amount) {
            Some(rest) => rest,
            None => return None,
        };
        let amount_to_pay_for = Decimal::zero().max(rest);
        let taken_free_amount = match reserve_parameters.amount.exact_sub(amount_to_pay_for) {
            Some(taken) => taken,
            None => return None,
        };
        let leverage = match self.try_get_leverage(&reserve_parameters.exchange_account_id, &metadata.currency_pair) {
            Some(leverage) => leverage,
            None => return None,
        };
        match amount_to_pay_for.checked_mul(metadata.amount_multiplier) {
            Some(product) => match product.checked_div(leverage) {
                Some(cost) => Some((cost, taken_free_amount)),
                None => None,
            },
            None => None,
        }
    }

    /// What a reservation would take.
    pub fn get_currency_code_and_reservation_amount(&self, reserve_parameters: &ReserveParameters) -> (r: Option<
        BalanceReservationPreset,
    >)
        ensures
            r == self@.spec_preset(*reserve_parameters),
    {
        let metadata = &reserve_parameters.currency_pair_metadata;
        let reservation_currency_code = metadata.get_trade_code(reserve_parameters.order_side, BeforeAfter::Before);
        let amount_in_reservation_currency_code = match metadata.convert_amount_from_amount_currency_code(
            &reservation_currency_code,
            reserve_parameters.amount,
            reserve_parameters.price,
        ) {
            Some(amount) => amount,
            None => return None,
        };
        let (cost_in_amount_currency_code, taken_free_amount) = match self.calculate_reservation_cost(
            reserve_parameters,
        ) {
            Some(cost) => cost,
            None => return None,
        };
        let cost_in_reservation_currency_code = match metadata.convert_amount_from_amount_currency_code(
            &reservation_currency_code,
            cost_in_amount_currency_code,
            reserve_parameters.price,
        ) {
            Some(cost) => cost,
            None => return None,
        };
        Some(
            BalanceReservationPreset::new(
                reservation_currency_code,
                amount_in_reservation_currency_code,
                taken_free_amount,
                cost_in_reservation_currency_code,
                cost_in_amount_currency_code,
            ),
        )
    }

    /// Whether the limit of the market allows a reservation.
    pub fn can_reserve_with_limit(&self, reserve_parameters: &ReserveParameters) -> (r: bool)
        ensures
            r == self@.spec_can_reserve_with_limit(*reserve_parameters),
    {
        let metadata = &reserve_parameters.currency_pair_metadata;
        let reservation_currency_code = metadata.get_trade_code(reserve_parameters.order_side, BeforeAfter::Before);
        let request = make_request(
            &reserve_parameters.configuration_descriptor,
            &reserve_parameters.exchange_account_id,
            metadata,
            &reservation_currency_code,
        );
        let limit = match self.amount_limits_in_amount_currency.get_by_balance_request(&request) {
            Some(limit) => limit,
            None => return true,
        };
        let reserved_amount = match self.reserved_amount_in_amount_currency.get_by_balance_request(&request) {
            Some(reserved) => reserved,
            None => Decimal::zero(),
        };
        let new_reserved_amount = match reserved_amount.exact_add(reserve_parameters.amount) {
            Some(total) => total,
            None => return false,
        };
        let position = match self.position_by_fill_amount_in_amount_currency.get(
            &request.exchange_account_id,
            &request.currency_pair,
        ) {
            Some(position) => position,
            None => Decimal::zero(),
        };
        let potential_position = if reserve_parameters.order_side == OrderSide::Buy {
            position.exact_add(new_reserved_amount)
        } else {
            position.exact_sub(new_reserved_amount)
        };
        match potential_position {
            None => false,
            Some(potential_position) => {
                let potential_position_abs = potential_position.abs();
                if potential_position_abs.le(&limit) {
                    true
                } else {
                    potential_position_abs.lt(&position.abs())
                }
            },
        }
    }

    /// What a reservation would take, if it can be made.
    pub fn can_reserve_core(&self, reserve_parameters: &ReserveParameters) -> (r: Option<BalanceReservationPreset>)
        ensures
            r == self@.spec_can_reserve_core(*reserve_parameters),
    {
        let preset = match self.get_currency_code_and_reservation_amount(reserve_parameters) {
            Some(preset) => preset,
            None => return None,
        };
        let old_balance = self.get_available_balance(reserve_parameters, false);
        let new_balance = match old_balance.checked_sub(preset.cost_in_reservation_currency_code) {
            Some(balance) => balance,
            None => return None,
        };
        if !self.can_reserve_with_limit(reserve_parameters) {
            return None;
        }
        match reserve_parameters.currency_pair_metadata.round_to_remove_amount_precision_error(new_balance) {
            Some(rounded) => if rounded.is_negative() {
                None
            } else {
                Some(preset)
            },
            None => None,
        }
    }

    /// Whether a reservation can be made.
    pub fn can_reserve(&self, reserve_parameters: &ReserveParameters) -> (r: bool)
        ensures
            r == self@.spec_can_reserve_core(*reserve_parameters).is_some(),
    {
        self.can_reserve_core(reserve_parameters).is_some()
    }

    /// Makes a reservation, where it can be made. Returns whether it was
    /// made, and hands out its identifier (0 where it was not).
    pub fn try_reserve(&mut self, reserve_parameters: &ReserveParameters, reservation_id: &mut ReservationId) -> (r: bool)
        ensures
            final(self)@ == old(self)@.spec_try_reserve(*reserve_parameters).0,
            old(self)@.spec_try_reserve(*reserve_parameters).1 == if r {
                Some(*final(reservation_id))
            } else {
                None
            },
            !r ==> final(reservation_id).id == 0 && final(self)@ == old(self)@,
            r ==> final(reservation_id).id == old(self)@.reservation_id.id + 1 && final(self)@.reservation_id
                == *final(reservation_id),
            old(self).wf() ==> final(self).wf(),
    {
        *reservation_id = ReservationId::new(0);
        let preset = match self.can_reserve_core(reserve_parameters) {
            Some(preset) => preset,
            None => return false,
        };
        if self.reservation_id.id == u64::MAX {
            return false;
        }
        let id = ReservationId::new(self.reservation_id.id + 1);
        if self.balance_reservation_storage.position(id) < self.balance_reservation_storage.len() {
            return false;
        }
        let mut reservation = BalanceReservation::new(
            reserve_parameters.configuration_descriptor.clone(),
            reserve_parameters.exchange_account_id.clone(),
            reserve_parameters.currency_pair_metadata.clone(),
            reserve_parameters.order_side,
            reserve_parameters.price,
            reserve_parameters.amount,
            preset.taken_free_amount_in_amount_currency_code,
            preset.cost_in_amount_currency_code,
            preset.reservation_currency_code,
        );
        let request = request_of(&reservation);
        let plan = match self.plan_reserved_amount(&request, &reservation, reserve_parameters.amount, true) {
            Ok(plan) => plan,
            Err(_) => return false,
        };
        self.commit_plan(&plan);
        reservation.unreserved_amount = plan.unreserved_amount;
        self.reservation_id = id;
        self.balance_reservation_storage.add(id, reservation);
        *reservation_id = id;
        true
    }

    /// Makes all of the reservations or none. Returns whether they were
    /// made, and their identifiers in increasing order. The reservations
    /// are tried on a copy of the state, which takes the place of the state
    /// only where all of them were made.
    pub fn try_reserve_multiple(&mut self, reserve_parameters: &Vec<ReserveParameters>) -> (r: (bool, Vec<ReservationId>))
        ensures
            (final(self)@, r.0, r.1@) == old(self)@.spec_try_reserve_multiple(reserve_parameters@),
            !r.0 ==> final(self)@ == old(self)@ && r.1@.len() == 0,
            forall|i: int, j: int| 0 <= i < j < r.1@.len() ==> r.1@[i].id < r.1@[j].id,
            old(self).wf() ==> final(self).wf(),
    {
        let mut trial = self.clone();
        let mut ids: Vec<ReservationId> = Vec::new();
        let ghost mut made: Seq<Reserved> = Seq::empty();
        let mut i: usize = 0;
        while i < reserve_parameters.len()
            invariant
                i <= reserve_parameters@.len(),
                (trial@, made) == self@.spec_reserve_each(reserve_parameters@.take(i as int)),
                ids@ == Seq::new(made.len(), |a: int| made[a].0),
                made.len() <= i,
                forall|a: int, b: int| 0 <= a < b < made.len() ==> (#[trigger] made[a]).0.id < (#[trigger] made[b]).0.id,
                forall|a: int| 0 <= a < made.len() ==> (#[trigger] made[a]).0.id <= trial@.reservation_id.id,
                self.wf() ==> trial.wf(),
            decreases reserve_parameters@.len() - i,
        {
            proof {
                let next = reserve_parameters@.take(i + 1);
                assert(next.drop_last() == reserve_parameters@.take(i as int));
                assert(next.last() == reserve_parameters@[i as int]);
            }
            let mut reservation_id = ReservationId::new(0);
            if trial.try_reserve(&reserve_parameters[i], &mut reservation_id) {
                ids.push(reservation_id);
                proof {
                    let before = made;
                    made = made.push((reservation_id, reserve_parameters@[i as int].amount));
                    assert(ids@ =~= Seq::new(made.len(), |a: int| made[a].0));
                }
            }
            i = i + 1;
        }
        proof {
            assert(reserve_parameters@.take(i as int) == reserve_parameters@);
        }
        if ids.len() != reserve_parameters.len() {
            return (false, Vec::new());
        }
        *self = trial;
        (true, ids)
    }

    /// What a new price does to a reservation.
    pub fn price_change(&self, reservation: &BalanceReservation, new_price: Decimal) -> (r: Option<PriceChange>)
        ensures
            r == self@.spec_price_change(reservation@, new_price),
    {
        let metadata = &reservation.currency_pair_metadata;
        let approved_sum = match reservation.active_approved_sum() {
            Some(sum) => sum,
            None => return None,
        };
        let new_raw_rest_amount = match reservation.amount.exact_sub(approved_sum) {
            Some(rest) => rest,
            None => return None,
        };
        let new_rest_amount_in_reservation_currency = metadata.convert_amount_from_amount_currency_code(
            &reservation.reservation_currency_code,
            new_raw_rest_amount,
            new_price,
        );
        let not_approved_amount_in_reservation_currency = reservation.convert_in_reservation_currency(
            reservation.not_approved_amount,
        );
        let reservation_amount_diff_in_reservation_currency = match (
            new_rest_amount_in_reservation_currency,
            not_approved_amount_in_reservation_currency,
        ) {
            (Some(new_rest), Some(not_approved)) => match new_rest.checked_sub(not_approved) {
                Some(diff) => diff,
                None => return None,
            },
            _ => return None,
        };
        let old_balance = match self.try_get_available_balance(
            &reservation.configuration_descriptor,
            &reservation.exchange_account_id,
            metadata,
            reservation.order_side,
            new_price,
            true,
            false,
        ) {
            Some(balance) => balance,
            None => return None,
        };
        let new_balance = match old_balance.checked_sub(reservation_amount_diff_in_reservation_currency) {
            Some(balance) => balance,
            None => return None,
        };
        if new_balance.is_negative() {
            return None;
        }
        let diff = match metadata.convert_amount_into_amount_currency_code(
            &reservation.reservation_currency_code,
            reservation_amount_diff_in_reservation_currency,
            new_price,
        ) {
            Some(diff) => diff,
            None => return None,
        };
        match reservation.unreserved_amount.exact_sub(diff) {
            Some(lowered) => Some(PriceChange { diff, rest: new_raw_rest_amount, lowered }),
            None => None,
        }
    }

    /// Changes the price of a reservation, where the balance allows it.
    /// Returns whether the price was changed.
    pub fn try_update_reservation_price(&mut self, reservation_id: ReservationId, new_price: Decimal) -> (r: bool)
        ensures
            (final(self)@, r) == old(self)@.spec_try_update_reservation_price(reservation_id, new_price),
            old(self).wf() ==> final(self).wf(),
    {
        let i = self.balance_reservation_storage.position(reservation_id);
        if i >= self.balance_reservation_storage.len() {
            return false;
        }
        let reservation = self.balance_reservation_storage.at(i);
        let change = match self.price_change(reservation, new_price) {
            Some(change) => change,
            None => return false,
        };
        let balance_request = request_of(reservation);
        let mut repriced = reservation.clone();
        repriced.price = new_price;
        repriced.unreserved_amount = change.lowered;
        let plan = match self.plan_reserved_amount(&balance_request, &repriced, change.diff, true) {
            Ok(plan) => plan,
            Err(_) => return false,
        };
        self.commit_plan(&plan);
        repriced.unreserved_amount = plan.unreserved_amount;
        repriced.not_approved_amount = change.rest;
        self.balance_reservation_storage.replace(i, repriced);
        true
    }
}

} // verus!
