//! A reservation of balance for orders, and the parts of it that were
//! approved for orders placed on the exchange.
//!
//! A reservation holds the amount that is still reserved
//! (`unreserved_amount`), split into the amount that no order was approved
//! for (`not_approved_amount`) and the approved parts. The functions here
//! move amounts between these; what they do to a reservation is stated over
//! its view, in which the approved parts are a sequence of entries.

use crate::common::{BeforeAfter, ClientOrderId, ConfigurationDescriptor, CurrencyCode, DateTime, ExchangeAccountId, OrderSide};
use crate::currency_pair_metadata::CurrencyPairMetadata;
use crate::decimal::Decimal;
use crate::errors::BalanceError;
use crate::vec_map::{distinct, lemma_distinct_insert, lemma_distinct_remove, lemma_first_index, lookup, present, spec_insert, spec_remove, VecMap};
use vstd::prelude::*;

verus! {

/// The part of a reservation that was approved for one order.
#[derive(Debug)]
pub struct ApprovedPart {
    pub date_time: DateTime,
    pub client_order_id: ClientOrderId,
    /// The amount approved.
    pub amount: Decimal,
    /// What is left of it.
    pub unreserved_amount: Decimal,
    pub is_canceled: bool,
}

impl Clone for ApprovedPart {
    fn clone(&self) -> (r: Self)
        ensures
            r == *self,
    {
        ApprovedPart {
            date_time: self.date_time,
            client_order_id: self.client_order_id.clone(),
            amount: self.amount,
            unreserved_amount: self.unreserved_amount,
            is_canceled: self.is_canceled,
        }
    }
}

impl ApprovedPart {
    /// A part approved at `date_time` for the order `client_order_id`, with
    /// all of `amount` left and not canceled.
    pub open spec fn spec_new(date_time: DateTime, client_order_id: ClientOrderId, amount: Decimal) -> ApprovedPart {
        ApprovedPart { date_time, client_order_id, amount, unreserved_amount: amount, is_canceled: false }
    }

    /// A part approved at `date_time` for the order `client_order_id`, with
    /// all of `amount` left and not canceled.
    pub fn new(date_time: DateTime, client_order_id: ClientOrderId, amount: Decimal) -> (r: Self)
        ensures
            r == Self::spec_new(date_time, client_order_id, amount),
    {
        ApprovedPart { date_time, client_order_id, amount, unreserved_amount: amount, is_canceled: false }
    }
}

/// The approved parts of a reservation, by order, in the order of approval.
pub type ApprovedParts = Seq<(ClientOrderId, ApprovedPart)>;

/// What is left of the parts that were not canceled, summed in their order by
/// the arithmetic; `None` where a sum is not exact.
pub open spec fn spec_active_sum(parts: ApprovedParts) -> Option<Decimal>
    decreases parts.len(),
{
    if parts.len() == 0 {
        Some(Decimal::spec_zero())
    } else {
        match spec_active_sum(parts.drop_last()) {
            Some(sum) => if parts.last().1.is_canceled {
                Some(sum)
            } else {
                sum.spec_exact_add(parts.last().1.unreserved_amount)
            },
            None => None,
        }
    }
}

/// What is left of the parts that were not canceled, as a number.
pub open spec fn active_total(parts: ApprovedParts) -> int
    decreases parts.len(),
{
    if parts.len() == 0 {
        0
    } else {
        active_total(parts.drop_last()) + if parts.last().1.is_canceled {
            0
        } else {
            parts.last().1.unreserved_amount@
        }
    }
}

/// What is left of all parts, canceled or not, as a number.
pub open spec fn parts_total(parts: ApprovedParts) -> int
    decreases parts.len(),
{
    if parts.len() == 0 {
        0
    } else {
        parts_total(parts.drop_last()) + parts.last().1.unreserved_amount@
    }
}

/// Every part that was canceled holds nothing: what was left of it went
/// back to the not approved amount.
pub open spec fn canceled_hold_nothing(parts: ApprovedParts) -> bool {
    forall|i: int| 0 <= i < parts.len() && (#[trigger] parts[i]).1.is_canceled ==> parts[i].1.unreserved_amount@ == 0
}

/// Where the canceled parts hold nothing, the parts that were not canceled
/// hold all that the parts hold.
pub proof fn lemma_active_is_all(parts: ApprovedParts)
    requires
        canceled_hold_nothing(parts),
    ensures
        active_total(parts) == parts_total(parts),
    decreases parts.len(),
{
    if parts.len() > 0 {
        let rest = parts.drop_last();
        assert forall|i: int| 0 <= i < rest.len() && (#[trigger] rest[i]).1.is_canceled implies rest[i].1.unreserved_amount@
            == 0 by {
            assert(rest[i] == parts[i]);
        }
        lemma_active_is_all(rest);
        assert(parts.last() == parts[parts.len() - 1]);
    }
}

/// The sum that the arithmetic gives is the number that the parts add up to.
pub proof fn lemma_active_sum(parts: ApprovedParts)
    ensures
        spec_active_sum(parts) matches Some(sum) ==> sum@ == active_total(parts),
    decreases parts.len(),
{
    if parts.len() > 0 {
        lemma_active_sum(parts.drop_last());
        Decimal::lemma_constants(0);
    } else {
        Decimal::lemma_constants(0);
    }
}

/// A reservation.
#[derive(Debug)]
pub struct BalanceReservation {
    pub configuration_descriptor: ConfigurationDescriptor,
    pub exchange_account_id: ExchangeAccountId,
    pub currency_pair_metadata: CurrencyPairMetadata,
    pub order_side: OrderSide,
    pub price: Decimal,
    /// The amount asked for, in the amount currency.
    pub amount: Decimal,
    /// How much of a derivative's free position the reservation took.
    pub taken_free_amount: Decimal,
    /// What the reservation costs, in the amount currency.
    pub cost: Decimal,
    pub reservation_currency_code: CurrencyCode,
    /// What is still reserved.
    pub unreserved_amount: Decimal,
    /// What is still reserved and approved for no order.
    pub not_approved_amount: Decimal,
    pub approved_parts: VecMap<ClientOrderId, ApprovedPart>,
}

/// A reservation as contracts see it: the approved parts are a sequence.
pub struct ReservationView {
    pub configuration_descriptor: ConfigurationDescriptor,
    pub exchange_account_id: ExchangeAccountId,
    pub currency_pair_metadata: CurrencyPairMetadata,
    pub order_side: OrderSide,
    pub price: Decimal,
    pub amount: Decimal,
    pub taken_free_amount: Decimal,
    pub cost: Decimal,
    pub reservation_currency_code: CurrencyCode,
    pub unreserved_amount: Decimal,
    pub not_approved_amount: Decimal,
    pub approved_parts: ApprovedParts,
}

impl View for BalanceReservation {
    type V = ReservationView;

    open spec fn view(&self) -> ReservationView {
        ReservationView {
            configuration_descriptor: self.configuration_descriptor,
            exchange_account_id: self.exchange_account_id,
            currency_pair_metadata: self.currency_pair_metadata,
            order_side: self.order_side,
            price: self.price,
            amount: self.amount,
            taken_free_amount: self.taken_free_amount,
            cost: self.cost,
            reservation_currency_code: self.reservation_currency_code,
            unreserved_amount: self.unreserved_amount,
            not_approved_amount: self.not_approved_amount,
            approved_parts: self.approved_parts.entries@,
        }
    }
}

impl ReservationView {
    /// A fresh reservation: nothing reserved yet, the whole amount approved
    /// for no order, no approved parts.
    pub open spec fn spec_new(
        configuration_descriptor: ConfigurationDescriptor,
        exchange_account_id: ExchangeAccountId,
        currency_pair_metadata: CurrencyPairMetadata,
        order_side: OrderSide,
        price: Decimal,
        amount: Decimal,
        taken_free_amount: Decimal,
        cost: Decimal,
        reservation_currency_code: CurrencyCode,
    ) -> ReservationView {
        ReservationView {
            configuration_descriptor,
            exchange_account_id,
            currency_pair_metadata,
            order_side,
            price,
            amount,
            taken_free_amount,
            cost,
            reservation_currency_code,
            unreserved_amount: Decimal::spec_zero(),
            not_approved_amount: amount,
            approved_parts: Seq::empty(),
        }
    }

    /// Whether an amount is within the margin of zero of the reservation's
    /// market.
    pub open spec fn spec_within_margin(self, amount: Decimal) -> bool {
        self.currency_pair_metadata.spec_within_margin(amount)
    }

    /// The share of the cost that falls to `amount` out of the reservation's
    /// amount: `cost * amount / self.amount`, zero for nothing out of nothing.
    pub open spec fn spec_proportional_cost(self, amount: Decimal) -> Result<Decimal, BalanceError> {
        if self.amount@ == 0 {
            if amount@ != 0 {
                Err(BalanceError::ZeroProportion)
            } else {
                Ok(Decimal::spec_zero())
            }
        } else {
            match self.cost.spec_mul(amount) {
                Some(product) => match product.spec_div(self.amount) {
                    Some(share) => Ok(share),
                    None => Err(BalanceError::Arithmetic),
                },
                None => Err(BalanceError::Arithmetic),
            }
        }
    }

    /// An amount in the amount currency, expressed in the reservation's
    /// currency at the reservation's price.
    pub open spec fn spec_in_reservation_currency(self, amount: Decimal) -> Option<Decimal> {
        self.currency_pair_metadata.spec_from_amount_currency(self.reservation_currency_code@, amount, self.price)
    }

    /// The not approved amount and what is left of the parts add up to what
    /// is still reserved.
    pub open spec fn balanced(self) -> bool {
        self.not_approved_amount@ + parts_total(self.approved_parts) == self.unreserved_amount@
    }

    /// Takes `amount` out of the not approved amount or, where an order is
    /// named that has an approved part, out of that part.
    ///
    /// Without an order the not approved amount may fall below zero; that is
    /// an error only where, with `amount` gone, more than the margin of the
    /// market would remain reserved: then the order has to be named. With an
    /// order a part cannot fall below zero. The reservation is left as it
    /// was where the arithmetic fails or a part would fall below zero.
    pub open spec fn spec_unreserve_part(self, client_order_id: Option<ClientOrderId>, amount: Decimal) -> (
        ReservationView,
        Result<(), BalanceError>,
    ) {
        match client_order_id {
            None => match self.not_approved_amount.spec_exact_sub(amount) {
                None => (self, Err(BalanceError::Arithmetic)),
                Some(rest) => {
                    let next = ReservationView { not_approved_amount: rest, ..self };
                    if rest@ < 0 && self.unreserved_amount@ - amount@ > self.currency_pair_metadata.spec_amount_tick()@ {
                        (next, Err(BalanceError::ClientOrderIdRequired))
                    } else {
                        (next, Ok(()))
                    }
                },
            },
            Some(id) => match lookup(self.approved_parts, id@) {
                None => match self.not_approved_amount.spec_exact_sub(amount) {
                    None => (self, Err(BalanceError::Arithmetic)),
                    Some(rest) => (ReservationView { not_approved_amount: rest, ..self }, Ok(())),
                },
                Some(part) => match part.unreserved_amount.spec_exact_sub(amount) {
                    None => (self, Err(BalanceError::Arithmetic)),
                    Some(rest) => if rest@ < 0 {
                        (self, Err(BalanceError::NegativeApprovedResidual))
                    } else {
                        (
                            ReservationView {
                                approved_parts: spec_insert(
                                    self.approved_parts,
                                    id,
                                    ApprovedPart { unreserved_amount: rest, ..part },
                                ),
                                ..self
                            },
                            Ok(()),
                        )
                    },
                },
            },
        }
    }

    /// Approves `amount` for an order: takes it out of the not approved
    /// amount and records a part for the order.
    ///
    /// An order that has a part already is an error, and nothing changes.
    /// The amount is taken before the test: where it leaves the not approved
    /// amount below zero by more than the margin, the approval fails with
    /// the amount taken.
    pub open spec fn spec_approve(self, client_order_id: ClientOrderId, amount: Decimal, now: DateTime) -> (
        ReservationView,
        Result<(), BalanceError>,
    ) {
        if present(self.approved_parts, client_order_id@) {
            (self, Err(BalanceError::DoubleApproval))
        } else {
            match self.not_approved_amount.spec_exact_sub(amount) {
                None => (self, Err(BalanceError::Arithmetic)),
                Some(rest) => if rest@ < 0 && !self.spec_within_margin(rest) {
                    (ReservationView { not_approved_amount: rest, ..self }, Err(BalanceError::NegativeNotApproved))
                } else {
                    (
                        ReservationView {
                            not_approved_amount: rest,
                            approved_parts: self.approved_parts.push(
                                (client_order_id, ApprovedPart::spec_new(now, client_order_id, amount)),
                            ),
                            ..self
                        },
                        Ok(()),
                    )
                },
            }
        }
    }

    /// Cancels the part approved for an order: what is left of it is moved
    /// back to the not approved amount, so that the part holds nothing, and
    /// the part is marked.
    ///
    /// An order without a part changes nothing; a part canceled before is an
    /// error.
    pub open spec fn spec_cancel(self, client_order_id: ClientOrderId) -> (ReservationView, Result<(), BalanceError>) {
        match lookup(self.approved_parts, client_order_id@) {
            None => (self, Ok(())),
            Some(part) => if part.is_canceled {
                (self, Err(BalanceError::AlreadyCanceled))
            } else {
                match self.not_approved_amount.spec_exact_add(part.unreserved_amount) {
                    None => (self, Err(BalanceError::Arithmetic)),
                    Some(total) => (
                        ReservationView {
                            not_approved_amount: total,
                            approved_parts: spec_insert(
                                self.approved_parts,
                                client_order_id,
                                ApprovedPart { is_canceled: true, unreserved_amount: Decimal::spec_zero(), ..part },
                            ),
                            ..self
                        },
                        Ok(()),
                    ),
                }
            },
        }
    }

    /// Moves `diff` into the reservation for a transfer: into the not
    /// approved amount, or into the part of the order that is named.
    ///
    /// A part that is left within the margin of zero is dropped; one that
    /// would fall below zero is an error. An order without a part gets one
    /// at the target of a transfer and is an error at its source.
    pub open spec fn spec_move_amount(
        self,
        client_order_id: Option<ClientOrderId>,
        diff: Decimal,
        is_src: bool,
        now: DateTime,
    ) -> (ReservationView, Result<(), BalanceError>) {
        match client_order_id {
            Some(id) => match lookup(self.approved_parts, id@) {
                Some(part) => match part.unreserved_amount.spec_exact_add(diff) {
                    None => (self, Err(BalanceError::Arithmetic)),
                    Some(left) => if self.spec_within_margin(left) {
                        (ReservationView { approved_parts: spec_remove(self.approved_parts, id@), ..self }, Ok(()))
                    } else if left@ < 0 {
                        (self, Err(BalanceError::NegativeApprovedResidual))
                    } else {
                        match part.amount.spec_exact_add(diff) {
                            None => (self, Err(BalanceError::Arithmetic)),
                            Some(total) => (
                                ReservationView {
                                    approved_parts: spec_insert(
                                        self.approved_parts,
                                        id,
                                        ApprovedPart { unreserved_amount: left, amount: total, ..part },
                                    ),
                                    ..self
                                },
                                Ok(()),
                            ),
                        }
                    },
                },
                None => if is_src {
                    (self, Err(BalanceError::ApprovedPartNotFound))
                } else {
                    (
                        ReservationView {
                            approved_parts: self.approved_parts.push((id, ApprovedPart::spec_new(now, id, diff))),
                            ..self
                        },
                        Ok(()),
                    )
                },
            },
            None => match self.not_approved_amount.spec_exact_add(diff) {
                None => (self, Err(BalanceError::Arithmetic)),
                Some(total) => (ReservationView { not_approved_amount: total, ..self }, Ok(())),
            },
        }
    }
}

impl Clone for BalanceReservation {
    fn clone(&self) -> (r: Self)
        ensures
            r@ == self@,
    {
        let mut parts: VecMap<ClientOrderId, ApprovedPart> = VecMap::new();
        let mut i: usize = 0;
        while i < self.approved_parts.entries.len()
            invariant
                i <= self.approved_parts.entries@.len(),
                parts.entries@ == self.approved_parts.entries@.take(i as int),
            decreases self.approved_parts.entries@.len() - i,
        {
            let key = self.approved_parts.entries[i].0.clone();
            let part = self.approved_parts.entries[i].1.clone();
            parts.entries.push((key, part));
            proof {
                assert(self.approved_parts.entries@.take(i + 1) == self.approved_parts.entries@.take(i as int).push(
                    self.approved_parts.entries@[i as int],
                ));
            }
            i = i + 1;
        }
        proof {
            assert(self.approved_parts.entries@.take(i as int) == self.approved_parts.entries@);
        }
        BalanceReservation {
            configuration_descriptor: self.configuration_descriptor.clone(),
            exchange_account_id: self.exchange_account_id.clone(),
            currency_pair_metadata: self.currency_pair_metadata.clone(),
            order_side: self.order_side,
            price: self.price,
            amount: self.amount,
            taken_free_amount: self.taken_free_amount,
            cost: self.cost,
            reservation_currency_code: self.reservation_currency_code.clone(),
            unreserved_amount: self.unreserved_amount,
            not_approved_amount: self.not_approved_amount,
            approved_parts: parts,
        }
    }
}

/// Whether the currency of a reservation is the one that its side pays
/// with, as it is for every reservation that the manager makes.
pub open spec fn pays_with_side_currency(reservation: ReservationView) -> bool {
    reservation.reservation_currency_code@ == reservation.currency_pair_metadata.spec_trade_code(
        reservation.order_side,
        BeforeAfter::Before,
    )@
}

/// Whatever is done to a reservation, no order gets two approved parts:
/// taking an amount out for `named`, approving or canceling for `order`,
/// and moving an amount in for `named`.
pub proof fn lemma_parts_stay_distinct(
    reservation: ReservationView,
    named: Option<ClientOrderId>,
    order: Option<ClientOrderId>,
    amount: Decimal,
    is_src: bool,
    now: DateTime,
)
    requires
        distinct(reservation.approved_parts),
    ensures
        distinct(reservation.spec_unreserve_part(named, amount).0.approved_parts),
        distinct(reservation.spec_move_amount(named, amount, is_src, now).0.approved_parts),
        order matches Some(id) ==> distinct(reservation.spec_approve(id, amount, now).0.approved_parts) && distinct(
            reservation.spec_cancel(id).0.approved_parts,
        ),
{
    let parts = reservation.approved_parts;
    match named {
        Some(id) => {
            match lookup(parts, id@) {
                Some(part) => {
                    lemma_distinct_remove(parts, id@);
                    match part.unreserved_amount.spec_exact_sub(amount) {
                        Some(rest) => lemma_distinct_insert(parts, id, ApprovedPart { unreserved_amount: rest, ..part }),
                        None => {},
                    }
                    match (part.unreserved_amount.spec_exact_add(amount), part.amount.spec_exact_add(amount)) {
                        (Some(left), Some(total)) => lemma_distinct_insert(
                            parts,
                            id,
                            ApprovedPart { unreserved_amount: left, amount: total, ..part },
                        ),
                        _ => {},
                    }
                },
                None => {
                    lemma_distinct_insert(parts, id, ApprovedPart::spec_new(now, id, amount));
                },
            }
        },
        None => {},
    }
    match order {
        Some(id) => {
            match lookup(parts, id@) {
                Some(part) => lemma_distinct_insert(
                    parts,
                    id,
                    ApprovedPart { is_canceled: true, unreserved_amount: Decimal::spec_zero(), ..part },
                ),
                None => lemma_distinct_insert(parts, id, ApprovedPart::spec_new(now, id, amount)),
            }
        },
        None => {},
    }
}

impl BalanceReservation {
    /// No order has two approved parts, and the reservation is in the
    /// currency that its side pays with.
    pub open spec fn wf(&self) -> bool {
        distinct(self@.approved_parts) && pays_with_side_currency(self@)
    }

    /// A fresh reservation: nothing reserved yet, the whole amount approved
    /// for no order, no approved parts.
    pub fn new(
        configuration_descriptor: ConfigurationDescriptor,
        exchange_account_id: ExchangeAccountId,
        currency_pair_metadata: CurrencyPairMetadata,
        order_side: OrderSide,
        price: Decimal,
        amount: Decimal,
        taken_free_amount: Decimal,
        cost: Decimal,
        reservation_currency_code: CurrencyCode,
    ) -> (r: Self)
        ensures
            r@ == ReservationView::spec_new(
                configuration_descriptor,
                exchange_account_id,
                currency_pair_metadata,
                order_side,
                price,
                amount,
                taken_free_amount,
                cost,
                reservation_currency_code,
            ),
            reservation_currency_code@ == currency_pair_metadata.spec_trade_code(order_side, BeforeAfter::Before)@
                ==> r.wf(),
    {
        BalanceReservation {
            configuration_descriptor,
            exchange_account_id,
            currency_pair_metadata,
            order_side,
            price,
            amount,
            taken_free_amount,
            cost,
            reservation_currency_code,
            unreserved_amount: Decimal::zero(),
            not_approved_amount: amount,
            approved_parts: VecMap::new(),
        }
    }

    /// Whether an amount is within the margin of zero of the reservation's
    /// market.
    pub fn is_amount_within_symbol_margin_error(&self, amount: Decimal) -> (r: bool)
        ensures
            r == self@.spec_within_margin(amount),
    {
        self.currency_pair_metadata.is_amount_within_symbol_margin_error(amount)
    }

    /// The share of the cost that falls to `amount` out of the reservation's
    /// amount.
    pub fn get_proportional_cost_amount(&self, amount: Decimal) -> (r: Result<Decimal, BalanceError>)
        ensures
            r == self@.spec_proportional_cost(amount),
    {
        if self.amount.is_zero() {
            if !amount.is_zero() {
                Err(BalanceError::ZeroProportion)
            } else {
                Ok(Decimal::zero())
            }
        } else {
            match self.cost.checked_mul(amount) {
                Some(product) => match product.checked_div(self.amount) {
                    Some(share) => Ok(share),
                    None => Err(BalanceError::Arithmetic),
                },
                None => Err(BalanceError::Arithmetic),
            }
        }
    }

    /// Converts an amount in the amount currency to the reservation's
    /// currency at the reservation's price.
    pub fn convert_in_reservation_currency(&self, amount: Decimal) -> (r: Option<Decimal>)
        ensures
            r == self@.spec_in_reservation_currency(amount),
    {
        self.currency_pair_metadata.convert_amount_from_amount_currency_code(
            &self.reservation_currency_code,
            amount,
            self.price,
        )
    }

    /// What is left of the parts that were not canceled.
    pub fn active_approved_sum(&self) -> (r: Option<Decimal>)
        ensures
            r == spec_active_sum(self@.approved_parts),
    {
        let mut sum = Decimal::zero();
        let mut i: usize = 0;
        while i < self.approved_parts.entries.len()
            invariant
                i <= self.approved_parts.entries@.len(),
                Some(sum) == spec_active_sum(self.approved_parts.entries@.take(i as int)),
            decreases self.approved_parts.entries@.len() - i,
        {
            proof {
                let next = self.approved_parts.entries@.take(i + 1);
                assert(next.drop_last() == self.approved_parts.entries@.take(i as int));
                assert(next.last() == self.approved_parts.entries@[i as int]);
            }
            if !self.approved_parts.entries[i].1.is_canceled {
                match sum.exact_add(self.approved_parts.entries[i].1.unreserved_amount) {
                    Some(total) => {
                        sum = total;
                    },
                    None => {
                        proof {
                            lemma_active_sum_fails(self.approved_parts.entries@, i + 1);
                        }
                        return None;
                    },
                }
            }
            i = i + 1;
        }
        proof {
            assert(self.approved_parts.entries@.take(i as int) == self.approved_parts.entries@);
        }
        Some(sum)
    }

    /// Takes `amount` out of the not approved amount or, where an order is
    /// named that has an approved part, out of that part.
    pub fn unreserve_not_approved_part(&mut self, client_order_id: &Option<ClientOrderId>, amount: Decimal) -> (r:
        Result<(), BalanceError>)
        ensures
            (final(self)@, r) == old(self)@.spec_unreserve_part(*client_order_id, amount),
            old(self).wf() ==> final(self).wf(),
    {
        proof {
            if old(self).wf() {
                lemma_parts_stay_distinct(old(self)@, *client_order_id, None, amount, false, 0);
            }
        }
        match client_order_id {
            None => match self.not_approved_amount.exact_sub(amount) {
                None => Err(BalanceError::Arithmetic),
                Some(rest) => {
                    self.not_approved_amount = rest;
                    if rest.is_negative() && self.unreserved_amount.exceeds_by(
                        &amount,
                        &self.currency_pair_metadata.get_amount_tick(),
                    ) {
                        Err(BalanceError::ClientOrderIdRequired)
                    } else {
                        Ok(())
                    }
                },
            },
            Some(id) => {
                let i = self.approved_parts.position(id);
                proof {
                    lemma_first_index(self.approved_parts.entries@, id@);
                }
                if i >= self.approved_parts.entries.len() {
                    match self.not_approved_amount.exact_sub(amount) {
                        None => Err(BalanceError::Arithmetic),
                        Some(rest) => {
                            self.not_approved_amount = rest;
                            Ok(())
                        },
                    }
                } else {
                    match self.approved_parts.entries[i].1.unreserved_amount.exact_sub(amount) {
                        None => Err(BalanceError::Arithmetic),
                        Some(rest) => if rest.is_negative() {
                            Err(BalanceError::NegativeApprovedResidual)
                        } else {
                            self.approved_parts.entries[i].1.unreserved_amount = rest;
                            Ok(())
                        },
                    }
                }
            },
        }
    }

    /// Approves `amount` for an order: takes it out of the not approved
    /// amount and records a part for the order.
    pub fn approve(&mut self, client_order_id: &ClientOrderId, amount: Decimal, now: DateTime) -> (r: Result<
        (),
        BalanceError,
    >)
        ensures
            (final(self)@, r) == old(self)@.spec_approve(*client_order_id, amount, now),
            old(self).wf() ==> final(self).wf(),
    {
        proof {
            if old(self).wf() {
                lemma_parts_stay_distinct(old(self)@, None, Some(*client_order_id), amount, false, now);
            }
        }
        if self.approved_parts.contains_key(client_order_id) {
            return Err(BalanceError::DoubleApproval);
        }
        match self.not_approved_amount.exact_sub(amount) {
            None => Err(BalanceError::Arithmetic),
            Some(rest) => {
                self.not_approved_amount = rest;
                if rest.is_negative() && !self.currency_pair_metadata.is_amount_within_symbol_margin_error(rest) {
                    Err(BalanceError::NegativeNotApproved)
                } else {
                    let part = ApprovedPart::new(now, client_order_id.clone(), amount);
                    self.approved_parts.entries.push((client_order_id.clone(), part));
                    Ok(())
                }
            },
        }
    }

    /// Cancels the part approved for an order: what is left of it is moved
    /// back to the not approved amount, and the part is marked.
    pub fn cancel_approved(&mut self, client_order_id: &ClientOrderId) -> (r: Result<(), BalanceError>)
        ensures
            (final(self)@, r) == old(self)@.spec_cancel(*client_order_id),
            old(self).wf() ==> final(self).wf(),
    {
        proof {
            if old(self).wf() {
                lemma_parts_stay_distinct(old(self)@, None, Some(*client_order_id), Decimal::spec_zero(), false, 0);
            }
        }
        let i = self.approved_parts.position(client_order_id);
        proof {
            lemma_first_index(self.approved_parts.entries@, client_order_id@);
        }
        if i >= self.approved_parts.entries.len() {
            return Ok(());
        }
        if self.approved_parts.entries[i].1.is_canceled {
            return Err(BalanceError::AlreadyCanceled);
        }
        match self.not_approved_amount.exact_add(self.approved_parts.entries[i].1.unreserved_amount) {
            None => Err(BalanceError::Arithmetic),
            Some(total) => {
                self.not_approved_amount = total;
                self.approved_parts.entries[i].1.is_canceled = true;
                self.approved_parts.entries[i].1.unreserved_amount = Decimal::zero();
                proof {
                    let before = old(self).approved_parts.entries@;
                    let part = before[i as int].1;
                    assert(self.approved_parts.entries@ =~= before.update(
                        i as int,
                        (
                            before[i as int].0,
                            ApprovedPart { is_canceled: true, unreserved_amount: Decimal::spec_zero(), ..part },
                        ),
                    ));
                }
                Ok(())
            },
        }
    }

    /// Moves `diff` into the reservation for a transfer: into the not
    /// approved amount, or into the part of the order that is named.
    pub fn move_amount(&mut self, client_order_id: &Option<ClientOrderId>, diff: Decimal, is_src: bool, now: DateTime) -> (r:
        Result<(), BalanceError>)
        ensures
            (final(self)@, r) == old(self)@.spec_move_amount(*client_order_id, diff, is_src, now),
            old(self).wf() ==> final(self).wf(),
    {
        proof {
            if old(self).wf() {
                lemma_parts_stay_distinct(old(self)@, *client_order_id, None, diff, is_src, now);
            }
        }
        match client_order_id {
            Some(id) => {
                let i = self.approved_parts.position(id);
                proof {
                    lemma_first_index(self.approved_parts.entries@, id@);
                }
                if i < self.approved_parts.entries.len() {
                    match self.approved_parts.entries[i].1.unreserved_amount.exact_add(diff) {
                        None => Err(BalanceError::Arithmetic),
                        Some(left) => if self.currency_pair_metadata.is_amount_within_symbol_margin_error(left) {
                            let _ = self.approved_parts.entries.remove(i);
                            Ok(())
                        } else if left.is_negative() {
                            Err(BalanceError::NegativeApprovedResidual)
                        } else {
                            match self.approved_parts.entries[i].1.amount.exact_add(diff) {
                                None => Err(BalanceError::Arithmetic),
                                Some(total) => {
                                    self.approved_parts.entries[i].1.unreserved_amount = left;
                                    self.approved_parts.entries[i].1.amount = total;
                                    proof {
                                        let before = old(self).approved_parts.entries@;
                                        let part = before[i as int].1;
                                        assert(self.approved_parts.entries@ =~= before.update(
                                            i as int,
                                            (
                                                before[i as int].0,
                                                ApprovedPart { unreserved_amount: left, amount: total, ..part },
                                            ),
                                        ));
                                    }
                                    Ok(())
                                },
                            }
                        },
                    }
                } else if is_src {
                    Err(BalanceError::ApprovedPartNotFound)
                } else {
                    let part = ApprovedPart::new(now, id.clone(), diff);
                    self.approved_parts.entries.push((id.clone(), part));
                    Ok(())
                }
            },
            None => match self.not_approved_amount.exact_add(diff) {
                None => Err(BalanceError::Arithmetic),
                Some(total) => {
                    self.not_approved_amount = total;
                    Ok(())
                },
            },
        }
    }
}

/// Where the sum of the first entries fails, the sum of all of them fails.
proof fn lemma_active_sum_fails(parts: ApprovedParts, n: int)
    requires
        0 <= n <= parts.len(),
        spec_active_sum(parts.take(n)) is None,
    ensures
        spec_active_sum(parts) is None,
    decreases parts.len() - n,
{
    if n < parts.len() {
        let next = parts.take(n + 1);
        assert(next.drop_last() == parts.take(n));
        lemma_active_sum_fails(parts, n + 1);
    } else {
        assert(parts.take(n) == parts);
    }
}

} // verus!
