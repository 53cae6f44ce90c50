//! How the manager moves an amount into or out of what is reserved: the
//! virtual balance pays the cost, the reservation and the tree of reserved
//! amounts take the amount.
//!
//! A change is planned first and written only when every step of its
//! arithmetic has succeeded, so that a failure leaves the manager as it was.

use crate::balance_reservation::{BalanceReservation, ReservationView};
use crate::balance_reservation_manager::{spec_request, BalanceReservationManager, ManagerView};
use crate::balance_reservation_storage::{BalanceReservationStorage, Reservations};
use crate::common::{BalanceRequest, BeforeAfter, ReservationId};
use crate::currency_pair_metadata::CurrencyPairMetadata;
use crate::decimal::Decimal;
use crate::errors::BalanceError;
use crate::service_value_tree::{spec_tree_exact_add, spec_tree_exact_sum, spec_tree_sum, ServiceValueTree, TreeEntries};
use crate::vec_map::{lookup, spec_insert};
use crate::virtual_balance_holder::{with_code, HolderView};
use vstd::prelude::*;

verus! {

/// What a change of a reserved amount will write.
#[derive(Debug)]
pub struct ReservedPlan {
    /// The difference of virtual balance to record, with its request.
    pub balance: Option<(BalanceRequest, Decimal)>,
    /// What the reservation will have reserved.
    pub unreserved_amount: Decimal,
    /// The request under which the tree of reserved amounts changes.
    pub reserved_request: BalanceRequest,
    /// What the tree will hold under that request.
    pub reserved_total: Decimal,
}

/// The tree of what is reserved under each request, recomputed from the
/// reservations in their order: each adds what it has reserved under the
/// request for the currency that its side pays with. `None` where a sum is
/// not exact.
pub open spec fn spec_reserved_tree(reservations: Reservations) -> Option<TreeEntries>
    decreases reservations.len(),
{
    if reservations.len() == 0 {
        Some(Seq::empty())
    } else {
        match spec_reserved_tree(reservations.drop_last()) {
            Some(tree) => {
                let reservation = reservations.last().1;
                spec_tree_exact_add(
                    tree,
                    spec_request(
                        reservation.configuration_descriptor,
                        reservation.exchange_account_id,
                        reservation.currency_pair_metadata,
                        reservation.currency_pair_metadata.spec_trade_code(reservation.order_side, BeforeAfter::Before),
                    ),
                    reservation.unreserved_amount,
                )
            },
            None => None,
        }
    }
}

/// Where the tree of the first reservations cannot be computed, the tree of
/// all of them cannot.
proof fn lemma_reserved_tree_fails(reservations: Reservations, n: int)
    requires
        0 <= n <= reservations.len(),
        spec_reserved_tree(reservations.take(n)) is None,
    ensures
        spec_reserved_tree(reservations) is None,
    decreases reservations.len() - n,
{
    if n < reservations.len() {
        let next = reservations.take(n + 1);
        assert(next.drop_last() == reservations.take(n));
        lemma_reserved_tree_fails(reservations, n + 1);
    } else {
        assert(reservations.take(n) == reservations);
    }
}

impl ManagerView {
    /// The state with a reservation put under an identifier.
    pub open spec fn spec_with_reservation(self, reservation_id: ReservationId, reservation: ReservationView) -> ManagerView {
        ManagerView { reservations: spec_insert(self.reservations, reservation_id, reservation), ..self }
    }

    /// The difference of virtual balance that an amount in the amount
    /// currency makes, with the request under which it is recorded.
    ///
    /// On a spot market the amount is converted to the request's currency
    /// and recorded under the request. On a derivative market it is
    /// converted to the balance currency and recorded under the request for
    /// that currency; a derivative without one is an error.
    pub open spec fn spec_plan_virtual_balance(
        self,
        request: BalanceRequest,
        currency_pair_metadata: CurrencyPairMetadata,
        diff_in_amount_currency: Decimal,
        price: Decimal,
    ) -> Result<(BalanceRequest, Decimal), BalanceError> {
        let target = if !currency_pair_metadata.is_derivative {
            Some(request.currency_code)
        } else {
            currency_pair_metadata.balance_currency_code
        };
        match target {
            None => Err(BalanceError::MissingBalanceCurrency),
            Some(code) => match currency_pair_metadata.spec_from_amount_currency(
                code@,
                diff_in_amount_currency,
                price,
            ) {
                None => Err(BalanceError::Arithmetic),
                Some(diff) => match spec_tree_sum(self.holder.diffs, with_code(request, code), diff) {
                    None => Err(BalanceError::Arithmetic),
                    Some(total) => Ok((with_code(request, code), total)),
                },
            },
        }
    }

    /// The state with a difference of virtual balance recorded.
    pub open spec fn spec_set_balance(self, entry: (BalanceRequest, Decimal)) -> ManagerView {
        ManagerView {
            holder: HolderView { diffs: spec_insert(self.holder.diffs, entry.0, entry.1), ..self.holder },
            ..self
        }
    }

    /// Adds an amount in the amount currency to the virtual balance. The
    /// state is unchanged where the result is an error.
    pub open spec fn spec_add_virtual_balance(
        self,
        request: BalanceRequest,
        currency_pair_metadata: CurrencyPairMetadata,
        diff_in_amount_currency: Decimal,
        price: Decimal,
    ) -> (ManagerView, Result<(), BalanceError>) {
        match self.spec_plan_virtual_balance(request, currency_pair_metadata, diff_in_amount_currency, price) {
            Ok(entry) => (self.spec_set_balance(entry), Ok(())),
            Err(e) => (self, Err(e)),
        }
    }

    /// What adding `diff` to what a reservation has reserved will write.
    ///
    /// Where the balance is to be updated, the virtual balance loses the
    /// share of the reservation's cost that falls to `diff`. The reservation
    /// gains `diff`, and so does the tree of reserved amounts, under the
    /// request for the reservation's currency.
    pub open spec fn spec_plan_reserved(
        self,
        request: BalanceRequest,
        reservation: ReservationView,
        diff: Decimal,
        update_balance: bool,
    ) -> Result<ReservedPlan, BalanceError> {
        let balance = if update_balance {
            match reservation.spec_proportional_cost(diff) {
                Err(e) => Err(e),
                Ok(cost) => match self.spec_plan_virtual_balance(
                    request,
                    reservation.currency_pair_metadata,
                    cost.spec_neg(),
                    reservation.price,
                ) {
                    Err(e) => Err(e),
                    Ok(entry) => Ok(Some(entry)),
                },
            }
        } else {
            Ok(None)
        };
        match balance {
            Err(e) => Err(e),
            Ok(balance) => match reservation.unreserved_amount.spec_exact_add(diff) {
                None => Err(BalanceError::Arithmetic),
                Some(unreserved_amount) => {
                    let reserved_request = with_code(request, reservation.reservation_currency_code);
                    match spec_tree_exact_sum(self.reserved, reserved_request, diff) {
                        None => Err(BalanceError::Arithmetic),
                        Some(reserved_total) => Ok(
                            ReservedPlan { balance, unreserved_amount, reserved_request, reserved_total },
                        ),
                    }
                },
            },
        }
    }

    /// The state with what a plan says written to the virtual balance and
    /// the tree of reserved amounts.
    pub open spec fn spec_commit(self, plan: ReservedPlan) -> ManagerView {
        let with_balance = match plan.balance {
            Some(entry) => self.spec_set_balance(entry),
            None => self,
        };
        ManagerView {
            reserved: spec_insert(with_balance.reserved, plan.reserved_request, plan.reserved_total),
            ..with_balance
        }
    }

    /// Adds `diff` to what a reservation outside the store has reserved.
    /// State and reservation are unchanged where the result is an error.
    pub open spec fn spec_add_reserved_amount_by_reservation(
        self,
        request: BalanceRequest,
        reservation: ReservationView,
        diff: Decimal,
        update_balance: bool,
    ) -> (ManagerView, ReservationView, Result<(), BalanceError>) {
        match self.spec_plan_reserved(request, reservation, diff, update_balance) {
            Err(e) => (self, reservation, Err(e)),
            Ok(plan) => (
                self.spec_commit(plan),
                ReservationView { unreserved_amount: plan.unreserved_amount, ..reservation },
                Ok(()),
            ),
        }
    }

    /// Adds `diff` to what the reservation with the identifier has reserved.
    /// The state is unchanged where the result is an error.
    pub open spec fn spec_add_reserved_amount(
        self,
        request: BalanceRequest,
        reservation_id: ReservationId,
        diff: Decimal,
        update_balance: bool,
    ) -> (ManagerView, Result<(), BalanceError>) {
        match lookup(self.reservations, reservation_id.id) {
            None => (self, Err(BalanceError::UnknownReservation)),
            Some(reservation) => match self.spec_plan_reserved(request, reservation, diff, update_balance) {
                Err(e) => (self, Err(e)),
                Ok(plan) => (
                    self.spec_commit(plan).spec_with_reservation(
                        reservation_id,
                        ReservationView { unreserved_amount: plan.unreserved_amount, ..reservation },
                    ),
                    Ok(()),
                ),
            },
        }
    }

    /// Replaces all reservations by those of a snapshot, with the tree of
    /// reserved amounts recomputed from them; the identifier handed out last
    /// is raised to the largest one among them. The state is unchanged
    /// where the result is an error: it is one where a sum of the tree is
    /// not exact.
    pub open spec fn spec_update_reserved_balances(self, reservations: Reservations) -> (
        ManagerView,
        Result<(), BalanceError>,
    ) {
        match spec_reserved_tree(reservations) {
            Some(reserved) => (
                ManagerView {
                    reservations,
                    reserved,
                    reservation_id: spec_largest_id(reservations, self.reservation_id),
                    ..self
                },
                Ok(()),
            ),
            None => (self, Err(BalanceError::Arithmetic)),
        }
    }

    /// Recomputes the tree of reserved amounts from the reservations. The
    /// state is unchanged where the result is an error.
    pub open spec fn spec_sync_reservation_amounts(self) -> (ManagerView, Result<(), BalanceError>) {
        match spec_reserved_tree(self.reservations) {
            Some(reserved) => (ManagerView { reserved, ..self }, Ok(())),
            None => (self, Err(BalanceError::Arithmetic)),
        }
    }
}

impl BalanceReservationManager {
    /// The difference of virtual balance that an amount in the amount
    /// currency makes, with the request under which it is recorded.
    pub fn plan_virtual_balance(
        &self,
        request: &BalanceRequest,
        currency_pair_metadata: &CurrencyPairMetadata,
        diff_in_amount_currency: Decimal,
        price: Decimal,
    ) -> (r: Result<(BalanceRequest, Decimal), BalanceError>)
        ensures
            r == self@.spec_plan_virtual_balance(*request, *currency_pair_metadata, diff_in_amount_currency, price),
    {
        let code = if !currency_pair_metadata.is_derivative {
            request.currency_code.clone()
        } else {
            match &currency_pair_metadata.balance_currency_code {
                Some(code) => code.clone(),
                None => return Err(BalanceError::MissingBalanceCurrency),
            }
        };
        let diff = match currency_pair_metadata.convert_amount_from_amount_currency_code(
            &code,
            diff_in_amount_currency,
            price,
        ) {
            Some(diff) => diff,
            None => return Err(BalanceError::Arithmetic),
        };
        let target = BalanceRequest::new(
            request.configuration_descriptor.clone(),
            request.exchange_account_id.clone(),
            request.currency_pair.clone(),
            code,
        );
        match self.virtual_balance_holder.balance_diff.planned_sum(&target, diff) {
            Some(total) => Ok((target, total)),
            None => Err(BalanceError::Arithmetic),
        }
    }

    /// Adds an amount in the amount currency to the virtual balance of the
    /// request's currency or, on a derivative market, of the balance
    /// currency.
    pub fn add_virtual_balance_by_currency_pair_metadata(
        &mut self,
        request: &BalanceRequest,
        currency_pair_metadata: &CurrencyPairMetadata,
        diff_in_amount_currency: Decimal,
        price: Decimal,
    ) -> (r: Result<(), BalanceError>)
        ensures
            (final(self)@, r) == old(self)@.spec_add_virtual_balance(
                *request,
                *currency_pair_metadata,
                diff_in_amount_currency,
                price,
            ),
            old(self).wf() ==> final(self).wf(),
    {
        match self.plan_virtual_balance(request, currency_pair_metadata, diff_in_amount_currency, price) {
            Ok(entry) => {
                self.virtual_balance_holder.balance_diff.set_by_balance_request(&entry.0, entry.1);
                Ok(())
            },
            Err(e) => Err(e),
        }
    }

    /// Adds an amount in the amount currency to the virtual balance.
    pub fn add_virtual_balance(
        &mut self,
        request: &BalanceRequest,
        currency_pair_metadata: &CurrencyPairMetadata,
        price: Decimal,
        diff_in_amount_currency: Decimal,
    ) -> (r: Result<(), BalanceError>)
        ensures
            (final(self)@, r) == old(self)@.spec_add_virtual_balance(
                *request,
                *currency_pair_metadata,
                diff_in_amount_currency,
                price,
            ),
            old(self).wf() ==> final(self).wf(),
    {
        self.add_virtual_balance_by_currency_pair_metadata(
            request,
            currency_pair_metadata,
            diff_in_amount_currency,
            price,
        )
    }

    /// What adding `diff` to what a reservation has reserved will write.
    pub fn plan_reserved_amount(
        &self,
        request: &BalanceRequest,
        reservation: &BalanceReservation,
        amount_diff_in_amount_currency: Decimal,
        update_balance: bool,
    ) -> (r: Result<ReservedPlan, BalanceError>)
        ensures
            r == self@.spec_plan_reserved(*request, reservation@, amount_diff_in_amount_currency, update_balance),
    {
        let mut balance: Option<(BalanceRequest, Decimal)> = None;
        if update_balance {
            let cost = match reservation.get_proportional_cost_amount(amount_diff_in_amount_currency) {
                Ok(cost) => cost,
                Err(e) => return Err(e),
            };
            match self.plan_virtual_balance(
                request,
                &reservation.currency_pair_metadata,
                cost.neg(),
                reservation.price,
            ) {
                Ok(entry) => {
                    balance = Some(entry);
                },
                Err(e) => return Err(e),
            }
        }
        let unreserved_amount = match reservation.unreserved_amount.exact_add(amount_diff_in_amount_currency) {
            Some(total) => total,
            None => return Err(BalanceError::Arithmetic),
        };
        let reserved_request = BalanceRequest::new(
            request.configuration_descriptor.clone(),
            request.exchange_account_id.clone(),
            request.currency_pair.clone(),
            reservation.reservation_currency_code.clone(),
        );
        match self.reserved_amount_in_amount_currency.planned_exact_sum(&reserved_request, amount_diff_in_amount_currency) {
            Some(reserved_total) => Ok(ReservedPlan { balance, unreserved_amount, reserved_request, reserved_total }),
            None => Err(BalanceError::Arithmetic),
        }
    }

    /// Writes what a plan says to the virtual balance and the tree of
    /// reserved amounts.
    pub fn commit_plan(&mut self, plan: &ReservedPlan)
        ensures
            final(self)@ == old(self)@.spec_commit(*plan),
            old(self).wf() ==> final(self).wf(),
    {
        match &plan.balance {
            Some(entry) => {
                self.virtual_balance_holder.balance_diff.set_by_balance_request(&entry.0, entry.1);
            },
            None => {},
        }
        self.reserved_amount_in_amount_currency.set_by_balance_request(&plan.reserved_request, plan.reserved_total);
    }

    /// Adds `amount_diff_in_amount_currency` to what a reservation outside
    /// the store has reserved.
    pub fn add_reserved_amount_by_reservation(
        &mut self,
        request: &BalanceRequest,
        reservation: &mut BalanceReservation,
        amount_diff_in_amount_currency: Decimal,
        update_balance: bool,
    ) -> (r: Result<(), BalanceError>)
        ensures
            (final(self)@, final(reservation)@, r) == old(self)@.spec_add_reserved_amount_by_reservation(
                *request,
                old(reservation)@,
                amount_diff_in_amount_currency,
                update_balance,
            ),
            old(self).wf() ==> final(self).wf(),
    {
        match self.plan_reserved_amount(request, reservation, amount_diff_in_amount_currency, update_balance) {
            Err(e) => Err(e),
            Ok(plan) => {
                self.commit_plan(&plan);
                reservation.unreserved_amount = plan.unreserved_amount;
                Ok(())
            },
        }
    }

    /// Adds `amount_diff_in_amount_currency` to what the reservation with
    /// the identifier has reserved.
    pub fn add_reserved_amount(
        &mut self,
        request: &BalanceRequest,
        reservation_id: ReservationId,
        amount_diff_in_amount_currency: Decimal,
        update_balance: bool,
    ) -> (r: Result<(), BalanceError>)
        ensures
            (final(self)@, r) == old(self)@.spec_add_reserved_amount(
                *request,
                reservation_id,
                amount_diff_in_amount_currency,
                update_balance,
            ),
            old(self).wf() ==> final(self).wf(),
    {
        let i = self.balance_reservation_storage.position(reservation_id);
        if i >= self.balance_reservation_storage.len() {
            return Err(BalanceError::UnknownReservation);
        }
        match self.plan_reserved_amount(
            request,
            self.balance_reservation_storage.at(i),
            amount_diff_in_amount_currency,
            update_balance,
        ) {
            Err(e) => Err(e),
            Ok(plan) => {
                self.commit_plan(&plan);
                self.balance_reservation_storage.reservations.entries[i].1.unreserved_amount = plan.unreserved_amount;
                proof {
                    let before = old(self)@.reservations;
                    assert(self@.reservations =~= before.update(
                        i as int,
                        (
                            before[i as int].0,
                            ReservationView { unreserved_amount: plan.unreserved_amount, ..before[i as int].1 },
                        ),
                    ));
                }
                Ok(())
            },
        }
    }

    /// Recomputes the tree of reserved amounts from the reservations.
    pub fn sync_reservation_amounts(&mut self) -> (r: Result<(), BalanceError>)
        ensures
            (final(self)@, r) == old(self)@.spec_sync_reservation_amounts(),
            old(self).wf() ==> final(self).wf(),
    {
        match reserved_tree_of(&self.balance_reservation_storage) {
            Some(tree) => {
                self.reserved_amount_in_amount_currency = tree;
                Ok(())
            },
            None => Err(BalanceError::Arithmetic),
        }
    }

    /// Replaces all reservations by those of a snapshot, with the tree of
    /// reserved amounts recomputed from them. The identifier handed out last
    /// is raised to the largest one among them. Where the tree cannot be
    /// computed, nothing is replaced.
    pub fn update_reserved_balances(&mut self, reserved_balances_by_id: &BalanceReservationStorage) -> (r: Result<
        (),
        BalanceError,
    >)
        ensures
            (final(self)@, r) == old(self)@.spec_update_reserved_balances(reserved_balances_by_id@),
            old(self).wf() && reserved_balances_by_id.wf() ==> final(self).wf(),
    {
        let tree = match reserved_tree_of(reserved_balances_by_id) {
            Some(tree) => tree,
            None => return Err(BalanceError::Arithmetic),
        };
        let n = reserved_balances_by_id.len();
        let mut largest = self.reservation_id;
        let mut i: usize = 0;
        while i < n
            invariant
                i <= n,
                n == reserved_balances_by_id@.len(),
                largest == spec_largest_id(reserved_balances_by_id@.take(i as int), self.reservation_id),
            decreases n - i,
        {
            proof {
                let next = reserved_balances_by_id@.take(i + 1);
                assert(next.drop_last() == reserved_balances_by_id@.take(i as int));
                assert(next.last() == reserved_balances_by_id@[i as int]);
            }
            let id = reserved_balances_by_id.reservations.entries[i].0;
            if id.id > largest.id {
                largest = id;
            }
            i = i + 1;
        }
        proof {
            assert(reserved_balances_by_id@.take(i as int) == reserved_balances_by_id@);
        }
        self.balance_reservation_storage = reserved_balances_by_id.clone();
        self.reserved_amount_in_amount_currency = tree;
        self.reservation_id = largest;
        Ok(())
    }
}

/// The tree of what is reserved under each request, recomputed from the
/// reservations of a store; `None` where a sum is not exact.
pub fn reserved_tree_of(storage: &BalanceReservationStorage) -> (r: Option<ServiceValueTree>)
    ensures
        match r {
            Some(tree) => spec_reserved_tree(storage@) == Some(tree@) && tree.wf(),
            None => spec_reserved_tree(storage@) is None,
        },
{
    let mut tree = ServiceValueTree::new();
    let n = storage.len();
    let mut i: usize = 0;
    while i < n
        invariant
            i <= n,
            n == storage@.len(),
            Some(tree@) == spec_reserved_tree(storage@.take(i as int)),
            tree.wf(),
        decreases n - i,
    {
        proof {
            let next = storage@.take(i + 1);
            assert(next.drop_last() == storage@.take(i as int));
            assert(next.last() == storage@[i as int]);
        }
        let reservation = storage.at(i);
        let code = reservation.currency_pair_metadata.get_trade_code(reservation.order_side, BeforeAfter::Before);
        let request = crate::balance_reservation_manager::make_request(
            &reservation.configuration_descriptor,
            &reservation.exchange_account_id,
            &reservation.currency_pair_metadata,
            &code,
        );
        if !tree.add_exactly_by_request(&request, reservation.unreserved_amount) {
            proof {
                lemma_reserved_tree_fails(storage@, i + 1);
            }
            return None;
        }
        i = i + 1;
    }
    proof {
        assert(storage@.take(i as int) == storage@);
    }
    Some(tree)
}

/// The largest identifier among those of the reservations and `start`.
pub open spec fn spec_largest_id(reservations: Reservations, start: ReservationId) -> ReservationId
    decreases reservations.len(),
{
    if reservations.len() == 0 {
        start
    } else {
        let rest = spec_largest_id(reservations.drop_last(), start);
        if reservations.last().0.id > rest.id {
            reservations.last().0
        } else {
            rest
        }
    }
}

} // verus!
