//! What holds of the manager's state whatever is done to it.
//!
//! - Every reservation in the store stays balanced: the amount that no order
//!   was approved for and what is left of the approved parts add up to what
//!   the reservation has reserved.
//! - The tree of reserved amounts stays in step with the reservations: under
//!   each request it holds the sum of what the reservations of that request
//!   have reserved.
//! - Giving back the whole of a reservation that was just made leaves the
//!   reservations and the tree of reserved amounts as they were.
//! - A transfer conserves what the two reservations have reserved together.
//!
//! The laws are about the numbers that the decimals stand for, and of the
//! operations that succeed.

use crate::balance_reservation::{canceled_hold_nothing, lemma_active_is_all, lemma_active_sum, parts_total, pays_with_side_currency, ReservationView};
use crate::balance_reservation_manager::{spec_request, spec_request_of, BalanceReservationManager, ManagerView};
use crate::balance_reservation_storage::Reservations;
use crate::balances::ReserveParameters;
use crate::common::{BalanceRequest, BeforeAfter, ClientOrderId, DateTime, RequestId, ReservationId};
use crate::decimal::{Decimal, Round};
use crate::reservation_laws::{law_approve_keeps_balance, law_cancel_keeps_balance, law_move_amount_adds, law_unreserve_part_takes_amount, loses_on_move};
use crate::reserved_amounts::{spec_reserved_tree, ReservedPlan};
use crate::service_value_tree::{spec_tree_exact_sum, TreeEntries};
use crate::vec_map::{distinct, first_index, lemma_distinct_insert, lemma_distinct_remove, lemma_first_index, lemma_insert_twice, lemma_lookup_insert, lemma_lookup_removed, lemma_remove_pushed, lookup, present, spec_insert, spec_remove};
use crate::virtual_balance_holder::with_code;
use vstd::prelude::*;

verus! {

/// Every reservation is balanced.
pub open spec fn all_balanced(reservations: Reservations) -> bool {
    forall|i: int| 0 <= i < reservations.len() ==> (#[trigger] reservations[i]).1.balanced()
}

/// A reservation found in balanced reservations is balanced.
pub proof fn lemma_balanced_lookup(reservations: Reservations, id: u64)
    requires
        all_balanced(reservations),
    ensures
        lookup(reservations, id) matches Some(reservation) ==> reservation.balanced(),
{
    lemma_first_index(reservations, id);
}

/// Balanced reservations stay balanced when a balanced one is put among
/// them.
pub proof fn lemma_balanced_insert(reservations: Reservations, key: ReservationId, reservation: ReservationView)
    requires
        all_balanced(reservations),
        reservation.balanced(),
    ensures
        all_balanced(spec_insert(reservations, key, reservation)),
{
    lemma_first_index(reservations, key.id);
    let next = spec_insert(reservations, key, reservation);
    assert forall|i: int| 0 <= i < next.len() implies (#[trigger] next[i]).1.balanced() by {
        if i < reservations.len() && !(present(reservations, key.id) && i == first_index(reservations, key.id)) {
            assert(next[i] == reservations[i]);
        }
    }
}

/// Balanced reservations stay balanced when the one under a key is put in
/// balance, whatever it was before.
pub proof fn lemma_balanced_replace(
    reservations: Reservations,
    key: ReservationId,
    before: ReservationView,
    after: ReservationView,
)
    requires
        all_balanced(reservations),
        after.balanced(),
    ensures
        all_balanced(spec_insert(spec_insert(reservations, key, before), key, after)),
{
    lemma_insert_twice(reservations, key, before, after);
    lemma_balanced_insert(reservations, key, after);
}

/// Balanced reservations stay balanced when one is taken out.
pub proof fn lemma_balanced_remove(reservations: Reservations, id: u64)
    requires
        all_balanced(reservations),
    ensures
        all_balanced(spec_remove(reservations, id)),
{
    lemma_first_index(reservations, id);
    let next = spec_remove(reservations, id);
    if present(reservations, id) {
        let index = first_index(reservations, id);
        assert forall|i: int| 0 <= i < next.len() implies (#[trigger] next[i]).1.balanced() by {
            if i < index {
                assert(next[i] == reservations[i]);
            } else {
                assert(next[i] == reservations[i + 1]);
            }
        }
    }
}

/// An approval that succeeds keeps every reservation balanced.
pub proof fn law_approval_keeps_reservations_balanced(
    state: ManagerView,
    reservation_id: ReservationId,
    client_order_id: ClientOrderId,
    amount: Decimal,
    now: DateTime,
)
    requires
        all_balanced(state.reservations),
        state.spec_approve_reservation(reservation_id, client_order_id, amount, now).1 is Ok,
    ensures
        all_balanced(state.spec_approve_reservation(reservation_id, client_order_id, amount, now).0.reservations),
{
    lemma_balanced_lookup(state.reservations, reservation_id.id);
    match lookup(state.reservations, reservation_id.id) {
        Some(reservation) => {
            if reservation.spec_approve(client_order_id, amount, now).1 is Ok {
                law_approve_keeps_balance(reservation, client_order_id, amount, now);
            }
            lemma_balanced_insert(
                state.reservations,
                reservation_id,
                reservation.spec_approve(client_order_id, amount, now).0,
            );
        },
        None => {},
    }
}

/// A cancellation that succeeds keeps every reservation balanced.
pub proof fn law_cancellation_keeps_reservations_balanced(
    state: ManagerView,
    reservation_id: ReservationId,
    client_order_id: ClientOrderId,
)
    requires
        all_balanced(state.reservations),
        state.spec_cancel_approved_reservation(reservation_id, client_order_id).1 is Ok,
    ensures
        all_balanced(state.spec_cancel_approved_reservation(reservation_id, client_order_id).0.reservations),
{
    lemma_balanced_lookup(state.reservations, reservation_id.id);
    match lookup(state.reservations, reservation_id.id) {
        Some(reservation) => {
            law_cancel_keeps_balance(reservation, client_order_id);
            lemma_balanced_insert(state.reservations, reservation_id, reservation.spec_cancel(client_order_id).0);
        },
        None => {},
    }
}

/// A reservation that was just made is balanced, and so are all others
/// still.
pub proof fn law_reserving_keeps_reservations_balanced(state: ManagerView, parameters: ReserveParameters)
    requires
        all_balanced(state.reservations),
        state.spec_try_reserve(parameters).1 is Some,
    ensures
        all_balanced(state.spec_try_reserve(parameters).0.reservations),
{
    let next = state.spec_try_reserve(parameters).0.reservations;
    Decimal::lemma_constants(0);
    assert(parts_total(Seq::empty()) == 0);
    assert forall|i: int| 0 <= i < next.len() implies (#[trigger] next[i]).1.balanced() by {
        if i < state.reservations.len() {
            assert(next[i] == state.reservations[i]);
        }
    }
}

/// The number under a key of a tree, zero where the key is absent.
pub open spec fn tree_value(entries: TreeEntries, key: RequestId) -> int {
    match lookup(entries, key) {
        Some(value) => value@,
        None => 0,
    }
}

/// After an amount was put under a request, the request holds the amount
/// and every other key what it held before.
pub proof fn lemma_tree_value_insert(entries: TreeEntries, request: BalanceRequest, total: Decimal, key: RequestId)
    ensures
        tree_value(spec_insert(entries, request, total), key) == if key == request@ {
            total@
        } else {
            tree_value(entries, key)
        },
{
    lemma_lookup_insert(entries, request, total, key);
}

/// A sum planned for a tree holds what the tree held under the request plus
/// the difference.
pub proof fn lemma_tree_sum(entries: TreeEntries, request: BalanceRequest, diff: Decimal)
    ensures
        spec_tree_exact_sum(entries, request, diff) matches Some(total) ==> total@ == tree_value(entries, request@) + diff@,
{
}

/// What writing a plan does to the tree of reserved amounts: the request of
/// the plan holds the planned total, every other key what it held before.
pub proof fn lemma_commit_reserved(state: ManagerView, plan: ReservedPlan, key: RequestId)
    ensures
        tree_value(state.spec_commit(plan).reserved, key) == if key == plan.reserved_request@ {
            plan.reserved_total@
        } else {
            tree_value(state.reserved, key)
        },
        state.spec_commit(plan).reservations == state.reservations,
        state.spec_commit(plan).exchanges == state.exchanges,
        state.spec_commit(plan).reservation_id == state.reservation_id,
        state.spec_commit(plan).is_call_from_clone == state.is_call_from_clone,
{
    let with_balance = match plan.balance {
        Some(entry) => state.spec_set_balance(entry),
        None => state,
    };
    lemma_tree_value_insert(with_balance.reserved, plan.reserved_request, plan.reserved_total, key);
}

/// What a plan to add `diff` to a reservation holds: the reservation will
/// have reserved what it has plus `diff`, and the tree will hold under the
/// reservation's request what it holds plus `diff`.
pub proof fn lemma_plan_reserved(
    state: ManagerView,
    request: BalanceRequest,
    reservation: ReservationView,
    diff: Decimal,
    update_balance: bool,
)
    ensures
        state.spec_plan_reserved(request, reservation, diff, update_balance) matches Ok(plan) ==> {
            &&& plan.unreserved_amount@ == reservation.unreserved_amount@ + diff@
            &&& plan.reserved_request == with_code(request, reservation.reservation_currency_code)
            &&& plan.reserved_total@ == tree_value(
                state.reserved,
                with_code(request, reservation.reservation_currency_code)@,
            ) + diff@
        },
{
    lemma_tree_sum(state.reserved, with_code(request, reservation.reservation_currency_code), diff);
}

/// What an unreserve that succeeds has done, for a reservation that was in
/// the store: nothing; or it took the rounded amount out of the
/// reservation and the tree; or the reservation is gone, and the tree has
/// lost all that the reservation had reserved.
pub open spec fn unreserve_effect(
    state: ManagerView,
    next: ManagerView,
    reservation_id: ReservationId,
    reservation: ReservationView,
    client_order_id: Option<ClientOrderId>,
    rounded: Decimal,
) -> bool {
    let request = spec_request_of(reservation);
    let part = reservation.spec_unreserve_part(client_order_id, rounded).0;
    ||| next.reservations == state.reservations && next.reserved == state.reserved
    ||| exists|left: Decimal|
        {
            &&& left@ == reservation.unreserved_amount@ - rounded@
            &&& next.reservations == spec_insert(
                state.reservations,
                reservation_id,
                ReservationView { unreserved_amount: left, ..part },
            )
            &&& forall|key: RequestId| #[trigger]
                tree_value(next.reserved, key) == tree_value(state.reserved, key) - if key == request@ {
                    rounded@
                } else {
                    0
                }
        }
    ||| {
        &&& next.reservations == spec_remove(state.reservations, reservation_id.id)
        &&& forall|key: RequestId| #[trigger]
            tree_value(next.reserved, key) == tree_value(state.reserved, key) - if key == request@ {
                reservation.unreserved_amount@
            } else {
                0
            }
    }
}

/// An unreserve that succeeds has one of the effects of `unreserve_effect`.
pub proof fn lemma_unreserve_effect(
    state: ManagerView,
    reservation_id: ReservationId,
    amount: Decimal,
    client_order_id: Option<ClientOrderId>,
)
    requires
        state.spec_unreserve(reservation_id, amount, client_order_id).1 is Ok,
        lookup(state.reservations, reservation_id.id) is Some,
    ensures
        ({
            let reservation = lookup(state.reservations, reservation_id.id).unwrap();
            reservation.currency_pair_metadata.spec_round_amount(amount) matches Some(rounded) && unreserve_effect(
                state,
                state.spec_unreserve(reservation_id, amount, client_order_id).0,
                reservation_id,
                reservation,
                client_order_id,
                rounded,
            )
        }),
{
    let reservation = lookup(state.reservations, reservation_id.id).unwrap();
    let rounded = reservation.currency_pair_metadata.spec_round_amount(amount).unwrap();
    let next = state.spec_unreserve(reservation_id, amount, client_order_id).0;
    let request = spec_request_of(reservation);
    if rounded@ == 0 && reservation.amount@ != 0 {
    } else if !present(state.exchanges, reservation.exchange_account_id@) {
    } else {
        reservation.currency_pair_metadata.amount_precision.lemma_rounded_wf(amount, Round::ToNearest);
        rounded.lemma_neg();
        let (part, part_result) = reservation.spec_unreserve_part(client_order_id, rounded);
        let after_part = state.spec_with_reservation(reservation_id, part);
        lemma_lookup_insert(state.reservations, reservation_id, part, reservation_id.id);
        assert(lookup(after_part.reservations, reservation_id.id) == Some(part));
        assert(part.unreserved_amount == reservation.unreserved_amount);
        assert(part.reservation_currency_code == reservation.reservation_currency_code);
        let plan = after_part.spec_plan_reserved(request, part, rounded.spec_neg(), true).unwrap();
        lemma_plan_reserved(after_part, request, part, rounded.spec_neg(), true);
        let left = plan.unreserved_amount;
        let kept = ReservationView { unreserved_amount: left, ..part };
        let after_amount = after_part.spec_commit(plan).spec_with_reservation(reservation_id, kept);
        assert(after_amount == after_part.spec_add_reserved_amount(request, reservation_id, rounded.spec_neg(), true).0);
        lemma_insert_twice(state.reservations, reservation_id, part, kept);
        assert(after_amount.reservations == spec_insert(state.reservations, reservation_id, kept));
        assert(with_code(request, part.reservation_currency_code) == request);
        assert forall|key: RequestId| #[trigger]
            tree_value(after_amount.reserved, key) == tree_value(state.reserved, key) - if key == request@ {
                rounded@
            } else {
                0
            } by {
            lemma_commit_reserved(after_part, plan, key);
        }
        lemma_lookup_insert(state.reservations, reservation_id, kept, reservation_id.id);
        assert(lookup(after_amount.reservations, reservation_id.id) == Some(kept));
        if kept.unreserved_amount@ < 0 || kept.spec_within_margin(kept.unreserved_amount) {
            let removed = ManagerView {
                reservations: spec_remove(after_amount.reservations, reservation_id.id),
                ..after_amount
            };
            lemma_removed_after_insert(state.reservations, reservation_id, kept);
            assert(removed.reservations == spec_remove(state.reservations, reservation_id.id));
            if kept.unreserved_amount@ != 0 {
                let back = removed.spec_plan_reserved(request, kept, left.spec_neg(), true).unwrap();
                reservation.unreserved_amount.lemma_results_wf(rounded.spec_neg(), 0, Round::ToNearest);
                left.lemma_neg();
                lemma_plan_reserved(removed, request, kept, left.spec_neg(), true);
                assert(next == removed.spec_commit(back));
                assert forall|key: RequestId| #[trigger]
                    tree_value(next.reserved, key) == tree_value(state.reserved, key) - if key == request@ {
                        reservation.unreserved_amount@
                    } else {
                        0
                    } by {
                    lemma_commit_reserved(removed, back, key);
                }
            } else {
                assert(next == removed);
            }
        } else {
            assert(next == after_amount);
        }
    }
}

/// Taking out what was just put under a key leaves what taking out what was
/// there before leaves.
pub proof fn lemma_removed_after_insert(reservations: Reservations, key: ReservationId, reservation: ReservationView)
    requires
        present(reservations, key.id),
    ensures
        spec_remove(spec_insert(reservations, key, reservation), key.id) == spec_remove(reservations, key.id),
{
    lemma_first_index(reservations, key.id);
    let index = first_index(reservations, key.id);
    crate::vec_map::lemma_lookup_update(reservations, index, reservation, key.id);
    let next = spec_insert(reservations, key, reservation);
    assert(first_index(next, key.id) == index);
    assert(next.remove(index) =~= reservations.remove(index));
}

/// An unreserve that succeeds keeps every reservation balanced.
pub proof fn law_unreserving_keeps_reservations_balanced(
    state: ManagerView,
    reservation_id: ReservationId,
    amount: Decimal,
    client_order_id: Option<ClientOrderId>,
)
    requires
        all_balanced(state.reservations),
        state.spec_unreserve(reservation_id, amount, client_order_id).1 is Ok,
    ensures
        all_balanced(state.spec_unreserve(reservation_id, amount, client_order_id).0.reservations),
{
    let next = state.spec_unreserve(reservation_id, amount, client_order_id).0;
    match lookup(state.reservations, reservation_id.id) {
        None => {},
        Some(reservation) => {
            lemma_unreserve_effect(state, reservation_id, amount, client_order_id);
            lemma_balanced_lookup(state.reservations, reservation_id.id);
            lemma_balanced_remove(state.reservations, reservation_id.id);
            let rounded = reservation.currency_pair_metadata.spec_round_amount(amount).unwrap();
            let part = reservation.spec_unreserve_part(client_order_id, rounded).0;
            if next.reservations == state.reservations {
            } else if next.reservations == spec_remove(state.reservations, reservation_id.id) {
            } else {
                let left = choose|left: Decimal|
                    {
                        &&& left@ == reservation.unreserved_amount@ - rounded@
                        &&& next.reservations == spec_insert(
                            state.reservations,
                            reservation_id,
                            ReservationView { unreserved_amount: left, ..part },
                        )
                    };
                assert(reservation.spec_unreserve_part(client_order_id, rounded).1 is Ok);
                law_unreserve_part_takes_amount(reservation, client_order_id, rounded);
                lemma_balanced_insert(
                    state.reservations,
                    reservation_id,
                    ReservationView { unreserved_amount: left, ..part },
                );
            }
        },
    }
}

/// The identity of the request under which a reservation counts: that of
/// the currency which its side pays with, in its market.
pub open spec fn key_of(reservation: ReservationView) -> RequestId {
    spec_request(
        reservation.configuration_descriptor,
        reservation.exchange_account_id,
        reservation.currency_pair_metadata,
        reservation.currency_pair_metadata.spec_trade_code(reservation.order_side, BeforeAfter::Before),
    )@
}

/// What a reservation adds to the total of a key: what it has reserved, if
/// it counts under the key.
pub open spec fn reserved_share(reservation: ReservationView, key: RequestId) -> int {
    if key_of(reservation) == key {
        reservation.unreserved_amount@
    } else {
        0
    }
}

/// What the reservations of a key have reserved together.
pub open spec fn reserved_total(reservations: Reservations, key: RequestId) -> int
    decreases reservations.len(),
{
    if reservations.len() == 0 {
        0
    } else {
        reserved_total(reservations.drop_last(), key) + reserved_share(reservations.last().1, key)
    }
}

/// The tree of reserved amounts holds under every key what the reservations
/// of that key have reserved together.
pub open spec fn in_step(state: ManagerView) -> bool {
    forall|key: RequestId| #[trigger] tree_value(state.reserved, key) == reserved_total(state.reservations, key)
}

/// A reservation added at the end adds its share to the total.
pub proof fn lemma_reserved_total_push(reservations: Reservations, entry: (ReservationId, ReservationView), key: RequestId)
    ensures
        reserved_total(reservations.push(entry), key) == reserved_total(reservations, key) + reserved_share(
            entry.1,
            key,
        ),
{
    assert(reservations.push(entry).drop_last() =~= reservations);
}

/// A reservation replaced in its place changes the total by the difference
/// of the shares.
pub proof fn lemma_reserved_total_update(
    reservations: Reservations,
    index: int,
    entry: (ReservationId, ReservationView),
    key: RequestId,
)
    requires
        0 <= index < reservations.len(),
    ensures
        reserved_total(reservations.update(index, entry), key) == reserved_total(reservations, key) - reserved_share(
            reservations[index].1,
            key,
        ) + reserved_share(entry.1, key),
    decreases reservations.len(),
{
    let updated = reservations.update(index, entry);
    if index == reservations.len() - 1 {
        assert(updated.drop_last() =~= reservations.drop_last());
    } else {
        assert(updated.drop_last() =~= reservations.drop_last().update(index, entry));
        lemma_reserved_total_update(reservations.drop_last(), index, entry, key);
    }
}

/// A reservation taken out takes its share out of the total.
pub proof fn lemma_reserved_total_remove(reservations: Reservations, index: int, key: RequestId)
    requires
        0 <= index < reservations.len(),
    ensures
        reserved_total(reservations.remove(index), key) == reserved_total(reservations, key) - reserved_share(
            reservations[index].1,
            key,
        ),
    decreases reservations.len(),
{
    let removed = reservations.remove(index);
    if index == reservations.len() - 1 {
        assert(removed =~= reservations.drop_last());
    } else {
        assert(removed.drop_last() =~= reservations.drop_last().remove(index));
        assert(removed.last() == reservations.last());
        lemma_reserved_total_remove(reservations.drop_last(), index, key);
    }
}

/// The tree recomputed from the reservations holds under every key what the
/// reservations of that key have reserved together.
pub proof fn lemma_reserved_tree_totals(reservations: Reservations, key: RequestId)
    ensures
        spec_reserved_tree(reservations) matches Some(tree) ==> tree_value(tree, key) == reserved_total(
            reservations,
            key,
        ),
    decreases reservations.len(),
{
    if reservations.len() > 0 {
        lemma_reserved_tree_totals(reservations.drop_last(), key);
        match spec_reserved_tree(reservations.drop_last()) {
            Some(tree) => {
                let reservation = reservations.last().1;
                let request = spec_request(
                    reservation.configuration_descriptor,
                    reservation.exchange_account_id,
                    reservation.currency_pair_metadata,
                    reservation.currency_pair_metadata.spec_trade_code(reservation.order_side, BeforeAfter::Before),
                );
                match spec_tree_exact_sum(tree, request, reservation.unreserved_amount) {
                    Some(total) => {
                        lemma_tree_value_insert(tree, request, total, key);
                    },
                    None => {},
                }
            },
            None => {},
        }
    }
}

/// After the tree of reserved amounts was recomputed, it is in step with the
/// reservations.
pub proof fn law_sync_puts_in_step(state: ManagerView)
    requires
        state.spec_sync_reservation_amounts().1 is Ok,
    ensures
        in_step(state.spec_sync_reservation_amounts().0),
{
    let next = state.spec_sync_reservation_amounts().0;
    assert forall|key: RequestId| #[trigger]
        tree_value(next.reserved, key) == reserved_total(next.reservations, key) by {
        lemma_reserved_tree_totals(state.reservations, key);
    }
}

/// What a reservation that was made has done: it stands at the end of the
/// store under an identifier that was absent, with its amount reserved, and
/// the tree of reserved amounts has gained the amount under its request.
pub open spec fn reserve_effect(
    state: ManagerView,
    next: ManagerView,
    reservation_id: ReservationId,
    parameters: ReserveParameters,
) -> bool {
    &&& !present(state.reservations, reservation_id.id)
    &&& next.reservations.len() == state.reservations.len() + 1
    &&& next.reservations.drop_last() == state.reservations
    &&& next.reservations == state.reservations.push(next.reservations.last())
    &&& next.reservations.last().0 == reservation_id
    &&& next.reservations.last().1.unreserved_amount@ == parameters.amount@
    &&& pays_with_side_currency(next.reservations.last().1)
    &&& next.exchanges == state.exchanges
    &&& next.is_call_from_clone == state.is_call_from_clone
    &&& next.reservations.last().1.exchange_account_id == parameters.exchange_account_id
    &&& next.reservations.last().1.currency_pair_metadata == parameters.currency_pair_metadata
    &&& next.reservations.last().1.amount == parameters.amount
    &&& forall|key: RequestId| #[trigger]
        tree_value(next.reserved, key) == tree_value(state.reserved, key) + reserved_share(
            next.reservations.last().1,
            key,
        )
}

/// A reservation that was made has the effect of `reserve_effect`.
pub proof fn lemma_reserve_effect(state: ManagerView, parameters: ReserveParameters)
    requires
        state.spec_try_reserve(parameters).1 is Some,
    ensures
        reserve_effect(
            state,
            state.spec_try_reserve(parameters).0,
            state.spec_try_reserve(parameters).1.unwrap(),
            parameters,
        ),
{
    let next = state.spec_try_reserve(parameters).0;
    let id = state.spec_try_reserve(parameters).1.unwrap();
    let preset = state.spec_can_reserve_core(parameters).unwrap();
    let fresh = ReservationView::spec_new(
        parameters.configuration_descriptor,
        parameters.exchange_account_id,
        parameters.currency_pair_metadata,
        parameters.order_side,
        parameters.price,
        parameters.amount,
        preset.taken_free_amount_in_amount_currency_code,
        preset.cost_in_amount_currency_code,
        preset.reservation_currency_code,
    );
    let request = spec_request_of(fresh);
    let plan = state.spec_plan_reserved(request, fresh, parameters.amount, true).unwrap();
    lemma_plan_reserved(state, request, fresh, parameters.amount, true);
    Decimal::lemma_constants(0);
    let made = ReservationView { unreserved_amount: plan.unreserved_amount, ..fresh };
    assert(next.reservations == state.reservations.push((id, made)));
    assert(next.reservations.drop_last() =~= state.reservations);
    assert(with_code(request, fresh.reservation_currency_code) == request);
    assert(request@ == key_of(made));
    assert forall|key: RequestId| #[trigger]
        tree_value(next.reserved, key) == tree_value(state.reserved, key) + reserved_share(
            next.reservations.last().1,
            key,
        ) by {
        lemma_commit_reserved(state, plan, key);
    }
}

/// Making a reservation keeps the tree of reserved amounts in step with the
/// reservations.
pub proof fn law_reserving_keeps_in_step(state: ManagerView, parameters: ReserveParameters)
    requires
        in_step(state),
        state.spec_try_reserve(parameters).1 is Some,
    ensures
        in_step(state.spec_try_reserve(parameters).0),
{
    let next = state.spec_try_reserve(parameters).0;
    lemma_reserve_effect(state, parameters);
    assert forall|key: RequestId| #[trigger]
        tree_value(next.reserved, key) == reserved_total(next.reservations, key) by {
        lemma_reserved_total_push(state.reservations, next.reservations.last(), key);
        assert(tree_value(state.reserved, key) == reserved_total(state.reservations, key));
    }
}

/// An unreserve that succeeds keeps the tree of reserved amounts in step
/// with the reservations, for a reservation in the currency that its side
/// pays with.
pub proof fn law_unreserving_keeps_in_step(
    state: ManagerView,
    reservation_id: ReservationId,
    amount: Decimal,
    client_order_id: Option<ClientOrderId>,
)
    requires
        in_step(state),
        state.spec_unreserve(reservation_id, amount, client_order_id).1 is Ok,
        lookup(state.reservations, reservation_id.id) matches Some(reservation) ==> pays_with_side_currency(
            reservation,
        ),
    ensures
        in_step(state.spec_unreserve(reservation_id, amount, client_order_id).0),
{
    let next = state.spec_unreserve(reservation_id, amount, client_order_id).0;
    match lookup(state.reservations, reservation_id.id) {
        None => {},
        Some(reservation) => {
            lemma_unreserve_effect(state, reservation_id, amount, client_order_id);
            lemma_first_index(state.reservations, reservation_id.id);
            let index = first_index(state.reservations, reservation_id.id);
            let rounded = reservation.currency_pair_metadata.spec_round_amount(amount).unwrap();
            let part = reservation.spec_unreserve_part(client_order_id, rounded).0;
            let request = spec_request_of(reservation);
            assert(request@ == key_of(reservation));
            assert(key_of(part) == key_of(reservation));
            assert(part.unreserved_amount == reservation.unreserved_amount);
            assert forall|key: RequestId| #[trigger]
                tree_value(next.reserved, key) == reserved_total(next.reservations, key) by {
                assert(tree_value(state.reserved, key) == reserved_total(state.reservations, key));
                if next.reservations == state.reservations && next.reserved == state.reserved {
                } else if next.reservations == spec_remove(state.reservations, reservation_id.id) && tree_value(
                    next.reserved,
                    key,
                ) == tree_value(state.reserved, key) - if key == request@ {
                    reservation.unreserved_amount@
                } else {
                    0
                } {
                    lemma_reserved_total_remove(state.reservations, index, key);
                } else {
                    let left = choose|left: Decimal|
                        {
                            &&& left@ == reservation.unreserved_amount@ - rounded@
                            &&& next.reservations == spec_insert(
                                state.reservations,
                                reservation_id,
                                ReservationView { unreserved_amount: left, ..part },
                            )
                            &&& forall|key: RequestId| #[trigger]
                                tree_value(next.reserved, key) == tree_value(state.reserved, key) - if key
                                    == request@ {
                                    rounded@
                                } else {
                                    0
                                }
                        };
                    let kept = ReservationView { unreserved_amount: left, ..part };
                    assert(key_of(kept) == key_of(reservation));
                    lemma_reserved_total_update(state.reservations, index, (state.reservations[index].0, kept), key);
                }
            }
        },
    }
}

/// Giving back the whole of a reservation that was just made, so that it
/// leaves the store, leaves the reservations as they were and the tree of
/// reserved amounts with the numbers that it had.
pub proof fn law_reserve_then_unreserve_restores(state: ManagerView, parameters: ReserveParameters)
    requires
        state.spec_try_reserve(parameters).1 is Some,
        ({
            let (reserved, id) = state.spec_try_reserve(parameters);
            let (next, result) = reserved.spec_unreserve(id.unwrap(), parameters.amount, None);
            result is Ok && !present(next.reservations, id.unwrap().id)
        }),
    ensures
        ({
            let (reserved, id) = state.spec_try_reserve(parameters);
            let next = reserved.spec_unreserve(id.unwrap(), parameters.amount, None).0;
            &&& next.reservations == state.reservations
            &&& forall|key: RequestId| #[trigger] tree_value(next.reserved, key) == tree_value(state.reserved, key)
        }),
{
    let (reserved, id) = state.spec_try_reserve(parameters);
    let id = id.unwrap();
    let next = reserved.spec_unreserve(id, parameters.amount, None).0;
    lemma_reserve_effect(state, parameters);
    let made = reserved.reservations.last().1;
    crate::vec_map::lemma_lookup_push(state.reservations, id, made, id.id);
    assert(reserved.reservations == state.reservations.push((id, made)));
    assert(lookup(reserved.reservations, id.id) == Some(made));
    lemma_unreserve_effect(reserved, id, parameters.amount, None);
    let rounded = made.currency_pair_metadata.spec_round_amount(parameters.amount).unwrap();
    let part = made.spec_unreserve_part(None, rounded).0;
    lemma_remove_pushed(state.reservations, id, made);
    assert(spec_request_of(made)@ == key_of(made));
    if next.reservations == reserved.reservations {
        assert(false);
    } else if next.reservations == spec_remove(reserved.reservations, id.id) && (forall|key: RequestId| #[trigger]
        tree_value(next.reserved, key) == tree_value(reserved.reserved, key) - if key == spec_request_of(made)@ {
            made.unreserved_amount@
        } else {
            0
        }) {
        assert forall|key: RequestId| #[trigger]
            tree_value(next.reserved, key) == tree_value(state.reserved, key) by {
            assert(tree_value(reserved.reserved, key) == tree_value(state.reserved, key) + reserved_share(made, key));
        }
    } else {
        let left = choose|left: Decimal|
            next.reservations == spec_insert(
                reserved.reservations,
                id,
                ReservationView { unreserved_amount: left, ..part },
            );
        lemma_lookup_insert(
            reserved.reservations,
            id,
            ReservationView { unreserved_amount: left, ..part },
            id.id,
        );
        assert(false);
    }
}

/// What one side of a transfer that succeeds has done to the reservations:
/// every other reservation is as it was, and the one of that side, if it is
/// still there, has reserved exactly the new amount.
pub proof fn lemma_transfer_side(
    state: ManagerView,
    reservation_id: ReservationId,
    new_unreserved_amount: Decimal,
    client_order_id: Option<ClientOrderId>,
    is_src_request: bool,
    target_cost_diff: Decimal,
    now: DateTime,
    other: u64,
)
    requires
        distinct(state.reservations),
        state.spec_update_unreserved_amount_for_transfer(
            reservation_id,
            new_unreserved_amount,
            client_order_id,
            is_src_request,
            target_cost_diff,
            now,
        ).1 is Ok,
    ensures
        ({
            let next = state.spec_update_unreserved_amount_for_transfer(
                reservation_id,
                new_unreserved_amount,
                client_order_id,
                is_src_request,
                target_cost_diff,
                now,
            ).0;
            &&& distinct(next.reservations)
            &&& lookup(state.reservations, reservation_id.id) is Some
            &&& (other != reservation_id.id ==> lookup(next.reservations, other) == lookup(state.reservations, other))
            &&& match lookup(next.reservations, reservation_id.id) {
                Some(reservation) => reservation.unreserved_amount@ == new_unreserved_amount@,
                None => true,
            }
        }),
{
    let reservation = lookup(state.reservations, reservation_id.id).unwrap();
    let diff = new_unreserved_amount.spec_exact_sub(reservation.unreserved_amount).unwrap();
    let moved = reservation.spec_move_amount(client_order_id, diff, is_src_request, now).0;
    assert(moved.unreserved_amount == reservation.unreserved_amount);
    let start = state.spec_with_reservation(reservation_id, moved);
    let request = spec_request_of(moved);
    lemma_lookup_insert(state.reservations, reservation_id, moved, reservation_id.id);
    lemma_lookup_insert(state.reservations, reservation_id, moved, other);
    lemma_distinct_insert(state.reservations, reservation_id, moved);
    let plan = start.spec_plan_reserved(request, moved, diff, false).unwrap();
    lemma_plan_reserved(start, request, moved, diff, false);
    let kept = ReservationView { unreserved_amount: plan.unreserved_amount, ..moved };
    let added = start.spec_commit(plan).spec_with_reservation(reservation_id, kept);
    assert(added == start.spec_add_reserved_amount(request, reservation_id, diff, false).0);
    lemma_lookup_insert(start.reservations, reservation_id, kept, reservation_id.id);
    lemma_lookup_insert(start.reservations, reservation_id, kept, other);
    lemma_distinct_insert(start.reservations, reservation_id, kept);
    assert(lookup(added.reservations, reservation_id.id) == Some(kept));
    let cost_diff = if is_src_request {
        kept.spec_proportional_cost(diff).unwrap()
    } else {
        target_cost_diff
    };
    let paid = added.spec_add_virtual_balance(
        request,
        kept.currency_pair_metadata,
        cost_diff.spec_neg(),
        kept.price,
    ).0;
    assert(paid.reservations == added.reservations);
    let cost = kept.cost.spec_add(cost_diff).unwrap();
    let amount = kept.amount.spec_exact_add(diff).unwrap();
    if kept.spec_within_margin(new_unreserved_amount) {
        lemma_distinct_remove(paid.reservations, reservation_id.id);
        if other != reservation_id.id {
            lemma_lookup_removed(paid.reservations, reservation_id.id, other);
        }
    } else {
        let settled = ReservationView { cost, amount, ..kept };
        lemma_lookup_insert(paid.reservations, reservation_id, settled, reservation_id.id);
        lemma_lookup_insert(paid.reservations, reservation_id, settled, other);
        lemma_distinct_insert(paid.reservations, reservation_id, settled);
    }
}

/// A transfer that succeeds could be taken under `lemma_transfer_side`
/// twice: each of its two sides succeeded.
pub proof fn lemma_transfer_amount(
    state: ManagerView,
    src_reservation_id: ReservationId,
    dst_reservation_id: ReservationId,
    amount_to_move: Decimal,
    client_order_id: Option<ClientOrderId>,
    now: DateTime,
)
    requires
        distinct(state.reservations),
        src_reservation_id.id != dst_reservation_id.id,
        state.spec_transfer_amount(src_reservation_id, dst_reservation_id, amount_to_move, client_order_id, now).1
            is Ok,
    ensures
        ({
            let next = state.spec_transfer_amount(
                src_reservation_id,
                dst_reservation_id,
                amount_to_move,
                client_order_id,
                now,
            ).0;
            &&& lookup(state.reservations, src_reservation_id.id) matches Some(src)
            &&& lookup(state.reservations, dst_reservation_id.id) matches Some(dst)
            &&& match lookup(next.reservations, src_reservation_id.id) {
                Some(src_after) => src_after.unreserved_amount@ == src.unreserved_amount@ - amount_to_move@,
                None => true,
            }
            &&& match lookup(next.reservations, dst_reservation_id.id) {
                Some(dst_after) => dst_after.unreserved_amount@ == dst.unreserved_amount@ + amount_to_move@,
                None => true,
            }
        }),
{
    let src = lookup(state.reservations, src_reservation_id.id).unwrap();
    let new_src = src.unreserved_amount.spec_exact_sub(amount_to_move).unwrap();
    let (after_src, src_result) = state.spec_update_unreserved_amount_for_transfer(
        src_reservation_id,
        new_src,
        client_order_id,
        true,
        Decimal::spec_zero(),
        now,
    );
    lemma_transfer_side(
        state,
        src_reservation_id,
        new_src,
        client_order_id,
        true,
        Decimal::spec_zero(),
        now,
        dst_reservation_id.id,
    );
    let src_cost_diff = src_result.unwrap();
    let dst = lookup(after_src.reservations, dst_reservation_id.id).unwrap();
    let new_dst = dst.unreserved_amount.spec_exact_add(amount_to_move).unwrap();
    lemma_transfer_side(
        after_src,
        dst_reservation_id,
        new_dst,
        client_order_id,
        false,
        src_cost_diff.spec_neg(),
        now,
        src_reservation_id.id,
    );
}

/// A transfer conserves what the two reservations have reserved together:
/// where both are still in the store afterwards, the source has reserved
/// less by what the target has reserved more. (The store holds no
/// identifier twice.)
pub proof fn law_transfer_conserves_reserved(
    state: ManagerView,
    src_reservation_id: ReservationId,
    dst_reservation_id: ReservationId,
    amount: Decimal,
    client_order_id: Option<ClientOrderId>,
    now: DateTime,
)
    requires
        distinct(state.reservations),
        src_reservation_id.id != dst_reservation_id.id,
        state.spec_try_transfer_reservation(src_reservation_id, dst_reservation_id, amount, client_order_id, now).1
            == Ok::<bool, crate::errors::BalanceError>(true),
    ensures
        ({
            let next = state.spec_try_transfer_reservation(
                src_reservation_id,
                dst_reservation_id,
                amount,
                client_order_id,
                now,
            ).0;
            &&& lookup(state.reservations, src_reservation_id.id) matches Some(src)
            &&& lookup(state.reservations, dst_reservation_id.id) matches Some(dst)
            &&& match (
                lookup(next.reservations, src_reservation_id.id),
                lookup(next.reservations, dst_reservation_id.id),
            ) {
                (Some(src_after), Some(dst_after)) => src_after.unreserved_amount@ + dst_after.unreserved_amount@
                    == src.unreserved_amount@ + dst.unreserved_amount@,
                _ => true,
            }
        }),
{
    let src = lookup(state.reservations, src_reservation_id.id).unwrap();
    let dst = lookup(state.reservations, dst_reservation_id.id).unwrap();
    let amount_to_move = src.currency_pair_metadata.spec_round_amount(amount).unwrap();
    let affordable = if src.price@ != dst.price@ && src.currency_pair_metadata.is_derivative {
        state.spec_transfer_affordable(src, dst, amount_to_move)
    } else {
        Ok(true)
    };
    assert(affordable == Ok::<bool, crate::errors::BalanceError>(true));
    assert(state.spec_transfer_amount(
        src_reservation_id,
        dst_reservation_id,
        amount_to_move,
        client_order_id,
        now,
    ).1 is Ok);
    lemma_transfer_amount(state, src_reservation_id, dst_reservation_id, amount_to_move, client_order_id, now);
    let moved = state.spec_transfer_amount(
        src_reservation_id,
        dst_reservation_id,
        amount_to_move,
        client_order_id,
        now,
    ).0;
    let next = state.spec_try_transfer_reservation(
        src_reservation_id,
        dst_reservation_id,
        amount,
        client_order_id,
        now,
    ).0;
    assert(next == moved);
    match (lookup(next.reservations, src_reservation_id.id), lookup(next.reservations, dst_reservation_id.id)) {
        (Some(src_after), Some(dst_after)) => {
            assert(src_after.unreserved_amount@ == src.unreserved_amount@ - amount_to_move@);
            assert(dst_after.unreserved_amount@ == dst.unreserved_amount@ + amount_to_move@);
        },
        _ => {},
    }
}

/// One side of a transfer keeps every reservation balanced, unless it
/// drops a part of the order with something left in it, within the margin.
pub proof fn lemma_transfer_side_balanced(
    state: ManagerView,
    reservation_id: ReservationId,
    new_unreserved_amount: Decimal,
    client_order_id: Option<ClientOrderId>,
    is_src_request: bool,
    target_cost_diff: Decimal,
    now: DateTime,
)
    requires
        all_balanced(state.reservations),
        state.spec_update_unreserved_amount_for_transfer(
            reservation_id,
            new_unreserved_amount,
            client_order_id,
            is_src_request,
            target_cost_diff,
            now,
        ).1 is Ok,
        lookup(state.reservations, reservation_id.id) matches Some(reservation) ==> !loses_on_move(
            reservation,
            client_order_id,
            new_unreserved_amount.spec_exact_sub(reservation.unreserved_amount).unwrap(),
        ),
    ensures
        all_balanced(
            state.spec_update_unreserved_amount_for_transfer(
                reservation_id,
                new_unreserved_amount,
                client_order_id,
                is_src_request,
                target_cost_diff,
                now,
            ).0.reservations,
        ),
{
    let reservation = lookup(state.reservations, reservation_id.id).unwrap();
    lemma_balanced_lookup(state.reservations, reservation_id.id);
    let diff = new_unreserved_amount.spec_exact_sub(reservation.unreserved_amount).unwrap();
    let moved = reservation.spec_move_amount(client_order_id, diff, is_src_request, now).0;
    law_move_amount_adds(reservation, client_order_id, diff, is_src_request, now);
    let start = state.spec_with_reservation(reservation_id, moved);
    let request = spec_request_of(moved);
    lemma_lookup_insert(state.reservations, reservation_id, moved, reservation_id.id);
    let plan = start.spec_plan_reserved(request, moved, diff, false).unwrap();
    lemma_plan_reserved(start, request, moved, diff, false);
    let kept = ReservationView { unreserved_amount: plan.unreserved_amount, ..moved };
    assert(kept.balanced());
    let added = start.spec_commit(plan).spec_with_reservation(reservation_id, kept);
    assert(added == start.spec_add_reserved_amount(request, reservation_id, diff, false).0);
    lemma_balanced_replace(state.reservations, reservation_id, moved, kept);
    lemma_lookup_insert(start.reservations, reservation_id, kept, reservation_id.id);
    let cost_diff = if is_src_request {
        kept.spec_proportional_cost(diff).unwrap()
    } else {
        target_cost_diff
    };
    let paid = added.spec_add_virtual_balance(
        request,
        kept.currency_pair_metadata,
        cost_diff.spec_neg(),
        kept.price,
    ).0;
    assert(paid.reservations == added.reservations);
    let cost = kept.cost.spec_add(cost_diff).unwrap();
    let amount = kept.amount.spec_exact_add(diff).unwrap();
    if kept.spec_within_margin(new_unreserved_amount) {
        lemma_balanced_remove(paid.reservations, reservation_id.id);
    } else {
        let settled = ReservationView { cost, amount, ..kept };
        assert(settled.balanced());
        lemma_balanced_insert(paid.reservations, reservation_id, settled);
    }
}

/// Whether a transfer drops a part of the order, at its source or at its
/// target, with something left in it, within the margin.
pub open spec fn transfer_drops_part(
    state: ManagerView,
    src_reservation_id: ReservationId,
    dst_reservation_id: ReservationId,
    amount: Decimal,
    client_order_id: Option<ClientOrderId>,
) -> bool {
    match (lookup(state.reservations, src_reservation_id.id), lookup(state.reservations, dst_reservation_id.id)) {
        (Some(src), Some(dst)) => match src.currency_pair_metadata.spec_round_amount(amount) {
            Some(moved) => loses_on_move(src, client_order_id, moved.spec_neg()) || loses_on_move(
                dst,
                client_order_id,
                moved,
            ),
            None => false,
        },
        _ => false,
    }
}

/// A transfer that succeeds keeps every reservation balanced, unless it
/// drops a part of the order with something left in it, within the margin.
/// A transfer that names no order drops none. (The store holds no
/// identifier twice.)
pub proof fn law_transfer_keeps_reservations_balanced(
    state: ManagerView,
    src_reservation_id: ReservationId,
    dst_reservation_id: ReservationId,
    amount: Decimal,
    client_order_id: Option<ClientOrderId>,
    now: DateTime,
)
    requires
        all_balanced(state.reservations),
        distinct(state.reservations),
        src_reservation_id.id != dst_reservation_id.id,
        state.spec_try_transfer_reservation(src_reservation_id, dst_reservation_id, amount, client_order_id, now).1
            is Ok,
        !transfer_drops_part(state, src_reservation_id, dst_reservation_id, amount, client_order_id),
    ensures
        all_balanced(
            state.spec_try_transfer_reservation(
                src_reservation_id,
                dst_reservation_id,
                amount,
                client_order_id,
                now,
            ).0.reservations,
        ),
        client_order_id is None ==> !transfer_drops_part(
            state,
            src_reservation_id,
            dst_reservation_id,
            amount,
            client_order_id,
        ),
{
    let next = state.spec_try_transfer_reservation(
        src_reservation_id,
        dst_reservation_id,
        amount,
        client_order_id,
        now,
    ).0;
    if next != state {
        let src = lookup(state.reservations, src_reservation_id.id).unwrap();
        let dst = lookup(state.reservations, dst_reservation_id.id).unwrap();
        let amount_to_move = src.currency_pair_metadata.spec_round_amount(amount).unwrap();
        src.currency_pair_metadata.amount_precision.lemma_rounded_wf(amount, Round::ToNearest);
        amount_to_move.lemma_neg();
        let new_src = src.unreserved_amount.spec_exact_sub(amount_to_move).unwrap();
        let (after_src, src_result) = state.spec_update_unreserved_amount_for_transfer(
            src_reservation_id,
            new_src,
            client_order_id,
            true,
            Decimal::spec_zero(),
            now,
        );
        assert(next == state.spec_transfer_amount(
            src_reservation_id,
            dst_reservation_id,
            amount_to_move,
            client_order_id,
            now,
        ).0);
        let src_diff = new_src.spec_exact_sub(src.unreserved_amount).unwrap();
        assert(src_diff@ == amount_to_move.spec_neg()@);
        lemma_transfer_side_balanced(
            state,
            src_reservation_id,
            new_src,
            client_order_id,
            true,
            Decimal::spec_zero(),
            now,
        );
        lemma_transfer_side(
            state,
            src_reservation_id,
            new_src,
            client_order_id,
            true,
            Decimal::spec_zero(),
            now,
            dst_reservation_id.id,
        );
        assert(lookup(after_src.reservations, dst_reservation_id.id) == Some(dst));
        let new_dst = dst.unreserved_amount.spec_exact_add(amount_to_move).unwrap();
        let dst_diff = new_dst.spec_exact_sub(dst.unreserved_amount).unwrap();
        assert(dst_diff@ == amount_to_move@);
        lemma_transfer_side_balanced(
            after_src,
            dst_reservation_id,
            new_dst,
            client_order_id,
            false,
            src_result.unwrap().spec_neg(),
            now,
        );
    }
}

/// A change of price keeps every reservation balanced if the reservation
/// has reserved its whole amount and its canceled parts hold nothing: the
/// not approved amount is set to the amount less what is left of the parts
/// that were not canceled, whatever was given back before.
pub proof fn law_repricing_keeps_reservations_balanced(
    state: ManagerView,
    reservation_id: ReservationId,
    new_price: Decimal,
)
    requires
        all_balanced(state.reservations),
        state.spec_try_update_reservation_price(reservation_id, new_price).1,
        lookup(state.reservations, reservation_id.id) matches Some(reservation) ==> reservation.amount@
            == reservation.unreserved_amount@ && canceled_hold_nothing(reservation.approved_parts),
    ensures
        all_balanced(state.spec_try_update_reservation_price(reservation_id, new_price).0.reservations),
{
    let reservation = lookup(state.reservations, reservation_id.id).unwrap();
    let change = state.spec_price_change(reservation, new_price).unwrap();
    lemma_active_sum(reservation.approved_parts);
    lemma_active_is_all(reservation.approved_parts);
    let repriced = ReservationView { price: new_price, unreserved_amount: change.lowered, ..reservation };
    let plan = state.spec_plan_reserved(spec_request_of(reservation), repriced, change.diff, true).unwrap();
    lemma_plan_reserved(state, spec_request_of(reservation), repriced, change.diff, true);
    let settled = ReservationView {
        unreserved_amount: plan.unreserved_amount,
        not_approved_amount: change.rest,
        ..repriced
    };
    assert(settled.balanced());
    lemma_commit_reserved(state, plan, spec_request_of(reservation)@);
    lemma_balanced_insert(state.reservations, reservation_id, settled);
}

/// Putting in the place of a reservation one that counts under the same
/// request and has reserved the same leaves every total as it was.
pub proof fn lemma_reserved_total_same_share(
    reservations: Reservations,
    key: ReservationId,
    reservation: ReservationView,
    request: RequestId,
)
    requires
        lookup(reservations, key.id) matches Some(before) && key_of(before) == key_of(reservation)
            && before.unreserved_amount@ == reservation.unreserved_amount@,
    ensures
        reserved_total(spec_insert(reservations, key, reservation), request) == reserved_total(reservations, request),
{
    lemma_first_index(reservations, key.id);
    let index = first_index(reservations, key.id);
    lemma_reserved_total_update(reservations, index, (reservations[index].0, reservation), request);
}

/// Approving a part of a reservation keeps the tree of reserved amounts in
/// step with the reservations, whether it succeeds or not.
pub proof fn law_approval_keeps_in_step(
    state: ManagerView,
    reservation_id: ReservationId,
    client_order_id: ClientOrderId,
    amount: Decimal,
    now: DateTime,
)
    requires
        in_step(state),
    ensures
        in_step(state.spec_approve_reservation(reservation_id, client_order_id, amount, now).0),
{
    let next = state.spec_approve_reservation(reservation_id, client_order_id, amount, now).0;
    match lookup(state.reservations, reservation_id.id) {
        None => {},
        Some(reservation) => {
            let approved = reservation.spec_approve(client_order_id, amount, now).0;
            assert forall|key: RequestId| #[trigger]
                tree_value(next.reserved, key) == reserved_total(next.reservations, key) by {
                lemma_reserved_total_same_share(state.reservations, reservation_id, approved, key);
                assert(tree_value(state.reserved, key) == reserved_total(state.reservations, key));
            }
        },
    }
}

/// Canceling a part of a reservation keeps the tree of reserved amounts in
/// step with the reservations, whether it succeeds or not.
pub proof fn law_cancellation_keeps_in_step(
    state: ManagerView,
    reservation_id: ReservationId,
    client_order_id: ClientOrderId,
)
    requires
        in_step(state),
    ensures
        in_step(state.spec_cancel_approved_reservation(reservation_id, client_order_id).0),
{
    let next = state.spec_cancel_approved_reservation(reservation_id, client_order_id).0;
    match lookup(state.reservations, reservation_id.id) {
        None => {},
        Some(reservation) => {
            let canceled = reservation.spec_cancel(client_order_id).0;
            assert forall|key: RequestId| #[trigger]
                tree_value(next.reserved, key) == reserved_total(next.reservations, key) by {
                lemma_reserved_total_same_share(state.reservations, reservation_id, canceled, key);
                assert(tree_value(state.reserved, key) == reserved_total(state.reservations, key));
            }
        },
    }
}

/// Making a reservation keeps the identifiers in the store distinct: the
/// new identifier, the one after the last that was handed out, was not in
/// the store before.
pub proof fn law_reserving_keeps_identifiers_distinct(state: ManagerView, parameters: ReserveParameters)
    requires
        distinct(state.reservations),
        state.spec_try_reserve(parameters).1 is Some,
    ensures
        distinct(state.spec_try_reserve(parameters).0.reservations),
        state.spec_try_reserve(parameters).1.unwrap().id == state.reservation_id.id + 1,
        state.spec_try_reserve(parameters).0.reservation_id == state.spec_try_reserve(parameters).1.unwrap(),
{
    lemma_reserve_effect(state, parameters);
    let next = state.spec_try_reserve(parameters).0;
    crate::vec_map::lemma_distinct_kept(
        state.reservations,
        0,
        next.reservations.last().0,
        next.reservations.last().1,
    );
}

/// An unreserve keeps the identifiers in the store distinct.
pub proof fn law_unreserving_keeps_identifiers_distinct(
    state: ManagerView,
    reservation_id: ReservationId,
    amount: Decimal,
    client_order_id: Option<ClientOrderId>,
)
    requires
        distinct(state.reservations),
        state.spec_unreserve(reservation_id, amount, client_order_id).1 is Ok,
    ensures
        distinct(state.spec_unreserve(reservation_id, amount, client_order_id).0.reservations),
{
    let next = state.spec_unreserve(reservation_id, amount, client_order_id).0;
    match lookup(state.reservations, reservation_id.id) {
        None => {},
        Some(reservation) => {
            lemma_unreserve_effect(state, reservation_id, amount, client_order_id);
            lemma_distinct_remove(state.reservations, reservation_id.id);
            let rounded = reservation.currency_pair_metadata.spec_round_amount(amount).unwrap();
            let part = reservation.spec_unreserve_part(client_order_id, rounded).0;
            if next.reservations == state.reservations {
            } else if next.reservations == spec_remove(state.reservations, reservation_id.id) {
            } else {
                let left = choose|left: Decimal|
                    next.reservations == spec_insert(
                        state.reservations,
                        reservation_id,
                        ReservationView { unreserved_amount: left, ..part },
                    );
                lemma_distinct_insert(
                    state.reservations,
                    reservation_id,
                    ReservationView { unreserved_amount: left, ..part },
                );
            }
        },
    }
}

/// Approving and canceling keep the identifiers in the store distinct.
pub proof fn law_approval_keeps_identifiers_distinct(
    state: ManagerView,
    reservation_id: ReservationId,
    client_order_id: ClientOrderId,
    amount: Decimal,
    now: DateTime,
)
    requires
        distinct(state.reservations),
    ensures
        distinct(state.spec_approve_reservation(reservation_id, client_order_id, amount, now).0.reservations),
        distinct(state.spec_cancel_approved_reservation(reservation_id, client_order_id).0.reservations),
{
    match lookup(state.reservations, reservation_id.id) {
        None => {},
        Some(reservation) => {
            lemma_distinct_insert(
                state.reservations,
                reservation_id,
                reservation.spec_approve(client_order_id, amount, now).0,
            );
            lemma_distinct_insert(state.reservations, reservation_id, reservation.spec_cancel(client_order_id).0);
        },
    }
}

/// A transfer that succeeds keeps the identifiers in the store distinct.
pub proof fn law_transfer_keeps_identifiers_distinct(
    state: ManagerView,
    src_reservation_id: ReservationId,
    dst_reservation_id: ReservationId,
    amount: Decimal,
    client_order_id: Option<ClientOrderId>,
    now: DateTime,
)
    requires
        distinct(state.reservations),
        state.spec_try_transfer_reservation(src_reservation_id, dst_reservation_id, amount, client_order_id, now).1
            is Ok,
    ensures
        distinct(
            state.spec_try_transfer_reservation(
                src_reservation_id,
                dst_reservation_id,
                amount,
                client_order_id,
                now,
            ).0.reservations,
        ),
{
    let next = state.spec_try_transfer_reservation(
        src_reservation_id,
        dst_reservation_id,
        amount,
        client_order_id,
        now,
    ).0;
    if next != state {
        let src = lookup(state.reservations, src_reservation_id.id).unwrap();
        let amount_to_move = src.currency_pair_metadata.spec_round_amount(amount).unwrap();
        let new_src = src.unreserved_amount.spec_exact_sub(amount_to_move).unwrap();
        let (after_src, src_result) = state.spec_update_unreserved_amount_for_transfer(
            src_reservation_id,
            new_src,
            client_order_id,
            true,
            Decimal::spec_zero(),
            now,
        );
        assert(next == state.spec_transfer_amount(
            src_reservation_id,
            dst_reservation_id,
            amount_to_move,
            client_order_id,
            now,
        ).0);
        lemma_transfer_side(
            state,
            src_reservation_id,
            new_src,
            client_order_id,
            true,
            Decimal::spec_zero(),
            now,
            dst_reservation_id.id,
        );
        let dst = lookup(after_src.reservations, dst_reservation_id.id).unwrap();
        let new_dst = dst.unreserved_amount.spec_exact_add(amount_to_move).unwrap();
        lemma_transfer_side(
            after_src,
            dst_reservation_id,
            new_dst,
            client_order_id,
            false,
            src_result.unwrap().spec_neg(),
            now,
            src_reservation_id.id,
        );
    }
}

/// A change of price keeps the identifiers in the store distinct.
pub proof fn law_repricing_keeps_identifiers_distinct(state: ManagerView, reservation_id: ReservationId, new_price: Decimal)
    requires
        distinct(state.reservations),
    ensures
        distinct(state.spec_try_update_reservation_price(reservation_id, new_price).0.reservations),
{
    let next = state.spec_try_update_reservation_price(reservation_id, new_price).0;
    if next != state {
        let reservation = lookup(state.reservations, reservation_id.id).unwrap();
        let change = state.spec_price_change(reservation, new_price).unwrap();
        let repriced = ReservationView { price: new_price, unreserved_amount: change.lowered, ..reservation };
        let plan = state.spec_plan_reserved(spec_request_of(reservation), repriced, change.diff, true).unwrap();
        let settled = ReservationView {
            unreserved_amount: plan.unreserved_amount,
            not_approved_amount: change.rest,
            ..repriced
        };
        lemma_commit_reserved(state, plan, spec_request_of(reservation)@);
        lemma_distinct_insert(state.reservations, reservation_id, settled);
    }
}

/// What a transfer leaves in the store has reserved more than nothing: a
/// side that is left with less than nothing beyond the margin is refused,
/// and one that is left within the margin of nothing leaves the store.
pub proof fn law_transfer_leaves_nothing_empty(
    state: ManagerView,
    reservation_id: ReservationId,
    new_unreserved_amount: Decimal,
    client_order_id: Option<ClientOrderId>,
    is_src_request: bool,
    target_cost_diff: Decimal,
    now: DateTime,
)
    requires
        distinct(state.reservations),
        state.spec_update_unreserved_amount_for_transfer(
            reservation_id,
            new_unreserved_amount,
            client_order_id,
            is_src_request,
            target_cost_diff,
            now,
        ).1 is Ok,
    ensures
        match lookup(
            state.spec_update_unreserved_amount_for_transfer(
                reservation_id,
                new_unreserved_amount,
                client_order_id,
                is_src_request,
                target_cost_diff,
                now,
            ).0.reservations,
            reservation_id.id,
        ) {
            Some(reservation) => reservation.unreserved_amount@ == new_unreserved_amount@ && new_unreserved_amount@
                >= 0 && !reservation.spec_within_margin(new_unreserved_amount),
            None => lookup(state.reservations, reservation_id.id).unwrap().spec_within_margin(new_unreserved_amount),
        },
{
    let reservation = lookup(state.reservations, reservation_id.id).unwrap();
    let diff = new_unreserved_amount.spec_exact_sub(reservation.unreserved_amount).unwrap();
    let moved = reservation.spec_move_amount(client_order_id, diff, is_src_request, now).0;
    assert(moved.currency_pair_metadata == reservation.currency_pair_metadata);
    let start = state.spec_with_reservation(reservation_id, moved);
    let request = spec_request_of(moved);
    lemma_lookup_insert(state.reservations, reservation_id, moved, reservation_id.id);
    lemma_distinct_insert(state.reservations, reservation_id, moved);
    let plan = start.spec_plan_reserved(request, moved, diff, false).unwrap();
    lemma_plan_reserved(start, request, moved, diff, false);
    let kept = ReservationView { unreserved_amount: plan.unreserved_amount, ..moved };
    let added = start.spec_commit(plan).spec_with_reservation(reservation_id, kept);
    assert(added == start.spec_add_reserved_amount(request, reservation_id, diff, false).0);
    lemma_lookup_insert(start.reservations, reservation_id, kept, reservation_id.id);
    lemma_distinct_insert(start.reservations, reservation_id, kept);
    let cost_diff = if is_src_request {
        kept.spec_proportional_cost(diff).unwrap()
    } else {
        target_cost_diff
    };
    let paid = added.spec_add_virtual_balance(
        request,
        kept.currency_pair_metadata,
        cost_diff.spec_neg(),
        kept.price,
    ).0;
    assert(paid.reservations == added.reservations);
    let cost = kept.cost.spec_add(cost_diff).unwrap();
    let amount = kept.amount.spec_exact_add(diff).unwrap();
    if kept.spec_within_margin(new_unreserved_amount) {
        lemma_distinct_remove(paid.reservations, reservation_id.id);
    } else {
        let settled = ReservationView { cost, amount, ..kept };
        lemma_lookup_insert(paid.reservations, reservation_id, settled, reservation_id.id);
    }
}

/// Putting a reservation in the place of another changes the total of a key
/// by the difference of the two shares.
pub proof fn lemma_reserved_total_insert(
    reservations: Reservations,
    reservation_id: ReservationId,
    reservation: ReservationView,
    key: RequestId,
)
    requires
        lookup(reservations, reservation_id.id) is Some,
    ensures
        reserved_total(spec_insert(reservations, reservation_id, reservation), key) == reserved_total(
            reservations,
            key,
        ) - reserved_share(lookup(reservations, reservation_id.id).unwrap(), key) + reserved_share(reservation, key),
{
    lemma_first_index(reservations, reservation_id.id);
    let index = first_index(reservations, reservation_id.id);
    lemma_reserved_total_update(reservations, index, (reservations[index].0, reservation), key);
}

/// Whether a side of a transfer that is left with `left` stays in the store,
/// or leaves it with exactly nothing.
pub open spec fn settles(reservation: ReservationView, left: Decimal) -> bool {
    reservation.spec_within_margin(left) ==> left@ == 0
}

/// One side of a transfer keeps the tree of reserved amounts in step with
/// the reservations, unless the reservation leaves the store with something
/// left in it, within the margin: the tree then keeps what was left.
pub proof fn law_transfer_side_keeps_in_step(
    state: ManagerView,
    reservation_id: ReservationId,
    new_unreserved_amount: Decimal,
    client_order_id: Option<ClientOrderId>,
    is_src_request: bool,
    target_cost_diff: Decimal,
    now: DateTime,
)
    requires
        in_step(state),
        state.spec_update_unreserved_amount_for_transfer(
            reservation_id,
            new_unreserved_amount,
            client_order_id,
            is_src_request,
            target_cost_diff,
            now,
        ).1 is Ok,
        lookup(state.reservations, reservation_id.id) matches Some(reservation) ==> pays_with_side_currency(
            reservation,
        ) && settles(reservation, new_unreserved_amount),
    ensures
        in_step(
            state.spec_update_unreserved_amount_for_transfer(
                reservation_id,
                new_unreserved_amount,
                client_order_id,
                is_src_request,
                target_cost_diff,
                now,
            ).0,
        ),
{
    let next = state.spec_update_unreserved_amount_for_transfer(
        reservation_id,
        new_unreserved_amount,
        client_order_id,
        is_src_request,
        target_cost_diff,
        now,
    ).0;
    let reservation = lookup(state.reservations, reservation_id.id).unwrap();
    let diff = new_unreserved_amount.spec_exact_sub(reservation.unreserved_amount).unwrap();
    let moved = reservation.spec_move_amount(client_order_id, diff, is_src_request, now).0;
    assert(moved.unreserved_amount == reservation.unreserved_amount);
    assert(key_of(moved) == key_of(reservation));
    let start = state.spec_with_reservation(reservation_id, moved);
    let request = spec_request_of(moved);
    lemma_lookup_insert(state.reservations, reservation_id, moved, reservation_id.id);
    let plan = start.spec_plan_reserved(request, moved, diff, false).unwrap();
    lemma_plan_reserved(start, request, moved, diff, false);
    let kept = ReservationView { unreserved_amount: plan.unreserved_amount, ..moved };
    let added = start.spec_commit(plan).spec_with_reservation(reservation_id, kept);
    assert(added == start.spec_add_reserved_amount(request, reservation_id, diff, false).0);
    lemma_lookup_insert(start.reservations, reservation_id, kept, reservation_id.id);
    assert(lookup(added.reservations, reservation_id.id) == Some(kept));
    assert(key_of(kept) == key_of(reservation));
    assert(plan.reserved_request@ == key_of(reservation));
    let cost_diff = if is_src_request {
        kept.spec_proportional_cost(diff).unwrap()
    } else {
        target_cost_diff
    };
    let paid = added.spec_add_virtual_balance(
        request,
        kept.currency_pair_metadata,
        cost_diff.spec_neg(),
        kept.price,
    ).0;
    assert(paid.reservations == added.reservations);
    assert(paid.reserved == added.reserved);
    let cost = kept.cost.spec_add(cost_diff).unwrap();
    let amount = kept.amount.spec_exact_add(diff).unwrap();
    let settled = ReservationView { cost, amount, ..kept };
    assert(key_of(settled) == key_of(reservation));
    assert(next.reserved == added.reserved);
    assert forall|key: RequestId| #[trigger]
        tree_value(next.reserved, key) == reserved_total(next.reservations, key) by {
        assert(tree_value(state.reserved, key) == reserved_total(state.reservations, key));
        lemma_commit_reserved(start, plan, key);
        lemma_reserved_total_insert(state.reservations, reservation_id, moved, key);
        lemma_reserved_total_insert(start.reservations, reservation_id, kept, key);
        if kept.spec_within_margin(new_unreserved_amount) {
            lemma_first_index(paid.reservations, reservation_id.id);
            lemma_reserved_total_remove(paid.reservations, first_index(paid.reservations, reservation_id.id), key);
        } else {
            lemma_reserved_total_insert(paid.reservations, reservation_id, settled, key);
        }
    }
}

/// A transfer keeps the tree of reserved amounts in step with the
/// reservations, unless one of the two leaves the store with something left
/// in it, within the margin. (The store holds no identifier twice.)
pub proof fn law_transfer_keeps_in_step(
    state: ManagerView,
    src_reservation_id: ReservationId,
    dst_reservation_id: ReservationId,
    amount: Decimal,
    client_order_id: Option<ClientOrderId>,
    now: DateTime,
)
    requires
        in_step(state),
        distinct(state.reservations),
        src_reservation_id.id != dst_reservation_id.id,
        state.spec_try_transfer_reservation(src_reservation_id, dst_reservation_id, amount, client_order_id, now).1
            == Ok::<bool, crate::errors::BalanceError>(true),
        ({
            let src = lookup(state.reservations, src_reservation_id.id).unwrap();
            let dst = lookup(state.reservations, dst_reservation_id.id).unwrap();
            let amount_to_move = src.currency_pair_metadata.spec_round_amount(amount).unwrap();
            &&& pays_with_side_currency(src)
            &&& pays_with_side_currency(dst)
            &&& settles(src, src.unreserved_amount.spec_exact_sub(amount_to_move).unwrap())
            &&& settles(dst, dst.unreserved_amount.spec_exact_add(amount_to_move).unwrap())
        }),
    ensures
        in_step(
            state.spec_try_transfer_reservation(
                src_reservation_id,
                dst_reservation_id,
                amount,
                client_order_id,
                now,
            ).0,
        ),
{
    let src = lookup(state.reservations, src_reservation_id.id).unwrap();
    let dst = lookup(state.reservations, dst_reservation_id.id).unwrap();
    let amount_to_move = src.currency_pair_metadata.spec_round_amount(amount).unwrap();
    let affordable = if src.price@ != dst.price@ && src.currency_pair_metadata.is_derivative {
        state.spec_transfer_affordable(src, dst, amount_to_move)
    } else {
        Ok(true)
    };
    assert(affordable == Ok::<bool, crate::errors::BalanceError>(true));
    assert(state.spec_transfer_amount(
        src_reservation_id,
        dst_reservation_id,
        amount_to_move,
        client_order_id,
        now,
    ).1 is Ok);
    let new_src = src.unreserved_amount.spec_exact_sub(amount_to_move).unwrap();
    let (after_src, src_result) = state.spec_update_unreserved_amount_for_transfer(
        src_reservation_id,
        new_src,
        client_order_id,
        true,
        Decimal::spec_zero(),
        now,
    );
    lemma_transfer_side(
        state,
        src_reservation_id,
        new_src,
        client_order_id,
        true,
        Decimal::spec_zero(),
        now,
        dst_reservation_id.id,
    );
    law_transfer_side_keeps_in_step(
        state,
        src_reservation_id,
        new_src,
        client_order_id,
        true,
        Decimal::spec_zero(),
        now,
    );
    let src_cost_diff = src_result.unwrap();
    assert(lookup(after_src.reservations, dst_reservation_id.id) == Some(dst));
    let new_dst = dst.unreserved_amount.spec_exact_add(amount_to_move).unwrap();
    law_transfer_side_keeps_in_step(
        after_src,
        dst_reservation_id,
        new_dst,
        client_order_id,
        false,
        src_cost_diff.spec_neg(),
        now,
    );
}

/// What the laws take for granted of a state: no identifier, request or
/// currency of an account occurs twice, in no reservation an order has two
/// approved parts, and every reservation is in the currency that its side
/// pays with.
pub open spec fn valid(state: ManagerView) -> bool {
    &&& distinct(state.reservations)
    &&& distinct(state.reserved)
    &&& distinct(state.limits)
    &&& distinct(state.holder.raw)
    &&& distinct(state.holder.diffs)
    &&& forall|i: int|
        0 <= i < state.reservations.len() ==> distinct((#[trigger] state.reservations[i]).1.approved_parts)
            && pays_with_side_currency(state.reservations[i].1)
}

/// The state of a well-formed manager is valid. Every operation of the
/// manager keeps it well-formed.
pub proof fn law_well_formed_is_valid(manager: BalanceReservationManager)
    requires
        manager.wf(),
    ensures
        valid(manager@),
{
}

/// In a valid state a reservation that was taken out of the store is found
/// no more.
pub proof fn law_removed_is_gone(state: ManagerView, reservation_id: ReservationId)
    requires
        valid(state),
    ensures
        lookup(spec_remove(state.reservations, reservation_id.id), reservation_id.id) is None,
{
    lemma_first_index(state.reservations, reservation_id.id);
    if present(state.reservations, reservation_id.id) {
        crate::vec_map::lemma_lookup_remove(
            state.reservations,
            first_index(state.reservations, reservation_id.id),
            reservation_id.id,
        );
    }
}

/// A fill that cannot be accounted for changes nothing: neither the
/// balance nor the position is written, and nothing is reported.
pub proof fn law_failed_fill_changes_nothing(
    state: ManagerView,
    trade_side: crate::common::OrderSide,
    client_order_fill_id: Option<crate::common::ClientOrderFillId>,
    fill_amount: Decimal,
    price: Decimal,
    configuration_descriptor: crate::common::ConfigurationDescriptor,
    exchange_account_id: crate::common::ExchangeAccountId,
    currency_pair_metadata: crate::currency_pair_metadata::CurrencyPairMetadata,
    currency_code: crate::common::CurrencyCode,
    change_amount: Decimal,
    now: DateTime,
)
    ensures
        ({
            let (next, change, result) = state.spec_handle_position_fill_amount_change(
                trade_side,
                client_order_fill_id,
                fill_amount,
                price,
                configuration_descriptor,
                exchange_account_id,
                currency_pair_metadata,
                currency_code,
                change_amount,
                now,
            );
            result is Err ==> next == state && change == change_amount
        }),
{
}

/// Where not all of several reservations can be made, none is: the state
/// is the one from before.
pub proof fn law_giving_up_changes_nothing(state: ManagerView, parameters: Seq<ReserveParameters>)
    ensures
        ({
            let (next, made, ids) = state.spec_try_reserve_multiple(parameters);
            !made ==> next == state && ids.len() == 0
        }),
{
}

/// What one side of a transfer does to the tree of reserved amounts: under
/// the request of the reservation it gains what the reservation is to have
/// reserved more than it had, whether the reservation stays in the store
/// or leaves it; every other request keeps its number.
pub proof fn lemma_transfer_side_tree(
    state: ManagerView,
    reservation_id: ReservationId,
    new_unreserved_amount: Decimal,
    client_order_id: Option<ClientOrderId>,
    is_src_request: bool,
    target_cost_diff: Decimal,
    now: DateTime,
    key: RequestId,
)
    requires
        state.spec_update_unreserved_amount_for_transfer(
            reservation_id,
            new_unreserved_amount,
            client_order_id,
            is_src_request,
            target_cost_diff,
            now,
        ).1 is Ok,
        lookup(state.reservations, reservation_id.id) matches Some(reservation) ==> pays_with_side_currency(
            reservation,
        ),
    ensures
        ({
            let next = state.spec_update_unreserved_amount_for_transfer(
                reservation_id,
                new_unreserved_amount,
                client_order_id,
                is_src_request,
                target_cost_diff,
                now,
            ).0;
            let reservation = lookup(state.reservations, reservation_id.id).unwrap();
            tree_value(next.reserved, key) == tree_value(state.reserved, key) + if key == key_of(reservation) {
                new_unreserved_amount@ - reservation.unreserved_amount@
            } else {
                0
            }
        }),
{
    let reservation = lookup(state.reservations, reservation_id.id).unwrap();
    let diff = new_unreserved_amount.spec_exact_sub(reservation.unreserved_amount).unwrap();
    let moved = reservation.spec_move_amount(client_order_id, diff, is_src_request, now).0;
    assert(moved.unreserved_amount == reservation.unreserved_amount);
    assert(key_of(moved) == key_of(reservation));
    let start = state.spec_with_reservation(reservation_id, moved);
    let request = spec_request_of(moved);
    lemma_lookup_insert(state.reservations, reservation_id, moved, reservation_id.id);
    let plan = start.spec_plan_reserved(request, moved, diff, false).unwrap();
    lemma_plan_reserved(start, request, moved, diff, false);
    let kept = ReservationView { unreserved_amount: plan.unreserved_amount, ..moved };
    let added = start.spec_commit(plan).spec_with_reservation(reservation_id, kept);
    assert(added == start.spec_add_reserved_amount(request, reservation_id, diff, false).0);
    lemma_lookup_insert(start.reservations, reservation_id, kept, reservation_id.id);
    assert(plan.reserved_request@ == key_of(reservation));
    let cost_diff = if is_src_request {
        kept.spec_proportional_cost(diff).unwrap()
    } else {
        target_cost_diff
    };
    let paid = added.spec_add_virtual_balance(
        request,
        kept.currency_pair_metadata,
        cost_diff.spec_neg(),
        kept.price,
    ).0;
    assert(paid.reserved == added.reserved);
    lemma_commit_reserved(start, plan, key);
}

/// A transfer leaves the tree of reserved amounts with the numbers that it
/// had: under the request that the two reservations share, what the source
/// gives up the target takes, whether they stay in the store or leave it.
/// (The store holds no identifier twice.)
pub proof fn law_transfer_keeps_reserved_tree(
    state: ManagerView,
    src_reservation_id: ReservationId,
    dst_reservation_id: ReservationId,
    amount: Decimal,
    client_order_id: Option<ClientOrderId>,
    now: DateTime,
    key: RequestId,
)
    requires
        distinct(state.reservations),
        src_reservation_id.id != dst_reservation_id.id,
        state.spec_try_transfer_reservation(src_reservation_id, dst_reservation_id, amount, client_order_id, now).1
            == Ok::<bool, crate::errors::BalanceError>(true),
        lookup(state.reservations, src_reservation_id.id) matches Some(src) ==> pays_with_side_currency(src),
        lookup(state.reservations, dst_reservation_id.id) matches Some(dst) ==> pays_with_side_currency(dst),
    ensures
        tree_value(
            state.spec_try_transfer_reservation(
                src_reservation_id,
                dst_reservation_id,
                amount,
                client_order_id,
                now,
            ).0.reserved,
            key,
        ) == tree_value(state.reserved, key),
{
    let src = lookup(state.reservations, src_reservation_id.id).unwrap();
    let dst = lookup(state.reservations, dst_reservation_id.id).unwrap();
    let amount_to_move = src.currency_pair_metadata.spec_round_amount(amount).unwrap();
    let affordable = if src.price@ != dst.price@ && src.currency_pair_metadata.is_derivative {
        state.spec_transfer_affordable(src, dst, amount_to_move)
    } else {
        Ok(true)
    };
    assert(affordable == Ok::<bool, crate::errors::BalanceError>(true));
    assert(state.spec_transfer_amount(
        src_reservation_id,
        dst_reservation_id,
        amount_to_move,
        client_order_id,
        now,
    ).1 is Ok);
    let new_src = src.unreserved_amount.spec_exact_sub(amount_to_move).unwrap();
    let (after_src, src_result) = state.spec_update_unreserved_amount_for_transfer(
        src_reservation_id,
        new_src,
        client_order_id,
        true,
        Decimal::spec_zero(),
        now,
    );
    lemma_transfer_side(
        state,
        src_reservation_id,
        new_src,
        client_order_id,
        true,
        Decimal::spec_zero(),
        now,
        dst_reservation_id.id,
    );
    lemma_transfer_side_tree(
        state,
        src_reservation_id,
        new_src,
        client_order_id,
        true,
        Decimal::spec_zero(),
        now,
        key,
    );
    let src_cost_diff = src_result.unwrap();
    assert(lookup(after_src.reservations, dst_reservation_id.id) == Some(dst));
    let new_dst = dst.unreserved_amount.spec_exact_add(amount_to_move).unwrap();
    lemma_transfer_side_tree(
        after_src,
        dst_reservation_id,
        new_dst,
        client_order_id,
        false,
        src_cost_diff.spec_neg(),
        now,
        key,
    );
    assert(key_of(src) == key_of(dst));
}

} // verus!
