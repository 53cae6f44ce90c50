//! What holds of a reservation whatever is done to it: the amount that no
//! order was approved for and what is left of the approved parts add up to
//! what the reservation has reserved.
//!
//! The laws are about the numbers that the decimals stand for. They hold
//! because a sum or difference is handed out only where it is exact.

use crate::balance_reservation::{parts_total, ApprovedPart, ApprovedParts, ReservationView};
use crate::common::{ClientOrderId, DateTime};
use crate::decimal::Decimal;
use crate::vec_map::{first_index, lemma_first_index, lookup, present};
use vstd::prelude::*;

verus! {

/// What an approved part adds to the total of the parts: what is left of
/// it.
pub open spec fn part_share(part: ApprovedPart) -> int {
    part.unreserved_amount@
}

/// A part added at the end adds its share to the total.
pub proof fn lemma_total_push(parts: ApprovedParts, entry: (ClientOrderId, ApprovedPart))
    ensures
        parts_total(parts.push(entry)) == parts_total(parts) + part_share(entry.1),
{
    assert(parts.push(entry).drop_last() =~= parts);
}

/// A part replaced in its place changes the total by the difference of the
/// shares.
pub proof fn lemma_total_update(parts: ApprovedParts, index: int, entry: (ClientOrderId, ApprovedPart))
    requires
        0 <= index < parts.len(),
    ensures
        parts_total(parts.update(index, entry)) == parts_total(parts) - part_share(parts[index].1) + part_share(
            entry.1,
        ),
    decreases parts.len(),
{
    let updated = parts.update(index, entry);
    if index == parts.len() - 1 {
        assert(updated.drop_last() =~= parts.drop_last());
    } else {
        assert(updated.drop_last() =~= parts.drop_last().update(index, entry));
        lemma_total_update(parts.drop_last(), index, entry);
    }
}

/// A part taken out takes its share out of the total.
pub proof fn lemma_total_remove(parts: ApprovedParts, index: int)
    requires
        0 <= index < parts.len(),
    ensures
        parts_total(parts.remove(index)) == parts_total(parts) - part_share(parts[index].1),
    decreases parts.len(),
{
    let removed = parts.remove(index);
    if index == parts.len() - 1 {
        assert(removed =~= parts.drop_last());
    } else {
        assert(removed.drop_last() =~= parts.drop_last().remove(index));
        assert(removed.last() == parts.last());
        lemma_total_remove(parts.drop_last(), index);
    }
}

/// An approval that succeeds keeps a reservation balanced: what the new
/// part holds is what the not approved amount lost.
pub proof fn law_approve_keeps_balance(
    reservation: ReservationView,
    client_order_id: ClientOrderId,
    amount: Decimal,
    now: DateTime,
)
    requires
        reservation.balanced(),
        reservation.spec_approve(client_order_id, amount, now).1 is Ok,
    ensures
        reservation.spec_approve(client_order_id, amount, now).0.balanced(),
{
    if !present(reservation.approved_parts, client_order_id@) {
        lemma_total_push(
            reservation.approved_parts,
            (client_order_id, ApprovedPart::spec_new(now, client_order_id, amount)),
        );
    }
}

/// A cancellation that succeeds keeps a reservation balanced: what was left
/// of the part is moved to the not approved amount, and the part holds
/// nothing.
pub proof fn law_cancel_keeps_balance(reservation: ReservationView, client_order_id: ClientOrderId)
    requires
        reservation.balanced(),
        reservation.spec_cancel(client_order_id).1 is Ok,
    ensures
        reservation.spec_cancel(client_order_id).0.balanced(),
{
    let parts = reservation.approved_parts;
    lemma_first_index(parts, client_order_id@);
    if present(parts, client_order_id@) {
        let index = first_index(parts, client_order_id@);
        let part = parts[index].1;
        Decimal::lemma_constants(0);
        lemma_total_update(
            parts,
            index,
            (parts[index].0, ApprovedPart { is_canceled: true, unreserved_amount: Decimal::spec_zero(), ..part }),
        );
    }
}

/// What a cancellation that finds a part to cancel does: the part is marked
/// and holds nothing, the not approved amount has gained what the part
/// held, and what is reserved is as it was.
pub proof fn law_cancel_moves_amount(reservation: ReservationView, client_order_id: ClientOrderId)
    requires
        lookup(reservation.approved_parts, client_order_id@) matches Some(part) && !part.is_canceled,
        reservation.spec_cancel(client_order_id).1 is Ok,
    ensures
        ({
            let next = reservation.spec_cancel(client_order_id).0;
            let part = lookup(reservation.approved_parts, client_order_id@).unwrap();
            &&& lookup(next.approved_parts, client_order_id@) matches Some(canceled) && canceled.is_canceled
                && canceled.unreserved_amount@ == 0 && canceled.amount == part.amount
            &&& next.not_approved_amount@ == reservation.not_approved_amount@ + part.unreserved_amount@
            &&& next.unreserved_amount == reservation.unreserved_amount
        }),
{
    let part = lookup(reservation.approved_parts, client_order_id@).unwrap();
    Decimal::lemma_constants(0);
    crate::vec_map::lemma_lookup_insert(
        reservation.approved_parts,
        client_order_id,
        ApprovedPart { is_canceled: true, unreserved_amount: Decimal::spec_zero(), ..part },
        client_order_id@,
    );
}

/// After a cancellation, an unreserve that names the canceled order fails
/// for every amount above zero: the part holds nothing to take it from.
pub proof fn law_unreserve_of_canceled_part_fails(
    reservation: ReservationView,
    client_order_id: ClientOrderId,
    amount: Decimal,
)
    requires
        lookup(reservation.approved_parts, client_order_id@) matches Some(part) && !part.is_canceled,
        reservation.spec_cancel(client_order_id).1 is Ok,
        amount@ > 0,
    ensures
        reservation.spec_cancel(client_order_id).0.spec_unreserve_part(Some(client_order_id), amount).1 is Err,
{
    law_cancel_moves_amount(reservation, client_order_id);
}

/// Taking an amount out of a reservation's parts takes exactly that amount
/// out of the sum of the not approved amount and the parts.
pub proof fn law_unreserve_part_takes_amount(
    reservation: ReservationView,
    client_order_id: Option<ClientOrderId>,
    amount: Decimal,
)
    requires
        reservation.spec_unreserve_part(client_order_id, amount).1 is Ok,
    ensures
        ({
            let next = reservation.spec_unreserve_part(client_order_id, amount).0;
            next.not_approved_amount@ + parts_total(next.approved_parts) == reservation.not_approved_amount@
                + parts_total(reservation.approved_parts) - amount@
        }),
        reservation.spec_unreserve_part(client_order_id, amount).0.unreserved_amount
            == reservation.unreserved_amount,
{
    match client_order_id {
        Some(id) => {
            let parts = reservation.approved_parts;
            lemma_first_index(parts, id@);
            if present(parts, id@) {
                let index = first_index(parts, id@);
                let part = parts[index].1;
                let rest = part.unreserved_amount.spec_exact_sub(amount).unwrap();
                lemma_total_update(parts, index, (parts[index].0, ApprovedPart { unreserved_amount: rest, ..part }));
            }
        },
        None => {},
    }
}

/// Whether a move of `diff` into the part of an order drops that part with
/// something left in it, within the margin.
pub open spec fn loses_on_move(reservation: ReservationView, client_order_id: Option<ClientOrderId>, diff: Decimal) -> bool {
    match client_order_id {
        Some(id) => match lookup(reservation.approved_parts, id@) {
            Some(part) => {
                let left = part.unreserved_amount@ + diff@;
                left != 0 && -reservation.currency_pair_metadata.spec_amount_tick()@ <= left
                    <= reservation.currency_pair_metadata.spec_amount_tick()@
            },
            None => false,
        },
        None => false,
    }
}

/// Moving an amount into a reservation for a transfer adds exactly that
/// amount to the sum of the not approved amount and the parts, unless a
/// part is dropped with something left in it, within the margin.
pub proof fn law_move_amount_adds(
    reservation: ReservationView,
    client_order_id: Option<ClientOrderId>,
    diff: Decimal,
    is_src: bool,
    now: DateTime,
)
    requires
        reservation.spec_move_amount(client_order_id, diff, is_src, now).1 is Ok,
        !loses_on_move(reservation, client_order_id, diff),
    ensures
        ({
            let next = reservation.spec_move_amount(client_order_id, diff, is_src, now).0;
            next.not_approved_amount@ + parts_total(next.approved_parts) == reservation.not_approved_amount@
                + parts_total(reservation.approved_parts) + diff@
        }),
        reservation.spec_move_amount(client_order_id, diff, is_src, now).0.unreserved_amount
            == reservation.unreserved_amount,
{
    match client_order_id {
        Some(id) => {
            let parts = reservation.approved_parts;
            lemma_first_index(parts, id@);
            if present(parts, id@) {
                let index = first_index(parts, id@);
                let part = parts[index].1;
                let left = part.unreserved_amount.spec_exact_add(diff).unwrap();
                part.unreserved_amount.law_sums_are_exact(diff);
                if reservation.spec_within_margin(left) {
                    lemma_total_remove(parts, index);
                } else {
                    let total = part.amount.spec_exact_add(diff).unwrap();
                    lemma_total_update(
                        parts,
                        index,
                        (parts[index].0, ApprovedPart { unreserved_amount: left, amount: total, ..part }),
                    );
                }
            } else {
                lemma_total_push(parts, (id, ApprovedPart::spec_new(now, id, diff)));
            }
        },
        None => {},
    }
}

} // verus!
