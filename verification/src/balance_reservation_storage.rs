//! The live reservations, by identifier.

use crate::balance_reservation::{pays_with_side_currency, BalanceReservation, ReservationView};
use crate::common::ReservationId;
use crate::vec_map::{distinct, first_index, lemma_distinct_insert, lemma_distinct_remove, lemma_first_index, lemma_first_index_same_keys, lookup, spec_insert, spec_remove, VecMap};
use vstd::prelude::*;

verus! {

/// The reservations of a store as contracts see them, in the order in which
/// they were added.
pub type Reservations = Seq<(ReservationId, ReservationView)>;

/// The live reservations, by identifier.
#[derive(Debug)]
pub struct BalanceReservationStorage {
    pub reservations: VecMap<ReservationId, BalanceReservation>,
}

impl View for BalanceReservationStorage {
    type V = Reservations;

    open spec fn view(&self) -> Reservations {
        Seq::new(
            self.reservations.entries@.len(),
            |i: int| (self.reservations.entries@[i].0, self.reservations.entries@[i].1@),
        )
    }
}

impl BalanceReservationStorage {
    /// No identifier occurs twice; in no reservation an order has two
    /// approved parts, and every reservation is in the currency that its
    /// side pays with.
    pub open spec fn wf(&self) -> bool {
        &&& distinct(self@)
        &&& forall|i: int|
            0 <= i < self@.len() ==> distinct((#[trigger] self@[i]).1.approved_parts) && pays_with_side_currency(
                self@[i].1,
            )
    }

    /// The empty store.
    pub fn new() -> (r: Self)
        ensures
            r@ == Reservations::empty(),
            r.wf(),
    {
        let r = BalanceReservationStorage { reservations: VecMap::new() };
        assert(r@ =~= Reservations::empty());
        r
    }

    /// The number of reservations.
    pub fn len(&self) -> (r: usize)
        ensures
            r == self@.len(),
    {
        self.reservations.entries.len()
    }

    /// The index of the reservation with the identifier, the number of
    /// reservations where there is none.
    pub fn position(&self, reservation_id: ReservationId) -> (r: usize)
        ensures
            r == first_index(self@, reservation_id.id),
            r <= self@.len(),
            r < self@.len() ==> lookup(self@, reservation_id.id) == Some(self@[r as int].1),
            r == self@.len() ==> lookup(self@, reservation_id.id) is None,
    {
        proof {
            lemma_first_index_same_keys(self.reservations.entries@, self@, reservation_id.id);
        }
        self.reservations.position(&reservation_id)
    }

    /// The reservation at an index.
    pub fn at(&self, index: usize) -> (r: &BalanceReservation)
        requires
            index < self@.len(),
        ensures
            r@ == self@[index as int].1,
    {
        &self.reservations.entries[index].1
    }

    /// Puts the reservation in the place of the one at an index.
    pub fn replace(&mut self, index: usize, reservation: BalanceReservation)
        requires
            index < old(self)@.len(),
        ensures
            final(self)@ == old(self)@.update(index as int, (old(self)@[index as int].0, reservation@)),
            old(self).wf() && reservation.wf() ==> final(self).wf(),
    {
        self.reservations.entries[index].1 = reservation;
        assert(self@ =~= old(self)@.update(index as int, (old(self)@[index as int].0, reservation@)));
    }

    /// Adds a reservation under an identifier, in place of the one that was
    /// there or as the last one.
    pub fn add(&mut self, reservation_id: ReservationId, reservation: BalanceReservation)
        ensures
            final(self)@ == spec_insert(old(self)@, reservation_id, reservation@),
            old(self).wf() && reservation.wf() ==> final(self).wf(),
    {
        proof {
            lemma_first_index_same_keys(self.reservations.entries@, self@, reservation_id.id);
            lemma_first_index(self@, reservation_id.id);
            if old(self).wf() {
                lemma_distinct_insert(self@, reservation_id, reservation@);
            }
        }
        self.reservations.insert(reservation_id, reservation);
        assert(self@ =~= spec_insert(old(self)@, reservation_id, reservation@));
    }

    /// Takes the reservation with the identifier out of the store.
    pub fn remove(&mut self, reservation_id: ReservationId) -> (r: Option<BalanceReservation>)
        ensures
            final(self)@ == spec_remove(old(self)@, reservation_id.id),
            match r {
                Some(reservation) => lookup(old(self)@, reservation_id.id) == Some(reservation@),
                None => lookup(old(self)@, reservation_id.id) is None,
            },
            old(self).wf() ==> final(self).wf() && lookup(final(self)@, reservation_id.id) is None,
    {
        proof {
            lemma_first_index_same_keys(self.reservations.entries@, self@, reservation_id.id);
            lemma_first_index(self@, reservation_id.id);
            if old(self).wf() {
                lemma_distinct_remove(self@, reservation_id.id);
                if first_index(self@, reservation_id.id) < self@.len() {
                    crate::vec_map::lemma_lookup_remove(
                        self@,
                        first_index(self@, reservation_id.id),
                        reservation_id.id,
                    );
                }
            }
        }
        let r = self.reservations.remove(&reservation_id);
        assert(self@ =~= spec_remove(old(self)@, reservation_id.id));
        r
    }

    /// The reservation with the identifier.
    pub fn try_get(&self, reservation_id: ReservationId) -> (r: Option<&BalanceReservation>)
        ensures
            match r {
                Some(reservation) => lookup(self@, reservation_id.id) == Some(reservation@),
                None => lookup(self@, reservation_id.id) is None,
            },
    {
        let i = self.position(reservation_id);
        if i < self.reservations.entries.len() {
            Some(&self.reservations.entries[i].1)
        } else {
            None
        }
    }

    /// The reservation with the identifier, to be changed in place.
    pub fn try_get_mut(&mut self, reservation_id: ReservationId) -> (r: Option<&mut BalanceReservation>)
        ensures
            match r {
                Some(reservation) => lookup(old(self)@, reservation_id.id) == Some(reservation@) && final(self)@
                    =~= spec_insert(old(self)@, reservation_id, final(reservation)@),
                None => lookup(old(self)@, reservation_id.id) is None && final(self)@ == old(self)@,
            },
            old(self).wf() && (r matches Some(reservation) ==> final(reservation).wf()) ==> final(self).wf(),
            old(self).wf() ==> (r matches Some(reservation) ==> reservation.wf()),
    {
        let i = self.position(reservation_id);
        if i < self.reservations.entries.len() {
            Some(&mut self.reservations.entries[i].1)
        } else {
            None
        }
    }

    /// All reservations, in the order in which they were added.
    pub fn get_all_raw_reservations(&self) -> (r: &VecMap<ReservationId, BalanceReservation>)
        ensures
            *r == self.reservations,
    {
        &self.reservations
    }

    /// The identifiers of all reservations, in the order in which they were
    /// added.
    pub fn get_reservation_ids(&self) -> (r: Vec<ReservationId>)
        ensures
            r@.len() == self@.len(),
            forall|i: int| 0 <= i < r@.len() ==> r@[i] == self@[i].0,
    {
        let mut ids: Vec<ReservationId> = Vec::new();
        let mut i: usize = 0;
        while i < self.reservations.entries.len()
            invariant
                i <= self.reservations.entries@.len(),
                ids@.len() == i,
                forall|j: int| 0 <= j < i ==> ids@[j] == self.reservations.entries@[j].0,
            decreases self.reservations.entries@.len() - i,
        {
            ids.push(self.reservations.entries[i].0);
            i = i + 1;
        }
        ids
    }

    /// Removes every reservation.
    pub fn clear(&mut self)
        ensures
            final(self)@ == Reservations::empty(),
            final(self).wf(),
    {
        self.reservations.clear();
        assert(self@ =~= Reservations::empty());
    }
}

impl Clone for BalanceReservationStorage {
    fn clone(&self) -> (r: Self)
        ensures
            r@ == self@,
    {
        let mut reservations: VecMap<ReservationId, BalanceReservation> = VecMap::new();
        let mut i: usize = 0;
        while i < self.reservations.entries.len()
            invariant
                i <= self.reservations.entries@.len(),
                reservations.entries@.len() == i,
                forall|j: int|
                    0 <= j < i ==> (#[trigger] reservations.entries@[j]).0 == self.reservations.entries@[j].0
                        && reservations.entries@[j].1@ == self.reservations.entries@[j].1@,
            decreases self.reservations.entries@.len() - i,
        {
            let id = self.reservations.entries[i].0;
            let reservation = self.reservations.entries[i].1.clone();
            reservations.entries.push((id, reservation));
            i = i + 1;
        }
        let r = BalanceReservationStorage { reservations };
        assert(r@ =~= self@);
        r
    }
}

} // verus!
