//! The position that fills have built up in each market, and the history of
//! the changes made by fills.
//!
//! The history is kept in the order of time: a change older than the last one
//! recorded is refused. The last change before a moment is found by bisecting
//! the history for the moment and walking back to the market asked for.

use crate::common::{ClientOrderFillId, CurrencyPair, DateTime, ExchangeAccountId, TradePlaceAccount};
use crate::decimal::Decimal;
use crate::errors::BalanceError;
use crate::vec_map::{lookup, spec_insert, Key, VecMap};
use vstd::prelude::*;

verus! {

/// A change of position: the fill that made it, and when.
#[derive(Debug)]
pub struct PositionChange {
    pub client_order_fill_id: ClientOrderFillId,
    pub change_time: DateTime,
}

impl Clone for PositionChange {
    fn clone(&self) -> (r: Self)
        ensures
            r == *self,
    {
        PositionChange {
            client_order_fill_id: self.client_order_fill_id.clone(),
            change_time: self.change_time,
        }
    }
}

impl PositionChange {
    /// The change made by the fill `client_order_fill_id` at `change_time`.
    pub fn new(client_order_fill_id: ClientOrderFillId, change_time: DateTime) -> (r: Self)
        ensures
            r == (PositionChange { client_order_fill_id, change_time }),
    {
        PositionChange { client_order_fill_id, change_time }
    }
}

/// A change of position in a market.
#[derive(Debug)]
pub struct PositionRecord {
    pub trade_place: TradePlaceAccount,
    pub change: PositionChange,
}

impl Clone for PositionRecord {
    fn clone(&self) -> (r: Self)
        ensures
            r == *self,
    {
        PositionRecord { trade_place: self.trade_place.clone(), change: self.change.clone() }
    }
}

/// The positions by market.
pub type Positions = Seq<(TradePlaceAccount, Decimal)>;

/// Positions and history as contracts see them.
pub struct PositionsView {
    pub positions: Positions,
    pub changes: Seq<PositionRecord>,
}

/// No change is older than one before it.
pub open spec fn time_ordered(changes: Seq<PositionRecord>) -> bool {
    forall|i: int, j: int|
        0 <= i <= j < changes.len() ==> (#[trigger] changes[i]).change.change_time <= (
        #[trigger] changes[j]).change.change_time
}

/// Whether a record is a change in the market `trade_place` made no later
/// than `moment`.
pub open spec fn is_change_before(record: PositionRecord, trade_place: ((Seq<char>, u8), Seq<char>), moment: DateTime) -> bool {
    record.trade_place@ == trade_place && record.change.change_time <= moment
}

/// The index of the last change in the market `trade_place` made no later
/// than `moment`, -1 where there is none.
pub open spec fn last_index_before(
    changes: Seq<PositionRecord>,
    trade_place: ((Seq<char>, u8), Seq<char>),
    moment: DateTime,
) -> int
    decreases changes.len(),
{
    if changes.len() == 0 {
        -1
    } else if is_change_before(changes.last(), trade_place, moment) {
        changes.len() - 1
    } else {
        last_index_before(changes.drop_last(), trade_place, moment)
    }
}

/// An index after which no record is a change before the moment is the last
/// such index, if its own record is one, or if it is -1.
pub proof fn lemma_last_index_before(
    changes: Seq<PositionRecord>,
    trade_place: ((Seq<char>, u8), Seq<char>),
    moment: DateTime,
    index: int,
)
    requires
        -1 <= index < changes.len(),
        index >= 0 ==> is_change_before(changes[index], trade_place, moment),
        forall|j: int| index < j < changes.len() ==> !is_change_before(#[trigger] changes[j], trade_place, moment),
    ensures
        last_index_before(changes, trade_place, moment) == index,
    decreases changes.len(),
{
    if changes.len() > 0 {
        if index < changes.len() - 1 {
            let shorter = changes.drop_last();
            assert(!is_change_before(changes[changes.len() - 1], trade_place, moment));
            assert forall|j: int| index < j < shorter.len() implies !is_change_before(
                #[trigger] shorter[j],
                trade_place,
                moment,
            ) by {
                assert(shorter[j] == changes[j]);
            }
            if index >= 0 {
                assert(shorter[index] == changes[index]);
            }
            lemma_last_index_before(shorter, trade_place, moment, index);
        }
    }
}

impl PositionsView {
    /// The last change in a market made no later than a moment.
    pub open spec fn spec_last_change_before(self, trade_place: ((Seq<char>, u8), Seq<char>), moment: DateTime) -> Option<
        PositionChange,
    > {
        let index = last_index_before(self.changes, trade_place, moment);
        if index >= 0 {
            Some(self.changes[index].change)
        } else {
            None
        }
    }

    /// Replaces the position of a market, given the position that the caller
    /// believes it to have, and records the change where a fill is named.
    ///
    /// Nothing changes, and the result is an error, where `previous` is not
    /// the current position (by value, or both absent), and where a fill is
    /// named at a time before the last change recorded.
    pub open spec fn spec_set(
        self,
        trade_place: TradePlaceAccount,
        previous: Option<Decimal>,
        position: Decimal,
        client_order_fill_id: Option<ClientOrderFillId>,
        now: DateTime,
    ) -> (PositionsView, Result<(), BalanceError>) {
        let agrees = match (previous, lookup(self.positions, trade_place@)) {
            (None, None) => true,
            (Some(p), Some(c)) => p@ == c@,
            _ => false,
        };
        if !agrees {
            (self, Err(BalanceError::PositionMismatch))
        } else {
            match client_order_fill_id {
                None => (
                    PositionsView { positions: spec_insert(self.positions, trade_place, position), ..self },
                    Ok(()),
                ),
                Some(id) => if self.changes.len() > 0 && self.changes.last().change.change_time > now {
                    (self, Err(BalanceError::TimeWentBack))
                } else {
                    (
                        PositionsView {
                            positions: spec_insert(self.positions, trade_place, position),
                            changes: self.changes.push(
                                PositionRecord {
                                    trade_place,
                                    change: PositionChange { client_order_fill_id: id, change_time: now },
                                },
                            ),
                        },
                        Ok(()),
                    )
                },
            }
        }
    }

    /// Adds `diff` to the position of a market, which starts at zero, and
    /// records the change where a fill is named.
    pub open spec fn spec_increase(
        self,
        trade_place: TradePlaceAccount,
        diff: Decimal,
        client_order_fill_id: Option<ClientOrderFillId>,
        now: DateTime,
    ) -> (PositionsView, Result<(), BalanceError>) {
        let current = lookup(self.positions, trade_place@);
        let start = match current {
            Some(position) => position,
            None => Decimal::spec_zero(),
        };
        match start.spec_exact_add(diff) {
            None => (self, Err(BalanceError::Arithmetic)),
            Some(total) => self.spec_set(trade_place, current, total, client_order_fill_id, now),
        }
    }
}

/// The position that fills have built up in each market, with the history of
/// the changes.
#[derive(Debug)]
pub struct BalancePositionByFillAmount {
    pub positions: VecMap<TradePlaceAccount, Decimal>,
    pub changes: Vec<PositionRecord>,
}

impl View for BalancePositionByFillAmount {
    type V = PositionsView;

    open spec fn view(&self) -> PositionsView {
        PositionsView { positions: self.positions.entries@, changes: self.changes@ }
    }
}

impl BalancePositionByFillAmount {
    /// The history is in the order of time.
    pub open spec fn wf(&self) -> bool {
        time_ordered(self.changes@)
    }

    /// No positions and no history.
    pub fn new() -> (r: Self)
        ensures
            r@ == (PositionsView { positions: Seq::empty(), changes: Seq::empty() }),
            r.wf(),
    {
        BalancePositionByFillAmount { positions: VecMap::new(), changes: Vec::new() }
    }

    /// The tracker with the given positions and history; `None` where the
    /// history is not in the order of time.
    pub fn from_parts(positions: VecMap<TradePlaceAccount, Decimal>, changes: Vec<PositionRecord>) -> (r: Option<
        Self,
    >)
        ensures
            r is Some <==> time_ordered(changes@),
            r matches Some(tracker) ==> tracker.wf() && tracker@ == (PositionsView {
                positions: positions.entries@,
                changes: changes@,
            }),
    {
        let mut i: usize = 1;
        while i < changes.len()
            invariant
                1 <= i,
                forall|a: int, b: int|
                    0 <= a <= b < i && b < changes@.len() ==> (#[trigger] changes@[a]).change.change_time <= (
                    #[trigger] changes@[b]).change.change_time,
            decreases changes@.len() - i,
        {
            if changes[i - 1].change.change_time > changes[i].change.change_time {
                return None;
            }
            i = i + 1;
        }
        Some(BalancePositionByFillAmount { positions, changes })
    }

    /// The positions by market.
    pub fn positions(&self) -> (r: &VecMap<TradePlaceAccount, Decimal>)
        ensures
            r.entries@ == self@.positions,
    {
        &self.positions
    }

    /// The history of changes, oldest first.
    pub fn changes(&self) -> (r: &Vec<PositionRecord>)
        ensures
            r@ == self@.changes,
    {
        &self.changes
    }

    /// The position of a market.
    pub fn get(&self, exchange_account_id: &ExchangeAccountId, currency_pair: &CurrencyPair) -> (r: Option<Decimal>)
        ensures
            r == lookup(self@.positions, (exchange_account_id@, currency_pair@)),
    {
        let key = TradePlaceAccount::new(exchange_account_id.clone(), currency_pair.clone());
        match self.positions.get(&key) {
            Some(position) => Some(*position),
            None => None,
        }
    }

    /// Replaces the position of a market, given the position that the caller
    /// believes it to have, and records the change where a fill is named.
    pub fn set(
        &mut self,
        exchange_account_id: &ExchangeAccountId,
        currency_pair: &CurrencyPair,
        previous_position: Option<Decimal>,
        new_position: Decimal,
        client_order_fill_id: Option<ClientOrderFillId>,
        now: DateTime,
    ) -> (r: Result<(), BalanceError>)
        ensures
            (final(self)@, r) == old(self)@.spec_set(
                TradePlaceAccount { exchange_account_id: *exchange_account_id, currency_pair: *currency_pair },
                previous_position,
                new_position,
                client_order_fill_id,
                now,
            ),
            old(self).wf() ==> final(self).wf(),
    {
        let key = TradePlaceAccount::new(exchange_account_id.clone(), currency_pair.clone());
        let agrees = match (previous_position, self.positions.get(&key)) {
            (None, None) => true,
            (Some(p), Some(c)) => p.equals(c),
            _ => false,
        };
        if !agrees {
            return Err(BalanceError::PositionMismatch);
        }
        match client_order_fill_id {
            None => {
                self.positions.insert(key, new_position);
                Ok(())
            },
            Some(id) => {
                let n = self.changes.len();
                if n > 0 && self.changes[n - 1].change.change_time > now {
                    return Err(BalanceError::TimeWentBack);
                }
                let record = PositionRecord { trade_place: key.clone(), change: PositionChange::new(id, now) };
                self.positions.insert(key, new_position);
                self.changes.push(record);
                Ok(())
            },
        }
    }

    /// Adds `value_to_add` to the position of a market, which starts at
    /// zero, and records the change where a fill is named.
    pub fn add(
        &mut self,
        exchange_account_id: &ExchangeAccountId,
        currency_pair: &CurrencyPair,
        value_to_add: Decimal,
        client_order_fill_id: Option<ClientOrderFillId>,
        now: DateTime,
    ) -> (r: Result<(), BalanceError>)
        ensures
            (final(self)@, r) == old(self)@.spec_increase(
                TradePlaceAccount { exchange_account_id: *exchange_account_id, currency_pair: *currency_pair },
                value_to_add,
                client_order_fill_id,
                now,
            ),
            old(self).wf() ==> final(self).wf(),
    {
        let current = self.get(exchange_account_id, currency_pair);
        let start = match current {
            Some(position) => position,
            None => Decimal::zero(),
        };
        match start.exact_add(value_to_add) {
            None => Err(BalanceError::Arithmetic),
            Some(total) => self.set(exchange_account_id, currency_pair, current, total, client_order_fill_id, now),
        }
    }

    /// The last change in a market made no later than the start of a period.
    pub fn get_last_position_change_before_period(&self, trade_place: &TradePlaceAccount, start_of_period: DateTime) -> (r:
        Option<PositionChange>)
        requires
            self.wf(),
        ensures
            r == self@.spec_last_change_before(trade_place@, start_of_period),
    {
        let mut low: usize = 0;
        let mut high: usize = self.changes.len();
        while low < high
            invariant
                low <= high <= self.changes@.len(),
                time_ordered(self.changes@),
                forall|i: int| 0 <= i < low ==> (#[trigger] self.changes@[i]).change.change_time <= start_of_period,
                forall|i: int|
                    high <= i < self.changes@.len() ==> (#[trigger] self.changes@[i]).change.change_time
                        > start_of_period,
            decreases high - low,
        {
            let middle = low + (high - low) / 2;
            if self.changes[middle].change.change_time <= start_of_period {
                low = middle + 1;
            } else {
                high = middle;
            }
        }
        let mut i: usize = low;
        while i > 0
            invariant
                i <= low <= self.changes@.len(),
                forall|j: int| 0 <= j < low ==> (#[trigger] self.changes@[j]).change.change_time <= start_of_period,
                forall|j: int|
                    i <= j < self.changes@.len() ==> !is_change_before(
                        #[trigger] self.changes@[j],
                        trade_place@,
                        start_of_period,
                    ),
            decreases i,
        {
            if self.changes[i - 1].trade_place.same(trade_place) {
                proof {
                    lemma_last_index_before(self.changes@, trade_place@, start_of_period, i - 1);
                }
                return Some(self.changes[i - 1].change.clone());
            }
            i = i - 1;
        }
        proof {
            lemma_last_index_before(self.changes@, trade_place@, start_of_period, -1);
        }
        None
    }
}

impl Clone for BalancePositionByFillAmount {
    fn clone(&self) -> (r: Self)
        ensures
            r@ == self@,
    {
        let mut positions: VecMap<TradePlaceAccount, Decimal> = VecMap::new();
        let mut i: usize = 0;
        while i < self.positions.entries.len()
            invariant
                i <= self.positions.entries@.len(),
                positions.entries@ == self.positions.entries@.take(i as int),
            decreases self.positions.entries@.len() - i,
        {
            let key = self.positions.entries[i].0.clone();
            let value = self.positions.entries[i].1;
            positions.entries.push((key, value));
            proof {
                assert(self.positions.entries@.take(i + 1) == self.positions.entries@.take(i as int).push(
                    self.positions.entries@[i as int],
                ));
            }
            i = i + 1;
        }
        let mut changes: Vec<PositionRecord> = Vec::new();
        let mut j: usize = 0;
        while j < self.changes.len()
            invariant
                j <= self.changes@.len(),
                changes@ == self.changes@.take(j as int),
            decreases self.changes@.len() - j,
        {
            changes.push(self.changes[j].clone());
            proof {
                assert(self.changes@.take(j + 1) == self.changes@.take(j as int).push(self.changes@[j as int]));
            }
            j = j + 1;
        }
        proof {
            assert(self.positions.entries@.take(i as int) == self.positions.entries@);
            assert(self.changes@.take(j as int) == self.changes@);
        }
        BalancePositionByFillAmount { positions, changes }
    }
}

} // verus!
