//! A map from balance requests to amounts.

use crate::common::BalanceRequest;
use crate::decimal::Decimal;
use crate::vec_map::{distinct, lemma_distinct_insert, lemma_first_index, lookup, spec_insert, VecMap};
use vstd::prelude::*;

verus! {

/// The entries of a value tree.
pub type TreeEntries = Seq<(BalanceRequest, Decimal)>;

/// The amount under `request` after `diff` was added to it exactly: the sum
/// with the amount that is there, or `diff` where there is none. `None`
/// where the sum is not exact.
pub open spec fn spec_tree_exact_sum(entries: TreeEntries, request: BalanceRequest, diff: Decimal) -> Option<Decimal> {
    match lookup(entries, request@) {
        Some(value) => value.spec_exact_add(diff),
        None => Some(diff),
    }
}

/// The entries after `diff` was added exactly to the amount under `request`;
/// `None` where the sum is not exact.
pub open spec fn spec_tree_exact_add(entries: TreeEntries, request: BalanceRequest, diff: Decimal) -> Option<TreeEntries> {
    match spec_tree_exact_sum(entries, request, diff) {
        Some(total) => Some(spec_insert(entries, request, total)),
        None => None,
    }
}

/// The amount under `request` after `diff` was added to it as the arithmetic
/// adds: the sum with the amount that is there, rounded where it does not
/// fit, or `diff` where there is none. `None` where the sum overflows.
pub open spec fn spec_tree_sum(entries: TreeEntries, request: BalanceRequest, diff: Decimal) -> Option<Decimal> {
    match lookup(entries, request@) {
        Some(value) => value.spec_add(diff),
        None => Some(diff),
    }
}

/// The entries after `diff` was added to the amount under `request` as the
/// arithmetic adds; `None` where the sum overflows.
pub open spec fn spec_tree_add(entries: TreeEntries, request: BalanceRequest, diff: Decimal) -> Option<TreeEntries> {
    match spec_tree_sum(entries, request, diff) {
        Some(total) => Some(spec_insert(entries, request, total)),
        None => None,
    }
}

/// A map from balance requests to amounts.
#[derive(Debug)]
pub struct ServiceValueTree {
    pub tree: VecMap<BalanceRequest, Decimal>,
}

impl View for ServiceValueTree {
    type V = TreeEntries;

    open spec fn view(&self) -> TreeEntries {
        self.tree.entries@
    }
}

impl Clone for ServiceValueTree {
    fn clone(&self) -> (r: Self)
        ensures
            r@ == self@,
    {
        let mut tree: VecMap<BalanceRequest, Decimal> = VecMap::new();
        let mut i: usize = 0;
        while i < self.tree.entries.len()
            invariant
                i <= self.tree.entries@.len(),
                tree.entries@ == self.tree.entries@.take(i as int),
            decreases self.tree.entries@.len() - i,
        {
            let request = self.tree.entries[i].0.clone();
            let value = self.tree.entries[i].1;
            tree.entries.push((request, value));
            proof {
                assert(self.tree.entries@.take(i + 1) == self.tree.entries@.take(i as int).push(
                    self.tree.entries@[i as int],
                ));
            }
            i = i + 1;
        }
        proof {
            assert(self.tree.entries@.take(i as int) == self.tree.entries@);
        }
        ServiceValueTree { tree }
    }
}

impl ServiceValueTree {
    /// No request occurs twice.
    pub open spec fn wf(&self) -> bool {
        distinct(self@)
    }

    /// The empty tree.
    pub fn new() -> (r: Self)
        ensures
            r@ == TreeEntries::empty(),
            r.wf(),
    {
        ServiceValueTree { tree: VecMap::new() }
    }

    /// The amount under the request.
    pub fn get_by_balance_request(&self, request: &BalanceRequest) -> (r: Option<Decimal>)
        ensures
            r == lookup(self@, request@),
    {
        match self.tree.get(request) {
            Some(value) => Some(*value),
            None => None,
        }
    }

    /// Puts the amount under the request.
    pub fn set_by_balance_request(&mut self, request: &BalanceRequest, value: Decimal)
        ensures
            final(self)@ == spec_insert(old(self)@, *request, value),
            forall|id: crate::common::RequestId| #[trigger]
                lookup(final(self)@, id) == if id == request@ {
                    Some(value)
                } else {
                    lookup(old(self)@, id)
                },
            old(self).wf() ==> final(self).wf(),
    {
        self.tree.insert(request.clone(), value);
    }

    /// What the amount under the request would be after `diff` was added to
    /// it as the arithmetic adds; `None` where the sum overflows.
    pub fn planned_sum(&self, request: &BalanceRequest, diff: Decimal) -> (r: Option<Decimal>)
        ensures
            r == spec_tree_sum(self@, *request, diff),
    {
        match self.tree.get(request) {
            Some(value) => value.checked_add(diff),
            None => Some(diff),
        }
    }

    /// Adds `diff` to the amount under the request as the arithmetic adds;
    /// the amount starts at `diff` where there was none. Returns whether the
    /// sum did not overflow; the tree is unchanged where it did.
    pub fn add_by_request(&mut self, request: &BalanceRequest, diff: Decimal) -> (r: bool)
        ensures
            r == spec_tree_add(old(self)@, *request, diff).is_some(),
            final(self)@ == match spec_tree_add(old(self)@, *request, diff) {
                Some(entries) => entries,
                None => old(self)@,
            },
            old(self).wf() ==> final(self).wf(),
    {
        match self.planned_sum(request, diff) {
            Some(total) => {
                self.set_by_balance_request(request, total);
                true
            },
            None => false,
        }
    }

    /// What the amount under the request would be after `diff` was added to
    /// it exactly; `None` where the sum is not exact.
    pub fn planned_exact_sum(&self, request: &BalanceRequest, diff: Decimal) -> (r: Option<Decimal>)
        ensures
            r == spec_tree_exact_sum(self@, *request, diff),
    {
        match self.tree.get(request) {
            Some(value) => value.exact_add(diff),
            None => Some(diff),
        }
    }

    /// Adds `diff` exactly to the amount under the request, which starts at
    /// `diff` where there was none. Returns whether the sum was exact; the
    /// tree is unchanged where it was not.
    pub fn add_exactly_by_request(&mut self, request: &BalanceRequest, diff: Decimal) -> (r: bool)
        ensures
            r == spec_tree_exact_add(old(self)@, *request, diff).is_some(),
            final(self)@ == match spec_tree_exact_add(old(self)@, *request, diff) {
                Some(entries) => entries,
                None => old(self)@,
            },
            old(self).wf() ==> final(self).wf(),
    {
        let i = self.tree.position(request);
        proof {
            lemma_first_index(self.tree.entries@, request@);
            if old(self).wf() {
                match spec_tree_exact_sum(self@, *request, diff) {
                    Some(total) => lemma_distinct_insert(self@, *request, total),
                    None => {},
                }
            }
        }
        if i < self.tree.entries.len() {
            match self.tree.entries[i].1.exact_add(diff) {
                Some(total) => {
                    self.tree.entries[i].1 = total;
                    true
                },
                None => false,
            }
        } else {
            self.tree.entries.push((request.clone(), diff));
            true
        }
    }
}

} // verus!
