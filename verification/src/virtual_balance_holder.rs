//! The balances that the engine works with: what each exchange reported for
//! an account and a currency, and the differences that reservations and fills
//! have made since.

use crate::common::{AccountCurrency, BalanceRequest, CurrencyCode, ExchangeAccountId};
use crate::currency_pair_metadata::CurrencyPairMetadata;
use crate::decimal::Decimal;
use crate::service_value_tree::{spec_tree_add, ServiceValueTree, TreeEntries};
use crate::vec_map::{lookup, spec_insert, Key, VecMap};
use vstd::prelude::*;

verus! {

/// The balances reported by the exchanges, by account and currency.
pub type RawBalances = Seq<(AccountCurrency, Decimal)>;

/// A holder of balances as contracts see it.
pub struct HolderView {
    pub raw: RawBalances,
    pub diffs: TreeEntries,
}

/// The request for another currency of the same market.
pub open spec fn with_code(request: BalanceRequest, currency_code: CurrencyCode) -> BalanceRequest {
    BalanceRequest { currency_code, ..request }
}

impl HolderView {
    /// The balance that the exchange reported for `code` on the account of
    /// the request, plus the difference recorded under the request for that
    /// currency (zero where there is none). `None` where the exchange
    /// reported nothing, or the sum overflows.
    pub open spec fn spec_total(self, request: BalanceRequest, code: CurrencyCode) -> Option<Decimal> {
        match lookup(self.raw, (request.exchange_account_id@, code@)) {
            Some(raw) => match lookup(self.diffs, with_code(request, code)@) {
                Some(diff) => raw.spec_add(diff),
                None => raw.spec_add(Decimal::spec_zero()),
            },
            None => None,
        }
    }

    /// The virtual balance of the request's currency.
    ///
    /// On a spot market it is the total for that currency. On a derivative
    /// market the balance is held in the market's balance currency: the
    /// result is the total for that currency, converted where the request
    /// asks for another one, into the amount currency and from there into
    /// the request's, at `price`. `None` where a derivative has no balance
    /// currency, where a conversion is needed and no price is given, and
    /// where a total or a conversion is `None`.
    pub open spec fn spec_virtual_balance(
        self,
        request: BalanceRequest,
        metadata: CurrencyPairMetadata,
        price: Option<Decimal>,
    ) -> Option<Decimal> {
        if !metadata.is_derivative {
            self.spec_total(request, request.currency_code)
        } else {
            match metadata.balance_currency_code {
                None => None,
                Some(balance_code) => match self.spec_total(request, balance_code) {
                    None => None,
                    Some(total) => if balance_code@ == request.currency_code@ {
                        Some(total)
                    } else {
                        match price {
                            None => None,
                            Some(price) => match metadata.spec_into_amount_currency(balance_code@, total, price) {
                                None => None,
                                Some(in_amount) => metadata.spec_from_amount_currency(
                                    request.currency_code@,
                                    in_amount,
                                    price,
                                ),
                            },
                        }
                    },
                },
            }
        }
    }
}

/// The balances that the engine works with.
#[derive(Debug)]
pub struct VirtualBalanceHolder {
    pub raw_balances: VecMap<AccountCurrency, Decimal>,
    pub balance_diff: ServiceValueTree,
}

impl View for VirtualBalanceHolder {
    type V = HolderView;

    open spec fn view(&self) -> HolderView {
        HolderView { raw: self.raw_balances.entries@, diffs: self.balance_diff@ }
    }
}

impl VirtualBalanceHolder {
    /// No currency of an account and no request occurs twice.
    pub open spec fn wf(&self) -> bool {
        self.raw_balances.wf() && self.balance_diff.wf()
    }

    /// A holder without balances.
    pub fn new() -> (r: Self)
        ensures
            r@ == (HolderView { raw: Seq::empty(), diffs: Seq::empty() }),
            r.wf(),
    {
        VirtualBalanceHolder { raw_balances: VecMap::new(), balance_diff: ServiceValueTree::new() }
    }

    /// Records the balance that an exchange reported for a currency.
    pub fn set_raw_balance(
        &mut self,
        exchange_account_id: &ExchangeAccountId,
        currency_code: &CurrencyCode,
        balance: Decimal,
    )
        ensures
            final(self)@ == (HolderView {
                raw: spec_insert(
                    old(self)@.raw,
                    AccountCurrency { exchange_account_id: *exchange_account_id, currency_code: *currency_code },
                    balance,
                ),
                ..old(self)@
            }),
            old(self).wf() ==> final(self).wf(),
    {
        self.raw_balances.insert(AccountCurrency::new(exchange_account_id.clone(), currency_code.clone()), balance);
    }

    /// The balance that the exchange reported for a currency.
    pub fn get_raw_exchange_balance(&self, exchange_account_id: &ExchangeAccountId, currency_code: &CurrencyCode) -> (r:
        Option<Decimal>)
        ensures
            r == lookup(self@.raw, (exchange_account_id@, currency_code@)),
    {
        let key = AccountCurrency::new(exchange_account_id.clone(), currency_code.clone());
        match self.raw_balances.get(&key) {
            Some(balance) => Some(*balance),
            None => None,
        }
    }

    /// The reported balance for `code` plus the difference recorded for it.
    fn total(&self, request: &BalanceRequest, code: &CurrencyCode) -> (r: Option<Decimal>)
        ensures
            r == self@.spec_total(*request, *code),
    {
        match self.get_raw_exchange_balance(&request.exchange_account_id, code) {
            Some(raw) => {
                let diff_request = BalanceRequest::new(
                    request.configuration_descriptor.clone(),
                    request.exchange_account_id.clone(),
                    request.currency_pair.clone(),
                    code.clone(),
                );
                match self.balance_diff.get_by_balance_request(&diff_request) {
                    Some(diff) => raw.checked_add(diff),
                    None => raw.checked_add(Decimal::zero()),
                }
            },
            None => None,
        }
    }

    /// The virtual balance of the request's currency, on a derivative market
    /// converted from the balance currency at `price`.
    pub fn get_virtual_balance(
        &self,
        request: &BalanceRequest,
        currency_pair_metadata: &CurrencyPairMetadata,
        price: Option<Decimal>,
    ) -> (r: Option<Decimal>)
        ensures
            r == self@.spec_virtual_balance(*request, *currency_pair_metadata, price),
    {
        if !currency_pair_metadata.is_derivative {
            self.total(request, &request.currency_code)
        } else {
            match &currency_pair_metadata.balance_currency_code {
                None => None,
                Some(balance_code) => match self.total(request, balance_code) {
                    None => None,
                    Some(total) => if balance_code.same(&request.currency_code) {
                        Some(total)
                    } else {
                        match price {
                            None => None,
                            Some(price) => match currency_pair_metadata.convert_amount_into_amount_currency_code(
                                balance_code,
                                total,
                                price,
                            ) {
                                None => None,
                                Some(in_amount) => currency_pair_metadata.convert_amount_from_amount_currency_code(
                                    &request.currency_code,
                                    in_amount,
                                    price,
                                ),
                            },
                        }
                    },
                },
            }
        }
    }

    /// Adds `diff` to the difference recorded under the request. Returns
    /// whether the sum did not overflow; the holder is unchanged where it
    /// did.
    pub fn add_balance(&mut self, request: &BalanceRequest, diff: Decimal) -> (r: bool)
        ensures
            r == spec_tree_add(old(self)@.diffs, *request, diff).is_some(),
            final(self)@ == match spec_tree_add(old(self)@.diffs, *request, diff) {
                Some(diffs) => HolderView { diffs, ..old(self)@ },
                None => old(self)@,
            },
            old(self).wf() ==> final(self).wf(),
    {
        self.balance_diff.add_by_request(request, diff)
    }

    /// The balances reported by the exchanges.
    pub fn get_raw_exchange_balances(&self) -> (r: &VecMap<AccountCurrency, Decimal>)
        ensures
            r.entries@ == self@.raw,
    {
        &self.raw_balances
    }

    /// The differences recorded since the exchanges reported.
    pub fn get_virtual_balance_diffs(&self) -> (r: &ServiceValueTree)
        ensures
            r@ == self@.diffs,
    {
        &self.balance_diff
    }
}

impl Clone for VirtualBalanceHolder {
    fn clone(&self) -> (r: Self)
        ensures
            r@ == self@,
    {
        let mut raw_balances: VecMap<AccountCurrency, Decimal> = VecMap::new();
        let mut i: usize = 0;
        while i < self.raw_balances.entries.len()
            invariant
                i <= self.raw_balances.entries@.len(),
                raw_balances.entries@ == self.raw_balances.entries@.take(i as int),
            decreases self.raw_balances.entries@.len() - i,
        {
            let key = self.raw_balances.entries[i].0.clone();
            let value = self.raw_balances.entries[i].1;
            raw_balances.entries.push((key, value));
            proof {
                assert(self.raw_balances.entries@.take(i + 1) == self.raw_balances.entries@.take(i as int).push(
                    self.raw_balances.entries@[i as int],
                ));
            }
            i = i + 1;
        }
        proof {
            assert(self.raw_balances.entries@.take(i as int) == self.raw_balances.entries@);
        }
        VirtualBalanceHolder { raw_balances, balance_diff: self.balance_diff.clone() }
    }
}

} // verus!
