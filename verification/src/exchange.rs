//! What the balance reservation manager reads of the exchanges: the leverage
//! configured for each market of an account, and the description of each
//! market.

use crate::common::{CurrencyPair, ExchangeAccountId, TradePlaceAccount};
use crate::currency_pair_metadata::CurrencyPairMetadata;
use crate::decimal::Decimal;
use crate::vec_map::{lookup, VecMap};
use vstd::prelude::*;

verus! {

/// An account on an exchange, with the leverage of its markets.
#[derive(Debug)]
pub struct Exchange {
    pub exchange_account_id: ExchangeAccountId,
    pub leverage_by_currency_pair: VecMap<CurrencyPair, Decimal>,
}

/// The leverage of the markets of an account, by currency pair.
pub type Leverages = Seq<(CurrencyPair, Decimal)>;

impl View for Exchange {
    type V = Leverages;

    open spec fn view(&self) -> Leverages {
        self.leverage_by_currency_pair.entries@
    }
}

impl Clone for Exchange {
    fn clone(&self) -> (r: Self)
        ensures
            r@ == self@,
            r.exchange_account_id == self.exchange_account_id,
    {
        let mut leverage_by_currency_pair: VecMap<CurrencyPair, Decimal> = VecMap::new();
        let mut i: usize = 0;
        while i < self.leverage_by_currency_pair.entries.len()
            invariant
                i <= self.leverage_by_currency_pair.entries@.len(),
                leverage_by_currency_pair.entries@ == self.leverage_by_currency_pair.entries@.take(i as int),
            decreases self.leverage_by_currency_pair.entries@.len() - i,
        {
            let pair = self.leverage_by_currency_pair.entries[i].0.clone();
            let leverage = self.leverage_by_currency_pair.entries[i].1;
            leverage_by_currency_pair.entries.push((pair, leverage));
            proof {
                assert(self.leverage_by_currency_pair.entries@.take(i + 1)
                    == self.leverage_by_currency_pair.entries@.take(i as int).push(
                    self.leverage_by_currency_pair.entries@[i as int],
                ));
            }
            i = i + 1;
        }
        proof {
            assert(self.leverage_by_currency_pair.entries@.take(i as int) == self.leverage_by_currency_pair.entries@);
        }
        Exchange { exchange_account_id: self.exchange_account_id.clone(), leverage_by_currency_pair }
    }
}

/// The exchanges as contracts see them: the leverages by account.
pub type ExchangesView = Seq<(ExchangeAccountId, Leverages)>;

/// The view of the exchanges of a map.
pub open spec fn exchanges_view(exchanges: Seq<(ExchangeAccountId, Exchange)>) -> ExchangesView {
    Seq::new(exchanges.len(), |i: int| (exchanges[i].0, exchanges[i].1@))
}

/// A copy of the exchanges.
pub fn clone_exchanges(exchanges: &VecMap<ExchangeAccountId, Exchange>) -> (r: VecMap<ExchangeAccountId, Exchange>)
    ensures
        exchanges_view(r.entries@) == exchanges_view(exchanges.entries@),
{
    let mut copy: VecMap<ExchangeAccountId, Exchange> = VecMap::new();
    let mut i: usize = 0;
    while i < exchanges.entries.len()
        invariant
            i <= exchanges.entries@.len(),
            copy.entries@.len() == i,
            forall|j: int|
                0 <= j < i ==> (#[trigger] copy.entries@[j]).0 == exchanges.entries@[j].0 && copy.entries@[j].1@
                    == exchanges.entries@[j].1@,
        decreases exchanges.entries@.len() - i,
    {
        let id = exchanges.entries[i].0.clone();
        let exchange = exchanges.entries[i].1.clone();
        copy.entries.push((id, exchange));
        i = i + 1;
    }
    proof {
        assert(exchanges_view(copy.entries@) =~= exchanges_view(exchanges.entries@));
    }
    copy
}

impl Clone for CurrencyPairToMetadataConverter {
    fn clone(&self) -> (r: Self)
        ensures
            r.metadata.entries@ == self.metadata.entries@,
    {
        let mut metadata: VecMap<TradePlaceAccount, CurrencyPairMetadata> = VecMap::new();
        let mut i: usize = 0;
        while i < self.metadata.entries.len()
            invariant
                i <= self.metadata.entries@.len(),
                metadata.entries@ == self.metadata.entries@.take(i as int),
            decreases self.metadata.entries@.len() - i,
        {
            let place = self.metadata.entries[i].0.clone();
            let description = self.metadata.entries[i].1.clone();
            metadata.entries.push((place, description));
            proof {
                assert(self.metadata.entries@.take(i + 1) == self.metadata.entries@.take(i as int).push(
                    self.metadata.entries@[i as int],
                ));
            }
            i = i + 1;
        }
        proof {
            assert(self.metadata.entries@.take(i as int) == self.metadata.entries@);
        }
        CurrencyPairToMetadataConverter { metadata }
    }
}

impl Exchange {
    /// The account, with no leverage configured.
    pub fn new(exchange_account_id: ExchangeAccountId) -> (r: Self)
        ensures
            r.exchange_account_id == exchange_account_id,
            r.leverage_by_currency_pair.entries@ == Seq::<(CurrencyPair, Decimal)>::empty(),
    {
        Exchange { exchange_account_id, leverage_by_currency_pair: VecMap::new() }
    }

    /// Configures the leverage of a market.
    pub fn set_leverage(&mut self, currency_pair: CurrencyPair, leverage: Decimal)
        ensures
            final(self).exchange_account_id == old(self).exchange_account_id,
            forall|pair: Seq<char>| #[trigger]
                lookup(final(self).leverage_by_currency_pair.entries@, pair) == if pair == currency_pair@ {
                    Some(leverage)
                } else {
                    lookup(old(self).leverage_by_currency_pair.entries@, pair)
                },
    {
        self.leverage_by_currency_pair.insert(currency_pair, leverage);
    }

    /// The leverage of a market.
    pub fn get_leverage(&self, currency_pair: &CurrencyPair) -> (r: Option<Decimal>)
        ensures
            r == lookup(self.leverage_by_currency_pair.entries@, currency_pair@),
    {
        match self.leverage_by_currency_pair.get(currency_pair) {
            Some(leverage) => Some(*leverage),
            None => None,
        }
    }
}

/// The descriptions of the markets, by account and currency pair.
#[derive(Debug)]
pub struct CurrencyPairToMetadataConverter {
    pub metadata: VecMap<TradePlaceAccount, CurrencyPairMetadata>,
}

impl CurrencyPairToMetadataConverter {
    /// No market is described.
    pub fn new() -> (r: Self)
        ensures
            r.metadata.entries@ == Seq::<(TradePlaceAccount, CurrencyPairMetadata)>::empty(),
    {
        CurrencyPairToMetadataConverter { metadata: VecMap::new() }
    }

    /// Describes a market of an account.
    pub fn add(&mut self, exchange_account_id: ExchangeAccountId, metadata: CurrencyPairMetadata)
        ensures
            forall|id: ((Seq<char>, u8), Seq<char>)| #[trigger]
                lookup(final(self).metadata.entries@, id) == if id == (
                    exchange_account_id@,
                    metadata.currency_pair@,
                ) {
                    Some(metadata)
                } else {
                    lookup(old(self).metadata.entries@, id)
                },
    {
        let key = TradePlaceAccount::new(exchange_account_id, metadata.currency_pair());
        self.metadata.insert(key, metadata);
    }

    /// The description of a market of an account.
    pub fn try_get_currency_pair_metadata(&self, exchange_account_id: &ExchangeAccountId, currency_pair: &CurrencyPair) -> (r:
        Option<&CurrencyPairMetadata>)
        ensures
            match r {
                Some(metadata) => lookup(self.metadata.entries@, (exchange_account_id@, currency_pair@)) == Some(
                    *metadata,
                ),
                None => lookup(self.metadata.entries@, (exchange_account_id@, currency_pair@)) is None,
            },
    {
        let key = TradePlaceAccount::new(exchange_account_id.clone(), currency_pair.clone());
        self.metadata.get(&key)
    }
}

} // verus!
