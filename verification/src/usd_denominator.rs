//! The prices of currencies in US dollars, and amounts expressed by them.
//!
//! The prices come from a market service that lists some currencies under
//! another code than the engine uses; such a price is kept under the
//! engine's code.

use crate::common::CurrencyCode;
use crate::decimal::Decimal;
use crate::vec_map::{lookup, spec_insert, Key, VecMap};
use vstd::prelude::*;

verus! {

/// The price of a currency as a market service lists it.
#[derive(Debug)]
pub struct MarketCurrencyCodePrice {
    pub currency_code: CurrencyCode,
    pub price_usd: Option<Decimal>,
}

impl Clone for MarketCurrencyCodePrice {
    fn clone(&self) -> (r: Self)
        ensures
            r == *self,
    {
        MarketCurrencyCodePrice { currency_code: self.currency_code.clone(), price_usd: self.price_usd }
    }
}

/// The prices by the engine's currency codes.
pub type Prices = Seq<(CurrencyCode, MarketCurrencyCodePrice)>;

/// The code of IOTA as the engine uses it.
pub open spec fn spec_iota() -> Seq<char> {
    "IOTA"@
}

/// The code under which market services list IOTA.
pub open spec fn spec_miota() -> Seq<char> {
    "MIOTA"@
}

/// Whether a code is the one that market services list IOTA under.
pub open spec fn is_listed_otherwise(currency_code: Seq<char>) -> bool {
    currency_code == spec_miota()
}

/// The prices of the tickers in their order, each under the engine's code
/// of its currency, a later price in the place of an earlier one for the
/// same code.
pub open spec fn spec_prices_dictionary(tickers: Seq<MarketCurrencyCodePrice>, iota: CurrencyCode) -> Prices
    decreases tickers.len(),
{
    if tickers.len() == 0 {
        Seq::empty()
    } else {
        let ticker = tickers.last();
        spec_insert(
            spec_prices_dictionary(tickers.drop_last(), iota),
            if is_listed_otherwise(ticker.currency_code@) {
                iota
            } else {
                ticker.currency_code
            },
            ticker,
        )
    }
}

/// The prices of currencies in US dollars.
#[derive(Debug)]
pub struct UsdDenominator {
    pub market_prices_by_currency_code: VecMap<CurrencyCode, MarketCurrencyCodePrice>,
}

impl View for UsdDenominator {
    type V = Prices;

    open spec fn view(&self) -> Prices {
        self.market_prices_by_currency_code.entries@
    }
}

/// The price of a currency, where one is known.
pub open spec fn spec_price_in_usd(prices: Prices, currency_code: Seq<char>) -> Option<Decimal> {
    match lookup(prices, currency_code) {
        Some(price) => price.price_usd,
        None => None,
    }
}

/// The prices of a dictionary, in its order.
pub open spec fn spec_values(prices: Prices) -> Seq<MarketCurrencyCodePrice>
    decreases prices.len(),
{
    if prices.len() == 0 {
        Seq::empty()
    } else {
        spec_values(prices.drop_last()).push(prices.last().1)
    }
}

/// The currencies whose price is known, with their prices, in the order of
/// the dictionary.
pub open spec fn spec_known_prices(prices: Prices) -> Seq<(CurrencyCode, Decimal)>
    decreases prices.len(),
{
    if prices.len() == 0 {
        Seq::empty()
    } else {
        let known = spec_known_prices(prices.drop_last());
        match prices.last().1.price_usd {
            Some(price) => known.push((prices.last().0, price)),
            None => known,
        }
    }
}

impl UsdDenominator {
    /// The prices of the tickers, each under the engine's code of its
    /// currency.
    pub fn create_prices_dictionary(tickers: Vec<MarketCurrencyCodePrice>) -> (r: VecMap<
        CurrencyCode,
        MarketCurrencyCodePrice,
    >)
        ensures
            exists|iota: CurrencyCode| iota@ == spec_iota() && r.entries@ == spec_prices_dictionary(tickers@, iota),
    {
        let iota = CurrencyCode::new("IOTA");
        let miota = CurrencyCode::new("MIOTA");
        let mut prices: VecMap<CurrencyCode, MarketCurrencyCodePrice> = VecMap::new();
        let mut i: usize = 0;
        while i < tickers.len()
            invariant
                i <= tickers@.len(),
                iota@ == spec_iota(),
                miota@ == spec_miota(),
                prices.entries@ == spec_prices_dictionary(tickers@.take(i as int), iota),
            decreases tickers@.len() - i,
        {
            proof {
                let next = tickers@.take(i + 1);
                assert(next.drop_last() == tickers@.take(i as int));
                assert(next.last() == tickers@[i as int]);
            }
            let ticker = tickers[i].clone();
            let code = if ticker.currency_code.same(&miota) {
                iota.clone()
            } else {
                ticker.currency_code.clone()
            };
            prices.insert(code, ticker);
            i = i + 1;
        }
        proof {
            assert(tickers@.take(i as int) == tickers@);
        }
        prices
    }

    /// The denominator of the prices that a market service lists.
    pub fn new(market_prices: Vec<MarketCurrencyCodePrice>) -> (r: Self)
        ensures
            exists|iota: CurrencyCode| iota@ == spec_iota() && r@ == spec_prices_dictionary(market_prices@, iota),
    {
        UsdDenominator { market_prices_by_currency_code: Self::create_prices_dictionary(market_prices) }
    }

    /// A denominator of the prices that this one holds, made anew from
    /// them.
    pub fn get_non_refreshing_usd_denominator(&self) -> (r: Self)
        ensures
            exists|iota: CurrencyCode| iota@ == spec_iota() && r@ == spec_prices_dictionary(spec_values(self@), iota),
    {
        let mut market_prices: Vec<MarketCurrencyCodePrice> = Vec::new();
        let mut i: usize = 0;
        while i < self.market_prices_by_currency_code.entries.len()
            invariant
                i <= self@.len(),
                market_prices@ == spec_values(self@.take(i as int)),
            decreases self@.len() - i,
        {
            proof {
                let next = self@.take(i + 1);
                assert(next.drop_last() == self@.take(i as int));
                assert(next.last() == self@[i as int]);
            }
            market_prices.push(self.market_prices_by_currency_code.entries[i].1.clone());
            i = i + 1;
        }
        proof {
            assert(self@.take(i as int) == self@);
        }
        UsdDenominator::new(market_prices)
    }

    /// The price of a currency in US dollars, where one is known.
    pub fn get_price_in_usd(&self, currency_code: &CurrencyCode) -> (r: Option<Decimal>)
        ensures
            r == spec_price_in_usd(self@, currency_code@),
    {
        match self.market_prices_by_currency_code.get(currency_code) {
            Some(price) => price.price_usd,
            None => None,
        }
    }

    /// The currencies whose price is known, with their prices, in the order
    /// of the dictionary.
    pub fn get_all_prices_in_usd(&self) -> (r: Vec<(CurrencyCode, Decimal)>)
        ensures
            r@ == spec_known_prices(self@),
    {
        let mut prices: Vec<(CurrencyCode, Decimal)> = Vec::new();
        let mut i: usize = 0;
        while i < self.market_prices_by_currency_code.entries.len()
            invariant
                i <= self@.len(),
                prices@ == spec_known_prices(self@.take(i as int)),
            decreases self@.len() - i,
        {
            proof {
                let next = self@.take(i + 1);
                assert(next.drop_last() == self@.take(i as int));
                assert(next.last() == self@[i as int]);
            }
            match self.market_prices_by_currency_code.entries[i].1.price_usd {
                Some(price) => {
                    prices.push((self.market_prices_by_currency_code.entries[i].0.clone(), price));
                },
                None => {},
            }
            i = i + 1;
        }
        proof {
            assert(self@.take(i as int) == self@);
        }
        prices
    }

    /// An amount in US dollars as an amount of a currency: by the price.
    /// `None` where the price is unknown and where the quotient cannot be
    /// computed.
    pub fn usd_to_currency(&self, currency_code: &CurrencyCode, amount_in_usd: Decimal) -> (r: Option<Decimal>)
        ensures
            r == match spec_price_in_usd(self@, currency_code@) {
                Some(price) => amount_in_usd.spec_div(price),
                None => None,
            },
    {
        match self.get_price_in_usd(currency_code) {
            Some(price) => amount_in_usd.checked_div(price),
            None => None,
        }
    }

    /// An amount of a currency as an amount in US dollars: times the price.
    /// `None` where the price is unknown and where the product cannot be
    /// computed.
    pub fn currency_to_usd(&self, currency_code: &CurrencyCode, amount_in_base: Decimal) -> (r: Option<Decimal>)
        ensures
            r == match spec_price_in_usd(self@, currency_code@) {
                Some(price) => amount_in_base.spec_mul(price),
                None => None,
            },
    {
        match self.get_price_in_usd(currency_code) {
            Some(price) => amount_in_base.checked_mul(price),
            None => None,
        }
    }
}

} // verus!
