//! The description of a market: its currencies, whether it is a derivative,
//! how amounts and prices are rounded there, and how an amount is converted
//! between the currency in which order sizes are expressed and either side of
//! the pair.

use crate::common::{BeforeAfter, CurrencyCode, CurrencyPair, OrderSide};
use crate::decimal::{Decimal, Round};
use crate::vec_map::Key;
use vstd::prelude::*;

verus! {

/// How finely a market states amounts or prices.
#[derive(Clone, Copy, Debug)]
pub enum Precision {
    /// A number of decimal places.
    ByFraction { precision: u32 },
    /// A multiple of a tick.
    ByTick { tick: Decimal },
}

impl Precision {
    /// The smallest step: the tick, or one unit of the last decimal place
    /// (of the 28th where more places are asked for than a decimal has).
    pub open spec fn spec_tick(self) -> Decimal {
        match self {
            Precision::ByFraction { precision } => Decimal::spec_from_parts(
                1,
                if precision <= 28 {
                    precision
                } else {
                    28
                },
            ).unwrap(),
            Precision::ByTick { tick } => tick,
        }
    }

    /// The value rounded to this precision: to the decimal places, or to a
    /// whole number of ticks.
    pub open spec fn spec_round(self, value: Decimal, round: Round) -> Option<Decimal> {
        match self {
            Precision::ByFraction { precision } => value.spec_round(precision, round),
            Precision::ByTick { tick } => match value.spec_div(tick) {
                Some(ticks) => match ticks.spec_round(0, round) {
                    Some(whole) => whole.spec_mul(tick),
                    None => None,
                },
                None => None,
            },
        }
    }

    /// Whether two precisions are of the same kind and size.
    pub open spec fn spec_same(self, other: Precision) -> bool {
        match (self, other) {
            (Precision::ByFraction { precision: a }, Precision::ByFraction { precision: b }) => a == b,
            (Precision::ByTick { tick: a }, Precision::ByTick { tick: b }) => a@ == b@,
            _ => false,
        }
    }

    /// A rounded value is within what a decimal can hold.
    pub proof fn lemma_rounded_wf(self, value: Decimal, round: Round)
        ensures
            self.spec_round(value, round) matches Some(rounded) ==> rounded.wf(),
    {
        match self {
            Precision::ByFraction { precision } => {
                value.lemma_results_wf(value, precision, round);
            },
            Precision::ByTick { tick } => {
                match value.spec_div(tick) {
                    Some(ticks) => match ticks.spec_round(0, round) {
                        Some(whole) => {
                            whole.lemma_results_wf(tick, 0, round);
                        },
                        None => {},
                    },
                    None => {},
                }
            },
        }
    }

    /// The smallest step: the tick, or one unit of the last decimal place.
    pub fn tick(&self) -> (r: Decimal)
        ensures
            r == self.spec_tick(),
    {
        match self {
            Precision::ByFraction { precision } => {
                let places: u32 = if *precision <= 28 {
                    *precision
                } else {
                    28
                };
                proof {
                    Decimal::lemma_from_parts(1, places);
                }
                Decimal::from_parts(1, places).unwrap()
            },
            Precision::ByTick { tick } => *tick,
        }
    }

    /// The value rounded to this precision. `None` where the tick is zero or
    /// the arithmetic overflows.
    pub fn round(&self, value: Decimal, round: Round) -> (r: Option<Decimal>)
        ensures
            r == self.spec_round(value, round),
    {
        match self {
            Precision::ByFraction { precision } => Some(value.round_dp(*precision, round)),
            Precision::ByTick { tick } => match value.checked_div(*tick) {
                Some(ticks) => ticks.round_dp(0, round).checked_mul(*tick),
                None => None,
            },
        }
    }

    /// Whether two precisions are of the same kind and size.
    pub fn same(&self, other: &Precision) -> (r: bool)
        ensures
            r == self.spec_same(*other),
    {
        match (self, other) {
            (Precision::ByFraction { precision: a }, Precision::ByFraction { precision: b }) => *a == *b,
            (Precision::ByTick { tick: a }, Precision::ByTick { tick: b }) => a.equals(b),
            _ => false,
        }
    }
}

/// The description of a market.
#[derive(Debug)]
pub struct CurrencyPairMetadata {
    pub is_derivative: bool,
    pub base_currency_code: CurrencyCode,
    pub quote_currency_code: CurrencyCode,
    /// The currency in which order sizes are expressed.
    pub amount_currency_code: CurrencyCode,
    /// The currency in which a derivative's balance is held.
    pub balance_currency_code: Option<CurrencyCode>,
    pub currency_pair: CurrencyPair,
    pub price_precision: Precision,
    pub amount_precision: Precision,
    pub amount_multiplier: Decimal,
}

impl Clone for CurrencyPairMetadata {
    fn clone(&self) -> (r: Self)
        ensures
            r == *self,
    {
        CurrencyPairMetadata {
            is_derivative: self.is_derivative,
            base_currency_code: self.base_currency_code.clone(),
            quote_currency_code: self.quote_currency_code.clone(),
            amount_currency_code: self.amount_currency_code.clone(),
            balance_currency_code: match &self.balance_currency_code {
                Some(code) => Some(code.clone()),
                None => None,
            },
            currency_pair: self.currency_pair.clone(),
            price_precision: self.price_precision,
            amount_precision: self.amount_precision,
            amount_multiplier: self.amount_multiplier,
        }
    }
}

impl CurrencyPairMetadata {
    /// The currency that an order of the given side pays with (before the
    /// trade) or receives (after it): the quote currency before a buy and
    /// after a sell, the base currency before a sell and after a buy.
    pub open spec fn spec_trade_code(&self, side: OrderSide, before_after: BeforeAfter) -> CurrencyCode {
        match (before_after, side) {
            (BeforeAfter::Before, OrderSide::Buy) => self.quote_currency_code,
            (BeforeAfter::Before, OrderSide::Sell) => self.base_currency_code,
            (BeforeAfter::After, OrderSide::Buy) => self.base_currency_code,
            (BeforeAfter::After, OrderSide::Sell) => self.quote_currency_code,
        }
    }

    /// The currency in which the commission of an order is taken where the
    /// exchange names none: the balance currency of a derivative, else what
    /// the order receives, the base currency for a buy and the quote
    /// currency for a sell.
    pub open spec fn spec_commission_currency_code(&self, side: OrderSide) -> CurrencyCode {
        match self.balance_currency_code {
            Some(code) => code,
            None => match side {
                OrderSide::Buy => self.base_currency_code,
                OrderSide::Sell => self.quote_currency_code,
            },
        }
    }

    /// An amount in the amount currency, expressed in the currency `code` at
    /// `price`: unchanged for the amount currency, divided by the price for
    /// the base currency, multiplied by it for the quote currency. `None` for
    /// a currency outside the pair and where the arithmetic fails.
    pub open spec fn spec_from_amount_currency(&self, code: Seq<char>, amount: Decimal, price: Decimal) -> Option<
        Decimal,
    > {
        if code == self.amount_currency_code@ {
            Some(amount)
        } else if code == self.base_currency_code@ {
            amount.spec_div(price)
        } else if code == self.quote_currency_code@ {
            amount.spec_mul(price)
        } else {
            None
        }
    }

    /// An amount in the currency `code`, expressed in the amount currency at
    /// `price`: unchanged for the amount currency, multiplied by the price
    /// for the base currency, divided by it for the quote currency. `None`
    /// for a currency outside the pair and where the arithmetic fails.
    pub open spec fn spec_into_amount_currency(&self, code: Seq<char>, amount: Decimal, price: Decimal) -> Option<
        Decimal,
    > {
        if code == self.amount_currency_code@ {
            Some(amount)
        } else if code == self.base_currency_code@ {
            amount.spec_mul(price)
        } else if code == self.quote_currency_code@ {
            amount.spec_div(price)
        } else {
            None
        }
    }

    /// The margin within which two amounts of this market count as equal: one
    /// step of its amount precision.
    pub open spec fn spec_amount_tick(&self) -> Decimal {
        self.amount_precision.spec_tick()
    }

    /// Whether an amount is within the market's margin of zero.
    pub open spec fn spec_within_margin(&self, amount: Decimal) -> bool {
        let a = if amount@ < 0 {
            -amount@
        } else {
            amount@
        };
        a <= self.spec_amount_tick()@
    }

    /// The amount rounded to the nearest step of the amount precision.
    pub open spec fn spec_round_amount(&self, amount: Decimal) -> Option<Decimal> {
        self.amount_precision.spec_round(amount, Round::ToNearest)
    }

    /// Whether two descriptions say the same of their market.
    pub open spec fn spec_same(&self, other: &CurrencyPairMetadata) -> bool {
        &&& self.is_derivative == other.is_derivative
        &&& self.base_currency_code@ == other.base_currency_code@
        &&& self.quote_currency_code@ == other.quote_currency_code@
        &&& self.amount_currency_code@ == other.amount_currency_code@
        &&& match (self.balance_currency_code, other.balance_currency_code) {
            (Some(a), Some(b)) => a@ == b@,
            (None, None) => true,
            _ => false,
        }
        &&& self.currency_pair@ == other.currency_pair@
        &&& self.price_precision.spec_same(other.price_precision)
        &&& self.amount_precision.spec_same(other.amount_precision)
        &&& self.amount_multiplier@ == other.amount_multiplier@
    }

    /// The currency pair of the market.
    pub fn currency_pair(&self) -> (r: CurrencyPair)
        ensures
            r == self.currency_pair,
    {
        self.currency_pair.clone()
    }

    /// The currency that an order of the given side pays with (before the
    /// trade) or receives (after it).
    pub fn get_trade_code(&self, side: OrderSide, before_after: BeforeAfter) -> (r: CurrencyCode)
        ensures
            r == self.spec_trade_code(side, before_after),
    {
        match (before_after, side) {
            (BeforeAfter::Before, OrderSide::Buy) => self.quote_currency_code.clone(),
            (BeforeAfter::Before, OrderSide::Sell) => self.base_currency_code.clone(),
            (BeforeAfter::After, OrderSide::Buy) => self.base_currency_code.clone(),
            (BeforeAfter::After, OrderSide::Sell) => self.quote_currency_code.clone(),
        }
    }

    /// The currency in which the commission of an order is taken where the
    /// exchange names none.
    pub fn get_commission_currency_code(&self, side: OrderSide) -> (r: CurrencyCode)
        ensures
            r == self.spec_commission_currency_code(side),
    {
        match &self.balance_currency_code {
            Some(code) => code.clone(),
            None => match side {
                OrderSide::Buy => self.base_currency_code.clone(),
                OrderSide::Sell => self.quote_currency_code.clone(),
            },
        }
    }

    /// Converts an amount in the amount currency to the currency
    /// `to_currency_code` at the given price.
    pub fn convert_amount_from_amount_currency_code(
        &self,
        to_currency_code: &CurrencyCode,
        amount_in_amount_currency_code: Decimal,
        currency_pair_price: Decimal,
    ) -> (r: Option<Decimal>)
        ensures
            r == self.spec_from_amount_currency(
                to_currency_code@,
                amount_in_amount_currency_code,
                currency_pair_price,
            ),
    {
        if to_currency_code.same(&self.amount_currency_code) {
            Some(amount_in_amount_currency_code)
        } else if to_currency_code.same(&self.base_currency_code) {
            amount_in_amount_currency_code.checked_div(currency_pair_price)
        } else if to_currency_code.same(&self.quote_currency_code) {
            amount_in_amount_currency_code.checked_mul(currency_pair_price)
        } else {
            None
        }
    }

    /// Converts an amount in the currency `from_currency_code` to the amount
    /// currency at the given price.
    pub fn convert_amount_into_amount_currency_code(
        &self,
        from_currency_code: &CurrencyCode,
        amount_in_from_currency_code: Decimal,
        currency_pair_price: Decimal,
    ) -> (r: Option<Decimal>)
        ensures
            r == self.spec_into_amount_currency(
                from_currency_code@,
                amount_in_from_currency_code,
                currency_pair_price,
            ),
    {
        if from_currency_code.same(&self.amount_currency_code) {
            Some(amount_in_from_currency_code)
        } else if from_currency_code.same(&self.base_currency_code) {
            amount_in_from_currency_code.checked_mul(currency_pair_price)
        } else if from_currency_code.same(&self.quote_currency_code) {
            amount_in_from_currency_code.checked_div(currency_pair_price)
        } else {
            None
        }
    }

    /// The margin within which two amounts of this market count as equal.
    pub fn get_amount_tick(&self) -> (r: Decimal)
        ensures
            r == self.spec_amount_tick(),
    {
        self.amount_precision.tick()
    }

    /// Whether an amount is within the market's margin of zero.
    pub fn is_amount_within_symbol_margin_error(&self, amount: Decimal) -> (r: bool)
        ensures
            r == self.spec_within_margin(amount),
    {
        amount.abs().le(&self.get_amount_tick())
    }

    /// Rounds an amount to the nearest step of the amount precision, which
    /// removes what earlier arithmetic left beyond it. `None` where the
    /// rounding cannot be computed.
    pub fn round_to_remove_amount_precision_error(&self, amount: Decimal) -> (r: Option<Decimal>)
        ensures
            r == self.spec_round_amount(amount),
    {
        self.amount_precision.round(amount, Round::ToNearest)
    }

    /// Rounds an amount to the amount precision in the given direction.
    pub fn round_amount(&self, amount: Decimal, round: Round) -> (r: Option<Decimal>)
        ensures
            r == self.amount_precision.spec_round(amount, round),
    {
        self.amount_precision.round(amount, round)
    }

    /// Rounds a price to the price precision in the given direction.
    pub fn round_price(&self, price: Decimal, round: Round) -> (r: Option<Decimal>)
        ensures
            r == self.price_precision.spec_round(price, round),
    {
        self.price_precision.round(price, round)
    }

    /// Whether two descriptions say the same of their market.
    pub fn same(&self, other: &CurrencyPairMetadata) -> (r: bool)
        ensures
            r == self.spec_same(other),
    {
        let balance_codes_same = match (&self.balance_currency_code, &other.balance_currency_code) {
            (Some(a), Some(b)) => a.same(b),
            (None, None) => true,
            _ => false,
        };
        self.is_derivative == other.is_derivative && self.base_currency_code.same(&other.base_currency_code)
            && self.quote_currency_code.same(&other.quote_currency_code) && self.amount_currency_code.same(
            &other.amount_currency_code,
        ) && balance_codes_same && self.currency_pair.same(&other.currency_pair)
            && self.price_precision.same(&other.price_precision) && self.amount_precision.same(
            &other.amount_precision,
        ) && self.amount_multiplier.equals(&other.amount_multiplier)
    }
}

} // verus!
