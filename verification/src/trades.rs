//! Taking note of the trades that an exchange reports.
//!
//! The account remembers the last trade of each market and when it last
//! heard of a trade there. A trade is handed on to the listeners unless the
//! market data come by subscription, or the trades are polled and this one
//! is not newer than the last.

use crate::common::{CurrencyPair, DateTime, ExchangeAccountId, OrderSide};
use crate::decimal::Decimal;
use crate::events::{Trade, TradeId, TradesEvent};
use crate::exchange::Exchange;
use crate::price_source_chains::TradePlace;
use crate::vec_map::{lookup, spec_insert, VecMap};
use vstd::prelude::*;

verus! {

impl Clone for Trade {
    fn clone(&self) -> (r: Self)
        ensures
            r == *self,
    {
        Trade {
            trade_id: self.trade_id.clone(),
            price: self.price,
            quantity: self.quantity,
            side: self.side,
            transaction_time: self.transaction_time,
        }
    }
}

/// How an account learns of trades.
#[derive(Clone, Copy, Debug)]
pub struct TradeOptions {
    /// The market data come by subscription, not through the account.
    pub subscribe_to_market_data: bool,
    /// The trades are polled, so that a trade may be reported again.
    pub request_trades: bool,
    /// The exchange numbers its trades in their order.
    pub supports_trade_incremented_id: bool,
}

/// What an account remembers of the trades of its markets.
#[derive(Debug)]
pub struct LastTrades {
    pub last_trades: VecMap<TradePlace, Trade>,
    pub last_trades_update_time: VecMap<TradePlace, DateTime>,
}

/// `LastTrades` as contracts see it.
pub struct LastTradesView {
    pub last_trades: Seq<(TradePlace, Trade)>,
    pub last_trades_update_time: Seq<(TradePlace, DateTime)>,
}

impl View for LastTrades {
    type V = LastTradesView;

    open spec fn view(&self) -> LastTradesView {
        LastTradesView {
            last_trades: self.last_trades.entries@,
            last_trades_update_time: self.last_trades_update_time.entries@,
        }
    }
}

impl LastTrades {
    /// Nothing remembered.
    pub fn new() -> (r: Self)
        ensures
            r@ == (LastTradesView { last_trades: Seq::empty(), last_trades_update_time: Seq::empty() }),
    {
        LastTrades { last_trades: VecMap::new(), last_trades_update_time: VecMap::new() }
    }
}

/// Why a trade was refused.
#[derive(Clone, Copy, Debug, PartialEq, Eq, Structural)]
pub enum TradeError {
    /// The exchange is said to number its trades, and a trade has a text
    /// for its identifier.
    TradeIdNotANumber,
}

/// Whether a trade is newer than the last one: by its number where the
/// exchange numbers its trades in their order, else by its time.
pub open spec fn spec_is_newer(options: TradeOptions, trade: Trade, last: Trade) -> Result<bool, TradeError> {
    if options.supports_trade_incremented_id {
        match (trade.trade_id, last.trade_id) {
            (TradeId::Number(number), TradeId::Number(last_number)) => Ok(number > last_number),
            _ => Err(TradeError::TradeIdNotANumber),
        }
    } else {
        Ok(trade.transaction_time > last.transaction_time)
    }
}

/// Whether a trade is newer than the last one.
pub fn is_newer(options: &TradeOptions, trade: &Trade, last: &Trade) -> (r: Result<bool, TradeError>)
    ensures
        r == spec_is_newer(*options, *trade, *last),
{
    if options.supports_trade_incremented_id {
        match (&trade.trade_id, &last.trade_id) {
            (TradeId::Number(number), TradeId::Number(last_number)) => Ok(*number > *last_number),
            _ => Err(TradeError::TradeIdNotANumber),
        }
    } else {
        Ok(trade.transaction_time > last.transaction_time)
    }
}

/// The market of a currency pair on the exchange of an account.
pub open spec fn spec_trade_place(exchange_account_id: ExchangeAccountId, currency_pair: CurrencyPair) -> TradePlace {
    TradePlace { exchange_id: exchange_account_id.exchange_id, currency_pair }
}

impl Exchange {
    /// What a trade does to what the account remembers, and whether the
    /// listeners are to be told of it.
    ///
    /// The market is noted as heard of at `now`. Where the market data come
    /// by subscription nothing more is done. Where the trades are polled,
    /// a trade that is not newer than the last one of its market is passed
    /// over; a newer one, and the first of a market, becomes the last one,
    /// and the first of a market is not handed on. Else the listeners are
    /// told.
    pub open spec fn spec_handle_trade(
        self,
        options: TradeOptions,
        state: LastTradesView,
        currency_pair: CurrencyPair,
        trade: Trade,
        now: DateTime,
    ) -> (LastTradesView, Result<bool, TradeError>) {
        let place = spec_trade_place(self.exchange_account_id, currency_pair);
        let heard = LastTradesView {
            last_trades_update_time: spec_insert(state.last_trades_update_time, place, now),
            ..state
        };
        let noted = LastTradesView { last_trades: spec_insert(heard.last_trades, place, trade), ..heard };
        if options.subscribe_to_market_data {
            (heard, Ok(false))
        } else if options.request_trades {
            match lookup(heard.last_trades, place@) {
                None => (noted, Ok(false)),
                Some(last) => match spec_is_newer(options, trade, last) {
                    Err(e) => (heard, Err(e)),
                    Ok(false) => (heard, Ok(false)),
                    Ok(true) => (noted, Ok(true)),
                },
            }
        } else {
            (heard, Ok(true))
        }
    }

    /// Takes note of a trade of a market. Returns the event that the
    /// listeners are to be told, if any.
    pub fn handle_trade(
        &self,
        options: &TradeOptions,
        state: &mut LastTrades,
        currency_pair: &CurrencyPair,
        trade_id: TradeId,
        price: Decimal,
        quantity: Decimal,
        side: OrderSide,
        transaction_time: DateTime,
        now: DateTime,
    ) -> (r: Result<Option<TradesEvent>, TradeError>)
        ensures
            ({
                let trade = Trade { trade_id, price, quantity, side, transaction_time };
                let (next, told) = self.spec_handle_trade(*options, old(state)@, *currency_pair, trade, now);
                &&& final(state)@ == next
                &&& match r {
                    Err(e) => told == Err::<bool, TradeError>(e),
                    Ok(None) => told == Ok::<bool, TradeError>(false),
                    Ok(Some(event)) => {
                        &&& told == Ok::<bool, TradeError>(true)
                        &&& event.exchange_account_id == self.exchange_account_id
                        &&& event.currency_pair == *currency_pair
                        &&& event.trades@ == seq![trade]
                        &&& event.receipt_time == now
                    },
                }
            }),
    {
        let trade = Trade { trade_id, price, quantity, side, transaction_time };
        let place = TradePlace {
            exchange_id: self.exchange_account_id.exchange_id.clone(),
            currency_pair: currency_pair.clone(),
        };
        state.last_trades_update_time.insert(place.clone(), now);
        if options.subscribe_to_market_data {
            return Ok(None);
        }
        if options.request_trades {
            let newer = match state.last_trades.get(&place) {
                None => None,
                Some(last) => Some(is_newer(options, &trade, last)),
            };
            match newer {
                None => {
                    state.last_trades.insert(place, trade);
                    return Ok(None);
                },
                Some(Err(e)) => return Err(e),
                Some(Ok(false)) => return Ok(None),
                Some(Ok(true)) => {
                    state.last_trades.insert(place, trade.clone());
                },
            }
        }
        let mut trades: Vec<Trade> = Vec::new();
        trades.push(trade);
        Ok(
            Some(
                TradesEvent {
                    exchange_account_id: self.exchange_account_id.clone(),
                    currency_pair: currency_pair.clone(),
                    trades,
                    receipt_time: now,
                },
            ),
        )
    }
}

} // verus!
