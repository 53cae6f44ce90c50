//! The events that exchanges report and the measurements taken of them.

use crate::common::{CurrencyCode, CurrencyPair, DateTime, ExchangeAccountId, OrderSide};
use crate::decimal::Decimal;
use vstd::prelude::*;

verus! {

/// The balance of a currency as an exchange reports it.
#[derive(Debug)]
pub struct ExchangeBalance {
    pub currency_code: CurrencyCode,
    pub balance: Decimal,
}

impl Clone for ExchangeBalance {
    fn clone(&self) -> (r: Self)
        ensures
            r == *self,
    {
        ExchangeBalance { currency_code: self.currency_code.clone(), balance: self.balance }
    }
}

/// A position in a derivative market as an exchange reports it.
#[derive(Debug)]
pub struct DerivativePosition {
    pub currency_pair: CurrencyPair,
    pub position: Decimal,
    pub side: Option<OrderSide>,
    pub average_entry_price: Decimal,
    pub liquidation_price: Decimal,
    pub leverage: Decimal,
}

/// The balances and positions of an account as an exchange reports them.
#[derive(Debug)]
pub struct ExchangeBalancesAndPositions {
    pub balances: Vec<ExchangeBalance>,
    pub positions: Option<Vec<DerivativePosition>>,
}

/// The balances above zero, in their order.
pub open spec fn spec_non_zero_balances(balances: Seq<ExchangeBalance>) -> Seq<ExchangeBalance>
    decreases balances.len(),
{
    if balances.len() == 0 {
        Seq::empty()
    } else {
        let rest = spec_non_zero_balances(balances.drop_last());
        if balances.last().balance@ > 0 {
            rest.push(balances.last())
        } else {
            rest
        }
    }
}

impl ExchangeBalancesAndPositions {
    /// The balances that are worth showing: those above zero.
    pub fn non_zero_balances(&self) -> (r: Vec<ExchangeBalance>)
        ensures
            r@ == spec_non_zero_balances(self.balances@),
    {
        let mut shown: Vec<ExchangeBalance> = Vec::new();
        let mut i: usize = 0;
        while i < self.balances.len()
            invariant
                i <= self.balances@.len(),
                shown@ == spec_non_zero_balances(self.balances@.take(i as int)),
            decreases self.balances@.len() - i,
        {
            proof {
                let next = self.balances@.take(i + 1);
                assert(next.drop_last() == self.balances@.take(i as int));
                assert(next.last() == self.balances@[i as int]);
            }
            if self.balances[i].balance.gt(&Decimal::zero()) {
                shown.push(self.balances[i].clone());
            }
            i = i + 1;
        }
        proof {
            assert(self.balances@.take(i as int) == self.balances@);
        }
        shown
    }
}

/// A report of the balances and positions of an account.
#[derive(Debug)]
pub struct BalanceUpdateEvent {
    pub exchange_account_id: ExchangeAccountId,
    pub balances_and_positions: ExchangeBalancesAndPositions,
}

/// The version of liquidation price events that this library writes.
pub const LIQUIDATION_PRICE_CURRENT_VERSION: u32 = 1;

/// The state of an order.
#[derive(Clone, Copy, Debug, PartialEq, Eq, Structural)]
pub enum OrderStatus {
    Creating,
    Created,
    FailedToCreate,
    Canceling,
    Canceled,
    FailedToCancel,
    Completed,
}

/// The price at which a position would be liquidated.
#[derive(Debug)]
pub struct LiquidationPriceEvent {
    pub version: u32,
    pub event_creation_time: DateTime,
    pub exchange_account_id: ExchangeAccountId,
    pub currency_pair: CurrencyPair,
    pub liq_price: Decimal,
    pub entry_price: Decimal,
    pub side: OrderSide,
}

impl LiquidationPriceEvent {
    /// An event of the current version.
    pub fn new(
        event_creation_time: DateTime,
        exchange_account_id: ExchangeAccountId,
        currency_pair: CurrencyPair,
        liq_price: Decimal,
        entry_price: Decimal,
        side: OrderSide,
    ) -> (r: Self)
        ensures
            r == (LiquidationPriceEvent {
                version: LIQUIDATION_PRICE_CURRENT_VERSION,
                event_creation_time,
                exchange_account_id,
                currency_pair,
                liq_price,
                entry_price,
                side,
            }),
    {
        LiquidationPriceEvent {
            version: LIQUIDATION_PRICE_CURRENT_VERSION,
            event_creation_time,
            exchange_account_id,
            currency_pair,
            liq_price,
            entry_price,
            side,
        }
    }
}

/// The value of a decimal digit.
pub open spec fn digit_value(c: char) -> Option<int> {
    if c == '0' {
        Some(0)
    } else if c == '1' {
        Some(1)
    } else if c == '2' {
        Some(2)
    } else if c == '3' {
        Some(3)
    } else if c == '4' {
        Some(4)
    } else if c == '5' {
        Some(5)
    } else if c == '6' {
        Some(6)
    } else if c == '7' {
        Some(7)
    } else if c == '8' {
        Some(8)
    } else if c == '9' {
        Some(9)
    } else {
        None
    }
}

/// The number that decimal digits stand for, zero for none; `None` where a
/// character is no digit.
pub open spec fn digits_value(digits: Seq<char>) -> Option<int>
    decreases digits.len(),
{
    if digits.len() == 0 {
        Some(0)
    } else {
        match (digits_value(digits.drop_last()), digit_value(digits.last())) {
            (Some(value), Some(digit)) => Some(10 * value + digit),
            _ => None,
        }
    }
}

/// What `str::parse::<u64>` returns for a text: the number that the text
/// stands for where it is made of decimal digits, at least one, after an
/// optional plus sign, and the number is within what a `u64` holds; else
/// `None`.
pub open spec fn parsed_u64(text: Seq<char>) -> Option<u64> {
    let digits = if text.len() > 0 && text[0] == '+' {
        text.drop_first()
    } else {
        text
    };
    if digits.len() == 0 {
        None
    } else {
        match digits_value(digits) {
            Some(value) => if value <= u64::MAX {
                Some(value as u64)
            } else {
                None
            },
            None => None,
        }
    }
}

/// Calls `str::parse::<u64>` on the text. The contract claims what std
/// documents: the text is read as a number where it is an optional plus
/// sign followed by decimal digits only, at least one, and the number is
/// within what a `u64` holds; every other text is an error, which is handed
/// on as `None`.
#[verifier::external_body]
fn parse_u64(text: &str) -> (r: Option<u64>)
    ensures
        r == parsed_u64(text@),
{
    match text.parse::<u64>() {
        Ok(number) => Some(number),
        Err(_) => None,
    }
}

/// The identifier that an exchange gave to a trade: a number, or a text
/// where the exchange does not number its trades.
#[derive(Debug)]
pub enum TradeId {
    Number(u64),
    String(String),
}

impl Clone for TradeId {
    fn clone(&self) -> (r: Self)
        ensures
            r == *self,
    {
        match self {
            TradeId::Number(number) => TradeId::Number(*number),
            TradeId::String(text) => TradeId::String(text.clone()),
        }
    }
}

impl TradeId {
    /// The identifier that a text stands for: the number that it reads as,
    /// or the text itself where it does not read as one.
    pub open spec fn spec_from_text(text: String) -> TradeId {
        match parsed_u64(text@) {
            Some(number) => TradeId::Number(number),
            None => TradeId::String(text),
        }
    }

    /// Whether two identifiers are of the same kind.
    pub open spec fn same_format(self, other: TradeId) -> bool {
        (self is Number) == (other is Number)
    }

    /// Whether two identifiers of the same kind are equal.
    pub open spec fn spec_same(self, other: TradeId) -> bool {
        match (self, other) {
            (TradeId::Number(a), TradeId::Number(b)) => a == b,
            (TradeId::String(a), TradeId::String(b)) => a@ == b@,
            _ => false,
        }
    }

    /// The number of a numbered identifier.
    pub fn get_number(&self) -> (r: u64)
        requires
            self is Number,
        ensures
            *self == TradeId::Number(r),
    {
        match self {
            TradeId::Number(number) => *number,
            TradeId::String(_) => 0,
        }
    }

    /// The identifier that a text stands for.
    pub fn from_text(value: String) -> (r: Self)
        ensures
            r == Self::spec_from_text(value),
    {
        match parse_u64(value.as_str()) {
            Some(number) => TradeId::Number(number),
            None => TradeId::String(value),
        }
    }

    /// The identifier as text: the digits of a number as std writes them,
    /// or the text itself.
    pub fn to_text(&self) -> (r: String)
        ensures
            match *self {
                TradeId::Number(number) => vstd::string::to_string_from_display_ensures::<u64>(&number, r),
                TradeId::String(text) => r@ == text@,
            },
    {
        match self {
            TradeId::Number(number) => number.to_string(),
            TradeId::String(text) => text.clone(),
        }
    }

    /// Whether two identifiers of the same kind are equal.
    pub fn same(&self, other: &TradeId) -> (r: bool)
        requires
            self.same_format(*other),
        ensures
            r == self.spec_same(*other),
    {
        match (self, other) {
            (TradeId::Number(a), TradeId::Number(b)) => *a == *b,
            (TradeId::String(a), TradeId::String(b)) => *a == *b,
            _ => false,
        }
    }
}

/// A trade that happened on an exchange.
#[derive(Debug)]
pub struct Trade {
    pub trade_id: TradeId,
    pub price: Decimal,
    pub quantity: Decimal,
    pub side: OrderSide,
    /// When the exchange made the trade, or when the engine learned of it
    /// where the exchange does not say.
    pub transaction_time: DateTime,
}

/// The trades of a market that an exchange reported together.
#[derive(Debug)]
pub struct TradesEvent {
    pub exchange_account_id: ExchangeAccountId,
    pub currency_pair: CurrencyPair,
    pub trades: Vec<Trade>,
    pub receipt_time: DateTime,
}

/// From which sources events are accepted.
#[derive(Clone, Copy, Debug, PartialEq, Eq, Structural)]
pub enum AllowedEventSourceType {
    All,
    FallbackOnly,
    NonFallback,
}

impl Default for AllowedEventSourceType {
    fn default() -> (r: Self)
        ensures
            r == AllowedEventSourceType::All,
    {
        AllowedEventSourceType::All
    }
}

/// Where an event came from.
#[derive(Clone, Copy, Debug, PartialEq, Eq, Structural, Hash)]
pub enum EventSourceType {
    RestFallback,
    Rest,
    WebSocket,
    Rpc,
}

/// Whether an event from a source is to be ignored: with the fallback only
/// allowed everything but the fallback is, and without the fallback
/// everything but REST and the web socket.
pub open spec fn spec_should_ignore_event(
    allowed_event_source_type: AllowedEventSourceType,
    source_type: EventSourceType,
) -> bool {
    match allowed_event_source_type {
        AllowedEventSourceType::All => false,
        AllowedEventSourceType::FallbackOnly => source_type != EventSourceType::RestFallback,
        AllowedEventSourceType::NonFallback => source_type != EventSourceType::Rest && source_type
            != EventSourceType::WebSocket,
    }
}

/// Whether an event from a source is to be ignored.
pub fn should_ignore_event(allowed_event_source_type: AllowedEventSourceType, source_type: EventSourceType) -> (r: bool)
    ensures
        r == spec_should_ignore_event(allowed_event_source_type, source_type),
{
    if allowed_event_source_type == AllowedEventSourceType::FallbackOnly && source_type
        != EventSourceType::RestFallback {
        return true;
    }
    if allowed_event_source_type == AllowedEventSourceType::NonFallback && source_type != EventSourceType::Rest
        && source_type != EventSourceType::WebSocket {
        return true;
    }
    false
}

/// A time of measurement: milliseconds since the Unix epoch.
pub type MetricsTime = i64;

/// What was measured.
#[derive(Clone, Copy, Debug, PartialEq, Eq, Structural)]
pub enum MetricsEventType {
    TradeEvent,
    OrderBookEvent,
    MlPrediction,
    TradeToMl,
    OrderFromCreateToFill,
    OrderLifeCycle(OrderStatus),
}

/// A measurement: when it began and ended, and of what.
#[derive(Debug)]
pub struct MetricsEventInfoBase {
    pub start_time: MetricsTime,
    pub end_time: MetricsTime,
    pub event_type: MetricsEventType,
}

impl MetricsEventInfoBase {
    /// The time that the measurement took, given by how much the local
    /// clock is behind: the end, plus the offset, less the start.
    pub open spec fn spec_latency(&self, local_time_offset: MetricsTime) -> int {
        self.end_time + local_time_offset - self.start_time
    }

    /// A measurement.
    pub fn new(start_time: MetricsTime, end_time: MetricsTime, event_type: MetricsEventType) -> (r: Self)
        ensures
            r == (MetricsEventInfoBase { start_time, end_time, event_type }),
    {
        MetricsEventInfoBase { start_time, end_time, event_type }
    }

    /// The time that the measurement took; `None` where it does not fit a
    /// time.
    pub fn latency(&self, local_time_offset: MetricsTime) -> (r: Option<MetricsTime>)
        ensures
            match r {
                Some(latency) => latency == self.spec_latency(local_time_offset),
                None => self.spec_latency(local_time_offset) < i64::MIN || self.spec_latency(local_time_offset)
                    > i64::MAX,
            },
    {
        let wide: i128 = self.end_time as i128 + local_time_offset as i128 - self.start_time as i128;
        if wide < i64::MIN as i128 || wide > i64::MAX as i128 {
            None
        } else {
            Some(wide as i64)
        }
    }

    /// What was measured.
    pub fn event_type(&self) -> (r: MetricsEventType)
        ensures
            r == self.event_type,
    {
        self.event_type
    }
}

/// A measurement as it is recorded.
#[derive(Debug)]
pub struct MetricsEvent {
    pub latency: MetricsTime,
    /// When the measurement ended.
    pub measure_time: MetricsTime,
    pub event_type: MetricsEventType,
}

impl MetricsEvent {
    /// The record of a measurement; `None` where its latency does not fit a
    /// time.
    pub fn new(info: &MetricsEventInfoBase, local_time_offset: MetricsTime) -> (r: Option<Self>)
        ensures
            match r {
                Some(event) => event.latency == info.spec_latency(local_time_offset) && event.measure_time
                    == info.end_time && event.event_type == info.event_type,
                None => info.spec_latency(local_time_offset) < i64::MIN || info.spec_latency(local_time_offset)
                    > i64::MAX,
            },
    {
        match info.latency(local_time_offset) {
            Some(latency) => Some(MetricsEvent { latency, measure_time: info.end_time, event_type: info.event_type }),
            None => None,
        }
    }
}

/// A measurement with the source of the event that was measured.
#[derive(Debug)]
pub struct MetricsEventInfo {
    pub base: MetricsEventInfoBase,
    pub source_type: EventSourceType,
}

impl MetricsEventInfo {
    /// A measurement of an event from a source.
    pub fn new(
        start_time: MetricsTime,
        end_time: MetricsTime,
        source_type: EventSourceType,
        event_type: MetricsEventType,
    ) -> (r: Self)
        ensures
            r == (MetricsEventInfo {
                base: MetricsEventInfoBase { start_time, end_time, event_type },
                source_type,
            }),
    {
        MetricsEventInfo { base: MetricsEventInfoBase::new(start_time, end_time, event_type), source_type }
    }
}

/// Marks a branch in which nothing is to be done.
pub fn nothing_to_do() {
}

} // verus!
