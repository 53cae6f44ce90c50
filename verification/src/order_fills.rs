//! Applying the fills that an exchange reports to the orders of an account.
//!
//! A report is checked, matched with the order that the exchange names, and
//! turned into a fill of that order: its price, amount and cost, and the
//! commission paid for it. A report of the whole that was filled so far is
//! reduced to what is new by what the order's fills hold already. The order
//! is completed when all of its amount is filled.
//!
//! Nothing here sends anything: the listeners of an order are told by the
//! caller, from the events that a report hands back.

use crate::common::{spec_pair_text, ClientOrderId, CurrencyCode, CurrencyPair, DateTime, ExchangeAccountId, OrderSide};
use crate::currency_pair_metadata::CurrencyPairMetadata;
use crate::decimal::{Decimal, Round};
use crate::events::{should_ignore_event, spec_should_ignore_event, AllowedEventSourceType, EventSourceType, OrderStatus};
use crate::exchange::Exchange;
use crate::orders::{
    commission_sum, cost_sum, exchange_index, spec_commission_sum, spec_cost_sum, ExchangeOrderId, OrderEventType,
    OrderFill, OrderFillType, OrderRole, OrderSnapshot, OrderType, OrderView, Orders, OrdersPool,
};
use crate::vec_map::{lookup, spec_insert, Key, VecMap};
use vstd::prelude::*;
use vstd::string::StringExecFns;

verus! {

/// A fill of an order as an exchange reports it.
#[derive(Debug)]
pub struct FillEventData {
    pub source_type: EventSourceType,
    pub trade_id: String,
    pub client_order_id: Option<ClientOrderId>,
    pub exchange_order_id: ExchangeOrderId,
    pub fill_price: Decimal,
    pub fill_amount: Decimal,
    /// Whether the amount is what was filled since the last report, not
    /// all that was filled so far.
    pub is_diff: bool,
    pub total_filled_amount: Option<Decimal>,
    pub order_role: Option<OrderRole>,
    pub commission_currency_code: Option<CurrencyCode>,
    pub commission_rate: Option<Decimal>,
    pub commission_amount: Option<Decimal>,
    pub fill_type: OrderFillType,
    pub trade_currency_pair: Option<CurrencyPair>,
    pub order_side: Option<OrderSide>,
    pub order_amount: Option<Decimal>,
}

impl Clone for FillEventData {
    fn clone(&self) -> (r: Self)
        ensures
            r == *self,
    {
        FillEventData {
            source_type: self.source_type,
            trade_id: self.trade_id.clone(),
            client_order_id: match &self.client_order_id {
                Some(id) => Some(id.clone()),
                None => None,
            },
            exchange_order_id: self.exchange_order_id.clone(),
            fill_price: self.fill_price,
            fill_amount: self.fill_amount,
            is_diff: self.is_diff,
            total_filled_amount: self.total_filled_amount,
            order_role: self.order_role,
            commission_currency_code: match &self.commission_currency_code {
                Some(code) => Some(code.clone()),
                None => None,
            },
            commission_rate: self.commission_rate,
            commission_amount: self.commission_amount,
            fill_type: self.fill_type,
            trade_currency_pair: match &self.trade_currency_pair {
                Some(pair) => Some(pair.clone()),
                None => None,
            },
            order_side: self.order_side,
            order_amount: self.order_amount,
        }
    }
}

/// The fee of an account for one role, and the share of it that is paid
/// back as a reward, both in percent.
#[derive(Clone, Copy, Debug)]
pub struct CommissionForType {
    pub fee: Decimal,
    pub referral_reward: Decimal,
}

/// The fees of an account.
#[derive(Clone, Copy, Debug)]
pub struct Commission {
    pub maker: CommissionForType,
    pub taker: CommissionForType,
}

impl Commission {
    /// The fee for a role.
    pub open spec fn spec_get_commission(self, role: OrderRole) -> CommissionForType {
        match role {
            OrderRole::Maker => self.maker,
            OrderRole::Taker => self.taker,
        }
    }

    /// The fee for a role.
    pub fn get_commission(&self, role: OrderRole) -> (r: CommissionForType)
        ensures
            r == self.spec_get_commission(role),
    {
        match role {
            OrderRole::Maker => self.maker,
            OrderRole::Taker => self.taker,
        }
    }
}

/// The best prices of a market: the lowest ask and the highest bid.
#[derive(Clone, Copy, Debug)]
pub struct TopPrices {
    pub ask: Decimal,
    pub bid: Decimal,
}

/// What an account knows when a fill is reported: which sources of reports
/// it listens to, its markets, its fees, and the best prices of its markets.
#[derive(Debug)]
pub struct FillContext {
    pub allowed_fill_event_source_type: AllowedEventSourceType,
    pub symbols: VecMap<CurrencyPair, CurrencyPairMetadata>,
    pub commission: Commission,
    pub top_prices: VecMap<CurrencyPair, TopPrices>,
}

/// A `FillContext` as contracts see it.
pub struct ContextView {
    pub allowed_fill_event_source_type: AllowedEventSourceType,
    pub symbols: Seq<(CurrencyPair, CurrencyPairMetadata)>,
    pub commission: Commission,
    pub top_prices: Seq<(CurrencyPair, TopPrices)>,
}

impl View for FillContext {
    type V = ContextView;

    open spec fn view(&self) -> ContextView {
        ContextView {
            allowed_fill_event_source_type: self.allowed_fill_event_source_type,
            symbols: self.symbols.entries@,
            commission: self.commission,
            top_prices: self.top_prices.entries@,
        }
    }
}

/// Why a report of a fill was refused.
#[derive(Clone, Copy, Debug, PartialEq, Eq, Structural)]
pub enum FillError {
    /// The report names no order of the exchange.
    EmptyExchangeOrderId,
    /// A liquidation names no currency pair.
    CurrencyPairRequired,
    /// A liquidation or a closing of a position names no side.
    SideRequired,
    /// A liquidation or a closing of a position names an order of the
    /// engine.
    ClientOrderIdForbidden,
    /// A liquidation or a closing of a position names no amount.
    OrderAmountRequired,
    /// The account has no market for the currency pair of the order.
    UnknownCurrencyPair,
    /// The order failed to be created, is completed, or its cancellation
    /// was announced.
    WrongStatusOrCancelled { status: OrderStatus, cancellation_event_was_raised: bool },
    /// Neither the report nor the order tells the role, and the report
    /// holds neither a commission nor its rate.
    NoCommissionNorRate,
    /// Neither the report nor the order tells the role.
    UnknownOrderRole,
    /// An amount was to be expressed in a currency outside the pair, or
    /// the arithmetic of the conversion failed.
    ConversionFailed,
    /// More is filled than was ordered.
    FilledMoreThanOrdered,
    /// A number does not fit a decimal, or a division by zero.
    Arithmetic,
}

/// The name of a state of an order.
pub open spec fn spec_status_name(status: OrderStatus) -> Seq<char> {
    match status {
        OrderStatus::Creating => "Creating"@,
        OrderStatus::Created => "Created"@,
        OrderStatus::FailedToCreate => "FailedToCreate"@,
        OrderStatus::Canceling => "Canceling"@,
        OrderStatus::Canceled => "Canceled"@,
        OrderStatus::FailedToCancel => "FailedToCancel"@,
        OrderStatus::Completed => "Completed"@,
    }
}

/// The name of a state of an order.
pub fn status_name(status: OrderStatus) -> (r: &'static str)
    ensures
        r@ == spec_status_name(status),
{
    match status {
        OrderStatus::Creating => "Creating",
        OrderStatus::Created => "Created",
        OrderStatus::FailedToCreate => "FailedToCreate",
        OrderStatus::Canceling => "Canceling",
        OrderStatus::Canceled => "Canceled",
        OrderStatus::FailedToCancel => "FailedToCancel",
        OrderStatus::Completed => "Completed",
    }
}

impl FillError {
    /// What the error says, where it says the same of every report.
    pub open spec fn spec_plain_message(self) -> Seq<char> {
        match self {
            FillError::EmptyExchangeOrderId => "Received HandleOrderFilled with an empty exchangeOrderId"@,
            FillError::CurrencyPairRequired => "Currency pair should be set for liquidation trade"@,
            FillError::SideRequired => "Side should be set for liquidatioin or close position trade"@,
            FillError::ClientOrderIdForbidden => "Client order id cannot be set for liquidation or close position trade"@,
            FillError::OrderAmountRequired => "Order amount should be set for liquidation or close position trade"@,
            FillError::UnknownCurrencyPair => "The account has no market for the currency pair of the order"@,
            FillError::WrongStatusOrCancelled { .. } => "Fill was received for a "@,
            FillError::NoCommissionNorRate => "Fill has neither commission nor commission rate"@,
            FillError::UnknownOrderRole => "Unable to determine order_role"@,
            FillError::ConversionFailed => "Unable to express the fill in the currency of the commission"@,
            FillError::FilledMoreThanOrdered => "filled_amount > order.amount"@,
            FillError::Arithmetic => "A number of the fill does not fit a decimal"@,
        }
    }

    /// What the error says. Of an order that can take no fill it names the
    /// state of the order, and whether its cancellation was announced.
    pub open spec fn spec_message(self) -> Seq<char> {
        match self {
            FillError::WrongStatusOrCancelled { status, cancellation_event_was_raised } => self.spec_plain_message()
                + spec_status_name(status) + " "@ + if cancellation_event_was_raised {
                "true"@
            } else {
                "false"@
            },
            _ => self.spec_plain_message(),
        }
    }

    /// What the error says, where it says the same of every report.
    pub fn plain_message(&self) -> (r: &'static str)
        ensures
            r@ == self.spec_plain_message(),
    {
        match self {
            FillError::EmptyExchangeOrderId => "Received HandleOrderFilled with an empty exchangeOrderId",
            FillError::CurrencyPairRequired => "Currency pair should be set for liquidation trade",
            FillError::SideRequired => "Side should be set for liquidatioin or close position trade",
            FillError::ClientOrderIdForbidden => "Client order id cannot be set for liquidation or close position trade",
            FillError::OrderAmountRequired => "Order amount should be set for liquidation or close position trade",
            FillError::UnknownCurrencyPair => "The account has no market for the currency pair of the order",
            FillError::WrongStatusOrCancelled { .. } => "Fill was received for a ",
            FillError::NoCommissionNorRate => "Fill has neither commission nor commission rate",
            FillError::UnknownOrderRole => "Unable to determine order_role",
            FillError::ConversionFailed => "Unable to express the fill in the currency of the commission",
            FillError::FilledMoreThanOrdered => "filled_amount > order.amount",
            FillError::Arithmetic => "A number of the fill does not fit a decimal",
        }
    }

    /// What the error says.
    pub fn message(&self) -> (r: String)
        ensures
            r@ == self.spec_message(),
    {
        let plain = String::from_str(self.plain_message());
        match self {
            FillError::WrongStatusOrCancelled { status, cancellation_event_was_raised } => {
                let raised = if *cancellation_event_was_raised {
                    "true"
                } else {
                    "false"
                };
                plain.concat(status_name(*status)).concat(" ").concat(raised)
            },
            _ => plain,
        }
    }
}

/// What was done with a report of a fill.
#[derive(Debug)]
pub enum FillHandled {
    /// The account does not listen to the source of the report.
    IgnoredSource,
    /// The exchange's order is not known. `created` is the order of the
    /// engine that the report names, which the exchange has thus created.
    UnknownOrder { created: Option<ClientOrderId> },
    /// A fill of the order has the trade's identifier already.
    TradeAlreadyReceived,
    /// A part cannot be added after a whole was.
    DiffFillAfterNonDiff,
    /// The whole that is reported is no more than what is filled already.
    FilledAmountNotLess,
    /// What is new of the report costs nothing, or is nothing.
    NoLastFillData,
    /// The fill would not bring what is filled to the total that the
    /// report names.
    TotalFilledAmountMismatch,
    /// The fill was added to the order; `completed` tells whether the order
    /// is filled with it.
    Added { completed: bool },
}

/// The price, amount and cost of what is new of a report.
#[derive(Clone, Copy, Debug)]
pub struct LastFill {
    pub price: Decimal,
    pub amount: Decimal,
    pub cost: Decimal,
}

/// The commission of a fill.
#[derive(Debug)]
pub struct FillCommission {
    pub currency_code: CurrencyCode,
    pub amount: Decimal,
    pub referral_reward_amount: Decimal,
    pub converted_currency_code: CurrencyCode,
    pub converted_amount: Decimal,
    pub expected_converted_amount: Decimal,
}

/// What the listeners of an order are to be told.
#[derive(Debug)]
pub struct OrderEvent {
    pub client_order_id: ClientOrderId,
    pub event_type: OrderEventType,
}

/// What became of a report of a fill, and what the listeners of the order
/// are to be told, in this order.
#[derive(Debug)]
pub struct FillReport {
    pub handled: Result<FillHandled, FillError>,
    pub events: Vec<OrderEvent>,
}

/// The mantissa and the scale of one hundredth: fees are given in percent.
pub const HUNDREDTH_MANTISSA: i128 = 1;

pub const HUNDREDTH_SCALE: u32 = 2;

/// One hundredth.
pub open spec fn spec_one_hundredth() -> Decimal {
    Decimal::spec_from_parts(HUNDREDTH_MANTISSA, HUNDREDTH_SCALE).unwrap()
}

/// One hundredth.
pub fn one_hundredth() -> (r: Decimal)
    ensures
        r == spec_one_hundredth(),
{
    proof {
        Decimal::lemma_from_parts(HUNDREDTH_MANTISSA, HUNDREDTH_SCALE);
    }
    Decimal::from_parts(HUNDREDTH_MANTISSA, HUNDREDTH_SCALE).unwrap()
}

/// Whether a fill has the identifier of a trade.
pub open spec fn has_trade_id(fill: OrderFill, trade_id: Seq<char>) -> bool {
    fill.trade_id matches Some(own) && own@ == trade_id
}

/// Whether a trade was received already: it has an identifier, and a fill
/// has it too.
pub open spec fn spec_was_trade_already_received(trade_id: Seq<char>, order_fills: Seq<OrderFill>) -> bool {
    trade_id.len() != 0 && exists|i: int| 0 <= i < order_fills.len() && has_trade_id(#[trigger] order_fills[i], trade_id)
}

/// Whether a part is reported after a whole was added.
pub open spec fn spec_diff_fill_after_non_diff(event_data: FillEventData, order_fills: Seq<OrderFill>) -> bool {
    event_data.is_diff && exists|i: int| 0 <= i < order_fills.len() && !(#[trigger] order_fills[i]).is_diff
}

/// Whether the whole that is reported is no more than what is filled.
pub open spec fn spec_filled_amount_not_less_event_fill(event_data: FillEventData, order_filled_amount: Decimal) -> bool {
    !event_data.is_diff && order_filled_amount@ >= event_data.fill_amount@
}

/// What an amount costs at a price: their product, on a derivative market
/// their quotient.
pub open spec fn spec_fill_cost(metadata: CurrencyPairMetadata, amount: Decimal, price: Decimal) -> Option<Decimal> {
    if !metadata.is_derivative {
        amount.spec_mul(price)
    } else {
        amount.spec_div(price)
    }
}

/// The price at which an amount costs `cost`: the cost by the amount, on a
/// derivative market the amount by the cost.
pub open spec fn spec_fill_price(metadata: CurrencyPairMetadata, amount: Decimal, cost: Decimal) -> Option<Decimal> {
    if !metadata.is_derivative {
        cost.spec_div(amount)
    } else {
        amount.spec_div(cost)
    }
}

/// What a report of the whole costs more than the fills of the order:
/// nothing (`None`) where that is not above zero.
pub open spec fn spec_calculate_cost_diff(order_fills: Seq<OrderFill>, last_fill_cost: Decimal) -> Result<
    Option<Decimal>,
    FillError,
> {
    match spec_cost_sum(order_fills) {
        None => Err(FillError::Arithmetic),
        Some(total) => match last_fill_cost.spec_sub(total) {
            None => Err(FillError::Arithmetic),
            Some(cost_diff) => if cost_diff@ <= 0 {
                Ok(None)
            } else {
                Ok(Some(cost_diff))
            },
        },
    }
}

/// What is new of a report of the whole: the amount beyond what is filled,
/// at the cost beyond that of the fills, and the price that this makes,
/// rounded to the market's precision. A commission in the report is reduced
/// by the commissions of the fills.
pub open spec fn spec_calculate_last_fill_data(
    last_fill_amount: Decimal,
    order_fills: Seq<OrderFill>,
    order_filled_amount: Decimal,
    metadata: CurrencyPairMetadata,
    cost_diff: Decimal,
    event_data: FillEventData,
) -> Result<(LastFill, FillEventData), FillError> {
    match last_fill_amount.spec_sub(order_filled_amount) {
        None => Err(FillError::Arithmetic),
        Some(amount_diff) => match spec_fill_price(metadata, amount_diff, cost_diff) {
            None => Err(FillError::Arithmetic),
            Some(raw_price) => match metadata.price_precision.spec_round(raw_price, Round::ToNearest) {
                None => Err(FillError::Arithmetic),
                Some(price) => {
                    let last = LastFill { price, amount: amount_diff, cost: cost_diff };
                    match event_data.commission_amount {
                        None => Ok((last, event_data)),
                        Some(commission) => match spec_commission_sum(order_fills) {
                            None => Err(FillError::Arithmetic),
                            Some(paid) => match commission.spec_sub(paid) {
                                None => Err(FillError::Arithmetic),
                                Some(rest) => Ok(
                                    (last, FillEventData { commission_amount: Some(rest), ..event_data }),
                                ),
                            },
                        },
                    }
                },
            },
        },
    }
}

/// The price, amount and cost of what is new of a report, with the report
/// as it is afterwards. A part is new as it is reported. Of a whole, what
/// is beyond the fills of the order is new. Nothing is new (`None`) where
/// the whole costs no more than the fills, or the amount is zero.
pub open spec fn spec_get_last_fill_data(
    event_data: FillEventData,
    metadata: CurrencyPairMetadata,
    order_fills: Seq<OrderFill>,
    order_filled_amount: Decimal,
) -> Result<(Option<LastFill>, FillEventData), FillError> {
    match spec_fill_cost(metadata, event_data.fill_amount, event_data.fill_price) {
        None => Err(FillError::Arithmetic),
        Some(cost) => if !event_data.is_diff && order_fills.len() > 0 {
            match spec_calculate_cost_diff(order_fills, cost) {
                Err(e) => Err(e),
                Ok(None) => Ok((None, event_data)),
                Ok(Some(cost_diff)) => match spec_calculate_last_fill_data(
                    event_data.fill_amount,
                    order_fills,
                    order_filled_amount,
                    metadata,
                    cost_diff,
                    event_data,
                ) {
                    Err(e) => Err(e),
                    Ok((last, changed)) => if last.amount@ == 0 {
                        Ok((None, changed))
                    } else {
                        Ok((Some(last), changed))
                    },
                },
            }
        } else {
            if event_data.fill_amount@ == 0 {
                Ok((None, event_data))
            } else {
                Ok(
                    (
                        Some(LastFill { price: event_data.fill_price, amount: event_data.fill_amount, cost }),
                        event_data,
                    ),
                )
            }
        },
    }
}

/// Whether an order can take no fill: it failed to be created, is
/// completed, or its cancellation was announced.
pub open spec fn spec_wrong_status_or_cancelled(order: OrderView) -> Result<(), FillError> {
    if order.status == OrderStatus::FailedToCreate || order.status == OrderStatus::Completed
        || order.cancellation_event_was_raised {
        Err(
            FillError::WrongStatusOrCancelled {
                status: order.status,
                cancellation_event_was_raised: order.cancellation_event_was_raised,
            },
        )
    } else {
        Ok(())
    }
}

/// The role of the order in a fill: what the report says, else what the
/// order says.
pub open spec fn spec_get_order_role(event_data: FillEventData, order_role: Option<OrderRole>) -> Result<
    OrderRole,
    FillError,
> {
    match event_data.order_role {
        Some(role) => Ok(role),
        None => match order_role {
            Some(role) => Ok(role),
            None => if event_data.commission_amount is None && event_data.commission_rate is None {
                Err(FillError::NoCommissionNorRate)
            } else {
                Err(FillError::UnknownOrderRole)
            },
        },
    }
}

/// A commission paid in a currency outside the pair, in the quote currency:
/// at the best bid of the market of the two currencies, else at the best
/// ask of the reverse market. A commission in a currency of the pair, or
/// for which neither market has prices, stays as it is.
pub open spec fn spec_converted_commission(
    top_prices: Seq<(CurrencyPair, TopPrices)>,
    metadata: CurrencyPairMetadata,
    currency_code: CurrencyCode,
    amount: Decimal,
) -> Result<(CurrencyCode, Decimal), FillError> {
    if currency_code@ != metadata.base_currency_code@ && currency_code@ != metadata.quote_currency_code@ {
        match lookup(top_prices, spec_pair_text(currency_code@, metadata.quote_currency_code@)) {
            Some(prices) => match amount.spec_mul(prices.bid) {
                Some(converted) => Ok((metadata.quote_currency_code, converted)),
                None => Err(FillError::Arithmetic),
            },
            None => match lookup(top_prices, spec_pair_text(metadata.quote_currency_code@, currency_code@)) {
                Some(prices) => match amount.spec_div(prices.ask) {
                    Some(converted) => Ok((metadata.quote_currency_code, converted)),
                    None => Err(FillError::Arithmetic),
                },
                None => Ok((currency_code, amount)),
            },
        }
    } else {
        Ok((currency_code, amount))
    }
}

/// The rate of commission of a report, or the expected one where it names
/// none.
pub open spec fn rate_or(event_data: FillEventData, expected_rate: Decimal) -> Decimal {
    match event_data.commission_rate {
        Some(rate) => rate,
        None => expected_rate,
    }
}

/// The commission of a fill, with the report as it is afterwards.
///
/// The commission is in the currency that the report names, else in the
/// currency in which the market takes it for the side. A report without
/// commission and rate gets the rate that the fee of the role makes one
/// expect; a report without commission gets the amount of the fill in the
/// currency of the commission, times the rate. The reward is the share of
/// the commission that the account is paid back.
pub open spec fn spec_fill_commission(
    context: ContextView,
    metadata: CurrencyPairMetadata,
    side: OrderSide,
    role: OrderRole,
    event_data: FillEventData,
    last: LastFill,
) -> (FillEventData, Result<FillCommission, FillError>) {
    let currency_code = match event_data.commission_currency_code {
        Some(code) => code,
        None => metadata.spec_commission_currency_code(side),
    };
    let by_role = context.commission.spec_get_commission(role);
    match by_role.fee.spec_mul(spec_one_hundredth()) {
        None => (event_data, Err(FillError::Arithmetic)),
        Some(expected_rate) => {
            let rated = if event_data.commission_amount is None && event_data.commission_rate is None {
                FillEventData { commission_rate: Some(expected_rate), ..event_data }
            } else {
                event_data
            };
            let amount: Result<Decimal, FillError> = match rated.commission_amount {
                Some(amount) => Ok(amount),
                None => match metadata.spec_from_amount_currency(currency_code@, last.amount, last.price) {
                    None => Err(FillError::ConversionFailed),
                    Some(in_code) => match in_code.spec_mul(rate_or(rated, expected_rate)) {
                        None => Err(FillError::Arithmetic),
                        Some(amount) => Ok(amount),
                    },
                },
            };
            match amount {
                Err(e) => (rated, Err(e)),
                Ok(amount) => {
                    let charged = FillEventData { commission_amount: Some(amount), ..rated };
                    match spec_converted_commission(context.top_prices, metadata, currency_code, amount) {
                        Err(e) => (charged, Err(e)),
                        Ok((converted_currency_code, converted_amount)) => match metadata.spec_from_amount_currency(
                            converted_currency_code@,
                            last.amount,
                            last.price,
                        ) {
                            None => (charged, Err(FillError::ConversionFailed)),
                            Some(in_converted) => match in_converted.spec_mul(expected_rate) {
                                None => (charged, Err(FillError::Arithmetic)),
                                Some(expected_converted_amount) => match amount.spec_mul(by_role.referral_reward) {
                                    None => (charged, Err(FillError::Arithmetic)),
                                    Some(reward) => match reward.spec_mul(spec_one_hundredth()) {
                                        None => (charged, Err(FillError::Arithmetic)),
                                        Some(referral_reward_amount) => (
                                            charged,
                                            Ok(
                                                FillCommission {
                                                    currency_code,
                                                    amount,
                                                    referral_reward_amount,
                                                    converted_currency_code,
                                                    converted_amount,
                                                    expected_converted_amount,
                                                },
                                            ),
                                        ),
                                    },
                                },
                            },
                        },
                    }
                },
            }
        },
    }
}

/// The fill that a report makes.
pub open spec fn spec_make_fill(
    event_data: FillEventData,
    price: Decimal,
    last: LastFill,
    role: OrderRole,
    commission: FillCommission,
    now: DateTime,
) -> OrderFill {
    OrderFill {
        receive_time: now,
        fill_type: event_data.fill_type,
        trade_id: Some(event_data.trade_id),
        price,
        amount: last.amount,
        cost: last.cost,
        role,
        commission_currency_code: commission.currency_code,
        commission_amount: commission.amount,
        referral_reward_amount: commission.referral_reward_amount,
        converted_commission_currency_code: commission.converted_currency_code,
        converted_commission_amount: commission.converted_amount,
        expected_converted_commission_amount: commission.expected_converted_amount,
        is_diff: false,
    }
}

/// Adds a fill to an order.
///
/// The fill is recorded at its price rounded to the market's precision, as
/// a whole. The average price of the order becomes the price at which all
/// that is filled costs what the fills cost, rounded. It is an error where
/// more is filled than was ordered; the fill stays. The order is completed
/// where all of its amount is filled: the result is `true` then.
pub open spec fn spec_apply_fill(
    order: OrderView,
    metadata: CurrencyPairMetadata,
    event_data: FillEventData,
    last: LastFill,
    role: OrderRole,
    commission: FillCommission,
    now: DateTime,
) -> (OrderView, Result<bool, FillError>) {
    match metadata.price_precision.spec_round(last.price, Round::ToNearest) {
        None => (order, Err(FillError::Arithmetic)),
        Some(price) => match order.spec_add_fill(spec_make_fill(event_data, price, last, role, commission, now)) {
            None => (order, Err(FillError::Arithmetic)),
            Some(filled) => match spec_cost_sum(filled.fills) {
                None => (filled, Err(FillError::Arithmetic)),
                Some(cost) => match spec_fill_price(metadata, filled.filled_amount, cost) {
                    None => (filled, Err(FillError::Arithmetic)),
                    Some(average) => match metadata.price_precision.spec_round(average, Round::ToNearest) {
                        None => (filled, Err(FillError::Arithmetic)),
                        Some(average_fill_price) => {
                            let priced = OrderView { average_fill_price, ..filled };
                            if priced.filled_amount@ > priced.amount@ {
                                (priced, Err(FillError::FilledMoreThanOrdered))
                            } else if priced.filled_amount@ == priced.amount@ {
                                (OrderView { status: OrderStatus::Completed, ..priced }, Ok(true))
                            } else {
                                (priced, Ok(false))
                            }
                        },
                    },
                },
            },
        },
    }
}

/// What a report of a fill does to the order that it is for, with the
/// report as it is afterwards.
///
/// The report is passed over where its trade is among the fills already,
/// where it is a part after a whole, where it is a whole of no more than
/// what is filled, where nothing of it is new, and where the fill would not
/// bring what is filled to the total that it names. It is an error where
/// the account has no market for the order's currency pair, where the order
/// can take no fill, and where the role cannot be told. Else the fill is
/// added with its commission.
pub open spec fn spec_local_order_exist(
    context: ContextView,
    order: OrderView,
    event_data: FillEventData,
    now: DateTime,
) -> (OrderView, FillEventData, Result<FillHandled, FillError>) {
    if spec_was_trade_already_received(event_data.trade_id@, order.fills) {
        (order, event_data, Ok(FillHandled::TradeAlreadyReceived))
    } else if spec_diff_fill_after_non_diff(event_data, order.fills) {
        (order, event_data, Ok(FillHandled::DiffFillAfterNonDiff))
    } else if spec_filled_amount_not_less_event_fill(event_data, order.filled_amount) {
        (order, event_data, Ok(FillHandled::FilledAmountNotLess))
    } else {
        match lookup(context.symbols, order.currency_pair@) {
            None => (order, event_data, Err(FillError::UnknownCurrencyPair)),
            Some(metadata) => match spec_get_last_fill_data(event_data, metadata, order.fills, order.filled_amount) {
                Err(e) => (order, event_data, Err(e)),
                Ok((None, changed)) => (order, changed, Ok(FillHandled::NoLastFillData)),
                Ok((Some(last), changed)) => spec_add_last_fill(context, order, metadata, changed, last, now),
            },
        }
    }
}

/// Whether a fill of `amount` would not bring what is filled to the total
/// that the report names; an error where the sum overflows.
pub open spec fn spec_total_mismatch(event_data: FillEventData, order_filled_amount: Decimal, amount: Decimal) -> Result<
    bool,
    FillError,
> {
    match event_data.total_filled_amount {
        None => Ok(false),
        Some(total) => match order_filled_amount.spec_add(amount) {
            None => Err(FillError::Arithmetic),
            Some(sum) => Ok(sum@ != total@),
        },
    }
}

/// The second half of `spec_local_order_exist`, for what is new of a
/// report.
pub open spec fn spec_add_last_fill(
    context: ContextView,
    order: OrderView,
    metadata: CurrencyPairMetadata,
    event_data: FillEventData,
    last: LastFill,
    now: DateTime,
) -> (OrderView, FillEventData, Result<FillHandled, FillError>) {
    match spec_total_mismatch(event_data, order.filled_amount, last.amount) {
        Err(e) => (order, event_data, Err(e)),
        Ok(true) => (order, event_data, Ok(FillHandled::TotalFilledAmountMismatch)),
        Ok(false) => match spec_wrong_status_or_cancelled(order) {
            Err(e) => (order, event_data, Err(e)),
            Ok(()) => match spec_get_order_role(event_data, order.role) {
                Err(e) => (order, event_data, Err(e)),
                Ok(role) => {
                    let (charged, commission) = spec_fill_commission(
                        context,
                        metadata,
                        order.side,
                        role,
                        event_data,
                        last,
                    );
                    match commission {
                        Err(e) => (order, charged, Err(e)),
                        Ok(commission) => {
                            let (filled, result) = spec_apply_fill(
                                order,
                                metadata,
                                charged,
                                last,
                                role,
                                commission,
                                now,
                            );
                            match result {
                                Err(e) => (filled, charged, Err(e)),
                                Ok(completed) => (filled, charged, Ok(FillHandled::Added { completed })),
                            }
                        },
                    }
                },
            },
        },
    }
}

/// Whether a fill is a liquidation or the closing of a position.
pub open spec fn is_forced(fill_type: OrderFillType) -> bool {
    fill_type == OrderFillType::Liquidation || fill_type == OrderFillType::ClosePosition
}

/// The order that stands for a liquidation or the closing of a position
/// which the engine did not order: a taker's order under a new identifier,
/// at the price of the fill, which the exchange has confirmed.
pub open spec fn spec_create_order_instance(
    exchange_account_id: ExchangeAccountId,
    event_data: FillEventData,
    currency_pair: CurrencyPair,
    order_side: OrderSide,
    order_amount: Decimal,
    client_order_id: ClientOrderId,
) -> OrderView {
    OrderView {
        exchange_order_id: Some(event_data.exchange_order_id),
        status: OrderStatus::Created,
        creation_event_source_type: Some(event_data.source_type),
        ..OrderView::spec_with_params(
            client_order_id,
            OrderType::Liquidation,
            Some(OrderRole::Taker),
            exchange_account_id,
            currency_pair,
            event_data.fill_price,
            order_amount,
            order_side,
            None,
        )
    }
}

/// The check of a report by the kind of its fill, with the orders and the
/// report as they are afterwards.
///
/// A liquidation or the closing of a position names a side and an amount
/// and no order of the engine, and a liquidation a currency pair. Where the
/// exchange's order is known, the report gets the order's identifier. Else
/// an order is made for it under `fresh_client_order_id` and added to the
/// pool: the result is `true` then.
pub open spec fn spec_check_based_on_fill_type(
    exchange_account_id: ExchangeAccountId,
    orders: Orders,
    event_data: FillEventData,
    fresh_client_order_id: ClientOrderId,
) -> (Orders, FillEventData, Result<bool, FillError>) {
    if !is_forced(event_data.fill_type) {
        (orders, event_data, Ok(false))
    } else if event_data.fill_type == OrderFillType::Liquidation && event_data.trade_currency_pair is None {
        (orders, event_data, Err(FillError::CurrencyPairRequired))
    } else if event_data.order_side is None {
        (orders, event_data, Err(FillError::SideRequired))
    } else if event_data.client_order_id is Some {
        (orders, event_data, Err(FillError::ClientOrderIdForbidden))
    } else if event_data.order_amount is None {
        (orders, event_data, Err(FillError::OrderAmountRequired))
    } else {
        let index = exchange_index(orders, event_data.exchange_order_id@);
        if index < orders.len() {
            (orders, FillEventData { client_order_id: Some(orders[index].1.client_order_id), ..event_data }, Ok(false))
        } else {
            match event_data.trade_currency_pair {
                None => (orders, event_data, Err(FillError::CurrencyPairRequired)),
                Some(currency_pair) => (
                    spec_insert(
                        orders,
                        fresh_client_order_id,
                        spec_create_order_instance(
                            exchange_account_id,
                            event_data,
                            currency_pair,
                            event_data.order_side.unwrap(),
                            event_data.order_amount.unwrap(),
                            fresh_client_order_id,
                        ),
                    ),
                    FillEventData { client_order_id: Some(fresh_client_order_id), ..event_data },
                    Ok(true),
                ),
            }
        }
    }
}

/// What the listeners are told of an order that was made for a report.
pub open spec fn creation_events(created: bool, client_order_id: ClientOrderId) -> Seq<OrderEvent> {
    if created {
        seq![OrderEvent { client_order_id, event_type: OrderEventType::CreateOrderSucceeded }]
    } else {
        Seq::empty()
    }
}

/// What the listeners are told of an order that a fill has completed: that
/// it is filled, and that it is completed.
pub open spec fn completion_events(handled: Result<FillHandled, FillError>, client_order_id: ClientOrderId) -> Seq<
    OrderEvent,
> {
    if handled == Ok::<FillHandled, FillError>(FillHandled::Added { completed: true }) {
        seq![
            OrderEvent { client_order_id, event_type: OrderEventType::OrderFilled },
            OrderEvent { client_order_id, event_type: OrderEventType::OrderCompleted },
        ]
    } else {
        Seq::empty()
    }
}

impl Exchange {
    /// What a report of a fill does to the orders of the account: the
    /// orders afterwards, what became of the report, and what the listeners
    /// are to be told.
    ///
    /// A report from a source that the account does not listen to is passed
    /// over. A report without the exchange's order is an error. After the
    /// check by the kind of the fill, the report is applied to the first
    /// order that the exchange knows under the identifier; where there is
    /// none, nothing is done.
    pub open spec fn spec_handle_order_filled(
        self,
        context: ContextView,
        orders: Orders,
        event_data: FillEventData,
        fresh_client_order_id: ClientOrderId,
        now: DateTime,
    ) -> (Orders, Result<FillHandled, FillError>, Seq<OrderEvent>) {
        if spec_should_ignore_event(context.allowed_fill_event_source_type, event_data.source_type) {
            (orders, Ok(FillHandled::IgnoredSource), Seq::empty())
        } else if event_data.exchange_order_id@.len() == 0 {
            (orders, Err(FillError::EmptyExchangeOrderId), Seq::empty())
        } else {
            let (checked_orders, checked, result) = spec_check_based_on_fill_type(
                self.exchange_account_id,
                orders,
                event_data,
                fresh_client_order_id,
            );
            match result {
                Err(e) => (checked_orders, Err(e), Seq::empty()),
                Ok(created) => {
                    let told = creation_events(created, fresh_client_order_id);
                    let index = exchange_index(checked_orders, checked.exchange_order_id@);
                    if index < checked_orders.len() {
                        let (order, _, handled) = spec_local_order_exist(
                            context,
                            checked_orders[index].1,
                            checked,
                            now,
                        );
                        (
                            checked_orders.update(index, (checked_orders[index].0, order)),
                            handled,
                            told + completion_events(handled, checked_orders[index].0),
                        )
                    } else {
                        (checked_orders, Ok(FillHandled::UnknownOrder { created: checked.client_order_id }), told)
                    }
                },
            }
        }
    }

    /// Whether a trade was received already: it has an identifier, and a
    /// fill has it too.
    pub fn was_trade_already_received(trade_id: &String, order_fills: &Vec<OrderFill>) -> (r: bool)
        ensures
            r == spec_was_trade_already_received(trade_id@, order_fills@),
    {
        if trade_id.as_str().is_empty() {
            return false;
        }
        let mut i: usize = 0;
        while i < order_fills.len()
            invariant
                i <= order_fills@.len(),
                trade_id@.len() != 0,
                forall|j: int| 0 <= j < i ==> !has_trade_id(#[trigger] order_fills@[j], trade_id@),
            decreases order_fills@.len() - i,
        {
            let found = match &order_fills[i].trade_id {
                Some(own) => *own == *trade_id,
                None => false,
            };
            if found {
                proof {
                    let at = i as int;
                    assert(0 <= at < order_fills@.len() && has_trade_id(order_fills@[at], trade_id@));
                }
                return true;
            }
            i = i + 1;
        }
        false
    }

    /// Whether a part is reported after a whole was added.
    pub fn diff_fill_after_non_diff(event_data: &FillEventData, order_fills: &Vec<OrderFill>) -> (r: bool)
        ensures
            r == spec_diff_fill_after_non_diff(*event_data, order_fills@),
    {
        if !event_data.is_diff {
            return false;
        }
        let mut i: usize = 0;
        while i < order_fills.len()
            invariant
                i <= order_fills@.len(),
                event_data.is_diff,
                forall|j: int| 0 <= j < i ==> (#[trigger] order_fills@[j]).is_diff,
            decreases order_fills@.len() - i,
        {
            if !order_fills[i].is_diff {
                proof {
                    let at = i as int;
                    assert(0 <= at < order_fills@.len() && !order_fills@[at].is_diff);
                }
                return true;
            }
            i = i + 1;
        }
        false
    }

    /// Whether the whole that is reported is no more than what is filled.
    pub fn filled_amount_not_less_event_fill(event_data: &FillEventData, order_filled_amount: Decimal) -> (r: bool)
        ensures
            r == spec_filled_amount_not_less_event_fill(*event_data, order_filled_amount),
    {
        !event_data.is_diff && order_filled_amount.ge(&event_data.fill_amount)
    }

    /// What a report of the whole costs more than the fills of the order.
    pub fn calculate_cost_diff(order_fills: &Vec<OrderFill>, last_fill_cost: Decimal) -> (r: Result<
        Option<Decimal>,
        FillError,
    >)
        ensures
            r == spec_calculate_cost_diff(order_fills@, last_fill_cost),
    {
        let total = match cost_sum(order_fills) {
            Some(total) => total,
            None => return Err(FillError::Arithmetic),
        };
        let cost_diff = match last_fill_cost.checked_sub(total) {
            Some(cost_diff) => cost_diff,
            None => return Err(FillError::Arithmetic),
        };
        if cost_diff.le(&Decimal::zero()) {
            Ok(None)
        } else {
            Ok(Some(cost_diff))
        }
    }

    /// What is new of a report of the whole. The report's commission is
    /// reduced by the commissions of the fills; the report is unchanged
    /// where the result is an error.
    pub fn calculate_last_fill_data(
        last_fill_amount: Decimal,
        order_fills: &Vec<OrderFill>,
        order_filled_amount: Decimal,
        currency_pair_metadata: &CurrencyPairMetadata,
        cost_diff: Decimal,
        event_data: &mut FillEventData,
    ) -> (r: Result<LastFill, FillError>)
        ensures
            match spec_calculate_last_fill_data(
                last_fill_amount,
                order_fills@,
                order_filled_amount,
                *currency_pair_metadata,
                cost_diff,
                *old(event_data),
            ) {
                Ok((last, changed)) => r == Ok::<LastFill, FillError>(last) && *final(event_data) == changed,
                Err(e) => r == Err::<LastFill, FillError>(e) && *final(event_data) == *old(event_data),
            },
    {
        let amount_diff = match last_fill_amount.checked_sub(order_filled_amount) {
            Some(amount_diff) => amount_diff,
            None => return Err(FillError::Arithmetic),
        };
        let raw_price = match fill_price(currency_pair_metadata, amount_diff, cost_diff) {
            Some(raw_price) => raw_price,
            None => return Err(FillError::Arithmetic),
        };
        let price = match currency_pair_metadata.round_price(raw_price, Round::ToNearest) {
            Some(price) => price,
            None => return Err(FillError::Arithmetic),
        };
        match event_data.commission_amount {
            None => {},
            Some(commission) => {
                let paid = match commission_sum(order_fills) {
                    Some(paid) => paid,
                    None => return Err(FillError::Arithmetic),
                };
                match commission.checked_sub(paid) {
                    Some(rest) => {
                        event_data.commission_amount = Some(rest);
                    },
                    None => return Err(FillError::Arithmetic),
                }
            },
        }
        Ok(LastFill { price, amount: amount_diff, cost: cost_diff })
    }

    /// The price, amount and cost of what is new of a report; `None` where
    /// nothing is. The report is unchanged where the result is an error.
    pub fn get_last_fill_data(
        event_data: &mut FillEventData,
        currency_pair_metadata: &CurrencyPairMetadata,
        order_fills: &Vec<OrderFill>,
        order_filled_amount: Decimal,
    ) -> (r: Result<Option<LastFill>, FillError>)
        ensures
            match spec_get_last_fill_data(
                *old(event_data),
                *currency_pair_metadata,
                order_fills@,
                order_filled_amount,
            ) {
                Ok((last, changed)) => r == Ok::<Option<LastFill>, FillError>(last) && *final(event_data) == changed,
                Err(e) => r == Err::<Option<LastFill>, FillError>(e) && *final(event_data) == *old(event_data),
            },
    {
        let cost = match fill_cost(currency_pair_metadata, event_data.fill_amount, event_data.fill_price) {
            Some(cost) => cost,
            None => return Err(FillError::Arithmetic),
        };
        if !event_data.is_diff && order_fills.len() > 0 {
            let cost_diff = match Self::calculate_cost_diff(order_fills, cost) {
                Err(e) => return Err(e),
                Ok(None) => return Ok(None),
                Ok(Some(cost_diff)) => cost_diff,
            };
            let last_fill_amount = event_data.fill_amount;
            match Self::calculate_last_fill_data(
                last_fill_amount,
                order_fills,
                order_filled_amount,
                currency_pair_metadata,
                cost_diff,
                event_data,
            ) {
                Err(e) => Err(e),
                Ok(last) => if last.amount.is_zero() {
                    Ok(None)
                } else {
                    Ok(Some(last))
                },
            }
        } else if event_data.fill_amount.is_zero() {
            Ok(None)
        } else {
            Ok(Some(LastFill { price: event_data.fill_price, amount: event_data.fill_amount, cost }))
        }
    }

    /// Whether an order can take no fill.
    pub fn wrong_status_or_cancelled(order: &OrderSnapshot) -> (r: Result<(), FillError>)
        ensures
            r == spec_wrong_status_or_cancelled(order@),
    {
        if order.status == OrderStatus::FailedToCreate || order.status == OrderStatus::Completed
            || order.cancellation_event_was_raised {
            Err(
                FillError::WrongStatusOrCancelled {
                    status: order.status,
                    cancellation_event_was_raised: order.cancellation_event_was_raised,
                },
            )
        } else {
            Ok(())
        }
    }

    /// The role of the order in a fill: what the report says, else what the
    /// order says.
    pub fn get_order_role(event_data: &FillEventData, order_role: Option<OrderRole>) -> (r: Result<
        OrderRole,
        FillError,
    >)
        ensures
            r == spec_get_order_role(*event_data, order_role),
    {
        match event_data.order_role {
            Some(role) => Ok(role),
            None => match order_role {
                Some(role) => Ok(role),
                None => if event_data.commission_amount.is_none() && event_data.commission_rate.is_none() {
                    Err(FillError::NoCommissionNorRate)
                } else {
                    Err(FillError::UnknownOrderRole)
                },
            },
        }
    }

    /// What a report of a fill does to the order that it is for.
    pub fn local_order_exist(
        &self,
        context: &FillContext,
        event_data: &mut FillEventData,
        order: &mut OrderSnapshot,
        now: DateTime,
    ) -> (r: Result<FillHandled, FillError>)
        ensures
            (final(order)@, *final(event_data), r) == spec_local_order_exist(
                context@,
                old(order)@,
                *old(event_data),
                now,
            ),
    {
        if Self::was_trade_already_received(&event_data.trade_id, &order.fills) {
            return Ok(FillHandled::TradeAlreadyReceived);
        }
        if Self::diff_fill_after_non_diff(event_data, &order.fills) {
            return Ok(FillHandled::DiffFillAfterNonDiff);
        }
        if Self::filled_amount_not_less_event_fill(event_data, order.filled_amount) {
            return Ok(FillHandled::FilledAmountNotLess);
        }
        let metadata = match context.symbols.get(&order.currency_pair) {
            Some(metadata) => metadata,
            None => return Err(FillError::UnknownCurrencyPair),
        };
        let last = match Self::get_last_fill_data(event_data, metadata, &order.fills, order.filled_amount) {
            Err(e) => return Err(e),
            Ok(None) => return Ok(FillHandled::NoLastFillData),
            Ok(Some(last)) => last,
        };
        match total_mismatch(event_data, order.filled_amount, last.amount) {
            Err(e) => return Err(e),
            Ok(true) => return Ok(FillHandled::TotalFilledAmountMismatch),
            Ok(false) => {},
        }
        match Self::wrong_status_or_cancelled(order) {
            Err(e) => return Err(e),
            Ok(()) => {},
        }
        let role = match Self::get_order_role(event_data, order.role) {
            Err(e) => return Err(e),
            Ok(role) => role,
        };
        let commission = match fill_commission(context, metadata, order.side, role, event_data, last) {
            Err(e) => return Err(e),
            Ok(commission) => commission,
        };
        match apply_fill(order, metadata, event_data, last, role, commission, now) {
            Err(e) => Err(e),
            Ok(completed) => Ok(FillHandled::Added { completed }),
        }
    }

    /// Applies a report of a fill to the order at an index of the pool.
    fn fill_order_at(
        &self,
        context: &FillContext,
        orders: &mut OrdersPool,
        event_data: &mut FillEventData,
        index: usize,
        now: DateTime,
    ) -> (r: Result<FillHandled, FillError>)
        requires
            index < old(orders)@.len(),
        ensures
            final(orders)@ == old(orders)@.update(
                index as int,
                (
                    old(orders)@[index as int].0,
                    spec_local_order_exist(context@, old(orders)@[index as int].1, *old(event_data), now).0,
                ),
            ),
            r == spec_local_order_exist(context@, old(orders)@[index as int].1, *old(event_data), now).2,
            final(orders).orders.entries@.len() == old(orders).orders.entries@.len(),
            final(orders).orders.entries@[index as int].0 == old(orders)@[index as int].0,
    {
        let handled = self.local_order_exist(context, event_data, &mut orders.orders.entries[index].1, now);
        proof {
            assert(orders@ =~= old(orders)@.update(
                index as int,
                (old(orders)@[index as int].0, orders.orders.entries@[index as int].1@),
            ));
        }
        handled
    }

    /// The check of a report by the kind of its fill. Returns whether an
    /// order was made for the report.
    pub fn check_based_on_fill_type(
        &self,
        orders: &mut OrdersPool,
        event_data: &mut FillEventData,
        fresh_client_order_id: ClientOrderId,
    ) -> (r: Result<bool, FillError>)
        ensures
            (final(orders)@, *final(event_data), r) == spec_check_based_on_fill_type(
                self.exchange_account_id,
                old(orders)@,
                *old(event_data),
                fresh_client_order_id,
            ),
    {
        let forced = event_data.fill_type == OrderFillType::Liquidation || event_data.fill_type
            == OrderFillType::ClosePosition;
        if !forced {
            return Ok(false);
        }
        if event_data.fill_type == OrderFillType::Liquidation && event_data.trade_currency_pair.is_none() {
            return Err(FillError::CurrencyPairRequired);
        }
        let order_side = match event_data.order_side {
            Some(order_side) => order_side,
            None => return Err(FillError::SideRequired),
        };
        if event_data.client_order_id.is_some() {
            return Err(FillError::ClientOrderIdForbidden);
        }
        let order_amount = match event_data.order_amount {
            Some(order_amount) => order_amount,
            None => return Err(FillError::OrderAmountRequired),
        };
        let index = orders.position_by_exchange_id(&event_data.exchange_order_id);
        if index < orders.len() {
            event_data.client_order_id = Some(orders.at(index).client_order_id.clone());
            return Ok(false);
        }
        let currency_pair = match &event_data.trade_currency_pair {
            Some(currency_pair) => currency_pair.clone(),
            None => return Err(FillError::CurrencyPairRequired),
        };
        let order = self.create_order_instance(
            event_data,
            currency_pair,
            order_side,
            order_amount,
            fresh_client_order_id.clone(),
        );
        orders.add_snapshot_initial(order);
        event_data.client_order_id = Some(fresh_client_order_id);
        Ok(true)
    }

    /// The order that stands for a liquidation or the closing of a position
    /// which the engine did not order.
    pub fn create_order_instance(
        &self,
        event_data: &FillEventData,
        currency_pair: CurrencyPair,
        order_side: OrderSide,
        order_amount: Decimal,
        client_order_id: ClientOrderId,
    ) -> (r: OrderSnapshot)
        ensures
            r@ == spec_create_order_instance(
                self.exchange_account_id,
                *event_data,
                currency_pair,
                order_side,
                order_amount,
                client_order_id,
            ),
            r.client_order_id == client_order_id,
    {
        let mut order = OrderSnapshot::with_params(
            client_order_id,
            OrderType::Liquidation,
            Some(OrderRole::Taker),
            self.exchange_account_id.clone(),
            currency_pair,
            event_data.fill_price,
            order_amount,
            order_side,
            None,
        );
        order.exchange_order_id = Some(event_data.exchange_order_id.clone());
        order.status = OrderStatus::Created;
        order.creation_event_source_type = Some(event_data.source_type);
        order
    }

    /// Applies a report of a fill to the orders of the account.
    ///
    /// `fresh_client_order_id` is an identifier that no order has: it is
    /// given to the order that is made for a liquidation or the closing of
    /// a position which the pool does not hold.
    pub fn handle_order_filled(
        &self,
        context: &FillContext,
        orders: &mut OrdersPool,
        event_data: FillEventData,
        fresh_client_order_id: ClientOrderId,
        now: DateTime,
    ) -> (r: FillReport)
        ensures
            (final(orders)@, r.handled, r.events@) == self.spec_handle_order_filled(
                context@,
                old(orders)@,
                event_data,
                fresh_client_order_id,
                now,
            ),
    {
        let mut event_data = event_data;
        let mut events: Vec<OrderEvent> = Vec::new();
        if should_ignore_event(context.allowed_fill_event_source_type, event_data.source_type) {
            return FillReport { handled: Ok(FillHandled::IgnoredSource), events };
        }
        if event_data.exchange_order_id.is_empty() {
            return FillReport { handled: Err(FillError::EmptyExchangeOrderId), events };
        }
        let created = match self.check_based_on_fill_type(orders, &mut event_data, fresh_client_order_id.clone()) {
            Err(e) => return FillReport { handled: Err(e), events },
            Ok(created) => created,
        };
        if created {
            events.push(
                OrderEvent { client_order_id: fresh_client_order_id, event_type: OrderEventType::CreateOrderSucceeded },
            );
        }
        let index = orders.position_by_exchange_id(&event_data.exchange_order_id);
        if index >= orders.len() {
            return FillReport { handled: Ok(FillHandled::UnknownOrder { created: event_data.client_order_id }), events };
        }
        let handled = self.fill_order_at(context, orders, &mut event_data, index, now);
        let mut completion = completion_of(&handled, &orders.orders.entries[index].0);
        events.append(&mut completion);
        FillReport { handled, events }
    }
}

/// What the listeners are told of an order that a fill has completed.
pub fn completion_of(handled: &Result<FillHandled, FillError>, client_order_id: &ClientOrderId) -> (r: Vec<OrderEvent>)
    ensures
        r@ == completion_events(*handled, *client_order_id),
{
    let completed = match handled {
        Ok(FillHandled::Added { completed }) => *completed,
        _ => false,
    };
    let mut events: Vec<OrderEvent> = Vec::new();
    if completed {
        events.push(OrderEvent { client_order_id: client_order_id.clone(), event_type: OrderEventType::OrderFilled });
        events.push(
            OrderEvent { client_order_id: client_order_id.clone(), event_type: OrderEventType::OrderCompleted },
        );
        assert(events@ =~= completion_events(*handled, *client_order_id));
    } else {
        assert(events@ =~= completion_events(*handled, *client_order_id));
    }
    events
}

/// What an amount costs at a price.
pub fn fill_cost(metadata: &CurrencyPairMetadata, amount: Decimal, price: Decimal) -> (r: Option<Decimal>)
    ensures
        r == spec_fill_cost(*metadata, amount, price),
{
    if !metadata.is_derivative {
        amount.checked_mul(price)
    } else {
        amount.checked_div(price)
    }
}

/// The price at which an amount costs `cost`.
pub fn fill_price(metadata: &CurrencyPairMetadata, amount: Decimal, cost: Decimal) -> (r: Option<Decimal>)
    ensures
        r == spec_fill_price(*metadata, amount, cost),
{
    if !metadata.is_derivative {
        cost.checked_div(amount)
    } else {
        amount.checked_div(cost)
    }
}

/// Whether a fill of `amount` would not bring what is filled to the total
/// that the report names.
pub fn total_mismatch(event_data: &FillEventData, order_filled_amount: Decimal, amount: Decimal) -> (r: Result<
    bool,
    FillError,
>)
    ensures
        r == spec_total_mismatch(*event_data, order_filled_amount, amount),
{
    match event_data.total_filled_amount {
        None => Ok(false),
        Some(total) => match order_filled_amount.checked_add(amount) {
            None => Err(FillError::Arithmetic),
            Some(sum) => Ok(!sum.equals(&total)),
        },
    }
}

/// A commission paid in a currency outside the pair, in the quote currency
/// where a market of the two currencies has prices.
pub fn converted_commission(
    top_prices: &VecMap<CurrencyPair, TopPrices>,
    metadata: &CurrencyPairMetadata,
    currency_code: &CurrencyCode,
    amount: Decimal,
) -> (r: Result<(CurrencyCode, Decimal), FillError>)
    ensures
        r == spec_converted_commission(top_prices.entries@, *metadata, *currency_code, amount),
{
    if !currency_code.same(&metadata.base_currency_code) && !currency_code.same(&metadata.quote_currency_code) {
        let direct = CurrencyPair::from_codes(currency_code, &metadata.quote_currency_code);
        match top_prices.get(&direct) {
            Some(prices) => match amount.checked_mul(prices.bid) {
                Some(converted) => Ok((metadata.quote_currency_code.clone(), converted)),
                None => Err(FillError::Arithmetic),
            },
            None => {
                let reverse = CurrencyPair::from_codes(&metadata.quote_currency_code, currency_code);
                match top_prices.get(&reverse) {
                    Some(prices) => match amount.checked_div(prices.ask) {
                        Some(converted) => Ok((metadata.quote_currency_code.clone(), converted)),
                        None => Err(FillError::Arithmetic),
                    },
                    None => Ok((currency_code.clone(), amount)),
                }
            },
        }
    } else {
        Ok((currency_code.clone(), amount))
    }
}

/// The commission of a fill. The report gets the rate and the amount of the
/// commission where it had none.
pub fn fill_commission(
    context: &FillContext,
    metadata: &CurrencyPairMetadata,
    side: OrderSide,
    role: OrderRole,
    event_data: &mut FillEventData,
    last: LastFill,
) -> (r: Result<FillCommission, FillError>)
    ensures
        (*final(event_data), r) == spec_fill_commission(context@, *metadata, side, role, *old(event_data), last),
{
    let currency_code = match &event_data.commission_currency_code {
        Some(code) => code.clone(),
        None => metadata.get_commission_currency_code(side),
    };
    let by_role = context.commission.get_commission(role);
    let expected_rate = match by_role.fee.checked_mul(one_hundredth()) {
        Some(expected_rate) => expected_rate,
        None => return Err(FillError::Arithmetic),
    };
    if event_data.commission_amount.is_none() && event_data.commission_rate.is_none() {
        event_data.commission_rate = Some(expected_rate);
    }
    let amount = match event_data.commission_amount {
        Some(amount) => amount,
        None => {
            let in_code = match metadata.convert_amount_from_amount_currency_code(
                &currency_code,
                last.amount,
                last.price,
            ) {
                Some(in_code) => in_code,
                None => return Err(FillError::ConversionFailed),
            };
            let rate = match event_data.commission_rate {
                Some(rate) => rate,
                None => expected_rate,
            };
            match in_code.checked_mul(rate) {
                Some(amount) => amount,
                None => return Err(FillError::Arithmetic),
            }
        },
    };
    event_data.commission_amount = Some(amount);
    let (converted_currency_code, converted_amount) = match converted_commission(
        &context.top_prices,
        metadata,
        &currency_code,
        amount,
    ) {
        Ok(converted) => converted,
        Err(e) => return Err(e),
    };
    let in_converted = match metadata.convert_amount_from_amount_currency_code(
        &converted_currency_code,
        last.amount,
        last.price,
    ) {
        Some(in_converted) => in_converted,
        None => return Err(FillError::ConversionFailed),
    };
    let expected_converted_amount = match in_converted.checked_mul(expected_rate) {
        Some(expected) => expected,
        None => return Err(FillError::Arithmetic),
    };
    let reward = match amount.checked_mul(by_role.referral_reward) {
        Some(reward) => reward,
        None => return Err(FillError::Arithmetic),
    };
    let referral_reward_amount = match reward.checked_mul(one_hundredth()) {
        Some(referral_reward_amount) => referral_reward_amount,
        None => return Err(FillError::Arithmetic),
    };
    Ok(
        FillCommission {
            currency_code,
            amount,
            referral_reward_amount,
            converted_currency_code,
            converted_amount,
            expected_converted_amount,
        },
    )
}

/// Adds a fill to an order. Returns whether the order is completed.
pub fn apply_fill(
    order: &mut OrderSnapshot,
    metadata: &CurrencyPairMetadata,
    event_data: &FillEventData,
    last: LastFill,
    role: OrderRole,
    commission: FillCommission,
    now: DateTime,
) -> (r: Result<bool, FillError>)
    ensures
        (final(order)@, r) == spec_apply_fill(old(order)@, *metadata, *event_data, last, role, commission, now),
{
    let price = match metadata.round_price(last.price, Round::ToNearest) {
        Some(price) => price,
        None => return Err(FillError::Arithmetic),
    };
    let fill = OrderFill {
        receive_time: now,
        fill_type: event_data.fill_type,
        trade_id: Some(event_data.trade_id.clone()),
        price,
        amount: last.amount,
        cost: last.cost,
        role,
        commission_currency_code: commission.currency_code,
        commission_amount: commission.amount,
        referral_reward_amount: commission.referral_reward_amount,
        converted_commission_currency_code: commission.converted_currency_code,
        converted_commission_amount: commission.converted_amount,
        expected_converted_commission_amount: commission.expected_converted_amount,
        is_diff: false,
    };
    if !order.add_fill(fill) {
        return Err(FillError::Arithmetic);
    }
    let cost = match cost_sum(&order.fills) {
        Some(cost) => cost,
        None => return Err(FillError::Arithmetic),
    };
    let average = match fill_price(metadata, order.filled_amount, cost) {
        Some(average) => average,
        None => return Err(FillError::Arithmetic),
    };
    let average_fill_price = match metadata.round_price(average, Round::ToNearest) {
        Some(average_fill_price) => average_fill_price,
        None => return Err(FillError::Arithmetic),
    };
    order.average_fill_price = average_fill_price;
    if order.filled_amount.gt(&order.amount) {
        return Err(FillError::FilledMoreThanOrdered);
    }
    if order.filled_amount.equals(&order.amount) {
        order.status = OrderStatus::Completed;
        Ok(true)
    } else {
        Ok(false)
    }
}

} // verus!
