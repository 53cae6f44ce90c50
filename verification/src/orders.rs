//! The orders of an account, with what was filled of each, and the pool
//! that holds them.
//!
//! The pool keeps the orders in the order in which they were added. An order
//! is found by the identifier that the engine gave it, or by the one that
//! the exchange gave it once the exchange has confirmed the order.

use crate::common::{ClientOrderId, CurrencyCode, CurrencyPair, DateTime, ExchangeAccountId, OrderSide, ReservationId};
use crate::decimal::Decimal;
use crate::events::{EventSourceType, OrderStatus};
use crate::vec_map::{first_index, lemma_first_index, lemma_first_index_same_keys, lookup, spec_insert, Key, VecMap};
use vstd::prelude::*;

verus! {

/// The identifier that an exchange gave to an order.
#[derive(Debug)]
pub struct ExchangeOrderId {
    pub id: String,
}

impl View for ExchangeOrderId {
    type V = Seq<char>;

    open spec fn view(&self) -> Seq<char> {
        self.id@
    }
}

impl Clone for ExchangeOrderId {
    fn clone(&self) -> (r: Self)
        ensures
            r == *self,
    {
        ExchangeOrderId { id: self.id.clone() }
    }
}

impl Key for ExchangeOrderId {
    type Id = Seq<char>;

    open spec fn id(&self) -> Seq<char> {
        self.id@
    }

    fn same(&self, other: &Self) -> (r: bool) {
        let r = self.id == other.id;
        assert(r == (self.id() == other.id()));
        r
    }
}

impl ExchangeOrderId {
    /// The identifier with the given text.
    pub fn new(id: &str) -> (r: Self)
        ensures
            r@ == id@,
    {
        ExchangeOrderId { id: id.to_owned() }
    }

    /// Whether the identifier is the empty text.
    pub fn is_empty(&self) -> (r: bool)
        ensures
            r == (self@.len() == 0),
    {
        self.id.as_str().is_empty()
    }
}

/// Whether an order added liquidity to the book or took it.
#[derive(Clone, Copy, Debug, PartialEq, Eq, Structural)]
pub enum OrderRole {
    Maker,
    Taker,
}

/// The kind of an order.
#[derive(Clone, Copy, Debug, PartialEq, Eq, Structural)]
pub enum OrderType {
    Unknown,
    Limit,
    Market,
    Liquidation,
    ClosePosition,
}

/// The kind of a fill.
#[derive(Clone, Copy, Debug, PartialEq, Eq, Structural)]
pub enum OrderFillType {
    UserTrade,
    Liquidation,
    ClosePosition,
}

/// What happened to an order, as its listeners are told.
#[derive(Clone, Copy, Debug, PartialEq, Eq, Structural)]
pub enum OrderEventType {
    CreateOrderSucceeded,
    OrderFilled,
    OrderCompleted,
}

/// A part of an order that was filled.
#[derive(Debug)]
pub struct OrderFill {
    pub receive_time: DateTime,
    pub fill_type: OrderFillType,
    pub trade_id: Option<String>,
    pub price: Decimal,
    pub amount: Decimal,
    pub cost: Decimal,
    pub role: OrderRole,
    pub commission_currency_code: CurrencyCode,
    pub commission_amount: Decimal,
    pub referral_reward_amount: Decimal,
    /// The commission in a currency of the pair, where it was paid in
    /// another and a price was known; else as it was paid.
    pub converted_commission_currency_code: CurrencyCode,
    pub converted_commission_amount: Decimal,
    /// The commission that the fee of the account makes one expect.
    pub expected_converted_commission_amount: Decimal,
    /// Whether the fill was reported as a part that was filled since the
    /// last report, not as the whole that was filled so far.
    pub is_diff: bool,
}

impl Clone for OrderFill {
    fn clone(&self) -> (r: Self)
        ensures
            r == *self,
    {
        OrderFill {
            receive_time: self.receive_time,
            fill_type: self.fill_type,
            trade_id: match &self.trade_id {
                Some(trade_id) => Some(trade_id.clone()),
                None => None,
            },
            price: self.price,
            amount: self.amount,
            cost: self.cost,
            role: self.role,
            commission_currency_code: self.commission_currency_code.clone(),
            commission_amount: self.commission_amount,
            referral_reward_amount: self.referral_reward_amount,
            converted_commission_currency_code: self.converted_commission_currency_code.clone(),
            converted_commission_amount: self.converted_commission_amount,
            expected_converted_commission_amount: self.expected_converted_commission_amount,
            is_diff: self.is_diff,
        }
    }
}

/// The costs of fills, summed in their order; `None` where a sum overflows.
pub open spec fn spec_cost_sum(fills: Seq<OrderFill>) -> Option<Decimal>
    decreases fills.len(),
{
    if fills.len() == 0 {
        Some(Decimal::spec_zero())
    } else {
        match spec_cost_sum(fills.drop_last()) {
            Some(sum) => sum.spec_add(fills.last().cost),
            None => None,
        }
    }
}

/// The commissions of fills, summed in their order; `None` where a sum
/// overflows.
pub open spec fn spec_commission_sum(fills: Seq<OrderFill>) -> Option<Decimal>
    decreases fills.len(),
{
    if fills.len() == 0 {
        Some(Decimal::spec_zero())
    } else {
        match spec_commission_sum(fills.drop_last()) {
            Some(sum) => sum.spec_add(fills.last().commission_amount),
            None => None,
        }
    }
}

/// A sum that fails for the first fills fails for all of them.
pub proof fn lemma_cost_sum_fails(fills: Seq<OrderFill>, n: int)
    requires
        0 <= n <= fills.len(),
        spec_cost_sum(fills.take(n)) is None,
    ensures
        spec_cost_sum(fills) is None,
    decreases fills.len() - n,
{
    if n < fills.len() {
        assert(fills.take(n + 1).drop_last() == fills.take(n));
        lemma_cost_sum_fails(fills, n + 1);
    } else {
        assert(fills.take(n) == fills);
    }
}

/// A sum that fails for the first fills fails for all of them.
pub proof fn lemma_commission_sum_fails(fills: Seq<OrderFill>, n: int)
    requires
        0 <= n <= fills.len(),
        spec_commission_sum(fills.take(n)) is None,
    ensures
        spec_commission_sum(fills) is None,
    decreases fills.len() - n,
{
    if n < fills.len() {
        assert(fills.take(n + 1).drop_last() == fills.take(n));
        lemma_commission_sum_fails(fills, n + 1);
    } else {
        assert(fills.take(n) == fills);
    }
}

/// The costs of fills, summed in their order; `None` where a sum overflows.
pub fn cost_sum(fills: &Vec<OrderFill>) -> (r: Option<Decimal>)
    ensures
        r == spec_cost_sum(fills@),
{
    let mut sum = Decimal::zero();
    let mut i: usize = 0;
    while i < fills.len()
        invariant
            i <= fills@.len(),
            Some(sum) == spec_cost_sum(fills@.take(i as int)),
        decreases fills@.len() - i,
    {
        proof {
            let next = fills@.take(i + 1);
            assert(next.drop_last() == fills@.take(i as int));
            assert(next.last() == fills@[i as int]);
        }
        match sum.checked_add(fills[i].cost) {
            Some(total) => {
                sum = total;
            },
            None => {
                proof {
                    lemma_cost_sum_fails(fills@, i + 1);
                }
                return None;
            },
        }
        i = i + 1;
    }
    proof {
        assert(fills@.take(i as int) == fills@);
    }
    Some(sum)
}

/// The commissions of fills, summed in their order; `None` where a sum
/// overflows.
pub fn commission_sum(fills: &Vec<OrderFill>) -> (r: Option<Decimal>)
    ensures
        r == spec_commission_sum(fills@),
{
    let mut sum = Decimal::zero();
    let mut i: usize = 0;
    while i < fills.len()
        invariant
            i <= fills@.len(),
            Some(sum) == spec_commission_sum(fills@.take(i as int)),
        decreases fills@.len() - i,
    {
        proof {
            let next = fills@.take(i + 1);
            assert(next.drop_last() == fills@.take(i as int));
            assert(next.last() == fills@[i as int]);
        }
        match sum.checked_add(fills[i].commission_amount) {
            Some(total) => {
                sum = total;
            },
            None => {
                proof {
                    lemma_commission_sum_fails(fills@, i + 1);
                }
                return None;
            },
        }
        i = i + 1;
    }
    proof {
        assert(fills@.take(i as int) == fills@);
    }
    Some(sum)
}

/// An order of an account.
#[derive(Debug)]
pub struct OrderSnapshot {
    pub client_order_id: ClientOrderId,
    pub order_type: OrderType,
    pub role: Option<OrderRole>,
    pub exchange_account_id: ExchangeAccountId,
    pub currency_pair: CurrencyPair,
    pub price: Decimal,
    pub amount: Decimal,
    pub side: OrderSide,
    pub reservation_id: Option<ReservationId>,
    /// The identifier that the exchange gave to the order, once it has
    /// confirmed it.
    pub exchange_order_id: Option<ExchangeOrderId>,
    pub status: OrderStatus,
    pub fills: Vec<OrderFill>,
    pub filled_amount: Decimal,
    pub average_fill_price: Decimal,
    pub cancellation_event_was_raised: bool,
    pub creation_event_source_type: Option<EventSourceType>,
}

/// An order as contracts see it.
pub struct OrderView {
    pub client_order_id: ClientOrderId,
    pub order_type: OrderType,
    pub role: Option<OrderRole>,
    pub exchange_account_id: ExchangeAccountId,
    pub currency_pair: CurrencyPair,
    pub price: Decimal,
    pub amount: Decimal,
    pub side: OrderSide,
    pub reservation_id: Option<ReservationId>,
    pub exchange_order_id: Option<ExchangeOrderId>,
    pub status: OrderStatus,
    pub fills: Seq<OrderFill>,
    pub filled_amount: Decimal,
    pub average_fill_price: Decimal,
    pub cancellation_event_was_raised: bool,
    pub creation_event_source_type: Option<EventSourceType>,
}

impl View for OrderSnapshot {
    type V = OrderView;

    open spec fn view(&self) -> OrderView {
        OrderView {
            client_order_id: self.client_order_id,
            order_type: self.order_type,
            role: self.role,
            exchange_account_id: self.exchange_account_id,
            currency_pair: self.currency_pair,
            price: self.price,
            amount: self.amount,
            side: self.side,
            reservation_id: self.reservation_id,
            exchange_order_id: self.exchange_order_id,
            status: self.status,
            fills: self.fills@,
            filled_amount: self.filled_amount,
            average_fill_price: self.average_fill_price,
            cancellation_event_was_raised: self.cancellation_event_was_raised,
            creation_event_source_type: self.creation_event_source_type,
        }
    }
}

impl OrderView {
    /// A new order: it is being created, and nothing of it is filled.
    pub open spec fn spec_with_params(
        client_order_id: ClientOrderId,
        order_type: OrderType,
        role: Option<OrderRole>,
        exchange_account_id: ExchangeAccountId,
        currency_pair: CurrencyPair,
        price: Decimal,
        amount: Decimal,
        side: OrderSide,
        reservation_id: Option<ReservationId>,
    ) -> OrderView {
        OrderView {
            client_order_id,
            order_type,
            role,
            exchange_account_id,
            currency_pair,
            price,
            amount,
            side,
            reservation_id,
            exchange_order_id: None,
            status: OrderStatus::Creating,
            fills: Seq::empty(),
            filled_amount: Decimal::spec_zero(),
            average_fill_price: Decimal::spec_zero(),
            cancellation_event_was_raised: false,
            creation_event_source_type: None,
        }
    }

    /// The order with one more fill: the fill is the last of its fills, and
    /// its amount is added to what was filled. `None` where that sum
    /// overflows.
    pub open spec fn spec_add_fill(self, fill: OrderFill) -> Option<OrderView> {
        match self.filled_amount.spec_add(fill.amount) {
            Some(filled_amount) => Some(OrderView { fills: self.fills.push(fill), filled_amount, ..self }),
            None => None,
        }
    }

    /// Whether the exchange knows the order under an identifier.
    pub open spec fn has_exchange_id(self, id: Seq<char>) -> bool {
        self.exchange_order_id matches Some(own) && own@ == id
    }
}

impl OrderSnapshot {
    /// A new order: it is being created, and nothing of it is filled.
    pub fn with_params(
        client_order_id: ClientOrderId,
        order_type: OrderType,
        role: Option<OrderRole>,
        exchange_account_id: ExchangeAccountId,
        currency_pair: CurrencyPair,
        price: Decimal,
        amount: Decimal,
        side: OrderSide,
        reservation_id: Option<ReservationId>,
    ) -> (r: Self)
        ensures
            r@ == OrderView::spec_with_params(
                client_order_id,
                order_type,
                role,
                exchange_account_id,
                currency_pair,
                price,
                amount,
                side,
                reservation_id,
            ),
    {
        OrderSnapshot {
            client_order_id,
            order_type,
            role,
            exchange_account_id,
            currency_pair,
            price,
            amount,
            side,
            reservation_id,
            exchange_order_id: None,
            status: OrderStatus::Creating,
            fills: Vec::new(),
            filled_amount: Decimal::zero(),
            average_fill_price: Decimal::zero(),
            cancellation_event_was_raised: false,
            creation_event_source_type: None,
        }
    }

    /// Adds a fill to the order. Returns whether the sum of what was filled
    /// did not overflow; the order is unchanged where it did.
    pub fn add_fill(&mut self, fill: OrderFill) -> (r: bool)
        ensures
            r == old(self)@.spec_add_fill(fill).is_some(),
            final(self)@ == match old(self)@.spec_add_fill(fill) {
                Some(order) => order,
                None => old(self)@,
            },
    {
        match self.filled_amount.checked_add(fill.amount) {
            Some(filled_amount) => {
                self.filled_amount = filled_amount;
                self.fills.push(fill);
                true
            },
            None => false,
        }
    }

    /// The state of the order.
    pub fn set_status(&mut self, status: OrderStatus)
        ensures
            final(self)@ == (OrderView { status, ..old(self)@ }),
    {
        self.status = status;
    }

    /// Whether the exchange knows the order under an identifier.
    pub fn has_exchange_id(&self, exchange_order_id: &ExchangeOrderId) -> (r: bool)
        ensures
            r == self@.has_exchange_id(exchange_order_id@),
    {
        match &self.exchange_order_id {
            Some(own) => own.same(exchange_order_id),
            None => false,
        }
    }
}

impl Clone for OrderSnapshot {
    fn clone(&self) -> (r: Self)
        ensures
            r@ == self@,
    {
        let mut fills: Vec<OrderFill> = Vec::new();
        let mut i: usize = 0;
        while i < self.fills.len()
            invariant
                i <= self.fills@.len(),
                fills@ == self.fills@.take(i as int),
            decreases self.fills@.len() - i,
        {
            fills.push(self.fills[i].clone());
            proof {
                assert(self.fills@.take(i + 1) == self.fills@.take(i as int).push(self.fills@[i as int]));
            }
            i = i + 1;
        }
        proof {
            assert(self.fills@.take(i as int) == self.fills@);
        }
        OrderSnapshot {
            client_order_id: self.client_order_id.clone(),
            order_type: self.order_type,
            role: self.role,
            exchange_account_id: self.exchange_account_id.clone(),
            currency_pair: self.currency_pair.clone(),
            price: self.price,
            amount: self.amount,
            side: self.side,
            reservation_id: self.reservation_id,
            exchange_order_id: match &self.exchange_order_id {
                Some(id) => Some(id.clone()),
                None => None,
            },
            status: self.status,
            fills,
            filled_amount: self.filled_amount,
            average_fill_price: self.average_fill_price,
            cancellation_event_was_raised: self.cancellation_event_was_raised,
            creation_event_source_type: self.creation_event_source_type,
        }
    }
}

/// The orders of a pool as contracts see them, in the order in which they
/// were added, each under the identifier that the engine gave it.
pub type Orders = Seq<(ClientOrderId, OrderView)>;

/// The first index at which an order stands that the exchange knows under
/// `id`, the number of orders where there is none.
pub open spec fn exchange_index(orders: Orders, id: Seq<char>) -> int
    decreases orders.len(),
{
    if orders.len() == 0 {
        0
    } else if orders[0].1.has_exchange_id(id) {
        0
    } else {
        1 + exchange_index(orders.drop_first(), id)
    }
}

/// The first order that the exchange knows under `id`.
pub open spec fn lookup_by_exchange_id(orders: Orders, id: Seq<char>) -> Option<OrderView> {
    if exchange_index(orders, id) < orders.len() {
        Some(orders[exchange_index(orders, id)].1)
    } else {
        None
    }
}

/// The index is within bounds, names an order with the identifier where
/// there is one, and no earlier order has it.
pub proof fn lemma_exchange_index(orders: Orders, id: Seq<char>)
    ensures
        0 <= exchange_index(orders, id) <= orders.len(),
        exchange_index(orders, id) < orders.len() ==> orders[exchange_index(orders, id)].1.has_exchange_id(id),
        forall|j: int| 0 <= j < exchange_index(orders, id) ==> !(#[trigger] orders[j]).1.has_exchange_id(id),
    decreases orders.len(),
{
    if orders.len() == 0 {
    } else if orders[0].1.has_exchange_id(id) {
    } else {
        let rest = orders.drop_first();
        lemma_exchange_index(rest, id);
        assert forall|j: int| 0 <= j < exchange_index(orders, id) implies !(#[trigger] orders[j]).1.has_exchange_id(
            id,
        ) by {
            if j > 0 {
                assert(orders[j] == rest[j - 1]);
            }
        }
    }
}

/// An index with an order that has the identifier, and none before it, is
/// the index of the identifier.
pub proof fn lemma_exchange_index_is(orders: Orders, id: Seq<char>, i: int)
    requires
        0 <= i <= orders.len(),
        i < orders.len() ==> orders[i].1.has_exchange_id(id),
        forall|j: int| 0 <= j < i ==> !(#[trigger] orders[j]).1.has_exchange_id(id),
    ensures
        exchange_index(orders, id) == i,
{
    lemma_exchange_index(orders, id);
    let f = exchange_index(orders, id);
    if f < i {
        assert(orders[f].1.has_exchange_id(id));
    } else if f > i {
        assert(orders[i].1.has_exchange_id(id));
    }
}

/// The orders of an account.
#[derive(Debug)]
pub struct OrdersPool {
    pub orders: VecMap<ClientOrderId, OrderSnapshot>,
}

impl View for OrdersPool {
    type V = Orders;

    open spec fn view(&self) -> Orders {
        Seq::new(self.orders.entries@.len(), |i: int| (self.orders.entries@[i].0, self.orders.entries@[i].1@))
    }
}

impl OrdersPool {
    /// The empty pool.
    pub fn new() -> (r: Self)
        ensures
            r@ == Orders::empty(),
    {
        let r = OrdersPool { orders: VecMap::new() };
        assert(r@ =~= Orders::empty());
        r
    }

    /// The number of orders.
    pub fn len(&self) -> (r: usize)
        ensures
            r == self@.len(),
    {
        self.orders.entries.len()
    }

    /// The order at an index.
    pub fn at(&self, index: usize) -> (r: &OrderSnapshot)
        requires
            index < self@.len(),
        ensures
            r@ == self@[index as int].1,
    {
        &self.orders.entries[index].1
    }

    /// The index of the order that the engine knows under the identifier,
    /// the number of orders where there is none.
    pub fn position_by_client_id(&self, client_order_id: &ClientOrderId) -> (r: usize)
        ensures
            r == first_index(self@, client_order_id@),
            r <= self@.len(),
    {
        proof {
            lemma_first_index_same_keys(self.orders.entries@, self@, client_order_id@);
        }
        self.orders.position(client_order_id)
    }

    /// The index of the first order that the exchange knows under the
    /// identifier, the number of orders where there is none.
    pub fn position_by_exchange_id(&self, exchange_order_id: &ExchangeOrderId) -> (r: usize)
        ensures
            r == exchange_index(self@, exchange_order_id@),
            r <= self@.len(),
    {
        let mut i: usize = 0;
        while i < self.orders.entries.len()
            invariant
                i <= self@.len(),
                self@.len() == self.orders.entries@.len(),
                forall|j: int| 0 <= j < i ==> !(#[trigger] self@[j]).1.has_exchange_id(exchange_order_id@),
            decreases self@.len() - i,
        {
            if self.orders.entries[i].1.has_exchange_id(exchange_order_id) {
                proof {
                    lemma_exchange_index_is(self@, exchange_order_id@, i as int);
                }
                return i;
            }
            i = i + 1;
        }
        proof {
            lemma_exchange_index_is(self@, exchange_order_id@, i as int);
        }
        i
    }

    /// The order that the engine knows under the identifier.
    pub fn get_by_client_id(&self, client_order_id: &ClientOrderId) -> (r: Option<&OrderSnapshot>)
        ensures
            match r {
                Some(order) => lookup(self@, client_order_id@) == Some(order@),
                None => lookup(self@, client_order_id@) is None,
            },
    {
        let i = self.position_by_client_id(client_order_id);
        if i < self.orders.entries.len() {
            Some(&self.orders.entries[i].1)
        } else {
            None
        }
    }

    /// The first order that the exchange knows under the identifier.
    pub fn get_by_exchange_id(&self, exchange_order_id: &ExchangeOrderId) -> (r: Option<&OrderSnapshot>)
        ensures
            match r {
                Some(order) => lookup_by_exchange_id(self@, exchange_order_id@) == Some(order@),
                None => lookup_by_exchange_id(self@, exchange_order_id@) is None,
            },
    {
        let i = self.position_by_exchange_id(exchange_order_id);
        if i < self.orders.entries.len() {
            Some(&self.orders.entries[i].1)
        } else {
            None
        }
    }

    /// Adds an order under the identifier that the engine gave it, in place
    /// of the one that was there or as the last one.
    pub fn add_snapshot_initial(&mut self, order: OrderSnapshot)
        ensures
            final(self)@ == spec_insert(old(self)@, order.client_order_id, order@),
    {
        proof {
            lemma_first_index_same_keys(self.orders.entries@, self@, order.client_order_id@);
            lemma_first_index(self@, order.client_order_id@);
        }
        let client_order_id = order.client_order_id.clone();
        self.orders.insert(client_order_id, order);
        assert(self@ =~= spec_insert(old(self)@, order.client_order_id, order@));
    }
}

} // verus!
