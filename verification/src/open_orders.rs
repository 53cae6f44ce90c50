//! What an exchange says of the orders of an account: the open orders that
//! the pool lacks are added to it, and the trades of an order are picked
//! out of the trades of the account.

use crate::common::{ClientOrderId, CurrencyPair, ExchangeAccountId, OrderSide};
use crate::decimal::Decimal;
use crate::events::OrderStatus;
use crate::exchange::Exchange;
use crate::orders::{exchange_index, ExchangeOrderId, OrderSnapshot, OrderType, OrderView, Orders, OrdersPool};
use crate::vec_map::{present, spec_insert, Key};
use vstd::prelude::*;

verus! {

/// An open order as an exchange reports it.
#[derive(Debug)]
pub struct OrderInfo {
    pub currency_pair: CurrencyPair,
    pub exchange_order_id: ExchangeOrderId,
    /// The identifier that the engine gave to the order; empty where the
    /// exchange does not hand it back.
    pub client_order_id: ClientOrderId,
    pub order_side: OrderSide,
    pub order_status: OrderStatus,
    pub price: Decimal,
    pub amount: Decimal,
}

/// A trade of an account as an exchange reports it.
#[derive(Debug)]
pub struct OrderTrade {
    pub exchange_order_id: Option<ExchangeOrderId>,
}

impl Clone for OrderTrade {
    fn clone(&self) -> (r: Self)
        ensures
            r == *self,
    {
        OrderTrade {
            exchange_order_id: match &self.exchange_order_id {
                Some(id) => Some(id.clone()),
                None => None,
            },
        }
    }
}

/// Whether two identifiers that may be missing are both missing or the
/// same.
pub open spec fn same_exchange_order(a: Option<ExchangeOrderId>, b: Option<ExchangeOrderId>) -> bool {
    match (a, b) {
        (Some(x), Some(y)) => x@ == y@,
        (None, None) => true,
        _ => false,
    }
}

/// The trades of the order, in their order.
pub open spec fn spec_trades_of_order(my_trades: Seq<OrderTrade>, exchange_order_id: Option<ExchangeOrderId>) -> Seq<
    OrderTrade,
>
    decreases my_trades.len(),
{
    if my_trades.len() == 0 {
        Seq::empty()
    } else {
        let rest = spec_trades_of_order(my_trades.drop_last(), exchange_order_id);
        if same_exchange_order(my_trades.last().exchange_order_id, exchange_order_id) {
            rest.push(my_trades.last())
        } else {
            rest
        }
    }
}

/// Whether the pool holds an open order already: the exchange's identifier
/// is known, or the order has no identifier of the engine and the pool
/// holds an order without one.
pub open spec fn spec_is_known(orders: Orders, order: OrderInfo) -> bool {
    (order.client_order_id@.len() == 0 && present(orders, order.client_order_id@)) || exchange_index(
        orders,
        order.exchange_order_id@,
    ) < orders.len()
}

/// The identifier under which an open order is added: its own, or the
/// fresh one where it has none.
pub open spec fn spec_missing_id(order: OrderInfo, fresh_client_order_id: ClientOrderId) -> ClientOrderId {
    if order.client_order_id@.len() == 0 {
        fresh_client_order_id
    } else {
        order.client_order_id
    }
}

/// The order that stands in the pool for an open order that it lacked: of
/// unknown kind and role, in the state that the exchange reports.
pub open spec fn spec_missing_order(
    exchange_account_id: ExchangeAccountId,
    order: OrderInfo,
    fresh_client_order_id: ClientOrderId,
) -> OrderView {
    OrderView {
        exchange_order_id: Some(order.exchange_order_id),
        status: order.order_status,
        ..OrderView::spec_with_params(
            spec_missing_id(order, fresh_client_order_id),
            OrderType::Unknown,
            None,
            exchange_account_id,
            order.currency_pair,
            order.price,
            order.amount,
            order.order_side,
            None,
        )
    }
}

/// The pool after an open order was added, if it lacked it.
pub open spec fn spec_add_missing_open_order(
    exchange_account_id: ExchangeAccountId,
    orders: Orders,
    order: OrderInfo,
    fresh_client_order_id: ClientOrderId,
) -> Orders {
    if spec_is_known(orders, order) {
        orders
    } else {
        spec_insert(
            orders,
            spec_missing_id(order, fresh_client_order_id),
            spec_missing_order(exchange_account_id, order, fresh_client_order_id),
        )
    }
}

/// The pool after the first `count` open orders were added, one after the
/// other, each with the fresh identifier of its place.
pub open spec fn spec_add_first_missing(
    exchange_account_id: ExchangeAccountId,
    orders: Orders,
    open_orders: Seq<OrderInfo>,
    fresh_client_order_ids: Seq<ClientOrderId>,
    count: nat,
) -> Orders
    decreases count,
{
    if count == 0 {
        orders
    } else {
        spec_add_missing_open_order(
            exchange_account_id,
            spec_add_first_missing(
                exchange_account_id,
                orders,
                open_orders,
                fresh_client_order_ids,
                (count - 1) as nat,
            ),
            open_orders[count - 1],
            fresh_client_order_ids[count - 1],
        )
    }
}

/// The pool after the open orders were added, one after the other, each
/// with the fresh identifier of its place, as far as there are fresh
/// identifiers.
pub open spec fn spec_add_missing_open_orders(
    exchange_account_id: ExchangeAccountId,
    orders: Orders,
    open_orders: Seq<OrderInfo>,
    fresh_client_order_ids: Seq<ClientOrderId>,
) -> Orders {
    spec_add_first_missing(
        exchange_account_id,
        orders,
        open_orders,
        fresh_client_order_ids,
        if open_orders.len() <= fresh_client_order_ids.len() {
            open_orders.len()
        } else {
            fresh_client_order_ids.len()
        },
    )
}

impl Exchange {
    /// The trades of an order among the trades of the account.
    pub fn get_my_trades_with_filter(my_trades: &Vec<OrderTrade>, exchange_order_id: &Option<ExchangeOrderId>) -> (r:
        Vec<OrderTrade>)
        ensures
            r@ == spec_trades_of_order(my_trades@, *exchange_order_id),
    {
        let mut kept: Vec<OrderTrade> = Vec::new();
        let mut i: usize = 0;
        while i < my_trades.len()
            invariant
                i <= my_trades@.len(),
                kept@ == spec_trades_of_order(my_trades@.take(i as int), *exchange_order_id),
            decreases my_trades@.len() - i,
        {
            proof {
                let next = my_trades@.take(i + 1);
                assert(next.drop_last() == my_trades@.take(i as int));
                assert(next.last() == my_trades@[i as int]);
            }
            let same = match (&my_trades[i].exchange_order_id, exchange_order_id) {
                (Some(own), Some(other)) => own.same(other),
                (None, None) => true,
                _ => false,
            };
            if same {
                kept.push(my_trades[i].clone());
            }
            i = i + 1;
        }
        proof {
            assert(my_trades@.take(i as int) == my_trades@);
        }
        kept
    }

    /// Whether the pool holds an open order already.
    pub fn is_known_open_order(orders: &OrdersPool, order: &OrderInfo) -> (r: bool)
        ensures
            r == spec_is_known(orders@, *order),
    {
        let without_id = order.client_order_id.id.as_str().is_empty();
        (without_id && orders.position_by_client_id(&order.client_order_id) < orders.len())
            || orders.position_by_exchange_id(&order.exchange_order_id) < orders.len()
    }

    /// Adds an open order to the pool, if the pool lacks it.
    pub fn add_missing_open_order(
        &self,
        orders: &mut OrdersPool,
        order: &OrderInfo,
        fresh_client_order_id: &ClientOrderId,
    )
        ensures
            final(orders)@ == spec_add_missing_open_order(
                self.exchange_account_id,
                old(orders)@,
                *order,
                *fresh_client_order_id,
            ),
    {
        if Self::is_known_open_order(orders, order) {
            return ;
        }
        let client_order_id = if order.client_order_id.id.as_str().is_empty() {
            fresh_client_order_id.clone()
        } else {
            order.client_order_id.clone()
        };
        let mut snapshot = OrderSnapshot::with_params(
            client_order_id,
            OrderType::Unknown,
            None,
            self.exchange_account_id.clone(),
            order.currency_pair.clone(),
            order.price,
            order.amount,
            order.order_side,
            None,
        );
        snapshot.exchange_order_id = Some(order.exchange_order_id.clone());
        snapshot.status = order.order_status;
        orders.add_snapshot_initial(snapshot);
    }

    /// Adds the open orders that the pool lacks. The order at a place is
    /// added under the fresh identifier of that place where it has none of
    /// its own; open orders beyond the fresh identifiers are left out.
    pub fn add_missing_open_orders(
        &self,
        orders: &mut OrdersPool,
        open_orders: &Vec<OrderInfo>,
        fresh_client_order_ids: &Vec<ClientOrderId>,
    )
        ensures
            final(orders)@ == spec_add_missing_open_orders(
                self.exchange_account_id,
                old(orders)@,
                open_orders@,
                fresh_client_order_ids@,
            ),
    {
        let mut i: usize = 0;
        while i < open_orders.len() && i < fresh_client_order_ids.len()
            invariant
                i <= open_orders@.len(),
                i <= fresh_client_order_ids@.len(),
                orders@ == spec_add_first_missing(
                    self.exchange_account_id,
                    old(orders)@,
                    open_orders@,
                    fresh_client_order_ids@,
                    i as nat,
                ),
            decreases open_orders@.len() - i,
        {
            self.add_missing_open_order(orders, &open_orders[i], &fresh_client_order_ids[i]);
            i = i + 1;
        }
    }
}

} // verus!
