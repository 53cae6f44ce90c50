//! What fills do to the balances: the virtual balance pays for what was
//! bought and for the commission, and the position of the market follows.

use crate::balance_reservation_manager::{make_request, spec_request, BalanceReservationManager, ManagerView};
use crate::common::{BalanceRequest, ClientOrderFillId, ConfigurationDescriptor, CurrencyCode, DateTime, ExchangeAccountId, OrderSide, TradePlaceAccount};
use crate::currency_pair_metadata::CurrencyPairMetadata;
use crate::decimal::Decimal;
use crate::errors::BalanceError;
use crate::service_value_tree::spec_tree_sum;
use crate::vec_map::{lookup, Key};

use vstd::prelude::*;

verus! {

/// What a fill writes to the virtual balance, and the change of balance that
/// it reports in the currency of the fill.
pub type FillPlan = ((BalanceRequest, Decimal), Decimal);

impl ManagerView {
    /// A fill on a spot market: the virtual balance of the currency loses
    /// the amount, and the change reported is the amount in that currency.
    pub open spec fn spec_spot_fill(
        self,
        request: BalanceRequest,
        currency_pair_metadata: CurrencyPairMetadata,
        fill_amount: Decimal,
        price: Decimal,
    ) -> Result<FillPlan, BalanceError> {
        match self.spec_plan_virtual_balance(request, currency_pair_metadata, fill_amount.spec_neg(), price) {
            Err(e) => Err(e),
            Ok(entry) => match currency_pair_metadata.spec_from_amount_currency(
                request.currency_code@,
                fill_amount,
                price,
            ) {
                None => Err(BalanceError::Arithmetic),
                Some(change) => Ok((entry, change)),
            },
        }
    }

    /// A fill on a derivative market, in the amount currency: as far as the
    /// fill closes the position that the side can close, the balance gains,
    /// and beyond that it pays, each by the leverage and times the
    /// multiplier.
    pub open spec fn spec_derivative_fill(
        self,
        trade_side: OrderSide,
        request: BalanceRequest,
        currency_pair_metadata: CurrencyPairMetadata,
        fill_amount: Decimal,
        price: Decimal,
    ) -> Result<FillPlan, BalanceError> {
        let free_amount = self.spec_position_in_amount_currency(
            request.exchange_account_id,
            currency_pair_metadata,
            trade_side,
        );
        let move_amount = fill_amount.spec_abs();
        match free_amount.spec_exact_sub(move_amount) {
            None => Err(BalanceError::Arithmetic),
            Some(rest) => {
                let (add_amount, sub_amount) = if rest@ >= 0 {
                    (move_amount, Decimal::spec_zero())
                } else {
                    (free_amount, rest.spec_abs())
                };
                match self.spec_leverage(request.exchange_account_id, currency_pair_metadata.currency_pair) {
                    None => Err(BalanceError::LeverageMissing),
                    Some(leverage) => match add_amount.spec_exact_sub(sub_amount) {
                        None => Err(BalanceError::Arithmetic),
                        Some(net) => match net.spec_div(leverage) {
                            None => Err(BalanceError::Arithmetic),
                            Some(share) => match share.spec_mul(currency_pair_metadata.amount_multiplier) {
                                None => Err(BalanceError::Arithmetic),
                                Some(diff) => match self.spec_plan_virtual_balance(
                                    request,
                                    currency_pair_metadata,
                                    diff,
                                    price,
                                ) {
                                    Err(e) => Err(e),
                                    Ok(entry) => match currency_pair_metadata.spec_from_amount_currency(
                                        request.currency_code@,
                                        diff,
                                        price,
                                    ) {
                                        None => Err(BalanceError::Arithmetic),
                                        Some(change) => Ok((entry, change)),
                                    },
                                },
                            },
                        },
                    },
                }
            },
        }
    }

    /// The state after the position of the request's market was changed by
    /// `position_change`.
    pub open spec fn spec_add_position(
        self,
        request: BalanceRequest,
        position_change: Decimal,
        client_order_fill_id: Option<ClientOrderFillId>,
        now: DateTime,
    ) -> (ManagerView, Result<(), BalanceError>) {
        let (positions, result) = self.positions.spec_increase(
            TradePlaceAccount {
                exchange_account_id: request.exchange_account_id,
                currency_pair: request.currency_pair,
            },
            position_change,
            client_order_fill_id,
            now,
        );
        (ManagerView { positions, ..self }, result)
    }

    /// Writes what was planned for a fill: the position of the market
    /// changes by `position_change`, where there is one, and the virtual
    /// balance gets its entry. Both are written, or neither: where the
    /// position cannot change, the state is as it was, nothing is reported,
    /// and the result is the error.
    pub open spec fn spec_write_fill(
        self,
        request: BalanceRequest,
        plan: FillPlan,
        position_change: Option<Decimal>,
        client_order_fill_id: Option<ClientOrderFillId>,
        change_amount: Decimal,
        now: DateTime,
    ) -> (ManagerView, Decimal, Result<(), BalanceError>) {
        match position_change {
            None => (self.spec_set_balance(plan.0), plan.1, Ok(())),
            Some(change) => {
                let (moved, result) = self.spec_add_position(request, change, client_order_fill_id, now);
                match result {
                    Err(e) => (self, change_amount, Err(e)),
                    Ok(()) => (moved.spec_set_balance(plan.0), plan.1, Ok(())),
                }
            },
        }
    }

    /// Accounts for a fill of `fill_amount` at `price`, seen from the
    /// currency `currency_code`.
    ///
    /// On a spot market the virtual balance of the currency loses the
    /// amount. Where the currency is the amount currency of the market, the
    /// position changes by the amount (by its negation on a derivative whose
    /// amount currency is the base currency), and on a derivative the
    /// balance gains or pays as the fill closes or opens position. The
    /// second component is the change of balance to report, `change_amount`
    /// where none was computed. Where the result is an error, the state is
    /// as it was.
    pub open spec fn spec_handle_position_fill_amount_change(
        self,
        trade_side: OrderSide,
        client_order_fill_id: Option<ClientOrderFillId>,
        fill_amount: Decimal,
        price: Decimal,
        configuration_descriptor: ConfigurationDescriptor,
        exchange_account_id: ExchangeAccountId,
        currency_pair_metadata: CurrencyPairMetadata,
        currency_code: CurrencyCode,
        change_amount: Decimal,
        now: DateTime,
    ) -> (ManagerView, Decimal, Result<(), BalanceError>) {
        let request = spec_request(configuration_descriptor, exchange_account_id, currency_pair_metadata, currency_code);
        let in_amount_currency = currency_pair_metadata.amount_currency_code@ == currency_code@;
        if !currency_pair_metadata.is_derivative {
            match self.spec_spot_fill(request, currency_pair_metadata, fill_amount, price) {
                Err(e) => (self, change_amount, Err(e)),
                Ok(plan) => self.spec_write_fill(
                    request,
                    plan,
                    if in_amount_currency {
                        Some(fill_amount)
                    } else {
                        None
                    },
                    client_order_fill_id,
                    change_amount,
                    now,
                ),
            }
        } else if !in_amount_currency {
            (self, change_amount, Ok(()))
        } else {
            match self.spec_derivative_fill(trade_side, request, currency_pair_metadata, fill_amount, price) {
                Err(e) => (self, change_amount, Err(e)),
                Ok(plan) => {
                    let position_change = if currency_pair_metadata.amount_currency_code@
                        == currency_pair_metadata.base_currency_code@ {
                        fill_amount.spec_neg()
                    } else {
                        fill_amount
                    };
                    self.spec_write_fill(request, plan, Some(position_change), client_order_fill_id, change_amount, now)
                },
            }
        }
    }

    /// Accounts for the commission of a fill: the virtual balance loses the
    /// commission by the leverage.
    ///
    /// On a spot market, and on a derivative whose balance currency is the
    /// commission's, the commission is taken as it is, in its own currency.
    /// Else the converted commission is taken, expressed in the amount
    /// currency at `price`. A market without leverage is an error.
    pub open spec fn spec_handle_commission(
        self,
        commission_currency_code: CurrencyCode,
        commission_amount: Decimal,
        converted_commission_currency_code: CurrencyCode,
        converted_commission_amount: Decimal,
        price: Decimal,
        configuration_descriptor: ConfigurationDescriptor,
        exchange_account_id: ExchangeAccountId,
        currency_pair_metadata: CurrencyPairMetadata,
    ) -> (ManagerView, Result<(), BalanceError>) {
        match self.spec_leverage(exchange_account_id, currency_pair_metadata.currency_pair) {
            None => (self, Err(BalanceError::LeverageMissing)),
            Some(leverage) => {
                let direct = !currency_pair_metadata.is_derivative || match currency_pair_metadata.balance_currency_code {
                    Some(code) => code@ == commission_currency_code@,
                    None => false,
                };
                if direct {
                    let request = spec_request(
                        configuration_descriptor,
                        exchange_account_id,
                        currency_pair_metadata,
                        commission_currency_code,
                    );
                    match commission_amount.spec_div(leverage) {
                        None => (self, Err(BalanceError::Arithmetic)),
                        Some(share) => match spec_tree_sum(self.holder.diffs, request, share.spec_neg()) {
                            None => (self, Err(BalanceError::Arithmetic)),
                            Some(total) => (self.spec_set_balance((request, total)), Ok(())),
                        },
                    }
                } else {
                    let request = spec_request(
                        configuration_descriptor,
                        exchange_account_id,
                        currency_pair_metadata,
                        converted_commission_currency_code,
                    );
                    match currency_pair_metadata.spec_into_amount_currency(
                        converted_commission_currency_code@,
                        converted_commission_amount,
                        price,
                    ) {
                        None => (self, Err(BalanceError::Arithmetic)),
                        Some(in_amount) => match in_amount.spec_div(leverage) {
                            None => (self, Err(BalanceError::Arithmetic)),
                            Some(share) => self.spec_add_virtual_balance(
                                request,
                                currency_pair_metadata,
                                share.spec_neg(),
                                price,
                            ),
                        },
                    }
                }
            },
        }
    }

    /// Replaces the position of a derivative market by the one that the
    /// exchange reports. A spot market is an error.
    pub open spec fn spec_restore_fill_amount_position(
        self,
        exchange_account_id: ExchangeAccountId,
        currency_pair_metadata: CurrencyPairMetadata,
        new_position: Decimal,
        now: DateTime,
    ) -> (ManagerView, Result<(), BalanceError>) {
        if !currency_pair_metadata.is_derivative {
            (self, Err(BalanceError::RestorationOnSpot))
        } else {
            let (positions, result) = self.positions.spec_set(
                TradePlaceAccount { exchange_account_id, currency_pair: currency_pair_metadata.currency_pair },
                lookup(self.positions.positions, (exchange_account_id@, currency_pair_metadata.currency_pair@)),
                new_position,
                None,
                now,
            );
            (ManagerView { positions, ..self }, result)
        }
    }
}

impl BalanceReservationManager {
    /// What a fill on a spot market writes and reports.
    fn spot_fill(
        &self,
        request: &BalanceRequest,
        currency_pair_metadata: &CurrencyPairMetadata,
        fill_amount: Decimal,
        price: Decimal,
    ) -> (r: Result<FillPlan, BalanceError>)
        ensures
            r == self@.spec_spot_fill(*request, *currency_pair_metadata, fill_amount, price),
    {
        let entry = match self.plan_virtual_balance(request, currency_pair_metadata, fill_amount.neg(), price) {
            Ok(entry) => entry,
            Err(e) => return Err(e),
        };
        match currency_pair_metadata.convert_amount_from_amount_currency_code(
            &request.currency_code,
            fill_amount,
            price,
        ) {
            Some(change) => Ok((entry, change)),
            None => Err(BalanceError::Arithmetic),
        }
    }

    /// What a fill on a derivative market writes and reports.
    fn derivative_fill(
        &self,
        trade_side: OrderSide,
        request: &BalanceRequest,
        currency_pair_metadata: &CurrencyPairMetadata,
        fill_amount: Decimal,
        price: Decimal,
    ) -> (r: Result<FillPlan, BalanceError>)
        ensures
            r == self@.spec_derivative_fill(trade_side, *request, *currency_pair_metadata, fill_amount, price),
    {
        let free_amount = self.get_position_in_amount_currency_code(
            &request.exchange_account_id,
            currency_pair_metadata,
            trade_side,
        );
        let move_amount = fill_amount.abs();
        let rest = match free_amount.exact_sub(move_amount) {
            Some(rest) => rest,
            None => return Err(BalanceError::Arithmetic),
        };
        let (add_amount, sub_amount) = if !rest.is_negative() {
            (move_amount, Decimal::zero())
        } else {
            (free_amount, rest.abs())
        };
        let leverage = match self.try_get_leverage(&request.exchange_account_id, &currency_pair_metadata.currency_pair) {
            Some(leverage) => leverage,
            None => return Err(BalanceError::LeverageMissing),
        };
        let net = match add_amount.exact_sub(sub_amount) {
            Some(net) => net,
            None => return Err(BalanceError::Arithmetic),
        };
        let share = match net.checked_div(leverage) {
            Some(share) => share,
            None => return Err(BalanceError::Arithmetic),
        };
        let diff_in_amount_currency = match share.checked_mul(currency_pair_metadata.amount_multiplier) {
            Some(diff) => diff,
            None => return Err(BalanceError::Arithmetic),
        };
        let entry = match self.plan_virtual_balance(request, currency_pair_metadata, diff_in_amount_currency, price) {
            Ok(entry) => entry,
            Err(e) => return Err(e),
        };
        match currency_pair_metadata.convert_amount_from_amount_currency_code(
            &request.currency_code,
            diff_in_amount_currency,
            price,
        ) {
            Some(change) => Ok((entry, change)),
            None => Err(BalanceError::Arithmetic),
        }
    }

    /// Changes the position of the request's market by `position_change`.
    fn add_position(
        &mut self,
        request: &BalanceRequest,
        position_change: Decimal,
        client_order_fill_id: &Option<ClientOrderFillId>,
        now: DateTime,
    ) -> (r: Result<(), BalanceError>)
        ensures
            (final(self)@, r) == old(self)@.spec_add_position(*request, position_change, *client_order_fill_id, now),
            old(self).wf() ==> final(self).wf(),
    {
        let fill_id = match client_order_fill_id {
            Some(id) => Some(id.clone()),
            None => None,
        };
        self.position_by_fill_amount_in_amount_currency.add(
            &request.exchange_account_id,
            &request.currency_pair,
            position_change,
            fill_id,
            now,
        )
    }

    /// Writes what was planned for a fill: the position first, which may
    /// fail, then the balance.
    fn write_fill(
        &mut self,
        request: &BalanceRequest,
        plan: FillPlan,
        position_change: Option<Decimal>,
        client_order_fill_id: &Option<ClientOrderFillId>,
        change_amount_in_currency: &mut Decimal,
        now: DateTime,
    ) -> (r: Result<(), BalanceError>)
        ensures
            (final(self)@, *final(change_amount_in_currency), r) == old(self)@.spec_write_fill(
                *request,
                plan,
                position_change,
                *client_order_fill_id,
                *old(change_amount_in_currency),
                now,
            ),
            old(self).wf() ==> final(self).wf(),
    {
        match position_change {
            None => {},
            Some(change) => match self.add_position(request, change, client_order_fill_id, now) {
                Err(e) => return Err(e),
                Ok(()) => {},
            },
        }
        self.virtual_balance_holder.balance_diff.set_by_balance_request(&plan.0.0, plan.0.1);
        *change_amount_in_currency = plan.1;
        Ok(())
    }

    /// Accounts for a fill of `fill_amount` at `price`, seen from the
    /// currency `currency_code`, and hands out the change of balance in that
    /// currency. Where the result is an error, nothing has changed.
    pub fn handle_position_fill_amount_change(
        &mut self,
        trade_side: OrderSide,
        client_order_fill_id: &Option<ClientOrderFillId>,
        fill_amount: Decimal,
        price: Decimal,
        configuration_descriptor: &ConfigurationDescriptor,
        exchange_account_id: &ExchangeAccountId,
        currency_pair_metadata: &CurrencyPairMetadata,
        currency_code: &CurrencyCode,
        change_amount_in_currency: &mut Decimal,
        now: DateTime,
    ) -> (r: Result<(), BalanceError>)
        ensures
            (final(self)@, *final(change_amount_in_currency), r)
                == old(self)@.spec_handle_position_fill_amount_change(
                trade_side,
                *client_order_fill_id,
                fill_amount,
                price,
                *configuration_descriptor,
                *exchange_account_id,
                *currency_pair_metadata,
                *currency_code,
                *old(change_amount_in_currency),
                now,
            ),
            old(self).wf() ==> final(self).wf(),
    {
        let request = make_request(
            configuration_descriptor,
            exchange_account_id,
            currency_pair_metadata,
            currency_code,
        );
        let in_amount_currency = currency_pair_metadata.amount_currency_code.same(currency_code);
        if !currency_pair_metadata.is_derivative {
            match self.spot_fill(&request, currency_pair_metadata, fill_amount, price) {
                Err(e) => Err(e),
                Ok(plan) => {
                    let position_change = if in_amount_currency {
                        Some(fill_amount)
                    } else {
                        None
                    };
                    self.write_fill(&request, plan, position_change, client_order_fill_id, change_amount_in_currency, now)
                },
            }
        } else if !in_amount_currency {
            Ok(())
        } else {
            match self.derivative_fill(trade_side, &request, currency_pair_metadata, fill_amount, price) {
                Err(e) => Err(e),
                Ok(plan) => {
                    let position_change = if currency_pair_metadata.amount_currency_code.same(
                        &currency_pair_metadata.base_currency_code,
                    ) {
                        fill_amount.neg()
                    } else {
                        fill_amount
                    };
                    self.write_fill(
                        &request,
                        plan,
                        Some(position_change),
                        client_order_fill_id,
                        change_amount_in_currency,
                        now,
                    )
                },
            }
        }
    }

    /// Accounts for the commission of a fill.
    pub fn handle_position_fill_amount_change_commission(
        &mut self,
        commission_currency_code: &CurrencyCode,
        commission_amount: Decimal,
        converted_commission_currency_code: &CurrencyCode,
        converted_commission_amount: Decimal,
        price: Decimal,
        configuration_descriptor: &ConfigurationDescriptor,
        exchange_account_id: &ExchangeAccountId,
        currency_pair_metadata: &CurrencyPairMetadata,
    ) -> (r: Result<(), BalanceError>)
        ensures
            (final(self)@, r) == old(self)@.spec_handle_commission(
                *commission_currency_code,
                commission_amount,
                *converted_commission_currency_code,
                converted_commission_amount,
                price,
                *configuration_descriptor,
                *exchange_account_id,
                *currency_pair_metadata,
            ),
            old(self).wf() ==> final(self).wf(),
    {
        let leverage = match self.try_get_leverage(exchange_account_id, &currency_pair_metadata.currency_pair) {
            Some(leverage) => leverage,
            None => return Err(BalanceError::LeverageMissing),
        };
        let direct = !currency_pair_metadata.is_derivative || match &currency_pair_metadata.balance_currency_code {
            Some(code) => code.same(commission_currency_code),
            None => false,
        };
        if direct {
            let request = make_request(
                configuration_descriptor,
                exchange_account_id,
                currency_pair_metadata,
                commission_currency_code,
            );
            let res_commission_amount = match commission_amount.checked_div(leverage) {
                Some(share) => share,
                None => return Err(BalanceError::Arithmetic),
            };
            match self.virtual_balance_holder.balance_diff.planned_sum(&request, res_commission_amount.neg()) {
                Some(total) => {
                    self.virtual_balance_holder.balance_diff.set_by_balance_request(&request, total);
                    Ok(())
                },
                None => Err(BalanceError::Arithmetic),
            }
        } else {
            let request = make_request(
                configuration_descriptor,
                exchange_account_id,
                currency_pair_metadata,
                converted_commission_currency_code,
            );
            let commission_in_amount_currency = match currency_pair_metadata.convert_amount_into_amount_currency_code(
                converted_commission_currency_code,
                converted_commission_amount,
                price,
            ) {
                Some(amount) => amount,
                None => return Err(BalanceError::Arithmetic),
            };
            let res_commission_amount_in_amount_currency = match commission_in_amount_currency.checked_div(leverage) {
                Some(share) => share,
                None => return Err(BalanceError::Arithmetic),
            };
            self.add_virtual_balance_by_currency_pair_metadata(
                &request,
                currency_pair_metadata,
                res_commission_amount_in_amount_currency.neg(),
                price,
            )
        }
    }

    /// Replaces the position of a derivative market by the one that the
    /// exchange reports.
    pub fn restore_fill_amount_position(
        &mut self,
        exchange_account_id: &ExchangeAccountId,
        currency_pair_metadata: &CurrencyPairMetadata,
        new_position: Decimal,
        now: DateTime,
    ) -> (r: Result<(), BalanceError>)
        ensures
            (final(self)@, r) == old(self)@.spec_restore_fill_amount_position(
                *exchange_account_id,
                *currency_pair_metadata,
                new_position,
                now,
            ),
            old(self).wf() ==> final(self).wf(),
    {
        if !currency_pair_metadata.is_derivative {
            return Err(BalanceError::RestorationOnSpot);
        }
        let previous_value = self.position_by_fill_amount_in_amount_currency.get(
            exchange_account_id,
            &currency_pair_metadata.currency_pair,
        );
        self.position_by_fill_amount_in_amount_currency.set(
            exchange_account_id,
            &currency_pair_metadata.currency_pair,
            previous_value,
            new_position,
            None,
            now,
        )
    }
}

} // verus!
