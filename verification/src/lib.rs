//! Core of a multi-exchange trading engine.
//!
//! - The balance reservation manager
//!   ([`balance_reservation_manager::BalanceReservationManager`]) accounts for
//!   virtual balances, reservations for orders, limits and positions. Its
//!   operations are in [`reserving`], [`unreserving`], [`transfers`],
//!   [`fills`] and [`reserved_amounts`]; what holds of its state whatever is
//!   done to it is proved in [`reservation_laws`] and [`manager_laws`].
//! - The exchange blocker ([`exchange_blocker::ExchangeBlocker`]) is the
//!   state machine that blocks an exchange account for a reason and moves
//!   it back to unblocked; [`blocker_laws`] proves which moments its
//!   handlers are run for.
//! - [`orders`] holds the orders of an account; [`order_fills`] applies
//!   the fills that an exchange reports to them, [`open_orders`] adds the
//!   open orders that the pool lacks, and [`trades`] takes note of the
//!   trades of the markets.
//! - [`price_source_chains`] builds the chains of markets through which an
//!   amount in one currency is expressed in another, and
//!   [`usd_denominator`] keeps prices in US dollars.
//!
//! All monetary values are [`decimal::Decimal`] numbers, computed by the
//! `rust_decimal` crate. The amounts that reservations and the tree of
//! reserved amounts are made of are summed exactly, or the operation is
//! refused. Balances are made of products and quotients, which the crate
//! rounds; they are summed as the crate sums them, and appear in contracts
//! under the names of the crate's results.
//!
//! Maps are association lists ([`vec_map::VecMap`]): their entries keep the
//! order in which they were added, and contracts speak of the sequence of
//! entries. Time is handed in by the caller, in milliseconds.

pub mod balance_position_by_fill_amount;
pub mod balance_reservation;
pub mod balance_reservation_manager;
pub mod balance_reservation_storage;
pub mod balances;
pub mod blocker_laws;
pub mod common;
pub mod currency_pair_metadata;
pub mod decimal;
pub mod errors;
pub mod events;
pub mod exchange;
pub mod exchange_blocker;
pub mod fills;
pub mod manager_laws;
pub mod open_orders;
pub mod order_fills;
pub mod orders;
pub mod price_source_chains;
pub mod reservation_laws;
pub mod reserved_amounts;
pub mod reserving;
pub mod service_value_tree;
pub mod trades;
pub mod transfers;
pub mod unreserving;
pub mod usd_denominator;
pub mod vec_map;
pub mod virtual_balance_holder;
