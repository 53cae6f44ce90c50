//! The errors of the balance reservation manager.

use vstd::prelude::*;

verus! {

/// Why an operation of the balance reservation manager failed.
#[derive(Clone, Copy, Debug, PartialEq, Eq, Structural)]
pub enum BalanceError {
    /// No reservation has the identifier.
    UnknownReservation,
    /// An amount could not be rounded to the market's precision.
    PrecisionRoundingFailed,
    /// More was to be taken from an approved part than it holds.
    NegativeApprovedResidual,
    /// A part of the reservation is approved for the order already.
    DoubleApproval,
    /// An approval would leave the not approved amount below zero by more
    /// than the market's margin.
    NegativeNotApproved,
    /// More was unreserved without an order than is not approved, while more
    /// than the margin of the market would remain reserved: the order has to
    /// be named.
    ClientOrderIdRequired,
    /// The approved part was canceled before.
    AlreadyCanceled,
    /// The source of a transfer has no approved part for the order.
    ApprovedPartNotFound,
    /// A reservation would be left with an amount below zero by more than the
    /// market's margin.
    NegativeUnreserved,
    /// A share of the cost was asked of a reservation whose amount is zero.
    ZeroProportion,
    /// A position can be restored on derivative markets only.
    RestorationOnSpot,
    /// The market is a derivative without a balance currency.
    MissingBalanceCurrency,
    /// No leverage is configured for the market.
    LeverageMissing,
    /// The two reservations of a transfer differ in configuration, account,
    /// market or side.
    TransferSourceMismatch,
    /// The balance available to the target of a transfer is unknown.
    BalanceUnavailable,
    /// The position that was to be replaced is not the current one.
    PositionMismatch,
    /// A change of position is older than the last one recorded.
    TimeWentBack,
    /// A sum or difference was not exact, a product or quotient overflowed,
    /// a divisor was zero, or a currency is outside the pair.
    Arithmetic,
}

} // verus!
