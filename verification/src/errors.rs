use vstd::prelude::*;

verus! {

/// Failure taxonomy of the swap core.
///
/// Every error is detected and reported before any balance moves, except
/// that transfer failures (`InsufficientFunds`, and `Overflow` on a credited
/// balance) are the model of the transfer capability refusing a leg; the
/// orchestrator checks those conditions too before mutating anything, so a
/// failed call never leaves the pool half-updated.
#[derive(Clone, Copy, Debug, PartialEq, Eq, Structural)]
pub enum AmmError {
    /// The pool's lock flag is set; all swaps are forbidden.
    PoolLocked,
    /// The trade amount is zero.
    InvalidAmount,
    /// A custody reserve is zero; an empty pool cannot quote a price.
    InvalidReserves,
    /// An arithmetic step would exceed the width of a balance.
    Overflow,
    /// A curve divisor is zero. Defensively checked; it cannot occur once
    /// the reserves have passed the nonzero check.
    DivisionByZero,
    /// The computed output falls below the caller's minimum-output floor.
    SlippageExceeded,
    /// A transfer would debit more than the paying account holds.
    InsufficientFunds,
}

} // verus!
