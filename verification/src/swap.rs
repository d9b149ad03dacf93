//! Orchestration of one trade end-to-end.
//!
//! A call validates its preconditions, asks the curve for the counter
//! amount, enforces the caller's minimum-output floor, and only then moves
//! balances: first the deposit leg into the pool's custody, then the
//! withdrawal leg out of it. Every failure is detected before any balance
//! moves, so a call either completes in full or changes nothing.

use vstd::prelude::*;

use crate::curve::{
    delta_x_from_y_swap_amount, delta_y_from_x_swap_amount, lemma_output_bounds,
    lemma_output_bounds_x, spec_delta_x, spec_delta_y,
};
use crate::errors::AmmError;

verus! {

/// The two trade directions. Each variant statically determines which
/// custody account receives the deposit, which is debited for the
/// withdrawal, and which curve quote is validated against the floor.
#[derive(Clone, Copy, Debug, PartialEq, Eq, Structural)]
pub enum Direction {
    /// Asset X is deposited; asset Y is withdrawn.
    XIn,
    /// Asset Y is deposited; asset X is withdrawn.
    YIn,
}

/// Read-only pool configuration: the lock flag and the seed/bump pair from
/// which the pool's withdrawal authority is derived. The hosting runtime
/// validates account ownership and the mint pair before the core runs.
#[derive(Clone, Copy, Debug, PartialEq, Eq, Structural)]
pub struct Config {
    /// Identifying seed of the pool, also the first ingredient of its
    /// derived withdrawal authority.
    pub seed: u64,
    /// Stored bump byte completing the authority derivation.
    pub config_bump: u8,
    /// When set, all swaps fail with [`AmmError::PoolLocked`].
    pub locked: bool,
}

/// A pair of live custody balances.
#[derive(Clone, Copy, Debug, PartialEq, Eq, Structural)]
pub struct Reserves {
    pub x: u64,
    pub y: u64,
}

/// Amounts actually moved by a successful swap, and the custody balances
/// after it.
#[derive(Clone, Copy, Debug, PartialEq, Eq, Structural)]
pub struct SwapResult {
    pub input_amount: u64,
    pub output_amount: u64,
    pub new_reserves: Reserves,
}

/// One swap call's view of the world: the pool configuration, the pool's
/// two custody balances, and the calling trader's two balances. The
/// balances are read fresh at the start of the call; nothing here is
/// cached pool state.
#[derive(Clone, Copy, Debug, PartialEq, Eq, Structural)]
pub struct Swap {
    pub config: Config,
    /// Pool custody balance of asset X.
    pub vault_x: u64,
    /// Pool custody balance of asset Y.
    pub vault_y: u64,
    /// Trader balance of asset X.
    pub swapper_x: u64,
    /// Trader balance of asset Y.
    pub swapper_y: u64,
}

/// Trader balance of the asset being deposited.
pub open spec fn spec_trader_in(s: Swap, direction: Direction) -> u64 {
    match direction {
        Direction::XIn => s.swapper_x,
        Direction::YIn => s.swapper_y,
    }
}

/// Custody balance receiving the deposit.
pub open spec fn spec_vault_in(s: Swap, direction: Direction) -> u64 {
    match direction {
        Direction::XIn => s.vault_x,
        Direction::YIn => s.vault_y,
    }
}

/// Trader balance of the asset being withdrawn.
pub open spec fn spec_trader_out(s: Swap, direction: Direction) -> u64 {
    match direction {
        Direction::XIn => s.swapper_y,
        Direction::YIn => s.swapper_x,
    }
}

/// Custody balance debited for the withdrawal.
pub open spec fn spec_vault_out(s: Swap, direction: Direction) -> u64 {
    match direction {
        Direction::XIn => s.vault_y,
        Direction::YIn => s.vault_x,
    }
}

/// The counter amount the curve quotes for this trade, over the custody
/// balances at the start of the call.
pub open spec fn spec_output(s: Swap, direction: Direction, amount: u64) -> int {
    match direction {
        Direction::XIn => spec_delta_y(s.vault_x as int, s.vault_y as int, amount as int),
        Direction::YIn => spec_delta_x(s.vault_x as int, s.vault_y as int, amount as int),
    }
}

/// State after the deposit leg: `amount` of the input asset has moved from
/// the trader's account into the matching custody account.
pub open spec fn spec_deposit_post(s: Swap, direction: Direction, amount: u64) -> Swap {
    match direction {
        Direction::XIn => Swap {
            vault_x: (s.vault_x + amount) as u64,
            swapper_x: (s.swapper_x - amount) as u64,
            ..s
        },
        Direction::YIn => Swap {
            vault_y: (s.vault_y + amount) as u64,
            swapper_y: (s.swapper_y - amount) as u64,
            ..s
        },
    }
}

/// State after the withdrawal leg: `amount` of the counter asset has moved
/// from the pool's custody account to the trader's account.
pub open spec fn spec_withdraw_post(s: Swap, direction: Direction, amount: u64) -> Swap {
    match direction {
        Direction::XIn => Swap {
            vault_y: (s.vault_y - amount) as u64,
            swapper_y: (s.swapper_y + amount) as u64,
            ..s
        },
        Direction::YIn => Swap {
            vault_x: (s.vault_x - amount) as u64,
            swapper_x: (s.swapper_x + amount) as u64,
            ..s
        },
    }
}

/// State after a whole successful swap: the deposit leg, then the
/// withdrawal of the quoted output.
pub open spec fn spec_swap_post(s: Swap, direction: Direction, amount: u64) -> Swap {
    spec_withdraw_post(
        spec_deposit_post(s, direction, amount),
        direction,
        spec_output(s, direction, amount) as u64,
    )
}

/// The complete failure decision of [`Swap::swap`], evaluated on the state
/// at the start of the call, in the order the checks are made. `None`
/// means the call succeeds.
pub open spec fn spec_swap_error(
    s: Swap,
    direction: Direction,
    amount: u64,
    min_output: u64,
) -> Option<AmmError> {
    if s.config.locked {
        Some(AmmError::PoolLocked)
    } else if amount == 0 {
        Some(AmmError::InvalidAmount)
    } else if s.vault_x == 0 || s.vault_y == 0 {
        Some(AmmError::InvalidReserves)
    } else if spec_output(s, direction, amount) < min_output {
        Some(AmmError::SlippageExceeded)
    } else if spec_trader_in(s, direction) < amount {
        Some(AmmError::InsufficientFunds)
    } else if spec_vault_in(s, direction) + amount > u64::MAX {
        Some(AmmError::Overflow)
    } else if spec_trader_out(s, direction) + spec_output(s, direction, amount) > u64::MAX {
        Some(AmmError::Overflow)
    } else {
        None
    }
}

impl Swap {
    /// Deposit leg: moves `amount` of the input asset from the trader's
    /// account into the pool's custody account for that asset. The trader
    /// authorizes this transfer. Fails, changing nothing, when the trader
    /// cannot cover the amount or the custody balance would overflow.
    pub fn deposit_tokens(&mut self, direction: Direction, amount: u64) -> (r: Result<
        (),
        AmmError,
    >)
        ensures
            spec_trader_in(*old(self), direction) < amount ==> r == Err::<(), AmmError>(
                AmmError::InsufficientFunds,
            ) && *final(self) == *old(self),
            spec_trader_in(*old(self), direction) >= amount && spec_vault_in(*old(self), direction)
                + amount > u64::MAX ==> r == Err::<(), AmmError>(AmmError::Overflow) && *final(self)
                == *old(self),
            spec_trader_in(*old(self), direction) >= amount && spec_vault_in(*old(self), direction)
                + amount <= u64::MAX ==> r == Ok::<(), AmmError>(()) && *final(self)
                == spec_deposit_post(*old(self), direction, amount),
    {
        match direction {
            Direction::XIn => {
                if self.swapper_x < amount {
                    return Err(AmmError::InsufficientFunds);
                }
                if amount > u64::MAX - self.vault_x {
                    return Err(AmmError::Overflow);
                }
                self.swapper_x = self.swapper_x - amount;
                self.vault_x = self.vault_x + amount;
            },
            Direction::YIn => {
                if self.swapper_y < amount {
                    return Err(AmmError::InsufficientFunds);
                }
                if amount > u64::MAX - self.vault_y {
                    return Err(AmmError::Overflow);
                }
                self.swapper_y = self.swapper_y - amount;
                self.vault_y = self.vault_y + amount;
            },
        }
        Ok(())
    }

    /// Withdrawal leg: moves `amount` of the counter asset from the pool's
    /// custody account to the trader's account. The pool's derived
    /// credential ([`crate::auth::authority_credential`]), not the trader,
    /// authorizes this transfer; verifying it is the transfer capability's
    /// concern. Fails, changing nothing, when custody cannot cover the
    /// amount or the trader's balance would overflow.
    pub fn withdraw_tokens(&mut self, direction: Direction, amount: u64) -> (r: Result<
        (),
        AmmError,
    >)
        ensures
            spec_vault_out(*old(self), direction) < amount ==> r == Err::<(), AmmError>(
                AmmError::InsufficientFunds,
            ) && *final(self) == *old(self),
            spec_vault_out(*old(self), direction) >= amount && spec_trader_out(*old(self), direction)
                + amount > u64::MAX ==> r == Err::<(), AmmError>(AmmError::Overflow) && *final(self)
                == *old(self),
            spec_vault_out(*old(self), direction) >= amount && spec_trader_out(*old(self), direction)
                + amount <= u64::MAX ==> r == Ok::<(), AmmError>(()) && *final(self)
                == spec_withdraw_post(*old(self), direction, amount),
    {
        match direction {
            Direction::XIn => {
                if self.vault_y < amount {
                    return Err(AmmError::InsufficientFunds);
                }
                if amount > u64::MAX - self.swapper_y {
                    return Err(AmmError::Overflow);
                }
                self.vault_y = self.vault_y - amount;
                self.swapper_y = self.swapper_y + amount;
            },
            Direction::YIn => {
                if self.vault_x < amount {
                    return Err(AmmError::InsufficientFunds);
                }
                if amount > u64::MAX - self.swapper_x {
                    return Err(AmmError::Overflow);
                }
                self.vault_x = self.vault_x - amount;
                self.swapper_x = self.swapper_x + amount;
            },
        }
        Ok(())
    }

    /// Sequences one trade end-to-end: lock and amount checks, live
    /// reserves, curve quote for the requested direction, slippage floor,
    /// transfer preconditions, then the deposit leg followed by the
    /// withdrawal leg. A failing call returns exactly the error that
    /// [`spec_swap_error`] assigns to the starting state and leaves every
    /// balance unchanged; a successful call moves `amount` in and the
    /// quoted output out, in that order.
    pub fn swap(&mut self, direction: Direction, amount: u64, min_output: u64) -> (r: Result<
        SwapResult,
        AmmError,
    >)
        ensures
            match spec_swap_error(*old(self), direction, amount, min_output) {
                Some(e) => r == Err::<SwapResult, AmmError>(e) && *final(self) == *old(self),
                None => ({
                    let post = spec_swap_post(*old(self), direction, amount);
                    &&& *final(self) == post
                    &&& r == Ok::<SwapResult, AmmError>(
                        (SwapResult {
                            input_amount: amount,
                            output_amount: spec_output(*old(self), direction, amount) as u64,
                            new_reserves: (Reserves { x: post.vault_x, y: post.vault_y }),
                        }),
                    )
                }),
            },
            old(self).config.locked ==> r == Err::<SwapResult, AmmError>(AmmError::PoolLocked)
                && *final(self) == *old(self),
            amount == 0 ==> r.is_err() && *final(self) == *old(self),
            !old(self).config.locked && amount == 0 ==> r == Err::<SwapResult, AmmError>(
                AmmError::InvalidAmount,
            ),
    {
        if self.config.locked {
            return Err(AmmError::PoolLocked);
        }
        if amount == 0 {
            return Err(AmmError::InvalidAmount);
        }
        let x = self.vault_x;
        let y = self.vault_y;
        let quote = match direction {
            Direction::XIn => delta_y_from_x_swap_amount(x, y, amount),
            Direction::YIn => delta_x_from_y_swap_amount(x, y, amount),
        };
        let output = match quote {
            Ok(v) => {
                proof {
                    match direction {
                        Direction::XIn => lemma_output_bounds(
                            x as int,
                            y as int,
                            amount as int,
                        ),
                        Direction::YIn => lemma_output_bounds_x(
                            x as int,
                            y as int,
                            amount as int,
                        ),
                    }
                }
                v
            },
            Err(e) => { return Err(e); },
        };
        if output < min_output {
            return Err(AmmError::SlippageExceeded);
        }
        let trader_in = match direction {
            Direction::XIn => self.swapper_x,
            Direction::YIn => self.swapper_y,
        };
        if trader_in < amount {
            return Err(AmmError::InsufficientFunds);
        }
        let vault_in = match direction {
            Direction::XIn => self.vault_x,
            Direction::YIn => self.vault_y,
        };
        if amount > u64::MAX - vault_in {
            return Err(AmmError::Overflow);
        }
        let trader_out = match direction {
            Direction::XIn => self.swapper_y,
            Direction::YIn => self.swapper_x,
        };
        if output > u64::MAX - trader_out {
            return Err(AmmError::Overflow);
        }
        match self.deposit_tokens(direction, amount) {
            Ok(_) => {},
            Err(e) => { return Err(e); },
        }
        match self.withdraw_tokens(direction, output) {
            Ok(_) => {},
            Err(e) => { return Err(e); },
        }
        Ok(
            SwapResult {
                input_amount: amount,
                output_amount: output,
                new_reserves: Reserves { x: self.vault_x, y: self.vault_y },
            },
        )
    }
}

} // verus!
