//! Resolving a wager into the single transfer that settles it.
//!
//! The resolution is deterministic in the drawn bit: it takes the parsed
//! wager, the two balances and the bit, and decides either one transfer or
//! one terminal error. Drawing the bit and carrying the transfer out are
//! not its business.

use vstd::prelude::*;
use crate::error::WagerError;
use crate::payload::Wager;

verus! {

/// The single balance movement that settles a wager.
#[derive(Clone, Copy, Debug, PartialEq, Eq, Structural)]
pub enum Transfer {
    /// The reserve pays the winning player double the stake.
    ReserveToPlayer {
        /// The payout: twice the stake.
        amount: u64,
    },
    /// The losing player pays the stake into the reserve.
    PlayerToReserve {
        /// The forfeited stake.
        amount: u64,
    },
}

impl Transfer {
    /// Applies the transfer to the pair of balances it connects, returning
    /// the new player balance and the new reserve balance. The source must
    /// cover the amount and the destination must be able to absorb it; the
    /// total of the two balances never changes.
    pub fn apply(self, player_balance: u64, reserve_balance: u64) -> (r: (u64, u64))
        requires
            (self matches Transfer::ReserveToPlayer { amount } ==> amount <= reserve_balance
                && player_balance + amount <= u64::MAX),
            (self matches Transfer::PlayerToReserve { amount } ==> amount <= player_balance
                && reserve_balance + amount <= u64::MAX),
        ensures
            (self matches Transfer::ReserveToPlayer { amount } ==> r.0 == player_balance + amount
                && r.1 == reserve_balance - amount),
            (self matches Transfer::PlayerToReserve { amount } ==> r.0 == player_balance - amount
                && r.1 == reserve_balance + amount),
            r.0 + r.1 == player_balance + reserve_balance,
    {
        match self {
            Transfer::ReserveToPlayer { amount } => (
                player_balance + amount,
                reserve_balance - amount,
            ),
            Transfer::PlayerToReserve { amount } => (
                player_balance - amount,
                reserve_balance + amount,
            ),
        }
    }
}

/// Whether the drawn bit, read as 1 for true and 0 for false, matches the
/// player's prediction.
pub open spec fn wins(coin: bool, choice: u8) -> bool {
    (if coin {
        1u8
    } else {
        0u8
    }) == choice
}

/// What resolving a wager yields, given both balances and the drawn bit.
///
/// A player who cannot cover the stake is rejected before the bit is
/// looked at. On a win the payout is twice the stake, checked first
/// against 64-bit overflow and then against the reserve's balance; on a
/// loss the stake simply moves to the reserve.
pub open spec fn resolve_spec(
    wager: Wager,
    player_balance: u64,
    reserve_balance: u64,
    coin: bool,
) -> Result<Transfer, WagerError> {
    if player_balance < wager.stake {
        Err(WagerError::InsufficientFunds)
    } else if wins(coin, wager.choice) {
        if 2 * wager.stake > u64::MAX {
            Err(WagerError::ArithmeticOverflow)
        } else if reserve_balance < 2 * wager.stake {
            Err(WagerError::InsufficientFunds)
        } else {
            Ok(Transfer::ReserveToPlayer { amount: (2 * wager.stake) as u64 })
        }
    } else {
        Ok(Transfer::PlayerToReserve { amount: wager.stake })
    }
}

/// Resolves a wager: decides the one transfer that settles it, or the
/// terminal error that aborts the invocation.
pub fn resolve(wager: Wager, player_balance: u64, reserve_balance: u64, coin: bool) -> (r: Result<
    Transfer,
    WagerError,
>)
    requires
        wager.wf(),
    ensures
        r == resolve_spec(wager, player_balance, reserve_balance, coin),
{
    if player_balance < wager.stake {
        return Err(WagerError::InsufficientFunds);
    }
    let drawn: u8 = if coin {
        1
    } else {
        0
    };
    if drawn == wager.choice {
        match wager.stake.checked_mul(2) {
            None => Err(WagerError::ArithmeticOverflow),
            Some(winnings) => {
                if reserve_balance < winnings {
                    Err(WagerError::InsufficientFunds)
                } else {
                    Ok(Transfer::ReserveToPlayer { amount: winnings })
                }
            },
        }
    } else {
        Ok(Transfer::PlayerToReserve { amount: wager.stake })
    }
}

} // verus!
