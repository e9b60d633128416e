//! A one-shot coin-flip wager processor.
//!
//! A player stakes an amount of native currency and predicts a binary
//! outcome. The processor validates the participating accounts and the
//! instruction payload, checks the player's balance, draws one random bit,
//! and decides the single balance transfer that settles the wager: double
//! the stake from the reserve to the player on a win, or the stake from the
//! player to the reserve on a loss. The transfer itself is carried out by
//! the hosting runtime; the processor only decides it.

pub mod account;
mod coin;
pub mod error;
pub mod payload;
pub mod process;
pub mod wager;
