//! The error taxonomy of the wager processor.

use vstd::prelude::*;

verus! {

/// Why an invocation was rejected. Every error is terminal for the
/// invocation: no transfer is decided and no balance changes.
#[derive(Clone, Copy, Debug, PartialEq, Eq, Structural)]
pub enum WagerError {
    /// Fewer than three accounts were handed to the processor.
    MissingAccount,
    /// The player or the reserve account is not owned by this program.
    AuthorizationError,
    /// The payload is shorter than nine bytes, or the choice byte is
    /// neither 0 nor 1.
    MalformedInstruction,
    /// The player cannot cover the stake, or the reserve cannot cover the
    /// payout of a win.
    InsufficientFunds,
    /// Doubling the stake for the payout does not fit in 64 bits.
    ArithmeticOverflow,
    /// The host's transfer primitive failed. The processor never decides
    /// this error itself; the embedding uses it to label a transfer that
    /// the host refused after the wager was resolved.
    TransferFailure,
}

} // verus!
