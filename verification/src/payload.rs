//! Decoding the nine-byte instruction payload.
//!
//! The payload is exactly nine raw bytes: offsets 0 through 7 hold the
//! stake amount as an unsigned 64-bit little-endian integer, offset 8
//! holds the choice byte, which must be 0 or 1. Any other length, and any
//! other choice value, is rejected as a malformed instruction.

use vstd::prelude::*;
use crate::error::WagerError;

verus! {

/// The value of the first eight bytes of `b` read as an unsigned
/// little-endian integer.
pub open spec fn le64(b: Seq<u8>) -> int
    recommends
        b.len() >= 8,
{
    b[0] + b[1] * 0x100 + b[2] * 0x1_0000 + b[3] * 0x100_0000 + b[4] * 0x1_0000_0000 + b[5]
        * 0x100_0000_0000 + b[6] * 0x1_0000_0000_0000 + b[7] * 0x100_0000_0000_0000
}

/// One parsed wager: the amount staked and the player's prediction.
#[derive(Clone, Copy, Debug, PartialEq, Eq, Structural)]
pub struct Wager {
    /// The amount the player puts at risk in this invocation.
    pub stake: u64,
    /// The player's binary prediction.
    pub choice: u8,
}

impl Wager {
    /// A wager is well formed when the choice is one of the two outcomes.
    pub open spec fn wf(self) -> bool {
        self.choice <= 1
    }
}

/// What decoding a payload yields: the parsed wager, or the malformed
/// instruction error on a payload of any length other than nine or an
/// out-of-range choice byte.
pub open spec fn parse_spec(data: Seq<u8>) -> Result<Wager, WagerError> {
    if data.len() != 9 {
        Err(WagerError::MalformedInstruction)
    } else if data[8] > 1 {
        Err(WagerError::MalformedInstruction)
    } else {
        Ok(Wager { stake: le64(data) as u64, choice: data[8] })
    }
}

/// Decodes an instruction payload into a wager.
pub fn parse_payload(data: &Vec<u8>) -> (r: Result<Wager, WagerError>)
    ensures
        r == parse_spec(data@),
        r is Ok <==> data@.len() == 9 && data@[8] <= 1,
        data@.len() != 9 ==> r == Err::<Wager, WagerError>(WagerError::MalformedInstruction),
        data@.len() == 9 && data@[8] > 1 ==> r == Err::<Wager, WagerError>(
            WagerError::MalformedInstruction,
        ),
        r matches Ok(w) ==> w.stake == le64(data@) && w.choice == data@[8] && w.wf(),
{
    if data.len() != 9 {
        return Err(WagerError::MalformedInstruction);
    }
    let choice: u8 = data[8];
    if choice > 1 {
        return Err(WagerError::MalformedInstruction);
    }
    let stake: u64 = (data[0] as u64) + (data[1] as u64) * 0x100 + (data[2] as u64) * 0x1_0000 + (
    data[3] as u64) * 0x100_0000 + (data[4] as u64) * 0x1_0000_0000 + (data[5] as u64)
        * 0x100_0000_0000 + (data[6] as u64) * 0x1_0000_0000_0000 + (data[7] as u64)
        * 0x100_0000_0000_0000;
    Ok(Wager { stake, choice })
}

} // verus!
