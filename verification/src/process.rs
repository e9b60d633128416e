//! The instruction processor: one invocation, one decided transfer.
//!
//! The processor validates the participating accounts, decodes the
//! payload, checks the player's balance, draws one random bit and resolves
//! the wager. Its result is the single transfer the host must carry out,
//! or the terminal error that aborts the invocation.

use vstd::prelude::*;
use crate::account::Account;
use crate::account::Address;
use crate::coin::flip_coin;
use crate::error::WagerError;
use crate::payload::parse_payload;
use crate::payload::parse_spec;
use crate::payload::Wager;
use crate::wager::resolve;
use crate::wager::resolve_spec;
use crate::wager::wins;
use crate::wager::Transfer;

verus! {

/// Whether the player account (first) and the reserve account (second)
/// are both owned by this program.
pub open spec fn accounts_authorized(program_id: Seq<u8>, accounts: Seq<Account>) -> bool
    recommends
        accounts.len() >= 2,
{
    accounts[0].owner@ == program_id && accounts[1].owner@ == program_id
}

/// What processing an invocation yields, given the drawn bit.
///
/// The accounts are positional: player, reserve, transfer authority. Fewer
/// than three accounts, a foreign owner on either of the first two, and a
/// malformed payload are rejected in that order; otherwise the parsed
/// wager is resolved against the two balances.
pub open spec fn process_spec(
    program_id: Seq<u8>,
    accounts: Seq<Account>,
    data: Seq<u8>,
    coin: bool,
) -> Result<Transfer, WagerError> {
    if accounts.len() < 3 {
        Err(WagerError::MissingAccount)
    } else if !accounts_authorized(program_id, accounts) {
        Err(WagerError::AuthorizationError)
    } else {
        match parse_spec(data) {
            Ok(w) => resolve_spec(w, accounts[0].balance, accounts[1].balance, coin),
            Err(e) => Err(e),
        }
    }
}

/// Processes one invocation: validates the accounts, decodes the payload,
/// checks the player's balance, and only then draws the bit and resolves. The drawn bit is the one non-deterministic input, so the
/// result is pinned down to the two outcomes of the same invocation with
/// the bit fixed either way; every path before the draw is deterministic
/// and agrees between the two.
pub fn process_instruction(
    program_id: &Address,
    accounts: &Vec<Account>,
    instruction_data: &Vec<u8>,
) -> (r: Result<Transfer, WagerError>)
    ensures
        r == process_spec(program_id@, accounts@, instruction_data@, true) || r == process_spec(
            program_id@,
            accounts@,
            instruction_data@,
            false,
        ),
        accounts@.len() < 3 ==> r == Err::<Transfer, WagerError>(WagerError::MissingAccount),
        accounts@.len() >= 3 && !accounts_authorized(program_id@, accounts@) ==> r == Err::<
            Transfer,
            WagerError,
        >(WagerError::AuthorizationError),
{
    if accounts.len() < 3 {
        return Err(WagerError::MissingAccount);
    }
    let player = &accounts[0];
    let reserve = &accounts[1];
    if !player.owner.equals(program_id) || !reserve.owner.equals(program_id) {
        return Err(WagerError::AuthorizationError);
    }
    let wager = match parse_payload(instruction_data) {
        Ok(w) => w,
        Err(e) => return Err(e),
    };
    if player.balance < wager.stake {
        return Err(WagerError::InsufficientFunds);
    }
    let coin = flip_coin();
    resolve(wager, player.balance, reserve.balance, coin)
}

/// Law: a valid invocation settles in exactly one transfer, and the
/// transfer's direction and amount follow the drawn bit — a win pays
/// twice the stake from the reserve to the player, a loss pays the stake
/// from the player to the reserve.
pub proof fn lemma_valid_wager_settles_one_transfer(
    program_id: Seq<u8>,
    accounts: Seq<Account>,
    data: Seq<u8>,
    w: Wager,
    coin: bool,
)
    requires
        accounts.len() >= 3,
        accounts_authorized(program_id, accounts),
        parse_spec(data) == Ok::<Wager, WagerError>(w),
        w.stake <= accounts[0].balance,
        wins(coin, w.choice) ==> 2 * w.stake <= u64::MAX && 2 * w.stake <= accounts[1].balance,
    ensures
        wins(coin, w.choice) ==> process_spec(program_id, accounts, data, coin) == Ok::<
            Transfer,
            WagerError,
        >(Transfer::ReserveToPlayer { amount: (2 * w.stake) as u64 }),
        !wins(coin, w.choice) ==> process_spec(program_id, accounts, data, coin) == Ok::<
            Transfer,
            WagerError,
        >(Transfer::PlayerToReserve { amount: w.stake }),
{
}

/// Law: a stake above the player's balance fails processing with the
/// insufficient-funds error, whatever the bit; an error decides no
/// transfer.
pub proof fn lemma_insufficient_stake_fails(
    program_id: Seq<u8>,
    accounts: Seq<Account>,
    data: Seq<u8>,
    w: Wager,
    coin: bool,
)
    requires
        accounts.len() >= 3,
        accounts_authorized(program_id, accounts),
        parse_spec(data) == Ok::<Wager, WagerError>(w),
        w.stake > accounts[0].balance,
    ensures
        process_spec(program_id, accounts, data, coin) == Err::<Transfer, WagerError>(
            WagerError::InsufficientFunds,
        ),
{
}

/// Law: a won wager whose doubled stake does not fit in 64 bits fails
/// processing with the arithmetic-overflow error before any transfer is
/// decided. The win hypothesis is needed: a lost wager moves the plain
/// stake and never doubles it.
pub proof fn lemma_overflowing_payout_fails(
    program_id: Seq<u8>,
    accounts: Seq<Account>,
    data: Seq<u8>,
    w: Wager,
    coin: bool,
)
    requires
        accounts.len() >= 3,
        accounts_authorized(program_id, accounts),
        parse_spec(data) == Ok::<Wager, WagerError>(w),
        w.stake <= accounts[0].balance,
        2 * w.stake > u64::MAX,
        wins(coin, w.choice),
    ensures
        process_spec(program_id, accounts, data, coin) == Err::<Transfer, WagerError>(
            WagerError::ArithmeticOverflow,
        ),
{
}

/// Law: a choice byte that names neither outcome fails processing with
/// the malformed-instruction error.
pub proof fn lemma_bad_choice_fails(
    program_id: Seq<u8>,
    accounts: Seq<Account>,
    data: Seq<u8>,
    coin: bool,
)
    requires
        accounts.len() >= 3,
        accounts_authorized(program_id, accounts),
        data.len() >= 9,
        data[8] > 1,
    ensures
        process_spec(program_id, accounts, data, coin) == Err::<Transfer, WagerError>(
            WagerError::MalformedInstruction,
        ),
{
}

/// Law: a payload of any length other than nine bytes — shorter or
/// longer — fails processing with the malformed-instruction error.
pub proof fn lemma_wrong_length_payload_fails(
    program_id: Seq<u8>,
    accounts: Seq<Account>,
    data: Seq<u8>,
    coin: bool,
)
    requires
        accounts.len() >= 3,
        accounts_authorized(program_id, accounts),
        data.len() != 9,
    ensures
        process_spec(program_id, accounts, data, coin) == Err::<Transfer, WagerError>(
            WagerError::MalformedInstruction,
        ),
{
}

/// Law: every transfer that processing decides is covered by the balance
/// of its source account — in particular the reserve is never asked to
/// pay out more than it holds.
pub proof fn lemma_transfer_covered(
    program_id: Seq<u8>,
    accounts: Seq<Account>,
    data: Seq<u8>,
    coin: bool,
)
    requires
        accounts.len() >= 3,
    ensures
        process_spec(program_id, accounts, data, coin) matches Ok(t) ==> match t {
            Transfer::ReserveToPlayer { amount } => amount <= accounts[1].balance,
            Transfer::PlayerToReserve { amount } => amount <= accounts[0].balance,
        },
{
}

/// Law: once the accounts are present and authorized and the payload
/// parses, processing is exactly the resolution of the parsed wager
/// against the player's and the reserve's balances.
pub proof fn lemma_process_is_resolution(
    program_id: Seq<u8>,
    accounts: Seq<Account>,
    data: Seq<u8>,
    coin: bool,
)
    requires
        accounts.len() >= 3,
        accounts_authorized(program_id, accounts),
        parse_spec(data) is Ok,
    ensures
        process_spec(program_id, accounts, data, coin) == resolve_spec(
            parse_spec(data)->Ok_0,
            accounts[0].balance,
            accounts[1].balance,
            coin,
        ),
{
}

} // verus!
