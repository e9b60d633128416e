use coin_flip::account::Account;
use coin_flip::account::Address;
use coin_flip::error::WagerError;
use coin_flip::payload::parse_payload;
use coin_flip::payload::Wager;
use coin_flip::process::process_instruction;
use coin_flip::wager::resolve;
use coin_flip::wager::Transfer;

fn addr(tag: u8) -> Address {
    Address { bytes: vec![tag; 32] }
}

fn payload(stake: u64, choice: u8) -> Vec<u8> {
    let mut data = stake.to_le_bytes().to_vec();
    data.push(choice);
    data
}

#[test]
fn parse_valid_payload() {
    let r = parse_payload(&payload(1_000_000_000, 1));
    assert_eq!(r, Ok(Wager { stake: 1_000_000_000, choice: 1 }));
}

#[test]
fn parse_reads_little_endian() {
    let mut data = vec![0x01, 0x02, 0x03, 0x04, 0x05, 0x06, 0x07, 0x08];
    data.push(0);
    let r = parse_payload(&data);
    assert_eq!(r, Ok(Wager { stake: 0x0807_0605_0403_0201, choice: 0 }));
}

#[test]
fn parse_short_payload_rejected() {
    assert_eq!(parse_payload(&vec![]), Err(WagerError::MalformedInstruction));
    assert_eq!(parse_payload(&vec![1, 2, 3]), Err(WagerError::MalformedInstruction));
    assert_eq!(
        parse_payload(&7u64.to_le_bytes().to_vec()),
        Err(WagerError::MalformedInstruction)
    );
}

#[test]
fn parse_long_payload_rejected() {
    let mut data = payload(5, 1);
    data.push(0);
    assert_eq!(parse_payload(&data), Err(WagerError::MalformedInstruction));
    assert_eq!(parse_payload(&vec![0; 18]), Err(WagerError::MalformedInstruction));
}

#[test]
fn parse_bad_choice_rejected() {
    assert_eq!(parse_payload(&payload(5, 2)), Err(WagerError::MalformedInstruction));
    assert_eq!(parse_payload(&payload(5, 255)), Err(WagerError::MalformedInstruction));
}

#[test]
fn win_pays_double_from_reserve() {
    let stake: u64 = 1_000_000_000;
    let r = resolve(Wager { stake, choice: 1 }, 3_000_000_000, 5_000_000_000, true);
    assert_eq!(r, Ok(Transfer::ReserveToPlayer { amount: 2_000_000_000 }));
    let (player, reserve) = r.unwrap().apply(3_000_000_000, 5_000_000_000);
    assert_eq!(player, 5_000_000_000);
    assert_eq!(reserve, 3_000_000_000);
    assert_eq!(player + reserve, 8_000_000_000);
}

#[test]
fn loss_forfeits_stake_to_reserve() {
    let stake: u64 = 1_000_000_000;
    let r = resolve(Wager { stake, choice: 1 }, 3_000_000_000, 5_000_000_000, false);
    assert_eq!(r, Ok(Transfer::PlayerToReserve { amount: 1_000_000_000 }));
    let (player, reserve) = r.unwrap().apply(3_000_000_000, 5_000_000_000);
    assert_eq!(player, 2_000_000_000);
    assert_eq!(reserve, 6_000_000_000);
    assert_eq!(player + reserve, 8_000_000_000);
}

#[test]
fn stake_above_balance_rejected() {
    let r = resolve(Wager { stake: 10, choice: 0 }, 9, 1_000, true);
    assert_eq!(r, Err(WagerError::InsufficientFunds));
}

#[test]
fn overflowing_payout_rejected() {
    let stake: u64 = u64::MAX / 2 + 1;
    let r = resolve(Wager { stake, choice: 0 }, u64::MAX, u64::MAX, false);
    assert_eq!(r, Err(WagerError::ArithmeticOverflow));
}

#[test]
fn poor_reserve_cannot_pay_win() {
    let r = resolve(Wager { stake: 10, choice: 1 }, 100, 19, true);
    assert_eq!(r, Err(WagerError::InsufficientFunds));
}

#[test]
fn largest_safe_stake_wins_whole_reserve() {
    let stake: u64 = u64::MAX / 2;
    let r = resolve(Wager { stake, choice: 0 }, stake, u64::MAX - 1, false);
    assert_eq!(r, Ok(Transfer::ReserveToPlayer { amount: u64::MAX - 1 }));
}

#[test]
fn missing_accounts_rejected() {
    let pid = addr(7);
    let accounts = vec![
        Account { owner: addr(7), balance: 100 },
        Account { owner: addr(7), balance: 100 },
    ];
    let r = process_instruction(&pid, &accounts, &payload(10, 1));
    assert_eq!(r, Err(WagerError::MissingAccount));
}

#[test]
fn foreign_owner_rejected() {
    let pid = addr(7);
    let accounts = vec![
        Account { owner: addr(7), balance: 100 },
        Account { owner: addr(9), balance: 100 },
        Account { owner: addr(1), balance: 0 },
    ];
    let r = process_instruction(&pid, &accounts, &payload(10, 1));
    assert_eq!(r, Err(WagerError::AuthorizationError));
}

#[test]
fn short_payload_rejected_end_to_end() {
    let pid = addr(7);
    let accounts = vec![
        Account { owner: addr(7), balance: 100 },
        Account { owner: addr(7), balance: 100 },
        Account { owner: addr(1), balance: 0 },
    ];
    let r = process_instruction(&pid, &accounts, &vec![1, 2, 3, 4, 5]);
    assert_eq!(r, Err(WagerError::MalformedInstruction));
}

#[test]
fn long_payload_rejected_end_to_end() {
    let pid = addr(7);
    let accounts = vec![
        Account { owner: addr(7), balance: 100 },
        Account { owner: addr(7), balance: 100 },
        Account { owner: addr(1), balance: 0 },
    ];
    let mut data = payload(10, 1);
    data.push(0);
    let r = process_instruction(&pid, &accounts, &data);
    assert_eq!(r, Err(WagerError::MalformedInstruction));
}

#[test]
fn stake_above_balance_rejected_end_to_end() {
    let pid = addr(7);
    let accounts = vec![
        Account { owner: addr(7), balance: 9 },
        Account { owner: addr(7), balance: 100 },
        Account { owner: addr(1), balance: 0 },
    ];
    let r = process_instruction(&pid, &accounts, &payload(10, 1));
    assert_eq!(r, Err(WagerError::InsufficientFunds));
}

#[test]
fn full_round_decides_one_of_two_transfers() {
    let pid = addr(7);
    let accounts = vec![
        Account { owner: addr(7), balance: 3_000_000_000 },
        Account { owner: addr(7), balance: 5_000_000_000 },
        Account { owner: addr(1), balance: 0 },
    ];
    let r = process_instruction(&pid, &accounts, &payload(1_000_000_000, 1));
    assert!(
        r == Ok(Transfer::ReserveToPlayer { amount: 2_000_000_000 })
            || r == Ok(Transfer::PlayerToReserve { amount: 1_000_000_000 })
    );
}

#[test]
fn address_equality_is_by_bytes() {
    assert!(addr(7).equals(&addr(7)));
    assert!(!addr(7).equals(&addr(9)));
    assert!(!addr(7).equals(&Address { bytes: vec![7; 31] }));
}
