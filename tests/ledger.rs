use opti_freight::address::Address;
use opti_freight::ledger::{CashAccount, Ledger, LedgerError, Slot};

fn key(b: u8) -> Address {
    Address::new([b; 32])
}

fn two(a: u64, b: u64) -> Ledger {
    Ledger::new(
        vec![CashAccount { owner: key(1), balance: a }, CashAccount { owner: key(2), balance: b }],
        vec![
            Slot { owner: key(1), mint: key(9), amount: 1 },
            Slot { owner: key(2), mint: key(9), amount: 0 },
            Slot { owner: key(2), mint: key(8), amount: 0 },
        ],
    )
}

#[test]
fn transfer_moves_value() {
    let mut l = two(10, 5);
    assert_eq!(l.transfer(0, 1, &key(1), 4), Ok(()));
    assert_eq!((l.cash[0].balance, l.cash[1].balance), (6, 9));
}

#[test]
fn transfer_errors_change_nothing() {
    let mut l = two(10, u64::MAX);
    assert_eq!(l.transfer(0, 5, &key(1), 1), Err(LedgerError::UnknownAccount));
    assert_eq!(l.transfer(0, 1, &key(2), 1), Err(LedgerError::WrongOwner));
    assert_eq!(l.transfer(0, 1, &key(1), 11), Err(LedgerError::InsufficientFunds));
    assert_eq!(l.transfer(0, 1, &key(1), 1), Err(LedgerError::Overflow));
    assert_eq!((l.cash[0].balance, l.cash[1].balance), (10, u64::MAX));
}

#[test]
fn unit_transfer_checks_mint_and_owner() {
    let mut l = two(0, 0);
    assert_eq!(l.transfer_units(0, 2, &key(1), 1), Err(LedgerError::WrongMint));
    assert_eq!(l.transfer_units(0, 1, &key(2), 1), Err(LedgerError::WrongOwner));
    assert_eq!(l.transfer_units(0, 1, &key(1), 2), Err(LedgerError::InsufficientFunds));
    assert_eq!(l.transfer_units(0, 1, &key(1), 1), Ok(()));
    assert_eq!((l.slots[0].amount, l.slots[1].amount), (0, 1));
}

#[test]
fn snapshot_is_independent_copy() {
    let mut l = two(10, 5);
    let s = l.snapshot();
    l.transfer(0, 1, &key(1), 10).unwrap();
    assert_eq!(s.cash[0].balance, 10);
    assert_eq!(l.cash[0].balance, 0);
}

#[test]
fn address_equality() {
    assert!(key(3).same(&key(3)));
    let mut b = [3u8; 32];
    b[31] = 4;
    assert!(!key(3).same(&Address::new(b)));
}
