use opti_freight::address::Address;
use opti_freight::config::MarketConfig;
use opti_freight::error::ErrorKind;
use opti_freight::ledger::{CashAccount, Ledger, LedgerError};
use opti_freight::primary_market::{init_sale, quote, Purchase, SaleError};

fn key(b: u8) -> Address {
    Address::new([b; 32])
}

fn accounts(buyer: u64) -> Ledger {
    Ledger::new(
        vec![
            CashAccount { owner: key(2), balance: buyer },
            CashAccount { owner: key(1), balance: 0 },
            CashAccount { owner: key(3), balance: 0 },
        ],
        vec![],
    )
}

fn cash(l: &Ledger) -> Vec<u64> {
    l.cash.iter().map(|c| c.balance).collect()
}

#[test]
fn quote_splits_fee() {
    assert_eq!(quote(120_000_000, 10, 300), Ok(Purchase { base_cost: 1_200_000_000, fee: 36_000_000 }));
}

#[test]
fn quote_truncates_fee() {
    assert_eq!(quote(333, 1, 300), Ok(Purchase { base_cost: 333, fee: 9 }));
}

#[test]
fn quote_overflow() {
    assert_eq!(quote(u64::MAX, 2, 300), Err(SaleError::Overflow));
}

#[test]
fn primary_buy_pays_seller_and_platform() {
    let cfg = MarketConfig::standard();
    let mut sale = init_sale(&key(1), 120_000_000, 100);
    let mut l = accounts(10_000_000_000);
    let p = sale.buy(&cfg, &mut l, &key(2), 0, 1, 2, 10).unwrap();
    assert_eq!(p, Purchase { base_cost: 1_200_000_000, fee: 36_000_000 });
    assert_eq!(cash(&l), vec![10_000_000_000 - 1_236_000_000, 1_200_000_000, 36_000_000]);
    assert_eq!(sale.sold, 10);
    assert!(sale.active);
}

#[test]
fn primary_buy_beyond_supply_is_not_enough() {
    let cfg = MarketConfig::standard();
    let mut sale = init_sale(&key(1), 1, 5);
    let mut l = accounts(1_000);
    sale.buy(&cfg, &mut l, &key(2), 0, 1, 2, 3).unwrap();
    assert_eq!(sale.buy(&cfg, &mut l, &key(2), 0, 1, 2, 3), Err(SaleError::NotEnough));
    assert_eq!(SaleError::NotEnough.kind(), ErrorKind::Capacity);
    assert_eq!(sale.sold, 3);
    assert!(sale.sold <= sale.total);
}

#[test]
fn primary_sale_closes_when_sold_out() {
    let cfg = MarketConfig::standard();
    let mut sale = init_sale(&key(1), 1, 5);
    let mut l = accounts(1_000);
    sale.buy(&cfg, &mut l, &key(2), 0, 1, 2, 5).unwrap();
    assert!(!sale.active);
    assert_eq!(sale.buy(&cfg, &mut l, &key(2), 0, 1, 2, 0), Err(SaleError::NotActive));
}

#[test]
fn primary_cost_overflow_moves_nothing() {
    let cfg = MarketConfig::standard();
    let mut sale = init_sale(&key(1), u64::MAX, 10);
    let mut l = accounts(u64::MAX);
    assert_eq!(sale.buy(&cfg, &mut l, &key(2), 0, 1, 2, 2), Err(SaleError::Overflow));
    assert_eq!(SaleError::Overflow.kind(), ErrorKind::Arithmetic);
    assert_eq!(cash(&l), vec![u64::MAX, 0, 0]);
    assert_eq!(sale.sold, 0);
}

#[test]
fn primary_buy_without_funds_rolls_back() {
    let cfg = MarketConfig::standard();
    let mut sale = init_sale(&key(1), 100, 10);
    let mut l = accounts(100);
    assert_eq!(
        sale.buy(&cfg, &mut l, &key(2), 0, 1, 2, 1),
        Err(SaleError::Transfer(LedgerError::InsufficientFunds))
    );
    assert_eq!(cash(&l), vec![100, 0, 0]);
    assert_eq!(sale.sold, 0);
}

#[test]
fn close_needs_authority() {
    let mut sale = init_sale(&key(1), 100, 10);
    assert_eq!(sale.close(&key(2)), Err(SaleError::Unauthorized));
    assert!(sale.active);
    assert_eq!(sale.close(&key(1)), Ok(()));
    assert!(!sale.active);
}

#[test]
fn empty_offering_starts_active_and_closes_on_first_buy() {
    let cfg = MarketConfig::standard();
    let mut sale = init_sale(&key(1), 100, 0);
    assert!(sale.active);
    let mut l = accounts(1_000);
    assert_eq!(sale.buy(&cfg, &mut l, &key(2), 0, 1, 2, 1), Err(SaleError::NotEnough));
    assert_eq!(sale.buy(&cfg, &mut l, &key(2), 0, 1, 2, 0), Ok(Purchase { base_cost: 0, fee: 0 }));
    assert!(!sale.active);
}
