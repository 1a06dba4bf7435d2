use opti_freight::address::Address;
use opti_freight::config::MarketConfig;
use opti_freight::error::ErrorKind;
use opti_freight::ledger::{CashAccount, Ledger, LedgerError, Slot};
use opti_freight::secondary_market::{list, settle, ErrorCode, Listing, Settlement};

fn key(b: u8) -> Address {
    Address::new([b; 32])
}

const SELLER: u8 = 1;
const BUYER: u8 = 2;
const PLATFORM: u8 = 3;
const LISTING: u8 = 4;
const MINT: u8 = 9;

// cash: 0 buyer, 1 seller, 2 platform
// slots: 0 seller's unit, 1 escrow, 2 buyer's slot
fn market(buyer_cash: u64) -> Ledger {
    Ledger::new(
        vec![
            CashAccount { owner: key(BUYER), balance: buyer_cash },
            CashAccount { owner: key(SELLER), balance: 0 },
            CashAccount { owner: key(PLATFORM), balance: 0 },
        ],
        vec![
            Slot { owner: key(SELLER), mint: key(MINT), amount: 1 },
            Slot { owner: key(LISTING), mint: key(MINT), amount: 0 },
            Slot { owner: key(BUYER), mint: key(MINT), amount: 0 },
        ],
    )
}

fn units(l: &Ledger) -> Vec<u64> {
    l.slots.iter().map(|s| s.amount).collect()
}

fn cash(l: &Ledger) -> Vec<u64> {
    l.cash.iter().map(|c| c.balance).collect()
}

const FIVE_YEARS: i64 = 5 * 31_536_000;

fn listed(l: &mut Ledger, price: u64) -> Listing {
    let cfg = MarketConfig::standard();
    list(&cfg, l, &key(SELLER), &key(MINT), 0, 1, &key(LISTING), price, 0, 10).unwrap()
}

#[test]
fn settlement_without_penalty() {
    let cfg = MarketConfig::standard();
    let s = settle(&cfg, 149_500_000, 0, FIVE_YEARS).unwrap();
    assert_eq!(
        s,
        Settlement { penalty: 0, price_after_penalty: 149_500_000, marketplace_fee: 4_485_000, seller_proceeds: 145_015_000 }
    );
}

#[test]
fn settlement_with_penalty() {
    let cfg = MarketConfig::standard();
    let s = settle(&cfg, 149_500_000, 0, FIVE_YEARS - 1).unwrap();
    assert_eq!(
        s,
        Settlement { penalty: 25_000_000, price_after_penalty: 124_500_000, marketplace_fee: 3_735_000, seller_proceeds: 120_765_000 }
    );
}

#[test]
fn settlement_underflow_is_arithmetic_error() {
    let cfg = MarketConfig::new(0, 300, 25_000_000, FIVE_YEARS, 20, 1000, 120_000_000, 300, 145_000_000).unwrap();
    assert_eq!(settle(&cfg, 24_999_999, 0, 0), Err(ErrorCode::ArithmeticError));
}

#[test]
fn settlement_fee_overflow_is_arithmetic_error() {
    let cfg = MarketConfig::standard();
    assert_eq!(settle(&cfg, u64::MAX, 0, FIVE_YEARS), Err(ErrorCode::ArithmeticError));
}

#[test]
fn list_below_floor_fails_and_moves_nothing() {
    let cfg = MarketConfig::standard();
    let mut l = market(1_000_000_000);
    let r = list(&cfg, &mut l, &key(SELLER), &key(MINT), 0, 1, &key(LISTING), 149_499_999, 0, 10);
    assert_eq!(r.err(), Some(ErrorCode::PriceTooLow));
    assert_eq!(units(&l), vec![1, 0, 0]);
}

#[test]
fn list_moves_unit_into_escrow() {
    let mut l = market(0);
    let listing = listed(&mut l, 150_000_000);
    assert!(listing.active);
    assert_eq!(listing.price, 150_000_000);
    assert_eq!(listing.listed_at, 10);
    assert_eq!(units(&l), vec![0, 1, 0]);
}

#[test]
fn list_by_stranger_is_invalid_owner() {
    let cfg = MarketConfig::standard();
    let mut l = market(0);
    let r = list(&cfg, &mut l, &key(BUYER), &key(MINT), 0, 1, &key(LISTING), 150_000_000, 0, 10);
    assert_eq!(r.err(), Some(ErrorCode::InvalidOwner));
    assert_eq!(units(&l), vec![1, 0, 0]);
}

#[test]
fn list_without_unit_is_not_owned() {
    let cfg = MarketConfig::standard();
    let mut l = market(0);
    let r = list(&cfg, &mut l, &key(SELLER), &key(MINT), 2, 1, &key(LISTING), 150_000_000, 0, 10);
    assert_eq!(r.err(), Some(ErrorCode::NFTNotOwned));
}

#[test]
fn list_into_foreign_escrow_is_refused() {
    let cfg = MarketConfig::standard();
    let mut l = market(0);
    let r = list(&cfg, &mut l, &key(SELLER), &key(MINT), 0, 2, &key(LISTING), 150_000_000, 0, 10);
    assert_eq!(r.err(), Some(ErrorCode::InvalidEscrow));
    assert_eq!(units(&l), vec![1, 0, 0]);
}

#[test]
fn buy_settles_all_three_legs() {
    let cfg = MarketConfig::standard();
    let mut l = market(200_000_000);
    let mut listing = listed(&mut l, 149_500_000);
    let s = listing.buy(&cfg, &mut l, &key(BUYER), 0, 1, 2, 2, FIVE_YEARS + 10).unwrap();
    assert_eq!(s.seller_proceeds, 145_015_000);
    assert_eq!(cash(&l), vec![200_000_000 - 145_015_000 - 4_485_000, 145_015_000, 4_485_000]);
    assert_eq!(units(&l), vec![0, 0, 1]);
    assert!(!listing.active);
}

#[test]
fn buy_early_applies_penalty() {
    let cfg = MarketConfig::standard();
    let mut l = market(200_000_000);
    let mut listing = listed(&mut l, 149_500_000);
    listing.buy(&cfg, &mut l, &key(BUYER), 0, 1, 2, 2, 100).unwrap();
    assert_eq!(cash(&l), vec![200_000_000 - 120_765_000 - 3_735_000, 120_765_000, 3_735_000]);
}

#[test]
fn buy_short_of_fee_rolls_back() {
    let cfg = MarketConfig::standard();
    // enough for the seller's leg, not for the fee
    let mut l = market(145_015_000 + 1);
    let mut listing = listed(&mut l, 149_500_000);
    let r = listing.buy(&cfg, &mut l, &key(BUYER), 0, 1, 2, 2, FIVE_YEARS + 10);
    assert_eq!(r, Err(ErrorCode::Transfer(LedgerError::InsufficientFunds)));
    assert_eq!(cash(&l), vec![145_015_001, 0, 0]);
    assert_eq!(units(&l), vec![0, 1, 0]);
    assert!(listing.active);
}

#[test]
fn buy_paying_wrong_seller_is_refused() {
    let cfg = MarketConfig::standard();
    let mut l = market(200_000_000);
    let mut listing = listed(&mut l, 149_500_000);
    let r = listing.buy(&cfg, &mut l, &key(BUYER), 0, 2, 2, 2, FIVE_YEARS + 10);
    assert_eq!(r, Err(ErrorCode::InvalidOwner));
    assert_eq!(cash(&l), vec![200_000_000, 0, 0]);
}

#[test]
fn cancel_returns_unit_to_seller() {
    let mut l = market(0);
    let mut listing = listed(&mut l, 150_000_000);
    listing.cancel(&mut l, &key(SELLER), 0).unwrap();
    assert_eq!(units(&l), vec![1, 0, 0]);
    assert!(!listing.active);
}

#[test]
fn cancel_by_other_party_is_unauthorized() {
    let mut l = market(0);
    let mut listing = listed(&mut l, 150_000_000);
    assert_eq!(listing.cancel(&mut l, &key(BUYER), 2), Err(ErrorCode::Unauthorized));
    assert_eq!(units(&l), vec![0, 1, 0]);
    assert!(listing.active);
}

#[test]
fn cancel_after_buy_is_not_active() {
    let cfg = MarketConfig::standard();
    let mut l = market(200_000_000);
    let mut listing = listed(&mut l, 149_500_000);
    listing.buy(&cfg, &mut l, &key(BUYER), 0, 1, 2, 2, FIVE_YEARS + 10).unwrap();
    assert_eq!(listing.cancel(&mut l, &key(SELLER), 0), Err(ErrorCode::NotActive));
    assert_eq!(units(&l), vec![0, 0, 1]);
}

#[test]
fn buy_after_cancel_is_not_active() {
    let cfg = MarketConfig::standard();
    let mut l = market(200_000_000);
    let mut listing = listed(&mut l, 149_500_000);
    listing.cancel(&mut l, &key(SELLER), 0).unwrap();
    let r = listing.buy(&cfg, &mut l, &key(BUYER), 0, 1, 2, 2, FIVE_YEARS + 10);
    assert_eq!(r, Err(ErrorCode::NotActive));
    assert_eq!(cash(&l), vec![200_000_000, 0, 0]);
}

#[test]
fn escrow_count_is_conserved() {
    let cfg = MarketConfig::standard();
    let mut l = market(200_000_000);
    assert_eq!(units(&l).iter().sum::<u64>(), 1);
    let mut listing = listed(&mut l, 149_500_000);
    assert_eq!(units(&l), vec![0, 1, 0]);
    listing.buy(&cfg, &mut l, &key(BUYER), 0, 1, 2, 2, FIVE_YEARS + 10).unwrap();
    assert_eq!(units(&l), vec![0, 0, 1]);
}

#[test]
fn error_classes() {
    assert_eq!(ErrorCode::NotActive.kind(), ErrorKind::State);
    assert_eq!(ErrorCode::PriceTooLow.kind(), ErrorKind::Validation);
    assert_eq!(ErrorCode::ArithmeticError.kind(), ErrorKind::Arithmetic);
    assert_eq!(ErrorCode::Unauthorized.kind(), ErrorKind::Authorization);
    assert_eq!(ErrorCode::Transfer(LedgerError::Overflow).kind(), ErrorKind::Transfer);
}
