//! The combined program: a fixed-supply primary offering at the configured
//! price, multi-unit resale listings settled directly between buyer, seller
//! and platform, and the monthly distribution of pooled returns.
use vstd::prelude::*;
use crate::address::Address;
use crate::error::ErrorKind;
use crate::config::{MarketConfig, BPS_DENOMINATOR, CYCLE_DAYS, SECONDS_PER_DAY};
use crate::ledger::{cash_transfer_error, Ledger, LedgerError, LedgerView};
use crate::primary_market::{purchase_legs, purchase_of, Purchase, Sale, SaleError};
use crate::secondary_market::fee_of;

verus! {

#[derive(Clone, Copy, Debug, PartialEq, Eq, Structural)]
pub enum ErrorCode {
    /// The listing is sold out or withdrawn.
    NotActive,
    /// Fewer units are listed than were asked for.
    SoldOut,
    /// The asking price is below the protocol floor.
    PriceTooLow,
    /// Distribution was attempted outside its day of the cycle.
    WrongDay,
    /// A figure of the settlement left the range of `u64`.
    ArithmeticError,
    /// The caller is not the seller.
    Unauthorized,
    /// The holder has already been paid in this distribution cycle.
    AlreadyPaid,
    /// An account does not belong to the party it stands for.
    InvalidOwner,
    /// A primitive transfer was refused; nothing was moved.
    Transfer(LedgerError),
}

impl ErrorCode {
    /// The class this refusal belongs to.
    pub open spec fn spec_kind(self) -> ErrorKind {
        match self {
            ErrorCode::NotActive => ErrorKind::State,
            ErrorCode::SoldOut => ErrorKind::Capacity,
            ErrorCode::PriceTooLow => ErrorKind::Validation,
            ErrorCode::WrongDay => ErrorKind::Timing,
            ErrorCode::ArithmeticError => ErrorKind::Arithmetic,
            ErrorCode::Unauthorized => ErrorKind::Authorization,
            ErrorCode::AlreadyPaid => ErrorKind::State,
            ErrorCode::InvalidOwner => ErrorKind::Validation,
            ErrorCode::Transfer(_) => ErrorKind::Transfer,
        }
    }

    /// The class this refusal belongs to.
    pub fn kind(&self) -> (r: ErrorKind)
        ensures
            r == self.spec_kind(),
    {
        match self {
            ErrorCode::NotActive => ErrorKind::State,
            ErrorCode::SoldOut => ErrorKind::Capacity,
            ErrorCode::PriceTooLow => ErrorKind::Validation,
            ErrorCode::WrongDay => ErrorKind::Timing,
            ErrorCode::ArithmeticError => ErrorKind::Arithmetic,
            ErrorCode::Unauthorized => ErrorKind::Authorization,
            ErrorCode::AlreadyPaid => ErrorKind::State,
            ErrorCode::InvalidOwner => ErrorKind::Validation,
            ErrorCode::Transfer(_) => ErrorKind::Transfer,
        }
    }
}

/// A resale offer of `amount` units at `price` each, paid directly.
#[derive(Clone, Copy, Debug)]
pub struct Listing {
    pub seller: Address,
    pub price: u64,
    pub amount: u16,
    pub active: bool,
}

/// How a multi-unit resale is paid: the seller's part and the platform's
/// part (penalty plus fee).
#[derive(Clone, Copy, Debug, PartialEq, Eq, Structural)]
pub struct ResaleSplit {
    pub seller_amount: u64,
    pub platform_total: u64,
}

/// Opens the offering of one trailer: the configured supply at the
/// configured price.
pub fn init_sale(cfg: &MarketConfig, authority: &Address) -> (r: Sale)
    requires
        cfg.wf(),
    ensures
        r.wf(),
        r.authority == *authority,
        r.price == cfg.token_price,
        r.total == cfg.total_supply_units,
        r.sold == 0,
        r.active,
{
    crate::primary_market::init_sale(authority, cfg.token_price, cfg.total_supply_units)
}

/// Buys `amount` units of the offering, the fee going to the platform.
pub fn buy_primary(
    sale: &mut Sale,
    cfg: &MarketConfig,
    ledger: &mut Ledger,
    buyer: &Address,
    buyer_cash: usize,
    seller_cash: usize,
    platform_cash: usize,
    amount: u16,
) -> (r: Result<Purchase, SaleError>)
    requires
        cfg.wf(),
    ensures
        old(sale).buy_error(old(ledger)@, seller_cash as int, amount) matches Some(e) ==> r == Err::<Purchase, SaleError>(e),
        old(sale).buy_error(old(ledger)@, seller_cash as int, amount) is None ==> {
            let p = purchase_of(old(sale).price, amount, cfg.primary_fee_bps);
            match purchase_legs(old(ledger)@, buyer@, buyer_cash as int, seller_cash as int, platform_cash as int, p) {
                Ok(l) => r == Ok::<Purchase, SaleError>(p) && final(ledger)@ == l,
                Err(e) => r == Err::<Purchase, SaleError>(SaleError::Transfer(e)),
            }
        },
        r is Err ==> *final(sale) == *old(sale) && final(ledger)@ == old(ledger)@,
        r is Ok ==> final(sale).sold == old(sale).sold + amount
            && final(sale).active == (final(sale).sold < old(sale).total)
            && final(sale).authority == old(sale).authority
            && final(sale).price == old(sale).price
            && final(sale).total == old(sale).total,
        old(sale).wf() ==> final(sale).wf(),
{
    sale.buy(cfg, ledger, buyer, buyer_cash, seller_cash, platform_cash, amount)
}

/// Lists `amount` units for resale at `price` each.
pub fn create_listing(cfg: &MarketConfig, seller: &Address, price: u64, amount: u16) -> (r: Result<Listing, ErrorCode>)
    ensures
        price < cfg.min_resale ==> r == Err::<Listing, ErrorCode>(ErrorCode::PriceTooLow),
        price >= cfg.min_resale ==> r == Ok::<Listing, ErrorCode>(Listing { seller: *seller, price, amount, active: true }),
{
    if price < cfg.min_resale {
        return Err(ErrorCode::PriceTooLow);
    }
    Ok(Listing { seller: *seller, price, amount, active: true })
}

/// The payment split for `amount` units at `price`, or `None` where a
/// figure leaves the range of `u64`.
pub open spec fn resale_split_of(cfg: MarketConfig, price: u64, amount: u16) -> Option<ResaleSplit> {
    let subtotal = price * amount;
    let penalty_total = cfg.early_sale_penalty * amount;
    if subtotal > u64::MAX || penalty_total > u64::MAX || subtotal < penalty_total
        || subtotal * cfg.marketplace_fee_bps > u64::MAX {
        None
    } else {
        let fee = fee_of(subtotal, cfg.marketplace_fee_bps as int);
        if penalty_total + fee > u64::MAX {
            None
        } else {
            Some(ResaleSplit {
                seller_amount: (subtotal - penalty_total) as u64,
                platform_total: (penalty_total + fee) as u64,
            })
        }
    }
}

/// `x * n` computed wide; `None` where it exceeds `u64::MAX`.
fn times_units(x: u64, n: u16) -> (r: Option<u64>)
    ensures
        x * n <= u64::MAX ==> r == Some((x * n) as u64),
        x * n > u64::MAX ==> r is None,
{
    proof {
        let a = x as int;
        let b = n as int;
        assert(a * b <= 0xffff_ffff_ffff_ffff * 0xffff) by (nonlinear_arith)
            requires 0 <= a <= 0xffff_ffff_ffff_ffff, 0 <= b <= 0xffff;
    }
    let wide: u128 = x as u128 * n as u128;
    if wide > u64::MAX as u128 {
        None
    } else {
        Some(wide as u64)
    }
}

/// Computes the payment split of a multi-unit resale, every step checked.
pub fn resale_split(cfg: &MarketConfig, price: u64, amount: u16) -> (r: Result<ResaleSplit, ErrorCode>)
    requires
        cfg.wf(),
    ensures
        resale_split_of(*cfg, price, amount) matches Some(s) ==> r == Ok::<ResaleSplit, ErrorCode>(s),
        resale_split_of(*cfg, price, amount) is None ==> r == Err::<ResaleSplit, ErrorCode>(ErrorCode::ArithmeticError),
{
    let subtotal = match times_units(price, amount) {
        Some(v) => v,
        None => return Err(ErrorCode::ArithmeticError),
    };
    let penalty_total = match times_units(cfg.early_sale_penalty, amount) {
        Some(v) => v,
        None => return Err(ErrorCode::ArithmeticError),
    };
    if subtotal < penalty_total {
        return Err(ErrorCode::ArithmeticError);
    }
    let scaled = match subtotal.checked_mul(cfg.marketplace_fee_bps) {
        Some(v) => v,
        None => return Err(ErrorCode::ArithmeticError),
    };
    let fee = scaled / BPS_DENOMINATOR;
    let platform_total = match penalty_total.checked_add(fee) {
        Some(v) => v,
        None => return Err(ErrorCode::ArithmeticError),
    };
    Ok(ResaleSplit { seller_amount: subtotal - penalty_total, platform_total })
}

impl Listing {
    /// The checks `buy_secondary` makes before any transfer, in order.
    pub open spec fn buy_error(self, cfg: MarketConfig, l: LedgerView, seller_cash: int, amount: u16) -> Option<ErrorCode> {
        if !self.active {
            Some(ErrorCode::NotActive)
        } else if amount > self.amount {
            Some(ErrorCode::SoldOut)
        } else if resale_split_of(cfg, self.price, amount) is None {
            Some(ErrorCode::ArithmeticError)
        } else if !l.has_cash(seller_cash) || l.cash[seller_cash].owner@ != self.seller@ {
            Some(ErrorCode::InvalidOwner)
        } else {
            None
        }
    }
}

/// The two legs of a multi-unit resale, in order: the seller's part, then
/// the platform's. The first leg refused is reported; otherwise the ledger
/// after both.
pub open spec fn resale_legs(
    l: LedgerView,
    buyer: Seq<u8>,
    buyer_cash: int,
    seller_cash: int,
    platform_cash: int,
    s: ResaleSplit,
) -> Result<LedgerView, LedgerError> {
    let l1 = l.pay(buyer_cash, seller_cash, s.seller_amount);
    if let Some(e) = cash_transfer_error(l.cash, buyer_cash, seller_cash, buyer, s.seller_amount) {
        Err(e)
    } else if let Some(e) = cash_transfer_error(l1.cash, buyer_cash, platform_cash, buyer, s.platform_total) {
        Err(e)
    } else {
        Ok(l1.pay(buyer_cash, platform_cash, s.platform_total))
    }
}

impl Listing {
    /// Buys `amount` of the listed units: the seller's part and the
    /// platform's part are paid together or not at all, and the listing
    /// closes when no unit is left.
    pub fn buy_secondary(
        &mut self,
        cfg: &MarketConfig,
        ledger: &mut Ledger,
        buyer: &Address,
        buyer_cash: usize,
        seller_cash: usize,
        platform_cash: usize,
        amount: u16,
    ) -> (r: Result<ResaleSplit, ErrorCode>)
        requires
            cfg.wf(),
        ensures
            old(self).buy_error(*cfg, old(ledger)@, seller_cash as int, amount) matches Some(e)
                ==> r == Err::<ResaleSplit, ErrorCode>(e),
            old(self).buy_error(*cfg, old(ledger)@, seller_cash as int, amount) is None ==> {
                let s = resale_split_of(*cfg, old(self).price, amount)->Some_0;
                match resale_legs(old(ledger)@, buyer@, buyer_cash as int, seller_cash as int, platform_cash as int, s) {
                    Ok(l) => r == Ok::<ResaleSplit, ErrorCode>(s) && final(ledger)@ == l,
                    Err(e) => r == Err::<ResaleSplit, ErrorCode>(ErrorCode::Transfer(e)),
                }
            },
            r is Err ==> *final(self) == *old(self) && final(ledger)@ == old(ledger)@,
            r is Ok ==> *final(self) == (Listing {
                amount: (old(self).amount - amount) as u16,
                active: old(self).amount - amount > 0,
                ..*old(self)
            }),
    {
        if !self.active {
            return Err(ErrorCode::NotActive);
        }
        if amount > self.amount {
            return Err(ErrorCode::SoldOut);
        }
        let s = resale_split(cfg, self.price, amount)?;
        match ledger.account(seller_cash) {
            Some(a) => {
                if !a.owner.same(&self.seller) {
                    return Err(ErrorCode::InvalidOwner);
                }
            },
            None => return Err(ErrorCode::InvalidOwner),
        }
        let saved = ledger.snapshot();
        if let Err(e) = ledger.transfer(buyer_cash, seller_cash, buyer, s.seller_amount) {
            return Err(ErrorCode::Transfer(e));
        }
        if let Err(e) = ledger.transfer(buyer_cash, platform_cash, buyer, s.platform_total) {
            *ledger = saved;
            return Err(ErrorCode::Transfer(e));
        }
        self.amount = self.amount - amount;
        self.active = self.amount > 0;
        Ok(s)
    }

    /// Withdraws the listing; only its seller may.
    pub fn cancel_listing(&mut self, caller: &Address) -> (r: Result<(), ErrorCode>)
        ensures
            caller@ != old(self).seller@ ==> r == Err::<(), ErrorCode>(ErrorCode::Unauthorized) && *final(self) == *old(self),
            caller@ == old(self).seller@ ==> r is Ok && *final(self) == (Listing { active: false, ..*old(self) }),
    {
        if !caller.same(&self.seller) {
            return Err(ErrorCode::Unauthorized);
        }
        self.active = false;
        Ok(())
    }
}

/// Whether `now` falls on the distribution day of the cycle. Times before
/// the epoch lie outside every window.
pub open spec fn distribution_open(cfg: MarketConfig, now: i64) -> bool {
    now >= 0 && (now as int / SECONDS_PER_DAY as int) % (CYCLE_DAYS as int) == cfg.distribution_day as int
}

/// A holder's share of `balance` for `user_tokens` of `units` units.
pub open spec fn share_of(balance: u64, user_tokens: u16, units: u16) -> int {
    balance * user_tokens / (units as int)
}

/// The number of the distribution cycle `now` falls in.
pub open spec fn cycle_of(now: i64) -> int {
    now as int / SECONDS_PER_DAY as int / CYCLE_DAYS as int
}

/// One payout: `holder` was paid in distribution cycle `cycle`.
#[derive(Clone, Copy, Debug)]
pub struct Payout {
    pub holder: Address,
    pub cycle: u64,
}

/// The record of payouts made, which keeps a holder from being paid twice
/// in one cycle.
pub struct PayoutBook {
    pub paid: Vec<Payout>,
}

/// Whether `holder` appears in `book` as paid in `cycle`.
pub open spec fn paid_in(book: Seq<Payout>, holder: Seq<u8>, cycle: int) -> bool {
    exists|i: int| 0 <= i < book.len() && #[trigger] book[i].holder@ == holder && book[i].cycle == cycle
}

impl PayoutBook {
    pub fn new() -> (r: PayoutBook)
        ensures
            r.paid@.len() == 0,
    {
        PayoutBook { paid: Vec::new() }
    }

    /// Whether `holder` has been paid in `cycle`.
    pub fn has_paid(&self, holder: &Address, cycle: u64) -> (r: bool)
        ensures
            r == paid_in(self.paid@, holder@, cycle as int),
    {
        let mut i: usize = 0;
        while i < self.paid.len()
            invariant
                i <= self.paid.len(),
                forall|j: int| 0 <= j < i ==> !(#[trigger] self.paid@[j].holder@ == holder@ && self.paid@[j].cycle == cycle),
            decreases self.paid.len() - i,
        {
            let p = self.paid[i];
            if p.cycle == cycle && p.holder.same(holder) {
                return true;
            }
            i = i + 1;
        }
        false
    }
}

/// Whether distribution is open at `now`.
pub fn is_distribution_day(cfg: &MarketConfig, now: i64) -> (r: bool)
    ensures
        r == distribution_open(*cfg, now),
{
    if now < 0 {
        return false;
    }
    let day: u64 = (now as u64 / SECONDS_PER_DAY as u64) % CYCLE_DAYS as u64;
    day as i64 == cfg.distribution_day
}

/// The checks a distribution makes before paying, in order, and the share
/// owed where they pass.
pub open spec fn distribution_check(
    cfg: MarketConfig,
    l: LedgerView,
    book: Seq<Payout>,
    pool_cash: int,
    user: Seq<u8>,
    user_cash: int,
    user_tokens: u16,
    now: i64,
) -> Result<u64, ErrorCode> {
    if !distribution_open(cfg, now) {
        Err(ErrorCode::WrongDay)
    } else if paid_in(book, user, cycle_of(now)) {
        Err(ErrorCode::AlreadyPaid)
    } else if !l.has_cash(user_cash) || l.cash[user_cash].owner@ != user {
        Err(ErrorCode::InvalidOwner)
    } else if !l.has_cash(pool_cash) {
        Err(ErrorCode::Transfer(LedgerError::UnknownAccount))
    } else if share_of(l.cash[pool_cash].balance, user_tokens, cfg.total_supply_units) > u64::MAX {
        Err(ErrorCode::ArithmeticError)
    } else {
        Ok(share_of(l.cash[pool_cash].balance, user_tokens, cfg.total_supply_units) as u64)
    }
}

/// Pays `user`, a holder of `user_tokens` units, their share of the pool's
/// balance into their account `user_cash`, on the distribution day only and
/// at most once per cycle. Off that day it fails with `WrongDay` and moves
/// nothing, whatever the holder is owed.
pub fn distribute_monthly(
    cfg: &MarketConfig,
    ledger: &mut Ledger,
    book: &mut PayoutBook,
    pool_cash: usize,
    pool_key: &Address,
    user: &Address,
    user_cash: usize,
    user_tokens: u16,
    now: i64,
) -> (r: Result<u64, ErrorCode>)
    requires
        cfg.wf(),
    ensures
        !distribution_open(*cfg, now) ==> r == Err::<u64, ErrorCode>(ErrorCode::WrongDay),
        distribution_check(*cfg, old(ledger)@, old(book).paid@, pool_cash as int, user@, user_cash as int, user_tokens, now)
            matches Err(e) ==> r == Err::<u64, ErrorCode>(e),
        distribution_check(*cfg, old(ledger)@, old(book).paid@, pool_cash as int, user@, user_cash as int, user_tokens, now)
            matches Ok(share) ==> match cash_transfer_error(old(ledger)@.cash, pool_cash as int, user_cash as int, pool_key@, share) {
                Some(e) => r == Err::<u64, ErrorCode>(ErrorCode::Transfer(e)),
                None => r == Ok::<u64, ErrorCode>(share)
                    && final(ledger)@ == old(ledger)@.pay(pool_cash as int, user_cash as int, share)
                    && final(book).paid@ == old(book).paid@.push(Payout { holder: *user, cycle: cycle_of(now) as u64 }),
            },
        r is Err ==> final(ledger)@ == old(ledger)@ && final(book).paid@ == old(book).paid@,
{
    if !is_distribution_day(cfg, now) {
        return Err(ErrorCode::WrongDay);
    }
    let cycle: u64 = now as u64 / SECONDS_PER_DAY as u64 / CYCLE_DAYS as u64;
    if book.has_paid(user, cycle) {
        return Err(ErrorCode::AlreadyPaid);
    }
    match ledger.account(user_cash) {
        Some(a) => {
            if !a.owner.same(user) {
                return Err(ErrorCode::InvalidOwner);
            }
        },
        None => return Err(ErrorCode::InvalidOwner),
    }
    let pool = match ledger.account(pool_cash) {
        Some(a) => a,
        None => return Err(ErrorCode::Transfer(LedgerError::UnknownAccount)),
    };
    proof {
        let a = pool.balance as int;
        let b = user_tokens as int;
        assert(0 <= a * b <= 0xffff_ffff_ffff_ffff * 0xffff) by (nonlinear_arith)
            requires 0 <= a <= 0xffff_ffff_ffff_ffff, 0 <= b <= 0xffff;
    }
    let wide: u128 = pool.balance as u128 * user_tokens as u128 / cfg.total_supply_units as u128;
    if wide > u64::MAX as u128 {
        return Err(ErrorCode::ArithmeticError);
    }
    let share = wide as u64;
    if let Err(e) = ledger.transfer(pool_cash, user_cash, pool_key, share) {
        return Err(ErrorCode::Transfer(e));
    }
    book.paid.push(Payout { holder: *user, cycle });
    Ok(share)
}

/// A holder paid in a cycle is refused with `AlreadyPaid` for the rest of
/// that cycle: after a successful payout the book records the holder for the
/// cycle of `now`, and a later call at a time of the same cycle fails before
/// anything moves.
pub proof fn paid_once_per_cycle(
    cfg: MarketConfig,
    l: LedgerView,
    book: Seq<Payout>,
    pool_cash: int,
    user: Address,
    user_cash: int,
    user_tokens: u16,
    now: i64,
    later: i64,
)
    requires
        distribution_open(cfg, later),
        cycle_of(later) == cycle_of(now),
        now >= 0,
    ensures
        distribution_check(cfg, l, book.push(Payout { holder: user, cycle: cycle_of(now) as u64 }), pool_cash,
            user@, user_cash, user_tokens, later) == Err::<u64, ErrorCode>(ErrorCode::AlreadyPaid),
{
    let b2 = book.push(Payout { holder: user, cycle: cycle_of(now) as u64 });
    assert(b2[book.len() as int].holder@ == user@);
}

} // verus!
