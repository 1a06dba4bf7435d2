//! Primary offering: a fixed supply of units sold at a set price, with the
//! platform's fee split off each purchase.
use vstd::prelude::*;
use crate::address::Address;
use crate::error::ErrorKind;
use crate::config::{MarketConfig, BPS_DENOMINATOR};
use crate::ledger::{cash_transfer_error, Ledger, LedgerError, LedgerView};
use crate::secondary_market::fee_of;

verus! {

#[derive(Clone, Copy, Debug, PartialEq, Eq, Structural)]
pub enum SaleError {
    /// The sale is sold out or closed.
    NotActive,
    /// Fewer units remain than were asked for.
    NotEnough,
    /// The cost of the purchase exceeds the range of `u64`.
    Overflow,
    /// The caller is not the sale's authority.
    Unauthorized,
    /// The account named to receive the proceeds is not the authority's.
    InvalidOwner,
    /// A primitive transfer was refused; nothing was moved.
    Transfer(LedgerError),
}

impl SaleError {
    /// The class this refusal belongs to.
    pub open spec fn spec_kind(self) -> ErrorKind {
        match self {
            SaleError::NotActive => ErrorKind::State,
            SaleError::NotEnough => ErrorKind::Capacity,
            SaleError::Overflow => ErrorKind::Arithmetic,
            SaleError::Unauthorized => ErrorKind::Authorization,
            SaleError::InvalidOwner => ErrorKind::Validation,
            SaleError::Transfer(_) => ErrorKind::Transfer,
        }
    }

    /// The class this refusal belongs to.
    pub fn kind(&self) -> (r: ErrorKind)
        ensures
            r == self.spec_kind(),
    {
        match self {
            SaleError::NotActive => ErrorKind::State,
            SaleError::NotEnough => ErrorKind::Capacity,
            SaleError::Overflow => ErrorKind::Arithmetic,
            SaleError::Unauthorized => ErrorKind::Authorization,
            SaleError::InvalidOwner => ErrorKind::Validation,
            SaleError::Transfer(_) => ErrorKind::Transfer,
        }
    }
}

/// An offering of `total` units at `price` each.
#[derive(Clone, Copy, Debug)]
pub struct Sale {
    pub authority: Address,
    pub price: u64,
    pub total: u16,
    pub sold: u16,
    pub active: bool,
}

/// What a purchase cost the buyer.
#[derive(Clone, Copy, Debug, PartialEq, Eq, Structural)]
pub struct Purchase {
    pub base_cost: u64,
    pub fee: u64,
}

impl Sale {
    /// Never more sold than offered, and a sale of some units that has sold
    /// them all takes no purchase.
    pub open spec fn wf(self) -> bool {
        &&& self.sold <= self.total
        &&& self.total > 0 && self.sold == self.total ==> !self.active
    }

    /// The checks `buy` makes before any transfer, in order.
    pub open spec fn buy_error(self, l: LedgerView, seller_cash: int, amount: u16) -> Option<SaleError> {
        if !self.active {
            Some(SaleError::NotActive)
        } else if self.sold + amount > self.total {
            Some(SaleError::NotEnough)
        } else if self.price * amount > u64::MAX {
            Some(SaleError::Overflow)
        } else if !l.has_cash(seller_cash) || l.cash[seller_cash].owner@ != self.authority@ {
            Some(SaleError::InvalidOwner)
        } else {
            None
        }
    }
}

/// The cost of `amount` units at `price` and the fee on it.
pub open spec fn purchase_of(price: u64, amount: u16, fee_bps: u64) -> Purchase {
    Purchase {
        base_cost: (price * amount) as u64,
        fee: fee_of(price * amount, fee_bps as int) as u64,
    }
}

/// The two legs of a purchase, in order: the cost to the seller, the fee to
/// the platform. The first leg refused is reported; otherwise the ledger
/// after both.
pub open spec fn purchase_legs(
    l: LedgerView,
    buyer: Seq<u8>,
    buyer_cash: int,
    seller_cash: int,
    platform_cash: int,
    p: Purchase,
) -> Result<LedgerView, LedgerError> {
    let l1 = l.pay(buyer_cash, seller_cash, p.base_cost);
    if let Some(e) = cash_transfer_error(l.cash, buyer_cash, seller_cash, buyer, p.base_cost) {
        Err(e)
    } else if let Some(e) = cash_transfer_error(l1.cash, buyer_cash, platform_cash, buyer, p.fee) {
        Err(e)
    } else {
        Ok(l1.pay(buyer_cash, platform_cash, p.fee))
    }
}

/// Prices a purchase of `amount` units: the cost, widened so the product
/// cannot wrap, and the fee on it.
pub fn quote(price: u64, amount: u16, fee_bps: u64) -> (r: Result<Purchase, SaleError>)
    requires
        fee_bps <= BPS_DENOMINATOR,
    ensures
        price * amount <= u64::MAX ==> r == Ok::<Purchase, SaleError>(purchase_of(price, amount, fee_bps)),
        price * amount > u64::MAX ==> r == Err::<Purchase, SaleError>(SaleError::Overflow),
{
    proof {
        let a = price as int;
        let b = amount as int;
        assert(a * b <= 0xffff_ffff_ffff_ffff * 0xffff) by (nonlinear_arith)
            requires 0 <= a <= 0xffff_ffff_ffff_ffff, 0 <= b <= 0xffff;
    }
    let wide: u128 = price as u128 * amount as u128;
    if wide > u64::MAX as u128 {
        return Err(SaleError::Overflow);
    }
    let base_cost = wide as u64;
    proof {
        let a = base_cost as int;
        let b = fee_bps as int;
        assert(0 <= a * b <= a * 10000) by (nonlinear_arith)
            requires 0 <= a, 0 <= b <= 10000;
        assert(a * b / 10000 <= a) by (nonlinear_arith)
            requires 0 <= a * b <= a * 10000, 0 <= a;
    }
    let fee = ((base_cost as u128 * fee_bps as u128) / BPS_DENOMINATOR as u128) as u64;
    Ok(Purchase { base_cost, fee })
}

/// Opens an offering of `total` units at `price`.
pub fn init_sale(authority: &Address, price: u64, total: u16) -> (r: Sale)
    ensures
        r.wf(),
        r.authority == *authority,
        r.price == price,
        r.total == total,
        r.sold == 0,
        r.active,
{
    Sale { authority: *authority, price, total, sold: 0, active: true }
}

impl Sale {
    /// Sells `amount` units: the buyer pays the cost to the authority's
    /// account and the fee to the platform, then the units are counted as
    /// sold; the sale closes once every unit is sold. If anything is refused
    /// the sale and the ledger are left as they were.
    pub fn buy(
        &mut self,
        cfg: &MarketConfig,
        ledger: &mut Ledger,
        buyer: &Address,
        buyer_cash: usize,
        seller_cash: usize,
        platform_cash: usize,
        amount: u16,
    ) -> (r: Result<Purchase, SaleError>)
        requires
            cfg.wf(),
        ensures
            old(self).buy_error(old(ledger)@, seller_cash as int, amount) matches Some(e) ==> r == Err::<Purchase, SaleError>(e),
            old(self).buy_error(old(ledger)@, seller_cash as int, amount) is None ==> {
                let p = purchase_of(old(self).price, amount, cfg.primary_fee_bps);
                match purchase_legs(old(ledger)@, buyer@, buyer_cash as int, seller_cash as int, platform_cash as int, p) {
                    Ok(l) => r == Ok::<Purchase, SaleError>(p) && final(ledger)@ == l,
                    Err(e) => r == Err::<Purchase, SaleError>(SaleError::Transfer(e)),
                }
            },
            r is Err ==> *final(self) == *old(self) && final(ledger)@ == old(ledger)@,
            r is Ok ==> final(self).sold == old(self).sold + amount
                && final(self).active == (final(self).sold < old(self).total)
                && final(self).authority == old(self).authority
                && final(self).price == old(self).price
                && final(self).total == old(self).total,
            old(self).wf() ==> final(self).wf(),
    {
        if !self.active {
            return Err(SaleError::NotActive);
        }
        if self.sold as u32 + amount as u32 > self.total as u32 {
            return Err(SaleError::NotEnough);
        }
        let p = quote(self.price, amount, cfg.primary_fee_bps)?;
        match ledger.account(seller_cash) {
            Some(a) => {
                if !a.owner.same(&self.authority) {
                    return Err(SaleError::InvalidOwner);
                }
            },
            None => return Err(SaleError::InvalidOwner),
        }
        let saved = ledger.snapshot();
        if let Err(e) = ledger.transfer(buyer_cash, seller_cash, buyer, p.base_cost) {
            return Err(SaleError::Transfer(e));
        }
        if let Err(e) = ledger.transfer(buyer_cash, platform_cash, buyer, p.fee) {
            *ledger = saved;
            return Err(SaleError::Transfer(e));
        }
        self.sold = self.sold + amount;
        if self.sold >= self.total {
            self.active = false;
        }
        Ok(p)
    }

    /// Ends the offering; only its authority may. Closing a closed sale
    /// changes nothing.
    pub fn close(&mut self, caller: &Address) -> (r: Result<(), SaleError>)
        ensures
            caller@ != old(self).authority@ ==> r == Err::<(), SaleError>(SaleError::Unauthorized) && *final(self) == *old(self),
            caller@ == old(self).authority@ ==> r is Ok && *final(self) == (Sale { active: false, ..*old(self) }),
            old(self).wf() ==> final(self).wf(),
    {
        if !caller.same(&self.authority) {
            return Err(SaleError::Unauthorized);
        }
        self.active = false;
        Ok(())
    }
}

/// Supply invariant: from a well-formed sale, a purchase that would take the
/// sold count past the supply is refused with `NotEnough`, and any purchase
/// that succeeds keeps `sold <= total`.
pub proof fn supply_respected(sale: Sale, l: LedgerView, seller_cash: int, amount: u16)
    requires
        sale.wf(),
        sale.active,
        sale.sold + amount > sale.total,
    ensures
        sale.buy_error(l, seller_cash, amount) == Some(SaleError::NotEnough),
{
}

/// Overflow safety: on an open sale with enough supply left, a purchase whose
/// cost `price * amount` exceeds `u64::MAX` is refused with `Overflow`
/// before any transfer.
pub proof fn cost_overflow_refused(sale: Sale, l: LedgerView, seller_cash: int, amount: u16)
    requires
        sale.active,
        sale.sold + amount <= sale.total,
        sale.price * amount > u64::MAX,
    ensures
        sale.buy_error(l, seller_cash, amount) == Some(SaleError::Overflow),
{
}

} // verus!
