//! Escrow-backed resale market: a listing custodies one unit until it is
//! bought or cancelled, and a purchase settles in one all-or-nothing step.
use vstd::prelude::*;
use crate::address::Address;
use crate::error::ErrorKind;
use crate::config::{MarketConfig, BPS_DENOMINATOR};
use crate::ledger::{
    cash_transfer_error, unit_transfer_error, units_conserved, Ledger, LedgerError, LedgerView,
};

verus! {

#[derive(Clone, Copy, Debug, PartialEq, Eq, Structural)]
pub enum ErrorCode {
    /// The listing has already been bought or cancelled.
    NotActive,
    /// The asking price is below the protocol floor.
    PriceTooLow,
    /// The custody slot does not hold exactly the one unit expected.
    NFTNotOwned,
    /// An account does not belong to the party it stands for.
    InvalidOwner,
    /// The fee or penalty computation left the range of `u64`.
    ArithmeticError,
    /// The caller is not the seller.
    Unauthorized,
    /// The escrow slot is not an empty slot of this listing for this instrument.
    InvalidEscrow,
    /// A primitive transfer was refused; nothing was moved.
    Transfer(LedgerError),
}

impl ErrorCode {
    /// The class this refusal belongs to.
    pub open spec fn spec_kind(self) -> ErrorKind {
        match self {
            ErrorCode::NotActive => ErrorKind::State,
            ErrorCode::PriceTooLow => ErrorKind::Validation,
            ErrorCode::NFTNotOwned => ErrorKind::Validation,
            ErrorCode::InvalidOwner => ErrorKind::Validation,
            ErrorCode::ArithmeticError => ErrorKind::Arithmetic,
            ErrorCode::Unauthorized => ErrorKind::Authorization,
            ErrorCode::InvalidEscrow => ErrorKind::Validation,
            ErrorCode::Transfer(_) => ErrorKind::Transfer,
        }
    }

    /// The class this refusal belongs to.
    pub fn kind(&self) -> (r: ErrorKind)
        ensures
            r == self.spec_kind(),
    {
        match self {
            ErrorCode::NotActive => ErrorKind::State,
            ErrorCode::PriceTooLow => ErrorKind::Validation,
            ErrorCode::NFTNotOwned => ErrorKind::Validation,
            ErrorCode::InvalidOwner => ErrorKind::Validation,
            ErrorCode::ArithmeticError => ErrorKind::Arithmetic,
            ErrorCode::Unauthorized => ErrorKind::Authorization,
            ErrorCode::InvalidEscrow => ErrorKind::Validation,
            ErrorCode::Transfer(_) => ErrorKind::Transfer,
        }
    }
}

/// How the price of a resale is split.
#[derive(Clone, Copy, Debug, PartialEq, Eq, Structural)]
pub struct Settlement {
    pub penalty: u64,
    pub price_after_penalty: u64,
    pub marketplace_fee: u64,
    pub seller_proceeds: u64,
}

/// A resale offer of one unit, held in escrow by the listing itself.
#[derive(Clone, Copy, Debug)]
pub struct Listing {
    pub seller: Address,
    pub nft_mint: Address,
    /// The listing's own derived key: the only authority over the escrow slot.
    pub address: Address,
    /// Index of the escrow custody slot in the ledger.
    pub escrow: usize,
    pub price: u64,
    /// When the seller acquired the unit; starts the penalty clock.
    pub purchase_date: i64,
    pub listed_at: i64,
    pub active: bool,
}

/// The penalty owed on a sale at `now` of a unit acquired at `purchase_date`.
pub open spec fn penalty_for(cfg: MarketConfig, purchase_date: i64, now: i64) -> u64 {
    if now - purchase_date < cfg.term_seconds {
        cfg.early_sale_penalty
    } else {
        0
    }
}

/// `amount * bps / 10000`, truncated.
pub open spec fn fee_of(amount: int, bps: int) -> int {
    amount * bps / (BPS_DENOMINATOR as int)
}

/// The split of `price`, or `None` where a step leaves the range of `u64`.
pub open spec fn settlement_of(cfg: MarketConfig, price: u64, purchase_date: i64, now: i64) -> Option<Settlement> {
    let penalty = penalty_for(cfg, purchase_date, now);
    if price < penalty {
        None
    } else if (price - penalty) * cfg.marketplace_fee_bps > u64::MAX {
        None
    } else {
        let after = (price - penalty) as u64;
        let fee = fee_of(after as int, cfg.marketplace_fee_bps as int) as u64;
        Some(Settlement {
            penalty,
            price_after_penalty: after,
            marketplace_fee: fee,
            seller_proceeds: (after - fee) as u64,
        })
    }
}

/// Computes the penalty, the marketplace fee and the seller's proceeds of a
/// resale, with every step checked.
pub fn settle(cfg: &MarketConfig, price: u64, purchase_date: i64, now: i64) -> (r: Result<Settlement, ErrorCode>)
    requires
        cfg.wf(),
    ensures
        settlement_of(*cfg, price, purchase_date, now) matches Some(s) ==> r == Ok::<Settlement, ErrorCode>(s),
        settlement_of(*cfg, price, purchase_date, now) is None ==> r == Err::<Settlement, ErrorCode>(ErrorCode::ArithmeticError),
{
    let time_held: i128 = now as i128 - purchase_date as i128;
    let penalty: u64 = if time_held < cfg.term_seconds as i128 {
        cfg.early_sale_penalty
    } else {
        0
    };
    let after = match price.checked_sub(penalty) {
        Some(v) => v,
        None => return Err(ErrorCode::ArithmeticError),
    };
    let scaled = match after.checked_mul(cfg.marketplace_fee_bps) {
        Some(v) => v,
        None => return Err(ErrorCode::ArithmeticError),
    };
    let fee = scaled / BPS_DENOMINATOR;
    proof {
        let a = after as int;
        let b = cfg.marketplace_fee_bps as int;
        assert(a * b <= a * 10000) by (nonlinear_arith)
            requires 0 <= a, 0 <= b <= 10000;
        assert(a * b / 10000 <= a) by (nonlinear_arith)
            requires 0 <= a * b <= a * 10000, 0 <= a;
    }
    let proceeds = after - fee;
    Ok(Settlement { penalty, price_after_penalty: after, marketplace_fee: fee, seller_proceeds: proceeds })
}

/// The error `list` meets, if any, in the order it is checked.
pub open spec fn list_error(
    cfg: MarketConfig,
    l: LedgerView,
    seller: Seq<u8>,
    nft_mint: Seq<u8>,
    seller_slot: int,
    escrow_slot: int,
    listing_address: Seq<u8>,
    price: u64,
) -> Option<ErrorCode> {
    if price < cfg.minimum_price {
        Some(ErrorCode::PriceTooLow)
    } else if !l.has_slot(seller_slot) || l.slots[seller_slot].mint@ != nft_mint || l.units(seller_slot) != 1 {
        Some(ErrorCode::NFTNotOwned)
    } else if l.slots[seller_slot].owner@ != seller {
        Some(ErrorCode::InvalidOwner)
    } else if !l.has_slot(escrow_slot) || l.slots[escrow_slot].owner@ != listing_address
        || l.slots[escrow_slot].mint@ != nft_mint || l.units(escrow_slot) != 0 {
        Some(ErrorCode::InvalidEscrow)
    } else {
        None
    }
}

impl Listing {
    /// The escrow slot is this listing's slot for its instrument, holding one
    /// unit while the listing is active and none once it is settled.
    pub open spec fn custody_holds(self, l: LedgerView) -> bool {
        &&& l.has_slot(self.escrow as int)
        &&& l.slots[self.escrow as int].owner@ == self.address@
        &&& l.slots[self.escrow as int].mint@ == self.nft_mint@
        &&& l.units(self.escrow as int) == if self.active { 1int } else { 0int }
    }

    /// The checks `buy` makes before any transfer, in order.
    pub open spec fn buy_error(
        self,
        cfg: MarketConfig,
        l: LedgerView,
        buyer: Seq<u8>,
        seller_cash: int,
        buyer_slot: int,
        now: i64,
    ) -> Option<ErrorCode> {
        if !self.active {
            Some(ErrorCode::NotActive)
        } else if !l.has_slot(self.escrow as int) || l.units(self.escrow as int) != 1 {
            Some(ErrorCode::NFTNotOwned)
        } else if settlement_of(cfg, self.price, self.purchase_date, now) is None {
            Some(ErrorCode::ArithmeticError)
        } else if !l.has_cash(seller_cash) || l.cash[seller_cash].owner@ != self.seller@ {
            Some(ErrorCode::InvalidOwner)
        } else if !l.has_slot(buyer_slot) || l.slots[buyer_slot].owner@ != buyer || buyer_slot == self.escrow {
            Some(ErrorCode::InvalidOwner)
        } else {
            None
        }
    }

    /// The three legs of a resale, in order: proceeds to the seller, the fee
    /// to the platform, the unit out of escrow to the buyer. The first leg
    /// refused is reported; otherwise the ledger after all three.
    pub open spec fn settlement_legs(
        self,
        l: LedgerView,
        buyer: Seq<u8>,
        buyer_cash: int,
        seller_cash: int,
        platform_cash: int,
        buyer_slot: int,
        s: Settlement,
    ) -> Result<LedgerView, LedgerError> {
        let l1 = l.pay(buyer_cash, seller_cash, s.seller_proceeds);
        let l2 = l1.pay(buyer_cash, platform_cash, s.marketplace_fee);
        if let Some(e) = cash_transfer_error(l.cash, buyer_cash, seller_cash, buyer, s.seller_proceeds) {
            Err(e)
        } else if let Some(e) = cash_transfer_error(l1.cash, buyer_cash, platform_cash, buyer, s.marketplace_fee) {
            Err(e)
        } else if let Some(e) = unit_transfer_error(l2.slots, self.escrow as int, buyer_slot, self.address@, 1) {
            Err(e)
        } else {
            Ok(l2.hand_over(self.escrow as int, buyer_slot, 1))
        }
    }

    /// The checks `cancel` makes before the unit is returned, in order.
    pub open spec fn cancel_error(self, l: LedgerView, caller: Seq<u8>, seller_slot: int) -> Option<ErrorCode> {
        if !self.active {
            Some(ErrorCode::NotActive)
        } else if caller != self.seller@ {
            Some(ErrorCode::Unauthorized)
        } else if !l.has_slot(self.escrow as int) || l.units(self.escrow as int) != 1 {
            Some(ErrorCode::NFTNotOwned)
        } else if !l.has_slot(seller_slot) || l.slots[seller_slot].owner@ != self.seller@
            || seller_slot == self.escrow {
            Some(ErrorCode::InvalidOwner)
        } else {
            None
        }
    }
}

/// Offers the unit in `seller_slot` for `price`: moves it into the escrow
/// slot, whose owner is the listing's own key, and records an active listing.
/// On any failure no listing is made and nothing moves.
pub fn list(
    cfg: &MarketConfig,
    ledger: &mut Ledger,
    seller: &Address,
    nft_mint: &Address,
    seller_slot: usize,
    escrow_slot: usize,
    listing_address: &Address,
    price: u64,
    purchase_date: i64,
    now: i64,
) -> (r: Result<Listing, ErrorCode>)
    ensures
        list_error(*cfg, old(ledger)@, seller@, nft_mint@, seller_slot as int, escrow_slot as int, listing_address@, price)
            matches Some(e) ==> r == Err::<Listing, ErrorCode>(e) && final(ledger)@ == old(ledger)@,
        list_error(*cfg, old(ledger)@, seller@, nft_mint@, seller_slot as int, escrow_slot as int, listing_address@, price)
            is None ==> r is Ok,
        r matches Ok(listing) ==> {
            &&& listing.seller == *seller
            &&& listing.nft_mint == *nft_mint
            &&& listing.address == *listing_address
            &&& listing.escrow == escrow_slot
            &&& listing.price == price
            &&& listing.purchase_date == purchase_date
            &&& listing.listed_at == now
            &&& listing.active
            &&& final(ledger)@ == old(ledger)@.hand_over(seller_slot as int, escrow_slot as int, 1)
            &&& listing.custody_holds(final(ledger)@)
        },
{
    if price < cfg.minimum_price {
        return Err(ErrorCode::PriceTooLow);
    }
    let held = match ledger.slot(seller_slot) {
        Some(s) => s,
        None => return Err(ErrorCode::NFTNotOwned),
    };
    if !held.mint.same(nft_mint) || held.amount != 1 {
        return Err(ErrorCode::NFTNotOwned);
    }
    if !held.owner.same(seller) {
        return Err(ErrorCode::InvalidOwner);
    }
    let escrow = match ledger.slot(escrow_slot) {
        Some(s) => s,
        None => return Err(ErrorCode::InvalidEscrow),
    };
    if !escrow.owner.same(listing_address) || !escrow.mint.same(nft_mint) || escrow.amount != 0 {
        return Err(ErrorCode::InvalidEscrow);
    }
    match ledger.transfer_units(seller_slot, escrow_slot, seller, 1) {
        Ok(()) => {},
        Err(e) => return Err(ErrorCode::Transfer(e)),
    }
    Ok(Listing {
        seller: *seller,
        nft_mint: *nft_mint,
        address: *listing_address,
        escrow: escrow_slot,
        price,
        purchase_date,
        listed_at: now,
        active: true,
    })
}

impl Listing {
    /// Settles a purchase: the buyer pays the seller's proceeds and the
    /// platform's fee and receives the unit from escrow; the listing becomes
    /// inactive. Every figure is computed before anything moves, and if any
    /// leg is refused the ledger is restored and the listing stays active.
    pub fn buy(
        &mut self,
        cfg: &MarketConfig,
        ledger: &mut Ledger,
        buyer: &Address,
        buyer_cash: usize,
        seller_cash: usize,
        platform_cash: usize,
        buyer_slot: usize,
        now: i64,
    ) -> (r: Result<Settlement, ErrorCode>)
        requires
            cfg.wf(),
        ensures
            old(self).buy_error(*cfg, old(ledger)@, buyer@, seller_cash as int, buyer_slot as int, now) matches Some(e)
                ==> r == Err::<Settlement, ErrorCode>(e),
            old(self).buy_error(*cfg, old(ledger)@, buyer@, seller_cash as int, buyer_slot as int, now) is None ==> {
                let s = settlement_of(*cfg, old(self).price, old(self).purchase_date, now)->Some_0;
                match old(self).settlement_legs(old(ledger)@, buyer@, buyer_cash as int, seller_cash as int,
                    platform_cash as int, buyer_slot as int, s) {
                    Ok(l) => r == Ok::<Settlement, ErrorCode>(s) && final(ledger)@ == l,
                    Err(e) => r == Err::<Settlement, ErrorCode>(ErrorCode::Transfer(e)),
                }
            },
            r is Err ==> *final(self) == *old(self) && final(ledger)@ == old(ledger)@,
            r is Ok ==> *final(self) == (Listing { active: false, ..*old(self) }),
            r is Ok && old(self).custody_holds(old(ledger)@) ==> final(self).custody_holds(final(ledger)@),
    {
        if !self.active {
            return Err(ErrorCode::NotActive);
        }
        match ledger.slot(self.escrow) {
            Some(e) => {
                if e.amount != 1 {
                    return Err(ErrorCode::NFTNotOwned);
                }
            },
            None => return Err(ErrorCode::NFTNotOwned),
        }
        let s = settle(cfg, self.price, self.purchase_date, now)?;
        match ledger.account(seller_cash) {
            Some(a) => {
                if !a.owner.same(&self.seller) {
                    return Err(ErrorCode::InvalidOwner);
                }
            },
            None => return Err(ErrorCode::InvalidOwner),
        }
        match ledger.slot(buyer_slot) {
            Some(b) => {
                if !b.owner.same(buyer) || buyer_slot == self.escrow {
                    return Err(ErrorCode::InvalidOwner);
                }
            },
            None => return Err(ErrorCode::InvalidOwner),
        }
        let saved = ledger.snapshot();
        if let Err(e) = ledger.transfer(buyer_cash, seller_cash, buyer, s.seller_proceeds) {
            return Err(ErrorCode::Transfer(e));
        }
        if let Err(e) = ledger.transfer(buyer_cash, platform_cash, buyer, s.marketplace_fee) {
            *ledger = saved;
            return Err(ErrorCode::Transfer(e));
        }
        if let Err(e) = ledger.transfer_units(self.escrow, buyer_slot, &self.address, 1) {
            *ledger = saved;
            return Err(ErrorCode::Transfer(e));
        }
        self.active = false;
        Ok(s)
    }

    /// Withdraws an active listing: the unit goes back from escrow to the
    /// seller's slot and the listing becomes inactive. Only the seller may
    /// cancel.
    pub fn cancel(&mut self, ledger: &mut Ledger, caller: &Address, seller_slot: usize) -> (r: Result<(), ErrorCode>)
        ensures
            old(self).cancel_error(old(ledger)@, caller@, seller_slot as int) matches Some(e)
                ==> r == Err::<(), ErrorCode>(e),
            old(self).cancel_error(old(ledger)@, caller@, seller_slot as int) is None ==> {
                match unit_transfer_error(old(ledger)@.slots, old(self).escrow as int, seller_slot as int,
                    old(self).address@, 1) {
                    Some(e) => r == Err::<(), ErrorCode>(ErrorCode::Transfer(e)),
                    None => r is Ok && final(ledger)@ == old(ledger)@.hand_over(old(self).escrow as int,
                        seller_slot as int, 1),
                }
            },
            r is Err ==> *final(self) == *old(self) && final(ledger)@ == old(ledger)@,
            r is Ok ==> *final(self) == (Listing { active: false, ..*old(self) }),
            r is Ok && old(self).custody_holds(old(ledger)@) ==> final(self).custody_holds(final(ledger)@),
    {
        if !self.active {
            return Err(ErrorCode::NotActive);
        }
        if !caller.same(&self.seller) {
            return Err(ErrorCode::Unauthorized);
        }
        match ledger.slot(self.escrow) {
            Some(e) => {
                if e.amount != 1 {
                    return Err(ErrorCode::NFTNotOwned);
                }
            },
            None => return Err(ErrorCode::NFTNotOwned),
        }
        match ledger.slot(seller_slot) {
            Some(h) => {
                if !h.owner.same(&self.seller) || seller_slot == self.escrow {
                    return Err(ErrorCode::InvalidOwner);
                }
            },
            None => return Err(ErrorCode::InvalidOwner),
        }
        if let Err(e) = ledger.transfer_units(self.escrow, seller_slot, &self.address, 1) {
            return Err(ErrorCode::Transfer(e));
        }
        self.active = false;
        Ok(())
    }
}

/// Escrow conservation: moving the one unit between any two of three
/// distinct slots (seller, escrow, buyer), as `list`, `buy` and `cancel` do,
/// keeps the number of units the three hold together and leaves every other
/// slot as it was.
pub proof fn custody_conserved(l: LedgerView, seller: int, escrow: int, buyer: int, from: int, to: int)
    requires
        l.has_slot(seller),
        l.has_slot(escrow),
        l.has_slot(buyer),
        seller != escrow && escrow != buyer && seller != buyer,
        from == seller || from == escrow || from == buyer,
        to == seller || to == escrow || to == buyer,
        from != to,
        l.units(from) >= 1,
        l.units(to) + 1 <= u64::MAX,
    ensures
        l.hand_over(from, to, 1).units(seller) + l.hand_over(from, to, 1).units(escrow)
            + l.hand_over(from, to, 1).units(buyer) == l.units(seller) + l.units(escrow) + l.units(buyer),
        forall|k: int| l.has_slot(k) && k != from && k != to
            ==> #[trigger] l.hand_over(from, to, 1).units(k) == l.units(k),
{
    units_conserved(l, from, to, 1);
}

/// A successful purchase of a listing whose escrow holds its unit moves
/// exactly that unit from escrow to the buyer's slot: escrow ends empty and
/// no other slot changes.
pub proof fn purchase_empties_escrow(
    listing: Listing,
    l: LedgerView,
    buyer: Seq<u8>,
    buyer_cash: int,
    seller_cash: int,
    platform_cash: int,
    buyer_slot: int,
    s: Settlement,
)
    requires
        listing.active,
        listing.custody_holds(l),
        listing.settlement_legs(l, buyer, buyer_cash, seller_cash, platform_cash, buyer_slot, s) is Ok,
        buyer_slot != listing.escrow,
    ensures
        ({
            let l2 = listing.settlement_legs(l, buyer, buyer_cash, seller_cash, platform_cash, buyer_slot, s)->Ok_0;
            &&& l2.units(listing.escrow as int) == 0
            &&& l2.units(buyer_slot) == l.units(buyer_slot) + 1
            &&& l2.slots.len() == l.slots.len()
            &&& forall|k: int| l.has_slot(k) && k != listing.escrow && k != buyer_slot
                ==> #[trigger] l2.units(k) == l.units(k)
        }),
{
}

/// Escrow conservation through a purchase: for a listing whose escrow holds
/// its unit, a successful purchase leaves the escrow empty, the buyer's slot
/// one unit richer and the seller's slot as it was, so the units held by
/// seller, escrow and buyer together are the same before and after.
pub proof fn purchase_conserves_custody(
    listing: Listing,
    l: LedgerView,
    buyer: Seq<u8>,
    buyer_cash: int,
    seller_cash: int,
    platform_cash: int,
    seller_slot: int,
    buyer_slot: int,
    s: Settlement,
)
    requires
        listing.active,
        listing.custody_holds(l),
        listing.settlement_legs(l, buyer, buyer_cash, seller_cash, platform_cash, buyer_slot, s) is Ok,
        l.has_slot(seller_slot),
        seller_slot != listing.escrow,
        buyer_slot != listing.escrow,
        seller_slot != buyer_slot,
    ensures
        ({
            let l2 = listing.settlement_legs(l, buyer, buyer_cash, seller_cash, platform_cash, buyer_slot, s)->Ok_0;
            &&& l2.units(listing.escrow as int) == 0
            &&& l2.units(buyer_slot) == l.units(buyer_slot) + 1
            &&& l2.units(seller_slot) == l.units(seller_slot)
            &&& l2.units(seller_slot) + l2.units(listing.escrow as int) + l2.units(buyer_slot)
                == l.units(seller_slot) + l.units(listing.escrow as int) + l.units(buyer_slot)
        }),
{
    purchase_empties_escrow(listing, l, buyer, buyer_cash, seller_cash, platform_cash, buyer_slot, s);
}

/// Escrow conservation through a cancellation: for a listing whose escrow
/// holds its unit, a cancellation that passes its checks and whose custody
/// transfer is accepted returns the unit to the seller's slot, leaves the
/// escrow empty and the buyer's slot as it was, so the units held by seller,
/// escrow and buyer together are the same before and after.
pub proof fn cancellation_conserves_custody(
    listing: Listing,
    l: LedgerView,
    caller: Seq<u8>,
    seller_slot: int,
    buyer_slot: int,
)
    requires
        listing.custody_holds(l),
        listing.cancel_error(l, caller, seller_slot) is None,
        unit_transfer_error(l.slots, listing.escrow as int, seller_slot, listing.address@, 1) is None,
        l.has_slot(buyer_slot),
        buyer_slot != listing.escrow,
        buyer_slot != seller_slot,
    ensures
        ({
            let l2 = l.hand_over(listing.escrow as int, seller_slot, 1);
            &&& l2.units(listing.escrow as int) == 0
            &&& l2.units(seller_slot) == l.units(seller_slot) + 1
            &&& l2.units(buyer_slot) == l.units(buyer_slot)
            &&& l2.units(seller_slot) + l2.units(listing.escrow as int) + l2.units(buyer_slot)
                == l.units(seller_slot) + l.units(listing.escrow as int) + l.units(buyer_slot)
        }),
{
    custody_conserved(l, seller_slot, listing.escrow as int, buyer_slot, listing.escrow as int, seller_slot);
}

/// Mutual exclusivity: once a listing has been bought or cancelled, every
/// later `buy` and every later `cancel` on it fails with `NotActive`.
pub proof fn settled_listing_is_final(
    listing: Listing,
    cfg: MarketConfig,
    l: LedgerView,
    buyer: Seq<u8>,
    seller_cash: int,
    buyer_slot: int,
    now: i64,
    caller: Seq<u8>,
    seller_slot: int,
)
    requires
        !listing.active,
    ensures
        listing.buy_error(cfg, l, buyer, seller_cash, buyer_slot, now) == Some(ErrorCode::NotActive),
        listing.cancel_error(l, caller, seller_slot) == Some(ErrorCode::NotActive),
{
}

/// Minimum price enforcement: an asking price under the floor is refused
/// with `PriceTooLow` whatever else holds.
pub proof fn price_floor_enforced(
    cfg: MarketConfig,
    l: LedgerView,
    seller: Seq<u8>,
    nft_mint: Seq<u8>,
    seller_slot: int,
    escrow_slot: int,
    listing_address: Seq<u8>,
    price: u64,
)
    requires
        price < cfg.minimum_price,
    ensures
        list_error(cfg, l, seller, nft_mint, seller_slot, escrow_slot, listing_address, price)
            == Some(ErrorCode::PriceTooLow),
{
}

} // verus!
