//! In-process ledger: scalar balances and custody slots, with the two
//! primitives every settlement is built from.
use vstd::prelude::*;
use crate::address::Address;

verus! {

/// Why a primitive transfer was refused.
#[derive(Clone, Copy, Debug, PartialEq, Eq, Structural)]
pub enum LedgerError {
    /// An account or slot index names nothing in the ledger.
    UnknownAccount,
    /// The source holds less than the amount to move.
    InsufficientFunds,
    /// The destination balance would exceed `u64::MAX`.
    Overflow,
    /// The authority given is not the owner of the source slot.
    WrongOwner,
    /// The two custody slots hold different instruments.
    WrongMint,
}

/// A custody slot: how many units of one instrument an owner holds.
#[derive(Clone, Copy, Debug)]
pub struct Slot {
    pub owner: Address,
    pub mint: Address,
    pub amount: u64,
}

/// A balance of value and the key that may spend it.
#[derive(Clone, Copy, Debug)]
pub struct CashAccount {
    pub owner: Address,
    pub balance: u64,
}

/// Balances of value (`cash`) and holdings of units (`slots`), each account
/// named by its index.
pub struct Ledger {
    pub cash: Vec<CashAccount>,
    pub slots: Vec<Slot>,
}

/// The ledger as plain sequences.
pub struct LedgerView {
    pub cash: Seq<CashAccount>,
    pub slots: Seq<Slot>,
}

impl View for Ledger {
    type V = LedgerView;

    open spec fn view(&self) -> LedgerView {
        LedgerView { cash: self.cash@, slots: self.slots@ }
    }
}

/// Balances after moving `amt` from `from` to `to`.
pub open spec fn cash_moved(c: Seq<CashAccount>, from: int, to: int, amt: u64) -> Seq<CashAccount> {
    if from == to {
        c
    } else {
        c.update(from, CashAccount { balance: (c[from].balance - amt) as u64, ..c[from] }).update(
            to,
            CashAccount { balance: (c[to].balance + amt) as u64, ..c[to] },
        )
    }
}

/// Slots after moving `qty` units from slot `from` to slot `to`.
pub open spec fn slots_moved(s: Seq<Slot>, from: int, to: int, qty: u64) -> Seq<Slot> {
    if from == to {
        s
    } else {
        s.update(from, Slot { amount: (s[from].amount - qty) as u64, ..s[from] }).update(
            to,
            Slot { amount: (s[to].amount + qty) as u64, ..s[to] },
        )
    }
}

/// The error a value transfer meets, if any, in the order it is checked.
pub open spec fn cash_transfer_error(
    c: Seq<CashAccount>,
    from: int,
    to: int,
    authority: Seq<u8>,
    amt: u64,
) -> Option<LedgerError> {
    if !(0 <= from < c.len() && 0 <= to < c.len()) {
        Some(LedgerError::UnknownAccount)
    } else if c[from].owner@ != authority {
        Some(LedgerError::WrongOwner)
    } else if c[from].balance < amt {
        Some(LedgerError::InsufficientFunds)
    } else if from != to && c[to].balance + amt > u64::MAX {
        Some(LedgerError::Overflow)
    } else {
        None
    }
}

/// The error a custody transfer meets, if any, in the order it is checked.
pub open spec fn unit_transfer_error(
    s: Seq<Slot>,
    from: int,
    to: int,
    authority: Seq<u8>,
    qty: u64,
) -> Option<LedgerError> {
    if !(0 <= from < s.len() && 0 <= to < s.len()) {
        Some(LedgerError::UnknownAccount)
    } else if s[from].owner@ != authority {
        Some(LedgerError::WrongOwner)
    } else if s[from].mint@ != s[to].mint@ {
        Some(LedgerError::WrongMint)
    } else if s[from].amount < qty {
        Some(LedgerError::InsufficientFunds)
    } else if from != to && s[to].amount + qty > u64::MAX {
        Some(LedgerError::Overflow)
    } else {
        None
    }
}

impl LedgerView {
    pub open spec fn has_cash(self, i: int) -> bool {
        0 <= i < self.cash.len()
    }

    pub open spec fn has_slot(self, i: int) -> bool {
        0 <= i < self.slots.len()
    }

    /// Units held in slot `i`.
    pub open spec fn units(self, i: int) -> int {
        self.slots[i].amount as int
    }

    /// The ledger after a successful value transfer.
    pub open spec fn pay(self, from: int, to: int, amt: u64) -> LedgerView {
        LedgerView { cash: cash_moved(self.cash, from, to, amt), slots: self.slots }
    }

    /// The ledger after a successful custody transfer.
    pub open spec fn hand_over(self, from: int, to: int, qty: u64) -> LedgerView {
        LedgerView { cash: self.cash, slots: slots_moved(self.slots, from, to, qty) }
    }
}

impl Ledger {
    pub fn new(cash: Vec<CashAccount>, slots: Vec<Slot>) -> (r: Ledger)
        ensures
            r@.cash == cash@,
            r@.slots == slots@,
    {
        Ledger { cash, slots }
    }

    /// A copy of the ledger, used to restore it when a settlement fails
    /// part way.
    pub fn snapshot(&self) -> (r: Ledger)
        ensures
            r@ == self@,
    {
        let mut cash: Vec<CashAccount> = Vec::new();
        let mut i: usize = 0;
        while i < self.cash.len()
            invariant
                i <= self.cash.len(),
                cash@ == self.cash@.subrange(0, i as int),
            decreases self.cash.len() - i,
        {
            cash.push(self.cash[i]);
            i = i + 1;
            assert(cash@ =~= self.cash@.subrange(0, i as int));
        }
        let mut slots: Vec<Slot> = Vec::new();
        let mut k: usize = 0;
        while k < self.slots.len()
            invariant
                k <= self.slots.len(),
                slots@ == self.slots@.subrange(0, k as int),
            decreases self.slots.len() - k,
        {
            slots.push(self.slots[k]);
            k = k + 1;
            assert(slots@ =~= self.slots@.subrange(0, k as int));
        }
        assert(cash@ =~= self.cash@);
        assert(slots@ =~= self.slots@);
        Ledger { cash, slots }
    }

    pub fn account(&self, i: usize) -> (r: Option<CashAccount>)
        ensures
            r == (if self@.has_cash(i as int) { Some(self@.cash[i as int]) } else { None }),
    {
        if i < self.cash.len() {
            Some(self.cash[i])
        } else {
            None
        }
    }

    pub fn slot(&self, i: usize) -> (r: Option<Slot>)
        ensures
            r == (if self@.has_slot(i as int) { Some(self@.slots[i as int]) } else { None }),
    {
        if i < self.slots.len() {
            Some(self.slots[i])
        } else {
            None
        }
    }

    /// Value-transfer primitive: moves `amount` from account `from` to
    /// account `to`, authorised by `authority`, which must own the source; or
    /// changes nothing and reports why it could not.
    pub fn transfer(&mut self, from: usize, to: usize, authority: &Address, amount: u64) -> (r: Result<(), LedgerError>)
        ensures
            cash_transfer_error(old(self)@.cash, from as int, to as int, authority@, amount) matches Some(e)
                ==> r == Err::<(), LedgerError>(e) && final(self)@ == old(self)@,
            cash_transfer_error(old(self)@.cash, from as int, to as int, authority@, amount) is None
                ==> r is Ok && final(self)@ == old(self)@.pay(from as int, to as int, amount),
    {
        if from >= self.cash.len() || to >= self.cash.len() {
            return Err(LedgerError::UnknownAccount);
        }
        let src = self.cash[from];
        let dst = self.cash[to];
        if !src.owner.same(authority) {
            return Err(LedgerError::WrongOwner);
        }
        if src.balance < amount {
            return Err(LedgerError::InsufficientFunds);
        }
        if from == to {
            return Ok(());
        }
        if dst.balance > u64::MAX - amount {
            return Err(LedgerError::Overflow);
        }
        self.cash.set(from, CashAccount { balance: src.balance - amount, ..src });
        self.cash.set(to, CashAccount { balance: dst.balance + amount, ..dst });
        Ok(())
    }

    /// Custody-transfer primitive: moves `quantity` units from slot `from` to
    /// slot `to`, authorised by `authority`, which must own the source slot.
    pub fn transfer_units(&mut self, from: usize, to: usize, authority: &Address, quantity: u64) -> (r: Result<(), LedgerError>)
        ensures
            unit_transfer_error(old(self)@.slots, from as int, to as int, authority@, quantity) matches Some(e)
                ==> r == Err::<(), LedgerError>(e) && final(self)@ == old(self)@,
            unit_transfer_error(old(self)@.slots, from as int, to as int, authority@, quantity) is None
                ==> r is Ok && final(self)@ == old(self)@.hand_over(from as int, to as int, quantity),
    {
        if from >= self.slots.len() || to >= self.slots.len() {
            return Err(LedgerError::UnknownAccount);
        }
        let src = self.slots[from];
        let dst = self.slots[to];
        if !src.owner.same(authority) {
            return Err(LedgerError::WrongOwner);
        }
        if !src.mint.same(&dst.mint) {
            return Err(LedgerError::WrongMint);
        }
        if src.amount < quantity {
            return Err(LedgerError::InsufficientFunds);
        }
        if from == to {
            return Ok(());
        }
        if dst.amount > u64::MAX - quantity {
            return Err(LedgerError::Overflow);
        }
        self.slots.set(from, Slot { amount: src.amount - quantity, ..src });
        self.slots.set(to, Slot { amount: dst.amount + quantity, ..dst });
        Ok(())
    }
}

/// A successful custody transfer between two distinct slots keeps the total
/// number of units held in them.
pub proof fn units_conserved(l: LedgerView, from: int, to: int, qty: u64)
    requires
        l.has_slot(from),
        l.has_slot(to),
        from != to,
        qty <= l.units(from),
        l.units(to) + qty <= u64::MAX,
    ensures
        l.hand_over(from, to, qty).units(from) + l.hand_over(from, to, qty).units(to)
            == l.units(from) + l.units(to),
        forall|k: int| l.has_slot(k) && k != from && k != to
            ==> #[trigger] l.hand_over(from, to, qty).units(k) == l.units(k),
        l.hand_over(from, to, qty).slots.len() == l.slots.len(),
{
}

} // verus!
