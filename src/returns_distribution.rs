//! Returns pool: deposits accumulate, and a holder's entitlement is checked
//! against what has been deposited.
use vstd::prelude::*;
use crate::address::Address;
use crate::error::ErrorKind;

verus! {

#[derive(Clone, Copy, Debug, PartialEq, Eq, Structural)]
pub enum PoolError {
    /// The entitlement exceeds what the pool has received.
    InsufficientFunds,
    /// The deposit would take the total past `u64::MAX`.
    Overflow,
}

impl PoolError {
    /// The class this refusal belongs to.
    pub open spec fn spec_kind(self) -> ErrorKind {
        match self {
            PoolError::InsufficientFunds => ErrorKind::Capacity,
            PoolError::Overflow => ErrorKind::Arithmetic,
        }
    }

    /// The class this refusal belongs to.
    pub fn kind(&self) -> (r: ErrorKind)
        ensures
            r == self.spec_kind(),
    {
        match self {
            PoolError::InsufficientFunds => ErrorKind::Capacity,
            PoolError::Overflow => ErrorKind::Arithmetic,
        }
    }
}

/// A pool of deposited returns paying `apy` percent per unit held.
#[derive(Clone, Copy, Debug)]
pub struct Pool {
    pub authority: Address,
    pub apy: u16,
    pub total: u64,
}

/// The returns owed on `tokens` units at `apy` percent.
pub open spec fn entitlement_of(tokens: u16, apy: u16) -> int {
    tokens * apy / 100
}

/// Opens an empty pool.
pub fn init_pool(authority: &Address, apy: u16) -> (r: Pool)
    ensures
        r.authority == *authority,
        r.apy == apy,
        r.total == 0,
{
    Pool { authority: *authority, apy, total: 0 }
}

/// Adds `amt` to the pool's total.
pub fn deposit(pool: &mut Pool, amt: u64) -> (r: Result<(), PoolError>)
    ensures
        old(pool).total + amt <= u64::MAX ==> r is Ok && *final(pool) == (Pool { total: (old(pool).total + amt) as u64, ..*old(pool) }),
        old(pool).total + amt > u64::MAX ==> r == Err::<(), PoolError>(PoolError::Overflow) && *final(pool) == *old(pool),
{
    if pool.total > u64::MAX - amt {
        return Err(PoolError::Overflow);
    }
    pool.total = pool.total + amt;
    Ok(())
}

/// Checks the entitlement of a holder of `tokens` units and returns it; the
/// pool itself is not changed.
pub fn claim(pool: &Pool, tokens: u16) -> (r: Result<u64, PoolError>)
    ensures
        entitlement_of(tokens, pool.apy) <= pool.total ==> r == Ok::<u64, PoolError>(entitlement_of(tokens, pool.apy) as u64),
        entitlement_of(tokens, pool.apy) > pool.total ==> r == Err::<u64, PoolError>(PoolError::InsufficientFunds),
{
    proof {
        let a = tokens as int;
        let b = pool.apy as int;
        assert(0 <= a * b <= 0xffff * 0xffff) by (nonlinear_arith)
            requires 0 <= a <= 0xffff, 0 <= b <= 0xffff;
    }
    let owed: u64 = (tokens as u64) * (pool.apy as u64) / 100;
    if owed > pool.total {
        return Err(PoolError::InsufficientFunds);
    }
    Ok(owed)
}

} // verus!
