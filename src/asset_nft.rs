//! Asset registry: descriptive and financial terms of one trailer, mutable
//! only by its authority.
use vstd::prelude::*;
use crate::address::Address;
use crate::error::ErrorKind;
use crate::config::SECONDS_PER_YEAR;

verus! {

#[derive(Clone, Copy, Debug, PartialEq, Eq, Structural)]
pub enum AssetError {
    /// The caller is not the asset's authority.
    Unauthorized,
    /// A term of zero years would expire the asset as it is created.
    InvalidTerm,
    /// The expiry time would exceed the range of `i64`.
    Overflow,
}

impl AssetError {
    /// The class this refusal belongs to.
    pub open spec fn spec_kind(self) -> ErrorKind {
        match self {
            AssetError::Unauthorized => ErrorKind::Authorization,
            AssetError::InvalidTerm => ErrorKind::Validation,
            AssetError::Overflow => ErrorKind::Arithmetic,
        }
    }

    /// The class this refusal belongs to.
    pub fn kind(&self) -> (r: ErrorKind)
        ensures
            r == self.spec_kind(),
    {
        match self {
            AssetError::Unauthorized => ErrorKind::Authorization,
            AssetError::InvalidTerm => ErrorKind::Validation,
            AssetError::Overflow => ErrorKind::Arithmetic,
        }
    }
}

/// One trailer's record.
#[derive(Debug)]
pub struct TrailerAsset {
    pub authority: Address,
    pub mint: Address,
    pub name: String,
    pub symbol: String,
    pub uri: String,
    pub series: String,
    pub total_value: u64,
    pub token_price: u64,
    pub total_tokens: u16,
    pub tokens_sold: u16,
    pub apy: u16,
    pub term_years: u8,
    pub is_locked: bool,
    pub created_at: i64,
    pub expiry_at: i64,
}

impl TrailerAsset {
    /// Never more sold than issued, and expiry strictly after creation.
    pub open spec fn wf(self) -> bool {
        &&& self.tokens_sold <= self.total_tokens
        &&& self.expiry_at > self.created_at
    }
}

/// `created_at + term_years` years, in seconds.
pub open spec fn expiry_of(created_at: i64, term_years: u8) -> int {
    created_at + term_years * SECONDS_PER_YEAR
}

/// Registers a trailer created at `now`, with nothing sold and unlocked.
pub fn create_trailer_nft(
    authority: &Address,
    mint: &Address,
    name: String,
    symbol: String,
    uri: String,
    series: String,
    total_value: u64,
    token_price: u64,
    total_tokens: u16,
    apy: u16,
    term_years: u8,
    now: i64,
) -> (r: Result<TrailerAsset, AssetError>)
    ensures
        term_years == 0 ==> r == Err::<TrailerAsset, AssetError>(AssetError::InvalidTerm),
        term_years > 0 && expiry_of(now, term_years) > i64::MAX
            ==> r == Err::<TrailerAsset, AssetError>(AssetError::Overflow),
        term_years > 0 && expiry_of(now, term_years) <= i64::MAX ==> r is Ok,
        r matches Ok(a) ==> {
            &&& a.wf()
            &&& a.authority == *authority
            &&& a.mint == *mint
            &&& a.name@ == name@
            &&& a.symbol@ == symbol@
            &&& a.uri@ == uri@
            &&& a.series@ == series@
            &&& a.total_value == total_value
            &&& a.token_price == token_price
            &&& a.total_tokens == total_tokens
            &&& a.tokens_sold == 0
            &&& a.apy == apy
            &&& a.term_years == term_years
            &&& !a.is_locked
            &&& a.created_at == now
            &&& a.expiry_at == expiry_of(now, term_years)
        },
{
    if term_years == 0 {
        return Err(AssetError::InvalidTerm);
    }
    let span: i64 = term_years as i64 * SECONDS_PER_YEAR;
    let expiry_at = match now.checked_add(span) {
        Some(v) => v,
        None => return Err(AssetError::Overflow),
    };
    Ok(TrailerAsset {
        authority: *authority,
        mint: *mint,
        name,
        symbol,
        uri,
        series,
        total_value,
        token_price,
        total_tokens,
        tokens_sold: 0,
        apy,
        term_years,
        is_locked: false,
        created_at: now,
        expiry_at,
    })
}

/// Replaces the content URI; only the authority may.
pub fn update_metadata(asset: &mut TrailerAsset, caller: &Address, new_uri: String) -> (r: Result<(), AssetError>)
    ensures
        caller@ != old(asset).authority@ ==> r == Err::<(), AssetError>(AssetError::Unauthorized)
            && *final(asset) == *old(asset),
        caller@ == old(asset).authority@ ==> r is Ok && *final(asset) == (TrailerAsset { uri: new_uri, ..*old(asset) }),
{
    if !caller.same(&asset.authority) {
        return Err(AssetError::Unauthorized);
    }
    asset.uri = new_uri;
    Ok(())
}

/// Sets the lock flag; only the authority may.
pub fn set_lock_status(asset: &mut TrailerAsset, caller: &Address, is_locked: bool) -> (r: Result<(), AssetError>)
    ensures
        caller@ != old(asset).authority@ ==> r == Err::<(), AssetError>(AssetError::Unauthorized)
            && *final(asset) == *old(asset),
        caller@ == old(asset).authority@ ==> r is Ok && *final(asset) == (TrailerAsset { is_locked, ..*old(asset) }),
{
    if !caller.same(&asset.authority) {
        return Err(AssetError::Unauthorized);
    }
    asset.is_locked = is_locked;
    Ok(())
}

} // verus!
