//! Fee schedule and protocol constants, injected into every component.
use vstd::prelude::*;

verus! {

/// Resale floor: cost basis plus early-sale penalty, grossed up for the fee.
pub const MINIMUM_PRICE: u64 = 149_500_000;
/// Floor of a multi-unit resale listing settled directly between the parties.
pub const MIN_RESALE: u64 = 145_000_000;
/// Marketplace fee on a resale, in basis points.
pub const MARKETPLACE_FEE_BPS: u64 = 300;
/// Amount withheld from a resale made before the term has run.
pub const EARLY_SALE_PENALTY: u64 = 25_000_000;
pub const TERM_YEARS: i64 = 5;
pub const SECONDS_PER_YEAR: i64 = 31_536_000;
pub const SECONDS_PER_DAY: i64 = 86_400;
/// Length of the distribution cycle, in days.
pub const CYCLE_DAYS: i64 = 30;
/// Day of the cycle on which returns are paid out.
pub const DISTRIBUTION_DAY: i64 = 20;
/// Ownership units issued per trailer.
pub const TOKENS_PER_TRAILER: u16 = 1000;
/// Primary offering price per unit.
pub const TOKEN_PRICE: u64 = 120_000_000;
/// Platform fee on a primary purchase, in basis points.
pub const PRIMARY_FEE_BPS: u64 = 300;
/// Basis points in one whole.
pub const BPS_DENOMINATOR: u64 = 10_000;

/// The fee schedule and timing rules in force.
#[derive(Clone, Copy, Debug, PartialEq, Eq, Structural)]
pub struct MarketConfig {
    pub minimum_price: u64,
    pub marketplace_fee_bps: u64,
    pub early_sale_penalty: u64,
    /// Holding period, in seconds, after which no penalty applies.
    pub term_seconds: i64,
    pub distribution_day: i64,
    pub total_supply_units: u16,
    pub token_price: u64,
    pub primary_fee_bps: u64,
    /// Floor of a multi-unit resale listing.
    pub min_resale: u64,
}

impl MarketConfig {
    /// Fees are at most the whole, the distribution day lies in the cycle and
    /// the supply is positive.
    pub open spec fn wf(self) -> bool {
        &&& self.marketplace_fee_bps <= BPS_DENOMINATOR
        &&& self.primary_fee_bps <= BPS_DENOMINATOR
        &&& 0 <= self.distribution_day < CYCLE_DAYS
        &&& self.total_supply_units > 0
    }

    /// The production schedule.
    pub fn standard() -> (r: MarketConfig)
        ensures
            r.wf(),
            r.minimum_price == MINIMUM_PRICE,
            r.marketplace_fee_bps == MARKETPLACE_FEE_BPS,
            r.early_sale_penalty == EARLY_SALE_PENALTY,
            r.term_seconds == TERM_YEARS * SECONDS_PER_YEAR,
            r.distribution_day == DISTRIBUTION_DAY,
            r.total_supply_units == TOKENS_PER_TRAILER,
            r.token_price == TOKEN_PRICE,
            r.primary_fee_bps == PRIMARY_FEE_BPS,
            r.min_resale == MIN_RESALE,
    {
        MarketConfig {
            minimum_price: MINIMUM_PRICE,
            marketplace_fee_bps: MARKETPLACE_FEE_BPS,
            early_sale_penalty: EARLY_SALE_PENALTY,
            term_seconds: TERM_YEARS * SECONDS_PER_YEAR,
            distribution_day: DISTRIBUTION_DAY,
            total_supply_units: TOKENS_PER_TRAILER,
            token_price: TOKEN_PRICE,
            primary_fee_bps: PRIMARY_FEE_BPS,
            min_resale: MIN_RESALE,
        }
    }

    /// An alternate schedule; `None` where it is not well formed.
    pub fn new(
        minimum_price: u64,
        marketplace_fee_bps: u64,
        early_sale_penalty: u64,
        term_seconds: i64,
        distribution_day: i64,
        total_supply_units: u16,
        token_price: u64,
        primary_fee_bps: u64,
        min_resale: u64,
    ) -> (r: Option<MarketConfig>)
        ensures
            r matches Some(c) ==> c.wf() && c == (MarketConfig {
                minimum_price,
                marketplace_fee_bps,
                early_sale_penalty,
                term_seconds,
                distribution_day,
                total_supply_units,
                token_price,
                primary_fee_bps,
                min_resale,
            }),
            r is None <==> !(marketplace_fee_bps <= BPS_DENOMINATOR && primary_fee_bps <= BPS_DENOMINATOR
                && 0 <= distribution_day < CYCLE_DAYS && total_supply_units > 0),
    {
        if marketplace_fee_bps <= BPS_DENOMINATOR && primary_fee_bps <= BPS_DENOMINATOR
            && 0 <= distribution_day && distribution_day < CYCLE_DAYS && total_supply_units > 0
        {
            Some(MarketConfig {
                minimum_price,
                marketplace_fee_bps,
                early_sale_penalty,
                term_seconds,
                distribution_day,
                total_supply_units,
                token_price,
                primary_fee_bps,
                min_resale,
            })
        } else {
            None
        }
    }
}

} // verus!
