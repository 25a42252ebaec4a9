//! The vault price feed: stored prices with spreads, strict stable-coin
//! pricing and temporary adjustments.

use vstd::prelude::*;
use crate::constants::{
    basis_points_divisor, basis_points_divisor_value, max_adjustment_basis_points,
    max_adjustment_basis_points_value, max_adjustment_interval, max_adjustment_interval_value,
    max_spread_basis_points, max_spread_basis_points_value, price_precision,
    price_precision_value,
};
use crate::address::Address;
use crate::errors::{OmxError, VaultPriceFeedError};
use crate::safe_math::{mul_ratio_spec, rv, safe_mul_ratio};
use crate::uint::{
    base256, u256_abs_diff, u256_checked_add, u256_checked_div, u256_checked_mul, u256_checked_sub,
    u256_eq, u256_lt, u256_max, u256_wrapping_add, u256_wrapping_sub, U256,
};
use crate::vault_utils::abs_diff;

verus! {

/// What the price feed holds of one token.
#[derive(Clone, Copy, Debug, PartialEq, Eq)]
pub struct PriceConfig {
    pub price: U256,
    pub spread_basis_points: U256,
    pub is_strict_stable: bool,
    pub adjustment_basis_points: U256,
    pub is_adjustment_additive: bool,
    pub last_adjustment_timing: U256,
}

pub struct PriceConfigV {
    pub price: nat,
    pub spread_basis_points: nat,
    pub is_strict_stable: bool,
    pub adjustment_basis_points: nat,
    pub is_adjustment_additive: bool,
    pub last_adjustment_timing: nat,
}

impl View for PriceConfig {
    type V = PriceConfigV;

    open spec fn view(&self) -> PriceConfigV {
        PriceConfigV {
            price: self.price@,
            spread_basis_points: self.spread_basis_points@,
            is_strict_stable: self.is_strict_stable,
            adjustment_basis_points: self.adjustment_basis_points@,
            is_adjustment_additive: self.is_adjustment_additive,
            last_adjustment_timing: self.last_adjustment_timing@,
        }
    }
}

fn feed_error(e: VaultPriceFeedError) -> (r: OmxError)
    ensures
        r == OmxError::PriceFeed(e),
{
    OmxError::PriceFeed(e)
}

/// The stored price, which must be set.
pub open spec fn primary_price_spec(c: PriceConfigV) -> Result<nat, OmxError> {
    if c.price == 0 {
        Err(OmxError::PriceFeed(VaultPriceFeedError::InvalidPrice))
    } else {
        Ok(c.price)
    }
}

/// The primary price of a token.
pub fn get_primary_price(c: PriceConfig) -> (r: Result<U256, OmxError>)
    ensures
        rv(r) == primary_price_spec(c@),
{
    if u256_eq(c.price, U256::zero()) {
        Err(feed_error(VaultPriceFeedError::InvalidPrice))
    } else {
        Ok(c.price)
    }
}

/// The price before adjustments: a strict stable token trades at one USD
/// within the allowed deviation, and otherwise at its price only where that
/// favours the vault; other tokens carry the spread, added when maximizing
/// and deducted otherwise.
pub open spec fn price_v1_spec(c: PriceConfigV, maximize: bool, max_strict_price_deviation: nat) -> Result<nat, OmxError> {
    match primary_price_spec(c) {
        Err(e) => Err(e),
        Ok(p) => if c.is_strict_stable {
            if abs_diff(p, price_precision_value()) <= max_strict_price_deviation {
                Ok(price_precision_value())
            } else if (maximize && p > price_precision_value()) || (!maximize && p < price_precision_value()) {
                Ok(p)
            } else {
                Ok(price_precision_value())
            }
        } else if maximize {
            if basis_points_divisor_value() + c.spread_basis_points > u256_max() {
                Err(OmxError::PriceFeed(VaultPriceFeedError::PriceOverflow))
            } else {
                mul_ratio_spec(p, basis_points_divisor_value() + c.spread_basis_points, basis_points_divisor_value())
            }
        } else if c.spread_basis_points > basis_points_divisor_value() {
            Err(OmxError::PriceFeed(VaultPriceFeedError::PriceOverflow))
        } else {
            mul_ratio_spec(p, (basis_points_divisor_value() - c.spread_basis_points) as nat, basis_points_divisor_value())
        },
    }
}

/// The price with the spread applied.
pub fn get_price_v1(c: PriceConfig, maximize: bool, max_strict_price_deviation: U256) -> (r: Result<U256, OmxError>)
    ensures
        rv(r) == price_v1_spec(c@, maximize, max_strict_price_deviation@),
{
    let price = get_primary_price(c)?;
    let one_usd = price_precision();
    if c.is_strict_stable {
        let delta = u256_abs_diff(price, one_usd);
        if !u256_lt(max_strict_price_deviation, delta) {
            return Ok(one_usd);
        }
        if (maximize && u256_lt(one_usd, price)) || (!maximize && u256_lt(price, one_usd)) {
            return Ok(price);
        }
        return Ok(one_usd);
    }
    let multiplier = if maximize {
        match u256_checked_add(basis_points_divisor(), c.spread_basis_points) {
            Some(m) => m,
            None => return Err(feed_error(VaultPriceFeedError::PriceOverflow)),
        }
    } else {
        match u256_checked_sub(basis_points_divisor(), c.spread_basis_points) {
            Some(m) => m,
            None => return Err(feed_error(VaultPriceFeedError::PriceOverflow)),
        }
    };
    safe_mul_ratio(price, multiplier, basis_points_divisor())
}

/// A strict stable token is priced against the vault: within the allowed
/// deviation from one USD it counts as exactly one USD; beyond it, the
/// minimizing price is the lower of its price and one USD, and the
/// maximizing price the higher.
pub proof fn lemma_strict_stable_price(c: PriceConfigV, max_strict_price_deviation: nat)
    requires
        c.is_strict_stable,
        c.price > 0,
    ensures
        ({
            let one_usd = 1000000000000000000000000000000nat;
            let off = if c.price < one_usd { one_usd - c.price } else { c.price - one_usd };
            &&& off <= max_strict_price_deviation ==> {
                &&& price_v1_spec(c, false, max_strict_price_deviation) == Ok::<nat, OmxError>(one_usd)
                &&& price_v1_spec(c, true, max_strict_price_deviation) == Ok::<nat, OmxError>(one_usd)
            }
            &&& off > max_strict_price_deviation ==> {
                &&& price_v1_spec(c, false, max_strict_price_deviation) == Ok::<nat, OmxError>(
                    if c.price < one_usd { c.price } else { one_usd },
                )
                &&& price_v1_spec(c, true, max_strict_price_deviation) == Ok::<nat, OmxError>(
                    if c.price > one_usd { c.price } else { one_usd },
                )
            }
        }),
{
}

/// `a + b` and `a - b` wrapped modulo 2^256, as the `+` and `-` operators compute them.
pub open spec fn wrapped_add(a: nat, b: nat) -> nat {
    (a + b) % base256()
}

pub open spec fn wrapped_sub(a: nat, b: nat) -> nat {
    ((a - b) % (base256() as int)) as nat
}

/// The adjusted price: with an adjustment set, the price scaled by
/// `10000 +/- adjustment` basis points (the scale computed with wrapping
/// operators), failing with `InvalidPrice` when the product overflows.
pub open spec fn price_spec(c: PriceConfigV, maximize: bool, max_strict_price_deviation: nat) -> Result<nat, OmxError> {
    match price_v1_spec(c, maximize, max_strict_price_deviation) {
        Err(e) => Err(e),
        Ok(p) => if c.adjustment_basis_points > 0 {
            let scale = if c.is_adjustment_additive {
                wrapped_add(basis_points_divisor_value(), c.adjustment_basis_points)
            } else {
                wrapped_sub(basis_points_divisor_value(), c.adjustment_basis_points)
            };
            if p * scale > u256_max() {
                Err(OmxError::PriceFeed(VaultPriceFeedError::InvalidPrice))
            } else {
                Ok(p * scale / basis_points_divisor_value())
            }
        } else {
            Ok(p)
        },
    }
}

/// The price of a token, maximized or minimized.
pub fn get_price(c: PriceConfig, maximize: bool, max_strict_price_deviation: U256) -> (r: Result<U256, OmxError>)
    ensures
        rv(r) == price_spec(c@, maximize, max_strict_price_deviation@),
{
    let price = get_price_v1(c, maximize, max_strict_price_deviation)?;
    if u256_lt(U256::zero(), c.adjustment_basis_points) {
        let scale = if c.is_adjustment_additive {
            u256_wrapping_add(basis_points_divisor(), c.adjustment_basis_points)
        } else {
            u256_wrapping_sub(basis_points_divisor(), c.adjustment_basis_points)
        };
        let scaled = match u256_checked_mul(price, scale) {
            Some(v) => v,
            None => return Err(feed_error(VaultPriceFeedError::InvalidPrice)),
        };
        match u256_checked_div(scaled, basis_points_divisor()) {
            Some(v) => Ok(v),
            None => Err(feed_error(VaultPriceFeedError::InvalidPrice)),
        }
    } else {
        Ok(price)
    }
}

pub open spec fn pcv(r: Result<PriceConfig, OmxError>) -> Result<PriceConfigV, OmxError> {
    match r {
        Ok(c) => Ok(c@),
        Err(e) => Err(e),
    }
}

/// Setting an adjustment: refused when the last adjustment plus the
/// adjustment interval (wrapping) lies before now, or when the adjustment
/// exceeds its maximum; else recorded with the time.
pub open spec fn set_adjustment_spec(c: PriceConfigV, is_additive: bool, adjustment_bps: nat, now: nat) -> Result<PriceConfigV, OmxError> {
    if wrapped_add(c.last_adjustment_timing, max_adjustment_interval_value()) < now {
        Err(OmxError::PriceFeed(VaultPriceFeedError::AdjustmentFrequencyExceeded))
    } else if adjustment_bps > max_adjustment_basis_points_value() {
        Err(OmxError::PriceFeed(VaultPriceFeedError::InvalidAdjustmentBps))
    } else {
        Ok(PriceConfigV {
            is_adjustment_additive: is_additive,
            adjustment_basis_points: adjustment_bps,
            last_adjustment_timing: now,
            ..c
        })
    }
}

/// Setting a token's price adjustment; only the governor may.
pub fn set_adjustment(
    sender: Address,
    gov: Address,
    c: PriceConfig,
    is_additive: bool,
    adjustment_bps: U256,
    now: u64,
) -> (r: Result<PriceConfig, OmxError>)
    ensures
        pcv(r) == if sender != gov {
            Err(OmxError::PriceFeed(VaultPriceFeedError::Forbidden))
        } else {
            set_adjustment_spec(c@, is_additive, adjustment_bps@, now as nat)
        },
{
    if sender != gov {
        return Err(feed_error(VaultPriceFeedError::Forbidden));
    }
    let time = U256::from_u64(now);
    if u256_lt(u256_wrapping_add(c.last_adjustment_timing, max_adjustment_interval()), time) {
        return Err(feed_error(VaultPriceFeedError::AdjustmentFrequencyExceeded));
    }
    if u256_lt(max_adjustment_basis_points(), adjustment_bps) {
        return Err(feed_error(VaultPriceFeedError::InvalidAdjustmentBps));
    }
    Ok(
        PriceConfig {
            is_adjustment_additive: is_additive,
            adjustment_basis_points: adjustment_bps,
            last_adjustment_timing: time,
            ..c
        },
    )
}

/// Setting a spread: refused above the maximum spread.
pub open spec fn set_spread_spec(c: PriceConfigV, spread_basis_points: nat) -> Result<PriceConfigV, OmxError> {
    if spread_basis_points > max_spread_basis_points_value() {
        Err(OmxError::PriceFeed(VaultPriceFeedError::InvalidSpreadBasisPoints))
    } else {
        Ok(PriceConfigV { spread_basis_points, ..c })
    }
}

/// Setting a token's spread; only the governor may.
pub fn set_spread_basis_points(
    sender: Address,
    gov: Address,
    c: PriceConfig,
    spread_basis_points: U256,
) -> (r: Result<PriceConfig, OmxError>)
    ensures
        pcv(r) == if sender != gov {
            Err(OmxError::PriceFeed(VaultPriceFeedError::Forbidden))
        } else {
            set_spread_spec(c@, spread_basis_points@)
        },
{
    if sender != gov {
        return Err(feed_error(VaultPriceFeedError::Forbidden));
    }
    if u256_lt(max_spread_basis_points(), spread_basis_points) {
        return Err(feed_error(VaultPriceFeedError::InvalidSpreadBasisPoints));
    }
    Ok(PriceConfig { spread_basis_points, ..c })
}

/// Scaling by the same factor keeps the order of two amounts.
proof fn lemma_scale_monotone(a: nat, b: nat, k: nat, d: nat)
    requires
        a <= b,
        d > 0,
    ensures
        a * k / d <= b * k / d,
{
    assert(a * k <= b * k) by (nonlinear_arith)
        requires
            a <= b,
    {}
    vstd::arithmetic::div_mod::lemma_div_is_ordered((a * k) as int, (b * k) as int, d as int);
}

/// The price the feed gives when maximizing is never below the one it gives
/// when minimizing: the spread, and the way a strict stable token is
/// priced, always favour the vault.
pub proof fn lemma_max_price_not_below_min_price(c: PriceConfigV, max_strict_price_deviation: nat)
    requires
        price_spec(c, true, max_strict_price_deviation) is Ok,
        price_spec(c, false, max_strict_price_deviation) is Ok,
    ensures
        price_spec(c, false, max_strict_price_deviation).unwrap() <= price_spec(
            c,
            true,
            max_strict_price_deviation,
        ).unwrap(),
{
    let hi = price_v1_spec(c, true, max_strict_price_deviation).unwrap();
    let lo = price_v1_spec(c, false, max_strict_price_deviation).unwrap();
    let d = basis_points_divisor_value();
    if !c.is_strict_stable {
        assert(c.price * ((d - c.spread_basis_points) as nat) <= c.price * (d + c.spread_basis_points))
            by (nonlinear_arith)
            requires
                c.spread_basis_points <= d,
        {}
        vstd::arithmetic::div_mod::lemma_div_is_ordered(
            (c.price * ((d - c.spread_basis_points) as nat)) as int,
            (c.price * (d + c.spread_basis_points)) as int,
            d as int,
        );
    }
    assert(lo <= hi);
    if c.adjustment_basis_points > 0 {
        let scale = if c.is_adjustment_additive {
            wrapped_add(d, c.adjustment_basis_points)
        } else {
            wrapped_sub(d, c.adjustment_basis_points)
        };
        lemma_scale_monotone(lo, hi, scale, d);
    }
}

} // verus!
