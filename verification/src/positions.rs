//! Leveraged positions and the positions manager's global bookkeeping:
//! guaranteed USD per collateral token and global short sizes and average
//! prices per index token.

use vstd::prelude::*;
use crate::address::Address;
use crate::errors::{OmxError, VaultError};
use crate::safe_math::{
    add_int_spec, add_spec, mul_ratio_spec, rv, safe_add, safe_add_int, safe_mul_ratio,
    safe_sub, sub_spec,
};
use crate::uint::{
    i256_checked_add, i256_checked_sub, i256_eq, i256_max, i256_min, i256_try_from_u256, u256_abs_diff,
    u256_eq, u256_lt, u256_max, I256, U256,
};
use crate::vault::{only_core, validate};
use crate::vault_utils::abs_diff;

verus! {

/// A leveraged position, keyed on chain by account, collateral token, index
/// token and side.
#[derive(Clone, Copy, Debug, PartialEq, Eq)]
pub struct Position {
    pub size: U256,
    pub collateral: U256,
    pub average_price: U256,
    pub entry_funding_rate: U256,
    pub reserve_amount: U256,
    pub realised_pnl: I256,
    pub last_increased_time: U256,
}

/// The values of a `Position`.
pub struct PositionV {
    pub size: nat,
    pub collateral: nat,
    pub average_price: nat,
    pub entry_funding_rate: nat,
    pub reserve_amount: nat,
    pub realised_pnl: int,
    pub last_increased_time: nat,
}

impl View for Position {
    type V = PositionV;

    open spec fn view(&self) -> PositionV {
        PositionV {
            size: self.size@,
            collateral: self.collateral@,
            average_price: self.average_price@,
            entry_funding_rate: self.entry_funding_rate@,
            reserve_amount: self.reserve_amount@,
            realised_pnl: self.realised_pnl@,
            last_increased_time: self.last_increased_time@,
        }
    }
}

/// The empty position, all fields zero.
pub open spec fn empty_position() -> PositionV {
    PositionV {
        size: 0,
        collateral: 0,
        average_price: 0,
        entry_funding_rate: 0,
        reserve_amount: 0,
        realised_pnl: 0,
        last_increased_time: 0,
    }
}

impl Position {
    /// The empty position: every field zero.
    pub fn empty() -> (r: Position)
        ensures
            r@ == empty_position(),
    {
        Position {
            size: U256::zero(),
            collateral: U256::zero(),
            average_price: U256::zero(),
            entry_funding_rate: U256::zero(),
            reserve_amount: U256::zero(),
            realised_pnl: I256::zero(),
            last_increased_time: U256::zero(),
        }
    }

    /// Field-wise equality of the values of two positions.
    pub fn same_values(&self, other: &Position) -> (r: bool)
        ensures
            r == (self@ == other@),
    {
        u256_eq(self.size, other.size) && u256_eq(self.collateral, other.collateral)
            && u256_eq(self.average_price, other.average_price)
            && u256_eq(self.entry_funding_rate, other.entry_funding_rate)
            && u256_eq(self.reserve_amount, other.reserve_amount)
            && i256_eq(self.realised_pnl, other.realised_pnl)
            && u256_eq(self.last_increased_time, other.last_increased_time)
    }
}

/// A position's size never falls below its collateral, and an empty position
/// holds no collateral.
pub open spec fn validate_position_spec(size: nat, collateral: nat) -> Result<(), OmxError> {
    if size == 0 {
        if collateral == 0 {
            Ok(())
        } else {
            Err(OmxError::Vault(VaultError::CollateralNotZero))
        }
    } else if size >= collateral {
        Ok(())
    } else {
        Err(OmxError::Vault(VaultError::SizeLessThenCollateral))
    }
}

/// `validate_position`.
pub fn validate_position(size: U256, collateral: U256) -> (r: Result<(), OmxError>)
    ensures
        r == validate_position_spec(size@, collateral@),
{
    if u256_eq(size, U256::zero()) {
        validate(u256_eq(collateral, U256::zero()), VaultError::CollateralNotZero)?;
        return Ok(());
    }
    validate(!u256_lt(size, collateral), VaultError::SizeLessThenCollateral)?;
    Ok(())
}

/// Realising a profit of `delta` USD: the position's realised PnL grows by
/// it, failing with `PnlOverflow` outside the I256 range.
pub open spec fn pnl_add_spec(pnl: int, delta: nat) -> Result<int, OmxError> {
    if delta > i256_max() || pnl + delta > i256_max() {
        Err(OmxError::Vault(VaultError::PnlOverflow))
    } else {
        Ok(pnl + delta)
    }
}

/// Realising a loss of `delta` USD.
pub open spec fn pnl_sub_spec(pnl: int, delta: nat) -> Result<int, OmxError> {
    if delta > i256_max() || pnl - delta < i256_min() {
        Err(OmxError::Vault(VaultError::PnlOverflow))
    } else {
        Ok(pnl - delta)
    }
}

pub open spec fn iv(r: Result<I256, OmxError>) -> Result<int, OmxError> {
    match r {
        Ok(v) => Ok(v@),
        Err(e) => Err(e),
    }
}

/// `realised_pnl.checked_add(I256::try_from(delta)?)`, mapped to `PnlOverflow`.
pub fn pnl_add(pnl: I256, delta: U256) -> (r: Result<I256, OmxError>)
    ensures
        iv(r) == pnl_add_spec(pnl@, delta@),
{
    proof {
        pnl.lemma_bound();
    }
    let d = match i256_try_from_u256(delta) {
        Some(d) => d,
        None => return Err(OmxError::Vault(VaultError::PnlOverflow)),
    };
    match i256_checked_add(pnl, d) {
        Some(v) => Ok(v),
        None => Err(OmxError::Vault(VaultError::PnlOverflow)),
    }
}

/// `realised_pnl.checked_sub(I256::try_from(delta)?)`, mapped to `PnlOverflow`.
pub fn pnl_sub(pnl: I256, delta: U256) -> (r: Result<I256, OmxError>)
    ensures
        iv(r) == pnl_sub_spec(pnl@, delta@),
{
    proof {
        pnl.lemma_bound();
    }
    let d = match i256_try_from_u256(delta) {
        Some(d) => d,
        None => return Err(OmxError::Vault(VaultError::PnlOverflow)),
    };
    match i256_checked_sub(pnl, d) {
        Some(v) => Ok(v),
        None => Err(OmxError::Vault(VaultError::PnlOverflow)),
    }
}

/// The refusal of a caller that is not one of the position managers.
pub open spec fn not_a_manager() -> OmxError {
    OmxError::Vault(VaultError::Forbidden)
}

/// Moving a token's guaranteed USD: only the position managers (listed in
/// `managers`) may; the token's guaranteed USD moves by the signed `value`.
pub fn update_guaranteed_usd(
    sender: Address,
    managers: &Vec<Address>,
    guaranteed_usd: U256,
    value: I256,
) -> (r: Result<U256, OmxError>)
    ensures
        rv(r) == if !managers@.contains(sender) {
            Err(not_a_manager())
        } else {
            add_int_spec(guaranteed_usd@, value@)
        },
{
    only_core(sender, managers)?;
    move_guaranteed_usd(guaranteed_usd, value)
}

/// The work of `update_guaranteed_usd` once the caller is known to be a
/// position manager, as the position steps reach it.
pub(crate) fn move_guaranteed_usd(guaranteed_usd: U256, value: I256) -> (r: Result<U256, OmxError>)
    ensures
        rv(r) == add_int_spec(guaranteed_usd@, value@),
{
    safe_add_int(guaranteed_usd, value)
}

/// Shrinking the global short size by `amount`, floored at zero.
pub open spec fn decrease_global_short_size_spec(size: nat, amount: nat) -> nat {
    if amount > size {
        0
    } else {
        (size - amount) as nat
    }
}

/// Shrinking a token's global short size, floored at zero: only the
/// position managers (listed in `managers`) may.
pub fn decrease_global_short_size(
    sender: Address,
    managers: &Vec<Address>,
    size: U256,
    amount: U256,
) -> (r: Result<U256, OmxError>)
    ensures
        rv(r) == if !managers@.contains(sender) {
            Err(not_a_manager())
        } else {
            Ok(decrease_global_short_size_spec(size@, amount@))
        },
{
    only_core(sender, managers)?;
    Ok(shrink_global_short_size(size, amount))
}

/// The work of `decrease_global_short_size` once the caller is known to be a
/// position manager, as the position steps reach it.
pub(crate) fn shrink_global_short_size(size: U256, amount: U256) -> (r: U256)
    ensures
        r@ == decrease_global_short_size_spec(size@, amount@),
{
    match safe_sub(size, amount) {
        Ok(v) => v,
        Err(_) => U256::zero(),
    }
}

/// Growing the global short size by `amount`, within the maximum when one is set.
pub open spec fn increase_global_short_size_spec(size: nat, amount: nat, max_size: nat) -> Result<nat, OmxError> {
    match add_spec(size, amount) {
        Err(e) => Err(e),
        Ok(s) => if max_size != 0 && s > max_size {
            Err(OmxError::Vault(VaultError::MaxShortsExceeded))
        } else {
            Ok(s)
        },
    }
}

/// Growing a token's global short size.
pub fn increase_global_short_size(size: U256, amount: U256, max_size: U256) -> (r: Result<U256, OmxError>)
    ensures
        rv(r) == increase_global_short_size_spec(size@, amount@, max_size@),
{
    let global_short_size = safe_add(size, amount)?;
    if !u256_eq(max_size, U256::zero()) {
        validate(!u256_lt(max_size, global_short_size), VaultError::MaxShortsExceeded)?;
    }
    Ok(global_short_size)
}

/// The global short average price after `size_delta` USD of shorts open at
/// `next_price`: `next_price * next_size / (next_size -/+ delta)`, where
/// `delta` is the open shorts' profit (minus) or loss (plus).
pub open spec fn next_global_short_average_price_spec(
    size: nat,
    average_price: nat,
    next_price: nat,
    size_delta: nat,
) -> Result<nat, OmxError> {
    match mul_ratio_spec(size, abs_diff(average_price, next_price), average_price) {
        Err(e) => Err(e),
        Ok(delta) => match add_spec(size, size_delta) {
            Err(e) => Err(e),
            Ok(next_size) => {
                let divisor = if average_price > next_price {
                    sub_spec(next_size, delta)
                } else {
                    add_spec(next_size, delta)
                };
                match divisor {
                    Err(e) => Err(e),
                    Ok(d) => mul_ratio_spec(next_price, next_size, d),
                }
            },
        },
    }
}

/// The global short average price after more shorts open, stated on its
/// own: with `delta = size * |next_price - average| / average` the open
/// shorts' profit (when the price fell below their average) or loss, and
/// `next_size = size + size_delta`, it is `next_price * next_size / divisor`
/// where the divisor is `next_size - delta` for a profit and `next_size +
/// delta` for a loss.
pub proof fn lemma_next_global_short_average_price(size: nat, average_price: nat, next_price: nat, size_delta: nat)
    requires
        average_price > 0,
        size * abs_diff(average_price, next_price) / average_price <= u256_max(),
        size + size_delta <= u256_max(),
    ensures
        ({
            let delta = size * abs_diff(average_price, next_price) / average_price;
            let next_size = size + size_delta;
            let divisor: int = if next_price < average_price { next_size - delta } else { (next_size + delta) as int };
            0 < divisor <= u256_max() && (next_price * next_size) as int / divisor <= u256_max() ==>
                next_global_short_average_price_spec(size, average_price, next_price, size_delta) == Ok::<
                    nat,
                    OmxError,
                >(((next_price * next_size) as int / divisor) as nat)
        }),
{
    let delta = size * abs_diff(average_price, next_price) / average_price;
    let next_size = size + size_delta;
    let divisor: int = if next_price < average_price { next_size - delta } else { (next_size + delta) as int };
    if 0 < divisor {
        assert((next_price * next_size) as int / divisor >= 0) by (nonlinear_arith)
            requires
                divisor > 0,
        ;
    }
}

/// The global short average price after a short grows, given the index
/// token's global short size and average price.
pub fn get_next_global_short_average_price(
    size: U256,
    average_price: U256,
    next_price: U256,
    size_delta: U256,
) -> (r: Result<U256, OmxError>)
    ensures
        rv(r) == next_global_short_average_price_spec(size@, average_price@, next_price@, size_delta@),
{
    let price_delta = u256_abs_diff(average_price, next_price);
    let delta = safe_mul_ratio(size, price_delta, average_price)?;
    let has_profit = u256_lt(next_price, average_price);
    let next_size = safe_add(size, size_delta)?;
    let divisor = if has_profit {
        safe_sub(next_size, delta)?
    } else {
        safe_add(next_size, delta)?
    };
    safe_mul_ratio(next_price, next_size, divisor)
}

/// The global short figures of one index token.
#[derive(Clone, Copy, Debug, PartialEq, Eq)]
pub struct GlobalShort {
    pub size: U256,
    pub average_price: U256,
    pub max_size: U256,
}

pub struct GlobalShortV {
    pub size: nat,
    pub average_price: nat,
    pub max_size: nat,
}

impl View for GlobalShort {
    type V = GlobalShortV;

    open spec fn view(&self) -> GlobalShortV {
        GlobalShortV { size: self.size@, average_price: self.average_price@, max_size: self.max_size@ }
    }
}

pub open spec fn gsv(r: Result<GlobalShort, OmxError>) -> Result<GlobalShortV, OmxError> {
    match r {
        Ok(g) => Ok(g@),
        Err(e) => Err(e),
    }
}

/// Opening `size_delta` USD of shorts at `price`: the average price moves
/// (or starts at `price`), then the size grows.
pub open spec fn after_short_increase_spec(g: GlobalShortV, price: nat, size_delta: nat) -> Result<GlobalShortV, OmxError> {
    let avg = if g.size == 0 {
        Ok(price)
    } else {
        next_global_short_average_price_spec(g.size, g.average_price, price, size_delta)
    };
    match avg {
        Err(e) => Err(e),
        Ok(a) => match increase_global_short_size_spec(g.size, size_delta, g.max_size) {
            Err(e) => Err(e),
            Ok(s) => Ok(GlobalShortV { size: s, average_price: a, max_size: g.max_size }),
        },
    }
}

/// The global short figures after a short grows: only the position
/// managers (listed in `managers`) may record it.
pub fn after_short_increase(
    sender: Address,
    managers: &Vec<Address>,
    g: GlobalShort,
    price: U256,
    size_delta: U256,
) -> (r: Result<GlobalShort, OmxError>)
    ensures
        gsv(r) == if !managers@.contains(sender) {
            Err(not_a_manager())
        } else {
            after_short_increase_spec(g@, price@, size_delta@)
        },
{
    only_core(sender, managers)?;
    grow_global_short(g, price, size_delta)
}

/// The work of `after_short_increase` once the caller is known to be a
/// position manager, as the position steps reach it.
pub(crate) fn grow_global_short(g: GlobalShort, price: U256, size_delta: U256) -> (r: Result<GlobalShort, OmxError>)
    ensures
        gsv(r) == after_short_increase_spec(g@, price@, size_delta@),
{
    let average_price = if u256_eq(g.size, U256::zero()) {
        price
    } else {
        get_next_global_short_average_price(g.size, g.average_price, price, size_delta)?
    };
    let size = increase_global_short_size(g.size, size_delta, g.max_size)?;
    Ok(GlobalShort { size, average_price, max_size: g.max_size })
}

} // verus!
