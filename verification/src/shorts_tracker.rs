//! The shorts tracker: the global average price of open shorts per index
//! token, kept in step with realised profits and losses.

use vstd::prelude::*;
use crate::address::Address;
use crate::errors::{OmxError, ShortsTrackerError};
use crate::positions::iv;
use crate::safe_math::{add_spec, mul_ratio_spec, rv, safe_add, safe_mul_ratio, safe_sub, sub_spec};
use crate::uint::{
    i256_checked_neg, i256_is_positive, i256_max, i256_try_from_u256, i256_unsigned_abs, u256_abs_diff,
    u256_eq, u256_lt, I256, U256,
};
use crate::vault_utils::{abs_diff, delta_spec, dv, get_delta, DeltaContext, DeltaContextV};

verus! {

/// The open shorts' profit or loss after a realised PnL is taken out of it:
/// a realised profit reduces a profit (or flips it into a loss when larger),
/// a realised loss reduces a loss (or flips it into a profit).
pub open spec fn next_delta_spec(average_price: nat, next_price: nat, delta: nat, realised_pnl: int) -> Result<(bool, nat), OmxError> {
    let has_profit = average_price > next_price;
    let magnitude: nat = if realised_pnl < 0 { (-realised_pnl) as nat } else { realised_pnl as nat };
    if has_profit {
        if realised_pnl > 0 {
            if magnitude > delta {
                match sub_spec(magnitude, delta) {
                    Err(e) => Err(e),
                    Ok(d) => Ok((false, d)),
                }
            } else {
                match sub_spec(delta, magnitude) {
                    Err(e) => Err(e),
                    Ok(d) => Ok((true, d)),
                }
            }
        } else {
            match add_spec(delta, magnitude) {
                Err(e) => Err(e),
                Ok(d) => Ok((true, d)),
            }
        }
    } else if realised_pnl > 0 {
        match add_spec(delta, magnitude) {
            Err(e) => Err(e),
            Ok(d) => Ok((false, d)),
        }
    } else if magnitude > delta {
        match sub_spec(magnitude, delta) {
            Err(e) => Err(e),
            Ok(d) => Ok((true, d)),
        }
    } else {
        match sub_spec(delta, magnitude) {
            Err(e) => Err(e),
            Ok(d) => Ok((false, d)),
        }
    }
}

/// The next global short delta after a change.
pub fn get_next_delta(average_price: U256, next_price: U256, delta: U256, realised_pnl: I256) -> (r: Result<(bool, U256), OmxError>)
    ensures
        dv(r) == next_delta_spec(average_price@, next_price@, delta@, realised_pnl@),
{
    let has_profit = u256_lt(next_price, average_price);
    let magnitude = i256_unsigned_abs(realised_pnl);
    let positive = i256_is_positive(realised_pnl);
    if has_profit {
        if positive {
            if u256_lt(delta, magnitude) {
                return Ok((false, safe_sub(magnitude, delta)?));
            } else {
                return Ok((true, safe_sub(delta, magnitude)?));
            }
        } else {
            return Ok((true, safe_add(delta, magnitude)?));
        }
    }
    if positive {
        Ok((false, safe_add(delta, magnitude)?))
    } else if u256_lt(delta, magnitude) {
        Ok((true, safe_sub(magnitude, delta)?))
    } else {
        Ok((false, safe_sub(delta, magnitude)?))
    }
}

/// The next global average price: `next_price * next_size / (next_size -/+ delta)`
/// with the delta after the realised PnL.
pub open spec fn next_global_average_price_spec(
    average_price: nat,
    next_price: nat,
    next_size: nat,
    delta: nat,
    realised_pnl: int,
) -> Result<nat, OmxError> {
    match next_delta_spec(average_price, next_price, delta, realised_pnl) {
        Err(e) => Err(e),
        Ok((has_profit, next_delta)) => {
            let size = if has_profit {
                sub_spec(next_size, next_delta)
            } else {
                add_spec(next_size, next_delta)
            };
            match size {
                Err(e) => Err(e),
                Ok(s) => mul_ratio_spec(next_price, next_size, s),
            }
        },
    }
}

/// The next global short average price.
pub fn get_next_global_average_price(
    average_price: U256,
    next_price: U256,
    next_size: U256,
    delta: U256,
    realised_pnl: I256,
) -> (r: Result<U256, OmxError>)
    ensures
        rv(r) == next_global_average_price_spec(average_price@, next_price@, next_size@, delta@, realised_pnl@),
{
    let (has_profit, next_delta) = get_next_delta(average_price, next_price, delta, realised_pnl)?;
    let size = if has_profit {
        safe_sub(next_size, next_delta)?
    } else {
        safe_add(next_size, next_delta)?
    };
    safe_mul_ratio(next_price, next_size, size)
}

/// What the tracker reads of a short position: its size, average price and
/// last increase time.
#[derive(Clone, Copy, Debug, PartialEq, Eq)]
pub struct ShortPosition {
    pub size: U256,
    pub average_price: U256,
    pub last_increased_time: U256,
}

/// The PnL realised by decreasing a short by `size_delta`: its share of the
/// position's profit (positive) or loss (negative); none on an increase.
pub open spec fn realised_pnl_spec(
    is_increase: bool,
    size: nat,
    average_price: nat,
    last_increased_time: nat,
    size_delta: nat,
    dctx: DeltaContextV,
) -> Result<int, OmxError> {
    if is_increase {
        Ok(0)
    } else {
        match delta_spec(size, average_price, false, last_increased_time, dctx) {
            Err(e) => Err(e),
            Ok((has_profit, delta)) => match mul_ratio_spec(size_delta, delta, size) {
                Err(e) => Err(e),
                Ok(adjusted) => if adjusted > i256_max() {
                    Err(OmxError::ShortsTracker(ShortsTrackerError::Overflow))
                } else if has_profit {
                    Ok(adjusted as int)
                } else {
                    Ok(-(adjusted as int))
                },
            },
        }
    }
}

/// The profit or loss realised on a short change, given the short position and the index
/// token's pricing context.
pub fn get_realised_pnl(
    is_increase: bool,
    position: ShortPosition,
    size_delta: U256,
    dctx: DeltaContext,
) -> (r: Result<I256, OmxError>)
    ensures
        iv(r) == realised_pnl_spec(
            is_increase,
            position.size@,
            position.average_price@,
            position.last_increased_time@,
            size_delta@,
            dctx@,
        ),
{
    if is_increase {
        return Ok(I256::zero());
    }
    let (has_profit, delta) = get_delta(position.size, position.average_price, false, position.last_increased_time, dctx)?;
    let adjusted = safe_mul_ratio(size_delta, delta, position.size)?;
    let value = match i256_try_from_u256(adjusted) {
        Some(v) => v,
        None => return Err(OmxError::ShortsTracker(ShortsTrackerError::Overflow)),
    };
    if has_profit {
        Ok(value)
    } else {
        match i256_checked_neg(value) {
            Some(n) => Ok(n),
            None => Err(OmxError::ShortsTracker(ShortsTrackerError::Overflow)),
        }
    }
}

/// The next global short size and average price after shorts of `size_delta`
/// USD open (or close) at `next_price`.
pub open spec fn next_global_short_data_spec(
    realised_pnl: int,
    average_price: nat,
    size: nat,
    next_price: nat,
    size_delta: nat,
    is_increase: bool,
) -> Result<(nat, nat), OmxError> {
    let next_size = if is_increase {
        add_spec(size, size_delta)
    } else {
        sub_spec(size, size_delta)
    };
    match next_size {
        Err(e) => Err(e),
        Ok(ns) => if ns == 0 {
            Ok((0, 0))
        } else if average_price == 0 {
            Ok((ns, next_price))
        } else {
            match mul_ratio_spec(size, abs_diff(average_price, next_price), average_price) {
                Err(e) => Err(e),
                Ok(delta) => match next_global_average_price_spec(average_price, next_price, ns, delta, realised_pnl) {
                    Err(e) => Err(e),
                    Ok(avg) => Ok((ns, avg)),
                },
            }
        },
    }
}

pub open spec fn pair_v(r: Result<(U256, U256), OmxError>) -> Result<(nat, nat), OmxError> {
    match r {
        Ok((a, b)) => Ok((a@, b@)),
        Err(e) => Err(e),
    }
}

/// The next global short figures, given the realised PnL, the
/// tracker's average price and the global short size of the index token.
pub fn get_next_global_short_data(
    realised_pnl: I256,
    average_price: U256,
    size: U256,
    next_price: U256,
    size_delta: U256,
    is_increase: bool,
) -> (r: Result<(U256, U256), OmxError>)
    ensures
        pair_v(r) == next_global_short_data_spec(realised_pnl@, average_price@, size@, next_price@, size_delta@, is_increase),
{
    let price_delta = u256_abs_diff(average_price, next_price);
    let next_size = if is_increase {
        safe_add(size, size_delta)?
    } else {
        safe_sub(size, size_delta)?
    };
    if u256_eq(next_size, U256::zero()) {
        return Ok((U256::zero(), U256::zero()));
    }
    if u256_eq(average_price, U256::zero()) {
        return Ok((next_size, next_price));
    }
    let delta = safe_mul_ratio(size, price_delta, average_price)?;
    let next_average_price = get_next_global_average_price(average_price, next_price, next_size, delta, realised_pnl)?;
    Ok((next_size, next_average_price))
}

/// Updating the tracker after a short changes: only handlers may call; longs,
/// zero changes and a tracker not yet migrated leave the average price as it
/// is; otherwise it becomes the next global average price. Yields the new
/// average price.
pub open spec fn update_global_short_data_spec(
    sender_is_handler: bool,
    is_global_short_data_ready: bool,
    is_long: bool,
    size_delta: nat,
    is_increase: bool,
    average_price: nat,
    global_short_size: nat,
    mark_price: nat,
    position_size: nat,
    position_average_price: nat,
    position_last_increased_time: nat,
    dctx: DeltaContextV,
) -> Result<nat, OmxError> {
    if !sender_is_handler {
        Err(OmxError::ShortsTracker(ShortsTrackerError::Forbidden))
    } else if is_long || size_delta == 0 || !is_global_short_data_ready {
        Ok(average_price)
    } else {
        match realised_pnl_spec(is_increase, position_size, position_average_price, position_last_increased_time, size_delta, dctx) {
            Err(e) => Err(e),
            Ok(pnl) => match next_global_short_data_spec(pnl, average_price, global_short_size, mark_price, size_delta, is_increase) {
                Err(e) => Err(e),
                Ok((_, avg)) => Ok(avg),
            },
        }
    }
}

/// The shorts tracker's update, given the sender's handler
/// status, the tracker's state of the index token, the global short size and
/// the short position; yields the new average price of the index token.
pub fn update_global_short_data(
    sender_is_handler: bool,
    is_global_short_data_ready: bool,
    is_long: bool,
    size_delta: U256,
    mark_price: U256,
    is_increase: bool,
    average_price: U256,
    global_short_size: U256,
    position: ShortPosition,
    dctx: DeltaContext,
) -> (r: Result<U256, OmxError>)
    ensures
        rv(r) == update_global_short_data_spec(
            sender_is_handler,
            is_global_short_data_ready,
            is_long,
            size_delta@,
            is_increase,
            average_price@,
            global_short_size@,
            mark_price@,
            position.size@,
            position.average_price@,
            position.last_increased_time@,
            dctx@,
        ),
{
    if !sender_is_handler {
        return Err(OmxError::ShortsTracker(ShortsTrackerError::Forbidden));
    }
    if is_long || u256_eq(size_delta, U256::zero()) || !is_global_short_data_ready {
        return Ok(average_price);
    }
    let pnl = get_realised_pnl(is_increase, position, size_delta, dctx)?;
    let (_, avg) = get_next_global_short_data(pnl, average_price, global_short_size, mark_price, size_delta, is_increase)?;
    Ok(avg)
}

/// The global shorts' profit or loss at `price`: none without shorts, else
/// `size * |price - average_price| / average_price`, a profit when the price fell.
pub open spec fn global_short_delta_spec(size: nat, average_price: nat, price: nat) -> Result<(bool, nat), OmxError> {
    if size == 0 {
        Ok((false, 0))
    } else {
        match mul_ratio_spec(size, abs_diff(price, average_price), average_price) {
            Err(e) => Err(e),
            Ok(delta) => Ok((average_price > price, delta)),
        }
    }
}

/// The global shorts' profit or loss, given the global short size, the
/// tracker's average price and the current price.
pub fn get_global_short_delta(size: U256, average_price: U256, price: U256) -> (r: Result<(bool, U256), OmxError>)
    ensures
        dv(r) == global_short_delta_spec(size@, average_price@, price@),
{
    if u256_eq(size, U256::zero()) {
        return Ok((false, U256::zero()));
    }
    let price_delta = u256_abs_diff(price, average_price);
    let delta = safe_mul_ratio(size, price_delta, average_price)?;
    Ok((u256_lt(price, average_price), delta))
}

/// The (token, average price) entries that `set_init_data` records: the two
/// lists zipped, as far as the shorter reaches.
pub fn init_data_entries(tokens: &Vec<Address>, average_prices: &Vec<U256>) -> (r: Vec<(Address, U256)>)
    ensures
        r@.len() == if tokens@.len() < average_prices@.len() { tokens@.len() } else { average_prices@.len() },
        forall|i: int| 0 <= i < r@.len() ==> r@[i] == (tokens@[i], average_prices@[i]),
{
    let n = if tokens.len() < average_prices.len() { tokens.len() } else { average_prices.len() };
    let mut out: Vec<(Address, U256)> = Vec::new();
    let mut i: usize = 0;
    while i < n
        invariant
            n <= tokens@.len(),
            n <= average_prices@.len(),
            i <= n,
            out@.len() == i,
            forall|j: int| 0 <= j < i ==> out@[j] == (tokens@[j], average_prices@[j]),
        decreases n - i,
    {
        out.push((tokens[i], average_prices[i]));
        i = i + 1;
    }
    out
}

/// Seeding the shorts tracker: only the governor may; refused once
/// migrated, else the entries to record, after which the tracker is migrated.
pub fn set_init_data(
    sender: Address,
    gov: Address,
    is_global_short_data_ready: bool,
    tokens: &Vec<Address>,
    average_prices: &Vec<U256>,
) -> (r: Result<Vec<(Address, U256)>, OmxError>)
    ensures
        sender != gov ==> r == Err::<Vec<(Address, U256)>, OmxError>(
            OmxError::ShortsTracker(ShortsTrackerError::Forbidden),
        ),
        sender == gov ==> (is_global_short_data_ready <==> r is Err),
        sender == gov ==> (r matches Err(e) ==> e == OmxError::ShortsTracker(ShortsTrackerError::AlreadyMigrated)),
        r matches Ok(v) ==> v@.len() == if tokens@.len() < average_prices@.len() { tokens@.len() } else { average_prices@.len() }
            && forall|i: int| 0 <= i < v@.len() ==> v@[i] == (tokens@[i], average_prices@[i]),
{
    if sender != gov {
        return Err(OmxError::ShortsTracker(ShortsTrackerError::Forbidden));
    }
    if is_global_short_data_ready {
        return Err(OmxError::ShortsTracker(ShortsTrackerError::AlreadyMigrated));
    }
    Ok(init_data_entries(tokens, average_prices))
}

} // verus!
