//! Valuation helpers of the vault: converting between token amounts and USD,
//! pool utilization, token checks for new positions and a position's profit
//! or loss.

use vstd::prelude::*;
use crate::address::Address;
use crate::constants::{
    basis_points_divisor, basis_points_divisor_value, funding_rate_precision,
    funding_rate_precision_value,
};
use crate::errors::{OmxError, VaultError};
use crate::safe_math::{
    add_spec, mul_ratio_spec, mul_spec, rv, safe_add, safe_mul, safe_mul_ratio,
};
use crate::uint::{base256, u256_abs_diff, u256_eq, u256_lt, u256_max, u256_pow, U256};
use crate::vault::validate;

verus! {

/// `10^decimals` as computed by `U256::from(10).pow(U256::from(decimals))`,
/// which wraps modulo 2^256.
pub open spec fn decimals_scale(decimals: u8) -> nat {
    (vstd::arithmetic::power::pow(10, decimals as nat) % (base256() as int)) as nat
}

/// `10^decimals` as a `U256`.
pub fn token_scale(decimals: u8) -> (r: U256)
    ensures
        r@ == decimals_scale(decimals),
{
    u256_pow(U256::from_u64(10), U256::from_u64(decimals as u64))
}

/// The USD value, with 30 decimals, of `amount` tokens priced at `price`.
pub open spec fn token_to_usd_spec(amount: nat, price: nat, decimals: u8) -> Result<nat, OmxError> {
    if amount == 0 {
        Ok(0)
    } else {
        mul_ratio_spec(amount, price, decimals_scale(decimals))
    }
}

/// The number of tokens, priced at `price`, worth `usd` (30 decimals).
pub open spec fn usd_to_token_spec(usd: nat, price: nat, decimals: u8) -> Result<nat, OmxError> {
    if usd == 0 {
        Ok(0)
    } else {
        mul_ratio_spec(usd, decimals_scale(decimals), price)
    }
}

/// The USD value of a token amount, given the token's price and decimals.
pub fn token_to_usd(token_amount: U256, price: U256, decimals: u8) -> (r: Result<U256, OmxError>)
    ensures
        rv(r) == token_to_usd_spec(token_amount@, price@, decimals),
{
    if u256_eq(token_amount, U256::zero()) {
        return Ok(U256::zero());
    }
    safe_mul_ratio(token_amount, price, token_scale(decimals))
}

/// The token amount worth a USD value, given the token's price and decimals.
pub fn usd_to_token(usd_amount: U256, price: U256, decimals: u8) -> (r: Result<U256, OmxError>)
    ensures
        rv(r) == usd_to_token_spec(usd_amount@, price@, decimals),
{
    if u256_eq(usd_amount, U256::zero()) {
        return Ok(U256::zero());
    }
    safe_mul_ratio(usd_amount, token_scale(decimals), price)
}

/// The share of the pool that is reserved, in funding-rate precision.
pub open spec fn utilization_spec(pool_amount: nat, reserved_amount: nat) -> Result<nat, OmxError> {
    if pool_amount == 0 {
        Ok(0)
    } else {
        mul_ratio_spec(reserved_amount, funding_rate_precision_value(), pool_amount)
    }
}

/// The share of a token's pool that is reserved, given the token's pool and reserved amounts.
pub fn get_utilization(pool_amount: U256, reserved_amount: U256) -> (r: Result<U256, OmxError>)
    ensures
        rv(r) == utilization_spec(pool_amount@, reserved_amount@),
{
    if u256_eq(pool_amount, U256::zero()) {
        return Ok(U256::zero());
    }
    safe_mul_ratio(reserved_amount, funding_rate_precision(), pool_amount)
}

/// What the vault's configuration says of a token.
#[derive(Clone, Copy, Debug, PartialEq, Eq, Structural)]
pub struct TokenFlags {
    pub is_whitelisted: bool,
    pub is_stable: bool,
    pub is_shortable: bool,
}

/// Which tokens may back a position: a long is backed by its own
/// (whitelisted, volatile) token; a short by a whitelisted stable token and
/// on a volatile, shortable index token.
pub open spec fn validate_tokens_spec(
    collateral_token: Address,
    index_token: Address,
    is_long: bool,
    collateral: TokenFlags,
    index: TokenFlags,
) -> Result<(), OmxError> {
    if is_long {
        if collateral_token != index_token {
            Err(OmxError::Vault(VaultError::CollateralNotIndex))
        } else if !collateral.is_whitelisted {
            Err(OmxError::Vault(VaultError::CollateralNotWhitelisted))
        } else if collateral.is_stable {
            Err(OmxError::Vault(VaultError::CollateralIsStable))
        } else {
            Ok(())
        }
    } else if !collateral.is_whitelisted {
        Err(OmxError::Vault(VaultError::CollateralNotWhitelisted))
    } else if !collateral.is_stable {
        Err(OmxError::Vault(VaultError::CollateralNotStable))
    } else if index.is_stable {
        Err(OmxError::Vault(VaultError::IndexIsStable))
    } else if !index.is_shortable {
        Err(OmxError::Vault(VaultError::IndexNotShortable))
    } else {
        Ok(())
    }
}

/// The checks on the tokens of a position, given the vault's flags of both tokens.
pub fn validate_tokens(
    collateral_token: Address,
    index_token: Address,
    is_long: bool,
    collateral: TokenFlags,
    index: TokenFlags,
) -> (r: Result<(), OmxError>)
    ensures
        r == validate_tokens_spec(collateral_token, index_token, is_long, collateral, index),
{
    if is_long {
        validate(collateral_token == index_token, VaultError::CollateralNotIndex)?;
        validate(collateral.is_whitelisted, VaultError::CollateralNotWhitelisted)?;
        validate(!collateral.is_stable, VaultError::CollateralIsStable)?;
        return Ok(());
    }
    validate(collateral.is_whitelisted, VaultError::CollateralNotWhitelisted)?;
    validate(collateral.is_stable, VaultError::CollateralNotStable)?;
    validate(!index.is_stable, VaultError::IndexIsStable)?;
    validate(index.is_shortable, VaultError::IndexNotShortable)?;
    Ok(())
}

/// What a profit-or-loss computation reads besides the position: the current
/// price of the index token, the block time, the vault utils' minimum profit
/// time and the vault's minimum profit of the index token.
#[derive(Clone, Copy, Debug, PartialEq, Eq)]
pub struct DeltaContext {
    pub price: U256,
    pub now: u64,
    pub min_profit_time: U256,
    pub min_profit_basis_points: U256,
}

/// The values of a `DeltaContext`.
pub struct DeltaContextV {
    pub price: nat,
    pub now: nat,
    pub min_profit_time: nat,
    pub min_profit_basis_points: nat,
}

impl View for DeltaContext {
    type V = DeltaContextV;

    open spec fn view(&self) -> DeltaContextV {
        DeltaContextV {
            price: self.price@,
            now: self.now as nat,
            min_profit_time: self.min_profit_time@,
            min_profit_basis_points: self.min_profit_basis_points@,
        }
    }
}

pub open spec fn abs_diff(a: nat, b: nat) -> nat {
    if a < b {
        (b - a) as nat
    } else {
        (a - b) as nat
    }
}

/// Whether a position at `average_price` is in profit at `price`.
pub open spec fn has_profit_spec(is_long: bool, average_price: nat, price: nat) -> bool {
    if is_long {
        price > average_price
    } else {
        average_price > price
    }
}

/// The profit or loss of a position of `size` USD opened at `average_price`:
/// `size * |price - average_price| / average_price`, where a profit within
/// the minimum profit threshold counts as none while the minimum profit time
/// since the last increase has not passed.
pub open spec fn delta_spec(
    size: nat,
    average_price: nat,
    is_long: bool,
    last_increased_time: nat,
    ctx: DeltaContextV,
) -> Result<(bool, nat), OmxError> {
    if average_price == 0 {
        Err(OmxError::Vault(VaultError::AveragePriceZero))
    } else {
        match mul_ratio_spec(size, abs_diff(average_price, ctx.price), average_price) {
            Err(e) => Err(e),
            Ok(delta) => {
                let has_profit = has_profit_spec(is_long, average_price, ctx.price);
                match add_spec(last_increased_time, ctx.min_profit_time) {
                    Err(e) => Err(e),
                    Ok(deadline) => {
                        let min_bps = if ctx.now > deadline {
                            0
                        } else {
                            ctx.min_profit_basis_points
                        };
                        if !has_profit {
                            Ok((false, delta))
                        } else {
                            match mul_spec(delta, basis_points_divisor_value()) {
                                Err(e) => Err(e),
                                Ok(scaled) => match mul_spec(size, min_bps) {
                                    Err(e) => Err(e),
                                    Ok(threshold) => if scaled <= threshold {
                                        Ok((true, 0))
                                    } else {
                                        Ok((true, delta))
                                    },
                                },
                            }
                        }
                    },
                }
            },
        }
    }
}

/// The values of a `(has_profit, delta)` result.
pub open spec fn dv(r: Result<(bool, U256), OmxError>) -> Result<(bool, nat), OmxError> {
    match r {
        Ok((b, v)) => Ok((b, v@)),
        Err(e) => Err(e),
    }
}

/// A position's profit or loss: whether the position is in profit, and by how much.
pub fn get_delta(
    size: U256,
    average_price: U256,
    is_long: bool,
    last_increased_time: U256,
    ctx: DeltaContext,
) -> (r: Result<(bool, U256), OmxError>)
    ensures
        dv(r) == delta_spec(size@, average_price@, is_long, last_increased_time@, ctx@),
{
    validate(!u256_eq(average_price, U256::zero()), VaultError::AveragePriceZero)?;
    let price = ctx.price;
    let price_delta = u256_abs_diff(average_price, price);
    let mut delta = safe_mul_ratio(size, price_delta, average_price)?;
    let has_profit = if is_long {
        u256_lt(average_price, price)
    } else {
        u256_lt(price, average_price)
    };
    let deadline = safe_add(last_increased_time, ctx.min_profit_time)?;
    let min_bps = if u256_lt(deadline, U256::from_u64(ctx.now)) {
        U256::zero()
    } else {
        ctx.min_profit_basis_points
    };
    if has_profit {
        let scaled = safe_mul(delta, basis_points_divisor())?;
        let threshold = safe_mul(size, min_bps)?;
        if !u256_lt(threshold, scaled) {
            delta = U256::zero();
        }
    }
    Ok((has_profit, delta))
}

/// A position's profit or loss, stated on its own: the loss is always
/// `size * |price - average_price| / average_price`; so is the profit once the
/// minimum profit time since the last increase has passed, whatever the
/// minimum profit threshold; before that, a profit within the threshold
/// (`delta * 10000 <= size * min_profit_basis_points`) counts as none.
pub proof fn lemma_delta_is_the_price_move(
    size: nat,
    average_price: nat,
    is_long: bool,
    last_increased_time: nat,
    ctx: DeltaContextV,
)
    requires
        average_price > 0,
        size <= u256_max(),
        last_increased_time + ctx.min_profit_time <= u256_max(),
        size * abs_diff(average_price, ctx.price) / average_price <= u256_max(),
    ensures
        ({
            // |price - average_price|
            let moved = abs_diff(average_price, ctx.price);
            let d = size * moved / average_price;
            let in_profit = if is_long { ctx.price > average_price } else { ctx.price < average_price };
            let r = delta_spec(size, average_price, is_long, last_increased_time, ctx);
            &&& !in_profit ==> r == Ok::<(bool, nat), OmxError>((false, d as nat))
            &&& in_profit && ctx.now > last_increased_time + ctx.min_profit_time && d * 10000 <= u256_max()
                ==> r == Ok::<(bool, nat), OmxError>((true, d as nat))
            &&& in_profit && ctx.now <= last_increased_time + ctx.min_profit_time && d * 10000 <= u256_max()
                && size * ctx.min_profit_basis_points <= u256_max() ==> r == Ok::<(bool, nat), OmxError>(
                (true, if d * 10000 <= size * ctx.min_profit_basis_points { 0 } else { d as nat }),
            )
        }),
{
    let moved = abs_diff(average_price, ctx.price);
    assert(size * moved / average_price >= 0) by (nonlinear_arith)
        requires
            average_price > 0,
    ;
    let d = size * moved / average_price;
    if d == 0 {
        assert(d * 10000 == 0);
    }
    assert(d * 10000 == 0 ==> d == 0) by (nonlinear_arith);
}

/// A pool's utilization is the reserved share of it in millionths,
/// `reserved * 10^6 / pool` rounded down, and nothing for an empty pool.
pub proof fn lemma_utilization_in_millionths(pool_amount: nat, reserved_amount: nat)
    requires
        reserved_amount * 1000000 <= u256_max(),
    ensures
        pool_amount == 0 ==> utilization_spec(pool_amount, reserved_amount) == Ok::<nat, OmxError>(0),
        pool_amount > 0 ==> utilization_spec(pool_amount, reserved_amount) == Ok::<nat, OmxError>(
            reserved_amount * 1000000 / pool_amount,
        ),
{
    if pool_amount > 0 {
        assert(reserved_amount * 1000000 / pool_amount <= reserved_amount * 1000000) by (nonlinear_arith)
            requires
                pool_amount > 0,
        ;
    }
}

} // verus!
