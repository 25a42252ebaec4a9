//! The positions manager utilities: the next average price of a growing
//! position, the liquidation check and the settlement of a position decrease.

use vstd::prelude::*;
use crate::address::Address;
use crate::constants::{
    basis_points_divisor, basis_points_divisor_value, liquidation_fee_usd,
    liquidation_fee_usd_value, max_leverage, max_leverage_value,
};
use crate::errors::{OmxError, VaultError};
use crate::fee_manager::{
    margin_fee_outcome, collect_margin_fees_spec, funding_fee_spec, get_funding_fee,
    get_position_fee, position_fee_spec, CollateralContext, CollateralContextV,
    MarginFeeOutcomeV,
};
use crate::positions::{
    pnl_add, pnl_add_spec, pnl_sub, pnl_sub_spec, Position, PositionV,
};
use crate::safe_math::{
    add_spec, mul_ratio_spec, mul_spec, rv, safe_add, safe_mul, safe_mul_ratio, safe_sub,
    sub_spec,
};
use crate::uint::{u256_eq, u256_lt, u256_max, U256};
use crate::vault::{
    decrease_pool_spec, increase_pool_spec, lemma_pool_steps_keep_invariant, pool_ledger_inv,
    PoolLedger, PoolLedgerV,
};
use crate::vault_utils::{delta_spec, get_delta, usd_to_token, usd_to_token_spec, DeltaContext, DeltaContextV};

verus! {

/// The average price of a position of `size` USD at `average_price` after
/// `size_delta` USD more at `next_price`: `next_price * next_size / divisor`,
/// where for longs the divisor is `next_size + delta` in profit and
/// `next_size - delta` at a loss, and for shorts `next_size - delta` in
/// profit and `next_size + delta` at a loss.
pub open spec fn next_average_price_spec(
    size: nat,
    average_price: nat,
    is_long: bool,
    next_price: nat,
    size_delta: nat,
    last_increased_time: nat,
    ctx: DeltaContextV,
) -> Result<nat, OmxError> {
    match delta_spec(size, average_price, is_long, last_increased_time, ctx) {
        Err(e) => Err(e),
        Ok((has_profit, delta)) => match add_spec(size, size_delta) {
            Err(e) => Err(e),
            Ok(next_size) => {
                let divisor = if is_long == has_profit {
                    add_spec(next_size, delta)
                } else {
                    sub_spec(next_size, delta)
                };
                match divisor {
                    Err(e) => Err(e),
                    Ok(d) => mul_ratio_spec(next_price, next_size, d),
                }
            },
        },
    }
}

/// The next average price of a growing position (see `next_average_price_spec`).
pub fn get_next_average_price(
    size: U256,
    average_price: U256,
    is_long: bool,
    next_price: U256,
    size_delta: U256,
    last_increased_time: U256,
    ctx: DeltaContext,
) -> (r: Result<U256, OmxError>)
    ensures
        rv(r) == next_average_price_spec(
            size@,
            average_price@,
            is_long,
            next_price@,
            size_delta@,
            last_increased_time@,
            ctx@,
        ),
{
    let (has_profit, delta) = get_delta(size, average_price, is_long, last_increased_time, ctx)?;
    let next_size = safe_add(size, size_delta)?;
    let divisor = if is_long == has_profit {
        safe_add(next_size, delta)?
    } else {
        safe_sub(next_size, delta)?
    };
    safe_mul_ratio(next_price, next_size, divisor)
}

/// The next average price of a growing position, stated on its own: with
/// `delta` its profit or loss at the new price and `next_size` its size
/// after growing, the new average price is `next_price * next_size /
/// divisor`, where the divisor is `next_size + delta` for a long in profit
/// or a short at a loss, and `next_size - delta` for a long at a loss or a
/// short in profit.
pub proof fn lemma_next_average_price(
    size: nat,
    average_price: nat,
    is_long: bool,
    next_price: nat,
    size_delta: nat,
    last_increased_time: nat,
    ctx: DeltaContextV,
)
    requires
        delta_spec(size, average_price, is_long, last_increased_time, ctx) is Ok,
        size + size_delta <= u256_max(),
    ensures
        ({
            let (has_profit, delta) = delta_spec(size, average_price, is_long, last_increased_time, ctx).unwrap();
            let next_size = size + size_delta;
            let divisor: int = if (is_long && has_profit) || (!is_long && !has_profit) {
                (next_size + delta) as int
            } else {
                next_size - delta
            };
            let r = next_average_price_spec(size, average_price, is_long, next_price, size_delta, last_increased_time, ctx);
            0 < divisor <= u256_max() && (next_price * next_size) as int / divisor <= u256_max() ==> r
                == Ok::<nat, OmxError>(((next_price * next_size) as int / divisor) as nat)
        }),
{
    let (has_profit, delta) = delta_spec(size, average_price, is_long, last_increased_time, ctx).unwrap();
    let next_size = size + size_delta;
    let divisor: int = if (is_long && has_profit) || (!is_long && !has_profit) {
        (next_size + delta) as int
    } else {
        next_size - delta
    };
    if 0 < divisor {
        assert((next_price * next_size) as int / divisor >= 0) by (nonlinear_arith)
            requires
                divisor > 0,
        ;
    }
}

/// The values of a pair result.
pub open spec fn pair_v(r: Result<(U256, U256), OmxError>) -> Result<(nat, nat), OmxError> {
    match r {
        Ok((a, b)) => Ok((a@, b@)),
        Err(e) => Err(e),
    }
}

/// Liquidation state `1`: liquidate by closing the position at its remaining collateral.
pub open spec fn liquidate_state() -> nat {
    1
}

/// Liquidation state `2`: over the maximum leverage, close the position by a decrease.
pub open spec fn leverage_state() -> nat {
    2
}

/// The liquidation check of a position: its margin fees (funding fee plus
/// position fee on its whole size) against what is left of its collateral
/// after losses. With `raise`, a failed check is an error; without, it
/// yields the liquidation state and the fees to charge.
pub open spec fn validate_liquidation_spec(
    p: PositionV,
    is_long: bool,
    raise: bool,
    dctx: DeltaContextV,
    cumulative_funding_rate: nat,
) -> Result<(nat, nat), OmxError> {
    match delta_spec(p.size, p.average_price, is_long, p.last_increased_time, dctx) {
        Err(e) => Err(e),
        Ok((has_profit, delta)) => match funding_fee_spec(p.size, p.entry_funding_rate, cumulative_funding_rate) {
            Err(e) => Err(e),
            Ok(funding_fee) => match position_fee_spec(p.size) {
                Err(e) => Err(e),
                Ok(position_fee) => match add_spec(funding_fee, position_fee) {
                    Err(e) => Err(e),
                    Ok(margin_fees) => if !has_profit && p.collateral < delta {
                        if raise {
                            Err(OmxError::Vault(VaultError::LossesExceedCollateral))
                        } else {
                            Ok((liquidate_state(), margin_fees))
                        }
                    } else {
                        let remaining = if has_profit {
                            p.collateral
                        } else {
                            (p.collateral - delta) as nat
                        };
                        if remaining < margin_fees {
                            if raise {
                                Err(OmxError::Vault(VaultError::FeesExceedCollateral))
                            } else {
                                Ok((liquidate_state(), remaining))
                            }
                        } else {
                            match add_spec(margin_fees, liquidation_fee_usd_value()) {
                                Err(e) => Err(e),
                                Ok(with_liquidation_fee) => if remaining < with_liquidation_fee {
                                    if raise {
                                        Err(OmxError::Vault(VaultError::LiquidationFeesExceedCollateral))
                                    } else {
                                        Ok((liquidate_state(), margin_fees))
                                    }
                                } else {
                                    match mul_spec(remaining, max_leverage_value()) {
                                        Err(e) => Err(e),
                                        Ok(lhs) => match mul_spec(p.size, basis_points_divisor_value()) {
                                            Err(e) => Err(e),
                                            Ok(rhs) => if lhs < rhs {
                                                if raise {
                                                    Err(OmxError::Vault(VaultError::MaxLeverageExceeded))
                                                } else {
                                                    Ok((leverage_state(), margin_fees))
                                                }
                                            } else {
                                                Ok((liquidate_state(), margin_fees))
                                            },
                                        },
                                    }
                                },
                            }
                        }
                    },
                },
            },
        },
    }
}

/// The liquidation check of a position, given the position, the
/// index token's pricing context and the collateral token's cumulative funding rate.
pub fn validate_liquidation(
    position: Position,
    is_long: bool,
    raise: bool,
    dctx: DeltaContext,
    cumulative_funding_rate: U256,
) -> (r: Result<(U256, U256), OmxError>)
    ensures
        pair_v(r) == validate_liquidation_spec(position@, is_long, raise, dctx@, cumulative_funding_rate@),
{
    let (has_profit, delta) = get_delta(
        position.size,
        position.average_price,
        is_long,
        position.last_increased_time,
        dctx,
    )?;
    let margin_fees = get_funding_fee(position.size, position.entry_funding_rate, cumulative_funding_rate)?;
    let margin_fees = safe_add(margin_fees, get_position_fee(position.size)?)?;
    if !has_profit && u256_lt(position.collateral, delta) {
        if raise {
            return Err(OmxError::Vault(VaultError::LossesExceedCollateral));
        }
        return Ok((U256::from_u64(1), margin_fees));
    }
    let remaining_collateral = if has_profit {
        position.collateral
    } else {
        safe_sub(position.collateral, delta)?
    };
    if u256_lt(remaining_collateral, margin_fees) {
        if raise {
            return Err(OmxError::Vault(VaultError::FeesExceedCollateral));
        }
        return Ok((U256::from_u64(1), remaining_collateral));
    }
    if u256_lt(remaining_collateral, safe_add(margin_fees, liquidation_fee_usd())?) {
        if raise {
            return Err(OmxError::Vault(VaultError::LiquidationFeesExceedCollateral));
        }
        return Ok((U256::from_u64(1), margin_fees));
    }
    if u256_lt(safe_mul(remaining_collateral, max_leverage())?, safe_mul(position.size, basis_points_divisor())?) {
        if raise {
            return Err(OmxError::Vault(VaultError::MaxLeverageExceeded));
        }
        return Ok((U256::from_u64(2), margin_fees));
    }
    Ok((U256::from_u64(1), margin_fees))
}

/// What the liquidation check decides, stated on its own. The margin fees are
/// the funding fee plus the position fee on the whole size; the collateral
/// left is the collateral less any loss. Without raising:
/// - losses beyond the collateral, or a collateral left below the margin
///   fees or below the margin fees plus the 0.05 USD liquidation fee, give
///   state 1 (the position is seized);
/// - a collateral left that covers both but stands over the 50x maximum
///   leverage (`left * 500000 < size * 10000`) gives state 2 (the position
///   is closed by a decrease, so the trader gets the rest back); raising,
///   that is `MaxLeverageExceeded`;
/// - otherwise state 1 with the margin fees, and raising passes.
pub proof fn lemma_liquidation_state(p: PositionV, is_long: bool, dctx: DeltaContextV, cumulative_funding_rate: nat)
    requires
        delta_spec(p.size, p.average_price, is_long, p.last_increased_time, dctx) is Ok,
        funding_fee_spec(p.size, p.entry_funding_rate, cumulative_funding_rate) is Ok,
        position_fee_spec(p.size) is Ok,
        funding_fee_spec(p.size, p.entry_funding_rate, cumulative_funding_rate).unwrap() + position_fee_spec(
            p.size,
        ).unwrap() + 50000000000000000000000000000nat <= u256_max(),
        p.collateral * 500000 <= u256_max(),
        p.size * 10000 <= u256_max(),
    ensures
        ({
            let (has_profit, delta) = delta_spec(p.size, p.average_price, is_long, p.last_increased_time, dctx).unwrap();
            let fees = funding_fee_spec(p.size, p.entry_funding_rate, cumulative_funding_rate).unwrap()
                + position_fee_spec(p.size).unwrap();
            let left: int = if has_profit { p.collateral as int } else { p.collateral - delta };
            let quiet = validate_liquidation_spec(p, is_long, false, dctx, cumulative_funding_rate);
            let loud = validate_liquidation_spec(p, is_long, true, dctx, cumulative_funding_rate);
            &&& left < 0 ==> quiet == Ok::<(nat, nat), OmxError>((1, fees))
            &&& 0 <= left < fees ==> quiet == Ok::<(nat, nat), OmxError>((1, left as nat))
            &&& fees <= left < fees + 50000000000000000000000000000nat ==> quiet == Ok::<(nat, nat), OmxError>(
                (1, fees),
            )
            &&& left >= fees + 50000000000000000000000000000nat && left * 500000 < p.size * 10000 ==> {
                &&& quiet == Ok::<(nat, nat), OmxError>((2, fees))
                &&& loud == Err::<(nat, nat), OmxError>(OmxError::Vault(VaultError::MaxLeverageExceeded))
            }
            &&& left >= fees + 50000000000000000000000000000nat && left * 500000 >= p.size * 10000 ==> {
                &&& quiet == Ok::<(nat, nat), OmxError>((1, fees))
                &&& loud == Ok::<(nat, nat), OmxError>((1, fees))
            }
        }),
{
    let (has_profit, delta) = delta_spec(p.size, p.average_price, is_long, p.last_increased_time, dctx).unwrap();
    if has_profit || p.collateral >= delta {
        let left: nat = if has_profit { p.collateral } else { (p.collateral - delta) as nat };
        assert(left * 500000 <= p.collateral * 500000) by (nonlinear_arith)
            requires
                left <= p.collateral,
        ;
    }
}

// ---------------------------------------------------------------------------
// Settling a decrease: `reduce_collateral`.
// ---------------------------------------------------------------------------

/// The running state of a settlement: the position, the collateral token's
/// pool in the vault and the USD owed to the trader so far.
#[derive(Clone, Copy, Debug, PartialEq, Eq)]
pub struct Settlement {
    pub position: Position,
    pub pool: PoolLedger,
    pub usd_out: U256,
}

pub struct SettlementV {
    pub position: PositionV,
    pub pool: PoolLedgerV,
    pub usd_out: nat,
}

impl View for Settlement {
    type V = SettlementV;

    open spec fn view(&self) -> SettlementV {
        SettlementV { position: self.position@, pool: self.pool@, usd_out: self.usd_out@ }
    }
}

pub open spec fn stv(r: Result<Settlement, OmxError>) -> Result<SettlementV, OmxError> {
    match r {
        Ok(s) => Ok(s@),
        Err(e) => Err(e),
    }
}

/// A realised profit of `adjusted_delta` USD: it is owed to the trader, joins
/// the realised PnL, and for a short is paid out of the pool.
pub open spec fn settle_profit_spec(
    s: SettlementV,
    has_profit: bool,
    adjusted_delta: nat,
    is_long: bool,
    cctx: CollateralContextV,
) -> Result<SettlementV, OmxError> {
    if has_profit && adjusted_delta > 0 {
        match pnl_add_spec(s.position.realised_pnl, adjusted_delta) {
            Err(e) => Err(e),
            Ok(pnl) => {
                let position = PositionV { realised_pnl: pnl, ..s.position };
                if !is_long {
                    match usd_to_token_spec(adjusted_delta, cctx.price, cctx.decimals) {
                        Err(e) => Err(e),
                        Ok(tokens) => match decrease_pool_spec(s.pool, tokens) {
                            Err(e) => Err(e),
                            Ok(pool) => Ok(SettlementV { position, pool, usd_out: adjusted_delta }),
                        },
                    }
                } else {
                    Ok(SettlementV { position, pool: s.pool, usd_out: adjusted_delta })
                }
            },
        }
    } else {
        Ok(s)
    }
}

fn settle_profit(
    s: Settlement,
    has_profit: bool,
    adjusted_delta: U256,
    is_long: bool,
    cctx: CollateralContext,
) -> (r: Result<Settlement, OmxError>)
    ensures
        stv(r) == settle_profit_spec(s@, has_profit, adjusted_delta@, is_long, cctx@),
{
    if has_profit && u256_lt(U256::zero(), adjusted_delta) {
        let pnl = pnl_add(s.position.realised_pnl, adjusted_delta)?;
        let position = Position { realised_pnl: pnl, ..s.position };
        if !is_long {
            let tokens = usd_to_token(adjusted_delta, cctx.price, cctx.decimals)?;
            let pool = s.pool.decrease_pool_amount(tokens)?;
            Ok(Settlement { position, pool, usd_out: adjusted_delta })
        } else {
            Ok(Settlement { position, pool: s.pool, usd_out: adjusted_delta })
        }
    } else {
        Ok(s)
    }
}

/// A realised loss of `adjusted_delta` USD: it comes out of the collateral,
/// joins the realised PnL, and for a short goes into the pool.
pub open spec fn settle_loss_spec(
    s: SettlementV,
    has_profit: bool,
    adjusted_delta: nat,
    is_long: bool,
    cctx: CollateralContextV,
) -> Result<SettlementV, OmxError> {
    if !has_profit && adjusted_delta > 0 {
        match sub_spec(s.position.collateral, adjusted_delta) {
            Err(e) => Err(e),
            Ok(collateral) => match pnl_sub_spec(s.position.realised_pnl, adjusted_delta) {
                Err(e) => Err(e),
                Ok(pnl) => {
                    let position = PositionV { collateral, realised_pnl: pnl, ..s.position };
                    if !is_long {
                        match usd_to_token_spec(adjusted_delta, cctx.price, cctx.decimals) {
                            Err(e) => Err(e),
                            Ok(tokens) => match increase_pool_spec(s.pool, tokens) {
                                Err(e) => Err(e),
                                Ok(pool) => Ok(SettlementV { position, pool, usd_out: s.usd_out }),
                            },
                        }
                    } else {
                        Ok(SettlementV { position, ..s })
                    }
                },
            },
        }
    } else {
        Ok(s)
    }
}

fn settle_loss(
    s: Settlement,
    has_profit: bool,
    adjusted_delta: U256,
    is_long: bool,
    cctx: CollateralContext,
) -> (r: Result<Settlement, OmxError>)
    ensures
        stv(r) == settle_loss_spec(s@, has_profit, adjusted_delta@, is_long, cctx@),
{
    if !has_profit && u256_lt(U256::zero(), adjusted_delta) {
        let collateral = safe_sub(s.position.collateral, adjusted_delta)?;
        let pnl = pnl_sub(s.position.realised_pnl, adjusted_delta)?;
        let position = Position { collateral, realised_pnl: pnl, ..s.position };
        if !is_long {
            let tokens = usd_to_token(adjusted_delta, cctx.price, cctx.decimals)?;
            let pool = s.pool.increase_pool_amount(tokens)?;
            Ok(Settlement { position, pool, usd_out: s.usd_out })
        } else {
            Ok(Settlement { position, ..s })
        }
    } else {
        Ok(s)
    }
}

/// Withdrawing `collateral_delta` USD of collateral, and on a full close the
/// rest of it.
pub open spec fn settle_withdrawal_spec(s: SettlementV, collateral_delta: nat, size_delta: nat) -> Result<SettlementV, OmxError> {
    let step = if collateral_delta > 0 {
        match add_spec(s.usd_out, collateral_delta) {
            Err(e) => Err(e),
            Ok(usd_out) => match sub_spec(s.position.collateral, collateral_delta) {
                Err(e) => Err(e),
                Ok(collateral) => Ok(SettlementV { position: PositionV { collateral, ..s.position }, usd_out, ..s }),
            },
        }
    } else {
        Ok(s)
    };
    match step {
        Err(e) => Err(e),
        Ok(t) => if t.position.size == size_delta {
            match add_spec(t.usd_out, t.position.collateral) {
                Err(e) => Err(e),
                Ok(usd_out) => Ok(SettlementV { position: PositionV { collateral: 0, ..t.position }, usd_out, ..t }),
            }
        } else {
            Ok(t)
        },
    }
}

fn settle_withdrawal(s: Settlement, collateral_delta: U256, size_delta: U256) -> (r: Result<Settlement, OmxError>)
    ensures
        stv(r) == settle_withdrawal_spec(s@, collateral_delta@, size_delta@),
{
    let mut t = s;
    if u256_lt(U256::zero(), collateral_delta) {
        let usd_out = safe_add(t.usd_out, collateral_delta)?;
        let collateral = safe_sub(t.position.collateral, collateral_delta)?;
        t = Settlement { position: Position { collateral, ..t.position }, usd_out, ..t };
    }
    if u256_eq(t.position.size, size_delta) {
        let usd_out = safe_add(t.usd_out, t.position.collateral)?;
        t = Settlement { position: Position { collateral: U256::zero(), ..t.position }, usd_out, ..t };
    }
    Ok(t)
}

/// Deducting the fee: from the payout when it exceeds the fee, else from the
/// collateral (for a long also out of the pool, where the collateral sits).
/// Yields the settlement and the payout after the fee.
pub open spec fn settle_fee_spec(s: SettlementV, fee: nat, is_long: bool, cctx: CollateralContextV) -> Result<(SettlementV, nat), OmxError> {
    if s.usd_out > fee {
        match sub_spec(s.usd_out, fee) {
            Err(e) => Err(e),
            Ok(after) => Ok((s, after)),
        }
    } else {
        match sub_spec(s.position.collateral, fee) {
            Err(e) => Err(e),
            Ok(collateral) => {
                let t = SettlementV { position: PositionV { collateral, ..s.position }, ..s };
                if is_long {
                    match usd_to_token_spec(fee, cctx.price, cctx.decimals) {
                        Err(e) => Err(e),
                        Ok(fee_tokens) => match decrease_pool_spec(t.pool, fee_tokens) {
                            Err(e) => Err(e),
                            Ok(pool) => Ok((SettlementV { pool, ..t }, t.usd_out)),
                        },
                    }
                } else {
                    Ok((t, t.usd_out))
                }
            },
        }
    }
}

pub open spec fn sfv(r: Result<(Settlement, U256), OmxError>) -> Result<(SettlementV, nat), OmxError> {
    match r {
        Ok((s, a)) => Ok((s@, a@)),
        Err(e) => Err(e),
    }
}

fn settle_fee(s: Settlement, fee: U256, is_long: bool, cctx: CollateralContext) -> (r: Result<(Settlement, U256), OmxError>)
    ensures
        sfv(r) == settle_fee_spec(s@, fee@, is_long, cctx@),
{
    if u256_lt(fee, s.usd_out) {
        let after = safe_sub(s.usd_out, fee)?;
        Ok((s, after))
    } else {
        let collateral = safe_sub(s.position.collateral, fee)?;
        let t = Settlement { position: Position { collateral, ..s.position }, ..s };
        if is_long {
            let fee_tokens = usd_to_token(fee, cctx.price, cctx.decimals)?;
            let pool = t.pool.decrease_pool_amount(fee_tokens)?;
            Ok((Settlement { pool, ..t }, t.usd_out))
        } else {
            Ok((t, t.usd_out))
        }
    }
}

/// What `reduce_collateral` leaves behind.
#[derive(Clone, Copy, Debug, PartialEq, Eq)]
pub struct ReduceOutcome {
    /// The position after the settlement.
    pub position: Position,
    /// Whether it differs from the position before, so that it is written back.
    pub position_changed: bool,
    /// The collateral token's pool in the vault.
    pub pool: PoolLedger,
    /// The collateral token's fee reserve in the fee manager.
    pub fee_reserve: U256,
    /// The USD owed to the trader, before and after the fee.
    pub usd_out: U256,
    pub usd_out_after_fee: U256,
    /// The profit or loss realised, as logged.
    pub has_profit: bool,
    pub adjusted_delta: U256,
}

pub struct ReduceOutcomeV {
    pub position: PositionV,
    pub position_changed: bool,
    pub pool: PoolLedgerV,
    pub fee_reserve: nat,
    pub usd_out: nat,
    pub usd_out_after_fee: nat,
    pub has_profit: bool,
    pub adjusted_delta: nat,
}

impl View for ReduceOutcome {
    type V = ReduceOutcomeV;

    open spec fn view(&self) -> ReduceOutcomeV {
        ReduceOutcomeV {
            position: self.position@,
            position_changed: self.position_changed,
            pool: self.pool@,
            fee_reserve: self.fee_reserve@,
            usd_out: self.usd_out@,
            usd_out_after_fee: self.usd_out_after_fee@,
            has_profit: self.has_profit,
            adjusted_delta: self.adjusted_delta@,
        }
    }
}

pub open spec fn rov(r: Result<ReduceOutcome, OmxError>) -> Result<ReduceOutcomeV, OmxError> {
    match r {
        Ok(o) => Ok(o@),
        Err(e) => Err(e),
    }
}

/// The settlement of the profit or loss on `size_delta` USD of a position and
/// of the collateral withdrawn, after the margin fees are collected.
pub open spec fn reduce_collateral_spec(
    p: PositionV,
    pool: PoolLedgerV,
    fee_reserve: nat,
    collateral_delta: nat,
    size_delta: nat,
    is_long: bool,
    cctx: CollateralContextV,
    dctx: DeltaContextV,
) -> Result<ReduceOutcomeV, OmxError> {
    match collect_margin_fees_spec(fee_reserve, size_delta, p.size, p.entry_funding_rate, cctx) {
        Err(e) => Err(e),
        Ok(fees) => match delta_spec(p.size, p.average_price, is_long, p.last_increased_time, dctx) {
            Err(e) => Err(e),
            Ok((has_profit, delta)) => match mul_ratio_spec(size_delta, delta, p.size) {
                Err(e) => Err(e),
                Ok(adjusted) => {
                    let s0 = SettlementV { position: p, pool, usd_out: 0 };
                    match settle_profit_spec(s0, has_profit, adjusted, is_long, cctx) {
                        Err(e) => Err(e),
                        Ok(s1) => match settle_loss_spec(s1, has_profit, adjusted, is_long, cctx) {
                            Err(e) => Err(e),
                            Ok(s2) => match settle_withdrawal_spec(s2, collateral_delta, size_delta) {
                                Err(e) => Err(e),
                                Ok(s3) => match settle_fee_spec(s3, fees.fee_usd, is_long, cctx) {
                                    Err(e) => Err(e),
                                    Ok((s4, after)) => Ok(
                                        ReduceOutcomeV {
                                            position: s4.position,
                                            position_changed: s4.position != p,
                                            pool: s4.pool,
                                            fee_reserve: fees.fee_reserve,
                                            usd_out: s4.usd_out,
                                            usd_out_after_fee: after,
                                            has_profit,
                                            adjusted_delta: adjusted,
                                        },
                                    ),
                                },
                            },
                        },
                    }
                },
            },
        },
    }
}

/// Settling a position decrease, given the stored position, the
/// collateral token's pool and fee reserve, and both tokens' contexts. Only
/// the decrease manager may ask for it; any other `sender` is refused.
pub fn reduce_collateral(
    sender: Address,
    decrease_manager: Address,
    position: Position,
    pool: PoolLedger,
    fee_reserve: U256,
    collateral_delta: U256,
    size_delta: U256,
    is_long: bool,
    cctx: CollateralContext,
    dctx: DeltaContext,
) -> (r: Result<ReduceOutcome, OmxError>)
    ensures
        rov(r) == if sender != decrease_manager {
            Err(OmxError::Vault(VaultError::Forbidden))
        } else {
            reduce_collateral_spec(
                position@,
                pool@,
                fee_reserve@,
                collateral_delta@,
                size_delta@,
                is_long,
                cctx@,
                dctx@,
            )
        },
{
    if sender != decrease_manager {
        return Err(OmxError::Vault(VaultError::Forbidden));
    }
    settle_decrease(position, pool, fee_reserve, collateral_delta, size_delta, is_long, cctx, dctx)
}

/// The work of `reduce_collateral` once the caller is known to be the
/// decrease manager, as the decrease step reaches it.
pub(crate) fn settle_decrease(
    position: Position,
    pool: PoolLedger,
    fee_reserve: U256,
    collateral_delta: U256,
    size_delta: U256,
    is_long: bool,
    cctx: CollateralContext,
    dctx: DeltaContext,
) -> (r: Result<ReduceOutcome, OmxError>)
    ensures
        rov(r) == reduce_collateral_spec(
            position@,
            pool@,
            fee_reserve@,
            collateral_delta@,
            size_delta@,
            is_long,
            cctx@,
            dctx@,
        ),
{
    let fees = margin_fee_outcome(fee_reserve, size_delta, position.size, position.entry_funding_rate, cctx)?;
    let (has_profit, delta) = get_delta(
        position.size,
        position.average_price,
        is_long,
        position.last_increased_time,
        dctx,
    )?;
    let adjusted_delta = safe_mul_ratio(size_delta, delta, position.size)?;
    let s0 = Settlement { position, pool, usd_out: U256::zero() };
    let s1 = settle_profit(s0, has_profit, adjusted_delta, is_long, cctx)?;
    let s2 = settle_loss(s1, has_profit, adjusted_delta, is_long, cctx)?;
    let s3 = settle_withdrawal(s2, collateral_delta, size_delta)?;
    let (s4, after) = settle_fee(s3, fees.fee_usd, is_long, cctx)?;
    let changed = !s4.position.same_values(&position);
    Ok(
        ReduceOutcome {
            position: s4.position,
            position_changed: changed,
            pool: s4.pool,
            fee_reserve: fees.fee_reserve,
            usd_out: s4.usd_out,
            usd_out_after_fee: after,
            has_profit,
            adjusted_delta,
        },
    )
}

/// Settling a decrease leaves the position's size as it was, never adds to
/// its collateral, and keeps the pool's invariant: reserves within the pool, the pool within the tokens held.
pub proof fn lemma_settlement_keeps_size_and_pool(
    p: PositionV,
    pool: PoolLedgerV,
    fee_reserve: nat,
    collateral_delta: nat,
    size_delta: nat,
    is_long: bool,
    cctx: CollateralContextV,
    dctx: DeltaContextV,
)
    requires
        reduce_collateral_spec(p, pool, fee_reserve, collateral_delta, size_delta, is_long, cctx, dctx) is Ok,
    ensures
        ({
            let red = reduce_collateral_spec(
                p,
                pool,
                fee_reserve,
                collateral_delta,
                size_delta,
                is_long,
                cctx,
                dctx,
            ).unwrap();
            &&& red.position.size == p.size
            &&& red.position.collateral <= p.collateral
            &&& red.pool.balance == pool.balance
            &&& pool_ledger_inv(pool) ==> pool_ledger_inv(red.pool)
        }),
{
    let fees = collect_margin_fees_spec(fee_reserve, size_delta, p.size, p.entry_funding_rate, cctx).unwrap();
    let (has_profit, delta) = delta_spec(p.size, p.average_price, is_long, p.last_increased_time, dctx).unwrap();
    let adjusted = mul_ratio_spec(size_delta, delta, p.size).unwrap();
    let s0 = SettlementV { position: p, pool, usd_out: 0 };
    let s1 = settle_profit_spec(s0, has_profit, adjusted, is_long, cctx).unwrap();
    let s2 = settle_loss_spec(s1, has_profit, adjusted, is_long, cctx).unwrap();
    let s3 = settle_withdrawal_spec(s2, collateral_delta, size_delta).unwrap();
    if pool_ledger_inv(pool) {
        if has_profit && adjusted > 0 && !is_long {
            let tokens = usd_to_token_spec(adjusted, cctx.price, cctx.decimals).unwrap();
            lemma_pool_steps_keep_invariant(pool, tokens);
        }
        assert(pool_ledger_inv(s1.pool));
        if !has_profit && adjusted > 0 && !is_long {
            let tokens = usd_to_token_spec(adjusted, cctx.price, cctx.decimals).unwrap();
            lemma_pool_steps_keep_invariant(s1.pool, tokens);
        }
        assert(pool_ledger_inv(s3.pool));
        if !(s3.usd_out > fees.fee_usd) && is_long {
            let fee_tokens = usd_to_token_spec(fees.fee_usd, cctx.price, cctx.decimals).unwrap();
            lemma_pool_steps_keep_invariant(s3.pool, fee_tokens);
        }
    }
}

} // verus!
