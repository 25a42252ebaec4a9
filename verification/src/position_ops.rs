//! Opening, growing, shrinking, closing and liquidating a position, across
//! the vault, the fee manager, the funding rate manager and the positions
//! manager.

use vstd::prelude::*;
use crate::address::Address;
use crate::constants::{liquidation_fee_usd, liquidation_fee_usd_value};
use crate::errors::{OmxError, VaultError};
use crate::fee_manager::{margin_fee_outcome, collect_margin_fees_spec, CollateralContext, CollateralContextV};
use crate::funding::{update_cumulative_funding_rate, update_funding_spec, FundingInputs, FundingState, FundingStateV};
use crate::position_utils::{
    get_next_average_price, lemma_settlement_keeps_size_and_pool, next_average_price_spec,
    settle_decrease, reduce_collateral_spec, validate_liquidation, validate_liquidation_spec,
};
use crate::positions::{
    grow_global_short, after_short_increase_spec, shrink_global_short_size,
    decrease_global_short_size_spec, empty_position, move_guaranteed_usd, validate_position,
    validate_position_spec, GlobalShort, GlobalShortV, Position, PositionV,
};
use crate::safe_math::{
    add_int_spec, add_spec, mul_ratio_spec, safe_add, safe_mul_ratio, safe_sub, safe_sub_to_int,
    sub_spec, sub_to_int_spec,
};
use crate::uint::{u256_eq, u256_lt, U256};
use crate::vault::{
    decrease_pool_spec, decrease_reserved_spec, increase_pool_spec, increase_reserved_spec,
    lemma_pool_steps_keep_invariant, pool_ledger_inv, transfer_in_spec, validate, PoolLedger,
    PoolLedgerV,
};
use crate::vault_utils::{
    token_to_usd, token_to_usd_spec, usd_to_token, usd_to_token_spec, validate_tokens,
    validate_tokens_spec, DeltaContext, DeltaContextV, TokenFlags,
};

verus! {

/// A token's price and decimals, as the vault reports them.
#[derive(Clone, Copy, Debug, PartialEq, Eq)]
pub struct TokenPrice {
    pub price: U256,
    pub decimals: u8,
}

pub struct TokenPriceV {
    pub price: nat,
    pub decimals: u8,
}

impl View for TokenPrice {
    type V = TokenPriceV;

    open spec fn view(&self) -> TokenPriceV {
        TokenPriceV { price: self.price@, decimals: self.decimals }
    }
}

/// The collateral context of a token at a given cumulative funding rate.
pub open spec fn cctx_of(t: TokenPriceV, cumulative_funding_rate: nat) -> CollateralContextV {
    CollateralContextV { price: t.price, decimals: t.decimals, cumulative_funding_rate }
}

/// Everything that one position's operations read and write, across the
/// contracts: the position itself, the collateral token's pool in the vault
/// and fee reserve in the fee manager, the collateral token's guaranteed USD
/// and the index token's global short figures in the positions manager.
#[derive(Clone, Copy, Debug, PartialEq, Eq)]
pub struct PositionBook {
    pub position: Position,
    pub pool: PoolLedger,
    pub fee_reserve: U256,
    pub guaranteed_usd: U256,
    pub global_short: GlobalShort,
}

pub struct PositionBookV {
    pub position: PositionV,
    pub pool: PoolLedgerV,
    pub fee_reserve: nat,
    pub guaranteed_usd: nat,
    pub global_short: GlobalShortV,
}

impl View for PositionBook {
    type V = PositionBookV;

    open spec fn view(&self) -> PositionBookV {
        PositionBookV {
            position: self.position@,
            pool: self.pool@,
            fee_reserve: self.fee_reserve@,
            guaranteed_usd: self.guaranteed_usd@,
            global_short: self.global_short@,
        }
    }
}

// ---------------------------------------------------------------------------
// Decrease.
// ---------------------------------------------------------------------------

/// The outcome of a decrease: the book afterwards, the USD owed before and
/// after fees, and the collateral tokens sent to the receiver.
#[derive(Clone, Copy, Debug, PartialEq, Eq)]
pub struct DecreaseOutcome {
    pub book: PositionBook,
    pub usd_out: U256,
    pub usd_out_after_fee: U256,
    pub amount_out: U256,
}

pub struct DecreaseOutcomeV {
    pub book: PositionBookV,
    pub usd_out: nat,
    pub usd_out_after_fee: nat,
    pub amount_out: nat,
}

impl View for DecreaseOutcome {
    type V = DecreaseOutcomeV;

    open spec fn view(&self) -> DecreaseOutcomeV {
        DecreaseOutcomeV {
            book: self.book@,
            usd_out: self.usd_out@,
            usd_out_after_fee: self.usd_out_after_fee@,
            amount_out: self.amount_out@,
        }
    }
}

pub open spec fn dov(r: Result<DecreaseOutcome, OmxError>) -> Result<DecreaseOutcomeV, OmxError> {
    match r {
        Ok(o) => Ok(o@),
        Err(e) => Err(e),
    }
}

/// The first step of a decrease: the checks on the position, and the release
/// of the reserve in proportion to the size removed. Yields the position and
/// the pool with the released reserve.
pub open spec fn decrease_reserve_spec(
    p: PositionV,
    pool: PoolLedgerV,
    collateral_delta: nat,
    size_delta: nat,
) -> Result<(PositionV, PoolLedgerV), OmxError> {
    if p.size == 0 {
        Err(OmxError::Vault(VaultError::ZeroSize))
    } else if p.size < size_delta {
        Err(OmxError::Vault(VaultError::SizeLessThenDelta))
    } else if p.collateral < collateral_delta {
        Err(OmxError::Vault(VaultError::CollateralLessThenDelta))
    } else {
        match mul_ratio_spec(p.reserve_amount, size_delta, p.size) {
            Err(e) => Err(e),
            Ok(reserve_delta) => match sub_spec(p.reserve_amount, reserve_delta) {
                Err(e) => Err(e),
                Ok(reserve) => match decrease_reserved_spec(pool, reserve_delta) {
                    Err(e) => Err(e),
                    Ok(pool1) => Ok((PositionV { reserve_amount: reserve, ..p }, pool1)),
                },
            },
        }
    }
}

/// After the settlement: a partial decrease shrinks the size, restarts the
/// funding clock and must leave a valid, unliquidatable position; a full one
/// empties it. For longs the guaranteed USD moves by the change of
/// `size - collateral`. Yields the position and the guaranteed USD.
pub open spec fn decrease_finish_spec(
    settled: PositionV,
    collateral_before: nat,
    guaranteed_usd: nat,
    size_delta: nat,
    is_long: bool,
    usd_out: nat,
    usd_out_after_fee: nat,
    cumulative_funding_rate: nat,
    dctx: DeltaContextV,
) -> Result<(PositionV, nat), OmxError> {
    if settled.size != size_delta {
        match sub_spec(settled.size, size_delta) {
            Err(e) => Err(e),
            Ok(size) => {
                let p = PositionV { entry_funding_rate: cumulative_funding_rate, size, ..settled };
                match validate_position_spec(p.size, p.collateral) {
                    Err(e) => Err(e),
                    Ok(_) => match validate_liquidation_spec(p, is_long, true, dctx, cumulative_funding_rate) {
                        Err(e) => Err(e),
                        Ok(_) => {
                            let g = if is_long {
                                match sub_spec(collateral_before, p.collateral) {
                                    Err(e) => Err(e),
                                    Ok(released) => match sub_to_int_spec(released, size_delta) {
                                        Err(e) => Err(e),
                                        Ok(v) => add_int_spec(guaranteed_usd, v),
                                    },
                                }
                            } else {
                                Ok(guaranteed_usd)
                            };
                            match g {
                                Err(e) => Err(e),
                                Ok(g1) => match sub_spec(usd_out, usd_out_after_fee) {
                                    Err(e) => Err(e),
                                    Ok(_) => Ok((p, g1)),
                                },
                            }
                        },
                    },
                }
            },
        }
    } else {
        let g = if is_long {
            match sub_to_int_spec(collateral_before, size_delta) {
                Err(e) => Err(e),
                Ok(v) => add_int_spec(guaranteed_usd, v),
            }
        } else {
            Ok(guaranteed_usd)
        };
        match g {
            Err(e) => Err(e),
            Ok(g1) => match sub_spec(usd_out, usd_out_after_fee) {
                Err(e) => Err(e),
                Ok(_) => Ok((empty_position(), g1)),
            },
        }
    }
}

/// The payout of a decrease: for longs the USD owed leaves the pool; the
/// tokens worth the USD owed after fees go to the receiver. Yields the pool
/// and the tokens sent.
pub open spec fn decrease_payout_spec(
    pool: PoolLedgerV,
    usd_out: nat,
    usd_out_after_fee: nat,
    is_long: bool,
    collateral: TokenPriceV,
) -> Result<(PoolLedgerV, nat), OmxError> {
    if usd_out > 0 {
        let p1 = if is_long {
            match usd_to_token_spec(usd_out, collateral.price, collateral.decimals) {
                Err(e) => Err(e),
                Ok(tokens) => decrease_pool_spec(pool, tokens),
            }
        } else {
            Ok(pool)
        };
        match p1 {
            Err(e) => Err(e),
            Ok(pool1) => match usd_to_token_spec(usd_out_after_fee, collateral.price, collateral.decimals) {
                Err(e) => Err(e),
                Ok(amount_out) => Ok((pool1, amount_out)),
            },
        }
    } else {
        Ok((pool, 0))
    }
}

/// Decreasing a position by `size_delta` USD and withdrawing
/// `collateral_delta` USD of collateral.
pub open spec fn decrease_position_spec(
    initialized: bool,
    book: PositionBookV,
    cumulative_funding_rate: nat,
    collateral_delta: nat,
    size_delta: nat,
    is_long: bool,
    collateral: TokenPriceV,
    dctx: DeltaContextV,
) -> Result<DecreaseOutcomeV, OmxError> {
    let cctx = cctx_of(collateral, cumulative_funding_rate);
    if !initialized {
        Err(OmxError::Vault(VaultError::NotInitialized))
    } else {
        match decrease_reserve_spec(book.position, book.pool, collateral_delta, size_delta) {
            Err(e) => Err(e),
            Ok((p1, pool1)) => match reduce_collateral_spec(
                p1,
                pool1,
                book.fee_reserve,
                collateral_delta,
                size_delta,
                is_long,
                cctx,
                dctx,
            ) {
                Err(e) => Err(e),
                Ok(red) => match decrease_finish_spec(
                    red.position,
                    book.position.collateral,
                    book.guaranteed_usd,
                    size_delta,
                    is_long,
                    red.usd_out,
                    red.usd_out_after_fee,
                    cumulative_funding_rate,
                    dctx,
                ) {
                    Err(e) => Err(e),
                    Ok((p3, g)) => {
                        let gs = if is_long {
                            book.global_short
                        } else {
                            GlobalShortV {
                                size: decrease_global_short_size_spec(book.global_short.size, size_delta),
                                ..book.global_short
                            }
                        };
                        match decrease_payout_spec(red.pool, red.usd_out, red.usd_out_after_fee, is_long, collateral) {
                            Err(e) => Err(e),
                            Ok((pool4, amount_out)) => Ok(
                                DecreaseOutcomeV {
                                    book: PositionBookV {
                                        position: p3,
                                        pool: pool4,
                                        fee_reserve: red.fee_reserve,
                                        guaranteed_usd: g,
                                        global_short: gs,
                                    },
                                    usd_out: red.usd_out,
                                    usd_out_after_fee: red.usd_out_after_fee,
                                    amount_out,
                                },
                            ),
                        }
                    },
                },
            },
        }
    }
}

pub open spec fn ppv(r: Result<(Position, PoolLedger), OmxError>) -> Result<(PositionV, PoolLedgerV), OmxError> {
    match r {
        Ok((p, l)) => Ok((p@, l@)),
        Err(e) => Err(e),
    }
}

fn decrease_reserve(
    p: Position,
    pool: PoolLedger,
    collateral_delta: U256,
    size_delta: U256,
) -> (r: Result<(Position, PoolLedger), OmxError>)
    ensures
        ppv(r) == decrease_reserve_spec(p@, pool@, collateral_delta@, size_delta@),
{
    validate(u256_lt(U256::zero(), p.size), VaultError::ZeroSize)?;
    validate(!u256_lt(p.size, size_delta), VaultError::SizeLessThenDelta)?;
    validate(!u256_lt(p.collateral, collateral_delta), VaultError::CollateralLessThenDelta)?;
    let reserve_delta = safe_mul_ratio(p.reserve_amount, size_delta, p.size)?;
    let reserve_amount = safe_sub(p.reserve_amount, reserve_delta)?;
    let pool1 = pool.decrease_reserved_amount(reserve_delta)?;
    Ok((Position { reserve_amount, ..p }, pool1))
}

pub open spec fn pgv(r: Result<(Position, U256), OmxError>) -> Result<(PositionV, nat), OmxError> {
    match r {
        Ok((p, g)) => Ok((p@, g@)),
        Err(e) => Err(e),
    }
}

fn decrease_finish(
    settled: Position,
    collateral_before: U256,
    guaranteed_usd: U256,
    size_delta: U256,
    is_long: bool,
    usd_out: U256,
    usd_out_after_fee: U256,
    cumulative_funding_rate: U256,
    dctx: DeltaContext,
) -> (r: Result<(Position, U256), OmxError>)
    ensures
        pgv(r) == decrease_finish_spec(
            settled@,
            collateral_before@,
            guaranteed_usd@,
            size_delta@,
            is_long,
            usd_out@,
            usd_out_after_fee@,
            cumulative_funding_rate@,
            dctx@,
        ),
{
    if !u256_eq(settled.size, size_delta) {
        let size = safe_sub(settled.size, size_delta)?;
        let p = Position { entry_funding_rate: cumulative_funding_rate, size, ..settled };
        validate_position(p.size, p.collateral)?;
        validate_liquidation(p, is_long, true, dctx, cumulative_funding_rate)?;
        let mut g = guaranteed_usd;
        if is_long {
            let value = safe_sub_to_int(safe_sub(collateral_before, p.collateral)?, size_delta)?;
            g = move_guaranteed_usd(guaranteed_usd, value)?;
        }
        safe_sub(usd_out, usd_out_after_fee)?;
        Ok((p, g))
    } else {
        let mut g = guaranteed_usd;
        if is_long {
            g = move_guaranteed_usd(guaranteed_usd, safe_sub_to_int(collateral_before, size_delta)?)?;
        }
        safe_sub(usd_out, usd_out_after_fee)?;
        Ok((Position::empty(), g))
    }
}

pub open spec fn lav(r: Result<(PoolLedger, U256), OmxError>) -> Result<(PoolLedgerV, nat), OmxError> {
    match r {
        Ok((l, a)) => Ok((l@, a@)),
        Err(e) => Err(e),
    }
}

fn decrease_payout(
    pool: PoolLedger,
    usd_out: U256,
    usd_out_after_fee: U256,
    is_long: bool,
    collateral: TokenPrice,
) -> (r: Result<(PoolLedger, U256), OmxError>)
    ensures
        lav(r) == decrease_payout_spec(pool@, usd_out@, usd_out_after_fee@, is_long, collateral@),
{
    if u256_lt(U256::zero(), usd_out) {
        let mut pool1 = pool;
        if is_long {
            pool1 = pool.decrease_pool_amount(usd_to_token(usd_out, collateral.price, collateral.decimals)?)?;
        }
        let amount_out = usd_to_token(usd_out_after_fee, collateral.price, collateral.decimals)?;
        Ok((pool1, amount_out))
    } else {
        Ok((pool, U256::zero()))
    }
}

/// Decreasing a position, given the book of the
/// position, the collateral token's cumulative funding rate and price, and
/// the index token's pricing context.
pub fn decrease_position(
    initialized: bool,
    book: PositionBook,
    cumulative_funding_rate: U256,
    collateral_delta: U256,
    size_delta: U256,
    is_long: bool,
    collateral: TokenPrice,
    dctx: DeltaContext,
) -> (r: Result<DecreaseOutcome, OmxError>)
    ensures
        dov(r) == decrease_position_spec(
            initialized,
            book@,
            cumulative_funding_rate@,
            collateral_delta@,
            size_delta@,
            is_long,
            collateral@,
            dctx@,
        ),
{
    validate(initialized, VaultError::NotInitialized)?;
    let cctx = CollateralContext {
        price: collateral.price,
        decimals: collateral.decimals,
        cumulative_funding_rate,
    };
    let (p1, pool1) = decrease_reserve(book.position, book.pool, collateral_delta, size_delta)?;
    let red = settle_decrease(p1, pool1, book.fee_reserve, collateral_delta, size_delta, is_long, cctx, dctx)?;
    let (p3, g) = decrease_finish(
        red.position,
        book.position.collateral,
        book.guaranteed_usd,
        size_delta,
        is_long,
        red.usd_out,
        red.usd_out_after_fee,
        cumulative_funding_rate,
        dctx,
    )?;
    let mut gs = book.global_short;
    if !is_long {
        gs = GlobalShort { size: shrink_global_short_size(book.global_short.size, size_delta), ..book.global_short };
    }
    let (pool4, amount_out) = decrease_payout(red.pool, red.usd_out, red.usd_out_after_fee, is_long, collateral)?;
    Ok(
        DecreaseOutcome {
            book: PositionBook {
                position: p3,
                pool: pool4,
                fee_reserve: red.fee_reserve,
                guaranteed_usd: g,
                global_short: gs,
            },
            usd_out: red.usd_out,
            usd_out_after_fee: red.usd_out_after_fee,
            amount_out,
        },
    )
}


// ---------------------------------------------------------------------------
// Increase.
// ---------------------------------------------------------------------------

/// The outcome of an increase: the book and the collateral token's funding state.
#[derive(Clone, Copy, Debug, PartialEq, Eq)]
pub struct IncreaseOutcome {
    pub book: PositionBook,
    pub funding: FundingState,
    /// The margin fee charged, in USD.
    pub fee: U256,
    /// The collateral deposited, in USD.
    pub collateral_delta_usd: U256,
}

pub struct IncreaseOutcomeV {
    pub book: PositionBookV,
    pub funding: FundingStateV,
    pub fee: nat,
    pub collateral_delta_usd: nat,
}

impl View for IncreaseOutcome {
    type V = IncreaseOutcomeV;

    open spec fn view(&self) -> IncreaseOutcomeV {
        IncreaseOutcomeV {
            book: self.book@,
            funding: self.funding@,
            fee: self.fee@,
            collateral_delta_usd: self.collateral_delta_usd@,
        }
    }
}

pub open spec fn iov(r: Result<IncreaseOutcome, OmxError>) -> Result<IncreaseOutcomeV, OmxError> {
    match r {
        Ok(o) => Ok(o@),
        Err(e) => Err(e),
    }
}

/// What an increase reads of the two tokens and of the chain.
#[derive(Clone, Copy, Debug, PartialEq, Eq)]
pub struct IncreaseRequest {
    pub collateral_token: Address,
    pub index_token: Address,
    pub size_delta: U256,
    pub is_long: bool,
    pub collateral_flags: TokenFlags,
    pub index_flags: TokenFlags,
    pub collateral: TokenPrice,
}

/// The average price of a position about to grow by `size_delta` USD: it is
/// first set to the current price, then moved as `get_next_average_price`
/// says when both the position and the increase are non-zero.
pub open spec fn increase_average_price_spec(p: PositionV, size_delta: nat, is_long: bool, dctx: DeltaContextV) -> Result<PositionV, OmxError> {
    let p1 = PositionV { average_price: dctx.price, ..p };
    if p1.size > 0 && size_delta > 0 {
        match next_average_price_spec(p1.size, p1.average_price, is_long, dctx.price, size_delta, p1.last_increased_time, dctx) {
            Err(e) => Err(e),
            Ok(avg) => Ok(PositionV { average_price: avg, ..p1 }),
        }
    } else {
        Ok(p1)
    }
}

/// The growth of the position: the margin fee is collected, the deposited
/// collateral (in USD) joins its collateral less the fee, its funding clock
/// restarts and its size grows; it must then be valid and not liquidatable.
/// Yields the position, the pool, the fee reserve, the fee and the deposit in USD.
pub open spec fn increase_grow_spec(
    p: PositionV,
    pool: PoolLedgerV,
    fee_reserve: nat,
    size_delta: nat,
    is_long: bool,
    cctx: CollateralContextV,
    dctx: DeltaContextV,
    now: nat,
) -> Result<(PositionV, PoolLedgerV, nat, nat, nat), OmxError> {
    match collect_margin_fees_spec(fee_reserve, size_delta, p.size, p.entry_funding_rate, cctx) {
        Err(e) => Err(e),
        Ok(fees) => match transfer_in_spec(pool) {
            Err(e) => Err(e),
            Ok((pool1, deposit)) => match token_to_usd_spec(deposit, cctx.price, cctx.decimals) {
                Err(e) => Err(e),
                Ok(deposit_usd) => match add_spec(p.collateral, deposit_usd) {
                    Err(e) => Err(e),
                    Ok(c) => if c < fees.fee_usd {
                        Err(OmxError::Vault(VaultError::CollateralLessThenFees))
                    } else {
                        match add_spec(p.size, size_delta) {
                            Err(e) => Err(e),
                            Ok(size) => if size == 0 {
                                Err(OmxError::Vault(VaultError::ZeroSize))
                            } else {
                                let p1 = PositionV {
                                    collateral: (c - fees.fee_usd) as nat,
                                    entry_funding_rate: cctx.cumulative_funding_rate,
                                    size,
                                    last_increased_time: now,
                                    ..p
                                };
                                match validate_position_spec(p1.size, p1.collateral) {
                                    Err(e) => Err(e),
                                    Ok(_) => match validate_liquidation_spec(p1, is_long, true, dctx, cctx.cumulative_funding_rate) {
                                        Err(e) => Err(e),
                                        Ok(_) => Ok((p1, pool1, fees.fee_reserve, fees.fee_usd, deposit_usd)),
                                    },
                                }
                            },
                        }
                    },
                },
            },
        },
    }
}

/// The reserve for the position's profits: tokens worth `size_delta` USD are
/// reserved; for longs the deposit joins the pool, less the fee, and the
/// guaranteed USD grows by the change of `size - collateral`; for shorts the
/// global short figures move. Yields the position, the pool, the guaranteed
/// USD and the global short figures.
pub open spec fn increase_reserve_spec(
    p: PositionV,
    pool: PoolLedgerV,
    guaranteed_usd: nat,
    global_short: GlobalShortV,
    size_delta: nat,
    is_long: bool,
    deposit: nat,
    fee: nat,
    deposit_usd: nat,
    cctx: CollateralContextV,
    price: nat,
) -> Result<(PositionV, PoolLedgerV, nat, GlobalShortV), OmxError> {
    match usd_to_token_spec(size_delta, cctx.price, cctx.decimals) {
        Err(e) => Err(e),
        Ok(reserve_delta) => match add_spec(p.reserve_amount, reserve_delta) {
            Err(e) => Err(e),
            Ok(reserve) => match increase_reserved_spec(pool, reserve_delta) {
                Err(e) => Err(e),
                Ok(pool1) => {
                    let p1 = PositionV { reserve_amount: reserve, ..p };
                    if is_long {
                        match add_spec(size_delta, fee) {
                            Err(e) => Err(e),
                            Ok(grown) => match sub_to_int_spec(grown, deposit_usd) {
                                Err(e) => Err(e),
                                Ok(v) => match add_int_spec(guaranteed_usd, v) {
                                    Err(e) => Err(e),
                                    Ok(g) => match increase_pool_spec(pool1, deposit) {
                                        Err(e) => Err(e),
                                        Ok(pool2) => match usd_to_token_spec(fee, cctx.price, cctx.decimals) {
                                            Err(e) => Err(e),
                                            Ok(fee_tokens) => match decrease_pool_spec(pool2, fee_tokens) {
                                                Err(e) => Err(e),
                                                Ok(pool3) => Ok((p1, pool3, g, global_short)),
                                            },
                                        },
                                    },
                                },
                            },
                        }
                    } else {
                        match after_short_increase_spec(global_short, price, size_delta) {
                            Err(e) => Err(e),
                            Ok(gs) => Ok((p1, pool1, guaranteed_usd, gs)),
                        }
                    }
                },
            },
        },
    }
}

/// Increasing a position by `size_delta` USD with the collateral deposited in
/// the vault since its last recorded balance.
pub open spec fn increase_position_spec(
    initialized: bool,
    book: PositionBookV,
    funding_initialized: bool,
    funding: FundingStateV,
    collateral_token: Address,
    index_token: Address,
    size_delta: nat,
    is_long: bool,
    collateral_flags: TokenFlags,
    index_flags: TokenFlags,
    collateral: TokenPriceV,
    dctx: DeltaContextV,
) -> Result<IncreaseOutcomeV, OmxError> {
    if !initialized {
        Err(OmxError::Vault(VaultError::NotInitialized))
    } else {
        match validate_tokens_spec(collateral_token, index_token, is_long, collateral_flags, index_flags) {
            Err(e) => Err(e),
            Ok(_) => match update_funding_spec(
                funding_initialized,
                funding,
                dctx.now,
                book.pool.pool_amount,
                book.pool.reserved_amount,
                collateral_flags.is_stable,
            ) {
                Err(e) => Err(e),
                Ok(f) => {
                    let cctx = cctx_of(collateral, f.cumulative_funding_rate);
                    match increase_average_price_spec(book.position, size_delta, is_long, dctx) {
                        Err(e) => Err(e),
                        Ok(p1) => match increase_grow_spec(p1, book.pool, book.fee_reserve, size_delta, is_long, cctx, dctx, dctx.now) {
                            Err(e) => Err(e),
                            Ok((p2, pool2, fee_reserve, fee, deposit_usd)) => match increase_reserve_spec(
                                p2,
                                pool2,
                                book.guaranteed_usd,
                                book.global_short,
                                size_delta,
                                is_long,
                                (pool2.token_balance - book.pool.token_balance) as nat,
                                fee,
                                deposit_usd,
                                cctx,
                                dctx.price,
                            ) {
                                Err(e) => Err(e),
                                Ok((p3, pool3, g, gs)) => Ok(
                                    IncreaseOutcomeV {
                                        book: PositionBookV {
                                            position: p3,
                                            pool: pool3,
                                            fee_reserve,
                                            guaranteed_usd: g,
                                            global_short: gs,
                                        },
                                        funding: f,
                                        fee,
                                        collateral_delta_usd: deposit_usd,
                                    },
                                ),
                            },
                        },
                    }
                },
            },
        }
    }
}

pub open spec fn pv1(r: Result<Position, OmxError>) -> Result<PositionV, OmxError> {
    match r {
        Ok(p) => Ok(p@),
        Err(e) => Err(e),
    }
}

fn increase_average_price(p: Position, size_delta: U256, is_long: bool, dctx: DeltaContext) -> (r: Result<Position, OmxError>)
    ensures
        pv1(r) == increase_average_price_spec(p@, size_delta@, is_long, dctx@),
{
    let p1 = Position { average_price: dctx.price, ..p };
    if u256_lt(U256::zero(), p1.size) && u256_lt(U256::zero(), size_delta) {
        let avg = get_next_average_price(
            p1.size,
            p1.average_price,
            is_long,
            dctx.price,
            size_delta,
            p1.last_increased_time,
            dctx,
        )?;
        Ok(Position { average_price: avg, ..p1 })
    } else {
        Ok(p1)
    }
}

/// The position, pool, fee reserve, fee, deposit (tokens) and deposit (USD) of the growth step.
pub struct Growth {
    pub position: Position,
    pub pool: PoolLedger,
    pub fee_reserve: U256,
    pub fee: U256,
    pub deposit: U256,
    pub deposit_usd: U256,
}

pub open spec fn growth_v(r: Result<Growth, OmxError>) -> Result<(PositionV, PoolLedgerV, nat, nat, nat), OmxError> {
    match r {
        Ok(g) => Ok((g.position@, g.pool@, g.fee_reserve@, g.fee@, g.deposit_usd@)),
        Err(e) => Err(e),
    }
}

fn increase_grow(
    p: Position,
    pool: PoolLedger,
    fee_reserve: U256,
    size_delta: U256,
    is_long: bool,
    cctx: CollateralContext,
    dctx: DeltaContext,
) -> (r: Result<Growth, OmxError>)
    ensures
        growth_v(r) == increase_grow_spec(p@, pool@, fee_reserve@, size_delta@, is_long, cctx@, dctx@, dctx.now as nat),
        r matches Ok(g) ==> g.deposit@ == g.pool.token_balance@ - pool.token_balance@
            && g.pool.token_balance@ >= pool.token_balance@,
{
    let fees = margin_fee_outcome(fee_reserve, size_delta, p.size, p.entry_funding_rate, cctx)?;
    let (pool1, deposit) = pool.transfer_in()?;
    let deposit_usd = token_to_usd(deposit, cctx.price, cctx.decimals)?;
    let c = safe_add(p.collateral, deposit_usd)?;
    let collateral = match safe_sub(c, fees.fee_usd) {
        Ok(v) => v,
        Err(_) => return Err(OmxError::Vault(VaultError::CollateralLessThenFees)),
    };
    let size = safe_add(p.size, size_delta)?;
    validate(u256_lt(U256::zero(), size), VaultError::ZeroSize)?;
    let p1 = Position {
        collateral,
        entry_funding_rate: cctx.cumulative_funding_rate,
        size,
        last_increased_time: U256::from_u64(dctx.now),
        ..p
    };
    validate_position(p1.size, p1.collateral)?;
    validate_liquidation(p1, is_long, true, dctx, cctx.cumulative_funding_rate)?;
    Ok(Growth { position: p1, pool: pool1, fee_reserve: fees.fee_reserve, fee: fees.fee_usd, deposit, deposit_usd })
}

pub struct Reserved {
    pub position: Position,
    pub pool: PoolLedger,
    pub guaranteed_usd: U256,
    pub global_short: GlobalShort,
}

pub open spec fn reserved_v(r: Result<Reserved, OmxError>) -> Result<(PositionV, PoolLedgerV, nat, GlobalShortV), OmxError> {
    match r {
        Ok(x) => Ok((x.position@, x.pool@, x.guaranteed_usd@, x.global_short@)),
        Err(e) => Err(e),
    }
}

fn increase_reserve(
    p: Position,
    pool: PoolLedger,
    guaranteed_usd: U256,
    global_short: GlobalShort,
    size_delta: U256,
    is_long: bool,
    deposit: U256,
    fee: U256,
    deposit_usd: U256,
    cctx: CollateralContext,
    price: U256,
) -> (r: Result<Reserved, OmxError>)
    ensures
        reserved_v(r) == increase_reserve_spec(
            p@,
            pool@,
            guaranteed_usd@,
            global_short@,
            size_delta@,
            is_long,
            deposit@,
            fee@,
            deposit_usd@,
            cctx@,
            price@,
        ),
{
    let reserve_delta = usd_to_token(size_delta, cctx.price, cctx.decimals)?;
    let reserve = safe_add(p.reserve_amount, reserve_delta)?;
    let pool1 = pool.increase_reserved_amount(reserve_delta)?;
    let p1 = Position { reserve_amount: reserve, ..p };
    if is_long {
        let value = safe_sub_to_int(safe_add(size_delta, fee)?, deposit_usd)?;
        let g = move_guaranteed_usd(guaranteed_usd, value)?;
        let pool2 = pool1.increase_pool_amount(deposit)?;
        let fee_tokens = usd_to_token(fee, cctx.price, cctx.decimals)?;
        let pool3 = pool2.decrease_pool_amount(fee_tokens)?;
        Ok(Reserved { position: p1, pool: pool3, guaranteed_usd: g, global_short })
    } else {
        let gs = grow_global_short(global_short, price, size_delta)?;
        Ok(Reserved { position: p1, pool: pool1, guaranteed_usd, global_short: gs })
    }
}

/// Increasing a position, given the book of the
/// position, the collateral token's funding state, both tokens' flags and
/// the collateral's price, and the index token's pricing context (whose
/// price is the mark price and whose time is the block time).
pub fn increase_position(
    initialized: bool,
    book: PositionBook,
    funding_initialized: bool,
    funding: FundingState,
    req: IncreaseRequest,
    dctx: DeltaContext,
) -> (r: Result<IncreaseOutcome, OmxError>)
    ensures
        iov(r) == increase_position_spec(
            initialized,
            book@,
            funding_initialized,
            funding@,
            req.collateral_token,
            req.index_token,
            req.size_delta@,
            req.is_long,
            req.collateral_flags,
            req.index_flags,
            req.collateral@,
            dctx@,
        ),
{
    validate(initialized, VaultError::NotInitialized)?;
    validate_tokens(req.collateral_token, req.index_token, req.is_long, req.collateral_flags, req.index_flags)?;
    let inputs = FundingInputs {
        pool_amount: book.pool.pool_amount,
        reserved_amount: book.pool.reserved_amount,
        is_stable: req.collateral_flags.is_stable,
    };
    let f = update_cumulative_funding_rate(funding_initialized, funding, dctx.now, inputs)?;
    let cctx = CollateralContext {
        price: req.collateral.price,
        decimals: req.collateral.decimals,
        cumulative_funding_rate: f.cumulative_funding_rate,
    };
    let p1 = increase_average_price(book.position, req.size_delta, req.is_long, dctx)?;
    let gr = increase_grow(p1, book.pool, book.fee_reserve, req.size_delta, req.is_long, cctx, dctx)?;
    let res = increase_reserve(
        gr.position,
        gr.pool,
        book.guaranteed_usd,
        book.global_short,
        req.size_delta,
        req.is_long,
        gr.deposit,
        gr.fee,
        gr.deposit_usd,
        cctx,
        dctx.price,
    )?;
    Ok(
        IncreaseOutcome {
            book: PositionBook {
                position: res.position,
                pool: res.pool,
                fee_reserve: gr.fee_reserve,
                guaranteed_usd: res.guaranteed_usd,
                global_short: res.global_short,
            },
            funding: f,
            fee: gr.fee,
            collateral_delta_usd: gr.deposit_usd,
        },
    )
}

// ---------------------------------------------------------------------------
// Liquidation.
// ---------------------------------------------------------------------------

/// The outcome of a liquidation.
#[derive(Clone, Copy, Debug, PartialEq, Eq)]
pub struct LiquidationOutcome {
    pub book: PositionBook,
    pub funding: FundingState,
    /// Whether the position was over the maximum leverage and closed by a
    /// decrease that paid the account, rather than seized.
    pub by_decrease: bool,
    /// Collateral tokens paid to the account (after a decrease).
    pub amount_out: U256,
    /// Collateral tokens paid to the fee receiver (after a seizure).
    pub liquidation_fee_tokens: U256,
    /// The margin fees charged, in USD and in tokens (after a seizure).
    pub margin_fees: U256,
    pub fee_tokens: U256,
}

pub struct LiquidationOutcomeV {
    pub book: PositionBookV,
    pub funding: FundingStateV,
    pub by_decrease: bool,
    pub amount_out: nat,
    pub liquidation_fee_tokens: nat,
    pub margin_fees: nat,
    pub fee_tokens: nat,
}

impl View for LiquidationOutcome {
    type V = LiquidationOutcomeV;

    open spec fn view(&self) -> LiquidationOutcomeV {
        LiquidationOutcomeV {
            book: self.book@,
            funding: self.funding@,
            by_decrease: self.by_decrease,
            amount_out: self.amount_out@,
            liquidation_fee_tokens: self.liquidation_fee_tokens@,
            margin_fees: self.margin_fees@,
            fee_tokens: self.fee_tokens@,
        }
    }
}

pub open spec fn liv(r: Result<LiquidationOutcome, OmxError>) -> Result<LiquidationOutcomeV, OmxError> {
    match r {
        Ok(o) => Ok(o@),
        Err(e) => Err(e),
    }
}

/// Seizing a position: the margin fees (in tokens) join the fee reserve, its
/// reserve is released, for longs the guaranteed USD moves by
/// `collateral - size` and the fees leave the pool, for shorts the
/// collateral left after fees joins the pool and the global short size
/// shrinks; the position is emptied and the liquidation fee is paid out of
/// the pool. Yields the book and the liquidation fee in tokens.
pub open spec fn seize_spec(
    book: PositionBookV,
    margin_fees: nat,
    is_long: bool,
    collateral: TokenPriceV,
) -> Result<(PositionBookV, nat, nat), OmxError> {
    let p = book.position;
    match usd_to_token_spec(margin_fees, collateral.price, collateral.decimals) {
        Err(e) => Err(e),
        Ok(fee_tokens) => match add_spec(book.fee_reserve, fee_tokens) {
            Err(e) => Err(e),
            Ok(fee_reserve) => match decrease_reserved_spec(book.pool, p.reserve_amount) {
                Err(e) => Err(e),
                Ok(pool1) => {
                    let long_step: Result<(PoolLedgerV, nat), OmxError> = if is_long {
                        match sub_to_int_spec(p.collateral, p.size) {
                            Err(e) => Err(e),
                            Ok(v) => match add_int_spec(book.guaranteed_usd, v) {
                                Err(e) => Err(e),
                                Ok(g) => match decrease_pool_spec(pool1, fee_tokens) {
                                    Err(e) => Err(e),
                                    Ok(pool2) => Ok((pool2, g)),
                                },
                            },
                        }
                    } else {
                        Ok((pool1, book.guaranteed_usd))
                    };
                    match long_step {
                        Err(e) => Err(e),
                        Ok((pool2, g)) => {
                            let short_step: Result<PoolLedgerV, OmxError> = if !is_long && margin_fees < p.collateral {
                                match usd_to_token_spec((p.collateral - margin_fees) as nat, collateral.price, collateral.decimals) {
                                    Err(e) => Err(e),
                                    Ok(tokens) => increase_pool_spec(pool2, tokens),
                                }
                            } else {
                                Ok(pool2)
                            };
                            match short_step {
                                Err(e) => Err(e),
                                Ok(pool3) => {
                                    let gs = if is_long {
                                        book.global_short
                                    } else {
                                        GlobalShortV {
                                            size: decrease_global_short_size_spec(book.global_short.size, p.size),
                                            ..book.global_short
                                        }
                                    };
                                    match usd_to_token_spec(liquidation_fee_usd_value(), collateral.price, collateral.decimals) {
                                        Err(e) => Err(e),
                                        Ok(liquidation_fee) => match decrease_pool_spec(pool3, liquidation_fee) {
                                            Err(e) => Err(e),
                                            Ok(pool4) => Ok((
                                                PositionBookV {
                                                    position: empty_position(),
                                                    pool: pool4,
                                                    fee_reserve,
                                                    guaranteed_usd: g,
                                                    global_short: gs,
                                                },
                                                liquidation_fee,
                                                fee_tokens,
                                            )),
                                        },
                                    }
                                },
                            }
                        },
                    }
                },
            },
        },
    }
}

/// Liquidating a position: after the funding update, the liquidation check
/// (without raising) decides between closing it by a full decrease (state 2)
/// and seizing it.
pub open spec fn liquidate_position_spec(
    initialized: bool,
    decrease_initialized: bool,
    book: PositionBookV,
    funding_initialized: bool,
    funding: FundingStateV,
    collateral_is_stable: bool,
    is_long: bool,
    collateral: TokenPriceV,
    dctx: DeltaContextV,
) -> Result<LiquidationOutcomeV, OmxError> {
    if !initialized {
        Err(OmxError::Vault(VaultError::NotInitialized))
    } else {
        match update_funding_spec(
            funding_initialized,
            funding,
            dctx.now,
            book.pool.pool_amount,
            book.pool.reserved_amount,
            collateral_is_stable,
        ) {
            Err(e) => Err(e),
            Ok(f) => if book.position.size == 0 {
                Err(OmxError::Vault(VaultError::ZeroSize))
            } else {
                match validate_liquidation_spec(book.position, is_long, false, dctx, f.cumulative_funding_rate) {
                    Err(e) => Err(e),
                    Ok((state, margin_fees)) => if state == 0 {
                        Err(OmxError::Vault(VaultError::LiquidateValidPosition))
                    } else if state == 2 {
                        match decrease_position_spec(
                            decrease_initialized,
                            book,
                            f.cumulative_funding_rate,
                            0,
                            book.position.size,
                            is_long,
                            collateral,
                            dctx,
                        ) {
                            Err(e) => Err(e),
                            Ok(d) => Ok(
                                LiquidationOutcomeV {
                                    book: d.book,
                                    funding: f,
                                    by_decrease: true,
                                    amount_out: d.amount_out,
                                    liquidation_fee_tokens: 0,
                                    margin_fees,
                                    fee_tokens: 0,
                                },
                            ),
                        }
                    } else {
                        match seize_spec(book, margin_fees, is_long, collateral) {
                            Err(e) => Err(e),
                            Ok((b, liquidation_fee, fee_tokens)) => Ok(
                                LiquidationOutcomeV {
                                    book: b,
                                    funding: f,
                                    by_decrease: false,
                                    amount_out: 0,
                                    liquidation_fee_tokens: liquidation_fee,
                                    margin_fees,
                                    fee_tokens,
                                },
                            ),
                        }
                    },
                }
            },
        }
    }
}

pub struct Seizure {
    pub book: PositionBook,
    pub liquidation_fee: U256,
    pub fee_tokens: U256,
}

pub open spec fn seize_v(r: Result<Seizure, OmxError>) -> Result<(PositionBookV, nat, nat), OmxError> {
    match r {
        Ok(s) => Ok((s.book@, s.liquidation_fee@, s.fee_tokens@)),
        Err(e) => Err(e),
    }
}

fn seize(book: PositionBook, margin_fees: U256, is_long: bool, collateral: TokenPrice) -> (r: Result<Seizure, OmxError>)
    ensures
        seize_v(r) == seize_spec(book@, margin_fees@, is_long, collateral@),
{
    let p = book.position;
    let fee_tokens = usd_to_token(margin_fees, collateral.price, collateral.decimals)?;
    let fee_reserve = safe_add(book.fee_reserve, fee_tokens)?;
    let pool1 = book.pool.decrease_reserved_amount(p.reserve_amount)?;
    let mut pool2 = pool1;
    let mut g = book.guaranteed_usd;
    if is_long {
        let v = safe_sub_to_int(p.collateral, p.size)?;
        g = move_guaranteed_usd(book.guaranteed_usd, v)?;
        pool2 = pool1.decrease_pool_amount(fee_tokens)?;
    }
    let mut pool3 = pool2;
    if !is_long && u256_lt(margin_fees, p.collateral) {
        let remaining = safe_sub(p.collateral, margin_fees)?;
        pool3 = pool2.increase_pool_amount(usd_to_token(remaining, collateral.price, collateral.decimals)?)?;
    }
    let mut gs = book.global_short;
    if !is_long {
        gs = GlobalShort { size: shrink_global_short_size(book.global_short.size, p.size), ..book.global_short };
    }
    let liquidation_fee = usd_to_token(liquidation_fee_usd(), collateral.price, collateral.decimals)?;
    let pool4 = pool3.decrease_pool_amount(liquidation_fee)?;
    Ok(
        Seizure {
            book: PositionBook {
                position: Position::empty(),
                pool: pool4,
                fee_reserve,
                guaranteed_usd: g,
                global_short: gs,
            },
            liquidation_fee,
            fee_tokens,
        },
    )
}

/// Liquidating a position, given the book of the
/// position, the collateral token's funding state, stability and price, and
/// the index token's pricing context.
pub fn liquidate_position(
    initialized: bool,
    decrease_initialized: bool,
    book: PositionBook,
    funding_initialized: bool,
    funding: FundingState,
    collateral_is_stable: bool,
    is_long: bool,
    collateral: TokenPrice,
    dctx: DeltaContext,
) -> (r: Result<LiquidationOutcome, OmxError>)
    ensures
        liv(r) == liquidate_position_spec(
            initialized,
            decrease_initialized,
            book@,
            funding_initialized,
            funding@,
            collateral_is_stable,
            is_long,
            collateral@,
            dctx@,
        ),
{
    validate(initialized, VaultError::NotInitialized)?;
    let inputs = FundingInputs {
        pool_amount: book.pool.pool_amount,
        reserved_amount: book.pool.reserved_amount,
        is_stable: collateral_is_stable,
    };
    let f = update_cumulative_funding_rate(funding_initialized, funding, dctx.now, inputs)?;
    validate(u256_lt(U256::zero(), book.position.size), VaultError::ZeroSize)?;
    let (state, margin_fees) = validate_liquidation(book.position, is_long, false, dctx, f.cumulative_funding_rate)?;
    validate(!u256_eq(state, U256::zero()), VaultError::LiquidateValidPosition)?;
    if u256_eq(state, U256::from_u64(2)) {
        let d = decrease_position(
            decrease_initialized,
            book,
            f.cumulative_funding_rate,
            U256::zero(),
            book.position.size,
            is_long,
            collateral,
            dctx,
        )?;
        return Ok(
            LiquidationOutcome {
                book: d.book,
                funding: f,
                by_decrease: true,
                amount_out: d.amount_out,
                liquidation_fee_tokens: U256::zero(),
                margin_fees,
                fee_tokens: U256::zero(),
            },
        );
    }
    let s = seize(book, margin_fees, is_long, collateral)?;
    Ok(
        LiquidationOutcome {
            book: s.book,
            funding: f,
            by_decrease: false,
            amount_out: U256::zero(),
            liquidation_fee_tokens: s.liquidation_fee,
            margin_fees,
            fee_tokens: s.fee_tokens,
        },
    )
}

// ---------------------------------------------------------------------------
// What every successful operation on a position guarantees.
// ---------------------------------------------------------------------------

/// What a long position counts toward its collateral token's guaranteed
/// USD: the part of its size not covered by its collateral.
pub open spec fn guaranteed_share(p: PositionV) -> int {
    p.size - p.collateral
}

/// The guaranteed USD of a collateral token after one of its positions moves
/// from `before` to `after`: the sum of `size - collateral` over the long
/// positions moves by that position's change; shorts leave it as it was.
pub open spec fn guaranteed_usd_moved(g: nat, before: PositionV, after: PositionV, is_long: bool) -> int {
    if is_long {
        g + guaranteed_share(after) - guaranteed_share(before)
    } else {
        g as int
    }
}

/// A decrease that removes the whole size closes the position; a partial
/// one leaves it smaller by exactly the size removed, and valid (its size
/// at least its collateral). Either way the pool keeps its invariant
/// (reserves within the pool, the pool within the tokens held), and for a
/// long the guaranteed USD moves by the change of `size - collateral`.
pub proof fn lemma_decrease_closes_or_shrinks(
    initialized: bool,
    book: PositionBookV,
    cumulative_funding_rate: nat,
    collateral_delta: nat,
    size_delta: nat,
    is_long: bool,
    collateral: TokenPriceV,
    dctx: DeltaContextV,
)
    requires
        decrease_position_spec(
            initialized,
            book,
            cumulative_funding_rate,
            collateral_delta,
            size_delta,
            is_long,
            collateral,
            dctx,
        ) is Ok,
    ensures
        ({
            let out = decrease_position_spec(
                initialized,
                book,
                cumulative_funding_rate,
                collateral_delta,
                size_delta,
                is_long,
                collateral,
                dctx,
            ).unwrap();
            &&& size_delta == book.position.size ==> out.book.position == empty_position()
            &&& size_delta != book.position.size ==> {
                &&& out.book.position.size == book.position.size - size_delta
                &&& validate_position_spec(out.book.position.size, out.book.position.collateral) is Ok
            }
            &&& pool_ledger_inv(book.pool) ==> pool_ledger_inv(out.book.pool)
            &&& out.book.guaranteed_usd == guaranteed_usd_moved(
                book.guaranteed_usd,
                book.position,
                out.book.position,
                is_long,
            )
        }),
{
    let cctx = cctx_of(collateral, cumulative_funding_rate);
    let (p1, pool1) = decrease_reserve_spec(book.position, book.pool, collateral_delta, size_delta).unwrap();
    let reserve_delta = mul_ratio_spec(book.position.reserve_amount, size_delta, book.position.size).unwrap();
    if pool_ledger_inv(book.pool) {
        lemma_pool_steps_keep_invariant(book.pool, reserve_delta);
    }
    lemma_settlement_keeps_size_and_pool(
        p1,
        pool1,
        book.fee_reserve,
        collateral_delta,
        size_delta,
        is_long,
        cctx,
        dctx,
    );
    let red = reduce_collateral_spec(
        p1,
        pool1,
        book.fee_reserve,
        collateral_delta,
        size_delta,
        is_long,
        cctx,
        dctx,
    ).unwrap();
    if pool_ledger_inv(red.pool) && red.usd_out > 0 && is_long {
        let tokens = usd_to_token_spec(red.usd_out, collateral.price, collateral.decimals).unwrap();
        lemma_pool_steps_keep_invariant(red.pool, tokens);
    }
}

/// A liquidation always closes the position, whether it is seized or
/// closed by a full decrease, keeps the pool's invariant, and for a long
/// takes the position's `size - collateral` out of the guaranteed USD.
pub proof fn lemma_liquidation_closes_position(
    initialized: bool,
    decrease_initialized: bool,
    book: PositionBookV,
    funding_initialized: bool,
    funding: FundingStateV,
    collateral_is_stable: bool,
    is_long: bool,
    collateral: TokenPriceV,
    dctx: DeltaContextV,
)
    requires
        liquidate_position_spec(
            initialized,
            decrease_initialized,
            book,
            funding_initialized,
            funding,
            collateral_is_stable,
            is_long,
            collateral,
            dctx,
        ) is Ok,
    ensures
        ({
            let out = liquidate_position_spec(
                initialized,
                decrease_initialized,
                book,
                funding_initialized,
                funding,
                collateral_is_stable,
                is_long,
                collateral,
                dctx,
            ).unwrap();
            &&& out.book.position == empty_position()
            &&& pool_ledger_inv(book.pool) ==> pool_ledger_inv(out.book.pool)
            &&& out.book.guaranteed_usd == guaranteed_usd_moved(
                book.guaranteed_usd,
                book.position,
                out.book.position,
                is_long,
            )
        }),
{
    let f = update_funding_spec(
        funding_initialized,
        funding,
        dctx.now,
        book.pool.pool_amount,
        book.pool.reserved_amount,
        collateral_is_stable,
    ).unwrap();
    let (state, margin_fees) = validate_liquidation_spec(
        book.position,
        is_long,
        false,
        dctx,
        f.cumulative_funding_rate,
    ).unwrap();
    if state == 2 {
        lemma_decrease_closes_or_shrinks(
            decrease_initialized,
            book,
            f.cumulative_funding_rate,
            0,
            book.position.size,
            is_long,
            collateral,
            dctx,
        );
    } else {
        let p = book.position;
        let fee_tokens = usd_to_token_spec(margin_fees, collateral.price, collateral.decimals).unwrap();
        if pool_ledger_inv(book.pool) {
            lemma_pool_steps_keep_invariant(book.pool, p.reserve_amount);
            let pool1 = decrease_reserved_spec(book.pool, p.reserve_amount).unwrap();
            lemma_pool_steps_keep_invariant(pool1, fee_tokens);
            let pool2 = if is_long {
                decrease_pool_spec(pool1, fee_tokens).unwrap()
            } else {
                pool1
            };
            if !is_long && margin_fees < p.collateral {
                let tokens = usd_to_token_spec(
                    (p.collateral - margin_fees) as nat,
                    collateral.price,
                    collateral.decimals,
                ).unwrap();
                lemma_pool_steps_keep_invariant(pool2, tokens);
            }
            let pool3 = if !is_long && margin_fees < p.collateral {
                increase_pool_spec(
                    pool2,
                    usd_to_token_spec(
                        (p.collateral - margin_fees) as nat,
                        collateral.price,
                        collateral.decimals,
                    ).unwrap(),
                ).unwrap()
            } else {
                pool2
            };
            let liquidation_fee = usd_to_token_spec(
                liquidation_fee_usd_value(),
                collateral.price,
                collateral.decimals,
            ).unwrap();
            lemma_pool_steps_keep_invariant(pool3, liquidation_fee);
        }
    }
}

/// An increase leaves a valid position (its size at least its collateral,
/// and not zero), keeps the pool's invariant, and for a long moves the
/// guaranteed USD by the change of `size - collateral`.
pub proof fn lemma_increase_keeps_invariants(
    initialized: bool,
    book: PositionBookV,
    funding_initialized: bool,
    funding: FundingStateV,
    collateral_token: Address,
    index_token: Address,
    size_delta: nat,
    is_long: bool,
    collateral_flags: TokenFlags,
    index_flags: TokenFlags,
    collateral: TokenPriceV,
    dctx: DeltaContextV,
)
    requires
        increase_position_spec(
            initialized,
            book,
            funding_initialized,
            funding,
            collateral_token,
            index_token,
            size_delta,
            is_long,
            collateral_flags,
            index_flags,
            collateral,
            dctx,
        ) is Ok,
    ensures
        ({
            let out = increase_position_spec(
                initialized,
                book,
                funding_initialized,
                funding,
                collateral_token,
                index_token,
                size_delta,
                is_long,
                collateral_flags,
                index_flags,
                collateral,
                dctx,
            ).unwrap();
            &&& out.book.position.size > 0
            &&& out.book.position.size == book.position.size + size_delta
            &&& validate_position_spec(out.book.position.size, out.book.position.collateral) is Ok
            &&& pool_ledger_inv(book.pool) ==> pool_ledger_inv(out.book.pool)
            &&& out.book.guaranteed_usd == guaranteed_usd_moved(
                book.guaranteed_usd,
                book.position,
                out.book.position,
                is_long,
            )
        }),
{
    let f = update_funding_spec(
        funding_initialized,
        funding,
        dctx.now,
        book.pool.pool_amount,
        book.pool.reserved_amount,
        collateral_flags.is_stable,
    ).unwrap();
    let cctx = cctx_of(collateral, f.cumulative_funding_rate);
    let p1 = increase_average_price_spec(book.position, size_delta, is_long, dctx).unwrap();
    let (p2, pool2, fee_reserve, fee, deposit_usd) = increase_grow_spec(
        p1,
        book.pool,
        book.fee_reserve,
        size_delta,
        is_long,
        cctx,
        dctx,
        dctx.now,
    ).unwrap();
    if pool_ledger_inv(book.pool) {
        assert(pool_ledger_inv(pool2));
        let reserve_delta = usd_to_token_spec(size_delta, cctx.price, cctx.decimals).unwrap();
        lemma_pool_steps_keep_invariant(pool2, reserve_delta);
        if is_long {
            let pool_r = increase_reserved_spec(pool2, reserve_delta).unwrap();
            let deposit = (pool2.token_balance - book.pool.token_balance) as nat;
            lemma_pool_steps_keep_invariant(pool_r, deposit);
            let pool_d = increase_pool_spec(pool_r, deposit).unwrap();
            let fee_tokens = usd_to_token_spec(fee, cctx.price, cctx.decimals).unwrap();
            lemma_pool_steps_keep_invariant(pool_d, fee_tokens);
        }
    }
}

} // verus!
