//! The fee manager: swap fees, position fees, funding fees and the reserves
//! of collected fees.

use vstd::prelude::*;
use crate::constants::{
    basis_points_divisor, basis_points_divisor_value, funding_rate_precision,
    funding_rate_precision_value, margin_fee_basis_points, margin_fee_basis_points_value,
    stable_swap_fee_basis_points, stable_swap_fee_basis_points_value, swap_fee_basis_points,
    swap_fee_basis_points_value,
};
use crate::address::Address;
use crate::errors::{OmxError, VaultError};
use crate::safe_math::{
    add_spec, mul_ratio_spec, rv, safe_add, safe_mul_ratio, safe_sub, sub_spec,
};
use crate::uint::{u256_eq, u256_max, U256};
use crate::vault::only_core;
use crate::vault_utils::{token_to_usd, token_to_usd_spec, usd_to_token, usd_to_token_spec};

verus! {

/// The margin fee on a change of `size_delta` USD of position size:
/// `size_delta` minus its share after the margin fee, rounded down.
pub open spec fn position_fee_spec(size_delta: nat) -> Result<nat, OmxError> {
    if size_delta == 0 {
        Ok(0)
    } else {
        match mul_ratio_spec(
            size_delta,
            (basis_points_divisor_value() - margin_fee_basis_points_value()) as nat,
            basis_points_divisor_value(),
        ) {
            Err(e) => Err(e),
            Ok(after) => sub_spec(size_delta, after),
        }
    }
}

/// The margin fee on `size_delta` USD of position size.
pub fn get_position_fee(size_delta: U256) -> (r: Result<U256, OmxError>)
    ensures
        rv(r) == position_fee_spec(size_delta@),
{
    if u256_eq(size_delta, U256::zero()) {
        return Ok(U256::zero());
    }
    let after_fee_usd = safe_mul_ratio(
        size_delta,
        safe_sub(basis_points_divisor(), margin_fee_basis_points())?,
        basis_points_divisor(),
    )?;
    safe_sub(size_delta, after_fee_usd)
}

/// The funding fee owed by a position of `size` USD that entered at
/// `entry_funding_rate`, now that the cumulative rate is `cumulative_rate`.
pub open spec fn funding_fee_spec(size: nat, entry_funding_rate: nat, cumulative_rate: nat) -> Result<nat, OmxError> {
    if size == 0 {
        Ok(0)
    } else {
        match sub_spec(cumulative_rate, entry_funding_rate) {
            Err(e) => Err(e),
            Ok(rate) => if rate == 0 {
                Ok(0)
            } else {
                mul_ratio_spec(size, rate, funding_rate_precision_value())
            },
        }
    }
}

/// The funding fee owed by a position, given the collateral token's cumulative funding rate.
pub fn get_funding_fee(size: U256, entry_funding_rate: U256, cumulative_rate: U256) -> (r: Result<U256, OmxError>)
    ensures
        rv(r) == funding_fee_spec(size@, entry_funding_rate@, cumulative_rate@),
{
    if u256_eq(size, U256::zero()) {
        return Ok(U256::zero());
    }
    let funding_rate = safe_sub(cumulative_rate, entry_funding_rate)?;
    if u256_eq(funding_rate, U256::zero()) {
        return Ok(U256::zero());
    }
    safe_mul_ratio(size, funding_rate, funding_rate_precision())
}

/// The outcome of collecting a swap fee on one token.
#[derive(Clone, Copy, Debug, PartialEq, Eq)]
pub struct SwapFeeOutcome {
    /// What is left of the amount after the fee.
    pub amount_after_fee: U256,
    /// The fee, in tokens.
    pub fee_amount: U256,
    /// The fee, in USD, as logged.
    pub fee_usd: U256,
    /// The token's fee reserve after the fee was added.
    pub fee_reserve: U256,
}

pub struct SwapFeeOutcomeV {
    pub amount_after_fee: nat,
    pub fee_amount: nat,
    pub fee_usd: nat,
    pub fee_reserve: nat,
}

impl View for SwapFeeOutcome {
    type V = SwapFeeOutcomeV;

    open spec fn view(&self) -> SwapFeeOutcomeV {
        SwapFeeOutcomeV {
            amount_after_fee: self.amount_after_fee@,
            fee_amount: self.fee_amount@,
            fee_usd: self.fee_usd@,
            fee_reserve: self.fee_reserve@,
        }
    }
}

/// Collecting `fee_basis_points` of `amount`: the fee (the amount minus its
/// share after the fee, rounded down) joins the reserve.
pub open spec fn collect_swap_fees_spec(
    fee_reserve: nat,
    amount: nat,
    fee_basis_points: nat,
    price: nat,
    decimals: u8,
) -> Result<SwapFeeOutcomeV, OmxError> {
    match sub_spec(basis_points_divisor_value(), fee_basis_points) {
        Err(e) => Err(e),
        Ok(keep) => match mul_ratio_spec(amount, keep, basis_points_divisor_value()) {
            Err(e) => Err(e),
            Ok(after) => match sub_spec(amount, after) {
                Err(e) => Err(e),
                Ok(fee) => match add_spec(fee_reserve, fee) {
                    Err(e) => Err(e),
                    Ok(reserve) => match token_to_usd_spec(fee, price, decimals) {
                        Err(e) => Err(e),
                        Ok(fee_usd) => Ok(
                            SwapFeeOutcomeV {
                                amount_after_fee: after,
                                fee_amount: fee,
                                fee_usd,
                                fee_reserve: reserve,
                            },
                        ),
                    },
                },
            },
        },
    }
}

pub open spec fn sfv(r: Result<SwapFeeOutcome, OmxError>) -> Result<SwapFeeOutcomeV, OmxError> {
    match r {
        Ok(o) => Ok(o@),
        Err(e) => Err(e),
    }
}

/// The fee manager's refusal of a caller without the right.
pub open spec fn forbidden() -> OmxError {
    OmxError::Vault(VaultError::Forbidden)
}

/// The fee taken from a swap of `amount` tokens, given the token's fee
/// reserve, price and decimals. Only the swap manager may call it; any other
/// `sender` is refused.
pub fn collect_swap_fees(
    sender: Address,
    swap_manager: Address,
    fee_reserve: U256,
    amount: U256,
    fee_basis_points: U256,
    price: U256,
    decimals: u8,
) -> (r: Result<SwapFeeOutcome, OmxError>)
    ensures
        sfv(r) == if sender != swap_manager {
            Err(forbidden())
        } else {
            collect_swap_fees_spec(fee_reserve@, amount@, fee_basis_points@, price@, decimals)
        },
{
    if sender != swap_manager {
        return Err(OmxError::Vault(VaultError::Forbidden));
    }
    swap_fee_outcome(fee_reserve, amount, fee_basis_points, price, decimals)
}

/// The work of `collect_swap_fees` once the caller is known to be the swap
/// manager, as the swap manager's own steps reach it.
pub(crate) fn swap_fee_outcome(
    fee_reserve: U256,
    amount: U256,
    fee_basis_points: U256,
    price: U256,
    decimals: u8,
) -> (r: Result<SwapFeeOutcome, OmxError>)
    ensures
        sfv(r) == collect_swap_fees_spec(fee_reserve@, amount@, fee_basis_points@, price@, decimals),
{
    let after_fee_amount = safe_mul_ratio(
        amount,
        safe_sub(basis_points_divisor(), fee_basis_points)?,
        basis_points_divisor(),
    )?;
    let fee_amount = safe_sub(amount, after_fee_amount)?;
    let new_reserve = safe_add(fee_reserve, fee_amount)?;
    let fee_usd = token_to_usd(fee_amount, price, decimals)?;
    Ok(
        SwapFeeOutcome {
            amount_after_fee: after_fee_amount,
            fee_amount,
            fee_usd,
            fee_reserve: new_reserve,
        },
    )
}

/// The outcome of collecting margin fees on a position change.
#[derive(Clone, Copy, Debug, PartialEq, Eq)]
pub struct MarginFeeOutcome {
    /// Position fee plus funding fee, in USD.
    pub fee_usd: U256,
    /// The same fee in collateral tokens.
    pub fee_tokens: U256,
    /// The collateral token's fee reserve after the fee was added.
    pub fee_reserve: U256,
}

pub struct MarginFeeOutcomeV {
    pub fee_usd: nat,
    pub fee_tokens: nat,
    pub fee_reserve: nat,
}

impl View for MarginFeeOutcome {
    type V = MarginFeeOutcomeV;

    open spec fn view(&self) -> MarginFeeOutcomeV {
        MarginFeeOutcomeV {
            fee_usd: self.fee_usd@,
            fee_tokens: self.fee_tokens@,
            fee_reserve: self.fee_reserve@,
        }
    }
}

/// What the fees of a position change depend on besides the position: the
/// collateral token's price, decimals and cumulative funding rate.
#[derive(Clone, Copy, Debug, PartialEq, Eq)]
pub struct CollateralContext {
    pub price: U256,
    pub decimals: u8,
    pub cumulative_funding_rate: U256,
}

pub struct CollateralContextV {
    pub price: nat,
    pub decimals: u8,
    pub cumulative_funding_rate: nat,
}

impl View for CollateralContext {
    type V = CollateralContextV;

    open spec fn view(&self) -> CollateralContextV {
        CollateralContextV {
            price: self.price@,
            decimals: self.decimals,
            cumulative_funding_rate: self.cumulative_funding_rate@,
        }
    }
}

/// The position fee on `size_delta` plus the funding fee on `size`, in USD.
pub open spec fn margin_fee_usd_spec(
    size_delta: nat,
    size: nat,
    entry_funding_rate: nat,
    cumulative_rate: nat,
) -> Result<nat, OmxError> {
    match position_fee_spec(size_delta) {
        Err(e) => Err(e),
        Ok(position_fee) => match funding_fee_spec(size, entry_funding_rate, cumulative_rate) {
            Err(e) => Err(e),
            Ok(funding_fee) => add_spec(position_fee, funding_fee),
        },
    }
}

/// Collecting the margin fees of a position change into the reserve.
pub open spec fn collect_margin_fees_spec(
    fee_reserve: nat,
    size_delta: nat,
    size: nat,
    entry_funding_rate: nat,
    ctx: CollateralContextV,
) -> Result<MarginFeeOutcomeV, OmxError> {
    match margin_fee_usd_spec(size_delta, size, entry_funding_rate, ctx.cumulative_funding_rate) {
        Err(e) => Err(e),
        Ok(fee_usd) => match usd_to_token_spec(fee_usd, ctx.price, ctx.decimals) {
            Err(e) => Err(e),
            Ok(fee_tokens) => match add_spec(fee_reserve, fee_tokens) {
                Err(e) => Err(e),
                Ok(reserve) => Ok(
                    MarginFeeOutcomeV { fee_usd, fee_tokens, fee_reserve: reserve },
                ),
            },
        },
    }
}

pub open spec fn mfv(r: Result<MarginFeeOutcome, OmxError>) -> Result<MarginFeeOutcomeV, OmxError> {
    match r {
        Ok(o) => Ok(o@),
        Err(e) => Err(e),
    }
}

/// The margin fees charged on a position change, given the collateral
/// token's fee reserve and context. Only the position managers (listed in
/// `positions_managers`) may call it; any other `sender` is refused.
pub fn collect_margin_fees(
    sender: Address,
    positions_managers: &Vec<Address>,
    fee_reserve: U256,
    size_delta: U256,
    size: U256,
    entry_funding_rate: U256,
    ctx: CollateralContext,
) -> (r: Result<MarginFeeOutcome, OmxError>)
    ensures
        mfv(r) == if !positions_managers@.contains(sender) {
            Err(forbidden())
        } else {
            collect_margin_fees_spec(fee_reserve@, size_delta@, size@, entry_funding_rate@, ctx@)
        },
{
    only_core(sender, positions_managers)?;
    margin_fee_outcome(fee_reserve, size_delta, size, entry_funding_rate, ctx)
}

/// The work of `collect_margin_fees` once the caller is known to be a
/// position manager, as the position steps reach it.
pub(crate) fn margin_fee_outcome(
    fee_reserve: U256,
    size_delta: U256,
    size: U256,
    entry_funding_rate: U256,
    ctx: CollateralContext,
) -> (r: Result<MarginFeeOutcome, OmxError>)
    ensures
        mfv(r) == collect_margin_fees_spec(fee_reserve@, size_delta@, size@, entry_funding_rate@, ctx@),
{
    let fee_usd = get_position_fee(size_delta)?;
    let funding_fee = get_funding_fee(size, entry_funding_rate, ctx.cumulative_funding_rate)?;
    let fee_usd = safe_add(fee_usd, funding_fee)?;
    let fee_tokens = usd_to_token(fee_usd, ctx.price, ctx.decimals)?;
    let new_reserve = safe_add(fee_reserve, fee_tokens)?;
    Ok(MarginFeeOutcome { fee_usd, fee_tokens, fee_reserve: new_reserve })
}

/// Adding to a token's fee reserve: the reserve after adding `amount`. Only
/// the position managers may call it; any other `sender` is refused.
pub fn increase_fee_reserves(
    sender: Address,
    positions_managers: &Vec<Address>,
    fee_reserve: U256,
    amount: U256,
) -> (r: Result<U256, OmxError>)
    ensures
        rv(r) == if !positions_managers@.contains(sender) {
            Err(forbidden())
        } else {
            add_spec(fee_reserve@, amount@)
        },
{
    only_core(sender, positions_managers)?;
    safe_add(fee_reserve, amount)
}

/// Withdrawing a token's fees: the amount to send out (the whole reserve) and
/// the reserve afterwards (zero). Only the governor may call it; any other
/// `sender` is refused.
pub fn withdraw_fees(sender: Address, gov: Address, fee_reserve: U256) -> (r: Result<(U256, U256), OmxError>)
    ensures
        sender != gov ==> r == Err::<(U256, U256), OmxError>(forbidden()),
        sender == gov ==> (r matches Ok((amount, reserve)) && amount@ == fee_reserve@ && reserve@ == 0),
{
    if sender != gov {
        return Err(OmxError::Vault(VaultError::Forbidden));
    }
    Ok((fee_reserve, U256::zero()))
}

/// The swap fee: the stable rate between two stable tokens, else the default.
pub open spec fn swap_fee_basis_points_spec(token_in_stable: bool, token_out_stable: bool) -> nat {
    if token_in_stable && token_out_stable {
        stable_swap_fee_basis_points_value()
    } else {
        swap_fee_basis_points_value()
    }
}

/// The swap fee rate, given whether each token is stable.
pub fn get_swap_fee_basis_points(token_in_stable: bool, token_out_stable: bool) -> (r: U256)
    ensures
        r@ == swap_fee_basis_points_spec(token_in_stable, token_out_stable),
{
    if token_in_stable && token_out_stable {
        stable_swap_fee_basis_points()
    } else {
        swap_fee_basis_points()
    }
}

/// A token's target USDO debt: its weight's share of the USDO supply.
pub open spec fn target_usdo_amount_spec(supply: nat, weight: nat, total_weights: nat) -> Result<nat, OmxError> {
    if supply == 0 {
        Ok(0)
    } else {
        mul_ratio_spec(weight, supply, total_weights)
    }
}

/// The USDO amount a token is weighted to back, given the USDO supply and the token weights.
pub fn get_target_usdo_amount(supply: U256, weight: U256, total_weights: U256) -> (r: Result<U256, OmxError>)
    ensures
        rv(r) == target_usdo_amount_spec(supply@, weight@, total_weights@),
{
    if u256_eq(supply, U256::zero()) {
        return Ok(U256::zero());
    }
    safe_mul_ratio(weight, supply, total_weights)
}

/// The swap fee rate: 0.04% (4 basis points) exactly when both tokens are
/// stable; as soon as either is volatile, 0.3% (30 basis points). The rate
/// does not depend on the direction of the swap.
pub proof fn lemma_swap_fee_rate(token_in_stable: bool, token_out_stable: bool)
    ensures
        swap_fee_basis_points_spec(token_in_stable, token_out_stable) == 4 <==> token_in_stable && token_out_stable,
        !(token_in_stable && token_out_stable) ==> swap_fee_basis_points_spec(token_in_stable, token_out_stable)
            == 30,
        swap_fee_basis_points_spec(token_in_stable, token_out_stable) == swap_fee_basis_points_spec(
            token_out_stable,
            token_in_stable,
        ),
{
}

/// The position fee is 0.1% of the size change, rounded up: the least `fee`
/// with `fee * 1000 >= size_delta`.
pub proof fn lemma_position_fee_is_a_tenth_of_a_percent(size_delta: nat)
    requires
        size_delta <= u256_max(),
    ensures
        position_fee_spec(size_delta) is Ok,
        ({
            let fee = position_fee_spec(size_delta).unwrap();
            &&& fee * 1000 >= size_delta
            &&& size_delta > 0 ==> (fee - 1) * 1000 < size_delta
            &&& fee <= size_delta
        }),
{
    if size_delta > 0 {
        let after = size_delta * 9990 / 10000;
        assert(after <= size_delta) by (nonlinear_arith)
            requires
                after == size_delta * 9990 / 10000,
        ;
        let fee = size_delta - after;
        assert(fee * 1000 >= size_delta && (fee - 1) * 1000 < size_delta) by (nonlinear_arith)
            requires
                after == size_delta * 9990 / 10000,
                fee == size_delta - after,
                size_delta > 0,
        ;
    }
}

/// A swap fee of `fee_basis_points` keeps `amount * (10000 -
/// fee_basis_points) / 10000` (rounded down) for the swap; the rest is the
/// fee, which joins the token's fee reserve. A rate above 100% is refused.
pub proof fn lemma_swap_fee_split(fee_reserve: nat, amount: nat, fee_basis_points: nat, price: nat, decimals: u8)
    requires
        amount <= u256_max(),
    ensures
        fee_basis_points > 10000 ==> collect_swap_fees_spec(fee_reserve, amount, fee_basis_points, price, decimals)
            is Err,
        collect_swap_fees_spec(fee_reserve, amount, fee_basis_points, price, decimals) is Ok ==> {
            let o = collect_swap_fees_spec(fee_reserve, amount, fee_basis_points, price, decimals).unwrap();
            &&& o.amount_after_fee + o.fee_amount == amount
            &&& o.amount_after_fee * 10000 <= amount * (10000 - fee_basis_points)
            &&& amount * (10000 - fee_basis_points) < (o.amount_after_fee + 1) * 10000
            &&& o.fee_reserve == fee_reserve + o.fee_amount
        },
{
    if fee_basis_points <= 10000 {
        let keep = (10000 - fee_basis_points) as nat;
        let after = amount * keep / 10000;
        assert(after * 10000 <= amount * keep && amount * keep < (after + 1) * 10000) by (nonlinear_arith)
            requires
                after == amount * keep / 10000,
        ;
    }
}

/// The funding fee of a position is its size times the funding rate accrued
/// since it entered, in millionths: `size * (cumulative - entry) / 10^6`;
/// nothing for an empty position, and a cumulative rate below the entry rate
/// is refused.
pub proof fn lemma_funding_fee_in_millionths(size: nat, entry_funding_rate: nat, cumulative_rate: nat)
    requires
        size * (cumulative_rate - entry_funding_rate) / 1000000 <= u256_max(),
    ensures
        size == 0 ==> funding_fee_spec(size, entry_funding_rate, cumulative_rate) == Ok::<nat, OmxError>(0),
        size > 0 && cumulative_rate < entry_funding_rate ==> funding_fee_spec(size, entry_funding_rate, cumulative_rate)
            is Err,
        size > 0 && cumulative_rate >= entry_funding_rate ==> funding_fee_spec(size, entry_funding_rate, cumulative_rate)
            == Ok::<nat, OmxError>(size * (cumulative_rate - entry_funding_rate) as nat / 1000000),
{
    if size > 0 && cumulative_rate == entry_funding_rate {
        assert(size * (cumulative_rate - entry_funding_rate) as nat == 0) by (nonlinear_arith)
            requires
                cumulative_rate == entry_funding_rate,
        ;
    }
}

} // verus!
