//! The protocol constants.

use vstd::prelude::*;
use crate::uint::U256;

verus! {

/// Decimals of ETH.
pub const ETH_DECIMALS: u8 = 18;

/// Decimals of USDO.
pub const USDO_DECIMALS: u8 = 18;

/// One second.
pub open spec fn second_value() -> nat {
    1nat
}

/// One second.
pub fn second() -> (r: U256)
    ensures
        r@ == second_value(),
{
    U256 { limbs: [1, 0, 0, 0] }
}

/// One minute, in seconds.
pub open spec fn minute_value() -> nat {
    60nat
}

/// One minute, in seconds.
pub fn minute() -> (r: U256)
    ensures
        r@ == minute_value(),
{
    U256 { limbs: [60, 0, 0, 0] }
}

/// One hour, in seconds.
pub open spec fn hour_value() -> nat {
    3600nat
}

/// One hour, in seconds.
pub fn hour() -> (r: U256)
    ensures
        r@ == hour_value(),
{
    U256 { limbs: [3600, 0, 0, 0] }
}

/// One day, in seconds.
pub open spec fn day_value() -> nat {
    86400nat
}

/// One day, in seconds.
pub fn day() -> (r: U256)
    ensures
        r@ == day_value(),
{
    U256 { limbs: [86400, 0, 0, 0] }
}

/// One week, in seconds.
pub open spec fn week_value() -> nat {
    604800nat
}

/// One week, in seconds.
pub fn week() -> (r: U256)
    ensures
        r@ == week_value(),
{
    U256 { limbs: [604800, 0, 0, 0] }
}

/// One (365-day) year, in seconds.
pub open spec fn year_value() -> nat {
    31536000nat
}

/// One (365-day) year, in seconds.
pub fn year() -> (r: U256)
    ensures
        r@ == year_value(),
{
    U256 { limbs: [31536000, 0, 0, 0] }
}

/// Prices are fixed-point numbers with 30 decimals; also the value of one USD.
pub open spec fn price_precision_value() -> nat {
    1000000000000000000000000000000nat
}

/// Prices are fixed-point numbers with 30 decimals; also the value of one USD.
pub fn price_precision() -> (r: U256)
    ensures
        r@ == price_precision_value(),
{
    U256 { limbs: [5076944270305263616, 54210108624, 0, 0] }
}

/// 100% in basis points.
pub open spec fn basis_points_divisor_value() -> nat {
    10000nat
}

/// 100% in basis points.
pub fn basis_points_divisor() -> (r: U256)
    ensures
        r@ == basis_points_divisor_value(),
{
    U256 { limbs: [10000, 0, 0, 0] }
}

/// Largest spread a price feed may apply.
pub open spec fn max_spread_basis_points_value() -> nat {
    50nat
}

/// Largest spread a price feed may apply.
pub fn max_spread_basis_points() -> (r: U256)
    ensures
        r@ == max_spread_basis_points_value(),
{
    U256 { limbs: [50, 0, 0, 0] }
}

/// Largest adjustment a price feed may apply.
pub open spec fn max_adjustment_basis_points_value() -> nat {
    20nat
}

/// Largest adjustment a price feed may apply.
pub fn max_adjustment_basis_points() -> (r: U256)
    ensures
        r@ == max_adjustment_basis_points_value(),
{
    U256 { limbs: [20, 0, 0, 0] }
}

/// Window, in seconds, of price-feed adjustments.
pub open spec fn max_adjustment_interval_value() -> nat {
    7200nat
}

/// Window, in seconds, of price-feed adjustments.
pub fn max_adjustment_interval() -> (r: U256)
    ensures
        r@ == max_adjustment_interval_value(),
{
    U256 { limbs: [7200, 0, 0, 0] }
}

/// Funding rates are fixed-point numbers with 6 decimals.
pub open spec fn funding_rate_precision_value() -> nat {
    1000000nat
}

/// Funding rates are fixed-point numbers with 6 decimals.
pub fn funding_rate_precision() -> (r: U256)
    ensures
        r@ == funding_rate_precision_value(),
{
    U256 { limbs: [1000000, 0, 0, 0] }
}

/// OLP prices carry 18 decimals.
pub open spec fn olp_precision_value() -> nat {
    1000000000000000000nat
}

/// OLP prices carry 18 decimals.
pub fn olp_precision() -> (r: U256)
    ensures
        r@ == olp_precision_value(),
{
    U256 { limbs: [1000000000000000000, 0, 0, 0] }
}

/// Tax, 0.5%.
pub open spec fn tax_basis_points_value() -> nat {
    50nat
}

/// Tax, 0.5%.
pub fn tax_basis_points() -> (r: U256)
    ensures
        r@ == tax_basis_points_value(),
{
    U256 { limbs: [50, 0, 0, 0] }
}

/// Tax on stable tokens, 0.2%.
pub open spec fn stable_tax_basis_points_value() -> nat {
    20nat
}

/// Tax on stable tokens, 0.2%.
pub fn stable_tax_basis_points() -> (r: U256)
    ensures
        r@ == stable_tax_basis_points_value(),
{
    U256 { limbs: [20, 0, 0, 0] }
}

/// Fee to mint or burn USDO, 0.3%.
pub open spec fn mint_burn_fee_basis_points_value() -> nat {
    30nat
}

/// Fee to mint or burn USDO, 0.3%.
pub fn mint_burn_fee_basis_points() -> (r: U256)
    ensures
        r@ == mint_burn_fee_basis_points_value(),
{
    U256 { limbs: [30, 0, 0, 0] }
}

/// Swap fee, 0.3%.
pub open spec fn swap_fee_basis_points_value() -> nat {
    30nat
}

/// Swap fee, 0.3%.
pub fn swap_fee_basis_points() -> (r: U256)
    ensures
        r@ == swap_fee_basis_points_value(),
{
    U256 { limbs: [30, 0, 0, 0] }
}

/// Swap fee between two stable tokens, 0.04%.
pub open spec fn stable_swap_fee_basis_points_value() -> nat {
    4nat
}

/// Swap fee between two stable tokens, 0.04%.
pub fn stable_swap_fee_basis_points() -> (r: U256)
    ensures
        r@ == stable_swap_fee_basis_points_value(),
{
    U256 { limbs: [4, 0, 0, 0] }
}

/// Fee on the size of a position change, 0.1%.
pub open spec fn margin_fee_basis_points_value() -> nat {
    10nat
}

/// Fee on the size of a position change, 0.1%.
pub fn margin_fee_basis_points() -> (r: U256)
    ensures
        r@ == margin_fee_basis_points_value(),
{
    U256 { limbs: [10, 0, 0, 0] }
}

/// Funding is accrued per hour.
pub open spec fn funding_interval_value() -> nat {
    3600nat
}

/// Funding is accrued per hour.
pub fn funding_interval() -> (r: U256)
    ensures
        r@ == funding_interval_value(),
{
    U256 { limbs: [3600, 0, 0, 0] }
}

/// Funding rate factor of volatile tokens.
pub open spec fn funding_rate_factor_value() -> nat {
    100nat
}

/// Funding rate factor of volatile tokens.
pub fn funding_rate_factor() -> (r: U256)
    ensures
        r@ == funding_rate_factor_value(),
{
    U256 { limbs: [100, 0, 0, 0] }
}

/// Funding rate factor of stable tokens.
pub open spec fn stable_funding_rate_factor_value() -> nat {
    100nat
}

/// Funding rate factor of stable tokens.
pub fn stable_funding_rate_factor() -> (r: U256)
    ensures
        r@ == stable_funding_rate_factor_value(),
{
    U256 { limbs: [100, 0, 0, 0] }
}

/// Fee paid to the liquidator, 0.05 USD.
pub open spec fn liquidation_fee_usd_value() -> nat {
    50000000000000000000000000000nat
}

/// Fee paid to the liquidator, 0.05 USD.
pub fn liquidation_fee_usd() -> (r: U256)
    ensures
        r@ == liquidation_fee_usd_value(),
{
    U256 { limbs: [3943196028257173504, 2710505431, 0, 0] }
}

/// Largest leverage, 50x, in basis points.
pub open spec fn max_leverage_value() -> nat {
    500000nat
}

/// Largest leverage, 50x, in basis points.
pub fn max_leverage() -> (r: U256)
    ensures
        r@ == max_leverage_value(),
{
    U256 { limbs: [500000, 0, 0, 0] }
}

/// Smallest execution fee of an order.
pub open spec fn min_execution_fee_value() -> nat {
    1000nat
}

/// Smallest execution fee of an order, as the word that errors report.
pub open spec fn min_execution_fee_word() -> U256 {
    U256 { limbs: [1000, 0, 0, 0] }
}

/// Smallest execution fee of an order.
pub fn min_execution_fee() -> (r: U256)
    ensures
        r@ == min_execution_fee_value(),
        r == min_execution_fee_word(),
{
    U256 { limbs: [1000, 0, 0, 0] }
}

/// Time between adding and removing liquidity, 24 hours.
pub open spec fn olp_manager_cooldown_value() -> nat {
    86400nat
}

/// Time between adding and removing liquidity, 24 hours.
pub fn olp_manager_cooldown() -> (r: U256)
    ensures
        r@ == olp_manager_cooldown_value(),
{
    U256 { limbs: [86400, 0, 0, 0] }
}

/// Amount added to the assets under management.
pub open spec fn olp_manager_aum_addition_value() -> nat {
    0nat
}

/// Amount added to the assets under management.
pub fn olp_manager_aum_addition() -> (r: U256)
    ensures
        r@ == olp_manager_aum_addition_value(),
{
    U256 { limbs: [0, 0, 0, 0] }
}

/// Amount deducted from the assets under management.
pub open spec fn olp_manager_aum_deduction_value() -> nat {
    0nat
}

/// Amount deducted from the assets under management.
pub fn olp_manager_aum_deduction() -> (r: U256)
    ensures
        r@ == olp_manager_aum_deduction_value(),
{
    U256 { limbs: [0, 0, 0, 0] }
}

/// Rewards are distributed per hour.
pub open spec fn distribution_interval_value() -> nat {
    3600nat
}

/// Rewards are distributed per hour.
pub fn distribution_interval() -> (r: U256)
    ensures
        r@ == distribution_interval_value(),
{
    U256 { limbs: [3600, 0, 0, 0] }
}

} // verus!
