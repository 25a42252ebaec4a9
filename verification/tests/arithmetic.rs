use omx::constants::{
    basis_points_divisor, day, funding_interval, hour, liquidation_fee_usd, margin_fee_basis_points,
    max_leverage, min_execution_fee, olp_manager_cooldown, price_precision, stable_swap_fee_basis_points,
    stable_tax_basis_points, swap_fee_basis_points, tax_basis_points, week, year,
};
use omx::errors::{MathError, MulRatioError, OmxError, SafeSubToIntError, VaultError};
use omx::safe_math::{
    safe_add, safe_add_int, safe_div, safe_mul, safe_mul_ratio, safe_sub, safe_sub_to_int,
};
use omx::uint::{I256, U256};
use omx::vault_utils::{get_utilization, token_scale, token_to_usd, usd_to_token};

fn u(x: u128) -> U256 {
    U256 { limbs: [x as u64, (x >> 64) as u64, 0, 0] }
}

fn max() -> U256 {
    U256 { limbs: [u64::MAX; 4] }
}

fn i(x: i128) -> I256 {
    let ext = if x < 0 { u64::MAX } else { 0 };
    I256 { limbs: [x as u64, (x >> 64) as u64, ext, ext] }
}

const E30: u128 = 1_000_000_000_000_000_000_000_000_000_000;
const E18: u128 = 1_000_000_000_000_000_000;

#[test]
fn safe_add_sums_and_reports_overflow() {
    assert_eq!(safe_add(u(2), u(3)), Ok(u(5)));
    assert_eq!(safe_add(max(), u(0)), Ok(max()));
    assert_eq!(safe_add(max(), u(1)), Err(OmxError::Math(MathError::AddOverflow)));
}

#[test]
fn safe_sub_subtracts_and_reports_underflow() {
    assert_eq!(safe_sub(u(5), u(3)), Ok(u(2)));
    assert_eq!(safe_sub(u(3), u(3)), Ok(u(0)));
    assert_eq!(safe_sub(u(3), u(5)), Err(OmxError::Math(MathError::SubUnderflow)));
}

#[test]
fn safe_mul_multiplies_and_reports_overflow() {
    assert_eq!(safe_mul(u(6), u(7)), Ok(u(42)));
    assert_eq!(safe_mul(u(1 << 64), u(1 << 64)), Ok(U256 { limbs: [0, 0, 1, 0] }));
    assert_eq!(safe_mul(max(), u(2)), Err(OmxError::Math(MathError::MulOverflow)));
}

#[test]
fn safe_div_rounds_down_and_reports_zero_divisor() {
    assert_eq!(safe_div(u(7), u(2)), Ok(u(3)));
    assert_eq!(safe_div(u(7), u(0)), Err(OmxError::Math(MathError::DivByZero)));
}

#[test]
fn safe_mul_ratio_uses_a_wide_product() {
    assert_eq!(safe_mul_ratio(u(10), u(3), u(4)), Ok(u(7)));
    // max * max does not fit in 256 bits, but the quotient does.
    assert_eq!(safe_mul_ratio(max(), max(), max()), Ok(max()));
    assert_eq!(
        safe_mul_ratio(u(1), u(1), u(0)),
        Err(OmxError::MulRatio(MulRatioError::DivideByZero))
    );
    assert_eq!(
        safe_mul_ratio(max(), u(2), u(1)),
        Err(OmxError::MulRatio(MulRatioError::ResultOverflow))
    );
}

#[test]
fn safe_add_int_adds_a_signed_amount() {
    assert_eq!(safe_add_int(u(10), i(5)), Ok(u(15)));
    assert_eq!(safe_add_int(u(10), i(-3)), Ok(u(7)));
    assert_eq!(safe_add_int(u(1), i(-2)), Err(OmxError::Math(MathError::SubUnderflow)));
    assert_eq!(safe_add_int(max(), i(1)), Err(OmxError::Math(MathError::AddOverflow)));
}

#[test]
fn safe_sub_to_int_gives_a_signed_difference() {
    assert_eq!(safe_sub_to_int(u(10), u(3)), Ok(i(7)));
    assert_eq!(safe_sub_to_int(u(3), u(10)), Ok(i(-7)));
    assert_eq!(safe_sub_to_int(u(4), u(4)), Ok(i(0)));
    assert_eq!(
        safe_sub_to_int(max(), u(0)),
        Err(OmxError::SubToInt(SafeSubToIntError::ToIntOverflow))
    );
}

#[test]
fn token_scale_is_a_power_of_ten() {
    assert_eq!(token_scale(0), u(1));
    assert_eq!(token_scale(6), u(1_000_000));
    assert_eq!(token_scale(18), u(E18));
}

#[test]
fn token_and_usd_amounts_convert_both_ways() {
    let price = u(1500 * E30);
    assert_eq!(token_to_usd(u(2 * E18), price, 18), Ok(u(3000 * E30)));
    assert_eq!(usd_to_token(u(3000 * E30), price, 18), Ok(u(2 * E18)));
    assert_eq!(token_to_usd(u(0), u(0), 18), Ok(u(0)));
    assert_eq!(usd_to_token(u(0), u(0), 18), Ok(u(0)));
    assert_eq!(
        usd_to_token(u(1), u(0), 18),
        Err(OmxError::MulRatio(MulRatioError::DivideByZero))
    );
}

#[test]
fn utilization_is_the_reserved_share_of_the_pool() {
    assert_eq!(get_utilization(u(100), u(25)), Ok(u(250_000)));
    assert_eq!(get_utilization(u(0), u(25)), Ok(u(0)));
}

#[test]
fn error_messages_read_as_the_contracts_encode_them() {
    assert_eq!(VaultError::PoolLessThenReserved.text(), "Vault: pool_amount < reserved");
    assert_eq!(VaultError::SameToken.text(), "Vault: token in and token out are the same");
    assert_eq!(MathError::AddOverflow.text(), "Add: overflow");
    assert_eq!(MathError::DivByZero.text(), "Div: divide by zero");
    assert_eq!(MulRatioError::ResultOverflow.text(), "MulRatio: result overflow");
    assert_eq!(SafeSubToIntError::ToIntOverflow.text(), "SafeSubToInt: to_int overflow");
    assert_eq!(
        omx::errors::WethError::InsufficientBalance.text(),
        "Weth: insufficient balance"
    );
    assert_eq!(
        omx::errors::RouterError::HighMarkPrice.text(),
        "Router: mark price higher than limit"
    );
    assert_eq!(
        omx::errors::VaultPriceFeedError::InvalidAdjustmentBps.text(),
        "VaultPriceFeed: invalid adjustment_bps"
    );
}

#[test]
fn protocol_constants_have_their_values() {
    assert_eq!(hour(), u(3600));
    assert_eq!(day(), u(86_400));
    assert_eq!(week(), u(604_800));
    assert_eq!(year(), u(31_536_000));
    assert_eq!(price_precision(), u(E30));
    assert_eq!(basis_points_divisor(), u(10_000));
    assert_eq!(tax_basis_points(), u(50));
    assert_eq!(stable_tax_basis_points(), u(20));
    assert_eq!(swap_fee_basis_points(), u(30));
    assert_eq!(stable_swap_fee_basis_points(), u(4));
    assert_eq!(margin_fee_basis_points(), u(10));
    assert_eq!(funding_interval(), hour());
    assert_eq!(liquidation_fee_usd(), u(E30 / 20));
    assert_eq!(max_leverage(), u(500_000));
    assert_eq!(min_execution_fee(), u(1000));
    assert_eq!(olp_manager_cooldown(), day());
}
