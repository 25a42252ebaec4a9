//! The swap manager: minting USDO against tokens, redeeming USDO for tokens
//! and swapping one token for another through the pool.

use vstd::prelude::*;
use crate::address::Address;
use crate::constants::{
    mint_burn_fee_basis_points, mint_burn_fee_basis_points_value, price_precision,
    price_precision_value, USDO_DECIMALS,
};
use crate::errors::{OmxError, VaultError};
use crate::fee_manager::{
    swap_fee_outcome, collect_swap_fees_spec, get_swap_fee_basis_points,
    swap_fee_basis_points_spec,
};
use crate::funding::{update_cumulative_funding_rate, update_funding_spec, FundingInputs, FundingState, FundingStateV};
use crate::safe_math::{add_spec, mul_ratio_spec, rv, safe_add, safe_mul_ratio, safe_sub};
use crate::uint::{u256_eq, u256_lt, U256};
use crate::vault::{
    decrease_pool_spec, increase_pool_spec, transfer_in_spec, validate, PoolLedger, PoolLedgerV,
};
use crate::vault_utils::{decimals_scale, token_scale};

verus! {

/// `only_manager`: the manager must be initialized, and in manager mode only
/// managers may call.
pub open spec fn only_manager_spec(initialized: bool, in_manager_mode: bool, sender_is_manager: bool) -> Result<(), OmxError> {
    if !initialized {
        Err(OmxError::Vault(VaultError::Forbidden))
    } else if in_manager_mode && !sender_is_manager {
        Err(OmxError::Vault(VaultError::ManagerOnly))
    } else {
        Ok(())
    }
}

/// Only a manager may go on when manager mode is on.
pub fn only_manager(initialized: bool, in_manager_mode: bool, sender_is_manager: bool) -> (r: Result<(), OmxError>)
    ensures
        r == only_manager_spec(initialized, in_manager_mode, sender_is_manager),
{
    validate(initialized, VaultError::Forbidden)?;
    if in_manager_mode {
        validate(sender_is_manager, VaultError::ManagerOnly)?;
    }
    Ok(())
}

/// The USDO debt of a token after `amount` of it is repaid, floored at zero,
/// and the amount logged as repaid.
pub open spec fn decrease_usdo_amount_spec(value: nat, amount: nat) -> (nat, nat) {
    if value <= amount {
        (0, value)
    } else {
        ((value - amount) as nat, amount)
    }
}

/// Lowering a token's USDO debt, floored at zero.
pub fn decrease_usdo_amount(value: U256, amount: U256) -> (r: (U256, U256))
    ensures
        (r.0@, r.1@) == decrease_usdo_amount_spec(value@, amount@),
{
    if !u256_lt(amount, value) {
        return (U256::zero(), value);
    }
    match safe_sub(value, amount) {
        Ok(v) => (v, amount),
        Err(_) => (U256::zero(), value),
    }
}

/// The USDO debt of a token after `amount` more, within its maximum when one is set.
pub open spec fn increase_usdo_amount_spec(value: nat, amount: nat, max_usdo_amount: nat) -> Result<nat, OmxError> {
    match add_spec(value, amount) {
        Err(e) => Err(e),
        Ok(v) => if max_usdo_amount != 0 && v > max_usdo_amount {
            Err(OmxError::Vault(VaultError::MaxUsdoAmountExceeded))
        } else {
            Ok(v)
        },
    }
}

/// Raising a token's USDO debt, within its cap.
pub fn increase_usdo_amount(value: U256, amount: U256, max_usdo_amount: U256) -> (r: Result<U256, OmxError>)
    ensures
        rv(r) == increase_usdo_amount_spec(value@, amount@, max_usdo_amount@),
{
    let usdo_amount = safe_add(value, amount)?;
    if !u256_eq(max_usdo_amount, U256::zero()) {
        validate(!u256_lt(max_usdo_amount, usdo_amount), VaultError::MaxUsdoAmountExceeded)?;
    }
    Ok(usdo_amount)
}

/// The decimals to use for a token: USDO's own for USDO, else the vault's.
pub open spec fn decimals_of_spec(token: Address, usdo: Address, vault_decimals: u8) -> u8 {
    if token == usdo {
        USDO_DECIMALS
    } else {
        vault_decimals
    }
}

/// The decimals of `token`, given the USDO address and the vault's decimals of it.
pub fn decimals_of(token: Address, usdo: Address, vault_decimals: u8) -> (r: u8)
    ensures
        r == decimals_of_spec(token, usdo, vault_decimals),
{
    if token == usdo {
        USDO_DECIMALS
    } else {
        vault_decimals
    }
}

/// An amount of a token with `decimals_div` decimals expressed in a token
/// with `decimals_mul` decimals.
pub open spec fn adjust_for_decimals_spec(amount: nat, decimals_div: u8, decimals_mul: u8) -> Result<nat, OmxError> {
    mul_ratio_spec(amount, decimals_scale(decimals_mul), decimals_scale(decimals_div))
}

/// Converting an amount between token decimals, given the decimals of both tokens.
pub fn adjust_for_decimals(amount: U256, decimals_div: u8, decimals_mul: u8) -> (r: Result<U256, OmxError>)
    ensures
        rv(r) == adjust_for_decimals_spec(amount@, decimals_div, decimals_mul),
{
    safe_mul_ratio(amount, token_scale(decimals_mul), token_scale(decimals_div))
}

/// What the swap manager and its neighbours hold of one token: the vault's
/// ledger, whitelisting, stability and decimals, the price, the USDO debt and
/// its maximum, the fee reserve, the buffer and the funding state.
#[derive(Clone, Copy, Debug, PartialEq, Eq)]
pub struct SwapToken {
    pub pool: PoolLedger,
    pub is_whitelisted: bool,
    pub is_stable: bool,
    pub decimals: u8,
    pub price: U256,
    pub usdo_amount: U256,
    pub max_usdo_amount: U256,
    pub fee_reserve: U256,
    pub buffer_amount: U256,
    pub funding: FundingState,
}

pub struct SwapTokenV {
    pub pool: PoolLedgerV,
    pub is_whitelisted: bool,
    pub is_stable: bool,
    pub decimals: u8,
    pub price: nat,
    pub usdo_amount: nat,
    pub max_usdo_amount: nat,
    pub fee_reserve: nat,
    pub buffer_amount: nat,
    pub funding: FundingStateV,
}

impl View for SwapToken {
    type V = SwapTokenV;

    open spec fn view(&self) -> SwapTokenV {
        SwapTokenV {
            pool: self.pool@,
            is_whitelisted: self.is_whitelisted,
            is_stable: self.is_stable,
            decimals: self.decimals,
            price: self.price@,
            usdo_amount: self.usdo_amount@,
            max_usdo_amount: self.max_usdo_amount@,
            fee_reserve: self.fee_reserve@,
            buffer_amount: self.buffer_amount@,
            funding: self.funding@,
        }
    }
}

/// The token's funding update, as the swap manager triggers it.
pub open spec fn token_funding_spec(funding_initialized: bool, t: SwapTokenV, now: nat) -> Result<FundingStateV, OmxError> {
    update_funding_spec(funding_initialized, t.funding, now, t.pool.pool_amount, t.pool.reserved_amount, t.is_stable)
}

/// The result of minting USDO: the token afterwards, the USDO to mint to the
/// receiver and the tokens received.
#[derive(Clone, Copy, Debug, PartialEq, Eq)]
pub struct BuyUsdoOutcome {
    pub token: SwapToken,
    pub mint_amount: U256,
    pub token_amount: U256,
}

pub struct BuyUsdoOutcomeV {
    pub token: SwapTokenV,
    pub mint_amount: nat,
    pub token_amount: nat,
}

impl View for BuyUsdoOutcome {
    type V = BuyUsdoOutcomeV;

    open spec fn view(&self) -> BuyUsdoOutcomeV {
        BuyUsdoOutcomeV { token: self.token@, mint_amount: self.mint_amount@, token_amount: self.token_amount@ }
    }
}

pub open spec fn buv(r: Result<BuyUsdoOutcome, OmxError>) -> Result<BuyUsdoOutcomeV, OmxError> {
    match r {
        Ok(o) => Ok(o@),
        Err(e) => Err(e),
    }
}

/// Minting USDO against the tokens deposited: their USD value after the
/// mint fee, with USDO's decimals; the fee joins the reserve and the rest the pool.
pub open spec fn buy_usdo_spec(funding_initialized: bool, t: SwapTokenV, now: nat) -> Result<BuyUsdoOutcomeV, OmxError> {
    if !t.is_whitelisted {
        Err(OmxError::Vault(VaultError::TokenNotWhitelisted))
    } else {
        match transfer_in_spec(t.pool) {
            Err(e) => Err(e),
            Ok((pool1, amount)) => if amount == 0 {
                Err(OmxError::Vault(VaultError::ZeroAmount))
            } else {
                let t1 = SwapTokenV { pool: pool1, ..t };
                match token_funding_spec(funding_initialized, t1, now) {
                    Err(e) => Err(e),
                    Ok(f) => match mul_ratio_spec(amount, t.price, price_precision_value()) {
                        Err(e) => Err(e),
                        Ok(usd) => match adjust_for_decimals_spec(usd, t.decimals, USDO_DECIMALS) {
                            Err(e) => Err(e),
                            Ok(usdo_amount) => if usdo_amount == 0 {
                                Err(OmxError::Vault(VaultError::ZeroUsdoAmount))
                            } else {
                                match collect_swap_fees_spec(t.fee_reserve, amount, mint_burn_fee_basis_points_value(), t.price, t.decimals) {
                                    Err(e) => Err(e),
                                    Ok(fees) => match mul_ratio_spec(fees.amount_after_fee, t.price, price_precision_value()) {
                                        Err(e) => Err(e),
                                        Ok(mint_usd) => match adjust_for_decimals_spec(mint_usd, t.decimals, USDO_DECIMALS) {
                                            Err(e) => Err(e),
                                            Ok(mint_amount) => if mint_amount == 0 {
                                                Err(OmxError::Vault(VaultError::ZeroUsdoAmount))
                                            } else {
                                                match increase_usdo_amount_spec(t.usdo_amount, mint_amount, t.max_usdo_amount) {
                                                    Err(e) => Err(e),
                                                    Ok(debt) => match increase_pool_spec(pool1, fees.amount_after_fee) {
                                                        Err(e) => Err(e),
                                                        Ok(pool2) => Ok(
                                                            BuyUsdoOutcomeV {
                                                                token: SwapTokenV {
                                                                    pool: pool2,
                                                                    usdo_amount: debt,
                                                                    fee_reserve: fees.fee_reserve,
                                                                    funding: f,
                                                                    ..t
                                                                },
                                                                mint_amount,
                                                                token_amount: amount,
                                                            },
                                                        ),
                                                    },
                                                }
                                            },
                                        },
                                    },
                                }
                            },
                        },
                    },
                }
            },
        }
    }
}

/// Buying USDO with a token, given the token's state;
/// the USDO minted is the outcome's `mint_amount`.
pub fn buy_usdo(funding_initialized: bool, t: SwapToken, now: u64) -> (r: Result<BuyUsdoOutcome, OmxError>)
    ensures
        buv(r) == buy_usdo_spec(funding_initialized, t@, now as nat),
{
    validate(t.is_whitelisted, VaultError::TokenNotWhitelisted)?;
    let (pool1, token_amount) = t.pool.transfer_in()?;
    validate(u256_lt(U256::zero(), token_amount), VaultError::ZeroAmount)?;
    let inputs = FundingInputs {
        pool_amount: pool1.pool_amount,
        reserved_amount: pool1.reserved_amount,
        is_stable: t.is_stable,
    };
    let f = update_cumulative_funding_rate(funding_initialized, t.funding, now, inputs)?;
    let usdo_amount = safe_mul_ratio(token_amount, t.price, price_precision())?;
    let usdo_amount = adjust_for_decimals(usdo_amount, t.decimals, USDO_DECIMALS)?;
    validate(u256_lt(U256::zero(), usdo_amount), VaultError::ZeroUsdoAmount)?;
    let fees = swap_fee_outcome(t.fee_reserve, token_amount, mint_burn_fee_basis_points(), t.price, t.decimals)?;
    let mint_amount = safe_mul_ratio(fees.amount_after_fee, t.price, price_precision())?;
    let mint_amount = adjust_for_decimals(mint_amount, t.decimals, USDO_DECIMALS)?;
    validate(u256_lt(U256::zero(), mint_amount), VaultError::ZeroUsdoAmount)?;
    let debt = increase_usdo_amount(t.usdo_amount, mint_amount, t.max_usdo_amount)?;
    let pool2 = pool1.increase_pool_amount(fees.amount_after_fee)?;
    Ok(
        BuyUsdoOutcome {
            token: SwapToken { pool: pool2, usdo_amount: debt, fee_reserve: fees.fee_reserve, funding: f, ..t },
            mint_amount,
            token_amount,
        },
    )
}

/// The result of redeeming USDO: the token afterwards, the USDO ledger
/// afterwards (before the burn), the USDO to burn and the tokens to send.
#[derive(Clone, Copy, Debug, PartialEq, Eq)]
pub struct SellUsdoOutcome {
    pub token: SwapToken,
    pub usdo_pool: PoolLedger,
    pub usdo_amount: U256,
    pub amount_out: U256,
}

pub struct SellUsdoOutcomeV {
    pub token: SwapTokenV,
    pub usdo_pool: PoolLedgerV,
    pub usdo_amount: nat,
    pub amount_out: nat,
}

impl View for SellUsdoOutcome {
    type V = SellUsdoOutcomeV;

    open spec fn view(&self) -> SellUsdoOutcomeV {
        SellUsdoOutcomeV {
            token: self.token@,
            usdo_pool: self.usdo_pool@,
            usdo_amount: self.usdo_amount@,
            amount_out: self.amount_out@,
        }
    }
}

pub open spec fn suv(r: Result<SellUsdoOutcome, OmxError>) -> Result<SellUsdoOutcomeV, OmxError> {
    match r {
        Ok(o) => Ok(o@),
        Err(e) => Err(e),
    }
}

/// Redeeming the USDO deposited for tokens worth it, less the burn fee.
pub open spec fn sell_usdo_spec(
    funding_initialized: bool,
    t: SwapTokenV,
    usdo_pool: PoolLedgerV,
    now: nat,
) -> Result<SellUsdoOutcomeV, OmxError> {
    if !t.is_whitelisted {
        Err(OmxError::Vault(VaultError::TokenNotWhitelisted))
    } else {
        match transfer_in_spec(usdo_pool) {
            Err(e) => Err(e),
            Ok((usdo_pool1, usdo_amount)) => if usdo_amount == 0 {
                Err(OmxError::Vault(VaultError::ZeroUsdoAmount))
            } else {
                match token_funding_spec(funding_initialized, t, now) {
                    Err(e) => Err(e),
                    Ok(f) => match mul_ratio_spec(usdo_amount, price_precision_value(), t.price) {
                        Err(e) => Err(e),
                        Ok(r0) => match adjust_for_decimals_spec(r0, USDO_DECIMALS, t.decimals) {
                            Err(e) => Err(e),
                            Ok(redemption) => if redemption == 0 {
                                Err(OmxError::Vault(VaultError::ZeroRedemptionAmount))
                            } else {
                                let debt = decrease_usdo_amount_spec(t.usdo_amount, usdo_amount).0;
                                match decrease_pool_spec(t.pool, redemption) {
                                    Err(e) => Err(e),
                                    Ok(pool1) => match collect_swap_fees_spec(
                                        t.fee_reserve,
                                        redemption,
                                        mint_burn_fee_basis_points_value(),
                                        t.price,
                                        t.decimals,
                                    ) {
                                        Err(e) => Err(e),
                                        Ok(fees) => if fees.amount_after_fee == 0 {
                                            Err(OmxError::Vault(VaultError::ZeroAmount))
                                        } else {
                                            Ok(
                                                SellUsdoOutcomeV {
                                                    token: SwapTokenV {
                                                        pool: pool1,
                                                        usdo_amount: debt,
                                                        fee_reserve: fees.fee_reserve,
                                                        funding: f,
                                                        ..t
                                                    },
                                                    usdo_pool: usdo_pool1,
                                                    usdo_amount,
                                                    amount_out: fees.amount_after_fee,
                                                },
                                            )
                                        },
                                    },
                                }
                            },
                        },
                    },
                }
            },
        }
    }
}

/// Selling USDO for a token, given the token's state
/// and the vault's ledger of USDO.
pub fn sell_usdo(
    funding_initialized: bool,
    t: SwapToken,
    usdo_pool: PoolLedger,
    now: u64,
) -> (r: Result<SellUsdoOutcome, OmxError>)
    ensures
        suv(r) == sell_usdo_spec(funding_initialized, t@, usdo_pool@, now as nat),
{
    validate(t.is_whitelisted, VaultError::TokenNotWhitelisted)?;
    let (usdo_pool1, usdo_amount) = usdo_pool.transfer_in()?;
    validate(u256_lt(U256::zero(), usdo_amount), VaultError::ZeroUsdoAmount)?;
    let inputs = FundingInputs {
        pool_amount: t.pool.pool_amount,
        reserved_amount: t.pool.reserved_amount,
        is_stable: t.is_stable,
    };
    let f = update_cumulative_funding_rate(funding_initialized, t.funding, now, inputs)?;
    let redemption = safe_mul_ratio(usdo_amount, price_precision(), t.price)?;
    let redemption = adjust_for_decimals(redemption, USDO_DECIMALS, t.decimals)?;
    validate(u256_lt(U256::zero(), redemption), VaultError::ZeroRedemptionAmount)?;
    let (debt, _) = decrease_usdo_amount(t.usdo_amount, usdo_amount);
    let pool1 = t.pool.decrease_pool_amount(redemption)?;
    let fees = swap_fee_outcome(t.fee_reserve, redemption, mint_burn_fee_basis_points(), t.price, t.decimals)?;
    validate(u256_lt(U256::zero(), fees.amount_after_fee), VaultError::ZeroAmount)?;
    Ok(
        SellUsdoOutcome {
            token: SwapToken { pool: pool1, usdo_amount: debt, fee_reserve: fees.fee_reserve, funding: f, ..t },
            usdo_pool: usdo_pool1,
            usdo_amount,
            amount_out: fees.amount_after_fee,
        },
    )
}

/// The result of a swap: both tokens afterwards, the amount out before and
/// after fees, and the fee rate.
#[derive(Clone, Copy, Debug, PartialEq, Eq)]
pub struct SwapOutcome {
    pub token_in: SwapToken,
    pub token_out: SwapToken,
    pub amount_in: U256,
    pub amount_out: U256,
    pub amount_out_after_fees: U256,
    pub fee_basis_points: U256,
}

pub struct SwapOutcomeV {
    pub token_in: SwapTokenV,
    pub token_out: SwapTokenV,
    pub amount_in: nat,
    pub amount_out: nat,
    pub amount_out_after_fees: nat,
    pub fee_basis_points: nat,
}

impl View for SwapOutcome {
    type V = SwapOutcomeV;

    open spec fn view(&self) -> SwapOutcomeV {
        SwapOutcomeV {
            token_in: self.token_in@,
            token_out: self.token_out@,
            amount_in: self.amount_in@,
            amount_out: self.amount_out@,
            amount_out_after_fees: self.amount_out_after_fees@,
            fee_basis_points: self.fee_basis_points@,
        }
    }
}

pub open spec fn swv(r: Result<SwapOutcome, OmxError>) -> Result<SwapOutcomeV, OmxError> {
    match r {
        Ok(o) => Ok(o@),
        Err(e) => Err(e),
    }
}

/// Swapping the deposited `token_in` for `token_out` at the ratio of their
/// prices, less the swap fee; the USDO debt moves from one token to the other.
pub open spec fn swap_spec(
    funding_initialized: bool,
    same_token: bool,
    a: SwapTokenV,
    b: SwapTokenV,
    now: nat,
) -> Result<SwapOutcomeV, OmxError> {
    if !a.is_whitelisted || !b.is_whitelisted {
        Err(OmxError::Vault(VaultError::TokenNotWhitelisted))
    } else if same_token {
        Err(OmxError::Vault(VaultError::SameToken))
    } else {
        match token_funding_spec(funding_initialized, a, now) {
            Err(e) => Err(e),
            Ok(fa) => match token_funding_spec(funding_initialized, b, now) {
                Err(e) => Err(e),
                Ok(fb) => match transfer_in_spec(a.pool) {
                    Err(e) => Err(e),
                    Ok((pool_a1, amount_in)) => if amount_in == 0 {
                        Err(OmxError::Vault(VaultError::ZeroAmount))
                    } else {
                        match mul_ratio_spec(amount_in, a.price, b.price) {
                            Err(e) => Err(e),
                            Ok(o0) => match adjust_for_decimals_spec(o0, a.decimals, b.decimals) {
                                Err(e) => Err(e),
                                Ok(amount_out) => match mul_ratio_spec(amount_in, a.price, price_precision_value()) {
                                    Err(e) => Err(e),
                                    Ok(u0) => match adjust_for_decimals_spec(u0, a.decimals, USDO_DECIMALS) {
                                        Err(e) => Err(e),
                                        Ok(usdo_amount) => {
                                            let bps = swap_fee_basis_points_spec(a.is_stable, b.is_stable);
                                            match collect_swap_fees_spec(b.fee_reserve, amount_out, bps, b.price, b.decimals) {
                                                Err(e) => Err(e),
                                                Ok(fees) => match increase_usdo_amount_spec(a.usdo_amount, usdo_amount, a.max_usdo_amount) {
                                                    Err(e) => Err(e),
                                                    Ok(debt_a) => {
                                                        let debt_b = decrease_usdo_amount_spec(b.usdo_amount, usdo_amount).0;
                                                        match increase_pool_spec(pool_a1, amount_in) {
                                                            Err(e) => Err(e),
                                                            Ok(pool_a2) => match decrease_pool_spec(b.pool, amount_out) {
                                                                Err(e) => Err(e),
                                                                Ok(pool_b1) => if pool_b1.pool_amount < b.buffer_amount {
                                                                    Err(OmxError::Vault(VaultError::PoolLessThenBuffer))
                                                                } else {
                                                                    Ok(
                                                                        SwapOutcomeV {
                                                                            token_in: SwapTokenV {
                                                                                pool: pool_a2,
                                                                                usdo_amount: debt_a,
                                                                                funding: fa,
                                                                                ..a
                                                                            },
                                                                            token_out: SwapTokenV {
                                                                                pool: pool_b1,
                                                                                usdo_amount: debt_b,
                                                                                fee_reserve: fees.fee_reserve,
                                                                                funding: fb,
                                                                                ..b
                                                                            },
                                                                            amount_in,
                                                                            amount_out,
                                                                            amount_out_after_fees: fees.amount_after_fee,
                                                                            fee_basis_points: bps,
                                                                        },
                                                                    )
                                                                },
                                                            },
                                                        }
                                                    },
                                                },
                                            }
                                        },
                                    },
                                },
                            },
                        }
                    },
                },
            },
        }
    }
}

/// Swapping one token for another, given whether both tokens are the same and the state
/// of each.
pub fn swap(
    funding_initialized: bool,
    same_token: bool,
    a: SwapToken,
    b: SwapToken,
    now: u64,
) -> (r: Result<SwapOutcome, OmxError>)
    ensures
        swv(r) == swap_spec(funding_initialized, same_token, a@, b@, now as nat),
{
    validate(a.is_whitelisted, VaultError::TokenNotWhitelisted)?;
    validate(b.is_whitelisted, VaultError::TokenNotWhitelisted)?;
    validate(!same_token, VaultError::SameToken)?;
    let fa = update_cumulative_funding_rate(
        funding_initialized,
        a.funding,
        now,
        FundingInputs { pool_amount: a.pool.pool_amount, reserved_amount: a.pool.reserved_amount, is_stable: a.is_stable },
    )?;
    let fb = update_cumulative_funding_rate(
        funding_initialized,
        b.funding,
        now,
        FundingInputs { pool_amount: b.pool.pool_amount, reserved_amount: b.pool.reserved_amount, is_stable: b.is_stable },
    )?;
    let (pool_a1, amount_in) = a.pool.transfer_in()?;
    validate(u256_lt(U256::zero(), amount_in), VaultError::ZeroAmount)?;
    let amount_out = safe_mul_ratio(amount_in, a.price, b.price)?;
    let amount_out = adjust_for_decimals(amount_out, a.decimals, b.decimals)?;
    let usdo_amount = safe_mul_ratio(amount_in, a.price, price_precision())?;
    let usdo_amount = adjust_for_decimals(usdo_amount, a.decimals, USDO_DECIMALS)?;
    let bps = get_swap_fee_basis_points(a.is_stable, b.is_stable);
    let fees = swap_fee_outcome(b.fee_reserve, amount_out, bps, b.price, b.decimals)?;
    let debt_a = increase_usdo_amount(a.usdo_amount, usdo_amount, a.max_usdo_amount)?;
    let (debt_b, _) = decrease_usdo_amount(b.usdo_amount, usdo_amount);
    let pool_a2 = pool_a1.increase_pool_amount(amount_in)?;
    let pool_b1 = b.pool.decrease_pool_amount(amount_out)?;
    validate(!u256_lt(pool_b1.pool_amount, b.buffer_amount), VaultError::PoolLessThenBuffer)?;
    Ok(
        SwapOutcome {
            token_in: SwapToken { pool: pool_a2, usdo_amount: debt_a, funding: fa, ..a },
            token_out: SwapToken {
                pool: pool_b1,
                usdo_amount: debt_b,
                fee_reserve: fees.fee_reserve,
                funding: fb,
                ..b
            },
            amount_in,
            amount_out,
            amount_out_after_fees: fees.amount_after_fee,
            fee_basis_points: bps,
        },
    )
}

/// Lowering a token's USDO debt by `amount` removes what there is of it, at
/// most the whole debt: the removed part and the remaining debt add up to the
/// debt before.
pub proof fn lemma_usdo_debt_decrease(value: nat, amount: nat)
    ensures
        ({
            let (left, removed) = decrease_usdo_amount_spec(value, amount);
            &&& left + removed == value
            &&& removed == if amount < value { amount } else { value }
        }),
{
}

/// Buying USDO, stated on its own: the tokens received are what arrived in
/// the vault since its last recorded balance; 0.3% of them is the mint fee,
/// which joins the fee reserve, and the rest joins the pool; the USDO minted
/// is the USD value of the rest (`kept * price / 10^30`), moved from the
/// token's decimals to USDO's 18, and it is added to the token's USDO debt.
pub proof fn lemma_buy_usdo_mints_the_value_after_fee(funding_initialized: bool, t: SwapTokenV, now: nat)
    requires
        buy_usdo_spec(funding_initialized, t, now) is Ok,
    ensures
        ({
            let out = buy_usdo_spec(funding_initialized, t, now).unwrap();
            let received = out.token_amount;
            let kept = received * 9970 / 10000;
            &&& received == t.pool.balance - t.pool.token_balance
            &&& out.token.pool.pool_amount == t.pool.pool_amount + kept
            &&& out.token.fee_reserve == t.fee_reserve + (received - kept)
            &&& out.mint_amount == kept * t.price / 1000000000000000000000000000000nat * decimals_scale(18)
                / decimals_scale(t.decimals)
            &&& out.token.usdo_amount == t.usdo_amount + out.mint_amount
        }),
{
}

} // verus!
