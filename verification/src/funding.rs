//! The funding rate manager: funding accrues per hour in proportion to the
//! share of the pool that is reserved.

use vstd::prelude::*;
use crate::constants::{
    funding_interval, funding_interval_value, funding_rate_factor, funding_rate_factor_value,
    stable_funding_rate_factor, stable_funding_rate_factor_value,
};
use crate::errors::{OmxError, VaultError};
use crate::safe_math::{
    add_spec, div_spec, mul_ratio_spec, mul_spec, rv, safe_add, safe_div, safe_mul,
    safe_mul_ratio, safe_sub, sub_spec,
};
use crate::uint::{u256_eq, u256_lt, u256_max, U256};
use crate::vault::validate;

verus! {

/// What the next funding rate of a token depends on in the vault.
#[derive(Clone, Copy, Debug, PartialEq, Eq)]
pub struct FundingInputs {
    pub pool_amount: U256,
    pub reserved_amount: U256,
    pub is_stable: bool,
}

/// The funding rate that accrues since `last_funding_time`: for each whole
/// funding interval passed, the rate factor times the reserved share of the pool.
pub open spec fn next_funding_rate_spec(
    last_funding_time: nat,
    now: nat,
    pool_amount: nat,
    reserved_amount: nat,
    is_stable: bool,
) -> Result<nat, OmxError> {
    match add_spec(last_funding_time, funding_interval_value()) {
        Err(e) => Err(e),
        Ok(next) => if next > now {
            Ok(0)
        } else {
            match sub_spec(now, last_funding_time) {
                Err(e) => Err(e),
                Ok(elapsed) => match div_spec(elapsed, funding_interval_value()) {
                    Err(e) => Err(e),
                    Ok(intervals) => if pool_amount == 0 {
                        Ok(0)
                    } else {
                        let factor = if is_stable {
                            stable_funding_rate_factor_value()
                        } else {
                            funding_rate_factor_value()
                        };
                        match mul_spec(factor, reserved_amount) {
                            Err(e) => Err(e),
                            Ok(weighted) => mul_ratio_spec(weighted, intervals, pool_amount),
                        }
                    },
                },
            }
        },
    }
}

/// The funding rate accrued since the token's last funding time, given the token's last funding
/// time, the block time and the vault's figures of the token.
pub fn get_next_funding_rate(last_funding_time: U256, now: u64, vault: FundingInputs) -> (r: Result<U256, OmxError>)
    ensures
        rv(r) == next_funding_rate_spec(
            last_funding_time@,
            now as nat,
            vault.pool_amount@,
            vault.reserved_amount@,
            vault.is_stable,
        ),
{
    let time = U256::from_u64(now);
    if u256_lt(time, safe_add(last_funding_time, funding_interval())?) {
        return Ok(U256::zero());
    }
    let intervals = safe_div(safe_sub(time, last_funding_time)?, funding_interval())?;
    if u256_eq(vault.pool_amount, U256::zero()) {
        return Ok(U256::zero());
    }
    let factor = if vault.is_stable {
        stable_funding_rate_factor()
    } else {
        funding_rate_factor()
    };
    safe_mul_ratio(safe_mul(factor, vault.reserved_amount)?, intervals, vault.pool_amount)
}

/// The funding state of one token.
#[derive(Clone, Copy, Debug, PartialEq, Eq)]
pub struct FundingState {
    pub cumulative_funding_rate: U256,
    pub last_funding_time: U256,
}

pub struct FundingStateV {
    pub cumulative_funding_rate: nat,
    pub last_funding_time: nat,
}

impl View for FundingState {
    type V = FundingStateV;

    open spec fn view(&self) -> FundingStateV {
        FundingStateV {
            cumulative_funding_rate: self.cumulative_funding_rate@,
            last_funding_time: self.last_funding_time@,
        }
    }
}

/// The block time rounded down to a whole funding interval.
pub open spec fn interval_start(now: nat) -> nat {
    now / funding_interval_value() * funding_interval_value()
}

/// Updating the cumulative funding rate: the first update only starts the
/// clock; later ones, once an interval has passed, add the accrued rate and
/// move the clock to the current interval.
pub open spec fn update_funding_spec(
    initialized: bool,
    s: FundingStateV,
    now: nat,
    pool_amount: nat,
    reserved_amount: nat,
    is_stable: bool,
) -> Result<FundingStateV, OmxError> {
    if !initialized {
        Err(OmxError::Vault(VaultError::NotInitialized))
    } else if s.last_funding_time == 0 {
        Ok(FundingStateV { cumulative_funding_rate: s.cumulative_funding_rate, last_funding_time: interval_start(now) })
    } else {
        match add_spec(s.last_funding_time, funding_interval_value()) {
            Err(e) => Err(e),
            Ok(next) => if next > now {
                Ok(s)
            } else {
                match next_funding_rate_spec(s.last_funding_time, now, pool_amount, reserved_amount, is_stable) {
                    Err(e) => Err(e),
                    Ok(rate) => match add_spec(s.cumulative_funding_rate, rate) {
                        Err(e) => Err(e),
                        Ok(cumulative) => Ok(
                            FundingStateV { cumulative_funding_rate: cumulative, last_funding_time: interval_start(now) },
                        ),
                    },
                }
            },
        }
    }
}

pub open spec fn fsv(r: Result<FundingState, OmxError>) -> Result<FundingStateV, OmxError> {
    match r {
        Ok(s) => Ok(s@),
        Err(e) => Err(e),
    }
}

/// The funding update of one token: the cumulative funding rate grows by the
/// rate accrued over the whole intervals passed.
pub fn update_cumulative_funding_rate(
    initialized: bool,
    state: FundingState,
    now: u64,
    vault: FundingInputs,
) -> (r: Result<FundingState, OmxError>)
    ensures
        fsv(r) == update_funding_spec(
            initialized,
            state@,
            now as nat,
            vault.pool_amount@,
            vault.reserved_amount@,
            vault.is_stable,
        ),
        // The cumulative rate never decreases.
        r matches Ok(n) ==> n.cumulative_funding_rate@ >= state.cumulative_funding_rate@,
{
    validate(initialized, VaultError::NotInitialized)?;
    let start = U256::from_u64(now / 3600 * 3600);
    if u256_eq(state.last_funding_time, U256::zero()) {
        return Ok(FundingState { cumulative_funding_rate: state.cumulative_funding_rate, last_funding_time: start });
    }
    let time = U256::from_u64(now);
    if u256_lt(time, safe_add(state.last_funding_time, funding_interval())?) {
        return Ok(state);
    }
    let funding_rate = get_next_funding_rate(state.last_funding_time, now, vault)?;
    let cumulative = safe_add(state.cumulative_funding_rate, funding_rate)?;
    Ok(FundingState { cumulative_funding_rate: cumulative, last_funding_time: start })
}

proof fn lemma_interval_start(now: nat)
    ensures
        interval_start(now) <= now,
        now < interval_start(now) + funding_interval_value(),
        interval_start(now) % funding_interval_value() == 0,
{
    let q = now / 3600;
    assert(q * 3600 <= now && now < q * 3600 + 3600) by (nonlinear_arith)
        requires
            q == now / 3600,
    ;
    assert((q * 3600) % 3600 == 0) by (nonlinear_arith);
}

/// A second funding update at the same block time changes nothing: the
/// first left the clock within the current interval, so nothing accrues.
pub proof fn lemma_funding_update_idempotent(
    initialized: bool,
    s: FundingStateV,
    now: u64,
    pool_amount: nat,
    reserved_amount: nat,
    is_stable: bool,
    later_pool_amount: nat,
    later_reserved_amount: nat,
)
    requires
        update_funding_spec(initialized, s, now as nat, pool_amount, reserved_amount, is_stable) is Ok,
    ensures
        ({
            let t = update_funding_spec(initialized, s, now as nat, pool_amount, reserved_amount, is_stable).unwrap();
            update_funding_spec(initialized, t, now as nat, later_pool_amount, later_reserved_amount, is_stable)
                == Ok::<FundingStateV, OmxError>(t)
        }),
{
    lemma_interval_start(now as nat);
}

/// The funding clock stays on whole funding intervals and never runs ahead
/// of the block time, and the cumulative funding rate never decreases.
pub proof fn lemma_funding_clock_aligned(
    initialized: bool,
    s: FundingStateV,
    now: u64,
    pool_amount: nat,
    reserved_amount: nat,
    is_stable: bool,
)
    requires
        update_funding_spec(initialized, s, now as nat, pool_amount, reserved_amount, is_stable) is Ok,
        s.last_funding_time % funding_interval_value() == 0,
    ensures
        ({
            let t = update_funding_spec(initialized, s, now as nat, pool_amount, reserved_amount, is_stable).unwrap();
            &&& t.last_funding_time % funding_interval_value() == 0
            &&& s.last_funding_time <= now ==> t.last_funding_time <= now
            &&& t.cumulative_funding_rate >= s.cumulative_funding_rate
        }),
{
    lemma_interval_start(now as nat);
}

/// The funding rate that accrues, stated on its own: nothing before a whole
/// hour has passed since the last funding time or when the pool is empty;
/// otherwise 100 times the reserved amount times the number of whole hours
/// passed, divided by the pool amount (the same factor for stable and
/// volatile tokens).
pub proof fn lemma_funding_rate_per_hour(
    last_funding_time: nat,
    now: nat,
    pool_amount: nat,
    reserved_amount: nat,
    is_stable: bool,
)
    requires
        last_funding_time + 3600 <= u256_max(),
        100 * reserved_amount <= u256_max(),
    ensures
        ({
            let r = next_funding_rate_spec(last_funding_time, now, pool_amount, reserved_amount, is_stable);
            &&& now < last_funding_time + 3600 ==> r == Ok::<nat, OmxError>(0)
            &&& now >= last_funding_time + 3600 && pool_amount == 0 ==> r == Ok::<nat, OmxError>(0)
            &&& now >= last_funding_time + 3600 && pool_amount > 0 && 100 * reserved_amount * ((now
                - last_funding_time) as nat / 3600) / pool_amount <= u256_max() ==> r == Ok::<nat, OmxError>(
                100 * reserved_amount * ((now - last_funding_time) as nat / 3600) / pool_amount,
            )
        }),
{
}

} // verus!
