//! The OLP liquidity pool: its assets under management (AUM), the OLP price,
//! and adding and removing liquidity.

use vstd::prelude::*;
use crate::constants::{
    basis_points_divisor, basis_points_divisor_value, olp_manager_aum_addition,
    olp_manager_aum_addition_value, olp_manager_aum_deduction, olp_manager_aum_deduction_value,
    olp_manager_cooldown, olp_manager_cooldown_value, olp_precision, olp_precision_value,
    price_precision, price_precision_value, USDO_DECIMALS,
};
use crate::address::Address;
use crate::errors::{OlpManagerError, OmxError};
use crate::safe_math::{add_spec, mul_ratio_spec, rv, safe_add, safe_mul_ratio, safe_sub, sub_spec};
use crate::uint::{u256_checked_sub, u256_eq, u256_lt, u256_max, U256};
use crate::vault_utils::{abs_diff, decimals_scale, token_scale};

verus! {

/// The OLP price: AUM per OLP, with 18 decimals.
pub fn get_price(aum: U256, supply: U256) -> (r: Result<U256, OmxError>)
    ensures
        rv(r) == mul_ratio_spec(aum@, olp_precision_value(), supply@),
{
    safe_mul_ratio(aum, olp_precision(), supply)
}

/// The pool's assets under management with USDO's 18 decimals instead of
/// the 30 of USD.
pub fn get_aum_in_usdo(aum: U256) -> (r: Result<U256, OmxError>)
    ensures
        rv(r) == mul_ratio_spec(aum@, decimals_scale(USDO_DECIMALS), price_precision_value()),
{
    safe_mul_ratio(aum, token_scale(USDO_DECIMALS), price_precision())
}

/// Setting the weight of the shorts tracker's average price: only the
/// governor may, and the weight is at most 100%.
pub fn set_shorts_tracker_average_price_weight(sender: Address, gov: Address, weight: U256) -> (r: Result<U256, OmxError>)
    ensures
        sender != gov ==> r == Err::<U256, OmxError>(OmxError::OlpManager(OlpManagerError::Forbidden)),
        sender == gov && weight@ > basis_points_divisor_value() ==> (r matches Err(OmxError::OlpManager(OlpManagerError::InvalidWeight { max_weight }))
            && max_weight@ == basis_points_divisor_value()),
        sender == gov && weight@ <= basis_points_divisor_value() ==> r == Ok::<U256, OmxError>(weight),
{
    if sender != gov {
        return Err(OmxError::OlpManager(OlpManagerError::Forbidden));
    }
    if u256_lt(basis_points_divisor(), weight) {
        return Err(OmxError::OlpManager(OlpManagerError::InvalidWeight { max_weight: basis_points_divisor() }));
    }
    Ok(weight)
}

/// How the shorts tracker's average price of a token is looked up.
#[derive(Clone, Copy, Debug, PartialEq, Eq)]
pub struct ShortsAveragePriceConfig {
    pub shorts_tracker_is_zero: bool,
    pub shorts_tracker_ready: bool,
    pub weight: U256,
    pub shorts_tracker_average_price: U256,
}

/// The inputs on which `get_global_short_average_price` returns: every other
/// branch of it calls itself again with the same inputs and never returns.
pub open spec fn short_average_price_returns(c: ShortsAveragePriceConfig) -> bool {
    !c.shorts_tracker_is_zero && !c.shorts_tracker_ready && c.weight@ != 0
        && c.weight@ == price_precision_value()
}

/// The global short average price of a token, on the inputs on which
/// it returns: the shorts tracker's average price.
pub fn get_global_short_average_price(c: ShortsAveragePriceConfig) -> (r: U256)
    requires
        short_average_price_returns(c),
    ensures
        r == c.shorts_tracker_average_price,
{
    c.shorts_tracker_average_price
}

/// The global shorts' profit or loss at `price` against `average_price`, and
/// whether it is a profit (for the shorts).
pub open spec fn olp_short_delta_spec(average_price: nat, price: nat, size: nat) -> Result<(nat, bool), OmxError> {
    match mul_ratio_spec(size, abs_diff(average_price, price), average_price) {
        Err(e) => Err(e),
        Ok(delta) => Ok((delta, average_price > price)),
    }
}

pub open spec fn delta_flag_v(r: Result<(U256, bool), OmxError>) -> Result<(nat, bool), OmxError> {
    match r {
        Ok((d, b)) => Ok((d@, b)),
        Err(e) => Err(e),
    }
}

/// The global shorts' profit or loss, given the global short average price.
pub fn get_global_short_delta(average_price: U256, price: U256, size: U256) -> (r: Result<(U256, bool), OmxError>)
    ensures
        delta_flag_v(r) == olp_short_delta_spec(average_price@, price@, size@),
{
    let price_delta = if u256_lt(price, average_price) {
        safe_sub(average_price, price)?
    } else {
        safe_sub(price, average_price)?
    };
    let delta = safe_mul_ratio(size, price_delta, average_price)?;
    Ok((delta, u256_lt(price, average_price)))
}

/// What the AUM reads of one whitelisted-token slot of the vault.
#[derive(Clone, Copy, Debug, PartialEq, Eq)]
pub struct AumToken {
    pub is_whitelisted: bool,
    pub is_stable: bool,
    pub price: U256,
    pub pool_amount: U256,
    pub reserved_amount: U256,
    pub decimals: u8,
    pub global_short_size: U256,
    pub global_short_average_price: U256,
    pub guaranteed_usd: U256,
}

pub struct AumTokenV {
    pub is_whitelisted: bool,
    pub is_stable: bool,
    pub price: nat,
    pub pool_amount: nat,
    pub reserved_amount: nat,
    pub decimals: u8,
    pub global_short_size: nat,
    pub global_short_average_price: nat,
    pub guaranteed_usd: nat,
}

impl View for AumToken {
    type V = AumTokenV;

    open spec fn view(&self) -> AumTokenV {
        AumTokenV {
            is_whitelisted: self.is_whitelisted,
            is_stable: self.is_stable,
            price: self.price@,
            pool_amount: self.pool_amount@,
            reserved_amount: self.reserved_amount@,
            decimals: self.decimals,
            global_short_size: self.global_short_size@,
            global_short_average_price: self.global_short_average_price@,
            guaranteed_usd: self.guaranteed_usd@,
        }
    }
}

/// One token's contribution to the running (AUM, short profits): nothing for
/// a token no longer whitelisted; the pool's value for a stable token; for a
/// volatile one the shorts' losses (or, apart, their profits), the
/// guaranteed USD and the value of the unreserved pool.
pub open spec fn aum_step_spec(aum: nat, short_profits: nat, t: AumTokenV) -> Result<(nat, nat), OmxError> {
    if !t.is_whitelisted {
        Ok((aum, short_profits))
    } else if t.is_stable {
        match mul_ratio_spec(t.pool_amount, t.price, decimals_scale(t.decimals)) {
            Err(e) => Err(e),
            Ok(v) => match add_spec(aum, v) {
                Err(e) => Err(e),
                Ok(a) => Ok((a, short_profits)),
            },
        }
    } else {
        let shorts: Result<(nat, nat), OmxError> = if t.global_short_size > 0 {
            match olp_short_delta_spec(t.global_short_average_price, t.price, t.global_short_size) {
                Err(e) => Err(e),
                Ok((delta, has_profit)) => if !has_profit {
                    match add_spec(aum, delta) {
                        Err(e) => Err(e),
                        Ok(a) => Ok((a, short_profits)),
                    }
                } else {
                    match add_spec(short_profits, delta) {
                        Err(e) => Err(e),
                        Ok(s) => Ok((aum, s)),
                    }
                },
            }
        } else {
            Ok((aum, short_profits))
        };
        match shorts {
            Err(e) => Err(e),
            Ok((a1, s1)) => match add_spec(a1, t.guaranteed_usd) {
                Err(e) => Err(e),
                Ok(a2) => match sub_spec(t.pool_amount, t.reserved_amount) {
                    Err(e) => Err(e),
                    Ok(free) => match mul_ratio_spec(free, t.price, decimals_scale(t.decimals)) {
                        Err(e) => Err(e),
                        Ok(v) => match add_spec(a2, v) {
                            Err(e) => Err(e),
                            Ok(a3) => Ok((a3, s1)),
                        },
                    },
                },
            },
        }
    }
}

/// A whitelisted stable token adds the value of its whole pool,
/// `pool_amount * price / 10^decimals`, to the AUM, whatever part of the
/// pool is reserved, and leaves the short profits alone; a token no longer
/// whitelisted adds nothing.
pub proof fn lemma_stable_token_counts_its_whole_pool(aum: nat, short_profits: nat, t: AumTokenV, reserved: nat)
    requires
        t.is_whitelisted,
        t.is_stable,
        t.price * t.pool_amount / decimals_scale(t.decimals) + aum <= u256_max(),
    ensures
        decimals_scale(t.decimals) > 0 ==> aum_step_spec(aum, short_profits, t) == Ok::<(nat, nat), OmxError>(
            (aum + t.pool_amount * t.price / decimals_scale(t.decimals), short_profits),
        ),
        aum_step_spec(aum, short_profits, t) == aum_step_spec(
            aum,
            short_profits,
            AumTokenV { reserved_amount: reserved, ..t },
        ),
        aum_step_spec(aum, short_profits, AumTokenV { is_whitelisted: false, ..t }) == Ok::<(nat, nat), OmxError>(
            (aum, short_profits),
        ),
{
    assert(t.price * t.pool_amount == t.pool_amount * t.price) by (nonlinear_arith);
    if decimals_scale(t.decimals) > 0 {
        assert(t.pool_amount * t.price / decimals_scale(t.decimals) >= 0) by (nonlinear_arith)
            requires
                decimals_scale(t.decimals) > 0,
        ;
    }
}

/// A whitelisted volatile token adds to the AUM its guaranteed USD and the
/// value of the unreserved part of its pool, `(pool_amount - reserved_amount)
/// * price / 10^decimals`; with open shorts, their loss at the current price
/// (`size * |price - average| / average`) joins the AUM, while their profit
/// is set apart among the short profits.
pub proof fn lemma_volatile_token_counts_its_free_pool(aum: nat, short_profits: nat, t: AumTokenV)
    requires
        t.is_whitelisted,
        !t.is_stable,
        t.reserved_amount <= t.pool_amount,
        decimals_scale(t.decimals) > 0,
        t.global_short_size > 0 ==> t.global_short_average_price > 0,
        ({
            let shorts = if t.global_short_size > 0 {
                t.global_short_size * abs_diff(t.global_short_average_price, t.price) / t.global_short_average_price
            } else {
                0nat
            };
            aum + short_profits + shorts + t.guaranteed_usd + (t.pool_amount - t.reserved_amount) as nat * t.price
                / decimals_scale(t.decimals) <= u256_max()
        }),
    ensures
        ({
            let shorts = if t.global_short_size > 0 {
                t.global_short_size * abs_diff(t.global_short_average_price, t.price) / t.global_short_average_price
            } else {
                0nat
            };
            let shorts_lose = t.global_short_size > 0 && t.global_short_average_price <= t.price;
            let free_value = (t.pool_amount - t.reserved_amount) as nat * t.price / decimals_scale(t.decimals);
            aum_step_spec(aum, short_profits, t) == Ok::<(nat, nat), OmxError>(
                if shorts_lose {
                    (aum + shorts + t.guaranteed_usd + free_value, short_profits)
                } else {
                    (aum + t.guaranteed_usd + free_value, short_profits + shorts)
                },
            )
        }),
{
    let free = (t.pool_amount - t.reserved_amount) as nat;
    assert(free * t.price / decimals_scale(t.decimals) >= 0) by (nonlinear_arith)
        requires
            decimals_scale(t.decimals) > 0,
    ;
    if t.global_short_size > 0 {
        assert(t.global_short_size * abs_diff(t.global_short_average_price, t.price) / t.global_short_average_price
            >= 0) by (nonlinear_arith)
            requires
                t.global_short_average_price > 0,
        ;
    }
}

/// Removing liquidity, stated on its own: refused for no OLP, and within a
/// day (86400 seconds) of the account's last deposit; otherwise the USDO owed
/// is the OLP's share of the AUM, `olp_amount * aum / supply`, and the
/// manager mints only what its USDO balance lacks of it.
pub proof fn lemma_remove_liquidity_owes_the_olp_share(
    olp_amount: nat,
    last_added_at: nat,
    now: nat,
    aum_in_usdo: nat,
    olp_supply: nat,
    usdo_balance: nat,
)
    requires
        last_added_at + 86400 <= u256_max(),
    ensures
        olp_amount == 0 ==> remove_liquidity_plan_spec(olp_amount, last_added_at, now, aum_in_usdo, olp_supply, usdo_balance)
            == Err::<(nat, nat), OmxError>(OmxError::OlpManager(OlpManagerError::OlpZeroAmount)),
        olp_amount > 0 && now < last_added_at + 86400 ==> remove_liquidity_plan_spec(
            olp_amount,
            last_added_at,
            now,
            aum_in_usdo,
            olp_supply,
            usdo_balance,
        ) == Err::<(nat, nat), OmxError>(OmxError::OlpManager(OlpManagerError::CooldownNotPassed)),
        olp_amount > 0 && now >= last_added_at + 86400 && olp_supply > 0 && olp_amount * aum_in_usdo / olp_supply
            <= u256_max() ==> ({
            let owed = olp_amount * aum_in_usdo / olp_supply;
            remove_liquidity_plan_spec(olp_amount, last_added_at, now, aum_in_usdo, olp_supply, usdo_balance)
                == Ok::<(nat, nat), OmxError>((owed, if owed > usdo_balance { (owed - usdo_balance) as nat } else { 0 }))
        }),
{
}

/// The running (AUM, short profits) over the first `n` tokens.
pub open spec fn aum_fold(tokens: Seq<AumTokenV>, n: nat) -> Result<(nat, nat), OmxError>
    decreases n,
{
    if n == 0 {
        Ok((olp_manager_aum_addition_value(), 0))
    } else {
        match aum_fold(tokens, (n - 1) as nat) {
            Err(e) => Err(e),
            Ok((a, s)) => aum_step_spec(a, s, tokens[n - 1]),
        }
    }
}

/// `a - b`, or zero when `b > a`.
pub open spec fn floor_sub(a: nat, b: nat) -> nat {
    if b > a {
        0
    } else {
        (a - b) as nat
    }
}

/// The assets under management: the contributions of all token slots, less
/// the shorts' profits and the fixed deduction, floored at zero.
pub open spec fn aum_spec(tokens: Seq<AumTokenV>) -> Result<nat, OmxError> {
    match aum_fold(tokens, tokens.len()) {
        Err(e) => Err(e),
        Ok((a, s)) => Ok(floor_sub(floor_sub(a, s), olp_manager_aum_deduction_value())),
    }
}

pub open spec fn aum_tokens_v(tokens: Seq<AumToken>) -> Seq<AumTokenV> {
    tokens.map_values(|t: AumToken| t@)
}

pub open spec fn pair_v(r: Result<(U256, U256), OmxError>) -> Result<(nat, nat), OmxError> {
    match r {
        Ok((a, b)) => Ok((a@, b@)),
        Err(e) => Err(e),
    }
}

fn aum_step(aum: U256, short_profits: U256, t: AumToken) -> (r: Result<(U256, U256), OmxError>)
    ensures
        pair_v(r) == aum_step_spec(aum@, short_profits@, t@),
{
    if !t.is_whitelisted {
        return Ok((aum, short_profits));
    }
    let scale = token_scale(t.decimals);
    if t.is_stable {
        let a = safe_add(aum, safe_mul_ratio(t.pool_amount, t.price, scale)?)?;
        return Ok((a, short_profits));
    }
    let mut a = aum;
    let mut s = short_profits;
    if u256_lt(U256::zero(), t.global_short_size) {
        let (delta, has_profit) = get_global_short_delta(t.global_short_average_price, t.price, t.global_short_size)?;
        if !has_profit {
            a = safe_add(a, delta)?;
        } else {
            s = safe_add(s, delta)?;
        }
    }
    a = safe_add(a, t.guaranteed_usd)?;
    let free = safe_sub(t.pool_amount, t.reserved_amount)?;
    a = safe_add(a, safe_mul_ratio(free, t.price, scale)?)?;
    Ok((a, s))
}

/// The pool's assets under management, given the vault's whitelisted-token slots in order.
pub fn get_aum(tokens: &Vec<AumToken>) -> (r: Result<U256, OmxError>)
    ensures
        rv(r) == aum_spec(aum_tokens_v(tokens@)),
{
    let ghost tv = aum_tokens_v(tokens@);
    let mut aum = olp_manager_aum_addition();
    let mut short_profits = U256::zero();
    let mut i: usize = 0;
    while i < tokens.len()
        invariant
            i <= tokens@.len(),
            tv == aum_tokens_v(tokens@),
            tv.len() == tokens@.len(),
            aum_fold(tv, i as nat) == Ok::<(nat, nat), OmxError>((aum@, short_profits@)),
        decreases tokens@.len() - i,
    {
        let (a, s) = match aum_step(aum, short_profits, tokens[i]) {
            Ok(v) => v,
            Err(e) => {
                proof {
                    assert(tv[i as int] == tokens@[i as int]@);
                    assert(aum_fold(tv, (i + 1) as nat) == aum_step_spec(aum@, short_profits@, tv[i as int]));
                    lemma_aum_fold_err(tv, (i + 1) as nat, tv.len());
                }
                return Err(e);
            },
        };
        proof {
            assert(tv[i as int] == tokens@[i as int]@);
        }
        aum = a;
        short_profits = s;
        i = i + 1;
    }
    let aum = match u256_checked_sub(aum, short_profits) {
        Some(v) => v,
        None => U256::zero(),
    };
    match u256_checked_sub(aum, olp_manager_aum_deduction()) {
        Some(v) => Ok(v),
        None => Ok(U256::zero()),
    }
}

/// Once the fold fails it stays failed with the same error.
proof fn lemma_aum_fold_err(tokens: Seq<AumTokenV>, n: nat, m: nat)
    requires
        n <= m,
        aum_fold(tokens, n) is Err,
    ensures
        aum_fold(tokens, m) == aum_fold(tokens, n),
    decreases m - n,
{
    if n < m {
        lemma_aum_fold_err(tokens, n, (m - 1) as nat);
    }
}

/// `add_liquidity` and `remove_liquidity` called by a user directly: the
/// manager must be set up and not in private mode.
pub fn check_public_liquidity_access(initialized: bool, in_private_mode: bool) -> (r: Result<(), OmxError>)
    ensures
        r == (if !initialized {
            Err(OmxError::OlpManager(OlpManagerError::NotInitialized))
        } else if in_private_mode {
            Err(OmxError::OlpManager(OlpManagerError::ActionNotEnabled))
        } else {
            Ok(())
        }),
{
    if !initialized {
        return Err(OmxError::OlpManager(OlpManagerError::NotInitialized));
    }
    if in_private_mode {
        return Err(OmxError::OlpManager(OlpManagerError::ActionNotEnabled));
    }
    Ok(())
}

/// Adding liquidity starts with a non-zero amount.
pub fn check_add_liquidity_amount(amount: U256) -> (r: Result<(), OmxError>)
    ensures
        r == (if amount@ == 0 { Err(OmxError::OlpManager(OlpManagerError::TokenZeroAmount)) } else { Ok(()) }),
{
    if u256_eq(amount, U256::zero()) {
        return Err(OmxError::OlpManager(OlpManagerError::TokenZeroAmount));
    }
    Ok(())
}

/// The OLP minted for `usdo_amount` USDO bought: one for one into an empty
/// pool, else the USDO's share of the AUM (measured before the purchase) of
/// the OLP supply.
pub open spec fn olp_mint_amount_spec(usdo_amount: nat, aum_in_usdo: nat, olp_supply: nat) -> Result<nat, OmxError> {
    if aum_in_usdo == 0 {
        Ok(usdo_amount)
    } else {
        mul_ratio_spec(usdo_amount, olp_supply, aum_in_usdo)
    }
}

/// The second half of adding liquidity at block time `now`: given the USDO
/// bought with the deposit, the OLP to mint, and the account's new last
/// deposit time (`now`, from which the removal cooldown runs); both outputs
/// must reach their minimums.
pub fn add_liquidity_mint(
    usdo_amount: U256,
    aum_in_usdo: U256,
    olp_supply: U256,
    min_usdo: U256,
    min_olp: U256,
    now: u64,
) -> (r: Result<(U256, U256), OmxError>)
    ensures
        usdo_amount@ < min_usdo@ ==> r == Err::<(U256, U256), OmxError>(
            OmxError::OlpManager(OlpManagerError::InsufficientUsdoOutput { amount_out: usdo_amount }),
        ),
        usdo_amount@ >= min_usdo@ ==> match olp_mint_amount_spec(usdo_amount@, aum_in_usdo@, olp_supply@) {
            Err(e) => r == Err::<(U256, U256), OmxError>(e),
            Ok(m) => if m < min_olp@ {
                (r matches Err(OmxError::OlpManager(OlpManagerError::InsufficientOlpOutput { amount_out }))
                    && amount_out@ == m)
            } else {
                (r matches Ok((v, last_added_at)) && v@ == m && last_added_at@ == now)
            },
        },
{
    if u256_lt(usdo_amount, min_usdo) {
        return Err(OmxError::OlpManager(OlpManagerError::InsufficientUsdoOutput { amount_out: usdo_amount }));
    }
    let mint_amount = if u256_eq(aum_in_usdo, U256::zero()) {
        usdo_amount
    } else {
        safe_mul_ratio(usdo_amount, olp_supply, aum_in_usdo)?
    };
    if u256_lt(mint_amount, min_olp) {
        return Err(OmxError::OlpManager(OlpManagerError::InsufficientOlpOutput { amount_out: mint_amount }));
    }
    Ok((mint_amount, U256::from_u64(now)))
}

/// What removing liquidity settles before the USDO is sold: the USDO owed
/// for the OLP (its share of the AUM) and the USDO the manager must mint
/// beyond its balance.
pub open spec fn remove_liquidity_plan_spec(
    olp_amount: nat,
    last_added_at: nat,
    now: nat,
    aum_in_usdo: nat,
    olp_supply: nat,
    usdo_balance: nat,
) -> Result<(nat, nat), OmxError> {
    if olp_amount == 0 {
        Err(OmxError::OlpManager(OlpManagerError::OlpZeroAmount))
    } else {
        match add_spec(last_added_at, olp_manager_cooldown_value()) {
            Err(e) => Err(e),
            Ok(ready_at) => if ready_at > now {
                Err(OmxError::OlpManager(OlpManagerError::CooldownNotPassed))
            } else {
                match mul_ratio_spec(olp_amount, aum_in_usdo, olp_supply) {
                    Err(e) => Err(e),
                    Ok(usdo_amount) => if usdo_amount > usdo_balance {
                        Ok((usdo_amount, (usdo_amount - usdo_balance) as nat))
                    } else {
                        Ok((usdo_amount, 0))
                    },
                }
            },
        }
    }
}

/// The first half of removing liquidity: the USDO owed
/// and the USDO to mint.
pub fn remove_liquidity_plan(
    olp_amount: U256,
    last_added_at: U256,
    now: u64,
    aum_in_usdo: U256,
    olp_supply: U256,
    usdo_balance: U256,
) -> (r: Result<(U256, U256), OmxError>)
    ensures
        pair_v(r) == remove_liquidity_plan_spec(olp_amount@, last_added_at@, now as nat, aum_in_usdo@, olp_supply@, usdo_balance@),
{
    if u256_eq(olp_amount, U256::zero()) {
        return Err(OmxError::OlpManager(OlpManagerError::OlpZeroAmount));
    }
    if u256_lt(U256::from_u64(now), safe_add(last_added_at, olp_manager_cooldown())?) {
        return Err(OmxError::OlpManager(OlpManagerError::CooldownNotPassed));
    }
    let usdo_amount = safe_mul_ratio(olp_amount, aum_in_usdo, olp_supply)?;
    if u256_lt(usdo_balance, usdo_amount) {
        return Ok((usdo_amount, safe_sub(usdo_amount, usdo_balance)?));
    }
    Ok((usdo_amount, U256::zero()))
}

/// The last half of removing liquidity: the tokens the
/// USDO sold for must reach the minimum.
pub fn check_remove_liquidity_output(amount_out: U256, min_amount: U256) -> (r: Result<U256, OmxError>)
    ensures
        amount_out@ < min_amount@ ==> r == Err::<U256, OmxError>(OmxError::OlpManager(OlpManagerError::InsufficientOutput { amount_out })),
        amount_out@ >= min_amount@ ==> r == Ok::<U256, OmxError>(amount_out),
{
    if u256_lt(amount_out, min_amount) {
        return Err(OmxError::OlpManager(OlpManagerError::InsufficientOutput { amount_out }));
    }
    Ok(amount_out)
}

/// `x / d <= y` whenever `x <= y * d`.
proof fn lemma_div_bounded(x: nat, y: nat, d: nat)
    requires
        d > 0,
        x <= y * d,
    ensures
        x / d <= y,
{
    vstd::arithmetic::div_mod::lemma_fundamental_div_mod(x as int, d as int);
    vstd::arithmetic::div_mod::lemma_mod_pos_bound(x as int, d as int);
    let q = x / d;
    assert(q <= y) by (nonlinear_arith)
        requires
            d > 0,
            d * q <= y * d,
    {}
}

/// Liquidity added and redeemed at once is worth no more than it brought:
/// when the AUM grows by no more than the USDO bought, the OLP minted for
/// that USDO is owed no more than that USDO on redemption.
pub proof fn lemma_add_then_remove_no_gain(
    usdo_amount: nat,
    aum_in_usdo: nat,
    olp_supply: nat,
    aum_after: nat,
    last_added_at: nat,
    now: nat,
    usdo_balance: nat,
)
    requires
        olp_mint_amount_spec(usdo_amount, aum_in_usdo, olp_supply) is Ok,
        aum_after <= aum_in_usdo + usdo_amount,
    ensures
        ({
            let minted = olp_mint_amount_spec(usdo_amount, aum_in_usdo, olp_supply).unwrap();
            remove_liquidity_plan_spec(
                minted,
                last_added_at,
                now,
                aum_after,
                olp_supply + minted,
                usdo_balance,
            ) matches Ok((owed, _)) ==> owed <= usdo_amount
        }),
{
    let m = olp_mint_amount_spec(usdo_amount, aum_in_usdo, olp_supply).unwrap();
    let s2 = olp_supply + m;
    if s2 > 0 {
        if aum_in_usdo == 0 {
            assert(m * aum_after <= usdo_amount * s2) by (nonlinear_arith)
                requires
                    m == usdo_amount,
                    aum_after <= usdo_amount,
                    s2 == olp_supply + m,
            {}
        } else {
            assert(m == usdo_amount * olp_supply / aum_in_usdo);
            assert(m * aum_in_usdo <= usdo_amount * olp_supply) by (nonlinear_arith)
                requires
                    aum_in_usdo > 0,
                    m == usdo_amount * olp_supply / aum_in_usdo,
            {
                vstd::arithmetic::div_mod::lemma_fundamental_div_mod(
                    (usdo_amount * olp_supply) as int,
                    aum_in_usdo as int,
                );
            }
            assert(m * aum_after <= usdo_amount * s2) by (nonlinear_arith)
                requires
                    m * aum_in_usdo <= usdo_amount * olp_supply,
                    aum_after <= aum_in_usdo + usdo_amount,
                    s2 == olp_supply + m,
            {}
        }
        lemma_div_bounded(m * aum_after, usdo_amount, s2);
    }
}

} // verus!
