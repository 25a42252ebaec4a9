//! Reward accounting: the staking reward trackers, the yield tracker, the
//! time-based distributors and the reward router's bonus reduction.

use vstd::prelude::*;
use crate::address::Address;
use crate::constants::{
    distribution_interval, distribution_interval_value, price_precision, price_precision_value,
};
use crate::errors::{
    DistributorError, OmxError, RewardDistributorError, RewardRouterError, RewardTrackerError,
};
use crate::safe_math::{
    add_spec, div_spec, mul_ratio_spec, mul_spec, rv, safe_add, safe_div, safe_mul,
    safe_mul_ratio, safe_sub, sub_spec,
};
use crate::uint::{u256_eq, u256_lt, u256_max, U256};

verus! {

// ---------------------------------------------------------------------------
// Reward tracker staking.
// ---------------------------------------------------------------------------

/// What the staking tracker holds of one staker.
#[derive(Clone, Copy, Debug, PartialEq, Eq)]
pub struct StakerRewards {
    pub staked_amount: U256,
    pub claimable_reward: U256,
    pub previous_cumulated_reward_per_token: U256,
    pub cumulative_rewards: U256,
    pub average_staked_amount: U256,
}

pub struct StakerRewardsV {
    pub staked_amount: nat,
    pub claimable_reward: nat,
    pub previous_cumulated_reward_per_token: nat,
    pub cumulative_rewards: nat,
    pub average_staked_amount: nat,
}

impl View for StakerRewards {
    type V = StakerRewardsV;

    open spec fn view(&self) -> StakerRewardsV {
        StakerRewardsV {
            staked_amount: self.staked_amount@,
            claimable_reward: self.claimable_reward@,
            previous_cumulated_reward_per_token: self.previous_cumulated_reward_per_token@,
            cumulative_rewards: self.cumulative_rewards@,
            average_staked_amount: self.average_staked_amount@,
        }
    }
}

/// The reward per staked token after `block_reward` is shared among `supply`
/// staked tokens (with 30 decimals); unchanged when either is zero.
pub open spec fn next_reward_per_token_spec(cumulative: nat, block_reward: nat, supply: nat) -> Result<nat, OmxError> {
    if supply > 0 && block_reward > 0 {
        match mul_ratio_spec(block_reward, price_precision_value(), supply) {
            Err(e) => Err(e),
            Ok(inc) => add_spec(cumulative, inc),
        }
    } else {
        Ok(cumulative)
    }
}

/// A staker's rewards brought up to `cumulative` reward per token: the reward
/// earned since the last update becomes claimable, and, when there is
/// something to claim and something staked, the average staked amount is
/// re-weighted by the cumulative rewards.
pub open spec fn staker_update_spec(s: StakerRewardsV, cumulative: nat) -> Result<StakerRewardsV, OmxError> {
    match sub_spec(cumulative, s.previous_cumulated_reward_per_token) {
        Err(e) => Err(e),
        Ok(per_token) => match mul_ratio_spec(s.staked_amount, per_token, price_precision_value()) {
            Err(e) => Err(e),
            Ok(reward) => match add_spec(s.claimable_reward, reward) {
                Err(e) => Err(e),
                Ok(claimable) => {
                    let s1 = StakerRewardsV {
                        claimable_reward: claimable,
                        previous_cumulated_reward_per_token: cumulative,
                        ..s
                    };
                    if claimable > 0 && s.staked_amount > 0 {
                        match add_spec(s.cumulative_rewards, reward) {
                            Err(e) => Err(e),
                            Ok(next_cumulative) => match mul_ratio_spec(s.average_staked_amount, s.cumulative_rewards, next_cumulative) {
                                Err(e) => Err(e),
                                Ok(x) => match mul_ratio_spec(s.staked_amount, reward, next_cumulative) {
                                    Err(e) => Err(e),
                                    Ok(y) => match add_spec(x, y) {
                                        Err(e) => Err(e),
                                        Ok(avg) => Ok(StakerRewardsV {
                                            average_staked_amount: avg,
                                            cumulative_rewards: next_cumulative,
                                            ..s1
                                        }),
                                    },
                                },
                            },
                        }
                    } else {
                        Ok(s1)
                    }
                },
            },
        },
    }
}

pub open spec fn srv(r: Result<StakerRewards, OmxError>) -> Result<StakerRewardsV, OmxError> {
    match r {
        Ok(s) => Ok(s@),
        Err(e) => Err(e),
    }
}

fn staker_update(s: StakerRewards, cumulative: U256) -> (r: Result<StakerRewards, OmxError>)
    ensures
        srv(r) == staker_update_spec(s@, cumulative@),
{
    let reward = safe_mul_ratio(
        s.staked_amount,
        safe_sub(cumulative, s.previous_cumulated_reward_per_token)?,
        price_precision(),
    )?;
    let claimable = safe_add(s.claimable_reward, reward)?;
    let s1 = StakerRewards { claimable_reward: claimable, previous_cumulated_reward_per_token: cumulative, ..s };
    if u256_lt(U256::zero(), claimable) && u256_lt(U256::zero(), s.staked_amount) {
        let next_cumulative = safe_add(s.cumulative_rewards, reward)?;
        let avg = safe_add(
            safe_mul_ratio(s.average_staked_amount, s.cumulative_rewards, next_cumulative)?,
            safe_mul_ratio(s.staked_amount, reward, next_cumulative)?,
        )?;
        Ok(StakerRewards { average_staked_amount: avg, cumulative_rewards: next_cumulative, ..s1 })
    } else {
        Ok(s1)
    }
}

/// The tracker's cumulative reward per token and the staker's rewards after
/// an update (the staker is absent for the zero account).
pub open spec fn update_rewards_spec(
    cumulative: nat,
    block_reward: nat,
    supply: nat,
    staker: Option<StakerRewardsV>,
) -> Result<(nat, Option<StakerRewardsV>), OmxError> {
    match next_reward_per_token_spec(cumulative, block_reward, supply) {
        Err(e) => Err(e),
        Ok(c) => if c == 0 {
            Ok((c, staker))
        } else {
            match staker {
                None => Ok((c, None)),
                Some(s) => match staker_update_spec(s, c) {
                    Err(e) => Err(e),
                    Ok(s1) => Ok((c, Some(s1))),
                },
            }
        },
    }
}

pub open spec fn urv(r: Result<(U256, Option<StakerRewards>), OmxError>) -> Result<(nat, Option<StakerRewardsV>), OmxError> {
    match r {
        Ok((c, None)) => Ok((c@, None)),
        Ok((c, Some(s))) => Ok((c@, Some(s@))),
        Err(e) => Err(e),
    }
}

/// The reward update of a staking tracker, given the reward just
/// distributed to the tracker and the tracker's token supply.
pub fn update_rewards(
    cumulative_reward_per_token: U256,
    block_reward: U256,
    supply: U256,
    staker: Option<StakerRewards>,
) -> (r: Result<(U256, Option<StakerRewards>), OmxError>)
    ensures
        urv(r) == update_rewards_spec(
            cumulative_reward_per_token@,
            block_reward@,
            supply@,
            match staker {
                Some(s) => Some(s@),
                None => None,
            },
        ),
        // The cumulative reward per token never decreases.
        r matches Ok((c, _)) ==> c@ >= cumulative_reward_per_token@,
{
    let mut cumulative = cumulative_reward_per_token;
    if u256_lt(U256::zero(), supply) && u256_lt(U256::zero(), block_reward) {
        cumulative = safe_add(cumulative, safe_mul_ratio(block_reward, price_precision(), supply)?)?;
    }
    if u256_eq(cumulative, U256::zero()) {
        return Ok((cumulative, staker));
    }
    match staker {
        None => Ok((cumulative, None)),
        Some(s) => {
            let s1 = staker_update(s, cumulative)?;
            Ok((cumulative, Some(s1)))
        },
    }
}

/// The rewards a staker could claim now: the claimable reward plus what the
/// pending distribution would add to it.
pub open spec fn claimable_spec(
    staked_amount: nat,
    claimable_reward: nat,
    previous: nat,
    cumulative: nat,
    supply: nat,
    pending_rewards: nat,
) -> Result<nat, OmxError> {
    if staked_amount == 0 {
        Ok(claimable_reward)
    } else {
        match mul_ratio_spec(pending_rewards, price_precision_value(), supply) {
            Err(e) => Err(e),
            Ok(inc) => match add_spec(cumulative, inc) {
                Err(e) => Err(e),
                Ok(next) => match sub_spec(next, previous) {
                    Err(e) => Err(e),
                    Ok(per_token) => match mul_ratio_spec(staked_amount, per_token, price_precision_value()) {
                        Err(e) => Err(e),
                        Ok(reward) => add_spec(claimable_reward, reward),
                    },
                },
            },
        }
    }
}

/// What a staker can claim, given the staker, the tracker's state,
/// its token supply and the distributor's pending rewards.
pub fn claimable(s: StakerRewards, cumulative_reward_per_token: U256, supply: U256, pending_rewards: U256) -> (r: Result<U256, OmxError>)
    ensures
        rv(r) == claimable_spec(
            s.staked_amount@,
            s.claimable_reward@,
            s.previous_cumulated_reward_per_token@,
            cumulative_reward_per_token@,
            supply@,
            pending_rewards@,
        ),
{
    if u256_eq(s.staked_amount, U256::zero()) {
        return Ok(s.claimable_reward);
    }
    let next = safe_add(cumulative_reward_per_token, safe_mul_ratio(pending_rewards, price_precision(), supply)?)?;
    safe_add(
        s.claimable_reward,
        safe_mul_ratio(s.staked_amount, safe_sub(next, s.previous_cumulated_reward_per_token)?, price_precision())?,
    )
}

/// `claim_internal` after the update: the reward claimed, and the staker with
/// nothing left to claim.
pub fn take_claimable(s: StakerRewards) -> (r: (U256, StakerRewards))
    ensures
        r.0 == s.claimable_reward,
        r.1@ == (StakerRewardsV { claimable_reward: 0, ..s@ }),
{
    (s.claimable_reward, StakerRewards { claimable_reward: U256::zero(), ..s })
}

/// The checks that open `stake_internal` and `unstake_internal`.
pub open spec fn stake_checks_spec(amount: nat, is_deposit_token: bool) -> Result<(), OmxError> {
    if amount == 0 {
        Err(OmxError::RewardTracker(RewardTrackerError::InvalidZeroAmount))
    } else if !is_deposit_token {
        Err(OmxError::RewardTracker(RewardTrackerError::InvalidDepositToken))
    } else {
        Ok(())
    }
}

pub fn stake_checks(amount: U256, is_deposit_token: bool) -> (r: Result<(), OmxError>)
    ensures
        r == stake_checks_spec(amount@, is_deposit_token),
{
    if u256_eq(amount, U256::zero()) {
        return Err(OmxError::RewardTracker(RewardTrackerError::InvalidZeroAmount));
    }
    if !is_deposit_token {
        return Err(OmxError::RewardTracker(RewardTrackerError::InvalidDepositToken));
    }
    Ok(())
}

/// A staker's deposit of one token and the token's total deposits.
#[derive(Clone, Copy, Debug, PartialEq, Eq)]
pub struct Deposits {
    pub staked_amount: U256,
    pub deposit_balance: U256,
    pub total_deposit_supply: U256,
}

pub struct DepositsV {
    pub staked_amount: nat,
    pub deposit_balance: nat,
    pub total_deposit_supply: nat,
}

impl View for Deposits {
    type V = DepositsV;

    open spec fn view(&self) -> DepositsV {
        DepositsV {
            staked_amount: self.staked_amount@,
            deposit_balance: self.deposit_balance@,
            total_deposit_supply: self.total_deposit_supply@,
        }
    }
}

pub open spec fn dpv(r: Result<Deposits, OmxError>) -> Result<DepositsV, OmxError> {
    match r {
        Ok(d) => Ok(d@),
        Err(e) => Err(e),
    }
}

/// Staking `amount` (after the update of rewards): the staked amount, the
/// deposit balance and the total deposits all grow by it.
pub open spec fn stake_spec(d: DepositsV, amount: nat) -> Result<DepositsV, OmxError> {
    match add_spec(d.staked_amount, amount) {
        Err(e) => Err(e),
        Ok(staked) => match add_spec(d.deposit_balance, amount) {
            Err(e) => Err(e),
            Ok(balance) => match add_spec(d.total_deposit_supply, amount) {
                Err(e) => Err(e),
                Ok(total) => Ok(DepositsV { staked_amount: staked, deposit_balance: balance, total_deposit_supply: total }),
            },
        },
    }
}

/// The deposit bookkeeping of staking, after the update
/// of rewards (the tracker then mints `amount` to the staker).
pub fn stake(d: Deposits, amount: U256) -> (r: Result<Deposits, OmxError>)
    ensures
        dpv(r) == stake_spec(d@, amount@),
{
    let staked_amount = safe_add(d.staked_amount, amount)?;
    let deposit_balance = safe_add(d.deposit_balance, amount)?;
    let total_deposit_supply = safe_add(d.total_deposit_supply, amount)?;
    Ok(Deposits { staked_amount, deposit_balance, total_deposit_supply })
}

/// Unstaking `amount` (after the update of rewards): it must not exceed the
/// staked amount nor the deposit balance of the token.
pub open spec fn unstake_spec(d: Deposits, amount: U256) -> Result<DepositsV, OmxError> {
    if d.staked_amount@ < amount@ {
        Err(
            OmxError::RewardTracker(
                RewardTrackerError::AmountExceedsStakedAmount { staked_amount: d.staked_amount, amount },
            ),
        )
    } else if d.deposit_balance@ < amount@ {
        Err(
            OmxError::RewardTracker(
                RewardTrackerError::AmountExceedsDepositBalance { deposit_balance: d.deposit_balance, amount },
            ),
        )
    } else {
        match sub_spec(d.total_deposit_supply@, amount@) {
            Err(e) => Err(e),
            Ok(total) => Ok(
                DepositsV {
                    staked_amount: (d.staked_amount@ - amount@) as nat,
                    deposit_balance: (d.deposit_balance@ - amount@) as nat,
                    total_deposit_supply: total,
                },
            ),
        }
    }
}

/// The deposit bookkeeping of unstaking, after the
/// update of rewards (the tracker then burns `amount` and sends the deposit).
pub fn unstake(d: Deposits, amount: U256) -> (r: Result<Deposits, OmxError>)
    ensures
        dpv(r) == unstake_spec(d, amount),
{
    if u256_lt(d.staked_amount, amount) {
        return Err(
            OmxError::RewardTracker(
                RewardTrackerError::AmountExceedsStakedAmount { staked_amount: d.staked_amount, amount },
            ),
        );
    }
    let staked_amount = safe_sub(d.staked_amount, amount)?;
    let deposit_balance = match safe_sub(d.deposit_balance, amount) {
        Ok(v) => v,
        Err(_) => return Err(
            OmxError::RewardTracker(
                RewardTrackerError::AmountExceedsDepositBalance { deposit_balance: d.deposit_balance, amount },
            ),
        ),
    };
    let total_deposit_supply = safe_sub(d.total_deposit_supply, amount)?;
    Ok(Deposits { staked_amount, deposit_balance, total_deposit_supply })
}

/// Unstaking what was just staked gives back the deposits as they were.
pub proof fn lemma_stake_then_unstake(d: Deposits, staked: Deposits, amount: U256)
    requires
        stake_spec(d@, amount@) == Ok::<DepositsV, OmxError>(staked@),
    ensures
        unstake_spec(staked, amount) == Ok::<DepositsV, OmxError>(d@),
{
}

/// How a staking tracker's rewards accrue, stated on its own: a reward
/// distributed over a positive supply raises the reward per token by
/// `reward * 10^30 / supply`, and otherwise leaves it; a staker brought up to
/// date gains `staked * (per_token_now - per_token_then) / 10^30` to claim,
/// and remembers the current reward per token.
pub proof fn lemma_rewards_accrue_per_staked_token(cumulative: nat, block_reward: nat, supply: nat, s: StakerRewardsV)
    requires
        block_reward * 1000000000000000000000000000000nat <= u256_max(),
        cumulative + block_reward * 1000000000000000000000000000000nat <= u256_max(),
    ensures
        supply > 0 && block_reward > 0 ==> next_reward_per_token_spec(cumulative, block_reward, supply) == Ok::<
            nat,
            OmxError,
        >(cumulative + block_reward * 1000000000000000000000000000000nat / supply),
        supply == 0 || block_reward == 0 ==> next_reward_per_token_spec(cumulative, block_reward, supply) == Ok::<
            nat,
            OmxError,
        >(cumulative),
        staker_update_spec(s, cumulative) is Ok ==> {
            let t = staker_update_spec(s, cumulative).unwrap();
            &&& t.claimable_reward == s.claimable_reward + s.staked_amount * (cumulative
                - s.previous_cumulated_reward_per_token) as nat / 1000000000000000000000000000000nat
            &&& t.previous_cumulated_reward_per_token == cumulative
            &&& t.staked_amount == s.staked_amount
        },
        cumulative < s.previous_cumulated_reward_per_token ==> staker_update_spec(s, cumulative) is Err,
{
    if supply > 0 {
        assert(block_reward * 1000000000000000000000000000000nat / supply <= block_reward
            * 1000000000000000000000000000000nat) by (nonlinear_arith)
            requires
                supply > 0,
        ;
    }
}

/// A time distributor owes a receiver its rate times the whole hours passed
/// since its last distribution, or nothing when its balance falls short; a
/// reward distributor's pending rewards are its rate times the seconds passed.
pub proof fn lemma_distribution_amounts(tokens_per_interval: nat, now: nat, last: nat, balance: nat)
    requires
        last <= now,
        tokens_per_interval * (now - last) as nat <= u256_max(),
    ensures
        ({
            let owed = tokens_per_interval * ((now - last) as nat / 3600);
            distribution_amount_spec(tokens_per_interval, now, last, balance) == Ok::<nat, OmxError>(
                if balance < owed { 0 } else { owed },
            )
        }),
        pending_rewards_spec(tokens_per_interval, now, last) == Ok::<nat, OmxError>(
            tokens_per_interval * (now - last) as nat,
        ),
{
    let d = (now - last) as nat;
    assert(tokens_per_interval * (d / 3600) <= tokens_per_interval * d) by (nonlinear_arith)
        requires
            d >= 0,
            tokens_per_interval >= 0,
    ;
    if now == last {
        assert(d == 0);
        assert(tokens_per_interval * d == 0) by (nonlinear_arith)
            requires
                d == 0,
        ;
    }
}

// ---------------------------------------------------------------------------
// Yield tracker.
// ---------------------------------------------------------------------------

/// What the yield tracker holds of one account, beside its staked balance in
/// the yield token.
#[derive(Clone, Copy, Debug, PartialEq, Eq)]
pub struct YieldAccount {
    pub staked_balance: U256,
    pub claimable_reward: U256,
    pub previous_cumulated_reward_per_token: U256,
}

pub struct YieldAccountV {
    pub staked_balance: nat,
    pub claimable_reward: nat,
    pub previous_cumulated_reward_per_token: nat,
}

impl View for YieldAccount {
    type V = YieldAccountV;

    open spec fn view(&self) -> YieldAccountV {
        YieldAccountV {
            staked_balance: self.staked_balance@,
            claimable_reward: self.claimable_reward@,
            previous_cumulated_reward_per_token: self.previous_cumulated_reward_per_token@,
        }
    }
}

/// The yield tracker's update: the block reward (scaled by 10^30) is shared
/// among the total staked; an account's new reward becomes claimable.
pub open spec fn yield_update_spec(
    cumulative: nat,
    block_reward: nat,
    total_staked: nat,
    account: Option<YieldAccountV>,
) -> Result<(nat, Option<YieldAccountV>), OmxError> {
    let c: Result<nat, OmxError> = if total_staked > 0 && block_reward > 0 {
        match mul_spec(block_reward, price_precision_value()) {
            Err(e) => Err(e),
            Ok(scaled) => match div_spec(scaled, total_staked) {
                Err(e) => Err(e),
                Ok(inc) => add_spec(cumulative, inc),
            },
        }
    } else {
        Ok(cumulative)
    };
    match c {
        Err(e) => Err(e),
        Ok(c1) => if c1 == 0 {
            Ok((c1, account))
        } else {
            match account {
                None => Ok((c1, None)),
                Some(a) => match sub_spec(c1, a.previous_cumulated_reward_per_token) {
                    Err(e) => Err(e),
                    Ok(per_token) => match mul_ratio_spec(a.staked_balance, per_token, price_precision_value()) {
                        Err(e) => Err(e),
                        Ok(reward) => match add_spec(a.claimable_reward, reward) {
                            Err(e) => Err(e),
                            Ok(claimable) => Ok((c1, Some(YieldAccountV {
                                claimable_reward: claimable,
                                previous_cumulated_reward_per_token: c1,
                                ..a
                            }))),
                        },
                    },
                },
            }
        },
    }
}

pub open spec fn yuv(r: Result<(U256, Option<YieldAccount>), OmxError>) -> Result<(nat, Option<YieldAccountV>), OmxError> {
    match r {
        Ok((c, None)) => Ok((c@, None)),
        Ok((c, Some(a))) => Ok((c@, Some(a@))),
        Err(e) => Err(e),
    }
}

/// The reward update of a yield tracker, given the reward distributed (zero without
/// a distributor), the yield token's total staked and the account (absent
/// for the zero account).
pub fn yield_update_rewards(
    cumulative_reward_per_token: U256,
    block_reward: U256,
    total_staked: U256,
    account: Option<YieldAccount>,
) -> (r: Result<(U256, Option<YieldAccount>), OmxError>)
    ensures
        yuv(r) == yield_update_spec(
            cumulative_reward_per_token@,
            block_reward@,
            total_staked@,
            match account {
                Some(a) => Some(a@),
                None => None,
            },
        ),
{
    let mut cumulative = cumulative_reward_per_token;
    if u256_lt(U256::zero(), total_staked) && u256_lt(U256::zero(), block_reward) {
        cumulative = safe_add(cumulative, safe_div(safe_mul(block_reward, price_precision())?, total_staked)?)?;
    }
    if u256_eq(cumulative, U256::zero()) {
        return Ok((cumulative, account));
    }
    match account {
        None => Ok((cumulative, None)),
        Some(a) => {
            let delta = safe_sub(cumulative, a.previous_cumulated_reward_per_token)?;
            let claimable = safe_add(a.claimable_reward, safe_mul_ratio(a.staked_balance, delta, price_precision())?)?;
            Ok((
                cumulative,
                Some(YieldAccount { claimable_reward: claimable, previous_cumulated_reward_per_token: cumulative, ..a }),
            ))
        },
    }
}

/// A yield tracker claim after the update (only the yield token may call
/// it): the reward claimed, and the account with nothing left to claim.
pub fn yield_take_claimable(a: YieldAccount) -> (r: (U256, YieldAccount))
    ensures
        r.0 == a.claimable_reward,
        r.1@ == (YieldAccountV { claimable_reward: 0, ..a@ }),
{
    (a.claimable_reward, YieldAccount { claimable_reward: U256::zero(), ..a })
}

/// The yield tracker's `claimable`: with nothing staked the claimable reward;
/// otherwise the reward that the pending distribution would bring (without
/// the reward already claimable).
pub open spec fn yield_claimable_spec(
    a: YieldAccountV,
    distribution_amount: nat,
    total_staked: nat,
    cumulative: nat,
) -> Result<nat, OmxError> {
    if a.staked_balance == 0 {
        Ok(a.claimable_reward)
    } else {
        match mul_spec(distribution_amount, price_precision_value()) {
            Err(e) => Err(e),
            Ok(pending) => match div_spec(pending, total_staked) {
                Err(e) => Err(e),
                Ok(inc) => match add_spec(cumulative, inc) {
                    Err(e) => Err(e),
                    Ok(next) => match sub_spec(next, a.previous_cumulated_reward_per_token) {
                        Err(e) => Err(e),
                        Ok(per_token) => mul_ratio_spec(a.staked_balance, per_token, price_precision_value()),
                    },
                },
            },
        }
    }
}

/// What an account can claim from a yield tracker.
pub fn yield_claimable(
    a: YieldAccount,
    distribution_amount: U256,
    total_staked: U256,
    cumulative_reward_per_token: U256,
) -> (r: Result<U256, OmxError>)
    ensures
        rv(r) == yield_claimable_spec(a@, distribution_amount@, total_staked@, cumulative_reward_per_token@),
{
    if u256_eq(a.staked_balance, U256::zero()) {
        return Ok(a.claimable_reward);
    }
    let pending = safe_mul(distribution_amount, price_precision())?;
    let next = safe_add(cumulative_reward_per_token, safe_div(pending, total_staked)?)?;
    safe_mul_ratio(a.staked_balance, safe_sub(next, a.previous_cumulated_reward_per_token)?, price_precision())
}

// ---------------------------------------------------------------------------
// Time distributor.
// ---------------------------------------------------------------------------

/// Whole distribution intervals since the last distribution.
pub open spec fn intervals_spec(now: nat, last: nat) -> Result<nat, OmxError> {
    match sub_spec(now, last) {
        Err(e) => Err(e),
        Ok(d) => div_spec(d, distribution_interval_value()),
    }
}

/// The whole distribution intervals passed since the last distribution.
pub fn get_intervals(now: u64, last_distribution_time: U256) -> (r: Result<U256, OmxError>)
    ensures
        rv(r) == intervals_spec(now as nat, last_distribution_time@),
{
    safe_div(safe_sub(U256::from_u64(now), last_distribution_time)?, distribution_interval())
}

/// The amount due to a receiver: its tokens per interval times the intervals
/// passed, or nothing when the distributor's balance falls short.
pub open spec fn distribution_amount_spec(tokens_per_interval: nat, now: nat, last: nat, balance: nat) -> Result<nat, OmxError> {
    if tokens_per_interval == 0 {
        Ok(0)
    } else {
        match intervals_spec(now, last) {
            Err(e) => Err(e),
            Ok(n) => match mul_spec(tokens_per_interval, n) {
                Err(e) => Err(e),
                Ok(amount) => if balance < amount {
                    Ok(0)
                } else {
                    Ok(amount)
                },
            },
        }
    }
}

/// The amount due to a receiver, given the distributor's
/// balance of the reward token.
pub fn get_distribution_amount(tokens_per_interval: U256, now: u64, last_distribution_time: U256, balance: U256) -> (r: Result<U256, OmxError>)
    ensures
        rv(r) == distribution_amount_spec(tokens_per_interval@, now as nat, last_distribution_time@, balance@),
{
    if u256_eq(tokens_per_interval, U256::zero()) {
        return Ok(U256::zero());
    }
    let intervals = get_intervals(now, last_distribution_time)?;
    let amount = safe_mul(tokens_per_interval, intervals)?;
    if u256_lt(balance, amount) {
        Ok(U256::zero())
    } else {
        Ok(amount)
    }
}

/// The block time rounded down to a whole distribution interval.
pub open spec fn distribution_start(now: nat) -> nat {
    now / distribution_interval_value() * distribution_interval_value()
}

/// A distribution to the calling receiver: the amount to send
/// and the new last distribution time (unchanged when no interval has passed).
pub open spec fn time_distribute_spec(tokens_per_interval: nat, now: nat, last: nat, balance: nat) -> Result<(nat, nat), OmxError> {
    match intervals_spec(now, last) {
        Err(e) => Err(e),
        Ok(n) => if n == 0 {
            Ok((0, last))
        } else {
            match distribution_amount_spec(tokens_per_interval, now, last, balance) {
                Err(e) => Err(e),
                Ok(amount) => Ok((amount, distribution_start(now))),
            }
        },
    }
}

pub open spec fn pair_v(r: Result<(U256, U256), OmxError>) -> Result<(nat, nat), OmxError> {
    match r {
        Ok((a, b)) => Ok((a@, b@)),
        Err(e) => Err(e),
    }
}

pub fn time_distribute(tokens_per_interval: U256, now: u64, last_distribution_time: U256, balance: U256) -> (r: Result<(U256, U256), OmxError>)
    ensures
        pair_v(r) == time_distribute_spec(tokens_per_interval@, now as nat, last_distribution_time@, balance@),
{
    let intervals = get_intervals(now, last_distribution_time)?;
    if u256_eq(intervals, U256::zero()) {
        return Ok((U256::zero(), last_distribution_time));
    }
    let amount = get_distribution_amount(tokens_per_interval, now, last_distribution_time, balance)?;
    Ok((amount, U256::from_u64(now / 3600 * 3600)))
}

/// Setting a receiver's rate: refused while a distribution is pending; the
/// clock restarts at the current interval. Yields the new last distribution time.
pub open spec fn set_rate_spec(last: nat, now: nat) -> Result<nat, OmxError> {
    if last != 0 {
        match intervals_spec(now, last) {
            Err(e) => Err(e),
            Ok(n) => if n != 0 {
                Err(OmxError::Distributor(DistributorError::PendingDistribution))
            } else {
                Ok(distribution_start(now))
            },
        }
    } else {
        Ok(distribution_start(now))
    }
}

/// The check and clock restart of setting a receiver's rate
/// and of each entry of `set_distribution`.
pub fn set_rate(last_distribution_time: U256, now: u64) -> (r: Result<U256, OmxError>)
    ensures
        rv(r) == set_rate_spec(last_distribution_time@, now as nat),
{
    if !u256_eq(last_distribution_time, U256::zero()) {
        let intervals = get_intervals(now, last_distribution_time)?;
        if !u256_eq(intervals, U256::zero()) {
            return Err(OmxError::Distributor(DistributorError::PendingDistribution));
        }
    }
    Ok(U256::from_u64(now / 3600 * 3600))
}

/// The distribution clock restarts
/// at the start of the current distribution interval.
pub fn distribution_start_time(now: u64) -> (r: U256)
    ensures
        r@ == distribution_start(now as nat),
{
    U256::from_u64(now / 3600 * 3600)
}

/// What `set_distribution` writes for one receiver.
#[derive(Clone, Copy, Debug)]
pub struct DistributionEntry {
    pub receiver: Address,
    pub tokens_per_interval: U256,
    pub reward_token: Address,
    pub last_distribution_time: U256,
}

/// Whether `receivers[i]` already came earlier in the list.
pub open spec fn seen_before(receivers: Seq<Address>, i: int) -> bool {
    exists|j: int| 0 <= j < i && receivers[j] == receivers[i]
}

/// The check and new clock of the `i`-th entry of `set_distribution`: an
/// entry for a receiver set earlier in the same call finds its clock just
/// restarted, with no interval pending.
pub open spec fn distribution_entry_spec(receivers: Seq<Address>, lasts: Seq<U256>, i: int, now: nat) -> Result<
    nat,
    OmxError,
> {
    if seen_before(receivers, i) {
        Ok(distribution_start(now))
    } else {
        set_rate_spec(lasts[i]@, now)
    }
}

/// Setting the distribution of several receivers (only the governor may;
/// any other `sender` is refused with `Forbidden`): the three lists
/// are walked together, as far as the shortest goes; `lasts` holds each
/// receiver's last distribution time before the call. Every entry is
/// checked as by `set_tokens_per_interval`; the first that fails fails the
/// call, else the entries to write are returned.
pub fn set_distribution(
    sender: Address,
    gov: Address,
    receivers: &Vec<Address>,
    amounts: &Vec<U256>,
    reward_tokens: &Vec<Address>,
    lasts: &Vec<U256>,
    now: u64,
) -> (r: Result<Vec<DistributionEntry>, OmxError>)
    requires
        lasts.len() == receivers.len(),
    ensures
        sender != gov ==> r == Err::<Vec<DistributionEntry>, OmxError>(
            OmxError::Distributor(DistributorError::Forbidden),
        ),
        sender == gov ==> match r {
            Ok(entries) => distribution_written(
                receivers@,
                amounts@,
                reward_tokens@,
                lasts@,
                now as nat,
                entries@,
            ),
            Err(e) => distribution_refused(receivers@, amounts@, reward_tokens@, lasts@, now as nat, e),
        },
{
    if sender != gov {
        return Err(OmxError::Distributor(DistributorError::Forbidden));
    }
    let mut n: usize = receivers.len();
    if amounts.len() < n {
        n = amounts.len();
    }
    if reward_tokens.len() < n {
        n = reward_tokens.len();
    }
    let mut entries: Vec<DistributionEntry> = Vec::new();
    let mut i: usize = 0;
    while i < n
        invariant
            sender == gov,
            n == min3(receivers.len() as int, amounts.len() as int, reward_tokens.len() as int),
            lasts.len() == receivers.len(),
            i <= n,
            entries@.len() == i,
            forall|k: int|
                0 <= k < i ==> distribution_entry_spec(receivers@, lasts@, k, now as nat) is Ok,
            forall|k: int|
                0 <= k < i ==> {
                    &&& #[trigger] entries@[k].receiver == receivers@[k]
                    &&& entries@[k].tokens_per_interval == amounts@[k]
                    &&& entries@[k].reward_token == reward_tokens@[k]
                    &&& entries@[k].last_distribution_time@ == distribution_start(now as nat)
                },
        decreases n - i,
    {
        let mut seen = false;
        let mut j: usize = 0;
        while j < i
            invariant
                i < n,
                n <= receivers.len(),
                j <= i,
                seen <==> exists|k: int| 0 <= k < j && receivers@[k] == receivers@[i as int],
            decreases i - j,
        {
            if receivers[j] == receivers[i] {
                seen = true;
            }
            j = j + 1;
        }
        let start = if seen {
            U256::from_u64(now / 3600 * 3600)
        } else {
            match set_rate(lasts[i], now) {
                Ok(t) => t,
                Err(e) => {
                    assert(!seen_before(receivers@, i as int));
                    assert(distribution_entry_spec(receivers@, lasts@, i as int, now as nat)
                        == Err::<nat, OmxError>(e));
                    return Err(e);
                },
            }
        };
        entries.push(
            DistributionEntry {
                receiver: receivers[i],
                tokens_per_interval: amounts[i],
                reward_token: reward_tokens[i],
                last_distribution_time: start,
            },
        );
        i = i + 1;
    }
    assert(distribution_written(receivers@, amounts@, reward_tokens@, lasts@, now as nat, entries@));
    Ok(entries)
}

/// Every entry passed its check and the entries hold the lists' values
/// with the clock restarted.
pub open spec fn distribution_written(
    receivers: Seq<Address>,
    amounts: Seq<U256>,
    reward_tokens: Seq<Address>,
    lasts: Seq<U256>,
    now: nat,
    entries: Seq<DistributionEntry>,
) -> bool {
    let n = min3(receivers.len() as int, amounts.len() as int, reward_tokens.len() as int);
    &&& entries.len() == n
    &&& forall|i: int| 0 <= i < n ==> distribution_entry_spec(receivers, lasts, i, now) is Ok
    &&& forall|i: int|
        0 <= i < n ==> {
            &&& #[trigger] entries[i].receiver == receivers[i]
            &&& entries[i].tokens_per_interval == amounts[i]
            &&& entries[i].reward_token == reward_tokens[i]
            &&& entries[i].last_distribution_time@ == distribution_start(now)
        }
}

/// The first entry that fails its check fails the call with its error.
pub open spec fn distribution_refused(
    receivers: Seq<Address>,
    amounts: Seq<U256>,
    reward_tokens: Seq<Address>,
    lasts: Seq<U256>,
    now: nat,
    e: OmxError,
) -> bool {
    let n = min3(receivers.len() as int, amounts.len() as int, reward_tokens.len() as int);
    exists|i: int|
        0 <= i < n && distribution_entry_spec(receivers, lasts, i, now) == Err::<nat, OmxError>(e)
            && forall|j: int| 0 <= j < i ==> distribution_entry_spec(receivers, lasts, j, now) is Ok
}

/// The least of three lengths.
pub open spec fn min3(a: int, b: int, c: int) -> int {
    let ab = if a < b {
        a
    } else {
        b
    };
    if ab < c {
        ab
    } else {
        c
    }
}

// ---------------------------------------------------------------------------
// Reward distributor.
// ---------------------------------------------------------------------------

/// Rewards accrued since the last distribution, per second.
pub open spec fn pending_rewards_spec(tokens_per_interval: nat, now: nat, last: nat) -> Result<nat, OmxError> {
    if now == last {
        Ok(0)
    } else {
        match sub_spec(now, last) {
            Err(e) => Err(e),
            Ok(d) => mul_spec(tokens_per_interval, d),
        }
    }
}

/// The rewards accrued since the last distribution.
pub fn pending_rewards(tokens_per_interval: U256, now: u64, last_distribution_time: U256) -> (r: Result<U256, OmxError>)
    ensures
        rv(r) == pending_rewards_spec(tokens_per_interval@, now as nat, last_distribution_time@),
{
    let time = U256::from_u64(now);
    if u256_eq(time, last_distribution_time) {
        return Ok(U256::zero());
    }
    safe_mul(tokens_per_interval, safe_sub(time, last_distribution_time)?)
}

/// A reward distributor's distribution: only the tracker or its staking contract
/// may call; the pending rewards, capped at the distributor's balance, and
/// the new last distribution time (unchanged when nothing is pending).
pub open spec fn reward_distribute_spec(
    sender_allowed: bool,
    tokens_per_interval: nat,
    now: nat,
    last: nat,
    balance: nat,
) -> Result<(nat, nat), OmxError> {
    if !sender_allowed {
        Err(OmxError::RewardDistributor(RewardDistributorError::InvalidSender))
    } else {
        match pending_rewards_spec(tokens_per_interval, now, last) {
            Err(e) => Err(e),
            Ok(amount) => if amount == 0 {
                Ok((0, last))
            } else if balance < amount {
                Ok((balance, now))
            } else {
                Ok((amount, now))
            },
        }
    }
}

pub fn reward_distribute(
    sender_allowed: bool,
    tokens_per_interval: U256,
    now: u64,
    last_distribution_time: U256,
    balance: U256,
) -> (r: Result<(U256, U256), OmxError>)
    ensures
        pair_v(r) == reward_distribute_spec(sender_allowed, tokens_per_interval@, now as nat, last_distribution_time@, balance@),
{
    if !sender_allowed {
        return Err(OmxError::RewardDistributor(RewardDistributorError::InvalidSender));
    }
    let amount = pending_rewards(tokens_per_interval, now, last_distribution_time)?;
    if u256_eq(amount, U256::zero()) {
        return Ok((U256::zero(), last_distribution_time));
    }
    let amount = if u256_lt(balance, amount) {
        balance
    } else {
        amount
    };
    Ok((amount, U256::from_u64(now)))
}

/// Setting a reward distributor's rate: only the admin may, and not before
/// the first distribution time is set.
pub fn check_distribution_started(sender: Address, admin: Address, last_distribution_time: U256) -> (r: Result<
    (),
    OmxError,
>)
    ensures
        r == (if sender != admin {
            Err(OmxError::RewardDistributor(RewardDistributorError::Forbidden))
        } else if last_distribution_time@ == 0 {
            Err(OmxError::RewardDistributor(RewardDistributorError::ZeroLastDistributionTime))
        } else {
            Ok(())
        }),
{
    if sender != admin {
        return Err(OmxError::RewardDistributor(RewardDistributorError::Forbidden));
    }
    if u256_eq(last_distribution_time, U256::zero()) {
        return Err(OmxError::RewardDistributor(RewardDistributorError::ZeroLastDistributionTime));
    }
    Ok(())
}

// ---------------------------------------------------------------------------
// Reward router.
// ---------------------------------------------------------------------------

/// Staking and unstaking through the router need a non-zero amount.
pub fn check_router_amount(amount: U256) -> (r: Result<(), OmxError>)
    ensures
        r == (if amount@ == 0 {
            Err(OmxError::RewardRouter(RewardRouterError::InvalidAmount))
        } else {
            Ok(())
        }),
{
    if u256_eq(amount, U256::zero()) {
        return Err(OmxError::RewardRouter(RewardRouterError::InvalidAmount));
    }
    Ok(())
}

/// The bonus tokens forfeited on unstaking `amount` of a stake of `balance`:
/// the same share of the staked bonus tokens (none when none are staked).
pub open spec fn bonus_reduction_spec(staked_bonus: nat, amount: nat, balance: nat) -> Result<nat, OmxError> {
    if staked_bonus > 0 {
        mul_ratio_spec(staked_bonus, amount, balance)
    } else {
        Ok(0)
    }
}

/// The bonus reduction when unstaking: the share of the staked bonus that
/// goes with `amount` out of `balance`.
pub fn bonus_reduction(staked_bonus: U256, amount: U256, balance: U256) -> (r: Result<U256, OmxError>)
    ensures
        rv(r) == bonus_reduction_spec(staked_bonus@, amount@, balance@),
{
    if u256_lt(U256::zero(), staked_bonus) {
        safe_mul_ratio(staked_bonus, amount, balance)
    } else {
        Ok(U256::zero())
    }
}

} // verus!
