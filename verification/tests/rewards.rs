use omx::address::Address;
use omx::errors::{
    DistributorError, OmxError, RewardDistributorError, RewardRouterError, RewardTrackerError,
};
use omx::reward_router::{
    batch_stake_calls, claim_calls, compound_start, compound_step, mint_and_stake_olp_stakes,
    mint_and_stake_olp_start, stake_omx_calls, unstake_and_redeem_olp_calls, unstake_omx_start,
    unstake_omx_step, ClaimKind, CompoundStage, RouterCall, RouterConfig, UnstakeNext, UnstakeStage,
};
use omx::rewards::{
    bonus_reduction, check_distribution_started, check_router_amount, claimable,
    distribution_start_time, get_distribution_amount, get_intervals, pending_rewards,
    reward_distribute, set_distribution, set_rate, stake, stake_checks, take_claimable,
    time_distribute, unstake, update_rewards, yield_claimable, yield_take_claimable, yield_update_rewards,
    Deposits,
    StakerRewards, YieldAccount,
};
use omx::uint::U256;

fn u(x: u128) -> U256 {
    U256 { limbs: [x as u64, (x >> 64) as u64, 0, 0] }
}

fn addr(n: u64) -> Address {
    Address { hi: 0, mid: 0, lo: n }
}

const E30: u128 = 1_000_000_000_000_000_000_000_000_000_000;

fn staker(staked: u128) -> StakerRewards {
    StakerRewards {
        staked_amount: u(staked),
        claimable_reward: u(0),
        previous_cumulated_reward_per_token: u(0),
        cumulative_rewards: u(0),
        average_staked_amount: u(0),
    }
}

#[test]
fn staking_rewards_accrue_per_staked_token() {
    let (c, s) = update_rewards(u(0), u(1000), u(100), Some(staker(10))).unwrap();
    assert_eq!(c, u(10 * E30));
    let s = s.unwrap();
    assert_eq!(s.claimable_reward, u(100));
    assert_eq!(s.previous_cumulated_reward_per_token, u(10 * E30));
    assert_eq!(s.cumulative_rewards, u(100));
    assert_eq!(s.average_staked_amount, u(10));
    // Nothing distributed and nothing accrued yet: nothing changes.
    assert_eq!(update_rewards(u(0), u(0), u(100), Some(staker(10))), Ok((u(0), Some(staker(10)))));
    assert_eq!(update_rewards(u(0), u(1000), u(100), None), Ok((u(10 * E30), None)));
    // What could be claimed counts the pending distribution too.
    assert_eq!(claimable(s, u(10 * E30), u(100), u(500)), Ok(u(150)));
    assert_eq!(claimable(staker(0), u(10 * E30), u(100), u(500)), Ok(u(0)));
    let (amount, after) = take_claimable(s);
    assert_eq!(amount, u(100));
    assert_eq!(after.claimable_reward, u(0));
    assert_eq!(after.staked_amount, u(10));
}

#[test]
fn staking_moves_deposits() {
    assert_eq!(stake_checks(u(0), true), Err(OmxError::RewardTracker(RewardTrackerError::InvalidZeroAmount)));
    assert_eq!(stake_checks(u(5), false), Err(OmxError::RewardTracker(RewardTrackerError::InvalidDepositToken)));
    assert_eq!(stake_checks(u(5), true), Ok(()));
    let d = Deposits { staked_amount: u(10), deposit_balance: u(10), total_deposit_supply: u(100) };
    let staked = stake(d, u(5)).unwrap();
    assert_eq!(staked, Deposits { staked_amount: u(15), deposit_balance: u(15), total_deposit_supply: u(105) });
    // Unstaking what was staked gives the deposits back.
    assert_eq!(unstake(staked, u(5)), Ok(d));
    assert_eq!(
        unstake(staked, u(20)),
        Err(OmxError::RewardTracker(RewardTrackerError::AmountExceedsStakedAmount {
            staked_amount: u(15),
            amount: u(20),
        }))
    );
    let thin = Deposits { deposit_balance: u(3), ..staked };
    assert_eq!(
        unstake(thin, u(5)),
        Err(OmxError::RewardTracker(RewardTrackerError::AmountExceedsDepositBalance {
            deposit_balance: u(3),
            amount: u(5),
        }))
    );
}

#[test]
fn yield_tracker_rewards() {
    let a = YieldAccount { staked_balance: u(10), claimable_reward: u(0), previous_cumulated_reward_per_token: u(0) };
    let (c, a) = yield_update_rewards(u(0), u(1000), u(100), Some(a)).unwrap();
    assert_eq!(c, u(10 * E30));
    let a = a.unwrap();
    assert_eq!(a.claimable_reward, u(100));
    // The claimable view counts only what the pending distribution would add.
    assert_eq!(yield_claimable(a, u(500), u(100), u(10 * E30)), Ok(u(50)));
    let idle = YieldAccount { staked_balance: u(0), ..a };
    assert_eq!(yield_claimable(idle, u(500), u(100), u(10 * E30)), Ok(u(100)));
    let (claimed, emptied) = yield_take_claimable(a);
    assert_eq!(claimed, u(100));
    assert_eq!(emptied.claimable_reward, u(0));
    assert_eq!(emptied.staked_balance, u(10));
    assert_eq!(emptied.previous_cumulated_reward_per_token, u(10 * E30));
}

#[test]
fn time_distributor_pays_per_whole_interval() {
    assert_eq!(get_intervals(7300, u(100)), Ok(u(2)));
    assert_eq!(get_distribution_amount(u(5), 7300, u(100), u(100)), Ok(u(10)));
    assert_eq!(get_distribution_amount(u(5), 7300, u(100), u(9)), Ok(u(0)));
    assert_eq!(get_distribution_amount(u(0), 7300, u(100), u(100)), Ok(u(0)));
    assert_eq!(time_distribute(u(5), 7300, u(100), u(100)), Ok((u(10), u(7200))));
    assert_eq!(time_distribute(u(5), 200, u(100), u(100)), Ok((u(0), u(100))));
    assert_eq!(set_rate(u(0), 5000), Ok(u(3600)));
    assert_eq!(set_rate(u(3600), 5000), Ok(u(3600)));
    assert_eq!(set_rate(u(100), 7300), Err(OmxError::Distributor(DistributorError::PendingDistribution)));
    assert_eq!(distribution_start_time(7300), u(7200));
}

#[test]
fn set_distribution_checks_every_entry() {
    let (a, b, t) = (addr(1), addr(2), addr(9));
    let entries = set_distribution(addr(900), addr(900), &vec![a, b, a], &vec![u(1), u(2), u(3)], &vec![t, t], &vec![u(0), u(3600), u(0)], 5000)
        .unwrap();
    assert_eq!(entries.len(), 2);
    assert_eq!(entries[1].receiver, b);
    assert_eq!(entries[1].tokens_per_interval, u(2));
    assert_eq!(entries[1].last_distribution_time, u(3600));
    assert!(matches!(
        set_distribution(addr(900), addr(900), &vec![a, b], &vec![u(1), u(2)], &vec![t, t], &vec![u(0), u(100)], 7300),
        Err(OmxError::Distributor(DistributorError::PendingDistribution))
    ));
    // A receiver set earlier in the same call has just restarted its clock.
    let entries = set_distribution(addr(900), addr(900), &vec![a, a], &vec![u(1), u(2)], &vec![t, t], &vec![u(0), u(100)], 7300).unwrap();
    assert_eq!(entries[1].last_distribution_time, u(7200));
}

#[test]
fn reward_distributor_pays_per_second_within_its_balance() {
    assert_eq!(pending_rewards(u(2), 110, u(100)), Ok(u(20)));
    assert_eq!(pending_rewards(u(2), 100, u(100)), Ok(u(0)));
    assert_eq!(reward_distribute(true, u(2), 110, u(100), u(15)), Ok((u(15), u(110))));
    assert_eq!(reward_distribute(true, u(2), 110, u(100), u(100)), Ok((u(20), u(110))));
    assert_eq!(reward_distribute(true, u(2), 100, u(100), u(100)), Ok((u(0), u(100))));
    assert_eq!(
        reward_distribute(false, u(2), 110, u(100), u(100)),
        Err(OmxError::RewardDistributor(RewardDistributorError::InvalidSender))
    );
    assert_eq!(
        check_distribution_started(addr(901), addr(901), u(0)),
        Err(OmxError::RewardDistributor(RewardDistributorError::ZeroLastDistributionTime))
    );
    assert_eq!(check_distribution_started(addr(901), addr(901), u(1)), Ok(()));
    assert_eq!(
        check_distribution_started(addr(1), addr(901), u(1)),
        Err(OmxError::RewardDistributor(RewardDistributorError::Forbidden))
    );
    assert!(matches!(
        set_distribution(addr(1), addr(900), &vec![addr(2)], &vec![u(1)], &vec![addr(3)], &vec![u(0)], 5000),
        Err(OmxError::Distributor(DistributorError::Forbidden))
    ));
}

fn cfg() -> RouterConfig {
    RouterConfig {
        omx: addr(1),
        es_omx: addr(2),
        bn_omx: addr(3),
        olp: addr(4),
        staked_omx_tracker: addr(5),
        bonus_omx_tracker: addr(6),
        staked_omx_tracker_staking: addr(7),
        bonus_omx_tracker_staking: addr(8),
        fee_omx_tracker_staking: addr(9),
        staked_olp_tracker_staking: addr(10),
        fee_olp_tracker_staking: addr(11),
        olp_manager: addr(12),
    }
}

#[test]
fn staking_omx_goes_through_three_trackers() {
    let (f, a) = (addr(20), addr(21));
    assert_eq!(check_router_amount(u(0)), Err(OmxError::RewardRouter(RewardRouterError::InvalidAmount)));
    assert!(matches!(
        stake_omx_calls(cfg(), f, a, addr(1), u(0)),
        Err(OmxError::RewardRouter(RewardRouterError::InvalidAmount))
    ));
    let calls = stake_omx_calls(cfg(), f, a, addr(1), u(5)).unwrap();
    assert_eq!(calls.len(), 3);
    assert!(matches!(calls[0], RouterCall::Stake { staking, funding_account, token, .. }
        if staking == addr(7) && funding_account == f && token == addr(1)));
    assert!(matches!(calls[1], RouterCall::Stake { staking, funding_account, token, .. }
        if staking == addr(8) && funding_account == a && token == addr(5)));
    assert!(matches!(calls[2], RouterCall::Stake { staking, token, amount, .. }
        if staking == addr(9) && token == addr(6) && amount == u(5)));
    let batch = batch_stake_calls(cfg(), f, &vec![a, addr(22)], &vec![u(1), u(2), u(3)]).unwrap();
    assert_eq!(batch.len(), 6);
    assert!(matches!(batch[3], RouterCall::Stake { account, amount, .. } if account == addr(22) && amount == u(2)));
    assert!(matches!(
        batch_stake_calls(cfg(), f, &vec![a, addr(22)], &vec![u(1), u(0)]),
        Err(OmxError::RewardRouter(RewardRouterError::InvalidAmount))
    ));
}

#[test]
fn unstaking_omx_forfeits_a_share_of_the_bonus_points() {
    let a = addr(21);
    assert!(matches!(
        unstake_omx_start(cfg(), a, addr(1), u(0)),
        Err(OmxError::RewardRouter(RewardRouterError::InvalidAmount))
    ));
    let (s, call) = unstake_omx_start(cfg(), a, addr(1), u(10)).unwrap();
    assert!(matches!(call, RouterCall::StakedAmount { staking, .. } if staking == addr(7)));
    let mut s = s;
    let mut calls = Vec::new();
    // Replies: the stake (100), three unstakes, no bonus claimed, 30 bonus points held.
    let replies = [u(100), u(0), u(0), u(0), u(0), u(30), u(0), u(0)];
    let mut done = false;
    for reply in replies {
        match unstake_omx_step(cfg(), s, reply).unwrap() {
            UnstakeNext::Call(next, call) => {
                s = next;
                calls.push(call);
            }
            UnstakeNext::Done => {
                done = true;
                break;
            }
        }
    }
    assert!(done);
    assert_eq!(s.balance, u(100));
    assert_eq!(s.reduction, u(3));
    assert_eq!(s.stage, UnstakeStage::BonusBurnt);
    assert_eq!(calls.len(), 7);
    assert!(matches!(calls[0], RouterCall::Unstake { staking, token, .. } if staking == addr(9) && token == addr(6)));
    assert!(matches!(calls[1], RouterCall::Unstake { staking, token, .. } if staking == addr(8) && token == addr(5)));
    assert!(matches!(calls[2], RouterCall::Unstake { staking, token, .. } if staking == addr(7) && token == addr(1)));
    assert!(matches!(calls[3], RouterCall::Claim { staking, .. } if staking == addr(8)));
    assert!(matches!(calls[4], RouterCall::DepositBalance { staking, token, .. } if staking == addr(9) && token == addr(3)));
    assert!(matches!(calls[5], RouterCall::Unstake { token, amount, .. } if token == addr(3) && amount == u(3)));
    assert!(matches!(calls[6], RouterCall::Burn { token, amount, .. } if token == addr(3) && amount == u(3)));
    assert_eq!(bonus_reduction(u(30), u(10), u(100)), Ok(u(3)));
    assert_eq!(bonus_reduction(u(0), u(10), u(0)), Ok(u(0)));
}

#[test]
fn unstaking_without_bonus_points_ends_early() {
    let a = addr(21);
    let (s, _) = unstake_omx_start(cfg(), a, addr(1), u(10)).unwrap();
    let s = at_stage(s, UnstakeStage::StakedBonus);
    assert!(matches!(unstake_omx_step(cfg(), s, u(0)), Ok(UnstakeNext::Done)));
    let claimed = at_stage(s, UnstakeStage::BonusClaimed);
    assert!(matches!(
        unstake_omx_step(cfg(), claimed, u(4)),
        Ok(UnstakeNext::Call(next, RouterCall::Stake { staking, token, amount, .. }))
            if next.stage == UnstakeStage::BonusStaked && staking == addr(9) && token == addr(3) && amount == u(4)
    ));
}

#[test]
fn staking_then_unstaking_omx_leaves_the_trackers_as_they_were() {
    let (f, a, token) = (addr(20), addr(21), addr(1));
    // The account's deposits in the staked (7), bonus (8) and fee (9) trackers.
    let before = [
        Deposits { staked_amount: u(10), deposit_balance: u(10), total_deposit_supply: u(100) },
        Deposits { staked_amount: u(10), deposit_balance: u(10), total_deposit_supply: u(200) },
        Deposits { staked_amount: u(10), deposit_balance: u(10), total_deposit_supply: u(300) },
    ];
    let slot = |staking: Address| -> usize {
        if staking == addr(7) { 0 } else if staking == addr(8) { 1 } else { 2 }
    };
    let mut d = before;
    for call in stake_omx_calls(cfg(), f, a, token, u(5)).unwrap() {
        if let RouterCall::Stake { staking, amount, .. } = call {
            d[slot(staking)] = stake(d[slot(staking)], amount).unwrap();
        }
    }
    assert_eq!(d[0].staked_amount, u(15));
    let (mut s, _) = unstake_omx_start(cfg(), a, token, u(5)).unwrap();
    let mut reply = d[0].staked_amount;
    let mut calls = Vec::new();
    loop {
        match unstake_omx_step(cfg(), s, reply).unwrap() {
            UnstakeNext::Call(next, call) => {
                s = next;
                calls.push(call);
                if let RouterCall::Unstake { staking, amount, .. } = call {
                    d[slot(staking)] = unstake(d[slot(staking)], amount).unwrap();
                }
                reply = u(0);
            }
            UnstakeNext::Done => break,
        }
    }
    assert_eq!(calls.len(), 5);
    assert_eq!(d, before);
}

fn at_stage(s: omx::reward_router::UnstakeOmx, stage: UnstakeStage) -> omx::reward_router::UnstakeOmx {
    omx::reward_router::UnstakeOmx { stage, ..s }
}

#[test]
fn olp_staking_and_redemption_calls() {
    let a = addr(21);
    assert!(matches!(
        mint_and_stake_olp_start(cfg(), a, addr(30), u(0), u(0), u(0)),
        Err(OmxError::RewardRouter(RewardRouterError::InvalidAmount))
    ));
    assert!(matches!(
        mint_and_stake_olp_start(cfg(), a, addr(30), u(7), u(1), u(2)),
        Ok(RouterCall::AddLiquidity { token, amount, .. }) if token == addr(30) && amount == u(7)
    ));
    let stakes = mint_and_stake_olp_stakes(cfg(), a, u(50));
    assert!(matches!(stakes[0], RouterCall::Stake { staking, token, .. } if staking == addr(11) && token == addr(4)));
    assert!(matches!(stakes[1], RouterCall::Stake { staking, token, .. } if staking == addr(10) && token == addr(11)));
    assert!(matches!(
        unstake_and_redeem_olp_calls(cfg(), a, addr(30), u(0), u(0), a),
        Err(OmxError::RewardRouter(RewardRouterError::InvalidOlpAmount))
    ));
    let calls = unstake_and_redeem_olp_calls(cfg(), a, addr(30), u(50), u(1), addr(40)).unwrap();
    assert_eq!(calls.len(), 3);
    assert!(matches!(calls[2], RouterCall::RemoveLiquidity { token_out, receiver, .. } if token_out == addr(30) && receiver == addr(40)));
}

#[test]
fn claims_and_compounds() {
    let a = addr(21);
    assert_eq!(claim_calls(cfg(), a, ClaimKind::All).len(), 4);
    let fees = claim_calls(cfg(), a, ClaimKind::Fees);
    assert!(matches!(fees[1], RouterCall::Claim { staking, .. } if staking == addr(11)));
    let es = claim_calls(cfg(), a, ClaimKind::EsOmx);
    assert!(matches!(es[0], RouterCall::Claim { staking, .. } if staking == addr(7)));
    let (first, stage) = compound_start(cfg(), a);
    assert!(matches!(first, RouterCall::Claim { staking, .. } if staking == addr(7)));
    assert_eq!(stage, CompoundStage::OmxEsClaimed);
    let (calls, next) = compound_step(cfg(), a, stage, u(6));
    assert_eq!(calls.len(), 4);
    assert!(matches!(calls[0], RouterCall::Stake { token, amount, .. } if token == addr(2) && amount == u(6)));
    assert_eq!(next, Some(CompoundStage::BonusClaimed));
    let (calls, next) = compound_step(cfg(), a, CompoundStage::BonusClaimed, u(0));
    assert_eq!(calls.len(), 1);
    assert_eq!(next, Some(CompoundStage::OlpEsClaimed));
    let (calls, next) = compound_step(cfg(), a, CompoundStage::OlpEsClaimed, u(0));
    assert!(calls.is_empty());
    assert_eq!(next, None);
}
