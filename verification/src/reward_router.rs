//! The reward router: it stakes and unstakes OMX, esOMX and OLP through a
//! chain of reward trackers, and claims and compounds rewards. Each entry
//! point is a sequence of calls to other contracts; where a call's reply
//! decides what comes next, the sequence is a state machine whose step
//! takes the reply and gives the next call.

use vstd::prelude::*;
use crate::address::Address;
use crate::errors::{OmxError, RewardRouterError};
use crate::rewards::{
    bonus_reduction, bonus_reduction_spec, check_router_amount, lemma_stake_then_unstake, stake_spec,
    unstake_spec, Deposits, DepositsV,
};
use crate::safe_math::mul_ratio_spec;
use crate::uint::{u256_eq, u256_lt, U256};

verus! {

/// The contracts the router works with.
#[derive(Clone, Copy, Debug)]
pub struct RouterConfig {
    pub omx: Address,
    pub es_omx: Address,
    pub bn_omx: Address,
    pub olp: Address,
    pub staked_omx_tracker: Address,
    pub bonus_omx_tracker: Address,
    pub staked_omx_tracker_staking: Address,
    pub bonus_omx_tracker_staking: Address,
    pub fee_omx_tracker_staking: Address,
    pub staked_olp_tracker_staking: Address,
    pub fee_olp_tracker_staking: Address,
    pub olp_manager: Address,
}

/// A call the router makes to another contract.
#[derive(Clone, Copy, Debug)]
pub enum RouterCall {
    /// `stakeForAccount` on a tracker's staking contract.
    Stake { staking: Address, funding_account: Address, account: Address, token: Address, amount: U256 },
    /// `unstakeForAccount` on a tracker's staking contract.
    Unstake { staking: Address, account: Address, token: Address, amount: U256, receiver: Address },
    /// `claimForAccount`; replies with the amount claimed.
    Claim { staking: Address, account: Address, receiver: Address },
    /// `stakedAmount`; replies with the account's stake.
    StakedAmount { staking: Address, account: Address },
    /// `depositBalance`; replies with what the account deposited of `token`.
    DepositBalance { staking: Address, account: Address, token: Address },
    /// `burn` on a base token.
    Burn { token: Address, account: Address, amount: U256 },
    /// `addLiquidityForAccount` on the OLP manager; replies with the OLP minted.
    AddLiquidity {
        funding_account: Address,
        account: Address,
        token: Address,
        amount: U256,
        min_usdo: U256,
        min_olp: U256,
    },
    /// `removeLiquidityForAccount` on the OLP manager; replies with the amount out.
    RemoveLiquidity { account: Address, token_out: Address, olp_amount: U256, min_out: U256, receiver: Address },
}

/// The three stakes of `stake_omx_internal`: the token into the staked
/// tracker, its receipt into the bonus tracker, that receipt into the fee tracker.
pub open spec fn stake_omx_calls_spec(
    cfg: RouterConfig,
    funding_account: Address,
    account: Address,
    token: Address,
    amount: U256,
) -> Seq<RouterCall> {
    seq![
        RouterCall::Stake {
            staking: cfg.staked_omx_tracker_staking,
            funding_account,
            account,
            token,
            amount,
        },
        RouterCall::Stake {
            staking: cfg.bonus_omx_tracker_staking,
            funding_account: account,
            account,
            token: cfg.staked_omx_tracker,
            amount,
        },
        RouterCall::Stake {
            staking: cfg.fee_omx_tracker_staking,
            funding_account: account,
            account,
            token: cfg.bonus_omx_tracker,
            amount,
        },
    ]
}

/// Staking `amount` of `token` (OMX or esOMX) for `account`, paid by
/// `funding_account`; the amount must not be zero.
pub fn stake_omx_calls(
    cfg: RouterConfig,
    funding_account: Address,
    account: Address,
    token: Address,
    amount: U256,
) -> (r: Result<Vec<RouterCall>, OmxError>)
    ensures
        match r {
            Ok(calls) => amount@ != 0 && calls@ == stake_omx_calls_spec(
                cfg,
                funding_account,
                account,
                token,
                amount,
            ),
            Err(e) => amount@ == 0 && e == OmxError::RewardRouter(RewardRouterError::InvalidAmount),
        },
{
    check_router_amount(amount)?;
    let calls = vec![
        RouterCall::Stake {
            staking: cfg.staked_omx_tracker_staking,
            funding_account,
            account,
            token,
            amount,
        },
        RouterCall::Stake {
            staking: cfg.bonus_omx_tracker_staking,
            funding_account: account,
            account,
            token: cfg.staked_omx_tracker,
            amount,
        },
        RouterCall::Stake {
            staking: cfg.fee_omx_tracker_staking,
            funding_account: account,
            account,
            token: cfg.bonus_omx_tracker,
            amount,
        },
    ];
    assert(calls@ =~= stake_omx_calls_spec(cfg, funding_account, account, token, amount));
    Ok(calls)
}

/// `batchStakeOmxForAccount`: OMX paid by `sender` is staked for each
/// account with the amount at the same position; the shorter list decides
/// how many. One zero amount fails the whole batch.
pub fn batch_stake_calls(
    cfg: RouterConfig,
    sender: Address,
    accounts: &Vec<Address>,
    amounts: &Vec<U256>,
) -> (r: Result<Vec<RouterCall>, OmxError>)
    ensures
        ({
            let n = if accounts.len() < amounts.len() {
                accounts.len() as int
            } else {
                amounts.len() as int
            };
            match r {
                Ok(calls) => {
                    &&& forall|i: int| 0 <= i < n ==> amounts@[i]@ != 0
                    &&& calls@.len() == 3 * n
                    &&& forall|i: int, k: int|
                        0 <= i < n && 0 <= k < 3 ==> #[trigger] calls@[3 * i + k]
                            == stake_omx_calls_spec(
                            cfg,
                            sender,
                            accounts@[i],
                            cfg.omx,
                            amounts@[i],
                        )[k]
                },
                Err(e) => {
                    &&& exists|i: int| 0 <= i < n && amounts@[i]@ == 0
                    &&& e == OmxError::RewardRouter(RewardRouterError::InvalidAmount)
                },
            }
        }),
{
    let n: usize = if accounts.len() < amounts.len() {
        accounts.len()
    } else {
        amounts.len()
    };
    let mut calls: Vec<RouterCall> = Vec::new();
    let mut i: usize = 0;
    while i < n
        invariant
            n <= accounts.len(),
            n <= amounts.len(),
            n == (if accounts.len() < amounts.len() {
                accounts.len()
            } else {
                amounts.len()
            }),
            i <= n,
            forall|j: int| 0 <= j < i ==> amounts@[j]@ != 0,
            calls@.len() == 3 * i,
            forall|j: int, k: int|
                0 <= j < i && 0 <= k < 3 ==> #[trigger] calls@[3 * j + k] == stake_omx_calls_spec(
                    cfg,
                    sender,
                    accounts@[j],
                    cfg.omx,
                    amounts@[j],
                )[k],
        decreases n - i,
    {
        let mut three = stake_omx_calls(cfg, sender, accounts[i], cfg.omx, amounts[i])?;
        let ghost before = calls@;
        calls.append(&mut three);
        proof {
            assert forall|j: int, k: int| 0 <= j < i + 1 && 0 <= k < 3 implies #[trigger] calls@[3
                * j + k] == stake_omx_calls_spec(
                cfg,
                sender,
                accounts@[j],
                cfg.omx,
                amounts@[j],
            )[k] by {
                if j < i {
                    assert(calls@[3 * j + k] == before[3 * j + k]);
                } else {
                    assert(calls@[3 * j + k] == calls@[3 * (i as int) + k]);
                }
            }
        }
        i = i + 1;
    }
    Ok(calls)
}

/// Where an unstake of OMX or esOMX stands.
#[derive(Clone, Copy, Debug, PartialEq, Eq, Structural)]
pub enum UnstakeStage {
    /// Waiting for the account's stake in the staked tracker.
    Balance,
    /// Waiting for the fee tracker to release the bonus receipt.
    FeeUnstaked,
    /// Waiting for the bonus tracker to release the staked receipt.
    BonusUnstaked,
    /// Waiting for the staked tracker to release the token.
    StakedUnstaked,
    /// Waiting for the bonus points claimed.
    BonusClaimed,
    /// Waiting for the bonus points to be staked in the fee tracker.
    BonusStaked,
    /// Waiting for the bonus points held in the fee tracker.
    StakedBonus,
    /// Waiting for the forfeited bonus points to leave the fee tracker.
    BonusReleased,
    /// Waiting for the forfeited bonus points to be burnt.
    BonusBurnt,
}

/// An unstake in progress: who, what, how much, the stake read at the
/// start, the bonus points to forfeit once known, and the stage.
#[derive(Clone, Copy, Debug)]
pub struct UnstakeOmx {
    pub account: Address,
    pub token: Address,
    pub amount: U256,
    pub balance: U256,
    pub reduction: U256,
    pub stage: UnstakeStage,
}

/// What an unstake does next: one more call, or nothing.
#[derive(Clone, Copy, Debug)]
pub enum UnstakeNext {
    Call(UnstakeOmx, RouterCall),
    Done,
}

/// `unstake_omx_internal`, first step: the amount must not be zero; then
/// the account's stake is read.
pub fn unstake_omx_start(cfg: RouterConfig, account: Address, token: Address, amount: U256) -> (r:
    Result<(UnstakeOmx, RouterCall), OmxError>)
    ensures
        match r {
            Ok((s, call)) => {
                &&& amount@ != 0
                &&& s.account == account && s.token == token && s.amount == amount
                &&& s.stage == UnstakeStage::Balance
                &&& call == (RouterCall::StakedAmount {
                    staking: cfg.staked_omx_tracker_staking,
                    account,
                })
            },
            Err(e) => amount@ == 0 && e == OmxError::RewardRouter(RewardRouterError::InvalidAmount),
        },
{
    check_router_amount(amount)?;
    Ok(
        (
            UnstakeOmx {
                account,
                token,
                amount,
                balance: U256::zero(),
                reduction: U256::zero(),
                stage: UnstakeStage::Balance,
            },
            RouterCall::StakedAmount { staking: cfg.staked_omx_tracker_staking, account },
        ),
    )
}

/// The unstake's next step given the reply to its last call. The stake is
/// released from the fee, bonus and staked trackers in turn; the bonus
/// points claimed are staked back into the fee tracker; then the share of
/// the staked bonus points that the unstaked amount bears in the stake
/// read at the start is released and burnt.
pub open spec fn unstake_omx_step_spec(cfg: RouterConfig, s: UnstakeOmx, reply: U256) -> Result<
    UnstakeNext,
    OmxError,
> {
    let a = s.account;
    match s.stage {
        UnstakeStage::Balance => Ok(
            UnstakeNext::Call(
                UnstakeOmx { balance: reply, stage: UnstakeStage::FeeUnstaked, ..s },
                RouterCall::Unstake {
                    staking: cfg.fee_omx_tracker_staking,
                    account: a,
                    token: cfg.bonus_omx_tracker,
                    amount: s.amount,
                    receiver: a,
                },
            ),
        ),
        UnstakeStage::FeeUnstaked => Ok(
            UnstakeNext::Call(
                UnstakeOmx { stage: UnstakeStage::BonusUnstaked, ..s },
                RouterCall::Unstake {
                    staking: cfg.bonus_omx_tracker_staking,
                    account: a,
                    token: cfg.staked_omx_tracker,
                    amount: s.amount,
                    receiver: a,
                },
            ),
        ),
        UnstakeStage::BonusUnstaked => Ok(
            UnstakeNext::Call(
                UnstakeOmx { stage: UnstakeStage::StakedUnstaked, ..s },
                RouterCall::Unstake {
                    staking: cfg.staked_omx_tracker_staking,
                    account: a,
                    token: s.token,
                    amount: s.amount,
                    receiver: a,
                },
            ),
        ),
        UnstakeStage::StakedUnstaked => Ok(
            UnstakeNext::Call(
                UnstakeOmx { stage: UnstakeStage::BonusClaimed, ..s },
                RouterCall::Claim { staking: cfg.bonus_omx_tracker_staking, account: a, receiver: a },
            ),
        ),
        UnstakeStage::BonusClaimed => if reply@ > 0 {
            Ok(
                UnstakeNext::Call(
                    UnstakeOmx { stage: UnstakeStage::BonusStaked, ..s },
                    RouterCall::Stake {
                        staking: cfg.fee_omx_tracker_staking,
                        funding_account: a,
                        account: a,
                        token: cfg.bn_omx,
                        amount: reply,
                    },
                ),
            )
        } else {
            Ok(
                UnstakeNext::Call(
                    UnstakeOmx { stage: UnstakeStage::StakedBonus, ..s },
                    RouterCall::DepositBalance {
                        staking: cfg.fee_omx_tracker_staking,
                        account: a,
                        token: cfg.bn_omx,
                    },
                ),
            )
        },
        UnstakeStage::BonusStaked => Ok(
            UnstakeNext::Call(
                UnstakeOmx { stage: UnstakeStage::StakedBonus, ..s },
                RouterCall::DepositBalance {
                    staking: cfg.fee_omx_tracker_staking,
                    account: a,
                    token: cfg.bn_omx,
                },
            ),
        ),
        UnstakeStage::StakedBonus => if reply@ > 0 {
            match mul_ratio_spec(reply@, s.amount@, s.balance@) {
                Err(e) => Err(e),
                Ok(_) => Ok(UnstakeNext::Done),
            }
        } else {
            Ok(UnstakeNext::Done)
        },
        UnstakeStage::BonusReleased => Ok(
            UnstakeNext::Call(
                UnstakeOmx { stage: UnstakeStage::BonusBurnt, ..s },
                RouterCall::Burn { token: cfg.bn_omx, account: a, amount: s.reduction },
            ),
        ),
        UnstakeStage::BonusBurnt => Ok(UnstakeNext::Done),
    }
}

/// One step of an unstake. After the staked bonus points are read, a
/// positive holding yields the release of the forfeited share (whose size
/// the step works out), and none ends the unstake.
pub fn unstake_omx_step(cfg: RouterConfig, s: UnstakeOmx, reply: U256) -> (r: Result<
    UnstakeNext,
    OmxError,
>)
    ensures
        s.stage != UnstakeStage::StakedBonus ==> r == unstake_omx_step_spec(cfg, s, reply),
        s.stage == UnstakeStage::StakedBonus ==> match bonus_reduction_spec(
            reply@,
            s.amount@,
            s.balance@,
        ) {
            Err(e) => r == Err::<UnstakeNext, OmxError>(e),
            Ok(reduction) => if reply@ > 0 {
                r matches Ok(UnstakeNext::Call(next, call)) && next.reduction@ == reduction
                    && next.stage == UnstakeStage::BonusReleased && next.account == s.account
                    && next.token == s.token && next.amount == s.amount && next.balance
                    == s.balance && call == (RouterCall::Unstake {
                    staking: cfg.fee_omx_tracker_staking,
                    account: s.account,
                    token: cfg.bn_omx,
                    amount: next.reduction,
                    receiver: s.account,
                })
            } else {
                r matches Ok(UnstakeNext::Done)
            },
        },
{
    let a = s.account;
    match s.stage {
        UnstakeStage::Balance => Ok(
            UnstakeNext::Call(
                UnstakeOmx { balance: reply, stage: UnstakeStage::FeeUnstaked, ..s },
                RouterCall::Unstake {
                    staking: cfg.fee_omx_tracker_staking,
                    account: a,
                    token: cfg.bonus_omx_tracker,
                    amount: s.amount,
                    receiver: a,
                },
            ),
        ),
        UnstakeStage::FeeUnstaked => Ok(
            UnstakeNext::Call(
                UnstakeOmx { stage: UnstakeStage::BonusUnstaked, ..s },
                RouterCall::Unstake {
                    staking: cfg.bonus_omx_tracker_staking,
                    account: a,
                    token: cfg.staked_omx_tracker,
                    amount: s.amount,
                    receiver: a,
                },
            ),
        ),
        UnstakeStage::BonusUnstaked => Ok(
            UnstakeNext::Call(
                UnstakeOmx { stage: UnstakeStage::StakedUnstaked, ..s },
                RouterCall::Unstake {
                    staking: cfg.staked_omx_tracker_staking,
                    account: a,
                    token: s.token,
                    amount: s.amount,
                    receiver: a,
                },
            ),
        ),
        UnstakeStage::StakedUnstaked => Ok(
            UnstakeNext::Call(
                UnstakeOmx { stage: UnstakeStage::BonusClaimed, ..s },
                RouterCall::Claim { staking: cfg.bonus_omx_tracker_staking, account: a, receiver: a },
            ),
        ),
        UnstakeStage::BonusClaimed => if u256_lt(U256::zero(), reply) {
            Ok(
                UnstakeNext::Call(
                    UnstakeOmx { stage: UnstakeStage::BonusStaked, ..s },
                    RouterCall::Stake {
                        staking: cfg.fee_omx_tracker_staking,
                        funding_account: a,
                        account: a,
                        token: cfg.bn_omx,
                        amount: reply,
                    },
                ),
            )
        } else {
            Ok(
                UnstakeNext::Call(
                    UnstakeOmx { stage: UnstakeStage::StakedBonus, ..s },
                    RouterCall::DepositBalance {
                        staking: cfg.fee_omx_tracker_staking,
                        account: a,
                        token: cfg.bn_omx,
                    },
                ),
            )
        },
        UnstakeStage::BonusStaked => Ok(
            UnstakeNext::Call(
                UnstakeOmx { stage: UnstakeStage::StakedBonus, ..s },
                RouterCall::DepositBalance {
                    staking: cfg.fee_omx_tracker_staking,
                    account: a,
                    token: cfg.bn_omx,
                },
            ),
        ),
        UnstakeStage::StakedBonus => {
            let reduction = bonus_reduction(reply, s.amount, s.balance)?;
            if u256_lt(U256::zero(), reply) {
                Ok(
                    UnstakeNext::Call(
                        UnstakeOmx { reduction, stage: UnstakeStage::BonusReleased, ..s },
                        RouterCall::Unstake {
                            staking: cfg.fee_omx_tracker_staking,
                            account: a,
                            token: cfg.bn_omx,
                            amount: reduction,
                            receiver: a,
                        },
                    ),
                )
            } else {
                Ok(UnstakeNext::Done)
            }
        },
        UnstakeStage::BonusReleased => Ok(
            UnstakeNext::Call(
                UnstakeOmx { stage: UnstakeStage::BonusBurnt, ..s },
                RouterCall::Burn { token: cfg.bn_omx, account: a, amount: s.reduction },
            ),
        ),
        UnstakeStage::BonusBurnt => Ok(UnstakeNext::Done),
    }
}

/// `mintAndStakeOlp`, first call: the OLP manager mints OLP for `account`
/// against `amount` of `token`; the amount must not be zero.
pub fn mint_and_stake_olp_start(
    cfg: RouterConfig,
    account: Address,
    token: Address,
    amount: U256,
    min_usdo: U256,
    min_olp: U256,
) -> (r: Result<RouterCall, OmxError>)
    ensures
        match r {
            Ok(call) => amount@ != 0 && call == (RouterCall::AddLiquidity {
                funding_account: account,
                account,
                token,
                amount,
                min_usdo,
                min_olp,
            }),
            Err(e) => amount@ == 0 && e == OmxError::RewardRouter(RewardRouterError::InvalidAmount),
        },
{
    check_router_amount(amount)?;
    Ok(RouterCall::AddLiquidity { funding_account: account, account, token, amount, min_usdo, min_olp })
}

/// `mintAndStakeOlp`, then: the OLP minted is staked into the fee OLP
/// tracker, and its receipt into the staked OLP tracker.
pub fn mint_and_stake_olp_stakes(cfg: RouterConfig, account: Address, olp_amount: U256) -> (r: Vec<
    RouterCall,
>)
    ensures
        r@ == seq![
            RouterCall::Stake {
                staking: cfg.fee_olp_tracker_staking,
                funding_account: account,
                account,
                token: cfg.olp,
                amount: olp_amount,
            },
            RouterCall::Stake {
                staking: cfg.staked_olp_tracker_staking,
                funding_account: account,
                account,
                token: cfg.fee_olp_tracker_staking,
                amount: olp_amount,
            },
        ],
{
    let r = vec![
        RouterCall::Stake {
            staking: cfg.fee_olp_tracker_staking,
            funding_account: account,
            account,
            token: cfg.olp,
            amount: olp_amount,
        },
        RouterCall::Stake {
            staking: cfg.staked_olp_tracker_staking,
            funding_account: account,
            account,
            token: cfg.fee_olp_tracker_staking,
            amount: olp_amount,
        },
    ];
    r
}

/// `unstakeAndRedeemOlp`: the OLP leaves the staked and fee OLP trackers
/// and is redeemed for `token_out`; the OLP amount must not be zero.
pub fn unstake_and_redeem_olp_calls(
    cfg: RouterConfig,
    account: Address,
    token_out: Address,
    olp_amount: U256,
    min_out: U256,
    receiver: Address,
) -> (r: Result<Vec<RouterCall>, OmxError>)
    ensures
        match r {
            Ok(calls) => olp_amount@ != 0 && calls@ == seq![
                RouterCall::Unstake {
                    staking: cfg.staked_olp_tracker_staking,
                    account,
                    token: cfg.fee_olp_tracker_staking,
                    amount: olp_amount,
                    receiver: account,
                },
                RouterCall::Unstake {
                    staking: cfg.fee_olp_tracker_staking,
                    account,
                    token: cfg.olp,
                    amount: olp_amount,
                    receiver: account,
                },
                RouterCall::RemoveLiquidity { account, token_out, olp_amount, min_out, receiver },
            ],
            Err(e) => olp_amount@ == 0 && e == OmxError::RewardRouter(
                RewardRouterError::InvalidOlpAmount,
            ),
        },
{
    if u256_eq(olp_amount, U256::zero()) {
        return Err(OmxError::RewardRouter(RewardRouterError::InvalidOlpAmount));
    }
    let r = vec![
        RouterCall::Unstake {
            staking: cfg.staked_olp_tracker_staking,
            account,
            token: cfg.fee_olp_tracker_staking,
            amount: olp_amount,
            receiver: account,
        },
        RouterCall::Unstake {
            staking: cfg.fee_olp_tracker_staking,
            account,
            token: cfg.olp,
            amount: olp_amount,
            receiver: account,
        },
        RouterCall::RemoveLiquidity { account, token_out, olp_amount, min_out, receiver },
    ];
    Ok(r)
}

/// Which rewards a claim collects.
#[derive(Clone, Copy, Debug, PartialEq, Eq, Structural)]
pub enum ClaimKind {
    /// `claim`: fees and esOMX.
    All,
    /// `claimEsOmx`: esOMX only.
    EsOmx,
    /// `claimFees`: fees only.
    Fees,
}

/// The trackers a claim collects from, in order.
pub open spec fn claim_trackers(cfg: RouterConfig, kind: ClaimKind) -> Seq<Address> {
    match kind {
        ClaimKind::All => seq![
            cfg.fee_omx_tracker_staking,
            cfg.fee_olp_tracker_staking,
            cfg.staked_omx_tracker_staking,
            cfg.staked_olp_tracker_staking,
        ],
        ClaimKind::EsOmx => seq![cfg.staked_omx_tracker_staking, cfg.staked_olp_tracker_staking],
        ClaimKind::Fees => seq![cfg.fee_omx_tracker_staking, cfg.fee_olp_tracker_staking],
    }
}

/// The claims an account makes for itself.
pub fn claim_calls(cfg: RouterConfig, account: Address, kind: ClaimKind) -> (r: Vec<RouterCall>)
    ensures
        r@.len() == claim_trackers(cfg, kind).len(),
        forall|i: int|
            0 <= i < r@.len() ==> #[trigger] r@[i] == (RouterCall::Claim {
                staking: claim_trackers(cfg, kind)[i],
                account,
                receiver: account,
            }),
{
    let trackers = match kind {
        ClaimKind::All => vec![
            cfg.fee_omx_tracker_staking,
            cfg.fee_olp_tracker_staking,
            cfg.staked_omx_tracker_staking,
            cfg.staked_olp_tracker_staking,
        ],
        ClaimKind::EsOmx => vec![cfg.staked_omx_tracker_staking, cfg.staked_olp_tracker_staking],
        ClaimKind::Fees => vec![cfg.fee_omx_tracker_staking, cfg.fee_olp_tracker_staking],
    };
    assert(trackers@ =~= claim_trackers(cfg, kind));
    let mut r: Vec<RouterCall> = Vec::new();
    let mut i: usize = 0;
    while i < trackers.len()
        invariant
            i <= trackers.len(),
            trackers@ == claim_trackers(cfg, kind),
            r@.len() == i,
            forall|j: int|
                0 <= j < i ==> #[trigger] r@[j] == (RouterCall::Claim {
                    staking: trackers@[j],
                    account,
                    receiver: account,
                }),
        decreases trackers.len() - i,
    {
        r.push(RouterCall::Claim { staking: trackers[i], account, receiver: account });
        i = i + 1;
    }
    r
}

/// Where a compound stands.
#[derive(Clone, Copy, Debug, PartialEq, Eq, Structural)]
pub enum CompoundStage {
    /// Waiting for the esOMX claimed from the staked OMX tracker.
    OmxEsClaimed,
    /// Waiting for the bonus points claimed.
    BonusClaimed,
    /// Waiting for the esOMX claimed from the staked OLP tracker.
    OlpEsClaimed,
}

/// `compound`: each claim's reply, when positive, is staked back. The
/// esOMX from both staked trackers is staked as with `stakeEsOmx`; the
/// bonus points go into the fee OMX tracker. Replies with the calls to make
/// now, and the stage that awaits the next claim, if any.
pub open spec fn compound_step_spec(cfg: RouterConfig, account: Address, stage: CompoundStage, reply: U256) -> (
    Seq<RouterCall>,
    Option<CompoundStage>,
) {
    let es_stakes = if reply@ > 0 {
        stake_omx_calls_spec(cfg, account, account, cfg.es_omx, reply)
    } else {
        Seq::empty()
    };
    match stage {
        CompoundStage::OmxEsClaimed => (
            es_stakes.push(
                RouterCall::Claim {
                    staking: cfg.bonus_omx_tracker_staking,
                    account,
                    receiver: account,
                },
            ),
            Some(CompoundStage::BonusClaimed),
        ),
        CompoundStage::BonusClaimed => (
            if reply@ > 0 {
                seq![
                    RouterCall::Stake {
                        staking: cfg.fee_omx_tracker_staking,
                        funding_account: account,
                        account,
                        token: cfg.bn_omx,
                        amount: reply,
                    },
                ]
            } else {
                Seq::empty()
            }.push(
                RouterCall::Claim {
                    staking: cfg.staked_olp_tracker_staking,
                    account,
                    receiver: account,
                },
            ),
            Some(CompoundStage::OlpEsClaimed),
        ),
        CompoundStage::OlpEsClaimed => (es_stakes, None),
    }
}

/// The first call of a compound: claiming esOMX from the staked OMX tracker.
pub fn compound_start(cfg: RouterConfig, account: Address) -> (r: (RouterCall, CompoundStage))
    ensures
        r == (
            RouterCall::Claim {
                staking: cfg.staked_omx_tracker_staking,
                account,
                receiver: account,
            },
            CompoundStage::OmxEsClaimed,
        ),
{
    (
        RouterCall::Claim { staking: cfg.staked_omx_tracker_staking, account, receiver: account },
        CompoundStage::OmxEsClaimed,
    )
}

/// One step of a compound, given the amount the last claim returned.
pub fn compound_step(cfg: RouterConfig, account: Address, stage: CompoundStage, reply: U256) -> (r: (
    Vec<RouterCall>,
    Option<CompoundStage>,
))
    ensures
        (r.0@, r.1) == compound_step_spec(cfg, account, stage, reply),
{
    let positive = u256_lt(U256::zero(), reply);
    match stage {
        CompoundStage::OmxEsClaimed => {
            let mut calls: Vec<RouterCall> = if positive {
                match stake_omx_calls(cfg, account, account, cfg.es_omx, reply) {
                    Ok(c) => c,
                    Err(_) => Vec::new(),
                }
            } else {
                Vec::new()
            };
            calls.push(
                RouterCall::Claim {
                    staking: cfg.bonus_omx_tracker_staking,
                    account,
                    receiver: account,
                },
            );
            proof {
                let spec = compound_step_spec(cfg, account, stage, reply);
                assert(calls@ =~= spec.0);
            }
            (calls, Some(CompoundStage::BonusClaimed))
        },
        CompoundStage::BonusClaimed => {
            let mut calls: Vec<RouterCall> = Vec::new();
            if positive {
                calls.push(
                    RouterCall::Stake {
                        staking: cfg.fee_omx_tracker_staking,
                        funding_account: account,
                        account,
                        token: cfg.bn_omx,
                        amount: reply,
                    },
                );
            }
            calls.push(
                RouterCall::Claim {
                    staking: cfg.staked_olp_tracker_staking,
                    account,
                    receiver: account,
                },
            );
            proof {
                let spec = compound_step_spec(cfg, account, stage, reply);
                assert(calls@ =~= spec.0);
            }
            (calls, Some(CompoundStage::OlpEsClaimed))
        },
        CompoundStage::OlpEsClaimed => {
            let calls: Vec<RouterCall> = if positive {
                match stake_omx_calls(cfg, account, account, cfg.es_omx, reply) {
                    Ok(c) => c,
                    Err(_) => Vec::new(),
                }
            } else {
                Vec::new()
            };
            proof {
                let spec = compound_step_spec(cfg, account, stage, reply);
                assert(calls@ =~= spec.0);
            }
            (calls, None)
        },
    }
}

/// The calls an unstake makes when its calls are answered, in turn, by
/// `replies`, and whether it has ended once they are used up; `None` when a
/// step fails or the unstake ends before the replies run out.
pub open spec fn unstake_run(cfg: RouterConfig, s: UnstakeOmx, replies: Seq<U256>) -> Option<(Seq<RouterCall>, bool)>
    decreases replies.len(),
{
    if replies.len() == 0 {
        Some((Seq::empty(), false))
    } else {
        match unstake_omx_step_spec(cfg, s, replies[0]) {
            Ok(UnstakeNext::Call(next, call)) => match unstake_run(cfg, next, replies.drop_first()) {
                Some((calls, done)) => Some((seq![call] + calls, done)),
                None => None,
            },
            Ok(UnstakeNext::Done) => if replies.len() == 1 {
                Some((Seq::empty(), true))
            } else {
                None
            },
            Err(_) => None,
        }
    }
}

/// An unstake that takes back what a stake put in: the same staking
/// contract, account, token and amount.
pub open spec fn undoes(unstake: RouterCall, stake: RouterCall) -> bool {
    match (unstake, stake) {
        (
            RouterCall::Unstake { staking, account, token, amount, .. },
            RouterCall::Stake { staking: staking2, account: account2, token: token2, amount: amount2, .. },
        ) => staking == staking2 && account == account2 && token == token2 && amount == amount2,
        _ => false,
    }
}

/// Staking `amount` of OMX or esOMX for an account and unstaking it again,
/// with no bonus accrued in between, leaves the three trackers as they were.
/// Answered with the account's stake and then zeros, the unstake releases
/// from the fee, bonus and staked trackers exactly what the stake put into
/// the staked, bonus and fee trackers, reads the bonus it holds, and ends;
/// each release gives its tracker back the deposits it had.
pub proof fn lemma_stake_omx_then_unstake(
    cfg: RouterConfig,
    funding_account: Address,
    account: Address,
    token: Address,
    amount: U256,
    balance: U256,
    s: UnstakeOmx,
    staked_before: Deposits,
    staked_after: Deposits,
    bonus_before: Deposits,
    bonus_after: Deposits,
    fee_before: Deposits,
    fee_after: Deposits,
)
    requires
        s.account == account,
        s.token == token,
        s.amount == amount,
        s.stage == UnstakeStage::Balance,
        stake_spec(staked_before@, amount@) == Ok::<DepositsV, OmxError>(staked_after@),
        stake_spec(bonus_before@, amount@) == Ok::<DepositsV, OmxError>(bonus_after@),
        stake_spec(fee_before@, amount@) == Ok::<DepositsV, OmxError>(fee_after@),
    ensures
        ({
            let stakes = stake_omx_calls_spec(cfg, funding_account, account, token, amount);
            let z = U256::zero_word();
            let run = unstake_run(cfg, s, seq![balance, z, z, z, z, z]);
            &&& run is Some
            &&& run.unwrap().1
            &&& run.unwrap().0.len() == 5
            &&& forall|k: int| 0 <= k < 3 ==> undoes(#[trigger] run.unwrap().0[k], stakes[2 - k])
            &&& run.unwrap().0[3] == (RouterCall::Claim {
                staking: cfg.bonus_omx_tracker_staking,
                account,
                receiver: account,
            })
            &&& run.unwrap().0[4] == (RouterCall::DepositBalance {
                staking: cfg.fee_omx_tracker_staking,
                account,
                token: cfg.bn_omx,
            })
            &&& unstake_spec(fee_after, amount) == Ok::<DepositsV, OmxError>(fee_before@)
            &&& unstake_spec(bonus_after, amount) == Ok::<DepositsV, OmxError>(bonus_before@)
            &&& unstake_spec(staked_after, amount) == Ok::<DepositsV, OmxError>(staked_before@)
        }),
{
    let z = U256::zero_word();
    let replies = seq![balance, z, z, z, z, z];
    reveal_with_fuel(unstake_run, 7);
    assert(z@ == 0);
    assert(replies.drop_first() =~= seq![z, z, z, z, z]);
    assert(seq![z, z, z, z, z].drop_first() =~= seq![z, z, z, z]);
    assert(seq![z, z, z, z].drop_first() =~= seq![z, z, z]);
    assert(seq![z, z, z].drop_first() =~= seq![z, z]);
    assert(seq![z, z].drop_first() =~= seq![z]);
    lemma_stake_then_unstake(staked_before, staked_after, amount);
    lemma_stake_then_unstake(bonus_before, bonus_after, amount);
    lemma_stake_then_unstake(fee_before, fee_after, amount);
    let run = unstake_run(cfg, s, replies);
    assert(run is Some);
    assert(run.unwrap().0.len() == 5);
}

} // verus!
