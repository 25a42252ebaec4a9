//! The error kinds that the contracts report.

use vstd::prelude::*;
use crate::address::Address;
use crate::uint::U256;

verus! {

/// Failures of the checked arithmetic helpers.
#[derive(Clone, Copy, Debug, PartialEq, Eq)]
pub enum MathError {
    /// "Add: overflow"
    AddOverflow,
    /// "Sub: underflow"
    SubUnderflow,
    /// "Mul: overflow"
    MulOverflow,
    /// "Div: divide by zero"
    DivByZero,
}

/// Failures of `safe_mul_ratio`.
#[derive(Clone, Copy, Debug, PartialEq, Eq)]
pub enum MulRatioError {
    MultiplyOverflow,
    DivideByZero,
    ResultOverflow,
}

/// Failures of `safe_sub_to_int`.
#[derive(Clone, Copy, Debug, PartialEq, Eq)]
pub enum SafeSubToIntError {
    ToIntOverflow,
    NegativeOverflow,
}

#[derive(Clone, Copy, Debug, PartialEq, Eq)]
pub enum VaultError {
    NotInitialized,
    Forbidden,
    ManagerOnly,
    GasPriceTooHigh,
    MaxFeeBasisPointsExceeded,
    MaxUsdoAmountExceeded,
    ZeroUsdoAmount,
    SwapNotEnabled,
    SameToken,
    PoolLessThenBuffer,
    PoolLessThenReserved,
    PoolExceeded,
    PoolExceededBalance,
    CollateralNotIndex,
    CollateralNotWhitelisted,
    CollateralIsStable,
    CollateralNotStable,
    IndexIsStable,
    IndexNotShortable,
    CollateralNotZero,
    CollateralLessThenFees,
    SizeLessThenCollateral,
    AveragePriceZero,
    ZeroAmount,
    ZeroCollateral,
    ZeroSize,
    ZeroRedemptionAmount,
    SizeLessThenDelta,
    CollateralLessThenDelta,
    PnlOverflow,
    LossesExceedCollateral,
    MaxShortsExceeded,
    FeesExceedCollateral,
    FeesExceedAmountOut,
    LiquidationFeesExceedCollateral,
    MaxLeverageExceeded,
    LiquidateValidPosition,
    AlreadyInitialized,
    MaxLeverageTooLow,
    LiquidationFeeUsdTooHigh,
    FundingIntervalTooLow,
    FundingRateFactorTooHigh,
    TokenNotWhitelisted,
}

#[derive(Clone, Copy, Debug, PartialEq, Eq)]
pub enum VaultPriceFeedError {
    AlreadyInitialized,
    PriceOverflow,
    Forbidden,
    AdjustmentFrequencyExceeded,
    InvalidAdjustmentBps,
    InvalidSpreadBasisPoints,
    InvalidPriceSampleSpace,
    InvalidPriceFeed,
    InvalidPrice,
    CouldNotFetchPrice,
    PriceTooOld,
}

#[derive(Clone, Copy, Debug, PartialEq, Eq)]
pub enum ShortsTrackerError {
    Forbidden,
    AlreadyInitialized,
    NotInitialized,
    AlreadyMigrated,
    Overflow,
}

#[derive(Clone, Copy, Debug, PartialEq, Eq)]
pub enum OlpManagerError {
    Forbidden,
    AlreadyInitialized,
    NotInitialized,
    OlpZeroAmount,
    TokenZeroAmount,
    CooldownNotPassed,
    ActionNotEnabled,
    WeightToHigh { max_weight: U256 },
    InsufficientOutput { amount_out: U256 },
    InsufficientOlpOutput { amount_out: U256 },
    InsufficientUsdoOutput { amount_out: U256 },
    InvalidWeight { max_weight: U256 },
}

#[derive(Clone, Copy, Debug, PartialEq, Eq)]
pub enum RewardTrackerError {
    Forbidden,
    AlreadyInitialized,
    NotInitialized,
    MintToZeroAddress,
    BurnFromZeroAddress,
    TransferFromZeroAddress,
    TransferToZeroAddress,
    ApproveFromZeroAddress,
    ApproveToZeroAddress,
    InvalidZeroAmount,
    InvalidDepositToken,
    ActionNotEnabled,
    AmountExceedsStakedAmount { staked_amount: U256, amount: U256 },
    AmountExceedsDepositBalance { deposit_balance: U256, amount: U256 },
    TransferAmountExceedsAllowance { allowance: U256, amount: U256 },
}

#[derive(Clone, Copy, Debug, PartialEq, Eq)]
pub enum BaseTokenError {
    Forbidden,
    AlreadyInitialized,
    AccountAlreadyMarked { account: Address },
    AccountNotMarked { account: Address },
    TransferAmountExceedsAllowance {
        amount: U256,
        allowance: U256,
        owner: Address,
        spender: Address,
    },
    TransferAmountExceedsBalance { amount: U256, balance: U256, account: Address },
    TransferFromZeroAddress,
    TransferToZeroAddress,
    MintToZeroAddress,
    BurnFromZeroAddress,
    BurnAmountExceedsBalance { amount: U256, balance: U256, account: Address },
    SenderNotWhitelisted,
    ApproveFromZeroAddress,
    ApproveToZeroAddress,
    BalanceOverflow,
    BalanceUnderflow,
    NonStakingSupplyOverflow,
    NonStakingSupplyUnderflow,
    TotalSupplyOverflow,
    TotalSupplyUnderflow,
}

#[derive(Clone, Copy, Debug, PartialEq, Eq)]
pub enum Erc20Error {
    AlreadyInitialized,
    BurnFromZeroAddress,
    MintToZeroAddress,
    ApproveFromZeroAddress,
    ApproveToZeroAddress,
    TransferFromZeroAddress,
    TransferToZeroAddress,
    InsufficientBalance,
    InsufficientAllowance,
    AllowanceBelowZero,
    Forbidden,
}

#[derive(Clone, Copy, Debug, PartialEq, Eq)]
pub enum WethError {
    AlreadyInitialized,
    BurnFromZeroAddress,
    MintToZeroAddress,
    ApproveFromZeroAddress,
    ApproveToZeroAddress,
    TransferFromZeroAddress,
    TransferToZeroAddress,
    InsufficientBalance,
    InsufficientAllowance,
    AllowanceBelowZero,
    Forbidden,
}

#[derive(Clone, Copy, Debug, PartialEq, Eq)]
pub enum DistributorError {
    Forbidden,
    NotInitialized,
    AlreadyInitialized,
    PendingDistribution,
}

#[derive(Clone, Copy, Debug, PartialEq, Eq)]
pub enum BonusDistributorError {
    Forbidden,
    AlreadyInitialized,
    NotInitialized,
    InvalidSender,
    ZeroLastDistributionTime,
}

#[derive(Clone, Copy, Debug, PartialEq, Eq)]
pub enum RewardDistributorError {
    Forbidden,
    AlreadyInitialized,
    NotInitialized,
    InvalidSender,
    ZeroLastDistributionTime,
}

#[derive(Clone, Copy, Debug, PartialEq, Eq)]
pub enum RewardRouterError {
    Forbidden,
    AlreadyInitialized,
    NotInitialized,
    InvalidAmount,
    InvalidValue,
    InvalidOlpAmount,
}

#[derive(Clone, Copy, Debug, PartialEq, Eq)]
pub enum RouterError {
    Forbidden,
    AlreadyInitialized,
    HighMarkPrice,
    LowMarkPrice,
    InvalidPlugin,
    PluginNotApproved,
    InvalidPath,
    InvalidTokenIn,
    InvalidTokenOut,
    InsufficientAmountOut,
}

#[derive(Clone, Copy, Debug, PartialEq, Eq)]
pub enum OrderbookError {
    Forbidden,
    AlreadyInitialized,
    NotInitialized,
    ZeroAmountIn,
    ZeroCollateralAmount,
    InsufficientExecutionFee { min_execution_fee: U256 },
    CanNotWrapToken { token: Address },
    IncorrectValueTransferred { expected: U256 },
    IncorrectFeeTransferred { expected: U256 },
    OrderNotFound { order_index: U256 },
    InvalidExecutionPrice {
        execution_price: U256,
        trigger_price: U256,
        trigger_above_threshold: bool,
    },
}

#[derive(Clone, Copy, Debug, PartialEq, Eq)]
pub enum StakedOlpError {
    Forbidden,
    AlreadyInitialized,
    NotInitialized,
}

#[derive(Clone, Copy, Debug, PartialEq, Eq)]
pub enum VesterError {
    Forbidden,
    AlreadyInitialized,
    NotInitialized,
}

#[derive(Clone, Copy, Debug, PartialEq, Eq)]
pub enum YieldTokenError {
    AllowanceOverflow,
    AllowanceUnderflow,
    TotalSupplyOverflow,
    TotalSupplyUnderflow,
    BalanceOverflow,
    BalanceUnderflow,
    NonStakingSupplyOverflow,
    NonStakingSupplyUnderflow,
    Forbidden,
    NotInitialized,
    AlreadyInitialized,
    AccountAlreadyMarked,
    AccountNotMarked,
    TransferAmountExceedsAllowance,
    MintToZeroAddress,
    BurnFromZeroAddress,
    BurnAmountExceedsBalance,
    TransferFromZeroAddress,
    TransferToZeroAddress,
    SenderNotWhitelisted,
    TransferAmountExceedsBalance,
    ApproveFromZeroAddress,
    ApproveToZeroAddress,
}

#[derive(Clone, Copy, Debug, PartialEq, Eq)]
pub enum YieldTrackerError {
    Forbidden,
    AlreadyInitialized,
    NotInitialized,
    SumOverflow,
    SubOverflow,
    MulOverflow,
    DivByZero,
}

/// Any error that a contract entry point can report; each variant carries
/// the error kind that goes into the revert data.
#[derive(Clone, Copy, Debug, PartialEq, Eq)]
pub enum OmxError {
    Math(MathError),
    MulRatio(MulRatioError),
    SubToInt(SafeSubToIntError),
    Vault(VaultError),
    PriceFeed(VaultPriceFeedError),
    ShortsTracker(ShortsTrackerError),
    OlpManager(OlpManagerError),
    RewardTracker(RewardTrackerError),
    BaseToken(BaseTokenError),
    Erc20(Erc20Error),
    Weth(WethError),
    Distributor(DistributorError),
    RewardDistributor(RewardDistributorError),
    RewardRouter(RewardRouterError),
    Router(RouterError),
    Orderbook(OrderbookError),
    YieldTracker(YieldTrackerError),
}

} // verus!
