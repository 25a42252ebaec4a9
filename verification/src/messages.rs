//! The revert messages of the errors that the contracts report as text.

use vstd::prelude::*;
use crate::errors::{MathError, MulRatioError, RouterError, SafeSubToIntError, VaultError, VaultPriceFeedError, WethError};

verus! {

impl MathError {
    /// The revert message reported for this error.
    pub open spec fn text_spec(self) -> &'static str {
        match self {
            MathError::AddOverflow => "Add: overflow",
            MathError::SubUnderflow => "Sub: underflow",
            MathError::MulOverflow => "Mul: overflow",
            MathError::DivByZero => "Div: divide by zero",
        }
    }

    /// The revert message reported for this error.
    pub fn text(&self) -> (r: &'static str)
        ensures
            r == self.text_spec(),
    {
        match self {
            MathError::AddOverflow => "Add: overflow",
            MathError::SubUnderflow => "Sub: underflow",
            MathError::MulOverflow => "Mul: overflow",
            MathError::DivByZero => "Div: divide by zero",
        }
    }
}

impl MulRatioError {
    /// The revert message reported for this error.
    pub open spec fn text_spec(self) -> &'static str {
        match self {
            MulRatioError::MultiplyOverflow => "MulRatio: multiply overflow",
            MulRatioError::DivideByZero => "MulRatio: divide by zero",
            MulRatioError::ResultOverflow => "MulRatio: result overflow",
        }
    }

    /// The revert message reported for this error.
    pub fn text(&self) -> (r: &'static str)
        ensures
            r == self.text_spec(),
    {
        match self {
            MulRatioError::MultiplyOverflow => "MulRatio: multiply overflow",
            MulRatioError::DivideByZero => "MulRatio: divide by zero",
            MulRatioError::ResultOverflow => "MulRatio: result overflow",
        }
    }
}

impl SafeSubToIntError {
    /// The revert message reported for this error.
    pub open spec fn text_spec(self) -> &'static str {
        match self {
            SafeSubToIntError::ToIntOverflow => "SafeSubToInt: to_int overflow",
            SafeSubToIntError::NegativeOverflow => "SafeSubToInt: negative overflow",
        }
    }

    /// The revert message reported for this error.
    pub fn text(&self) -> (r: &'static str)
        ensures
            r == self.text_spec(),
    {
        match self {
            SafeSubToIntError::ToIntOverflow => "SafeSubToInt: to_int overflow",
            SafeSubToIntError::NegativeOverflow => "SafeSubToInt: negative overflow",
        }
    }
}

impl VaultError {
    /// The revert message reported for this error.
    pub open spec fn text_spec(self) -> &'static str {
        match self {
            VaultError::NotInitialized => "Vault: not initialized",
            VaultError::Forbidden => "Vault: forbidden",
            VaultError::SwapNotEnabled => "Vault: swap not enabled",
            VaultError::ManagerOnly => "Vault: manager only",
            VaultError::GasPriceTooHigh => "Vault: gas price is too high",
            VaultError::MaxUsdoAmountExceeded => "Vault: max USDO amount exceeded",
            VaultError::PoolLessThenBuffer => "Vault: pool_amount < buffer",
            VaultError::PoolLessThenReserved => "Vault: pool_amount < reserved",
            VaultError::PoolExceeded => "Vault: pool_amount exceeded",
            VaultError::MaxShortsExceeded => "Vault: max shorts exceeded",
            VaultError::PoolExceededBalance => "Vault: pool_amount exceeded balance",
            VaultError::CollateralNotIndex => "Vault: collateral token should be same as index for long position",
            VaultError::CollateralNotWhitelisted => "Vault: collateral token is not whitelisted",
            VaultError::CollateralIsStable => "Vault: collateral token is stable",
            VaultError::CollateralNotStable => "Vault: collateral token is not stable",
            VaultError::IndexIsStable => "Vault: index token is stable",
            VaultError::IndexNotShortable => "Vault: index token is not shortable",
            VaultError::CollateralNotZero => "Vault: collateral is not zero",
            VaultError::CollateralLessThenFees => "Vault: collateral is less then fees",
            VaultError::SizeLessThenCollateral => "Vault: size is less then collateral",
            VaultError::AveragePriceZero => "Vault: average price is zero",
            VaultError::ZeroAmount => "Vault: zero amount",
            VaultError::ZeroCollateral => "Vault: zero collateral",
            VaultError::ZeroUsdoAmount => "Vault: zero USDO amount",
            VaultError::ZeroSize => "Vault: zero size",
            VaultError::ZeroRedemptionAmount => "Vault: zero redemption amount",
            VaultError::SizeLessThenDelta => "Vault: size is less then delta",
            VaultError::CollateralLessThenDelta => "Vault: collateral is less then delta",
            VaultError::PnlOverflow => "Vault: realised pnl overflow",
            VaultError::LossesExceedCollateral => "Vault: losses exceed collateral",
            VaultError::FeesExceedCollateral => "Vault: fees exceed collateral",
            VaultError::FeesExceedAmountOut => "Vault: fees exceed amount out",
            VaultError::LiquidationFeesExceedCollateral => "Vault: liquidation fees exceed collateral",
            VaultError::MaxLeverageExceeded => "Vault: max leverage exceeded",
            VaultError::LiquidateValidPosition => "Vault: liquidating valid position",
            VaultError::AlreadyInitialized => "Vault: already initialized",
            VaultError::MaxLeverageTooLow => "Vault: max leverage too low",
            VaultError::MaxFeeBasisPointsExceeded => "Vault: max fee basis points exceeded",
            VaultError::LiquidationFeeUsdTooHigh => "Vault: liquidation fee usd too high",
            VaultError::FundingIntervalTooLow => "Vault: funding interval too low",
            VaultError::FundingRateFactorTooHigh => "Vault: funding rate factor too high",
            VaultError::TokenNotWhitelisted => "Vault: token not whitelisted",
            VaultError::SameToken => "Vault: token in and token out are the same",
        }
    }

    /// The revert message reported for this error.
    pub fn text(&self) -> (r: &'static str)
        ensures
            r == self.text_spec(),
    {
        match self {
            VaultError::NotInitialized => "Vault: not initialized",
            VaultError::Forbidden => "Vault: forbidden",
            VaultError::SwapNotEnabled => "Vault: swap not enabled",
            VaultError::ManagerOnly => "Vault: manager only",
            VaultError::GasPriceTooHigh => "Vault: gas price is too high",
            VaultError::MaxUsdoAmountExceeded => "Vault: max USDO amount exceeded",
            VaultError::PoolLessThenBuffer => "Vault: pool_amount < buffer",
            VaultError::PoolLessThenReserved => "Vault: pool_amount < reserved",
            VaultError::PoolExceeded => "Vault: pool_amount exceeded",
            VaultError::MaxShortsExceeded => "Vault: max shorts exceeded",
            VaultError::PoolExceededBalance => "Vault: pool_amount exceeded balance",
            VaultError::CollateralNotIndex => "Vault: collateral token should be same as index for long position",
            VaultError::CollateralNotWhitelisted => "Vault: collateral token is not whitelisted",
            VaultError::CollateralIsStable => "Vault: collateral token is stable",
            VaultError::CollateralNotStable => "Vault: collateral token is not stable",
            VaultError::IndexIsStable => "Vault: index token is stable",
            VaultError::IndexNotShortable => "Vault: index token is not shortable",
            VaultError::CollateralNotZero => "Vault: collateral is not zero",
            VaultError::CollateralLessThenFees => "Vault: collateral is less then fees",
            VaultError::SizeLessThenCollateral => "Vault: size is less then collateral",
            VaultError::AveragePriceZero => "Vault: average price is zero",
            VaultError::ZeroAmount => "Vault: zero amount",
            VaultError::ZeroCollateral => "Vault: zero collateral",
            VaultError::ZeroUsdoAmount => "Vault: zero USDO amount",
            VaultError::ZeroSize => "Vault: zero size",
            VaultError::ZeroRedemptionAmount => "Vault: zero redemption amount",
            VaultError::SizeLessThenDelta => "Vault: size is less then delta",
            VaultError::CollateralLessThenDelta => "Vault: collateral is less then delta",
            VaultError::PnlOverflow => "Vault: realised pnl overflow",
            VaultError::LossesExceedCollateral => "Vault: losses exceed collateral",
            VaultError::FeesExceedCollateral => "Vault: fees exceed collateral",
            VaultError::FeesExceedAmountOut => "Vault: fees exceed amount out",
            VaultError::LiquidationFeesExceedCollateral => "Vault: liquidation fees exceed collateral",
            VaultError::MaxLeverageExceeded => "Vault: max leverage exceeded",
            VaultError::LiquidateValidPosition => "Vault: liquidating valid position",
            VaultError::AlreadyInitialized => "Vault: already initialized",
            VaultError::MaxLeverageTooLow => "Vault: max leverage too low",
            VaultError::MaxFeeBasisPointsExceeded => "Vault: max fee basis points exceeded",
            VaultError::LiquidationFeeUsdTooHigh => "Vault: liquidation fee usd too high",
            VaultError::FundingIntervalTooLow => "Vault: funding interval too low",
            VaultError::FundingRateFactorTooHigh => "Vault: funding rate factor too high",
            VaultError::TokenNotWhitelisted => "Vault: token not whitelisted",
            VaultError::SameToken => "Vault: token in and token out are the same",
        }
    }
}

impl VaultPriceFeedError {
    /// The revert message reported for this error.
    pub open spec fn text_spec(self) -> &'static str {
        match self {
            VaultPriceFeedError::AlreadyInitialized => "VaultPriceFeed: already initialized",
            VaultPriceFeedError::PriceOverflow => "VaultPriceFeed: price overflow",
            VaultPriceFeedError::Forbidden => "VaultPriceFeed: forbidden",
            VaultPriceFeedError::AdjustmentFrequencyExceeded => "VaultPriceFeed: adjustment frequency exceeded",
            VaultPriceFeedError::InvalidAdjustmentBps => "VaultPriceFeed: invalid adjustment_bps",
            VaultPriceFeedError::InvalidSpreadBasisPoints => "VaultPriceFeed: invalid spread_basis_points",
            VaultPriceFeedError::InvalidPriceSampleSpace => "VaultPriceFeed: invalid price_sample_space",
            VaultPriceFeedError::InvalidPriceFeed => "VaultPriceFeed: invalid price feed",
            VaultPriceFeedError::InvalidPrice => "VaultPriceFeed: invalid price",
            VaultPriceFeedError::CouldNotFetchPrice => "VaultPriceFeed: could not fetch price",
            VaultPriceFeedError::PriceTooOld => "VaultPriceFeed: price too old",
        }
    }

    /// The revert message reported for this error.
    pub fn text(&self) -> (r: &'static str)
        ensures
            r == self.text_spec(),
    {
        match self {
            VaultPriceFeedError::AlreadyInitialized => "VaultPriceFeed: already initialized",
            VaultPriceFeedError::PriceOverflow => "VaultPriceFeed: price overflow",
            VaultPriceFeedError::Forbidden => "VaultPriceFeed: forbidden",
            VaultPriceFeedError::AdjustmentFrequencyExceeded => "VaultPriceFeed: adjustment frequency exceeded",
            VaultPriceFeedError::InvalidAdjustmentBps => "VaultPriceFeed: invalid adjustment_bps",
            VaultPriceFeedError::InvalidSpreadBasisPoints => "VaultPriceFeed: invalid spread_basis_points",
            VaultPriceFeedError::InvalidPriceSampleSpace => "VaultPriceFeed: invalid price_sample_space",
            VaultPriceFeedError::InvalidPriceFeed => "VaultPriceFeed: invalid price feed",
            VaultPriceFeedError::InvalidPrice => "VaultPriceFeed: invalid price",
            VaultPriceFeedError::CouldNotFetchPrice => "VaultPriceFeed: could not fetch price",
            VaultPriceFeedError::PriceTooOld => "VaultPriceFeed: price too old",
        }
    }
}

impl WethError {
    /// The revert message reported for this error.
    pub open spec fn text_spec(self) -> &'static str {
        match self {
            WethError::AlreadyInitialized => "Weth: already initialized",
            WethError::Forbidden => "Weth: forbidden",
            WethError::TransferFromZeroAddress => "Weth: transfer from zero address",
            WethError::TransferToZeroAddress => "Weth: transfer to zero address",
            WethError::InsufficientBalance => "Weth: insufficient balance",
            WethError::MintToZeroAddress => "Weth: mint to zero address",
            WethError::BurnFromZeroAddress => "Weth: burn from zero address",
            WethError::ApproveFromZeroAddress => "Weth: approve from zero address",
            WethError::ApproveToZeroAddress => "Weth: approve to zero address",
            WethError::InsufficientAllowance => "Weth: insufficient allowance",
            WethError::AllowanceBelowZero => "Weth: allowance below zero",
        }
    }

    /// The revert message reported for this error.
    pub fn text(&self) -> (r: &'static str)
        ensures
            r == self.text_spec(),
    {
        match self {
            WethError::AlreadyInitialized => "Weth: already initialized",
            WethError::Forbidden => "Weth: forbidden",
            WethError::TransferFromZeroAddress => "Weth: transfer from zero address",
            WethError::TransferToZeroAddress => "Weth: transfer to zero address",
            WethError::InsufficientBalance => "Weth: insufficient balance",
            WethError::MintToZeroAddress => "Weth: mint to zero address",
            WethError::BurnFromZeroAddress => "Weth: burn from zero address",
            WethError::ApproveFromZeroAddress => "Weth: approve from zero address",
            WethError::ApproveToZeroAddress => "Weth: approve to zero address",
            WethError::InsufficientAllowance => "Weth: insufficient allowance",
            WethError::AllowanceBelowZero => "Weth: allowance below zero",
        }
    }
}

impl RouterError {
    /// The revert message reported for this error.
    pub open spec fn text_spec(self) -> &'static str {
        match self {
            RouterError::Forbidden => "Router: forbidden",
            RouterError::AlreadyInitialized => "Router: already initialized",
            RouterError::HighMarkPrice => "Router: mark price higher than limit",
            RouterError::LowMarkPrice => "Router: mark price lower than limit",
            RouterError::InvalidPlugin => "Router: invalid plugin",
            RouterError::PluginNotApproved => "Router: plugin not approved",
            RouterError::InvalidPath => "Router: invalid path",
            RouterError::InvalidTokenIn => "Router: invalid token in",
            RouterError::InvalidTokenOut => "Router: invalid token out",
            RouterError::InsufficientAmountOut => "Router: insufficient amount out",
        }
    }

    /// The revert message reported for this error.
    pub fn text(&self) -> (r: &'static str)
        ensures
            r == self.text_spec(),
    {
        match self {
            RouterError::Forbidden => "Router: forbidden",
            RouterError::AlreadyInitialized => "Router: already initialized",
            RouterError::HighMarkPrice => "Router: mark price higher than limit",
            RouterError::LowMarkPrice => "Router: mark price lower than limit",
            RouterError::InvalidPlugin => "Router: invalid plugin",
            RouterError::PluginNotApproved => "Router: plugin not approved",
            RouterError::InvalidPath => "Router: invalid path",
            RouterError::InvalidTokenIn => "Router: invalid token in",
            RouterError::InvalidTokenOut => "Router: invalid token out",
            RouterError::InsufficientAmountOut => "Router: insufficient amount out",
        }
    }
}

} // verus!
