use omx::access::{only_gov, only_initialized, only_role, only_uninitialized};
use omx::address::Address;
use omx::errors::{OlpManagerError, OmxError, ShortsTrackerError, VaultError, VaultPriceFeedError};
use omx::funding::FundingState;
use omx::olp::{
    add_liquidity_mint, check_add_liquidity_amount, check_public_liquidity_access, check_remove_liquidity_output, get_aum,
    get_aum_in_usdo, get_global_short_average_price, get_global_short_delta as olp_short_delta,
    get_price as olp_price, remove_liquidity_plan, set_shorts_tracker_average_price_weight, AumToken,
    ShortsAveragePriceConfig,
};
use omx::price_feed::{
    get_price, get_price_v1, get_primary_price, set_adjustment, set_spread_basis_points, PriceConfig,
};
use omx::shorts_tracker::{
    get_global_short_delta, get_next_delta, get_next_global_average_price,
    get_next_global_short_data, get_realised_pnl, init_data_entries, set_init_data,
    update_global_short_data, ShortPosition,
};
use omx::swap_manager::{
    adjust_for_decimals, buy_usdo, decimals_of, decrease_usdo_amount, increase_usdo_amount,
    only_manager, sell_usdo, swap, SwapToken,
};
use omx::uint::{I256, U256};
use omx::vault::{
    clear_token_config, direct_pool_deposit, only_core, set_token_config, validate, PoolLedger,
    TokenConfig, TokenRegistry,
};
use omx::vault_utils::DeltaContext;

fn u(x: u128) -> U256 {
    U256 { limbs: [x as u64, (x >> 64) as u64, 0, 0] }
}

fn i(x: i128) -> I256 {
    let ext = if x < 0 { u64::MAX } else { 0 };
    I256 { limbs: [x as u64, (x >> 64) as u64, ext, ext] }
}

fn addr(n: u64) -> Address {
    Address { hi: 0, mid: 0, lo: n }
}

fn gov() -> Address {
    addr(900)
}

const E30: u128 = 1_000_000_000_000_000_000_000_000_000_000;
const E18: u128 = 1_000_000_000_000_000_000;
const E6: u128 = 1_000_000;

fn ctx(price: u128, now: u64) -> DeltaContext {
    DeltaContext { price: u(price), now, min_profit_time: u(0), min_profit_basis_points: u(0) }
}

fn ledger(pool: u128, recorded: u128, balance: u128) -> PoolLedger {
    PoolLedger { pool_amount: u(pool), reserved_amount: u(0), token_balance: u(recorded), balance: u(balance) }
}

fn token(pool: PoolLedger, is_stable: bool, decimals: u8, price: u128, usdo_amount: u128) -> SwapToken {
    SwapToken {
        pool,
        is_whitelisted: true,
        is_stable,
        decimals,
        price: u(price),
        usdo_amount: u(usdo_amount),
        max_usdo_amount: u(0),
        fee_reserve: u(0),
        buffer_amount: u(0),
        funding: FundingState { cumulative_funding_rate: u(0), last_funding_time: u(0) },
    }
}

#[test]
fn access_checks() {
    assert_eq!(only_gov(addr(1), addr(1), OmxError::Vault(VaultError::Forbidden)), Ok(()));
    assert_eq!(
        only_gov(addr(1), addr(2), OmxError::Vault(VaultError::Forbidden)),
        Err(OmxError::Vault(VaultError::Forbidden))
    );
    assert_eq!(only_role(false, OmxError::Vault(VaultError::Forbidden)), Err(OmxError::Vault(VaultError::Forbidden)));
    assert_eq!(only_role(true, OmxError::Vault(VaultError::Forbidden)), Ok(()));
    assert_eq!(
        only_uninitialized(true, OmxError::Vault(VaultError::AlreadyInitialized)),
        Err(OmxError::Vault(VaultError::AlreadyInitialized))
    );
    assert_eq!(only_initialized(true, OmxError::Vault(VaultError::NotInitialized)), Ok(()));
    let core = vec![addr(3), addr(4)];
    assert_eq!(only_core(addr(4), &core), Ok(()));
    assert_eq!(only_core(addr(5), &core), Err(OmxError::Vault(VaultError::Forbidden)));
    assert_eq!(validate(false, VaultError::ZeroAmount), Err(OmxError::Vault(VaultError::ZeroAmount)));
    assert_eq!(only_manager(false, false, false), Err(OmxError::Vault(VaultError::Forbidden)));
    assert_eq!(only_manager(true, true, false), Err(OmxError::Vault(VaultError::ManagerOnly)));
    assert_eq!(only_manager(true, true, true), Ok(()));
}

#[test]
fn usdo_debt_and_decimals() {
    assert_eq!(decrease_usdo_amount(u(10), u(3)), (u(7), u(3)));
    assert_eq!(decrease_usdo_amount(u(10), u(30)), (u(0), u(10)));
    assert_eq!(increase_usdo_amount(u(10), u(5), u(0)), Ok(u(15)));
    assert_eq!(
        increase_usdo_amount(u(10), u(5), u(12)),
        Err(OmxError::Vault(VaultError::MaxUsdoAmountExceeded))
    );
    assert_eq!(decimals_of(addr(9), addr(9), 6), 18);
    assert_eq!(decimals_of(addr(8), addr(9), 6), 6);
    assert_eq!(adjust_for_decimals(u(E6), 6, 18), Ok(u(E18)));
    assert_eq!(adjust_for_decimals(u(E18), 18, 6), Ok(u(E6)));
}

#[test]
fn buying_usdo_mints_the_value_less_the_fee() {
    let usdc = token(ledger(1000 * E6, 1000 * E6, 1100 * E6), true, 6, E30, 0);
    let out = buy_usdo(true, usdc, 4000).unwrap();
    assert_eq!(out.token_amount, u(100 * E6));
    assert_eq!(out.mint_amount, u(99_700_000_000_000_000_000));
    assert_eq!(out.token.usdo_amount, u(99_700_000_000_000_000_000));
    assert_eq!(out.token.fee_reserve, u(300_000));
    assert_eq!(out.token.pool.pool_amount, u(1_099_700_000));
    assert_eq!(out.token.pool.token_balance, u(1100 * E6));
    assert_eq!(out.token.funding.last_funding_time, u(3600));
    let nothing = token(ledger(1000 * E6, 1000 * E6, 1000 * E6), true, 6, E30, 0);
    assert_eq!(buy_usdo(true, nothing, 4000), Err(OmxError::Vault(VaultError::ZeroAmount)));
    let unlisted = SwapToken { is_whitelisted: false, ..usdc };
    assert_eq!(buy_usdo(true, unlisted, 4000), Err(OmxError::Vault(VaultError::TokenNotWhitelisted)));
}

#[test]
fn selling_usdo_redeems_tokens_less_the_fee() {
    let usdc = token(ledger(1000 * E6, 1000 * E6, 1000 * E6), true, 6, E30, 200 * E18);
    let usdo_pool = ledger(0, 0, 50 * E18);
    let out = sell_usdo(true, usdc, usdo_pool, 4000).unwrap();
    assert_eq!(out.usdo_amount, u(50 * E18));
    assert_eq!(out.amount_out, u(49_850_000));
    assert_eq!(out.token.usdo_amount, u(150 * E18));
    assert_eq!(out.token.pool.pool_amount, u(950 * E6));
    assert_eq!(out.token.fee_reserve, u(150_000));
    assert_eq!(out.usdo_pool.token_balance, u(50 * E18));
    assert_eq!(
        sell_usdo(true, usdc, ledger(0, 0, 0), 4000),
        Err(OmxError::Vault(VaultError::ZeroUsdoAmount))
    );
}

#[test]
fn swapping_trades_at_the_price_ratio_less_the_fee() {
    let eth = token(ledger(100 * E18, 100 * E18, 101 * E18), false, 18, 2000 * E30, 0);
    let usdc = token(ledger(1_000_000 * E6, 1_000_000 * E6, 1_000_000 * E6), true, 6, E30, 5000 * E18);
    let out = swap(true, false, eth, usdc, 4000).unwrap();
    assert_eq!(out.amount_in, u(E18));
    assert_eq!(out.amount_out, u(2000 * E6));
    assert_eq!(out.amount_out_after_fees, u(1994 * E6));
    assert_eq!(out.fee_basis_points, u(30));
    assert_eq!(out.token_in.usdo_amount, u(2000 * E18));
    assert_eq!(out.token_out.usdo_amount, u(3000 * E18));
    assert_eq!(out.token_in.pool.pool_amount, u(101 * E18));
    assert_eq!(out.token_out.pool.pool_amount, u(998_000 * E6));
    assert_eq!(out.token_out.fee_reserve, u(6 * E6));
    assert_eq!(swap(true, true, eth, usdc, 4000), Err(OmxError::Vault(VaultError::SameToken)));
    let buffered = SwapToken { buffer_amount: u(999_000 * E6), ..usdc };
    assert_eq!(swap(true, false, eth, buffered, 4000), Err(OmxError::Vault(VaultError::PoolLessThenBuffer)));
}

fn feed(price: u128, spread: u128, strict: bool) -> PriceConfig {
    PriceConfig {
        price: u(price),
        spread_basis_points: u(spread),
        is_strict_stable: strict,
        adjustment_basis_points: u(0),
        is_adjustment_additive: false,
        last_adjustment_timing: u(0),
    }
}

#[test]
fn prices_carry_the_spread_in_the_vault_s_favour() {
    let c = feed(2000 * E30, 10, false);
    assert_eq!(get_primary_price(c), Ok(u(2000 * E30)));
    assert_eq!(get_price_v1(c, true, u(0)), Ok(u(2002 * E30)));
    assert_eq!(get_price_v1(c, false, u(0)), Ok(u(1998 * E30)));
    assert_eq!(
        get_primary_price(feed(0, 0, false)),
        Err(OmxError::PriceFeed(VaultPriceFeedError::InvalidPrice))
    );
    let stable = feed(1_001_000_000_000_000_000_000_000_000_000, 0, true);
    assert_eq!(get_price_v1(stable, true, u(10_000_000_000_000_000_000_000_000_000)), Ok(u(E30)));
    assert_eq!(get_price_v1(stable, true, u(0)), Ok(u(1_001_000_000_000_000_000_000_000_000_000)));
    assert_eq!(get_price_v1(stable, false, u(0)), Ok(u(E30)));
    // The maximizing price is never below the minimizing one.
    let (lo, hi) = (get_price(c, false, u(0)).unwrap(), get_price(c, true, u(0)).unwrap());
    assert!(omx::safe_math::safe_sub(hi, lo).is_ok());
}

#[test]
fn price_adjustments_scale_the_price() {
    let up = PriceConfig { adjustment_basis_points: u(10), is_adjustment_additive: true, ..feed(2000 * E30, 0, false) };
    assert_eq!(get_price(up, true, u(0)), Ok(u(2002 * E30)));
    let down = PriceConfig { is_adjustment_additive: false, ..up };
    assert_eq!(get_price(down, true, u(0)), Ok(u(1998 * E30)));
    let c = feed(2000 * E30, 0, false);
    let adjusted = set_adjustment(gov(), gov(), c, true, u(15), 100).unwrap();
    assert_eq!(adjusted.adjustment_basis_points, u(15));
    assert_eq!(adjusted.last_adjustment_timing, u(100));
    assert_eq!(
        set_adjustment(gov(), gov(), c, true, u(21), 100),
        Err(OmxError::PriceFeed(VaultPriceFeedError::InvalidAdjustmentBps))
    );
    assert_eq!(
        set_adjustment(gov(), gov(), c, true, u(15), 7201),
        Err(OmxError::PriceFeed(VaultPriceFeedError::AdjustmentFrequencyExceeded))
    );
    assert_eq!(set_spread_basis_points(gov(), gov(), c, u(50)).unwrap().spread_basis_points, u(50));
    assert_eq!(
        set_spread_basis_points(addr(1), gov(), c, u(50)),
        Err(OmxError::PriceFeed(VaultPriceFeedError::Forbidden))
    );
    assert_eq!(
        set_adjustment(addr(1), gov(), c, true, u(15), 100),
        Err(OmxError::PriceFeed(VaultPriceFeedError::Forbidden))
    );
    assert_eq!(
        set_spread_basis_points(gov(), gov(), c, u(51)),
        Err(OmxError::PriceFeed(VaultPriceFeedError::InvalidSpreadBasisPoints))
    );
}

#[test]
fn shorts_tracker_deltas_net_the_realised_pnl() {
    assert_eq!(get_next_delta(u(100), u(90), u(50), i(20)), Ok((true, u(30))));
    assert_eq!(get_next_delta(u(100), u(90), u(50), i(70)), Ok((false, u(20))));
    assert_eq!(get_next_delta(u(100), u(90), u(50), i(-5)), Ok((true, u(55))));
    assert_eq!(get_next_delta(u(100), u(110), u(50), i(5)), Ok((false, u(55))));
    assert_eq!(get_next_delta(u(100), u(110), u(50), i(-70)), Ok((true, u(20))));
    assert_eq!(get_next_delta(u(100), u(110), u(50), i(-20)), Ok((false, u(30))));
    assert_eq!(get_next_global_average_price(u(100), u(90), u(2000), u(100), i(0)), Ok(u(94)));
    assert_eq!(get_global_short_delta(u(1000), u(100), u(90)), Ok((true, u(100))));
    assert_eq!(get_global_short_delta(u(0), u(100), u(90)), Ok((false, u(0))));
}

#[test]
fn shorts_tracker_follows_short_decreases() {
    let position = ShortPosition { size: u(1000), average_price: u(100), last_increased_time: u(0) };
    assert_eq!(get_realised_pnl(false, position, u(500), ctx(90, 100)), Ok(i(50)));
    assert_eq!(get_realised_pnl(false, position, u(500), ctx(110, 100)), Ok(i(-50)));
    assert_eq!(get_realised_pnl(true, position, u(500), ctx(110, 100)), Ok(i(0)));
    assert_eq!(get_next_global_short_data(i(0), u(100), u(1000), u(90), u(1000), true), Ok((u(2000), u(94))));
    assert_eq!(get_next_global_short_data(i(0), u(100), u(1000), u(90), u(1000), false), Ok((u(0), u(0))));
    assert_eq!(get_next_global_short_data(i(0), u(0), u(1000), u(90), u(1000), true), Ok((u(2000), u(90))));
    assert_eq!(
        update_global_short_data(true, true, false, u(500), u(90), false, u(100), u(1000), position, ctx(90, 100)),
        Ok(u(100))
    );
    assert_eq!(
        update_global_short_data(false, true, false, u(500), u(90), false, u(100), u(1000), position, ctx(90, 100)),
        Err(OmxError::ShortsTracker(ShortsTrackerError::Forbidden))
    );
    assert_eq!(
        update_global_short_data(true, true, true, u(500), u(90), false, u(123), u(1000), position, ctx(90, 100)),
        Ok(u(123))
    );
    let tokens = vec![addr(1), addr(2), addr(3)];
    let prices = vec![u(10), u(20)];
    assert_eq!(init_data_entries(&tokens, &prices), vec![(addr(1), u(10)), (addr(2), u(20))]);
    assert_eq!(set_init_data(gov(), gov(), true, &tokens, &prices), Err(OmxError::ShortsTracker(ShortsTrackerError::AlreadyMigrated)));
    assert_eq!(set_init_data(gov(), gov(), false, &tokens, &prices).unwrap().len(), 2);
    assert_eq!(
        set_init_data(addr(1), gov(), false, &tokens, &prices),
        Err(OmxError::ShortsTracker(ShortsTrackerError::Forbidden))
    );
}

#[test]
fn olp_is_priced_from_the_assets_under_management() {
    let usdc = AumToken {
        is_whitelisted: true,
        is_stable: true,
        price: u(E30),
        pool_amount: u(1000 * E6),
        reserved_amount: u(0),
        decimals: 6,
        global_short_size: u(0),
        global_short_average_price: u(0),
        guaranteed_usd: u(0),
    };
    let eth = AumToken {
        is_whitelisted: true,
        is_stable: false,
        price: u(2000 * E30),
        pool_amount: u(10 * E18),
        reserved_amount: u(2 * E18),
        decimals: 18,
        global_short_size: u(1000 * E30),
        global_short_average_price: u(1800 * E30),
        guaranteed_usd: u(500 * E30),
    };
    let gone = AumToken { is_whitelisted: false, ..eth };
    assert_eq!(get_aum(&vec![usdc, eth, gone]), Ok(u(17_611_111_111_111_111_111_111_111_111_111_111)));
    // Shorts in profit count against the AUM.
    let eth_short_profit = AumToken { global_short_average_price: u(2500 * E30), ..eth };
    assert_eq!(get_aum(&vec![usdc, eth_short_profit]), Ok(u(17_300 * E30)));
    assert_eq!(get_aum(&vec![]), Ok(u(0)));
    assert_eq!(olp_price(u(2000 * E30), u(1000 * E18)), Ok(u(2 * E30)));
    assert_eq!(get_aum_in_usdo(u(2000 * E30)), Ok(u(2000 * E18)));
    assert_eq!(olp_short_delta(u(1800 * E30), u(2000 * E30), u(1000 * E30)).unwrap().1, false);
}

#[test]
fn olp_short_average_price_weight_is_capped() {
    assert_eq!(set_shorts_tracker_average_price_weight(gov(), gov(), u(10_000)), Ok(u(10_000)));
    assert_eq!(
        set_shorts_tracker_average_price_weight(addr(1), gov(), u(10)),
        Err(OmxError::OlpManager(OlpManagerError::Forbidden))
    );
    assert_eq!(
        set_shorts_tracker_average_price_weight(gov(), gov(), u(10_001)),
        Err(OmxError::OlpManager(OlpManagerError::InvalidWeight { max_weight: u(10_000) }))
    );
    let c = ShortsAveragePriceConfig {
        shorts_tracker_is_zero: false,
        shorts_tracker_ready: false,
        weight: u(E30),
        shorts_tracker_average_price: u(77),
    };
    assert_eq!(get_global_short_average_price(c), u(77));
}

#[test]
fn liquidity_mints_and_redeems_at_the_olp_price() {
    assert_eq!(check_add_liquidity_amount(u(0)), Err(OmxError::OlpManager(OlpManagerError::TokenZeroAmount)));
    assert_eq!(check_add_liquidity_amount(u(1)), Ok(()));
    // 100 USDO into a pool worth 1000 USDO backed by 500 OLP mints 50 OLP.
    assert_eq!(add_liquidity_mint(u(100), u(1000), u(500), u(0), u(0), 5000), Ok((u(50), u(5000))));
    // Into an empty pool, one OLP per USDO.
    assert_eq!(add_liquidity_mint(u(100), u(0), u(0), u(0), u(0), 7), Ok((u(100), u(7))));
    assert_eq!(
        add_liquidity_mint(u(100), u(1000), u(500), u(101), u(0), 5000),
        Err(OmxError::OlpManager(OlpManagerError::InsufficientUsdoOutput { amount_out: u(100) }))
    );
    assert_eq!(
        add_liquidity_mint(u(100), u(1000), u(500), u(0), u(51), 5000),
        Err(OmxError::OlpManager(OlpManagerError::InsufficientOlpOutput { amount_out: u(50) }))
    );
    // The deposit time recorded by the mint starts the removal cooldown.
    let (_, last_added_at) = add_liquidity_mint(u(100), u(1000), u(500), u(0), u(0), 5000).unwrap();
    assert_eq!(
        remove_liquidity_plan(u(50), last_added_at, 91_399, u(1100), u(550), u(30)),
        Err(OmxError::OlpManager(OlpManagerError::CooldownNotPassed))
    );
    assert!(remove_liquidity_plan(u(50), last_added_at, 91_400, u(1100), u(550), u(30)).is_ok());
    // Redeeming those 50 OLP after the cooldown: 50 of 550 OLP over 1100 USDO.
    assert_eq!(remove_liquidity_plan(u(50), u(0), 86_400, u(1100), u(550), u(30)), Ok((u(100), u(70))));
    assert_eq!(remove_liquidity_plan(u(50), u(0), 86_400, u(1100), u(550), u(300)), Ok((u(100), u(0))));
    assert_eq!(
        remove_liquidity_plan(u(50), u(1), 86_400, u(1100), u(550), u(30)),
        Err(OmxError::OlpManager(OlpManagerError::CooldownNotPassed))
    );
    assert_eq!(
        remove_liquidity_plan(u(0), u(0), 86_400, u(1100), u(550), u(30)),
        Err(OmxError::OlpManager(OlpManagerError::OlpZeroAmount))
    );
    assert_eq!(check_remove_liquidity_output(u(9), u(9)), Ok(u(9)));
    assert_eq!(
        check_remove_liquidity_output(u(8), u(9)),
        Err(OmxError::OlpManager(OlpManagerError::InsufficientOutput { amount_out: u(8) }))
    );
}

#[test]
fn vault_token_registry_counts_and_weighs_tokens() {
    let mut reg = TokenRegistry { whitelisted_token_count: u(0), total_token_weights: u(0), all_whitelisted_tokens: Vec::new() };
    let blank = TokenConfig {
        whitelisted: false,
        decimals: 0,
        weight: u(0),
        min_profit_basis_points: u(0),
        is_stable: false,
        is_shortable: false,
    };
    let eth = set_token_config(gov(), gov(), &mut reg, blank, addr(1), 18, u(60), u(75), false, true).unwrap();
    assert!(eth.whitelisted);
    assert_eq!(eth.weight, u(60));
    let usdc = set_token_config(gov(), gov(), &mut reg, blank, addr(2), 6, u(40), u(0), true, false).unwrap();
    assert_eq!(reg.whitelisted_token_count, u(2));
    assert_eq!(reg.total_token_weights, u(100));
    assert_eq!(reg.all_whitelisted_tokens, vec![addr(1), addr(2)]);
    // Reconfiguring replaces the weight without counting the token again.
    let eth = set_token_config(gov(), gov(), &mut reg, eth, addr(1), 18, u(50), u(75), false, true).unwrap();
    assert_eq!(reg.whitelisted_token_count, u(2));
    assert_eq!(reg.total_token_weights, u(90));
    let cleared = clear_token_config(gov(), gov(), &mut reg, eth).unwrap();
    assert!(!cleared.whitelisted);
    assert_eq!(reg.whitelisted_token_count, u(1));
    assert_eq!(reg.total_token_weights, u(40));
    assert_eq!(reg.all_whitelisted_tokens.len(), 2);
    assert_eq!(reg.all_whitelisted_tokens_length(), u(2));
    assert_eq!(reg.all_whitelisted_tokens(1), addr(2));
    assert_eq!(reg.all_whitelisted_tokens(2), Address::zero());
    assert!(matches!(
        clear_token_config(gov(), gov(), &mut reg, cleared),
        Err(OmxError::Vault(VaultError::TokenNotWhitelisted))
    ));
    assert!(usdc.is_stable);
    assert!(matches!(
        set_token_config(addr(1), gov(), &mut reg, blank, addr(3), 18, u(10), u(0), false, false),
        Err(OmxError::Vault(VaultError::Forbidden))
    ));
    assert_eq!(reg.whitelisted_token_count, u(1));
}

#[test]
fn public_liquidity_needs_a_ready_public_manager() {
    assert_eq!(check_public_liquidity_access(true, false), Ok(()));
    assert_eq!(
        check_public_liquidity_access(false, false),
        Err(OmxError::OlpManager(OlpManagerError::NotInitialized))
    );
    assert_eq!(
        check_public_liquidity_access(true, true),
        Err(OmxError::OlpManager(OlpManagerError::ActionNotEnabled))
    );
}

#[test]
fn direct_deposits_join_the_pool() {
    let (l, amount) = direct_pool_deposit(true, ledger(100, 100, 130)).unwrap();
    assert_eq!(amount, u(30));
    assert_eq!(l.pool_amount, u(130));
    assert_eq!(l.token_balance, u(130));
    assert_eq!(direct_pool_deposit(true, ledger(100, 130, 130)), Err(OmxError::Vault(VaultError::ZeroAmount)));
    assert_eq!(direct_pool_deposit(false, ledger(100, 100, 130)), Err(OmxError::Vault(VaultError::TokenNotWhitelisted)));
}
