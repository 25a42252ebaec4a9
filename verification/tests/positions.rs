use omx::address::Address;
use omx::errors::{MathError, OmxError, VaultError};
use omx::fee_manager::{
    collect_margin_fees, collect_swap_fees, get_funding_fee, get_position_fee,
    get_swap_fee_basis_points, get_target_usdo_amount, increase_fee_reserves, withdraw_fees,
    CollateralContext,
};
use omx::funding::{get_next_funding_rate, update_cumulative_funding_rate, FundingInputs, FundingState};
use omx::position_key::{address_bytes, get_position_key, position_key_data};
use omx::position_ops::{
    decrease_position, increase_position, liquidate_position, IncreaseRequest, PositionBook,
    TokenPrice,
};
use omx::position_utils::{get_next_average_price, reduce_collateral, validate_liquidation};
use omx::positions::{
    after_short_increase, decrease_global_short_size, get_next_global_short_average_price,
    increase_global_short_size, pnl_add, pnl_sub, update_guaranteed_usd, validate_position,
    GlobalShort, Position,
};
use omx::uint::{I256, U256};
use omx::vault::PoolLedger;
use omx::vault_utils::{get_delta, validate_tokens, DeltaContext, TokenFlags};

fn u(x: u128) -> U256 {
    U256 { limbs: [x as u64, (x >> 64) as u64, 0, 0] }
}

fn i(x: i128) -> I256 {
    let ext = if x < 0 { u64::MAX } else { 0 };
    I256 { limbs: [x as u64, (x >> 64) as u64, ext, ext] }
}

fn addr(n: u64) -> Address {
    Address { hi: 0, mid: 0, lo: n }
}

const E30: u128 = 1_000_000_000_000_000_000_000_000_000_000;
const E18: u128 = 1_000_000_000_000_000_000;

fn ctx(price: u128, now: u64) -> DeltaContext {
    DeltaContext { price: u(price), now, min_profit_time: u(0), min_profit_basis_points: u(0) }
}

fn volatile() -> TokenFlags {
    TokenFlags { is_whitelisted: true, is_stable: false, is_shortable: true }
}

fn stable() -> TokenFlags {
    TokenFlags { is_whitelisted: true, is_stable: true, is_shortable: false }
}

fn empty_short() -> GlobalShort {
    GlobalShort { size: u(0), average_price: u(0), max_size: u(0) }
}

/// A book for a fresh long on ETH backed by ETH: 100 ETH in the pool and
/// 1 ETH just deposited.
fn fresh_book() -> PositionBook {
    PositionBook {
        position: Position::empty(),
        pool: PoolLedger {
            pool_amount: u(100 * E18),
            reserved_amount: u(0),
            token_balance: u(100 * E18),
            balance: u(101 * E18),
        },
        fee_reserve: u(0),
        guaranteed_usd: u(0),
        global_short: empty_short(),
    }
}

fn funding() -> FundingState {
    FundingState { cumulative_funding_rate: u(0), last_funding_time: u(3600) }
}

fn open_long() -> PositionBook {
    let eth = addr(1);
    let req = IncreaseRequest {
        collateral_token: eth,
        index_token: eth,
        size_delta: u(10_000 * E30),
        is_long: true,
        collateral_flags: volatile(),
        index_flags: volatile(),
        collateral: TokenPrice { price: u(2000 * E30), decimals: 18 },
    };
    increase_position(true, fresh_book(), true, funding(), req, ctx(2000 * E30, 4000)).unwrap().book
}

#[test]
fn position_fee_is_the_margin_fee_share_of_the_size_change() {
    assert_eq!(get_position_fee(u(10_000 * E30)), Ok(u(10 * E30)));
    assert_eq!(get_position_fee(u(0)), Ok(u(0)));
    assert_eq!(get_position_fee(u(999)), Ok(u(1)));
}

#[test]
fn funding_fee_is_the_rate_accrued_since_entry() {
    assert_eq!(get_funding_fee(u(E30), u(100), u(150)), Ok(u(50 * 1_000_000_000_000_000_000_000_000)));
    assert_eq!(get_funding_fee(u(E30), u(150), u(150)), Ok(u(0)));
    assert_eq!(get_funding_fee(u(0), u(150), u(100)), Ok(u(0)));
    assert_eq!(get_funding_fee(u(E30), u(150), u(100)), Err(OmxError::Math(MathError::SubUnderflow)));
}

#[test]
fn swap_fees_go_to_the_fee_reserve() {
    let swap_manager = addr(50);
    let out = collect_swap_fees(swap_manager, swap_manager, u(5), u(10_000), u(30), u(2 * E30), 0).unwrap();
    assert_eq!(out.amount_after_fee, u(9_970));
    assert_eq!(out.fee_amount, u(30));
    assert_eq!(out.fee_reserve, u(35));
    assert_eq!(out.fee_usd, u(60 * E30));
    assert_eq!(get_swap_fee_basis_points(true, true), u(4));
    assert_eq!(get_swap_fee_basis_points(true, false), u(30));
    assert_eq!(
        collect_swap_fees(addr(51), swap_manager, u(5), u(10_000), u(30), u(2 * E30), 0),
        Err(OmxError::Vault(VaultError::Forbidden))
    );
    let managers = vec![addr(60), addr(61)];
    assert_eq!(increase_fee_reserves(addr(61), &managers, u(5), u(6)), Ok(u(11)));
    assert_eq!(increase_fee_reserves(addr(62), &managers, u(5), u(6)), Err(OmxError::Vault(VaultError::Forbidden)));
    let gov = addr(70);
    assert_eq!(withdraw_fees(gov, gov, u(7)), Ok((u(7), u(0))));
    assert_eq!(withdraw_fees(addr(71), gov, u(7)), Err(OmxError::Vault(VaultError::Forbidden)));
    assert_eq!(get_target_usdo_amount(u(1000), u(25), u(100)), Ok(u(250)));
    assert_eq!(get_target_usdo_amount(u(0), u(25), u(0)), Ok(u(0)));
}

#[test]
fn margin_fees_are_converted_to_collateral_tokens() {
    let c = CollateralContext { price: u(2000 * E30), decimals: 18, cumulative_funding_rate: u(0) };
    let managers = vec![addr(60), addr(61)];
    let out = collect_margin_fees(addr(60), &managers, u(1), u(10_000 * E30), u(0), u(0), c).unwrap();
    assert!(matches!(
        collect_margin_fees(addr(1), &managers, u(1), u(10_000 * E30), u(0), u(0), c),
        Err(OmxError::Vault(VaultError::Forbidden))
    ));
    assert_eq!(out.fee_usd, u(10 * E30));
    assert_eq!(out.fee_tokens, u(5_000_000_000_000_000));
    assert_eq!(out.fee_reserve, u(5_000_000_000_000_001));
}

#[test]
fn a_second_funding_update_at_the_same_time_changes_nothing() {
    let inputs = FundingInputs { pool_amount: u(1000), reserved_amount: u(500), is_stable: false };
    let s = FundingState { cumulative_funding_rate: u(5), last_funding_time: u(3600) };
    let first = update_cumulative_funding_rate(true, s, 10_900, inputs).unwrap();
    assert_eq!(first.last_funding_time, u(10_800));
    let other = FundingInputs { pool_amount: u(7), reserved_amount: u(7), is_stable: true };
    assert_eq!(update_cumulative_funding_rate(true, first, 10_900, other), Ok(first));
    // The clock stays on whole hours.
    let fresh = FundingState { cumulative_funding_rate: u(0), last_funding_time: u(0) };
    assert_eq!(update_cumulative_funding_rate(true, fresh, 7_300, inputs).unwrap().last_funding_time, u(7_200));
}

#[test]
fn funding_rate_accrues_per_whole_interval() {
    let inputs = FundingInputs { pool_amount: u(1000), reserved_amount: u(500), is_stable: false };
    assert_eq!(get_next_funding_rate(u(3600), 10_800, inputs), Ok(u(100)));
    assert_eq!(get_next_funding_rate(u(3600), 7_199, inputs), Ok(u(0)));
    let s = FundingState { cumulative_funding_rate: u(5), last_funding_time: u(3600) };
    assert_eq!(
        update_cumulative_funding_rate(true, s, 10_800, inputs),
        Ok(FundingState { cumulative_funding_rate: u(105), last_funding_time: u(10_800) })
    );
    assert_eq!(update_cumulative_funding_rate(true, s, 5_000, inputs), Ok(s));
    let fresh = FundingState { cumulative_funding_rate: u(0), last_funding_time: u(0) };
    assert_eq!(
        update_cumulative_funding_rate(true, fresh, 5_000, inputs),
        Ok(FundingState { cumulative_funding_rate: u(0), last_funding_time: u(3600) })
    );
    assert_eq!(
        update_cumulative_funding_rate(false, s, 10_800, inputs),
        Err(OmxError::Vault(VaultError::NotInitialized))
    );
}

#[test]
fn delta_is_the_price_move_on_the_size() {
    assert_eq!(
        get_delta(u(10_000 * E30), u(2000 * E30), true, u(0), ctx(2200 * E30, 100)),
        Ok((true, u(1000 * E30)))
    );
    assert_eq!(
        get_delta(u(10_000 * E30), u(2000 * E30), false, u(0), ctx(2200 * E30, 100)),
        Ok((false, u(1000 * E30)))
    );
    // A profit within the minimum profit threshold counts as none before the minimum time.
    let early = DeltaContext {
        price: u(2200 * E30),
        now: 500,
        min_profit_time: u(1000),
        min_profit_basis_points: u(1000),
    };
    assert_eq!(get_delta(u(10_000 * E30), u(2000 * E30), true, u(100), early), Ok((true, u(0))));
    assert_eq!(
        get_delta(u(1), u(0), true, u(0), ctx(1, 1)),
        Err(OmxError::Vault(VaultError::AveragePriceZero))
    );
}

#[test]
fn positions_must_be_valid() {
    assert_eq!(validate_position(u(0), u(0)), Ok(()));
    assert_eq!(validate_position(u(0), u(1)), Err(OmxError::Vault(VaultError::CollateralNotZero)));
    assert_eq!(validate_position(u(1), u(2)), Err(OmxError::Vault(VaultError::SizeLessThenCollateral)));
    assert_eq!(validate_position(u(2), u(1)), Ok(()));
}

#[test]
fn tokens_backing_positions_are_checked() {
    let (eth, usdc) = (addr(1), addr(2));
    assert_eq!(validate_tokens(eth, eth, true, volatile(), volatile()), Ok(()));
    assert_eq!(
        validate_tokens(usdc, eth, true, stable(), volatile()),
        Err(OmxError::Vault(VaultError::CollateralNotIndex))
    );
    assert_eq!(validate_tokens(usdc, eth, false, stable(), volatile()), Ok(()));
    assert_eq!(
        validate_tokens(eth, eth, false, volatile(), volatile()),
        Err(OmxError::Vault(VaultError::CollateralNotStable))
    );
}

#[test]
fn realised_pnl_and_guaranteed_usd_move_by_signed_amounts() {
    assert_eq!(pnl_add(i(-5), u(7)), Ok(i(2)));
    assert_eq!(pnl_sub(i(2), u(7)), Ok(i(-5)));
    let managers = vec![addr(40), addr(41)];
    assert_eq!(update_guaranteed_usd(addr(40), &managers, u(10), i(-4)), Ok(u(6)));
    assert_eq!(update_guaranteed_usd(addr(41), &managers, u(10), i(4)), Ok(u(14)));
    assert_eq!(update_guaranteed_usd(addr(42), &managers, u(10), i(4)), Err(OmxError::Vault(VaultError::Forbidden)));
    let mut p = Position::empty();
    assert!(p.same_values(&Position::empty()));
    p.realised_pnl = i(-1);
    assert!(!p.same_values(&Position::empty()));
}

#[test]
fn global_short_size_is_floored_and_capped() {
    let managers = vec![addr(40), addr(41)];
    assert_eq!(decrease_global_short_size(addr(40), &managers, u(10), u(3)), Ok(u(7)));
    assert_eq!(decrease_global_short_size(addr(41), &managers, u(10), u(15)), Ok(u(0)));
    assert_eq!(
        decrease_global_short_size(addr(42), &managers, u(10), u(3)),
        Err(OmxError::Vault(VaultError::Forbidden))
    );
    assert_eq!(increase_global_short_size(u(10), u(5), u(100)), Ok(u(15)));
    assert_eq!(increase_global_short_size(u(10), u(5), u(0)), Ok(u(15)));
    assert_eq!(
        increase_global_short_size(u(10), u(95), u(100)),
        Err(OmxError::Vault(VaultError::MaxShortsExceeded))
    );
}

#[test]
fn global_short_average_price_weighs_in_the_open_profit() {
    // Shorts of 1000 opened at 100 are 100 in profit at 90; adding 1000 at 90
    // gives 90 * 2000 / (2000 - 100).
    assert_eq!(get_next_global_short_average_price(u(1000), u(100), u(90), u(1000)), Ok(u(94)));
    let managers = vec![addr(40)];
    let g = after_short_increase(addr(40), &managers, empty_short(), u(90), u(1000)).unwrap();
    assert_eq!(g, GlobalShort { size: u(1000), average_price: u(90), max_size: u(0) });
    assert_eq!(
        after_short_increase(addr(42), &managers, empty_short(), u(90), u(1000)),
        Err(OmxError::Vault(VaultError::Forbidden))
    );
}

#[test]
fn next_average_price_of_a_long_moves_with_the_delta() {
    // 10_000 long at 2000, now at 2200 (+1000 profit); adding 10_000 at 2200:
    // a long in profit divides by the next size plus the profit,
    // 2200 * 20_000 / (20_000 + 1000).
    let next = get_next_average_price(
        u(10_000 * E30),
        u(2000 * E30),
        true,
        u(2200 * E30),
        u(10_000 * E30),
        u(0),
        ctx(2200 * E30, 100),
    )
    .unwrap();
    assert_eq!(next, u(2095238095238095238095238095238095));
}

#[test]
fn next_average_price_follows_side_and_profit() {
    // A long at a loss divides by the next size less the loss:
    // 10_000 at 2000, now 1800 (-1000); 1800 * 20_000 / 19_000.
    let long_loss = get_next_average_price(
        u(10_000 * E30), u(2000 * E30), true, u(1800 * E30), u(10_000 * E30), u(0), ctx(1800 * E30, 100),
    ).unwrap();
    assert_eq!(long_loss, u(1894736842105263157894736842105263));
    // A short in profit divides by the next size less the profit:
    // 10_000 at 2000, now 1800 (+1000); 1800 * 20_000 / 19_000.
    let short_profit = get_next_average_price(
        u(10_000 * E30), u(2000 * E30), false, u(1800 * E30), u(10_000 * E30), u(0), ctx(1800 * E30, 100),
    ).unwrap();
    assert_eq!(short_profit, u(1894736842105263157894736842105263));
    // A short at a loss divides by the next size plus the loss:
    // 10_000 at 2000, now 2200 (-1000); 2200 * 20_000 / 21_000.
    let short_loss = get_next_average_price(
        u(10_000 * E30), u(2000 * E30), false, u(2200 * E30), u(10_000 * E30), u(0), ctx(2200 * E30, 100),
    ).unwrap();
    assert_eq!(short_loss, u(2095238095238095238095238095238095));
}

#[test]
fn opening_a_long_reserves_the_size_and_collects_the_fee() {
    let book = open_long();
    let p = book.position;
    assert_eq!(p.size, u(10_000 * E30));
    assert_eq!(p.collateral, u(1990 * E30));
    assert_eq!(p.average_price, u(2000 * E30));
    assert_eq!(p.reserve_amount, u(5 * E18));
    assert_eq!(p.last_increased_time, u(4000));
    assert_eq!(book.pool.pool_amount, u(100_995_000_000_000_000_000));
    assert_eq!(book.pool.reserved_amount, u(5 * E18));
    assert_eq!(book.pool.token_balance, u(101 * E18));
    assert_eq!(book.fee_reserve, u(5_000_000_000_000_000));
    assert_eq!(book.guaranteed_usd, u(8010 * E30));
}

#[test]
fn increases_are_refused_on_bad_input() {
    let eth = addr(1);
    let req = IncreaseRequest {
        collateral_token: eth,
        index_token: eth,
        size_delta: u(10_000 * E30),
        is_long: true,
        collateral_flags: volatile(),
        index_flags: volatile(),
        collateral: TokenPrice { price: u(2000 * E30), decimals: 18 },
    };
    assert!(matches!(
        increase_position(false, fresh_book(), true, funding(), req, ctx(2000 * E30, 4000)),
        Err(OmxError::Vault(VaultError::NotInitialized))
    ));
    // 100x is over the maximum leverage.
    let big = IncreaseRequest { size_delta: u(200_000 * E30), ..req };
    assert!(matches!(
        increase_position(true, fresh_book(), true, funding(), big, ctx(2000 * E30, 4000)),
        Err(OmxError::Vault(VaultError::MaxLeverageExceeded))
    ));
}

#[test]
fn closing_a_long_in_profit_pays_out_collateral_and_profit() {
    let book = open_long();
    let c = TokenPrice { price: u(2200 * E30), decimals: 18 };
    let out = decrease_position(true, book, u(0), u(0), u(10_000 * E30), true, c, ctx(2200 * E30, 5000))
        .unwrap();
    assert_eq!(out.usd_out, u(2990 * E30));
    assert_eq!(out.usd_out_after_fee, u(2980 * E30));
    assert_eq!(out.amount_out, u(1_354_545_454_545_454_545));
    assert!(out.book.position.same_values(&Position::empty()));
    assert_eq!(out.book.pool.reserved_amount, u(0));
    assert_eq!(out.book.pool.pool_amount, u(99_635_909_090_909_090_910));
    assert_eq!(out.book.fee_reserve, u(9_545_454_545_454_545));
    assert_eq!(out.book.guaranteed_usd, u(0));
}

#[test]
fn a_partial_long_decrease_moves_guaranteed_usd_by_size_less_collateral() {
    // 10_000 long with 1990 collateral: guaranteed USD 8010. Halving it and
    // withdrawing 500 (fee 5 taken from the payout) leaves 5000 size and
    // 1490 collateral, so guaranteed USD becomes 5000 - 1490 = 3510.
    let book = open_long();
    let c = TokenPrice { price: u(2000 * E30), decimals: 18 };
    let out = decrease_position(true, book, u(0), u(500 * E30), u(5000 * E30), true, c, ctx(2000 * E30, 5000))
        .unwrap();
    assert_eq!(out.book.position.size, u(5000 * E30));
    assert_eq!(out.book.position.collateral, u(1490 * E30));
    assert_eq!(out.usd_out, u(500 * E30));
    assert_eq!(out.usd_out_after_fee, u(495 * E30));
    assert_eq!(out.book.guaranteed_usd, u(3510 * E30));
}

#[test]
fn only_the_decrease_manager_settles_a_decrease() {
    let book = open_long();
    let cctx = CollateralContext { price: u(2000 * E30), decimals: 18, cumulative_funding_rate: u(0) };
    let manager = addr(44);
    let out = reduce_collateral(
        manager, manager, book.position, book.pool, book.fee_reserve, u(500 * E30), u(5000 * E30), true, cctx,
        ctx(2000 * E30, 5000),
    ).unwrap();
    assert_eq!(out.usd_out, u(500 * E30));
    assert_eq!(out.position.collateral, u(1490 * E30));
    assert!(matches!(
        reduce_collateral(
            addr(45), manager, book.position, book.pool, book.fee_reserve, u(500 * E30), u(5000 * E30), true,
            cctx, ctx(2000 * E30, 5000),
        ),
        Err(OmxError::Vault(VaultError::Forbidden))
    ));
}

#[test]
fn decreases_are_refused_on_bad_input() {
    let book = open_long();
    let c = TokenPrice { price: u(2200 * E30), decimals: 18 };
    assert!(matches!(
        decrease_position(true, book, u(0), u(0), u(20_000 * E30), true, c, ctx(2200 * E30, 5000)),
        Err(OmxError::Vault(VaultError::SizeLessThenDelta))
    ));
    assert!(matches!(
        decrease_position(true, fresh_book(), u(0), u(0), u(1), true, c, ctx(2200 * E30, 5000)),
        Err(OmxError::Vault(VaultError::ZeroSize))
    ));
    assert!(matches!(
        decrease_position(true, book, u(0), u(5000 * E30), u(0), true, c, ctx(2200 * E30, 5000)),
        Err(OmxError::Vault(VaultError::CollateralLessThenDelta))
    ));
}

#[test]
fn a_long_under_water_is_seized() {
    let book = open_long();
    let price = 1500 * E30;
    let (state, fees) = validate_liquidation(book.position, true, false, ctx(price, 5000), u(0)).unwrap();
    assert_eq!((state, fees), (u(1), u(10 * E30)));
    assert_eq!(
        validate_liquidation(book.position, true, true, ctx(price, 5000), u(0)),
        Err(OmxError::Vault(VaultError::LossesExceedCollateral))
    );
    let c = TokenPrice { price: u(price), decimals: 18 };
    let out = liquidate_position(true, true, book, true, funding(), false, true, c, ctx(price, 5000)).unwrap();
    assert!(!out.by_decrease);
    assert!(out.book.position.same_values(&Position::empty()));
    assert_eq!(out.margin_fees, u(10 * E30));
    assert_eq!(out.fee_tokens, u(6_666_666_666_666_666));
    assert_eq!(out.liquidation_fee_tokens, u(33_333_333_333_333));
    assert_eq!(out.book.fee_reserve, u(11_666_666_666_666_666));
    assert_eq!(out.book.pool.reserved_amount, u(0));
    assert_eq!(out.book.pool.pool_amount, u(100_988_300_000_000_000_001));
    assert_eq!(out.book.guaranteed_usd, u(0));
}

#[test]
fn a_healthy_long_reports_the_liquidation_state_too() {
    // The check without raising reports state 1 for a healthy position, so
    // a liquidation goes ahead, as the contracts have it.
    let book = open_long();
    let (state, _) = validate_liquidation(book.position, true, false, ctx(2000 * E30, 5000), u(0)).unwrap();
    assert_eq!(state, u(1));
    assert_eq!(validate_liquidation(book.position, true, true, ctx(2000 * E30, 5000), u(0)), Ok((u(1), u(10 * E30))));
}

#[test]
fn position_keys_hash_the_hex_of_the_addresses() {
    let a = Address { hi: 0x0102_0304, mid: 0x0506_0708_090a_0b0c, lo: 0x0d0e_0f10_1112_1314 };
    assert_eq!(
        address_bytes(a),
        vec![1u8, 2, 3, 4, 5, 6, 7, 8, 9, 10, 11, 12, 13, 14, 15, 16, 17, 18, 19, 20]
    );
    let data = position_key_data(a, addr(0xab), addr(0), true);
    assert_eq!(data.len(), 121);
    assert_eq!(&data[0..40], "0102030405060708090a0b0c0d0e0f1011121314".as_bytes());
    assert_eq!(&data[40..80], "00000000000000000000000000000000000000ab".as_bytes());
    assert_eq!(data[120], 1);
    let long = get_position_key(a, addr(0xab), addr(0), true);
    let short = get_position_key(a, addr(0xab), addr(0), false);
    assert_ne!(long, short);
    assert_eq!(long, get_position_key(a, addr(0xab), addr(0), true));
    // Swapping the two tokens changes the hashed data and the key.
    assert_ne!(position_key_data(a, addr(0xab), addr(0), true), position_key_data(a, addr(0), addr(0xab), true));
    assert_ne!(long, get_position_key(a, addr(0), addr(0xab), true));
    assert_ne!(&long[..], &data[0..32]);
}
