use omx::address::Address;
use omx::base_token;
use omx::errors::{BaseTokenError, MathError, OmxError, RewardTrackerError, WethError};
use omx::ledger::Ledger;
use omx::tracker_token;
use omx::uint::U256;
use omx::weth;

fn u(x: u128) -> U256 {
    U256 { limbs: [x as u64, (x >> 64) as u64, 0, 0] }
}

fn max() -> U256 {
    U256 { limbs: [u64::MAX; 4] }
}

fn addr(n: u64) -> Address {
    Address { hi: 0, mid: 0, lo: n }
}

fn zero() -> Address {
    Address::zero()
}

#[test]
fn base_token_mint_and_burn_move_balance_and_supply() {
    let mut l = Ledger::new();
    let a = addr(1);
    assert_eq!(base_token::mint(&mut l, a, u(100)), Ok(()));
    assert_eq!(l.balance_of(a), u(100));
    assert_eq!(l.total_supply, u(100));
    assert_eq!(base_token::burn(&mut l, a, u(40)), Ok(()));
    assert_eq!(l.balance_of(a), u(60));
    assert_eq!(l.total_supply, u(60));
    assert_eq!(
        base_token::burn(&mut l, a, u(61)),
        Err(OmxError::BaseToken(BaseTokenError::BalanceUnderflow))
    );
    assert_eq!(l.balance_of(a), u(60));
}

#[test]
fn base_token_refuses_the_zero_address() {
    let mut l = Ledger::new();
    assert_eq!(
        base_token::mint(&mut l, zero(), u(1)),
        Err(OmxError::BaseToken(BaseTokenError::MintToZeroAddress))
    );
    assert_eq!(
        base_token::burn(&mut l, zero(), u(1)),
        Err(OmxError::BaseToken(BaseTokenError::BurnFromZeroAddress))
    );
    assert_eq!(
        base_token::transfer_internal(&mut l, false, false, zero(), addr(1), u(1)),
        Err(OmxError::BaseToken(BaseTokenError::TransferFromZeroAddress))
    );
    assert_eq!(
        base_token::transfer_internal(&mut l, false, false, addr(1), zero(), u(1)),
        Err(OmxError::BaseToken(BaseTokenError::TransferToZeroAddress))
    );
    assert_eq!(
        base_token::approve_internal(&mut l, zero(), addr(1), u(1)),
        Err(OmxError::BaseToken(BaseTokenError::ApproveFromZeroAddress))
    );
    assert_eq!(
        base_token::approve_internal(&mut l, addr(1), zero(), u(1)),
        Err(OmxError::BaseToken(BaseTokenError::ApproveToZeroAddress))
    );
}

#[test]
fn base_token_mint_then_burn_restores_the_ledger() {
    let mut l = Ledger::new();
    let a = addr(7);
    base_token::mint(&mut l, a, u(500)).unwrap();
    base_token::mint(&mut l, a, u(25)).unwrap();
    base_token::burn(&mut l, a, u(25)).unwrap();
    assert_eq!(l.balance_of(a), u(500));
    assert_eq!(l.total_supply, u(500));
}

#[test]
fn base_token_total_supply_wraps_on_mint() {
    let mut l = Ledger::new();
    base_token::mint(&mut l, addr(1), max()).unwrap();
    assert_eq!(base_token::mint(&mut l, addr(2), u(1)), Ok(()));
    assert_eq!(l.balance_of(addr(2)), u(1));
    assert_eq!(l.total_supply, u(0));
    assert_eq!(
        base_token::mint(&mut l, addr(1), u(1)),
        Err(OmxError::BaseToken(BaseTokenError::BalanceOverflow))
    );
}

#[test]
fn base_token_transfer_moves_tokens_and_keeps_supply() {
    let mut l = Ledger::new();
    let (a, b) = (addr(1), addr(2));
    base_token::mint(&mut l, a, u(60)).unwrap();
    assert_eq!(base_token::transfer_internal(&mut l, false, false, a, b, u(10)), Ok(()));
    assert_eq!(l.balance_of(a), u(50));
    assert_eq!(l.balance_of(b), u(10));
    assert_eq!(l.total_supply, u(60));
    assert_eq!(
        base_token::transfer_internal(&mut l, false, false, b, a, u(11)),
        Err(OmxError::BaseToken(BaseTokenError::BalanceUnderflow))
    );
    // A transfer to oneself leaves the balance as it was.
    assert_eq!(base_token::transfer_internal(&mut l, false, false, a, a, u(50)), Ok(()));
    assert_eq!(l.balance_of(a), u(50));
}

#[test]
fn base_token_private_transfer_mode_needs_a_handler() {
    let mut l = Ledger::new();
    let (a, b) = (addr(1), addr(2));
    base_token::mint(&mut l, a, u(5)).unwrap();
    assert_eq!(
        base_token::transfer_internal(&mut l, true, false, a, b, u(1)),
        Err(OmxError::BaseToken(BaseTokenError::SenderNotWhitelisted))
    );
    assert_eq!(base_token::transfer_internal(&mut l, true, true, a, b, u(1)), Ok(()));
    assert_eq!(l.balance_of(b), u(1));
}

#[test]
fn base_token_transfer_from_spends_the_allowance() {
    let mut l = Ledger::new();
    let (a, b, s) = (addr(1), addr(2), addr(3));
    base_token::mint(&mut l, a, u(100)).unwrap();
    assert_eq!(base_token::approve_internal(&mut l, a, s, u(30)), Ok(()));
    assert_eq!(l.allowance_of(a, s), u(30));
    assert_eq!(base_token::transfer_from(&mut l, false, s, false, a, b, u(20)), Ok(()));
    assert_eq!(l.allowance_of(a, s), u(10));
    assert_eq!(l.balance_of(b), u(20));
    assert_eq!(
        base_token::transfer_from(&mut l, false, s, false, a, b, u(11)),
        Err(OmxError::BaseToken(BaseTokenError::TransferAmountExceedsAllowance {
            amount: u(11),
            allowance: u(10),
            owner: a,
            spender: s,
        }))
    );
    // A handler needs no allowance.
    assert_eq!(base_token::transfer_from(&mut l, false, s, true, a, b, u(50)), Ok(()));
    assert_eq!(l.balance_of(b), u(70));
    assert_eq!(l.allowance_of(a, s), u(10));
}

#[test]
fn base_token_non_staking_accounts_leave_the_staked_supply() {
    let mut l = Ledger::new();
    let (a, b) = (addr(1), addr(2));
    base_token::mint(&mut l, a, u(70)).unwrap();
    base_token::mint(&mut l, b, u(30)).unwrap();
    assert_eq!(base_token::add_non_staking_account(&mut l, a), Ok(()));
    assert_eq!(l.non_staking_supply, u(70));
    assert_eq!(base_token::total_staked(&l), Ok(u(30)));
    assert_eq!(base_token::staked_balance(&l, a), u(0));
    assert_eq!(base_token::staked_balance(&l, b), u(30));
    assert_eq!(
        base_token::add_non_staking_account(&mut l, a),
        Err(OmxError::BaseToken(BaseTokenError::AccountAlreadyMarked { account: a }))
    );
    // Tokens leaving a marked account leave the non-staking supply too.
    base_token::transfer_internal(&mut l, false, false, a, b, u(20)).unwrap();
    assert_eq!(l.non_staking_supply, u(50));
    base_token::mint(&mut l, a, u(5)).unwrap();
    assert_eq!(l.non_staking_supply, u(55));
    assert_eq!(base_token::remove_non_staking_account(&mut l, a), Ok(()));
    assert_eq!(l.non_staking_supply, u(0));
    assert_eq!(base_token::total_staked(&l), Ok(u(105)));
    assert_eq!(
        base_token::remove_non_staking_account(&mut l, a),
        Err(OmxError::BaseToken(BaseTokenError::AccountNotMarked { account: a }))
    );
}

#[test]
fn weth_deposit_and_withdraw_leave_the_total_supply() {
    let mut l = Ledger::new();
    let a = addr(1);
    assert_eq!(weth::deposit(&mut l, a, u(5)), Ok(()));
    assert_eq!(l.balance_of(a), u(5));
    assert_eq!(l.total_supply, u(0));
    assert_eq!(weth::withdraw(&mut l, a, u(3)), Ok(()));
    assert_eq!(l.balance_of(a), u(2));
    assert_eq!(
        weth::withdraw(&mut l, a, u(3)),
        Err(OmxError::Weth(WethError::InsufficientBalance))
    );
}

#[test]
fn weth_deposit_approve_credits_the_sender_from_the_target_balance() {
    let mut l = Ledger::new();
    let (s, t) = (addr(1), addr(2));
    weth::deposit(&mut l, t, u(4)).unwrap();
    assert_eq!(weth::deposit_approve(&mut l, s, t, u(7)), Ok(()));
    assert_eq!(l.balance_of(s), u(11));
    assert_eq!(l.balance_of(t), u(4));
    assert_eq!(l.allowance_of(s, t), u(7));
    assert_eq!(
        weth::deposit_approve(&mut l, s, zero(), u(1)),
        Err(OmxError::Weth(WethError::ApproveToZeroAddress))
    );
}

#[test]
fn weth_mint_burn_and_transfer() {
    let mut l = Ledger::new();
    let (a, b) = (addr(1), addr(2));
    assert_eq!(weth::mint_internal(&mut l, a, u(10)), Ok(()));
    assert_eq!(l.total_supply, u(10));
    assert_eq!(weth::transfer_internal(&mut l, a, b, u(4)), Ok(()));
    assert_eq!(l.balance_of(a), u(6));
    assert_eq!(l.balance_of(b), u(4));
    assert_eq!(
        weth::transfer_internal(&mut l, a, b, u(7)),
        Err(OmxError::Weth(WethError::InsufficientBalance))
    );
    assert_eq!(weth::burn_internal(&mut l, b, u(4)), Ok(()));
    assert_eq!(l.total_supply, u(6));
    assert_eq!(
        weth::mint_internal(&mut l, zero(), u(1)),
        Err(OmxError::Weth(WethError::MintToZeroAddress))
    );
    assert_eq!(
        weth::mint_internal(&mut l, a, max()),
        Err(OmxError::Math(MathError::AddOverflow))
    );
    assert_eq!(
        weth::burn_internal(&mut l, zero(), u(1)),
        Err(OmxError::Weth(WethError::BurnFromZeroAddress))
    );
}

#[test]
fn weth_transfer_from_checks_the_transfer_before_the_allowance() {
    let mut l = Ledger::new();
    let (a, b, s) = (addr(1), addr(2), addr(3));
    weth::mint_internal(&mut l, a, u(10)).unwrap();
    assert_eq!(
        weth::transfer_from(&mut l, s, a, b, u(20)),
        Err(OmxError::Weth(WethError::InsufficientBalance))
    );
    assert_eq!(
        weth::transfer_from(&mut l, s, a, b, u(5)),
        Err(OmxError::Weth(WethError::InsufficientAllowance))
    );
    weth::approve_internal(&mut l, a, s, u(6)).unwrap();
    assert_eq!(weth::transfer_from(&mut l, s, a, b, u(5)), Ok(()));
    assert_eq!(l.allowance_of(a, s), u(1));
    assert_eq!(l.balance_of(b), u(5));
}

#[test]
fn weth_allowance_can_grow_and_shrink() {
    let mut l = Ledger::new();
    let (a, s) = (addr(1), addr(3));
    assert_eq!(weth::increase_allowance(&mut l, a, s, u(9)), Ok(()));
    assert_eq!(weth::decrease_allowance(&mut l, a, s, u(4)), Ok(()));
    assert_eq!(l.allowance_of(a, s), u(5));
    assert_eq!(
        weth::decrease_allowance(&mut l, a, s, u(6)),
        Err(OmxError::Weth(WethError::AllowanceBelowZero))
    );
    assert_eq!(
        weth::increase_allowance(&mut l, a, s, max()),
        Err(OmxError::Math(MathError::AddOverflow))
    );
}

#[test]
fn tracker_token_only_the_staking_contract_mints_and_burns() {
    let mut l = Ledger::new();
    let a = addr(1);
    assert_eq!(
        tracker_token::mint_internal(&mut l, false, a, u(5)),
        Err(OmxError::RewardTracker(RewardTrackerError::Forbidden))
    );
    assert_eq!(tracker_token::mint_internal(&mut l, true, a, u(5)), Ok(()));
    assert_eq!(l.total_supply, u(5));
    assert_eq!(
        tracker_token::burn_internal(&mut l, true, a, u(6)),
        Err(OmxError::Math(MathError::SubUnderflow))
    );
    assert_eq!(tracker_token::burn_internal(&mut l, true, a, u(5)), Ok(()));
    assert_eq!(l.total_supply, u(0));
}

#[test]
fn tracker_token_transfers_follow_the_private_mode() {
    let mut l = Ledger::new();
    let (a, b, s) = (addr(1), addr(2), addr(3));
    tracker_token::mint_internal(&mut l, true, a, u(10)).unwrap();
    assert_eq!(
        tracker_token::transfer_internal(&mut l, true, false, a, b, u(1)),
        Err(OmxError::RewardTracker(RewardTrackerError::Forbidden))
    );
    assert_eq!(tracker_token::transfer_internal(&mut l, false, false, a, b, u(1)), Ok(()));
    assert_eq!(
        tracker_token::transfer_from(&mut l, false, s, false, a, b, u(2)),
        Err(OmxError::RewardTracker(RewardTrackerError::TransferAmountExceedsAllowance {
            allowance: u(0),
            amount: u(2),
        }))
    );
    tracker_token::approve_internal(&mut l, a, s, u(2)).unwrap();
    assert_eq!(tracker_token::transfer_from(&mut l, false, s, false, a, b, u(2)), Ok(()));
    assert_eq!(l.balance_of(b), u(3));
    assert_eq!(l.allowance_of(a, s), u(0));
}
