//! Wrapped ether: an ERC-20 whose tokens are credited for the ether sent with
//! a deposit and debited when ether is withdrawn. Sending the ether out is
//! done around `withdraw`, which holds the bookkeeping.
//!
//! `deposit`, `deposit_approve` and `withdraw` change balances without
//! touching the total supply; the other entry points
//! keep the total supply equal to the sum of the balances.

use vstd::prelude::*;
use crate::address::Address;
use crate::errors::{MathError, OmxError, WethError};
use crate::ledger::{outcome, with_allowance, with_balance, Ledger, LedgerV};
use crate::uint::{u256_checked_add, u256_checked_sub, u256_max, U256};

verus! {

pub open spec fn we(e: WethError) -> OmxError {
    OmxError::Weth(e)
}

/// A ledger in which no account is marked as non-staking, as the wrapped
/// ether ledger always is.
pub open spec fn unmarked(v: LedgerV) -> bool {
    forall|a: Address| !v.non_staking.contains(a)
}

pub open spec fn transfer_spec(v: LedgerV, from: Address, to: Address, amount: nat) -> Result<
    LedgerV,
    OmxError,
> {
    let debited = with_balance(v, from, (v.balances[from] - amount) as nat);
    if from.is_zero_spec() {
        Err(we(WethError::TransferFromZeroAddress))
    } else if to.is_zero_spec() {
        Err(we(WethError::TransferToZeroAddress))
    } else if v.balances[from] < amount {
        Err(we(WethError::InsufficientBalance))
    } else if debited.balances[to] + amount > u256_max() {
        Err(OmxError::Math(MathError::AddOverflow))
    } else {
        Ok(with_balance(debited, to, debited.balances[to] + amount))
    }
}

pub open spec fn mint_spec(v: LedgerV, account: Address, amount: nat) -> Result<LedgerV, OmxError> {
    if account.is_zero_spec() {
        Err(we(WethError::MintToZeroAddress))
    } else if v.total_supply + amount > u256_max() || v.balances[account] + amount > u256_max() {
        Err(OmxError::Math(MathError::AddOverflow))
    } else {
        Ok(
            LedgerV {
                balances: v.balances.insert(account, v.balances[account] + amount),
                non_staking: v.non_staking,
                allowances: v.allowances,
                total_supply: v.total_supply + amount,
                non_staking_supply: v.non_staking_supply,
            },
        )
    }
}

pub open spec fn burn_spec(v: LedgerV, account: Address, amount: nat) -> Result<LedgerV, OmxError> {
    if account.is_zero_spec() {
        Err(we(WethError::BurnFromZeroAddress))
    } else if v.balances[account] < amount {
        Err(we(WethError::InsufficientBalance))
    } else if v.total_supply < amount {
        Err(OmxError::Math(MathError::SubUnderflow))
    } else {
        Ok(
            LedgerV {
                balances: v.balances.insert(account, (v.balances[account] - amount) as nat),
                non_staking: v.non_staking,
                allowances: v.allowances,
                total_supply: (v.total_supply - amount) as nat,
                non_staking_supply: v.non_staking_supply,
            },
        )
    }
}

pub open spec fn approve_spec(v: LedgerV, owner: Address, spender: Address, amount: nat) -> Result<
    LedgerV,
    OmxError,
> {
    if owner.is_zero_spec() {
        Err(we(WethError::ApproveFromZeroAddress))
    } else if spender.is_zero_spec() {
        Err(we(WethError::ApproveToZeroAddress))
    } else {
        Ok(with_allowance(v, owner, spender, amount))
    }
}

/// `transferFrom`: the transfer is checked first, then the caller's allowance.
pub open spec fn transfer_from_spec(
    v: LedgerV,
    caller: Address,
    from: Address,
    to: Address,
    amount: nat,
) -> Result<LedgerV, OmxError> {
    match transfer_spec(v, from, to, amount) {
        Ok(v1) => if v.allowances[(from, caller)] < amount {
            Err(we(WethError::InsufficientAllowance))
        } else {
            Ok(with_allowance(v1, from, caller, (v.allowances[(from, caller)] - amount) as nat))
        },
        Err(e) => Err(e),
    }
}

/// `deposit`: the ether sent is credited to `to`.
pub open spec fn deposit_spec(v: LedgerV, to: Address, value: nat) -> Result<LedgerV, OmxError> {
    if v.balances[to] + value > u256_max() {
        Err(OmxError::Math(MathError::AddOverflow))
    } else {
        Ok(with_balance(v, to, v.balances[to] + value))
    }
}

/// `depositApprove`: the sender's balance is set to `to`'s balance plus the
/// ether sent, and `to` may spend that much of it.
pub open spec fn deposit_approve_spec(v: LedgerV, sender: Address, to: Address, value: nat) -> Result<
    LedgerV,
    OmxError,
> {
    if v.balances[to] + value > u256_max() {
        Err(OmxError::Math(MathError::AddOverflow))
    } else {
        approve_spec(with_balance(v, sender, v.balances[to] + value), sender, to, value)
    }
}

/// `withdraw`: the sender's balance is debited; the ether goes to the receiver.
pub open spec fn withdraw_spec(v: LedgerV, sender: Address, amount: nat) -> Result<LedgerV, OmxError> {
    if v.balances[sender] < amount {
        Err(we(WethError::InsufficientBalance))
    } else {
        Ok(with_balance(v, sender, (v.balances[sender] - amount) as nat))
    }
}

pub open spec fn increase_allowance_spec(v: LedgerV, owner: Address, spender: Address, added: nat) -> Result<
    LedgerV,
    OmxError,
> {
    if v.allowances[(owner, spender)] + added > u256_max() {
        Err(OmxError::Math(MathError::AddOverflow))
    } else {
        Ok(with_allowance(v, owner, spender, v.allowances[(owner, spender)] + added))
    }
}

pub open spec fn decrease_allowance_spec(
    v: LedgerV,
    owner: Address,
    spender: Address,
    subtracted: nat,
) -> Result<LedgerV, OmxError> {
    if v.allowances[(owner, spender)] < subtracted {
        Err(we(WethError::AllowanceBelowZero))
    } else {
        Ok(with_allowance(v, owner, spender, (v.allowances[(owner, spender)] - subtracted) as nat))
    }
}

/// The balances a transfer leaves behind, or its error.
fn plan_transfer(l: &Ledger, from: Address, to: Address, amount: U256) -> (r: Result<
    (U256, U256),
    OmxError,
>)
    ensures
        match r {
            Ok((new_from, new_to)) => transfer_spec(l@, from, to, amount@) == Ok::<
                LedgerV,
                OmxError,
            >(with_balance(with_balance(l@, from, new_from@), to, new_to@)),
            Err(e) => transfer_spec(l@, from, to, amount@) == Err::<LedgerV, OmxError>(e),
        },
{
    if from.is_zero() {
        return Err(OmxError::Weth(WethError::TransferFromZeroAddress));
    }
    if to.is_zero() {
        return Err(OmxError::Weth(WethError::TransferToZeroAddress));
    }
    let new_from = match u256_checked_sub(l.balance_of(from), amount) {
        Some(b) => b,
        None => return Err(OmxError::Weth(WethError::InsufficientBalance)),
    };
    let to_balance = if to == from {
        new_from
    } else {
        l.balance_of(to)
    };
    let new_to = match u256_checked_add(to_balance, amount) {
        Some(b) => b,
        None => return Err(OmxError::Math(MathError::AddOverflow)),
    };
    Ok((new_from, new_to))
}

/// Writes the balances of a planned transfer.
fn apply_transfer(l: &mut Ledger, from: Address, to: Address, amount: U256, new_from: U256, new_to: U256)
    requires
        transfer_spec(old(l)@, from, to, amount@) == Ok::<LedgerV, OmxError>(
            with_balance(with_balance(old(l)@, from, new_from@), to, new_to@),
        ),
    ensures
        final(l)@ == with_balance(with_balance(old(l)@, from, new_from@), to, new_to@),
        old(l).wf() && unmarked(old(l)@) ==> final(l).wf() && unmarked(final(l)@),
{
    proof {
        let v = old(l)@;
        let w = with_balance(with_balance(v, from, new_from@), to, new_to@);
        let spec = transfer_spec(v, from, to, amount@);
        assert(spec.unwrap().balances[to] == w.balances[to]);
        assert(spec.unwrap().balances[from] == w.balances[from]);
    }
    l.set_balance(from, new_from);
    l.set_balance(to, new_to);
}

/// Moves `amount` from `from` to `to`.
pub fn transfer_internal(l: &mut Ledger, from: Address, to: Address, amount: U256) -> (r: Result<
    (),
    OmxError,
>)
    ensures
        outcome(*old(l), *final(l), r, transfer_spec(old(l)@, from, to, amount@)),
        old(l).wf() && unmarked(old(l)@) ==> final(l).wf() && unmarked(final(l)@),
{
    let (new_from, new_to) = plan_transfer(l, from, to, amount)?;
    apply_transfer(l, from, to, amount, new_from, new_to);
    Ok(())
}

/// Mints `amount` to `account`, growing the total supply.
pub fn mint_internal(l: &mut Ledger, account: Address, amount: U256) -> (r: Result<(), OmxError>)
    ensures
        outcome(*old(l), *final(l), r, mint_spec(old(l)@, account, amount@)),
        old(l).wf() && unmarked(old(l)@) ==> final(l).wf() && unmarked(final(l)@),
{
    if account.is_zero() {
        return Err(OmxError::Weth(WethError::MintToZeroAddress));
    }
    let total = match u256_checked_add(l.total_supply, amount) {
        Some(t) => t,
        None => return Err(OmxError::Math(MathError::AddOverflow)),
    };
    let balance = match u256_checked_add(l.balance_of(account), amount) {
        Some(b) => b,
        None => return Err(OmxError::Math(MathError::AddOverflow)),
    };
    let ghost before = l@;
    l.total_supply = total;
    l.set_balance(account, balance);
    assert(l@ == mint_spec(before, account, amount@).unwrap());
    Ok(())
}

/// Burns `amount` from `account`, shrinking the total supply.
pub fn burn_internal(l: &mut Ledger, account: Address, amount: U256) -> (r: Result<(), OmxError>)
    ensures
        outcome(*old(l), *final(l), r, burn_spec(old(l)@, account, amount@)),
        old(l).wf() && unmarked(old(l)@) ==> final(l).wf() && unmarked(final(l)@),
{
    if account.is_zero() {
        return Err(OmxError::Weth(WethError::BurnFromZeroAddress));
    }
    let balance = match u256_checked_sub(l.balance_of(account), amount) {
        Some(b) => b,
        None => return Err(OmxError::Weth(WethError::InsufficientBalance)),
    };
    let total = match u256_checked_sub(l.total_supply, amount) {
        Some(t) => t,
        None => return Err(OmxError::Math(MathError::SubUnderflow)),
    };
    let ghost before = l@;
    l.total_supply = total;
    l.set_balance(account, balance);
    assert(l@ == burn_spec(before, account, amount@).unwrap());
    Ok(())
}

/// Lets `spender` move up to `amount` of `owner`'s tokens.
pub fn approve_internal(l: &mut Ledger, owner: Address, spender: Address, amount: U256) -> (r:
    Result<(), OmxError>)
    ensures
        outcome(*old(l), *final(l), r, approve_spec(old(l)@, owner, spender, amount@)),
        old(l).wf() && unmarked(old(l)@) ==> final(l).wf() && unmarked(final(l)@),
{
    if owner.is_zero() {
        return Err(OmxError::Weth(WethError::ApproveFromZeroAddress));
    }
    if spender.is_zero() {
        return Err(OmxError::Weth(WethError::ApproveToZeroAddress));
    }
    l.set_allowance(owner, spender, amount);
    Ok(())
}

/// `transferFrom` by `caller`, spending its allowance.
pub fn transfer_from(l: &mut Ledger, caller: Address, from: Address, to: Address, amount: U256) -> (r:
    Result<(), OmxError>)
    ensures
        outcome(*old(l), *final(l), r, transfer_from_spec(old(l)@, caller, from, to, amount@)),
        old(l).wf() && unmarked(old(l)@) ==> final(l).wf() && unmarked(final(l)@),
{
    let (new_from, new_to) = plan_transfer(l, from, to, amount)?;
    let allowance = match u256_checked_sub(l.allowance_of(from, caller), amount) {
        Some(a) => a,
        None => return Err(OmxError::Weth(WethError::InsufficientAllowance)),
    };
    let ghost before = l@;
    apply_transfer(l, from, to, amount, new_from, new_to);
    l.set_allowance(from, caller, allowance);
    assert(l@ == transfer_from_spec(before, caller, from, to, amount@).unwrap());
    Ok(())
}

/// Credits the ether sent, `value`, to `to`.
pub fn deposit(l: &mut Ledger, to: Address, value: U256) -> (r: Result<(), OmxError>)
    ensures
        outcome(*old(l), *final(l), r, deposit_spec(old(l)@, to, value@)),
{
    let balance = match u256_checked_add(l.balance_of(to), value) {
        Some(b) => b,
        None => return Err(OmxError::Math(MathError::AddOverflow)),
    };
    l.set_balance(to, balance);
    Ok(())
}

/// Sets the sender's balance to `to`'s balance plus the ether sent and lets
/// `to` spend that much of it.
pub fn deposit_approve(l: &mut Ledger, sender: Address, to: Address, value: U256) -> (r: Result<
    (),
    OmxError,
>)
    ensures
        outcome(*old(l), *final(l), r, deposit_approve_spec(old(l)@, sender, to, value@)),
{
    let balance = match u256_checked_add(l.balance_of(to), value) {
        Some(b) => b,
        None => return Err(OmxError::Math(MathError::AddOverflow)),
    };
    if sender.is_zero() {
        return Err(OmxError::Weth(WethError::ApproveFromZeroAddress));
    }
    if to.is_zero() {
        return Err(OmxError::Weth(WethError::ApproveToZeroAddress));
    }
    l.set_balance(sender, balance);
    l.set_allowance(sender, to, value);
    Ok(())
}

/// Debits `amount` from the sender, who is paid out in ether.
pub fn withdraw(l: &mut Ledger, sender: Address, amount: U256) -> (r: Result<(), OmxError>)
    ensures
        outcome(*old(l), *final(l), r, withdraw_spec(old(l)@, sender, amount@)),
{
    let balance = match u256_checked_sub(l.balance_of(sender), amount) {
        Some(b) => b,
        None => return Err(OmxError::Weth(WethError::InsufficientBalance)),
    };
    l.set_balance(sender, balance);
    Ok(())
}

/// Raises what `spender` may move out of `owner`'s balance.
pub fn increase_allowance(l: &mut Ledger, owner: Address, spender: Address, added: U256) -> (r:
    Result<(), OmxError>)
    ensures
        outcome(*old(l), *final(l), r, increase_allowance_spec(old(l)@, owner, spender, added@)),
        old(l).wf() && unmarked(old(l)@) ==> final(l).wf() && unmarked(final(l)@),
{
    let amount = match u256_checked_add(l.allowance_of(owner, spender), added) {
        Some(a) => a,
        None => return Err(OmxError::Math(MathError::AddOverflow)),
    };
    l.set_allowance(owner, spender, amount);
    Ok(())
}

/// Lowers what `spender` may move out of `owner`'s balance.
pub fn decrease_allowance(l: &mut Ledger, owner: Address, spender: Address, subtracted: U256) -> (r:
    Result<(), OmxError>)
    ensures
        outcome(
            *old(l),
            *final(l),
            r,
            decrease_allowance_spec(old(l)@, owner, spender, subtracted@),
        ),
        old(l).wf() && unmarked(old(l)@) ==> final(l).wf() && unmarked(final(l)@),
{
    let amount = match u256_checked_sub(l.allowance_of(owner, spender), subtracted) {
        Some(a) => a,
        None => return Err(OmxError::Weth(WethError::AllowanceBelowZero)),
    };
    l.set_allowance(owner, spender, amount);
    Ok(())
}

/// Wrapping ether and unwrapping it again gives back the balances as they were.
pub proof fn lemma_deposit_then_withdraw(v: LedgerV, account: Address, value: nat)
    requires
        v.is_total(),
        deposit_spec(v, account, value) is Ok,
    ensures
        withdraw_spec(deposit_spec(v, account, value).unwrap(), account, value) == Ok::<
            LedgerV,
            OmxError,
        >(v),
{
    let w = withdraw_spec(deposit_spec(v, account, value).unwrap(), account, value).unwrap();
    assert(v.balances.dom().contains(account));
    assert(w.balances =~= v.balances);
}

} // verus!
