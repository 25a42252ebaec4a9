//! The token side of a reward tracker: staked balances are held as an
//! ERC-20 that only the staking contract mints and burns, and that moves
//! freely only outside private transfer mode.

use vstd::prelude::*;
use crate::address::Address;
use crate::errors::{MathError, OmxError, RewardTrackerError};
use crate::ledger::{outcome, with_allowance, with_balance, Ledger, LedgerV};
use crate::uint::{u256_checked_add, u256_checked_sub, u256_max, U256};
use crate::weth::unmarked;

verus! {

pub open spec fn rte(e: RewardTrackerError) -> OmxError {
    OmxError::RewardTracker(e)
}

pub open spec fn transfer_spec(
    v: LedgerV,
    in_private_transfer_mode: bool,
    caller_is_handler: bool,
    from: Address,
    to: Address,
    amount: nat,
) -> Result<LedgerV, OmxError> {
    let debited = with_balance(v, from, (v.balances[from] - amount) as nat);
    if from.is_zero_spec() {
        Err(rte(RewardTrackerError::TransferFromZeroAddress))
    } else if to.is_zero_spec() {
        Err(rte(RewardTrackerError::TransferToZeroAddress))
    } else if in_private_transfer_mode && !caller_is_handler {
        Err(rte(RewardTrackerError::Forbidden))
    } else if v.balances[from] < amount {
        Err(OmxError::Math(MathError::SubUnderflow))
    } else if debited.balances[to] + amount > u256_max() {
        Err(OmxError::Math(MathError::AddOverflow))
    } else {
        Ok(with_balance(debited, to, debited.balances[to] + amount))
    }
}

pub open spec fn approve_spec(v: LedgerV, owner: Address, spender: Address, amount: nat) -> Result<
    LedgerV,
    OmxError,
> {
    if owner.is_zero_spec() {
        Err(rte(RewardTrackerError::ApproveFromZeroAddress))
    } else if spender.is_zero_spec() {
        Err(rte(RewardTrackerError::ApproveToZeroAddress))
    } else {
        Ok(with_allowance(v, owner, spender, amount))
    }
}

/// `transferFrom` once the allowance, if one is needed, covers `amount`.
pub open spec fn transfer_from_spec(
    v: LedgerV,
    in_private_transfer_mode: bool,
    caller: Address,
    caller_is_handler: bool,
    from: Address,
    to: Address,
    amount: nat,
) -> Result<LedgerV, OmxError> {
    if caller_is_handler {
        transfer_spec(v, in_private_transfer_mode, true, from, to, amount)
    } else {
        match approve_spec(v, from, caller, (v.allowances[(from, caller)] - amount) as nat) {
            Ok(v1) => transfer_spec(v1, in_private_transfer_mode, false, from, to, amount),
            Err(e) => Err(e),
        }
    }
}

/// Minting, allowed to the staking contract only.
pub open spec fn mint_spec(v: LedgerV, caller_is_staking: bool, account: Address, amount: nat) -> Result<
    LedgerV,
    OmxError,
> {
    if !caller_is_staking {
        Err(rte(RewardTrackerError::Forbidden))
    } else if account.is_zero_spec() {
        Err(rte(RewardTrackerError::MintToZeroAddress))
    } else if v.total_supply + amount > u256_max() || v.balances[account] + amount > u256_max() {
        Err(OmxError::Math(MathError::AddOverflow))
    } else {
        Ok(
            LedgerV {
                balances: v.balances.insert(account, v.balances[account] + amount),
                non_staking: v.non_staking,
                allowances: v.allowances,
                total_supply: v.total_supply + amount,
                non_staking_supply: v.non_staking_supply,
            },
        )
    }
}

/// Burning, allowed to the staking contract only.
pub open spec fn burn_spec(v: LedgerV, caller_is_staking: bool, account: Address, amount: nat) -> Result<
    LedgerV,
    OmxError,
> {
    if !caller_is_staking {
        Err(rte(RewardTrackerError::Forbidden))
    } else if account.is_zero_spec() {
        Err(rte(RewardTrackerError::BurnFromZeroAddress))
    } else if v.balances[account] < amount || v.total_supply < amount {
        Err(OmxError::Math(MathError::SubUnderflow))
    } else {
        Ok(
            LedgerV {
                balances: v.balances.insert(account, (v.balances[account] - amount) as nat),
                non_staking: v.non_staking,
                allowances: v.allowances,
                total_supply: (v.total_supply - amount) as nat,
                non_staking_supply: v.non_staking_supply,
            },
        )
    }
}

fn plan_transfer(
    l: &Ledger,
    in_private_transfer_mode: bool,
    caller_is_handler: bool,
    from: Address,
    to: Address,
    amount: U256,
) -> (r: Result<(U256, U256), OmxError>)
    ensures
        match r {
            Ok((new_from, new_to)) => transfer_spec(
                l@,
                in_private_transfer_mode,
                caller_is_handler,
                from,
                to,
                amount@,
            ) == Ok::<LedgerV, OmxError>(
                with_balance(with_balance(l@, from, new_from@), to, new_to@),
            ),
            Err(e) => transfer_spec(
                l@,
                in_private_transfer_mode,
                caller_is_handler,
                from,
                to,
                amount@,
            ) == Err::<LedgerV, OmxError>(e),
        },
{
    if from.is_zero() {
        return Err(OmxError::RewardTracker(RewardTrackerError::TransferFromZeroAddress));
    }
    if to.is_zero() {
        return Err(OmxError::RewardTracker(RewardTrackerError::TransferToZeroAddress));
    }
    if in_private_transfer_mode && !caller_is_handler {
        return Err(OmxError::RewardTracker(RewardTrackerError::Forbidden));
    }
    let new_from = match u256_checked_sub(l.balance_of(from), amount) {
        Some(b) => b,
        None => return Err(OmxError::Math(MathError::SubUnderflow)),
    };
    let to_balance = if to == from {
        new_from
    } else {
        l.balance_of(to)
    };
    let new_to = match u256_checked_add(to_balance, amount) {
        Some(b) => b,
        None => return Err(OmxError::Math(MathError::AddOverflow)),
    };
    Ok((new_from, new_to))
}

fn apply_transfer(
    l: &mut Ledger,
    from: Address,
    to: Address,
    amount: U256,
    new_from: U256,
    new_to: U256,
    Ghost(in_private_transfer_mode): Ghost<bool>,
    Ghost(caller_is_handler): Ghost<bool>,
)
    requires
        transfer_spec(old(l)@, in_private_transfer_mode, caller_is_handler, from, to, amount@)
            == Ok::<LedgerV, OmxError>(
            with_balance(with_balance(old(l)@, from, new_from@), to, new_to@),
        ),
    ensures
        final(l)@ == with_balance(with_balance(old(l)@, from, new_from@), to, new_to@),
        old(l).wf() && unmarked(old(l)@) ==> final(l).wf() && unmarked(final(l)@),
{
    proof {
        let v = old(l)@;
        let w = with_balance(with_balance(v, from, new_from@), to, new_to@);
        let spec = transfer_spec(v, in_private_transfer_mode, caller_is_handler, from, to, amount@);
        assert(spec.unwrap().balances[to] == w.balances[to]);
        assert(spec.unwrap().balances[from] == w.balances[from]);
    }
    l.set_balance(from, new_from);
    l.set_balance(to, new_to);
}

/// Moves `amount` of staked tokens from `from` to `to`.
pub fn transfer_internal(
    l: &mut Ledger,
    in_private_transfer_mode: bool,
    caller_is_handler: bool,
    from: Address,
    to: Address,
    amount: U256,
) -> (r: Result<(), OmxError>)
    ensures
        outcome(
            *old(l),
            *final(l),
            r,
            transfer_spec(old(l)@, in_private_transfer_mode, caller_is_handler, from, to, amount@),
        ),
        old(l).wf() && unmarked(old(l)@) ==> final(l).wf() && unmarked(final(l)@),
{
    let (new_from, new_to) = plan_transfer(
        l,
        in_private_transfer_mode,
        caller_is_handler,
        from,
        to,
        amount,
    )?;
    apply_transfer(
        l,
        from,
        to,
        amount,
        new_from,
        new_to,
        Ghost(in_private_transfer_mode),
        Ghost(caller_is_handler),
    );
    Ok(())
}

/// Lets `spender` move up to `amount` of `owner`'s staked tokens.
pub fn approve_internal(l: &mut Ledger, owner: Address, spender: Address, amount: U256) -> (r:
    Result<(), OmxError>)
    ensures
        outcome(*old(l), *final(l), r, approve_spec(old(l)@, owner, spender, amount@)),
        old(l).wf() && unmarked(old(l)@) ==> final(l).wf() && unmarked(final(l)@),
{
    if owner.is_zero() {
        return Err(OmxError::RewardTracker(RewardTrackerError::ApproveFromZeroAddress));
    }
    if spender.is_zero() {
        return Err(OmxError::RewardTracker(RewardTrackerError::ApproveToZeroAddress));
    }
    l.set_allowance(owner, spender, amount);
    Ok(())
}

/// `transferFrom` by `caller`: a handler moves tokens freely; anyone else
/// needs an allowance that covers `amount`, else the call fails with
/// `TransferAmountExceedsAllowance`, and spends it.
pub fn transfer_from(
    l: &mut Ledger,
    in_private_transfer_mode: bool,
    caller: Address,
    caller_is_handler: bool,
    from: Address,
    to: Address,
    amount: U256,
) -> (r: Result<(), OmxError>)
    ensures
        !caller_is_handler && old(l)@.allowances[(from, caller)] < amount@ ==> {
            &&& *final(l) == *old(l)
            &&& r matches Err(
                OmxError::RewardTracker(
                    RewardTrackerError::TransferAmountExceedsAllowance { allowance, amount: a },
                ),
            )
            &&& a == amount && allowance@ == old(l)@.allowances[(from, caller)]
        },
        caller_is_handler || amount@ <= old(l)@.allowances[(from, caller)] ==> outcome(
            *old(l),
            *final(l),
            r,
            transfer_from_spec(
                old(l)@,
                in_private_transfer_mode,
                caller,
                caller_is_handler,
                from,
                to,
                amount@,
            ),
        ),
        old(l).wf() && unmarked(old(l)@) ==> final(l).wf() && unmarked(final(l)@),
{
    if caller_is_handler {
        return transfer_internal(l, in_private_transfer_mode, true, from, to, amount);
    }
    let allowance = l.allowance_of(from, caller);
    let next_allowance = match u256_checked_sub(allowance, amount) {
        Some(a) => a,
        None => {
            return Err(
                OmxError::RewardTracker(
                    RewardTrackerError::TransferAmountExceedsAllowance { allowance, amount },
                ),
            );
        },
    };
    if from.is_zero() {
        return Err(OmxError::RewardTracker(RewardTrackerError::ApproveFromZeroAddress));
    }
    if caller.is_zero() {
        return Err(OmxError::RewardTracker(RewardTrackerError::ApproveToZeroAddress));
    }
    let (new_from, new_to) = plan_transfer(l, in_private_transfer_mode, false, from, to, amount)?;
    l.set_allowance(from, caller, next_allowance);
    apply_transfer(
        l,
        from,
        to,
        amount,
        new_from,
        new_to,
        Ghost(in_private_transfer_mode),
        Ghost(false),
    );
    Ok(())
}

/// Mints staked tokens; only the staking contract may.
pub fn mint_internal(l: &mut Ledger, caller_is_staking: bool, account: Address, amount: U256) -> (r:
    Result<(), OmxError>)
    ensures
        outcome(*old(l), *final(l), r, mint_spec(old(l)@, caller_is_staking, account, amount@)),
        old(l).wf() && unmarked(old(l)@) ==> final(l).wf() && unmarked(final(l)@),
{
    if !caller_is_staking {
        return Err(OmxError::RewardTracker(RewardTrackerError::Forbidden));
    }
    if account.is_zero() {
        return Err(OmxError::RewardTracker(RewardTrackerError::MintToZeroAddress));
    }
    let total = match u256_checked_add(l.total_supply, amount) {
        Some(t) => t,
        None => return Err(OmxError::Math(MathError::AddOverflow)),
    };
    let balance = match u256_checked_add(l.balance_of(account), amount) {
        Some(b) => b,
        None => return Err(OmxError::Math(MathError::AddOverflow)),
    };
    let ghost before = l@;
    l.total_supply = total;
    l.set_balance(account, balance);
    assert(l@ == mint_spec(before, caller_is_staking, account, amount@).unwrap());
    Ok(())
}

/// Burns staked tokens; only the staking contract may.
pub fn burn_internal(l: &mut Ledger, caller_is_staking: bool, account: Address, amount: U256) -> (r:
    Result<(), OmxError>)
    ensures
        outcome(*old(l), *final(l), r, burn_spec(old(l)@, caller_is_staking, account, amount@)),
        old(l).wf() && unmarked(old(l)@) ==> final(l).wf() && unmarked(final(l)@),
{
    if !caller_is_staking {
        return Err(OmxError::RewardTracker(RewardTrackerError::Forbidden));
    }
    if account.is_zero() {
        return Err(OmxError::RewardTracker(RewardTrackerError::BurnFromZeroAddress));
    }
    let balance = match u256_checked_sub(l.balance_of(account), amount) {
        Some(b) => b,
        None => return Err(OmxError::Math(MathError::SubUnderflow)),
    };
    let total = match u256_checked_sub(l.total_supply, amount) {
        Some(t) => t,
        None => return Err(OmxError::Math(MathError::SubUnderflow)),
    };
    let ghost before = l@;
    l.total_supply = total;
    l.set_balance(account, balance);
    assert(l@ == burn_spec(before, caller_is_staking, account, amount@).unwrap());
    Ok(())
}

} // verus!
