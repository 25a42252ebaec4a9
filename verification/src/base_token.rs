//! The base token (OMX, esOMX, ...): an ERC-20 whose holders can be marked
//! as non-staking, with a separate supply kept for the marked balances.
//! Before a balance changes, the token asks its yield trackers to settle
//! rewards for the accounts involved; those calls are made around these
//! functions, which hold the ledger logic.

use vstd::prelude::*;
use crate::address::Address;
use crate::errors::{BaseTokenError, OmxError};
use crate::ledger::{outcome, sum_balances, with_allowance, with_balance, Ledger, LedgerV};
use crate::uint::{base256, u256_checked_add, u256_checked_sub, u256_max, u256_wrapping_add, U256};

verus! {

pub open spec fn bt(e: BaseTokenError) -> OmxError {
    OmxError::BaseToken(e)
}

/// Minting: the total supply grows with the `+` of 256-bit words, which
/// wraps; the balance and the non-staking supply are checked.
pub open spec fn mint_spec(v: LedgerV, account: Address, amount: nat) -> Result<LedgerV, OmxError> {
    let marked = v.non_staking.contains(account);
    if account.is_zero_spec() {
        Err(bt(BaseTokenError::MintToZeroAddress))
    } else if v.balances[account] + amount > u256_max() {
        Err(bt(BaseTokenError::BalanceOverflow))
    } else if marked && v.non_staking_supply + amount > u256_max() {
        Err(bt(BaseTokenError::BalanceOverflow))
    } else {
        Ok(
            LedgerV {
                balances: v.balances.insert(account, v.balances[account] + amount),
                non_staking: v.non_staking,
                allowances: v.allowances,
                total_supply: ((v.total_supply + amount) % base256()) as nat,
                non_staking_supply: if marked {
                    v.non_staking_supply + amount
                } else {
                    v.non_staking_supply
                },
            },
        )
    }
}

/// Burning from a balance, the total supply and, for a marked account, the
/// non-staking supply.
pub open spec fn burn_spec(v: LedgerV, account: Address, amount: nat) -> Result<LedgerV, OmxError> {
    let marked = v.non_staking.contains(account);
    if account.is_zero_spec() {
        Err(bt(BaseTokenError::BurnFromZeroAddress))
    } else if v.balances[account] < amount {
        Err(bt(BaseTokenError::BalanceUnderflow))
    } else if v.total_supply < amount {
        Err(bt(BaseTokenError::TotalSupplyUnderflow))
    } else if marked && v.non_staking_supply < amount {
        Err(bt(BaseTokenError::NonStakingSupplyUnderflow))
    } else {
        Ok(
            LedgerV {
                balances: v.balances.insert(account, (v.balances[account] - amount) as nat),
                non_staking: v.non_staking,
                allowances: v.allowances,
                total_supply: (v.total_supply - amount) as nat,
                non_staking_supply: if marked {
                    (v.non_staking_supply - amount) as nat
                } else {
                    v.non_staking_supply
                },
            },
        )
    }
}

/// Moving `amount` from `from` to `to`. In private transfer mode only a
/// handler may move tokens. The recipient is credited after the sender is
/// debited, so a transfer to oneself leaves the balance as it was.
pub open spec fn transfer_spec(
    v: LedgerV,
    in_private_transfer_mode: bool,
    caller_is_handler: bool,
    from: Address,
    to: Address,
    amount: nat,
) -> Result<LedgerV, OmxError> {
    let debited = v.balances.insert(from, (v.balances[from] - amount) as nat);
    let from_marked = v.non_staking.contains(from);
    let to_marked = v.non_staking.contains(to);
    let ns1: nat = if from_marked {
        (v.non_staking_supply - amount) as nat
    } else {
        v.non_staking_supply
    };
    if from.is_zero_spec() {
        Err(bt(BaseTokenError::TransferFromZeroAddress))
    } else if to.is_zero_spec() {
        Err(bt(BaseTokenError::TransferToZeroAddress))
    } else if in_private_transfer_mode && !caller_is_handler {
        Err(bt(BaseTokenError::SenderNotWhitelisted))
    } else if v.balances[from] < amount {
        Err(bt(BaseTokenError::BalanceUnderflow))
    } else if debited[to] + amount > u256_max() {
        Err(bt(BaseTokenError::BalanceOverflow))
    } else if from_marked && v.non_staking_supply < amount {
        Err(bt(BaseTokenError::NonStakingSupplyUnderflow))
    } else if to_marked && ns1 + amount > u256_max() {
        Err(bt(BaseTokenError::NonStakingSupplyOverflow))
    } else {
        Ok(
            LedgerV {
                balances: debited.insert(to, debited[to] + amount),
                non_staking: v.non_staking,
                allowances: v.allowances,
                total_supply: v.total_supply,
                non_staking_supply: if to_marked {
                    ns1 + amount
                } else {
                    ns1
                },
            },
        )
    }
}

/// Setting an allowance; neither party may be the zero address.
pub open spec fn approve_spec(v: LedgerV, owner: Address, spender: Address, amount: nat) -> Result<
    LedgerV,
    OmxError,
> {
    if owner.is_zero_spec() {
        Err(bt(BaseTokenError::ApproveFromZeroAddress))
    } else if spender.is_zero_spec() {
        Err(bt(BaseTokenError::ApproveToZeroAddress))
    } else {
        Ok(with_allowance(v, owner, spender, amount))
    }
}

/// `transferFrom` once the allowance, if one is needed, covers `amount`:
/// a handler moves tokens freely, anyone else spends the allowance first.
pub open spec fn transfer_from_spec(
    v: LedgerV,
    in_private_transfer_mode: bool,
    caller: Address,
    caller_is_handler: bool,
    from: Address,
    to: Address,
    amount: nat,
) -> Result<LedgerV, OmxError> {
    if caller_is_handler {
        transfer_spec(v, in_private_transfer_mode, true, from, to, amount)
    } else {
        match approve_spec(v, from, caller, (v.allowances[(from, caller)] - amount) as nat) {
            Ok(v1) => transfer_spec(v1, in_private_transfer_mode, false, from, to, amount),
            Err(e) => Err(e),
        }
    }
}

/// Marking an account as non-staking moves its balance into the non-staking supply.
pub open spec fn add_non_staking_spec(v: LedgerV, account: Address) -> Result<LedgerV, OmxError> {
    if v.non_staking.contains(account) {
        Err(bt(BaseTokenError::AccountAlreadyMarked { account }))
    } else if v.non_staking_supply + v.balances[account] > u256_max() {
        Err(bt(BaseTokenError::NonStakingSupplyOverflow))
    } else {
        Ok(
            LedgerV {
                balances: v.balances,
                non_staking: v.non_staking.insert(account),
                allowances: v.allowances,
                total_supply: v.total_supply,
                non_staking_supply: v.non_staking_supply + v.balances[account],
            },
        )
    }
}

/// Unmarking an account takes its balance out of the non-staking supply.
pub open spec fn remove_non_staking_spec(v: LedgerV, account: Address) -> Result<LedgerV, OmxError> {
    if !v.non_staking.contains(account) {
        Err(bt(BaseTokenError::AccountNotMarked { account }))
    } else if v.non_staking_supply < v.balances[account] {
        Err(bt(BaseTokenError::NonStakingSupplyUnderflow))
    } else {
        Ok(
            LedgerV {
                balances: v.balances,
                non_staking: v.non_staking.remove(account),
                allowances: v.allowances,
                total_supply: v.total_supply,
                non_staking_supply: (v.non_staking_supply - v.balances[account]) as nat,
            },
        )
    }
}

proof fn lemma_wrap_small(x: nat)
    requires
        x <= u256_max(),
    ensures
        x % base256() == x,
{
    vstd::arithmetic::div_mod::lemma_small_mod(x, base256());
}

/// Mints `amount` to `account`. The ledger stays well formed unless the
/// total supply wraps.
pub fn mint(l: &mut Ledger, account: Address, amount: U256) -> (r: Result<(), OmxError>)
    ensures
        outcome(*old(l), *final(l), r, mint_spec(old(l)@, account, amount@)),
        old(l).wf() && old(l)@.total_supply + amount@ <= u256_max() ==> final(l).wf(),
{
    if account.is_zero() {
        return Err(OmxError::BaseToken(BaseTokenError::MintToZeroAddress));
    }
    let balance = l.balance_of(account);
    let new_balance = match u256_checked_add(balance, amount) {
        Some(b) => b,
        None => return Err(OmxError::BaseToken(BaseTokenError::BalanceOverflow)),
    };
    let marked = l.is_non_staking(account);
    let new_non_staking = if marked {
        match u256_checked_add(l.non_staking_supply, amount) {
            Some(s) => s,
            None => return Err(OmxError::BaseToken(BaseTokenError::BalanceOverflow)),
        }
    } else {
        l.non_staking_supply
    };
    let ghost before = *l;
    l.total_supply = u256_wrapping_add(l.total_supply, amount);
    l.non_staking_supply = new_non_staking;
    l.set_balance(account, new_balance);
    proof {
        if before@.total_supply + amount@ <= u256_max() {
            lemma_wrap_small(before@.total_supply + amount@);
        }
        assert(l@ == mint_spec(before@, account, amount@).unwrap());
    }
    Ok(())
}

/// Burns `amount` from `account`.
pub fn burn(l: &mut Ledger, account: Address, amount: U256) -> (r: Result<(), OmxError>)
    ensures
        outcome(*old(l), *final(l), r, burn_spec(old(l)@, account, amount@)),
        old(l).wf() ==> final(l).wf(),
{
    if account.is_zero() {
        return Err(OmxError::BaseToken(BaseTokenError::BurnFromZeroAddress));
    }
    let balance = l.balance_of(account);
    let new_balance = match u256_checked_sub(balance, amount) {
        Some(b) => b,
        None => return Err(OmxError::BaseToken(BaseTokenError::BalanceUnderflow)),
    };
    let new_total = match u256_checked_sub(l.total_supply, amount) {
        Some(t) => t,
        None => return Err(OmxError::BaseToken(BaseTokenError::TotalSupplyUnderflow)),
    };
    let marked = l.is_non_staking(account);
    let new_non_staking = if marked {
        match u256_checked_sub(l.non_staking_supply, amount) {
            Some(s) => s,
            None => return Err(OmxError::BaseToken(BaseTokenError::NonStakingSupplyUnderflow)),
        }
    } else {
        l.non_staking_supply
    };
    let ghost before = *l;
    l.total_supply = new_total;
    l.non_staking_supply = new_non_staking;
    l.set_balance(account, new_balance);
    assert(l@ == burn_spec(before@, account, amount@).unwrap());
    Ok(())
}

/// The balances and non-staking supply that a transfer leaves behind.
pub struct TransferPlan {
    pub new_from: U256,
    pub new_to: U256,
    pub new_non_staking: U256,
}

/// The ledger after a planned transfer.
pub open spec fn planned(v: LedgerV, from: Address, to: Address, p: TransferPlan) -> LedgerV {
    LedgerV {
        balances: v.balances.insert(from, p.new_from@).insert(to, p.new_to@),
        non_staking: v.non_staking,
        allowances: v.allowances,
        total_supply: v.total_supply,
        non_staking_supply: p.new_non_staking@,
    }
}

/// Checks a transfer against the ledger and works out what it leaves
/// behind, without changing anything.
pub fn plan_transfer(
    l: &Ledger,
    in_private_transfer_mode: bool,
    caller_is_handler: bool,
    from: Address,
    to: Address,
    amount: U256,
) -> (r: Result<TransferPlan, OmxError>)
    ensures
        match r {
            Ok(p) => transfer_spec(
                l@,
                in_private_transfer_mode,
                caller_is_handler,
                from,
                to,
                amount@,
            ) == Ok::<LedgerV, OmxError>(planned(l@, from, to, p)),
            Err(e) => transfer_spec(
                l@,
                in_private_transfer_mode,
                caller_is_handler,
                from,
                to,
                amount@,
            ) == Err::<LedgerV, OmxError>(e),
        },
{
    if from.is_zero() {
        return Err(OmxError::BaseToken(BaseTokenError::TransferFromZeroAddress));
    }
    if to.is_zero() {
        return Err(OmxError::BaseToken(BaseTokenError::TransferToZeroAddress));
    }
    if in_private_transfer_mode && !caller_is_handler {
        return Err(OmxError::BaseToken(BaseTokenError::SenderNotWhitelisted));
    }
    let from_balance = l.balance_of(from);
    let new_from = match u256_checked_sub(from_balance, amount) {
        Some(b) => b,
        None => return Err(OmxError::BaseToken(BaseTokenError::BalanceUnderflow)),
    };
    let to_balance = if to == from {
        new_from
    } else {
        l.balance_of(to)
    };
    let new_to = match u256_checked_add(to_balance, amount) {
        Some(b) => b,
        None => return Err(OmxError::BaseToken(BaseTokenError::BalanceOverflow)),
    };
    let from_marked = l.is_non_staking(from);
    let to_marked = l.is_non_staking(to);
    let ns1 = if from_marked {
        match u256_checked_sub(l.non_staking_supply, amount) {
            Some(s) => s,
            None => return Err(OmxError::BaseToken(BaseTokenError::NonStakingSupplyUnderflow)),
        }
    } else {
        l.non_staking_supply
    };
    let new_non_staking = if to_marked {
        match u256_checked_add(ns1, amount) {
            Some(s) => s,
            None => return Err(OmxError::BaseToken(BaseTokenError::NonStakingSupplyOverflow)),
        }
    } else {
        ns1
    };
    let p = TransferPlan { new_from, new_to, new_non_staking };
    assert(transfer_spec(l@, in_private_transfer_mode, caller_is_handler, from, to, amount@)
        == Ok::<LedgerV, OmxError>(planned(l@, from, to, p)));
    Ok(p)
}

/// Writes a planned transfer into the ledger.
fn apply_transfer(
    l: &mut Ledger,
    from: Address,
    to: Address,
    amount: U256,
    p: TransferPlan,
    Ghost(in_private_transfer_mode): Ghost<bool>,
    Ghost(caller_is_handler): Ghost<bool>,
)
    requires
        transfer_spec(old(l)@, in_private_transfer_mode, caller_is_handler, from, to, amount@)
            == Ok::<LedgerV, OmxError>(planned(old(l)@, from, to, p)),
    ensures
        final(l)@ == planned(old(l)@, from, to, p),
        old(l).wf() ==> final(l).wf(),
{
    proof {
        let v = old(l)@;
        let w = planned(v, from, to, p);
        let spec = transfer_spec(v, in_private_transfer_mode, caller_is_handler, from, to, amount@);
        assert(spec.unwrap().balances[to] == w.balances[to]);
        assert(spec.unwrap().balances[from] == w.balances[from]);
    }
    l.set_balance(from, p.new_from);
    l.set_balance(to, p.new_to);
    l.non_staking_supply = p.new_non_staking;
    assert(l@.balances =~= planned(old(l)@, from, to, p).balances);
}

/// Moves `amount` from `from` to `to`.
pub fn transfer_internal(
    l: &mut Ledger,
    in_private_transfer_mode: bool,
    caller_is_handler: bool,
    from: Address,
    to: Address,
    amount: U256,
) -> (r: Result<(), OmxError>)
    ensures
        outcome(
            *old(l),
            *final(l),
            r,
            transfer_spec(old(l)@, in_private_transfer_mode, caller_is_handler, from, to, amount@),
        ),
        old(l).wf() ==> final(l).wf(),
{
    let p = plan_transfer(l, in_private_transfer_mode, caller_is_handler, from, to, amount)?;
    apply_transfer(l, from, to, amount, p, Ghost(in_private_transfer_mode), Ghost(caller_is_handler));
    Ok(())
}

/// Lets `spender` move up to `amount` of `owner`'s tokens.
pub fn approve_internal(l: &mut Ledger, owner: Address, spender: Address, amount: U256) -> (r:
    Result<(), OmxError>)
    ensures
        outcome(*old(l), *final(l), r, approve_spec(old(l)@, owner, spender, amount@)),
        old(l).wf() ==> final(l).wf(),
{
    if owner.is_zero() {
        return Err(OmxError::BaseToken(BaseTokenError::ApproveFromZeroAddress));
    }
    if spender.is_zero() {
        return Err(OmxError::BaseToken(BaseTokenError::ApproveToZeroAddress));
    }
    l.set_allowance(owner, spender, amount);
    Ok(())
}

/// `transferFrom` by `caller`: a handler moves tokens freely; anyone else
/// must hold an allowance that covers `amount`, else the call fails with
/// `TransferAmountExceedsAllowance`, and spends it before the transfer.
pub fn transfer_from(
    l: &mut Ledger,
    in_private_transfer_mode: bool,
    caller: Address,
    caller_is_handler: bool,
    from: Address,
    to: Address,
    amount: U256,
) -> (r: Result<(), OmxError>)
    ensures
        !caller_is_handler && old(l)@.allowances[(from, caller)] < amount@ ==> {
            &&& *final(l) == *old(l)
            &&& r matches Err(
                OmxError::BaseToken(
                    BaseTokenError::TransferAmountExceedsAllowance { amount: a, allowance, owner, spender },
                ),
            )
            &&& a == amount && allowance@ == old(l)@.allowances[(from, caller)]
            &&& owner == from && spender == caller
        },
        caller_is_handler || amount@ <= old(l)@.allowances[(from, caller)] ==> outcome(
            *old(l),
            *final(l),
            r,
            transfer_from_spec(
                old(l)@,
                in_private_transfer_mode,
                caller,
                caller_is_handler,
                from,
                to,
                amount@,
            ),
        ),
        old(l).wf() ==> final(l).wf(),
{
    if caller_is_handler {
        return transfer_internal(l, in_private_transfer_mode, true, from, to, amount);
    }
    let allowance = l.allowance_of(from, caller);
    let next_allowance = match u256_checked_sub(allowance, amount) {
        Some(a) => a,
        None => {
            return Err(
                OmxError::BaseToken(
                    BaseTokenError::TransferAmountExceedsAllowance {
                        amount,
                        allowance,
                        owner: from,
                        spender: caller,
                    },
                ),
            );
        },
    };
    if from.is_zero() {
        return Err(OmxError::BaseToken(BaseTokenError::ApproveFromZeroAddress));
    }
    if caller.is_zero() {
        return Err(OmxError::BaseToken(BaseTokenError::ApproveToZeroAddress));
    }
    let p = plan_transfer(l, in_private_transfer_mode, false, from, to, amount)?;
    l.set_allowance(from, caller, next_allowance);
    apply_transfer(l, from, to, amount, p, Ghost(in_private_transfer_mode), Ghost(false));
    Ok(())
}

/// Marks `account` as non-staking; its balance joins the non-staking supply.
pub fn add_non_staking_account(l: &mut Ledger, account: Address) -> (r: Result<(), OmxError>)
    ensures
        outcome(*old(l), *final(l), r, add_non_staking_spec(old(l)@, account)),
        old(l).wf() ==> final(l).wf(),
{
    if l.is_non_staking(account) {
        return Err(OmxError::BaseToken(BaseTokenError::AccountAlreadyMarked { account }));
    }
    let balance = l.balance_of(account);
    let new_non_staking = match u256_checked_add(l.non_staking_supply, balance) {
        Some(s) => s,
        None => return Err(OmxError::BaseToken(BaseTokenError::NonStakingSupplyOverflow)),
    };
    let ghost before = l@;
    l.set_entry(account, balance, true);
    l.non_staking_supply = new_non_staking;
    assert(l@.balances =~= before.balances);
    assert(l@ == add_non_staking_spec(before, account).unwrap());
    Ok(())
}

/// Unmarks `account`; its balance leaves the non-staking supply.
pub fn remove_non_staking_account(l: &mut Ledger, account: Address) -> (r: Result<(), OmxError>)
    ensures
        outcome(*old(l), *final(l), r, remove_non_staking_spec(old(l)@, account)),
        old(l).wf() ==> final(l).wf(),
{
    if !l.is_non_staking(account) {
        return Err(OmxError::BaseToken(BaseTokenError::AccountNotMarked { account }));
    }
    let balance = l.balance_of(account);
    let new_non_staking = match u256_checked_sub(l.non_staking_supply, balance) {
        Some(s) => s,
        None => return Err(OmxError::BaseToken(BaseTokenError::NonStakingSupplyUnderflow)),
    };
    let ghost before = l@;
    l.set_entry(account, balance, false);
    l.non_staking_supply = new_non_staking;
    assert(l@.balances =~= before.balances);
    assert(l@ == remove_non_staking_spec(before, account).unwrap());
    Ok(())
}

/// The supply that earns staking rewards: the total supply less the
/// non-staking supply.
pub fn total_staked(l: &Ledger) -> (r: Result<U256, OmxError>)
    ensures
        match r {
            Ok(v) => l@.non_staking_supply <= l@.total_supply && v@ == l@.total_supply
                - l@.non_staking_supply,
            Err(e) => l@.total_supply < l@.non_staking_supply && e == bt(
                BaseTokenError::TotalSupplyUnderflow,
            ),
        },
        l.wf() ==> r is Ok,
{
    proof {
        if l.wf() {
            lemma_marked_sum_le_total(l.accounts@);
        }
    }
    match u256_checked_sub(l.total_supply, l.non_staking_supply) {
        Some(v) => Ok(v),
        None => Err(OmxError::BaseToken(BaseTokenError::TotalSupplyUnderflow)),
    }
}

/// The balance of `account` that counts for staking: none for a marked account.
pub fn staked_balance(l: &Ledger, account: Address) -> (r: U256)
    ensures
        r@ == if l@.non_staking.contains(account) {
            0
        } else {
            l@.balances[account]
        },
{
    if l.is_non_staking(account) {
        U256::zero()
    } else {
        l.balance_of(account)
    }
}

/// The marked balances are part of all balances.
proof fn lemma_marked_sum_le_total(s: Seq<crate::ledger::Account>)
    ensures
        sum_balances(s, true) <= sum_balances(s, false),
    decreases s.len(),
{
    if s.len() > 0 {
        lemma_marked_sum_le_total(s.drop_last());
    }
}

/// Burning what was just minted to an account gives back the ledger as it
/// was, provided the total supply did not wrap.
pub proof fn lemma_mint_then_burn(v: LedgerV, account: Address, amount: nat)
    requires
        v.is_total(),
        v.total_supply + amount <= u256_max(),
        mint_spec(v, account, amount) is Ok,
    ensures
        burn_spec(mint_spec(v, account, amount).unwrap(), account, amount) == Ok::<
            LedgerV,
            OmxError,
        >(v),
{
    lemma_wrap_small(v.total_supply + amount);
    let m = mint_spec(v, account, amount).unwrap();
    let b = burn_spec(m, account, amount).unwrap();
    assert(v.balances.dom().contains(account));
    assert(b.balances =~= v.balances);
}

/// A transfer moves tokens between holders and leaves the total supply as it was.
pub proof fn lemma_transfer_keeps_total_supply(
    v: LedgerV,
    in_private_transfer_mode: bool,
    caller_is_handler: bool,
    from: Address,
    to: Address,
    amount: nat,
)
    requires
        v.is_total(),
        transfer_spec(v, in_private_transfer_mode, caller_is_handler, from, to, amount) is Ok,
    ensures
        ({
            let w = transfer_spec(v, in_private_transfer_mode, caller_is_handler, from, to, amount).unwrap();
            &&& w.total_supply == v.total_supply
            &&& from != to ==> w.balances[from] + amount == v.balances[from]
            &&& from != to ==> w.balances[to] == v.balances[to] + amount
            &&& from == to ==> w.balances == v.balances
            &&& forall|x: Address| x != from && x != to ==> w.balances[x] == v.balances[x]
        }),
{
    assert(v.balances.dom().contains(from));
    assert(v.balances.dom().contains(to));
    let w = transfer_spec(v, in_private_transfer_mode, caller_is_handler, from, to, amount).unwrap();
    if from == to {
        assert(w.balances =~= v.balances);
    }
}

/// After an approval the allowance reads back as what was approved.
pub proof fn lemma_approve_then_allowance(v: LedgerV, owner: Address, spender: Address, amount: nat)
    requires
        v.is_total(),
        approve_spec(v, owner, spender, amount) is Ok,
    ensures
        approve_spec(v, owner, spender, amount).unwrap().allowances[(owner, spender)] == amount,
        approve_spec(v, owner, spender, amount).unwrap().balances == v.balances,
{
}

} // verus!
