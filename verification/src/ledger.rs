//! Token balances, allowances and supplies of an ERC-20 style token, held as
//! lists keyed by address. For every address the last entry wins, and a
//! well-formed ledger has at most one entry per holder, whose balances add
//! up to the recorded supplies.

use vstd::prelude::*;
use crate::address::Address;
use crate::errors::OmxError;
use crate::uint::U256;

verus! {

/// One holder's entry: its balance and whether it is kept out of staking.
#[derive(Clone, Copy, Debug)]
pub struct Account {
    pub owner: Address,
    pub balance: U256,
    pub non_staking: bool,
}

/// What `spender` may still move out of `owner`'s balance.
#[derive(Clone, Copy, Debug)]
pub struct Allowance {
    pub owner: Address,
    pub spender: Address,
    pub amount: U256,
}

/// The balance of `a` recorded in `s` (0 when `a` has no entry).
pub open spec fn balance_in(s: Seq<Account>, a: Address) -> nat
    decreases s.len(),
{
    if s.len() == 0 {
        0
    } else if s.last().owner == a {
        s.last().balance@
    } else {
        balance_in(s.drop_last(), a)
    }
}

/// Whether `a` is marked as a non-staking account in `s`.
pub open spec fn non_staking_in(s: Seq<Account>, a: Address) -> bool
    decreases s.len(),
{
    if s.len() == 0 {
        false
    } else if s.last().owner == a {
        s.last().non_staking
    } else {
        non_staking_in(s.drop_last(), a)
    }
}

/// The allowance of `spender` over `owner`'s balance recorded in `s`.
pub open spec fn allowance_in(s: Seq<Allowance>, owner: Address, spender: Address) -> nat
    decreases s.len(),
{
    if s.len() == 0 {
        0
    } else if s.last().owner == owner && s.last().spender == spender {
        s.last().amount@
    } else {
        allowance_in(s.drop_last(), owner, spender)
    }
}

/// What one entry adds to a sum of balances: all of its balance, or, when
/// only non-staking accounts count, its balance if it is marked.
pub open spec fn share(acc: Account, non_staking_only: bool) -> nat {
    if !non_staking_only || acc.non_staking {
        acc.balance@
    } else {
        0
    }
}

/// The sum of the balances in `s` (of the marked ones, with `non_staking_only`).
pub open spec fn sum_balances(s: Seq<Account>, non_staking_only: bool) -> nat
    decreases s.len(),
{
    if s.len() == 0 {
        0
    } else {
        sum_balances(s.drop_last(), non_staking_only) + share(s.last(), non_staking_only)
    }
}

/// No holder has two entries.
pub open spec fn owners_unique(s: Seq<Account>) -> bool {
    forall|i: int, j: int| 0 <= i < j < s.len() ==> s[i].owner != s[j].owner
}

/// The balances, marks and allowances of a token, with its supplies.
pub struct Ledger {
    pub accounts: Vec<Account>,
    pub allowances: Vec<Allowance>,
    pub total_supply: U256,
    pub non_staking_supply: U256,
}

/// The ledger as maps: every address has a balance and every pair an allowance.
pub struct LedgerV {
    pub balances: Map<Address, nat>,
    pub non_staking: Set<Address>,
    pub allowances: Map<(Address, Address), nat>,
    pub total_supply: nat,
    pub non_staking_supply: nat,
}

impl LedgerV {
    /// Every address has a balance and every pair of addresses an
    /// allowance, as in the view of any `Ledger`.
    pub open spec fn is_total(self) -> bool {
        &&& forall|a: Address| #[trigger] self.balances.dom().contains(a)
        &&& forall|k: (Address, Address)| #[trigger] self.allowances.dom().contains(k)
    }
}

impl View for Ledger {
    type V = LedgerV;

    open spec fn view(&self) -> LedgerV {
        LedgerV {
            balances: Map::new(|a: Address| true, |a: Address| balance_in(self.accounts@, a)),
            non_staking: Set::new(|a: Address| non_staking_in(self.accounts@, a)),
            allowances: Map::new(
                |k: (Address, Address)| true,
                |k: (Address, Address)| allowance_in(self.allowances@, k.0, k.1),
            ),
            total_supply: self.total_supply@,
            non_staking_supply: self.non_staking_supply@,
        }
    }
}

impl Ledger {
    /// One entry per holder, and the supplies are the sums of the balances:
    /// all of them for the total supply, the marked ones for the
    /// non-staking supply.
    pub open spec fn wf(&self) -> bool {
        &&& self@.is_total()
        &&& owners_unique(self.accounts@)
        &&& sum_balances(self.accounts@, false) == self.total_supply@
        &&& sum_balances(self.accounts@, true) == self.non_staking_supply@
    }
}

/// The view of a ledger with `a`'s balance set to `b`.
pub open spec fn with_balance(v: LedgerV, a: Address, b: nat) -> LedgerV {
    LedgerV {
        balances: v.balances.insert(a, b),
        non_staking: v.non_staking,
        allowances: v.allowances,
        total_supply: v.total_supply,
        non_staking_supply: v.non_staking_supply,
    }
}

/// The view of a ledger with the allowance of `(owner, spender)` set to `amount`.
pub open spec fn with_allowance(v: LedgerV, owner: Address, spender: Address, amount: nat) -> LedgerV {
    LedgerV {
        balances: v.balances,
        non_staking: v.non_staking,
        allowances: v.allowances.insert((owner, spender), amount),
        total_supply: v.total_supply,
        non_staking_supply: v.non_staking_supply,
    }
}

/// A call that changes a ledger did what `expected` says: on success the
/// ledger holds the expected state, on an error it is left as it was.
pub open spec fn outcome(
    before: Ledger,
    after: Ledger,
    r: Result<(), OmxError>,
    expected: Result<LedgerV, OmxError>,
) -> bool {
    match expected {
        Ok(v) => r is Ok && after@ == v,
        Err(e) => r == Err::<(), OmxError>(e) && after == before,
    }
}

/// Absent holders have a zero balance and no mark.
proof fn lemma_absent(s: Seq<Account>, a: Address)
    requires
        forall|j: int| 0 <= j < s.len() ==> s[j].owner != a,
    ensures
        balance_in(s, a) == 0,
        !non_staking_in(s, a),
    decreases s.len(),
{
    if s.len() > 0 {
        lemma_absent(s.drop_last(), a);
    }
}

/// The last entry of a holder is the one that counts.
proof fn lemma_last_match(s: Seq<Account>, k: int)
    requires
        0 <= k < s.len(),
        forall|j: int| k < j < s.len() ==> s[j].owner != s[k].owner,
    ensures
        balance_in(s, s[k].owner) == s[k].balance@,
        non_staking_in(s, s[k].owner) == s[k].non_staking,
    decreases s.len(),
{
    if k < s.len() - 1 {
        lemma_last_match(s.drop_last(), k);
    }
}

/// Replacing a holder's last entry changes what is recorded for that holder only.
proof fn lemma_update_entry(s: Seq<Account>, k: int, acc: Account, x: Address)
    requires
        0 <= k < s.len(),
        s[k].owner == acc.owner,
        forall|j: int| k < j < s.len() ==> s[j].owner != acc.owner,
    ensures
        balance_in(s.update(k, acc), x) == if x == acc.owner {
            acc.balance@
        } else {
            balance_in(s, x)
        },
        non_staking_in(s.update(k, acc), x) == if x == acc.owner {
            acc.non_staking
        } else {
            non_staking_in(s, x)
        },
    decreases s.len(),
{
    if k == s.len() - 1 {
        assert(s.update(k, acc).drop_last() =~= s.drop_last());
    } else {
        assert(s.update(k, acc).drop_last() =~= s.drop_last().update(k, acc));
        lemma_update_entry(s.drop_last(), k, acc, x);
    }
}

/// Replacing one entry moves a sum of balances by the difference of the shares.
proof fn lemma_sum_update(s: Seq<Account>, k: int, acc: Account, non_staking_only: bool)
    requires
        0 <= k < s.len(),
    ensures
        sum_balances(s.update(k, acc), non_staking_only) + share(s[k], non_staking_only)
            == sum_balances(s, non_staking_only) + share(acc, non_staking_only),
    decreases s.len(),
{
    if k == s.len() - 1 {
        assert(s.update(k, acc).drop_last() =~= s.drop_last());
    } else {
        assert(s.update(k, acc).drop_last() =~= s.drop_last().update(k, acc));
        lemma_sum_update(s.drop_last(), k, acc, non_staking_only);
    }
}

/// Appending an entry for a new holder.
proof fn lemma_push_entry(s: Seq<Account>, acc: Account, x: Address)
    ensures
        balance_in(s.push(acc), x) == if x == acc.owner {
            acc.balance@
        } else {
            balance_in(s, x)
        },
        non_staking_in(s.push(acc), x) == if x == acc.owner {
            acc.non_staking
        } else {
            non_staking_in(s, x)
        },
        sum_balances(s.push(acc), false) == sum_balances(s, false) + share(acc, false),
        sum_balances(s.push(acc), true) == sum_balances(s, true) + share(acc, true),
{
    assert(s.push(acc).drop_last() =~= s);
}

/// Absent pairs have a zero allowance.
proof fn lemma_allowance_absent(s: Seq<Allowance>, o: Address, sp: Address)
    requires
        forall|j: int| 0 <= j < s.len() ==> !(s[j].owner == o && s[j].spender == sp),
    ensures
        allowance_in(s, o, sp) == 0,
    decreases s.len(),
{
    if s.len() > 0 {
        lemma_allowance_absent(s.drop_last(), o, sp);
    }
}

/// The last entry of a pair is the one that counts.
proof fn lemma_allowance_last_match(s: Seq<Allowance>, k: int)
    requires
        0 <= k < s.len(),
        forall|j: int|
            k < j < s.len() ==> !(s[j].owner == s[k].owner && s[j].spender == s[k].spender),
    ensures
        allowance_in(s, s[k].owner, s[k].spender) == s[k].amount@,
    decreases s.len(),
{
    if k < s.len() - 1 {
        lemma_allowance_last_match(s.drop_last(), k);
    }
}

/// Replacing a pair's last entry changes that pair's allowance only.
proof fn lemma_allowance_update(s: Seq<Allowance>, k: int, e: Allowance, o: Address, sp: Address)
    requires
        0 <= k < s.len(),
        s[k].owner == e.owner,
        s[k].spender == e.spender,
        forall|j: int| k < j < s.len() ==> !(s[j].owner == e.owner && s[j].spender == e.spender),
    ensures
        allowance_in(s.update(k, e), o, sp) == if o == e.owner && sp == e.spender {
            e.amount@
        } else {
            allowance_in(s, o, sp)
        },
    decreases s.len(),
{
    if k == s.len() - 1 {
        assert(s.update(k, e).drop_last() =~= s.drop_last());
    } else {
        assert(s.update(k, e).drop_last() =~= s.drop_last().update(k, e));
        lemma_allowance_update(s.drop_last(), k, e, o, sp);
    }
}

/// The index of `a`'s last entry, if it has one.
fn find_account(accounts: &Vec<Account>, a: Address) -> (r: Option<usize>)
    ensures
        match r {
            Some(i) => {
                &&& i < accounts.len()
                &&& accounts@[i as int].owner == a
                &&& forall|j: int| i < j < accounts.len() ==> accounts@[j].owner != a
            },
            None => forall|j: int| 0 <= j < accounts.len() ==> accounts@[j].owner != a,
        },
{
    let mut i: usize = accounts.len();
    while i > 0
        invariant
            i <= accounts.len(),
            forall|j: int| i <= j < accounts.len() ==> accounts@[j].owner != a,
        decreases i,
    {
        i = i - 1;
        if accounts[i].owner == a {
            return Some(i);
        }
    }
    None
}

/// The index of the last entry for `(owner, spender)`, if there is one.
fn find_allowance(allowances: &Vec<Allowance>, owner: Address, spender: Address) -> (r: Option<usize>)
    ensures
        match r {
            Some(i) => {
                &&& i < allowances.len()
                &&& allowances@[i as int].owner == owner
                &&& allowances@[i as int].spender == spender
                &&& forall|j: int|
                    i < j < allowances.len() ==> !(allowances@[j].owner == owner
                        && allowances@[j].spender == spender)
            },
            None => forall|j: int|
                0 <= j < allowances.len() ==> !(allowances@[j].owner == owner
                    && allowances@[j].spender == spender),
        },
{
    let mut i: usize = allowances.len();
    while i > 0
        invariant
            i <= allowances.len(),
            forall|j: int|
                i <= j < allowances.len() ==> !(allowances@[j].owner == owner
                    && allowances@[j].spender == spender),
        decreases i,
    {
        i = i - 1;
        if allowances[i].owner == owner && allowances[i].spender == spender {
            return Some(i);
        }
    }
    None
}

impl Ledger {
    /// A ledger with no holders and no supply.
    pub fn new() -> (r: Ledger)
        ensures
            r.wf(),
            forall|a: Address| r@.balances[a] == 0,
            forall|a: Address| !r@.non_staking.contains(a),
            forall|o: Address, s: Address| r@.allowances[(o, s)] == 0,
            r@.total_supply == 0,
            r@.non_staking_supply == 0,
    {
        Ledger {
            accounts: Vec::new(),
            allowances: Vec::new(),
            total_supply: U256::zero(),
            non_staking_supply: U256::zero(),
        }
    }

    /// The balance of `a`.
    pub fn balance_of(&self, a: Address) -> (r: U256)
        ensures
            r@ == self@.balances[a],
    {
        match find_account(&self.accounts, a) {
            Some(i) => {
                proof {
                    lemma_last_match(self.accounts@, i as int);
                }
                self.accounts[i].balance
            },
            None => {
                proof {
                    lemma_absent(self.accounts@, a);
                }
                U256::zero()
            },
        }
    }

    /// Whether `a` is marked as a non-staking account.
    pub fn is_non_staking(&self, a: Address) -> (r: bool)
        ensures
            r == self@.non_staking.contains(a),
    {
        match find_account(&self.accounts, a) {
            Some(i) => {
                proof {
                    lemma_last_match(self.accounts@, i as int);
                }
                self.accounts[i].non_staking
            },
            None => {
                proof {
                    lemma_absent(self.accounts@, a);
                }
                false
            },
        }
    }

    /// What `spender` may move out of `owner`'s balance.
    pub fn allowance_of(&self, owner: Address, spender: Address) -> (r: U256)
        ensures
            r@ == self@.allowances[(owner, spender)],
    {
        match find_allowance(&self.allowances, owner, spender) {
            Some(i) => {
                proof {
                    lemma_allowance_last_match(self.allowances@, i as int);
                }
                self.allowances[i].amount
            },
            None => {
                proof {
                    lemma_allowance_absent(self.allowances@, owner, spender);
                }
                U256::zero()
            },
        }
    }

    /// Writes `a`'s entry: its balance and its mark. The supplies are left
    /// as they are; the sums of the balances move with the entry.
    pub(crate) fn set_entry(&mut self, a: Address, balance: U256, non_staking: bool)
        ensures
            final(self).allowances@ == old(self).allowances@,
            final(self).total_supply == old(self).total_supply,
            final(self).non_staking_supply == old(self).non_staking_supply,
            final(self)@.balances == old(self)@.balances.insert(a, balance@),
            final(self)@.non_staking == if non_staking {
                old(self)@.non_staking.insert(a)
            } else {
                old(self)@.non_staking.remove(a)
            },
            owners_unique(old(self).accounts@) ==> owners_unique(final(self).accounts@),
            sum_balances(final(self).accounts@, false) + old(self)@.balances[a]
                == sum_balances(old(self).accounts@, false) + balance@,
            sum_balances(final(self).accounts@, true) + (if old(self)@.non_staking.contains(a) {
                old(self)@.balances[a]
            } else {
                0
            }) == sum_balances(old(self).accounts@, true) + (if non_staking {
                balance@
            } else {
                0
            }),
    {
        let acc = Account { owner: a, balance, non_staking };
        let ghost s = self.accounts@;
        match find_account(&self.accounts, a) {
            Some(i) => {
                proof {
                    lemma_last_match(s, i as int);
                    lemma_sum_update(s, i as int, acc, false);
                    lemma_sum_update(s, i as int, acc, true);
                    assert forall|x: Address| #![auto]
                        balance_in(s.update(i as int, acc), x) == if x == a {
                            balance@
                        } else {
                            balance_in(s, x)
                        } && non_staking_in(s.update(i as int, acc), x) == if x == a {
                            non_staking
                        } else {
                            non_staking_in(s, x)
                        } by {
                        lemma_update_entry(s, i as int, acc, x);
                    }
                }
                self.accounts.set(i, acc);
                assert(self.accounts@ == s.update(i as int, acc));
            },
            None => {
                proof {
                    lemma_absent(s, a);
                    assert forall|x: Address| #![auto]
                        balance_in(s.push(acc), x) == if x == a {
                            balance@
                        } else {
                            balance_in(s, x)
                        } && non_staking_in(s.push(acc), x) == if x == a {
                            non_staking
                        } else {
                            non_staking_in(s, x)
                        } by {
                        lemma_push_entry(s, acc, x);
                    }
                    lemma_push_entry(s, acc, a);
                }
                self.accounts.push(acc);
                assert(self.accounts@ == s.push(acc));
            },
        }
        assert(self@.balances =~= old(self)@.balances.insert(a, balance@));
        if non_staking {
            assert(self@.non_staking =~= old(self)@.non_staking.insert(a));
        } else {
            assert(self@.non_staking =~= old(self)@.non_staking.remove(a));
        }
    }

    /// Sets `a`'s balance, keeping its mark.
    pub(crate) fn set_balance(&mut self, a: Address, balance: U256)
        ensures
            final(self)@ == with_balance(old(self)@, a, balance@),
            owners_unique(old(self).accounts@) ==> owners_unique(final(self).accounts@),
            sum_balances(final(self).accounts@, false) + old(self)@.balances[a]
                == sum_balances(old(self).accounts@, false) + balance@,
            sum_balances(final(self).accounts@, true) + (if old(self)@.non_staking.contains(a) {
                old(self)@.balances[a]
            } else {
                0
            }) == sum_balances(old(self).accounts@, true) + (if old(self)@.non_staking.contains(
                a,
            ) {
                balance@
            } else {
                0
            }),
    {
        let marked = self.is_non_staking(a);
        self.set_entry(a, balance, marked);
        if marked {
            assert(self@.non_staking =~= old(self)@.non_staking);
        } else {
            assert(self@.non_staking =~= old(self)@.non_staking);
        }
        assert(self@.allowances =~= old(self)@.allowances);
        assert(self@ == with_balance(old(self)@, a, balance@));
    }

    /// Sets what `spender` may move out of `owner`'s balance.
    pub(crate) fn set_allowance(&mut self, owner: Address, spender: Address, amount: U256)
        ensures
            final(self).accounts@ == old(self).accounts@,
            final(self).total_supply == old(self).total_supply,
            final(self).non_staking_supply == old(self).non_staking_supply,
            final(self)@ == with_allowance(old(self)@, owner, spender, amount@),
    {
        let e = Allowance { owner, spender, amount };
        let ghost s = self.allowances@;
        match find_allowance(&self.allowances, owner, spender) {
            Some(i) => {
                proof {
                    assert forall|o: Address, sp: Address| #![auto]
                        allowance_in(s.update(i as int, e), o, sp) == if o == owner && sp
                            == spender {
                            amount@
                        } else {
                            allowance_in(s, o, sp)
                        } by {
                        lemma_allowance_update(s, i as int, e, o, sp);
                    }
                }
                self.allowances.set(i, e);
                assert(self.allowances@ == s.update(i as int, e));
            },
            None => {
                proof {
                    assert forall|o: Address, sp: Address| #![auto]
                        allowance_in(s.push(e), o, sp) == if o == owner && sp == spender {
                            amount@
                        } else {
                            allowance_in(s, o, sp)
                        } by {
                        assert(s.push(e).drop_last() =~= s);
                    }
                }
                self.allowances.push(e);
                assert(self.allowances@ == s.push(e));
            },
        }
        assert(self@.allowances =~= old(self)@.allowances.insert((owner, spender), amount@));
        assert(self@.balances =~= old(self)@.balances);
        assert(self@.non_staking =~= old(self)@.non_staking);
    }
}

} // verus!
