//! The vault's per-token accounting: the pool of tokens that backs leverage
//! and the part of it reserved for open positions.

use vstd::prelude::*;
use crate::address::Address;
use crate::errors::{MathError, OmxError, VaultError};
use crate::safe_math::{add_spec, rv, safe_add, safe_sub, sub_spec};
use crate::uint::{u256_lt, u256_max, U256};

verus! {

/// `Ok(())` when `expr` holds, else the given vault error.
pub fn validate(expr: bool, err: VaultError) -> (r: Result<(), OmxError>)
    ensures
        r == (if expr { Ok(()) } else { Err(OmxError::Vault(err)) }),
{
    if expr {
        Ok(())
    } else {
        Err(OmxError::Vault(err))
    }
}

/// What the vault tracks of one token: the pool amount, the amount reserved
/// for open positions and the token balance it last recorded, beside the
/// vault's actual balance of the token (read from the token contract).
#[derive(Clone, Copy, Debug, PartialEq, Eq)]
pub struct PoolLedger {
    pub pool_amount: U256,
    pub reserved_amount: U256,
    pub token_balance: U256,
    pub balance: U256,
}

/// The values of a `PoolLedger`.
pub struct PoolLedgerV {
    pub pool_amount: nat,
    pub reserved_amount: nat,
    pub token_balance: nat,
    pub balance: nat,
}

impl View for PoolLedger {
    type V = PoolLedgerV;

    open spec fn view(&self) -> PoolLedgerV {
        PoolLedgerV {
            pool_amount: self.pool_amount@,
            reserved_amount: self.reserved_amount@,
            token_balance: self.token_balance@,
            balance: self.balance@,
        }
    }
}

/// The vault's invariant: reserves never exceed the pool, and the pool never
/// exceeds the tokens held.
pub open spec fn pool_ledger_inv(l: PoolLedgerV) -> bool {
    l.reserved_amount <= l.pool_amount && l.pool_amount <= l.balance
}

/// The ledger after a successful step of the vault, or the step's error.
pub open spec fn ledger_result(l: PoolLedgerV, pool: nat, reserved: nat) -> PoolLedgerV {
    PoolLedgerV { pool_amount: pool, reserved_amount: reserved, ..l }
}

/// `increase_pool_amount`: the pool grows by `amount`; it must stay within the balance.
pub open spec fn increase_pool_spec(l: PoolLedgerV, amount: nat) -> Result<PoolLedgerV, OmxError> {
    match add_spec(l.pool_amount, amount) {
        Err(e) => Err(e),
        Ok(p) => if p <= l.balance {
            Ok(ledger_result(l, p, l.reserved_amount))
        } else {
            Err(OmxError::Vault(VaultError::PoolExceededBalance))
        },
    }
}

/// `decrease_pool_amount`: the pool shrinks by `amount`; it must stay above the reserves.
pub open spec fn decrease_pool_spec(l: PoolLedgerV, amount: nat) -> Result<PoolLedgerV, OmxError> {
    if amount > l.pool_amount {
        Err(OmxError::Vault(VaultError::PoolExceeded))
    } else if l.reserved_amount > l.pool_amount - amount {
        Err(OmxError::Vault(VaultError::PoolLessThenReserved))
    } else {
        Ok(ledger_result(l, (l.pool_amount - amount) as nat, l.reserved_amount))
    }
}

/// `increase_reserved_amount`: the reserves grow by `amount`; they must stay within the pool.
pub open spec fn increase_reserved_spec(l: PoolLedgerV, amount: nat) -> Result<PoolLedgerV, OmxError> {
    match add_spec(l.reserved_amount, amount) {
        Err(e) => Err(e),
        Ok(r) => if r <= l.pool_amount {
            Ok(ledger_result(l, l.pool_amount, r))
        } else {
            Err(OmxError::Vault(VaultError::PoolLessThenReserved))
        },
    }
}

/// `decrease_reserved_amount`: the reserves shrink by `amount`.
pub open spec fn decrease_reserved_spec(l: PoolLedgerV, amount: nat) -> Result<PoolLedgerV, OmxError> {
    match sub_spec(l.reserved_amount, amount) {
        Err(e) => Err(e),
        Ok(r) => Ok(ledger_result(l, l.pool_amount, r)),
    }
}

/// The new ledger of a step, or its error.
pub open spec fn lv(r: Result<PoolLedger, OmxError>) -> Result<PoolLedgerV, OmxError> {
    match r {
        Ok(l) => Ok(l@),
        Err(e) => Err(e),
    }
}

impl PoolLedger {
    /// Adding to the pool; it must stay within the tokens held.
    pub fn increase_pool_amount(self, amount: U256) -> (r: Result<PoolLedger, OmxError>)
        ensures
            lv(r) == increase_pool_spec(self@, amount@),
    {
        let pool_amount = safe_add(self.pool_amount, amount)?;
        validate(!u256_lt(self.balance, pool_amount), VaultError::PoolExceededBalance)?;
        Ok(PoolLedger { pool_amount, ..self })
    }

    /// Taking from the pool; it must stay above the reserve.
    pub fn decrease_pool_amount(self, amount: U256) -> (r: Result<PoolLedger, OmxError>)
        ensures
            lv(r) == decrease_pool_spec(self@, amount@),
    {
        let pool_amount = match safe_sub(self.pool_amount, amount) {
            Ok(p) => p,
            Err(_) => return Err(OmxError::Vault(VaultError::PoolExceeded)),
        };
        validate(!u256_lt(pool_amount, self.reserved_amount), VaultError::PoolLessThenReserved)?;
        Ok(PoolLedger { pool_amount, ..self })
    }

    /// Reserving more; the reserve must stay within the pool.
    pub fn increase_reserved_amount(self, amount: U256) -> (r: Result<PoolLedger, OmxError>)
        ensures
            lv(r) == increase_reserved_spec(self@, amount@),
    {
        let reserved_amount = safe_add(self.reserved_amount, amount)?;
        validate(!u256_lt(self.pool_amount, reserved_amount), VaultError::PoolLessThenReserved)?;
        Ok(PoolLedger { reserved_amount, ..self })
    }

    /// Releasing part of the reserve.
    pub fn decrease_reserved_amount(self, amount: U256) -> (r: Result<PoolLedger, OmxError>)
        ensures
            lv(r) == decrease_reserved_spec(self@, amount@),
    {
        let reserved_amount = safe_sub(self.reserved_amount, amount)?;
        Ok(PoolLedger { reserved_amount, ..self })
    }
}

/// `transfer_in`: the tokens received since the last recorded balance, which
/// becomes the current balance.
pub open spec fn transfer_in_spec(l: PoolLedgerV) -> Result<(PoolLedgerV, nat), OmxError> {
    match sub_spec(l.balance, l.token_balance) {
        Err(e) => Err(e),
        Ok(received) => Ok((PoolLedgerV { token_balance: l.balance, ..l }, received)),
    }
}

pub open spec fn lav(r: Result<(PoolLedger, U256), OmxError>) -> Result<(PoolLedgerV, nat), OmxError> {
    match r {
        Ok((l, a)) => Ok((l@, a@)),
        Err(e) => Err(e),
    }
}

impl PoolLedger {
    /// Taking in what arrived since the last recorded balance: the new ledger and the amount received.
    pub fn transfer_in(self) -> (r: Result<(PoolLedger, U256), OmxError>)
        ensures
            lav(r) == transfer_in_spec(self@),
    {
        let received = safe_sub(self.balance, self.token_balance)?;
        Ok((PoolLedger { token_balance: self.balance, ..self }, received))
    }

    /// Recording the balance: the recorded balance becomes the current one.
    pub fn update_token_balance(self) -> (r: PoolLedger)
        ensures
            r@ == (PoolLedgerV { token_balance: self@.balance, ..self@ }),
    {
        PoolLedger { token_balance: self.balance, ..self }
    }
}

/// Every successful step of the vault keeps its invariant: reserves within the
/// pool, and the pool within the tokens held.
pub proof fn lemma_pool_steps_keep_invariant(l: PoolLedgerV, amount: nat)
    requires
        pool_ledger_inv(l),
    ensures
        increase_pool_spec(l, amount) matches Ok(n) ==> pool_ledger_inv(n),
        decrease_pool_spec(l, amount) matches Ok(n) ==> pool_ledger_inv(n),
        increase_reserved_spec(l, amount) matches Ok(n) ==> pool_ledger_inv(n),
        decrease_reserved_spec(l, amount) matches Ok(n) ==> pool_ledger_inv(n),
{
}

/// `direct_pool_deposit`: tokens sent straight to the vault join the pool
/// without minting USDO; the token must be whitelisted and something must
/// have arrived.
pub open spec fn direct_pool_deposit_spec(whitelisted: bool, l: PoolLedgerV) -> Result<
    (PoolLedgerV, nat),
    OmxError,
> {
    if !whitelisted {
        Err(OmxError::Vault(VaultError::TokenNotWhitelisted))
    } else {
        match transfer_in_spec(l) {
            Err(e) => Err(e),
            Ok((l1, received)) => if received == 0 {
                Err(OmxError::Vault(VaultError::ZeroAmount))
            } else {
                match increase_pool_spec(l1, received) {
                    Ok(l2) => Ok((l2, received)),
                    Err(e) => Err(e),
                }
            },
        }
    }
}

/// A direct deposit into the pool: the new ledger and the amount deposited.
pub fn direct_pool_deposit(whitelisted: bool, l: PoolLedger) -> (r: Result<(PoolLedger, U256), OmxError>)
    ensures
        lav(r) == direct_pool_deposit_spec(whitelisted, l@),
{
    validate(whitelisted, VaultError::TokenNotWhitelisted)?;
    let (l1, received) = l.transfer_in()?;
    validate(u256_lt(U256::zero(), received), VaultError::ZeroAmount)?;
    let l2 = l1.increase_pool_amount(received)?;
    Ok((l2, received))
}

/// Only the vault's own core contracts may move its tokens and pools.
pub fn only_core(sender: Address, core: &Vec<Address>) -> (r: Result<(), OmxError>)
    ensures
        r is Ok <==> core@.contains(sender),
        r is Err ==> r == Err::<(), OmxError>(OmxError::Vault(VaultError::Forbidden)),
{
    let mut i: usize = 0;
    while i < core.len()
        invariant
            i <= core.len(),
            forall|j: int| 0 <= j < i ==> core@[j] != sender,
        decreases core.len() - i,
    {
        if core[i] == sender {
            return Ok(());
        }
        i = i + 1;
    }
    Err(OmxError::Vault(VaultError::Forbidden))
}

/// How the vault treats one token.
#[derive(Clone, Copy, Debug)]
pub struct TokenConfig {
    pub whitelisted: bool,
    pub decimals: u8,
    pub weight: U256,
    pub min_profit_basis_points: U256,
    pub is_stable: bool,
    pub is_shortable: bool,
}

/// The vault's list of tokens: how many are whitelisted, the sum of their
/// weights, and every token ever whitelisted, in order.
pub struct TokenRegistry {
    pub whitelisted_token_count: U256,
    pub total_token_weights: U256,
    pub all_whitelisted_tokens: Vec<Address>,
}

pub struct TokenRegistryV {
    pub whitelisted_token_count: nat,
    pub total_token_weights: nat,
    pub all_whitelisted_tokens: Seq<Address>,
}

impl View for TokenRegistry {
    type V = TokenRegistryV;

    open spec fn view(&self) -> TokenRegistryV {
        TokenRegistryV {
            whitelisted_token_count: self.whitelisted_token_count@,
            total_token_weights: self.total_token_weights@,
            all_whitelisted_tokens: self.all_whitelisted_tokens@,
        }
    }
}

impl TokenRegistry {
    /// `all_whitelisted_tokens_length`: how many tokens were ever whitelisted.
    pub fn all_whitelisted_tokens_length(&self) -> (r: U256)
        ensures
            r@ == self@.all_whitelisted_tokens.len(),
    {
        U256::from_u64(self.all_whitelisted_tokens.len() as u64)
    }

    /// `all_whitelisted_tokens`: the token listed at `index`, or the zero
    /// address past the end of the list.
    pub fn all_whitelisted_tokens(&self, index: u64) -> (r: Address)
        ensures
            index < self@.all_whitelisted_tokens.len() ==> r == self@.all_whitelisted_tokens[index as int],
            index >= self@.all_whitelisted_tokens.len() ==> r.is_zero_spec(),
    {
        let len = self.all_whitelisted_tokens.len() as u64;
        if index < len {
            self.all_whitelisted_tokens[index as usize]
        } else {
            Address::zero()
        }
    }
}

/// `set_token_config`: a token seen for the first time is counted and
/// listed; its weight replaces the one it had in the total.
pub open spec fn set_token_config_spec(
    reg: TokenRegistryV,
    current: TokenConfig,
    token: Address,
    weight: nat,
) -> Result<TokenRegistryV, OmxError> {
    let count = if current.whitelisted {
        reg.whitelisted_token_count
    } else {
        reg.whitelisted_token_count + 1
    };
    if count > u256_max() {
        Err(OmxError::Math(MathError::AddOverflow))
    } else if reg.total_token_weights < current.weight@ {
        Err(OmxError::Math(MathError::SubUnderflow))
    } else if reg.total_token_weights - current.weight@ + weight > u256_max() {
        Err(OmxError::Math(MathError::AddOverflow))
    } else {
        Ok(
            TokenRegistryV {
                whitelisted_token_count: count,
                total_token_weights: (reg.total_token_weights - current.weight@ + weight) as nat,
                all_whitelisted_tokens: if current.whitelisted {
                    reg.all_whitelisted_tokens
                } else {
                    reg.all_whitelisted_tokens.push(token)
                },
            },
        )
    }
}

/// Configuring a token (governor only): updates the registry and returns the token's
/// new configuration. The price feed is asked for the token's price
/// afterwards, and the whole call fails if it cannot give one.
pub fn set_token_config(
    sender: Address,
    gov: Address,
    reg: &mut TokenRegistry,
    current: TokenConfig,
    token: Address,
    decimals: u8,
    weight: U256,
    min_profit_basis_points: U256,
    is_stable: bool,
    is_shortable: bool,
) -> (r: Result<TokenConfig, OmxError>)
    ensures
        sender != gov ==> r == Err::<TokenConfig, OmxError>(OmxError::Vault(VaultError::Forbidden))
            && final(reg)@ == old(reg)@,
        sender == gov ==> match set_token_config_spec(old(reg)@, current, token, weight@) {
            Ok(v) => final(reg)@ == v && r == Ok::<TokenConfig, OmxError>(
                TokenConfig {
                    whitelisted: true,
                    decimals,
                    weight,
                    min_profit_basis_points,
                    is_stable,
                    is_shortable,
                },
            ),
            Err(e) => final(reg)@ == old(reg)@ && r == Err::<TokenConfig, OmxError>(e),
        },
{
    validate(sender == gov, VaultError::Forbidden)?;
    let count = if current.whitelisted {
        reg.whitelisted_token_count
    } else {
        safe_add(reg.whitelisted_token_count, U256::from_u64(1))?
    };
    let remaining = safe_sub(reg.total_token_weights, current.weight)?;
    let total = safe_add(remaining, weight)?;
    if !current.whitelisted {
        reg.all_whitelisted_tokens.push(token);
    }
    reg.whitelisted_token_count = count;
    reg.total_token_weights = total;
    Ok(
        TokenConfig {
            whitelisted: true,
            decimals,
            weight,
            min_profit_basis_points,
            is_stable,
            is_shortable,
        },
    )
}

/// `clear_token_config`: the token's weight leaves the total and it is no
/// longer counted; it stays in the list of tokens ever whitelisted.
pub open spec fn clear_token_config_spec(reg: TokenRegistryV, current: TokenConfig) -> Result<
    TokenRegistryV,
    OmxError,
> {
    if !current.whitelisted {
        Err(OmxError::Vault(VaultError::TokenNotWhitelisted))
    } else if reg.total_token_weights < current.weight@ || reg.whitelisted_token_count < 1 {
        Err(OmxError::Math(MathError::SubUnderflow))
    } else {
        Ok(
            TokenRegistryV {
                whitelisted_token_count: (reg.whitelisted_token_count - 1) as nat,
                total_token_weights: (reg.total_token_weights - current.weight@) as nat,
                all_whitelisted_tokens: reg.all_whitelisted_tokens,
            },
        )
    }
}

/// The configuration of a token that is not whitelisted: all fields cleared.
pub open spec fn cleared_config() -> TokenConfig {
    TokenConfig {
        whitelisted: false,
        decimals: 0,
        weight: U256::zero_word(),
        min_profit_basis_points: U256::zero_word(),
        is_stable: false,
        is_shortable: false,
    }
}

/// Clearing a token's configuration (governor only): updates the registry and returns the
/// token's cleared configuration.
pub fn clear_token_config(sender: Address, gov: Address, reg: &mut TokenRegistry, current: TokenConfig) -> (r:
    Result<TokenConfig, OmxError>)
    ensures
        sender != gov ==> r == Err::<TokenConfig, OmxError>(OmxError::Vault(VaultError::Forbidden))
            && final(reg)@ == old(reg)@,
        sender == gov ==> match clear_token_config_spec(old(reg)@, current) {
            Ok(v) => final(reg)@ == v && r == Ok::<TokenConfig, OmxError>(cleared_config()),
            Err(e) => final(reg)@ == old(reg)@ && r == Err::<TokenConfig, OmxError>(e),
        },
{
    validate(sender == gov, VaultError::Forbidden)?;
    validate(current.whitelisted, VaultError::TokenNotWhitelisted)?;
    let total = safe_sub(reg.total_token_weights, current.weight)?;
    let count = safe_sub(reg.whitelisted_token_count, U256::from_u64(1))?;
    reg.total_token_weights = total;
    reg.whitelisted_token_count = count;
    Ok(
        TokenConfig {
            whitelisted: false,
            decimals: 0,
            weight: U256::zero(),
            min_profit_basis_points: U256::zero(),
            is_stable: false,
            is_shortable: false,
        },
    )
}

/// Whitelisting a new token with some weight and clearing it again gives
/// back the count and the total weight; the token stays listed.
pub proof fn lemma_set_then_clear_token(
    reg: TokenRegistryV,
    token: Address,
    before: TokenConfig,
    after: TokenConfig,
)
    requires
        !before.whitelisted,
        before.weight@ == 0,
        after.whitelisted,
        set_token_config_spec(reg, before, token, after.weight@) is Ok,
    ensures
        ({
            let set = set_token_config_spec(reg, before, token, after.weight@).unwrap();
            match clear_token_config_spec(set, after) {
                Ok(back) => back.whitelisted_token_count == reg.whitelisted_token_count
                    && back.total_token_weights == reg.total_token_weights
                    && back.all_whitelisted_tokens == reg.all_whitelisted_tokens.push(token),
                Err(_) => false,
            }
        }),
{
}

} // verus!
