//! Fixed-width integers of the EVM world: `U256`, `U512` and `I256`,
//! held as little-endian 64-bit limbs, with their arithmetic delegated
//! to `ruint` / `alloy-primitives`.

use vstd::prelude::*;

verus! {

/// 2^64
pub open spec fn base64() -> nat {
    18446744073709551616nat
}

/// 2^128
pub open spec fn base128() -> nat {
    340282366920938463463374607431768211456nat
}

/// 2^192
pub open spec fn base192() -> nat {
    6277101735386680763835789423207666416102355444464034512896nat
}

/// 2^256
pub open spec fn base256() -> nat {
    115792089237316195423570985008687907853269984665640564039457584007913129639936nat
}

/// The largest value of a `U256`, 2^256 - 1.
pub open spec fn u256_max() -> nat {
    115792089237316195423570985008687907853269984665640564039457584007913129639935nat
}

/// An unsigned 256-bit integer, little-endian limbs.
#[derive(Clone, Copy, Debug, PartialEq, Eq)]
pub struct U256 {
    pub limbs: [u64; 4],
}

pub open spec fn limbs4_value(l0: u64, l1: u64, l2: u64, l3: u64) -> nat {
    (l0 as nat) + (l1 as nat) * base64() + (l2 as nat) * base128() + (l3 as nat) * base192()
}

impl View for U256 {
    type V = nat;

    open spec fn view(&self) -> nat {
        limbs4_value(self.limbs[0], self.limbs[1], self.limbs[2], self.limbs[3])
    }
}

pub proof fn lemma_limbs4_bound(l0: u64, l1: u64, l2: u64, l3: u64)
    ensures
        limbs4_value(l0, l1, l2, l3) <= u256_max(),
{
    assert(limbs4_value(l0, l1, l2, l3) <= u256_max()) by (nonlinear_arith)
        requires
            l0 <= 18446744073709551615u64,
            l1 <= 18446744073709551615u64,
            l2 <= 18446744073709551615u64,
            l3 <= 18446744073709551615u64,
    {}
}

impl U256 {
    /// Every `U256` lies in `0..=u256_max()`.
    pub proof fn lemma_bound(self)
        ensures
            self@ <= u256_max(),
    {
        lemma_limbs4_bound(self.limbs[0], self.limbs[1], self.limbs[2], self.limbs[3]);
    }

    pub open spec fn zero_word() -> U256 {
        U256 { limbs: [0, 0, 0, 0] }
    }

    pub fn zero() -> (r: U256)
        ensures
            r@ == 0,
            r == U256::zero_word(),
    {
        U256 { limbs: [0, 0, 0, 0] }
    }

    pub fn from_u64(x: u64) -> (r: U256)
        ensures
            r@ == x,
    {
        U256 { limbs: [x, 0, 0, 0] }
    }
}

/// 2^255, the first value whose top bit is set.
pub open spec fn base255() -> nat {
    57896044618658097711785492504343953926634992332820282019728792003956564819968nat
}

/// 2^512
pub open spec fn base512() -> nat {
    base256() * base256()
}

/// An unsigned 512-bit integer, little-endian limbs.
#[derive(Clone, Copy, Debug, PartialEq, Eq)]
pub struct U512 {
    pub limbs: [u64; 8],
}

impl View for U512 {
    type V = nat;

    open spec fn view(&self) -> nat {
        limbs4_value(self.limbs[0], self.limbs[1], self.limbs[2], self.limbs[3])
            + limbs4_value(self.limbs[4], self.limbs[5], self.limbs[6], self.limbs[7]) * base256()
    }
}

/// A signed 256-bit integer in two's complement, as `alloy_primitives::I256`.
#[derive(Clone, Copy, Debug, PartialEq, Eq)]
pub struct I256 {
    pub limbs: [u64; 4],
}

/// The integer that a two's-complement bit pattern with unsigned value `u` stands for.
pub open spec fn twos_value(u: nat) -> int {
    if u >= base255() {
        u - base256()
    } else {
        u as int
    }
}

/// The largest `I256`, 2^255 - 1.
pub open spec fn i256_max() -> int {
    base255() - 1
}

/// The smallest `I256`, -2^255.
pub open spec fn i256_min() -> int {
    -(base255() as int)
}

impl View for I256 {
    type V = int;

    open spec fn view(&self) -> int {
        twos_value(limbs4_value(self.limbs[0], self.limbs[1], self.limbs[2], self.limbs[3]))
    }
}

impl I256 {
    /// Every `I256` lies in `i256_min()..=i256_max()`.
    pub proof fn lemma_bound(self)
        ensures
            i256_min() <= self@ <= i256_max(),
    {
        lemma_limbs4_bound(self.limbs[0], self.limbs[1], self.limbs[2], self.limbs[3]);
    }

    pub fn zero() -> (r: I256)
        ensures
            r@ == 0,
    {
        I256 { limbs: [0, 0, 0, 0] }
    }
}

// ---------------------------------------------------------------------------
// U256 arithmetic, delegated to `ruint`.
// ---------------------------------------------------------------------------

/// `ruint::Uint::checked_add`: `None` exactly when the sum exceeds 2^256 - 1.
#[verifier::external_body]
pub(crate) fn u256_checked_add(a: U256, b: U256) -> (r: Option<U256>)
    ensures
        r is Some <==> a@ + b@ <= u256_max(),
        r matches Some(v) ==> v@ == a@ + b@,
{
    let x = ruint::aliases::U256::from_limbs(a.limbs);
    match x.checked_add(ruint::aliases::U256::from_limbs(b.limbs)) {
        Some(v) => Some(U256 { limbs: v.into_limbs() }),
        None => None,
    }
}

/// `ruint::Uint::checked_sub`: `None` exactly when `b > a`.
#[verifier::external_body]
pub(crate) fn u256_checked_sub(a: U256, b: U256) -> (r: Option<U256>)
    ensures
        r is Some <==> b@ <= a@,
        r matches Some(v) ==> v@ == a@ - b@,
{
    let x = ruint::aliases::U256::from_limbs(a.limbs);
    match x.checked_sub(ruint::aliases::U256::from_limbs(b.limbs)) {
        Some(v) => Some(U256 { limbs: v.into_limbs() }),
        None => None,
    }
}

/// `ruint::Uint::checked_mul`: `None` exactly when the product exceeds 2^256 - 1.
#[verifier::external_body]
pub(crate) fn u256_checked_mul(a: U256, b: U256) -> (r: Option<U256>)
    ensures
        r is Some <==> a@ * b@ <= u256_max(),
        r matches Some(v) ==> v@ == a@ * b@,
{
    let x = ruint::aliases::U256::from_limbs(a.limbs);
    match x.checked_mul(ruint::aliases::U256::from_limbs(b.limbs)) {
        Some(v) => Some(U256 { limbs: v.into_limbs() }),
        None => None,
    }
}

/// `ruint::Uint::checked_div`: `None` exactly when `b == 0`, else the floor quotient.
#[verifier::external_body]
pub(crate) fn u256_checked_div(a: U256, b: U256) -> (r: Option<U256>)
    ensures
        r is Some <==> b@ != 0,
        r matches Some(v) ==> v@ == a@ / b@,
{
    let x = ruint::aliases::U256::from_limbs(a.limbs);
    match x.checked_div(ruint::aliases::U256::from_limbs(b.limbs)) {
        Some(v) => Some(U256 { limbs: v.into_limbs() }),
        None => None,
    }
}

/// The `+` operator of `ruint::Uint`, which wraps modulo 2^256.
#[verifier::external_body]
pub(crate) fn u256_wrapping_add(a: U256, b: U256) -> (r: U256)
    ensures
        r@ == (a@ + b@) % base256(),
{
    let v = ruint::aliases::U256::from_limbs(a.limbs) + ruint::aliases::U256::from_limbs(b.limbs);
    U256 { limbs: v.into_limbs() }
}

/// The `-` operator of `ruint::Uint`, which wraps modulo 2^256.
#[verifier::external_body]
pub(crate) fn u256_wrapping_sub(a: U256, b: U256) -> (r: U256)
    ensures
        r@ == (a@ - b@) % (base256() as int),
{
    let v = ruint::aliases::U256::from_limbs(a.limbs) - ruint::aliases::U256::from_limbs(b.limbs);
    U256 { limbs: v.into_limbs() }
}

/// The `<` operator of `ruint::Uint`.
#[verifier::external_body]
pub(crate) fn u256_lt(a: U256, b: U256) -> (r: bool)
    ensures
        r == (a@ < b@),
{
    ruint::aliases::U256::from_limbs(a.limbs) < ruint::aliases::U256::from_limbs(b.limbs)
}

/// The `==` operator of `ruint::Uint`.
#[verifier::external_body]
pub(crate) fn u256_eq(a: U256, b: U256) -> (r: bool)
    ensures
        r == (a@ == b@),
{
    ruint::aliases::U256::from_limbs(a.limbs) == ruint::aliases::U256::from_limbs(b.limbs)
}

/// `ruint::Uint::abs_diff`: `|a - b|`.
#[verifier::external_body]
pub(crate) fn u256_abs_diff(a: U256, b: U256) -> (r: U256)
    ensures
        r@ == (if a@ < b@ { b@ - a@ } else { a@ - b@ }),
{
    let x = ruint::aliases::U256::from_limbs(a.limbs);
    U256 { limbs: x.abs_diff(ruint::aliases::U256::from_limbs(b.limbs)).into_limbs() }
}

/// `ruint::Uint::pow`, which wraps modulo 2^256.
#[verifier::external_body]
pub(crate) fn u256_pow(base: U256, exp: U256) -> (r: U256)
    ensures
        r@ == vstd::arithmetic::power::pow(base@ as int, exp@) % (base256() as int),
{
    let x = ruint::aliases::U256::from_limbs(base.limbs);
    U256 { limbs: x.pow(ruint::aliases::U256::from_limbs(exp.limbs)).into_limbs() }
}

// ---------------------------------------------------------------------------
// U512, used for the full-width product of two U256 values.
// ---------------------------------------------------------------------------

/// `ruint::Uint::<512, 8>::from` a `U256`: the same value, widened.
#[verifier::external_body]
pub(crate) fn u512_from_u256(a: U256) -> (r: U512)
    ensures
        r@ == a@,
{
    let v = ruint::aliases::U512::from(ruint::aliases::U256::from_limbs(a.limbs));
    U512 { limbs: v.into_limbs() }
}

/// `ruint::Uint::<256, 4>::from` a `U512` whose value fits in 256 bits.
#[verifier::external_body]
pub(crate) fn u256_from_u512(a: U512) -> (r: U256)
    requires
        a@ <= u256_max(),
    ensures
        r@ == a@,
{
    let v = ruint::aliases::U256::from(ruint::aliases::U512::from_limbs(a.limbs));
    U256 { limbs: v.into_limbs() }
}

/// `ruint::Uint::<512, 8>::checked_mul`.
#[verifier::external_body]
pub(crate) fn u512_checked_mul(a: U512, b: U512) -> (r: Option<U512>)
    ensures
        r is Some <==> a@ * b@ < base512(),
        r matches Some(v) ==> v@ == a@ * b@,
{
    let x = ruint::aliases::U512::from_limbs(a.limbs);
    match x.checked_mul(ruint::aliases::U512::from_limbs(b.limbs)) {
        Some(v) => Some(U512 { limbs: v.into_limbs() }),
        None => None,
    }
}

/// `ruint::Uint::<512, 8>::checked_div`.
#[verifier::external_body]
pub(crate) fn u512_checked_div(a: U512, b: U512) -> (r: Option<U512>)
    ensures
        r is Some <==> b@ != 0,
        r matches Some(v) ==> v@ == a@ / b@,
{
    let x = ruint::aliases::U512::from_limbs(a.limbs);
    match x.checked_div(ruint::aliases::U512::from_limbs(b.limbs)) {
        Some(v) => Some(U512 { limbs: v.into_limbs() }),
        None => None,
    }
}

/// The `<` operator of `ruint::Uint::<512, 8>`.
#[verifier::external_body]
pub(crate) fn u512_lt(a: U512, b: U512) -> (r: bool)
    ensures
        r == (a@ < b@),
{
    ruint::aliases::U512::from_limbs(a.limbs) < ruint::aliases::U512::from_limbs(b.limbs)
}

// ---------------------------------------------------------------------------
// I256 arithmetic, delegated to `alloy_primitives::Signed`.
// ---------------------------------------------------------------------------

/// `alloy_primitives::I256::checked_add`: `None` exactly when the sum leaves the I256 range.
#[verifier::external_body]
pub(crate) fn i256_checked_add(a: I256, b: I256) -> (r: Option<I256>)
    ensures
        r is Some <==> i256_min() <= a@ + b@ <= i256_max(),
        r matches Some(v) ==> v@ == a@ + b@,
{
    let x = alloy_primitives::I256::from_raw(ruint::aliases::U256::from_limbs(a.limbs));
    let y = alloy_primitives::I256::from_raw(ruint::aliases::U256::from_limbs(b.limbs));
    match x.checked_add(y) {
        Some(v) => Some(I256 { limbs: v.into_raw().into_limbs() }),
        None => None,
    }
}

/// `alloy_primitives::I256::checked_sub`: `None` exactly when the difference leaves the I256 range.
#[verifier::external_body]
pub(crate) fn i256_checked_sub(a: I256, b: I256) -> (r: Option<I256>)
    ensures
        r is Some <==> i256_min() <= a@ - b@ <= i256_max(),
        r matches Some(v) ==> v@ == a@ - b@,
{
    let x = alloy_primitives::I256::from_raw(ruint::aliases::U256::from_limbs(a.limbs));
    let y = alloy_primitives::I256::from_raw(ruint::aliases::U256::from_limbs(b.limbs));
    match x.checked_sub(y) {
        Some(v) => Some(I256 { limbs: v.into_raw().into_limbs() }),
        None => None,
    }
}

/// `alloy_primitives::I256::checked_neg`: `None` exactly for the minimum value.
#[verifier::external_body]
pub(crate) fn i256_checked_neg(a: I256) -> (r: Option<I256>)
    ensures
        r is Some <==> a@ != i256_min(),
        r matches Some(v) ==> v@ == -a@,
{
    let x = alloy_primitives::I256::from_raw(ruint::aliases::U256::from_limbs(a.limbs));
    match x.checked_neg() {
        Some(v) => Some(I256 { limbs: v.into_raw().into_limbs() }),
        None => None,
    }
}

/// `TryFrom<U256> for I256`: fails exactly when the value has its top bit set.
#[verifier::external_body]
pub(crate) fn i256_try_from_u256(a: U256) -> (r: Option<I256>)
    ensures
        r is Some <==> a@ <= i256_max(),
        r matches Some(v) ==> v@ == a@,
{
    match alloy_primitives::I256::try_from(ruint::aliases::U256::from_limbs(a.limbs)) {
        Ok(v) => Some(I256 { limbs: v.into_raw().into_limbs() }),
        Err(_) => None,
    }
}

/// `alloy_primitives::I256::unsigned_abs`: the magnitude as a `U256`.
#[verifier::external_body]
pub(crate) fn i256_unsigned_abs(a: I256) -> (r: U256)
    ensures
        r@ == (if a@ < 0 { -a@ } else { a@ }),
{
    let x = alloy_primitives::I256::from_raw(ruint::aliases::U256::from_limbs(a.limbs));
    U256 { limbs: x.unsigned_abs().into_limbs() }
}

/// `alloy_primitives::I256::is_negative`.
#[verifier::external_body]
pub(crate) fn i256_is_negative(a: I256) -> (r: bool)
    ensures
        r == (a@ < 0),
{
    alloy_primitives::I256::from_raw(ruint::aliases::U256::from_limbs(a.limbs)).is_negative()
}

/// `alloy_primitives::I256::is_positive`.
#[verifier::external_body]
pub(crate) fn i256_is_positive(a: I256) -> (r: bool)
    ensures
        r == (a@ > 0),
{
    alloy_primitives::I256::from_raw(ruint::aliases::U256::from_limbs(a.limbs)).is_positive()
}

/// The `==` operator of `alloy_primitives::I256`.
#[verifier::external_body]
pub(crate) fn i256_eq(a: I256, b: I256) -> (r: bool)
    ensures
        r == (a@ == b@),
{
    alloy_primitives::I256::from_raw(ruint::aliases::U256::from_limbs(a.limbs))
        == alloy_primitives::I256::from_raw(ruint::aliases::U256::from_limbs(b.limbs))
}

} // verus!
