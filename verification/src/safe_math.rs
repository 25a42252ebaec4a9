//! Checked arithmetic on `U256` values, reporting failures as errors.

use vstd::prelude::*;
use crate::errors::{MathError, MulRatioError, OmxError, SafeSubToIntError};
use crate::uint::{
    base256, base512, i256_checked_neg, i256_is_negative, i256_max, i256_try_from_u256,
    i256_unsigned_abs, u256_abs_diff, u256_checked_add, u256_checked_div, u256_checked_mul,
    u256_checked_sub, u256_from_u512, u256_lt, u256_max, u512_checked_div, u512_checked_mul,
    u512_from_u256, u512_lt, I256, U256,
};

verus! {

/// The value carried by an arithmetic result, as a natural number.
pub open spec fn rv(r: Result<U256, OmxError>) -> Result<nat, OmxError> {
    match r {
        Ok(v) => Ok(v@),
        Err(e) => Err(e),
    }
}

/// The value carried by a signed arithmetic result, as an integer.
pub open spec fn riv(r: Result<I256, OmxError>) -> Result<int, OmxError> {
    match r {
        Ok(v) => Ok(v@),
        Err(e) => Err(e),
    }
}

/// `a + b`, or `Add: overflow` when the sum does not fit in 256 bits.
pub open spec fn add_spec(a: nat, b: nat) -> Result<nat, OmxError> {
    if a + b <= u256_max() {
        Ok(a + b)
    } else {
        Err(OmxError::Math(MathError::AddOverflow))
    }
}

/// `a - b`, or `Sub: underflow` when `b > a`.
pub open spec fn sub_spec(a: nat, b: nat) -> Result<nat, OmxError> {
    if b <= a {
        Ok((a - b) as nat)
    } else {
        Err(OmxError::Math(MathError::SubUnderflow))
    }
}

/// `a * b`, or `Mul: overflow` when the product does not fit in 256 bits.
pub open spec fn mul_spec(a: nat, b: nat) -> Result<nat, OmxError> {
    if a * b <= u256_max() {
        Ok(a * b)
    } else {
        Err(OmxError::Math(MathError::MulOverflow))
    }
}

/// `a / b` rounded down, or `Div: divide by zero`.
pub open spec fn div_spec(a: nat, b: nat) -> Result<nat, OmxError> {
    if b != 0 {
        Ok(a / b)
    } else {
        Err(OmxError::Math(MathError::DivByZero))
    }
}

/// `floor(a * b / c)` computed without intermediate overflow; fails when `c == 0`
/// or when the quotient does not fit in 256 bits.
pub open spec fn mul_ratio_spec(a: nat, b: nat, c: nat) -> Result<nat, OmxError> {
    if c == 0 {
        Err(OmxError::MulRatio(MulRatioError::DivideByZero))
    } else if a * b / c > u256_max() {
        Err(OmxError::MulRatio(MulRatioError::ResultOverflow))
    } else {
        Ok(a * b / c)
    }
}

/// `a + b` for a signed `b`: a subtraction of `|b|` when `b` is negative.
pub open spec fn add_int_spec(a: nat, b: int) -> Result<nat, OmxError> {
    if b < 0 {
        sub_spec(a, (-b) as nat)
    } else {
        add_spec(a, b as nat)
    }
}

/// `a - b` as a signed value, failing when `|a - b|` exceeds the I256 maximum.
pub open spec fn sub_to_int_spec(a: nat, b: nat) -> Result<int, OmxError> {
    let d: int = a - b;
    if d > i256_max() || -d > i256_max() {
        Err(OmxError::SubToInt(SafeSubToIntError::ToIntOverflow))
    } else {
        Ok(d)
    }
}

proof fn lemma_product_fits_512(a: nat, b: nat)
    requires
        a <= u256_max(),
        b <= u256_max(),
    ensures
        a * b < base512(),
{
    assert(a * b < base512()) by (nonlinear_arith)
        requires
            a <= u256_max(),
            b <= u256_max(),
            u256_max() + 1 == base256(),
            base512() == base256() * base256(),
    {}
}

/// `floor(a * b / c)`, computed in 512 bits.
pub fn safe_mul_ratio(a: U256, b: U256, c: U256) -> (r: Result<U256, OmxError>)
    ensures
        rv(r) == mul_ratio_spec(a@, b@, c@),
{
    proof {
        a.lemma_bound();
        b.lemma_bound();
        lemma_product_fits_512(a@, b@);
    }
    let product = match u512_checked_mul(u512_from_u256(a), u512_from_u256(b)) {
        Some(p) => p,
        None => return Err(OmxError::MulRatio(MulRatioError::MultiplyOverflow)),
    };
    let res = match u512_checked_div(product, u512_from_u256(c)) {
        Some(q) => q,
        None => return Err(OmxError::MulRatio(MulRatioError::DivideByZero)),
    };
    let max = U256 { limbs: [u64::MAX, u64::MAX, u64::MAX, u64::MAX] };
    if u512_lt(u512_from_u256(max), res) {
        return Err(OmxError::MulRatio(MulRatioError::ResultOverflow));
    }
    Ok(u256_from_u512(res))
}

/// `a * b`, failing with `Mul: overflow`.
pub fn safe_mul(a: U256, b: U256) -> (r: Result<U256, OmxError>)
    ensures
        rv(r) == mul_spec(a@, b@),
{
    match u256_checked_mul(a, b) {
        Some(v) => Ok(v),
        None => Err(OmxError::Math(MathError::MulOverflow)),
    }
}

/// `a / b`, failing with `Div: divide by zero`.
pub fn safe_div(a: U256, b: U256) -> (r: Result<U256, OmxError>)
    ensures
        rv(r) == div_spec(a@, b@),
{
    match u256_checked_div(a, b) {
        Some(v) => Ok(v),
        None => Err(OmxError::Math(MathError::DivByZero)),
    }
}

/// `a + b`, failing with `Add: overflow`.
pub fn safe_add(a: U256, b: U256) -> (r: Result<U256, OmxError>)
    ensures
        rv(r) == add_spec(a@, b@),
{
    match u256_checked_add(a, b) {
        Some(v) => Ok(v),
        None => Err(OmxError::Math(MathError::AddOverflow)),
    }
}

/// `a - b`, failing with `Sub: underflow`.
pub fn safe_sub(a: U256, b: U256) -> (r: Result<U256, OmxError>)
    ensures
        rv(r) == sub_spec(a@, b@),
{
    match u256_checked_sub(a, b) {
        Some(v) => Ok(v),
        None => Err(OmxError::Math(MathError::SubUnderflow)),
    }
}

/// `a + b` for a signed `b`.
pub fn safe_add_int(a: U256, b: I256) -> (r: Result<U256, OmxError>)
    ensures
        rv(r) == add_int_spec(a@, b@),
{
    if i256_is_negative(b) {
        safe_sub(a, i256_unsigned_abs(b))
    } else {
        safe_add(a, i256_unsigned_abs(b))
    }
}

/// `a - b` as a signed 256-bit integer.
pub fn safe_sub_to_int(a: U256, b: U256) -> (r: Result<I256, OmxError>)
    ensures
        riv(r) == sub_to_int_spec(a@, b@),
{
    let dif = match i256_try_from_u256(u256_abs_diff(a, b)) {
        Some(d) => d,
        None => return Err(OmxError::SubToInt(SafeSubToIntError::ToIntOverflow)),
    };
    if u256_lt(b, a) {
        Ok(dif)
    } else {
        match i256_checked_neg(dif) {
            Some(n) => Ok(n),
            None => Err(OmxError::SubToInt(SafeSubToIntError::NegativeOverflow)),
        }
    }
}

} // verus!
