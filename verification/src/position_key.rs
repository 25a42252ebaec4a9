//! The storage key of a position: the Keccak-256 hash of the account, the
//! collateral token and the index token written as lowercase hex, followed
//! by one byte for the side (1 for a long, 0 for a short).

use vstd::prelude::*;
use crate::address::Address;

verus! {

/// 256^n
pub open spec fn pow256(n: nat) -> nat
    decreases n,
{
    if n == 0 {
        1
    } else {
        256 * pow256((n - 1) as nat)
    }
}

/// The `n` bytes of `x`, most significant first.
pub open spec fn be_bytes(x: nat, n: nat) -> Seq<u8> {
    Seq::new(n, |k: int| ((x / pow256((n - 1 - k) as nat)) % 256) as u8)
}

/// The 20 bytes of an address, most significant first.
pub open spec fn address_bytes_spec(a: Address) -> Seq<u8> {
    be_bytes(a.hi as nat, 4) + be_bytes(a.mid as nat, 8) + be_bytes(a.lo as nat, 8)
}

/// The ASCII code of the lowercase hex digit for `n < 16`.
pub open spec fn hex_digit(n: nat) -> u8 {
    if n < 10 {
        (48 + n) as u8
    } else {
        (87 + n) as u8
    }
}

/// Bytes written as lowercase hex, two digits per byte.
pub open spec fn hex_spec(bytes: Seq<u8>) -> Seq<u8> {
    Seq::new(
        2 * bytes.len(),
        |i: int|
            if i % 2 == 0 {
                hex_digit((bytes[i / 2] / 16) as nat)
            } else {
                hex_digit((bytes[i / 2] % 16) as nat)
            },
    )
}

/// What is hashed into a position's key.
pub open spec fn position_key_data_spec(
    account: Address,
    collateral_token: Address,
    index_token: Address,
    is_long: bool,
) -> Seq<u8> {
    hex_spec(address_bytes_spec(account)) + hex_spec(address_bytes_spec(collateral_token)) + hex_spec(
        address_bytes_spec(index_token),
    ) + seq![if is_long { 1u8 } else { 0u8 }]
}

/// The Keccak-256 hash of `data`, as `alloy_primitives::keccak256` computes it.
pub uninterp spec fn keccak256_spec(data: Seq<u8>) -> Seq<u8>;

/// `alloy_primitives::keccak256`: the 32-byte Keccak-256 digest of `data`,
/// a function of the bytes alone; nothing more is claimed of it here.
#[verifier::external_body]
fn keccak256(data: &Vec<u8>) -> (r: [u8; 32])
    ensures
        r@ == keccak256_spec(data@),
{
    alloy_primitives::keccak256(data.as_slice()).0
}

/// Appends the `n` bytes of `x`, most significant first.
fn push_be_bytes(out: &mut Vec<u8>, x: u64, n: usize)
    requires
        1 <= n <= 8,
        (x as nat) < pow256(n as nat),
    ensures
        final(out)@ == old(out)@ + be_bytes(x as nat, n as nat),
{
    let ghost start = out@;
    let mut digits: Vec<u8> = Vec::new();
    let mut y: u64 = x;
    let mut j: usize = 0;
    proof {
        assert(pow256(0) == 1);
        vstd::arithmetic::div_mod::lemma_div_basics(x as int);
    }
    // `digits` holds the low `j` bytes, least significant first.
    while j < n
        invariant
            j <= n,
            1 <= n <= 8,
            y as nat == x as nat / pow256(j as nat),
            digits@.len() == j,
            forall|k: int|
                0 <= k < j ==> #[trigger] digits@[k] == ((x as nat / pow256(k as nat)) % 256) as u8,
        decreases n - j,
    {
        proof {
            assert(pow256(j as nat) > 0) by {
                lemma_pow256_positive(j as nat);
            }
            assert(pow256((j + 1) as nat) == pow256(j as nat) * 256);
            vstd::arithmetic::div_mod::lemma_div_denominator(
                x as int,
                pow256(j as nat) as int,
                256,
            );
        }
        digits.push((y % 256) as u8);
        y = y / 256;
        j = j + 1;
    }
    let mut k: usize = n;
    while k > 0
        invariant
            k <= n,
            n == digits@.len(),
            forall|m: int|
                0 <= m < n ==> #[trigger] digits@[m] == ((x as nat / pow256(m as nat)) % 256) as u8,
            out@ == start + be_bytes(x as nat, n as nat).subrange(0, (n - k) as int),
        decreases k,
    {
        k = k - 1;
        out.push(digits[k]);
        proof {
            assert(out@ =~= start + be_bytes(x as nat, n as nat).subrange(0, (n - k) as int));
        }
    }
    assert(be_bytes(x as nat, n as nat).subrange(0, n as int) =~= be_bytes(x as nat, n as nat));
}

proof fn lemma_pow256_positive(n: nat)
    ensures
        pow256(n) > 0,
    decreases n,
{
    if n > 0 {
        lemma_pow256_positive((n - 1) as nat);
    }
}

/// The 20 bytes of an address, most significant first.
pub fn address_bytes(a: Address) -> (r: Vec<u8>)
    ensures
        r@ == address_bytes_spec(a),
{
    proof {
        reveal_with_fuel(pow256, 9);
    }
    let mut r: Vec<u8> = Vec::new();
    push_be_bytes(&mut r, a.hi as u64, 4);
    push_be_bytes(&mut r, a.mid, 8);
    push_be_bytes(&mut r, a.lo, 8);
    assert(r@ =~= address_bytes_spec(a));
    r
}

fn hex_char(n: u8) -> (r: u8)
    requires
        n < 16,
    ensures
        r == hex_digit(n as nat),
{
    if n < 10 {
        48 + n
    } else {
        87 + n
    }
}

/// Appends `bytes` written as lowercase hex.
fn push_hex(out: &mut Vec<u8>, bytes: &Vec<u8>)
    ensures
        final(out)@ == old(out)@ + hex_spec(bytes@),
{
    let ghost start = out@;
    let mut i: usize = 0;
    while i < bytes.len()
        invariant
            i <= bytes.len(),
            out@ == start + hex_spec(bytes@).subrange(0, 2 * i),
        decreases bytes.len() - i,
    {
        let b = bytes[i];
        out.push(hex_char(b / 16));
        out.push(hex_char(b % 16));
        proof {
            assert(out@ =~= start + hex_spec(bytes@).subrange(0, 2 * (i + 1)));
        }
        i = i + 1;
    }
    assert(hex_spec(bytes@).subrange(0, 2 * bytes.len() as int) =~= hex_spec(bytes@));
}

/// What is hashed into a position's key.
pub fn position_key_data(
    account: Address,
    collateral_token: Address,
    index_token: Address,
    is_long: bool,
) -> (r: Vec<u8>)
    ensures
        r@ == position_key_data_spec(account, collateral_token, index_token, is_long),
{
    let mut data: Vec<u8> = Vec::new();
    push_hex(&mut data, &address_bytes(account));
    push_hex(&mut data, &address_bytes(collateral_token));
    push_hex(&mut data, &address_bytes(index_token));
    data.push(if is_long { 1u8 } else { 0u8 });
    assert(data@ =~= position_key_data_spec(account, collateral_token, index_token, is_long));
    data
}

/// The storage key of the position of `account` in `index_token`, backed
/// by `collateral_token`, on the given side.
pub fn get_position_key(
    account: Address,
    collateral_token: Address,
    index_token: Address,
    is_long: bool,
) -> (r: [u8; 32])
    ensures
        r@ == keccak256_spec(position_key_data_spec(account, collateral_token, index_token, is_long)),
{
    let data = position_key_data(account, collateral_token, index_token, is_long);
    keccak256(&data)
}

proof fn lemma_hex_digit_injective(a: nat, b: nat)
    requires
        a < 16,
        b < 16,
        hex_digit(a) == hex_digit(b),
    ensures
        a == b,
{
}

proof fn lemma_hex_injective(x: Seq<u8>, y: Seq<u8>)
    requires
        hex_spec(x) == hex_spec(y),
    ensures
        x == y,
{
    assert(hex_spec(x).len() == 2 * x.len());
    assert(hex_spec(y).len() == 2 * y.len());
    assert(x.len() == y.len());
    assert forall|i: int| 0 <= i < x.len() implies x[i] == y[i] by {
        let j = 2 * i;
        assert(j / 2 == i && j % 2 == 0);
        assert((j + 1) / 2 == i && (j + 1) % 2 == 1);
        assert(hex_spec(x)[j] == hex_digit((x[i] / 16) as nat));
        assert(hex_spec(y)[j] == hex_digit((y[i] / 16) as nat));
        assert(hex_spec(x)[j + 1] == hex_digit((x[i] % 16) as nat));
        assert(hex_spec(y)[j + 1] == hex_digit((y[i] % 16) as nat));
        lemma_hex_digit_injective((x[i] / 16) as nat, (y[i] / 16) as nat);
        lemma_hex_digit_injective((x[i] % 16) as nat, (y[i] % 16) as nat);
    }
    assert(x =~= y);
}

proof fn lemma_be_bytes_step(x: nat, n: nat)
    ensures
        be_bytes(x, n + 1) == be_bytes(x / 256, n).push((x % 256) as u8),
{
    assert forall|k: int| 0 <= k < n implies #[trigger] be_bytes(x, n + 1)[k] == be_bytes(x / 256, n)[k] by {
        let m = (n - 1 - k) as nat;
        assert(pow256((n - k) as nat) == 256 * pow256(m));
        lemma_pow256_positive(m);
        vstd::arithmetic::div_mod::lemma_div_denominator(x as int, 256, pow256(m) as int);
    }
    assert(pow256(0) == 1);
    assert(x / 1 == x);
    assert(((n + 1) - 1 - n) as nat == 0);
    assert(be_bytes(x, n + 1)[n as int] == (x % 256) as u8);
    assert(be_bytes(x, n + 1) =~= be_bytes(x / 256, n).push((x % 256) as u8));
}

proof fn lemma_be_bytes_injective(x: nat, y: nat, n: nat)
    requires
        x < pow256(n),
        y < pow256(n),
        be_bytes(x, n) == be_bytes(y, n),
    ensures
        x == y,
    decreases n,
{
    if n == 0 {
        assert(pow256(0) == 1);
    } else {
        let m = (n - 1) as nat;
        lemma_be_bytes_step(x, m);
        lemma_be_bytes_step(y, m);
        assert(be_bytes(x, n).drop_last() =~= be_bytes(x / 256, m));
        assert(be_bytes(y, n).drop_last() =~= be_bytes(y / 256, m));
        assert(be_bytes(x, n).last() == (x % 256) as u8);
        assert(be_bytes(y, n).last() == (y % 256) as u8);
        assert(pow256(n) == 256 * pow256(m));
        assert(x / 256 < pow256(m) && y / 256 < pow256(m)) by (nonlinear_arith)
            requires
                x < 256 * pow256(m),
                y < 256 * pow256(m),
        ;
        lemma_be_bytes_injective(x / 256, y / 256, m);
        assert(x % 256 == y % 256);
        assert(x == 256 * (x / 256) + x % 256 && y == 256 * (y / 256) + y % 256) by (nonlinear_arith);
    }
}

proof fn lemma_address_bytes_injective(a: Address, b: Address)
    requires
        address_bytes_spec(a) == address_bytes_spec(b),
    ensures
        a == b,
{
    reveal_with_fuel(pow256, 9);
    let (x, y) = (address_bytes_spec(a), address_bytes_spec(b));
    assert(x.subrange(0, 4) =~= be_bytes(a.hi as nat, 4));
    assert(y.subrange(0, 4) =~= be_bytes(b.hi as nat, 4));
    assert(x.subrange(4, 12) =~= be_bytes(a.mid as nat, 8));
    assert(y.subrange(4, 12) =~= be_bytes(b.mid as nat, 8));
    assert(x.subrange(12, 20) =~= be_bytes(a.lo as nat, 8));
    assert(y.subrange(12, 20) =~= be_bytes(b.lo as nat, 8));
    lemma_be_bytes_injective(a.hi as nat, b.hi as nat, 4);
    lemma_be_bytes_injective(a.mid as nat, b.mid as nat, 8);
    lemma_be_bytes_injective(a.lo as nat, b.lo as nat, 8);
}

/// Different positions hash different data: the account, the collateral
/// token, the index token and the side can all be read back from what is
/// hashed into the key.
pub proof fn lemma_position_key_data_injective(
    account: Address,
    collateral_token: Address,
    index_token: Address,
    is_long: bool,
    other_account: Address,
    other_collateral_token: Address,
    other_index_token: Address,
    other_is_long: bool,
)
    requires
        position_key_data_spec(account, collateral_token, index_token, is_long)
            == position_key_data_spec(other_account, other_collateral_token, other_index_token, other_is_long),
    ensures
        account == other_account,
        collateral_token == other_collateral_token,
        index_token == other_index_token,
        is_long == other_is_long,
{
    let d = position_key_data_spec(account, collateral_token, index_token, is_long);
    let e = position_key_data_spec(other_account, other_collateral_token, other_index_token, other_is_long);
    let ha = hex_spec(address_bytes_spec(account));
    let hc = hex_spec(address_bytes_spec(collateral_token));
    let hi = hex_spec(address_bytes_spec(index_token));
    let oa = hex_spec(address_bytes_spec(other_account));
    let oc = hex_spec(address_bytes_spec(other_collateral_token));
    let oi = hex_spec(address_bytes_spec(other_index_token));
    assert(ha.len() == 40 && hc.len() == 40 && hi.len() == 40);
    assert(oa.len() == 40 && oc.len() == 40 && oi.len() == 40);
    assert(d.subrange(0, 40) =~= ha);
    assert(e.subrange(0, 40) =~= oa);
    assert(d.subrange(40, 80) =~= hc);
    assert(e.subrange(40, 80) =~= oc);
    assert(d.subrange(80, 120) =~= hi);
    assert(e.subrange(80, 120) =~= oi);
    assert(d[120] == e[120]);
    lemma_hex_injective(address_bytes_spec(account), address_bytes_spec(other_account));
    lemma_hex_injective(address_bytes_spec(collateral_token), address_bytes_spec(other_collateral_token));
    lemma_hex_injective(address_bytes_spec(index_token), address_bytes_spec(other_index_token));
    lemma_address_bytes_injective(account, other_account);
    lemma_address_bytes_injective(collateral_token, other_collateral_token);
    lemma_address_bytes_injective(index_token, other_index_token);
}

} // verus!
