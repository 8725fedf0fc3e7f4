//! Canonical byte encoding of record fields, and the content hash over it.
//!
//! Integers are written little-endian at a fixed width; byte strings are
//! prefixed with their length as an eight-byte integer; an optional value is
//! a tag byte (0 or 1) followed by the value when present.
use vstd::prelude::*;

use crate::Hash256;

verus! {

pub open spec fn pow256(n: nat) -> nat
    decreases n,
{
    if n == 0 {
        1
    } else {
        256 * pow256((n - 1) as nat)
    }
}

/// The `n` low-order bytes of `x`, least significant first.
pub open spec fn le_bytes(x: nat, n: nat) -> Seq<u8>
    decreases n,
{
    if n == 0 {
        Seq::empty()
    } else {
        seq![(x % 256) as u8] + le_bytes(x / 256, (n - 1) as nat)
    }
}

pub open spec fn u32_field(x: u32) -> Seq<u8> {
    le_bytes(x as nat, 4)
}

pub open spec fn u64_field(x: u64) -> Seq<u8> {
    le_bytes(x as nat, 8)
}

pub open spec fn u128_field(x: u128) -> Seq<u8> {
    le_bytes(x as nat, 16)
}

/// A byte string behind its length.
pub open spec fn bytes_field(b: Seq<u8>) -> Seq<u8> {
    le_bytes(b.len(), 8) + b
}

pub open spec fn opt_bytes_field(o: Option<Seq<u8>>) -> Seq<u8> {
    match o {
        None => seq![0u8],
        Some(b) => seq![1u8] + bytes_field(b),
    }
}

/// Names the 32-byte Blake2b digest of a byte string.
pub uninterp spec fn blake2_256_of(data: Seq<u8>) -> Seq<u8>;

/// Relies on sp_core's `Blake2Hasher::hash` (Blake2b with a 32-byte output):
/// its result depends on the input bytes alone.
#[verifier::external_body]
pub(crate) fn blake2_256(data: &Vec<u8>) -> (r: Hash256)
    ensures
        r@ == blake2_256_of(data@),
{
    <sp_core::Blake2Hasher as sp_core::Hasher>::hash(data.as_slice()).0
}

/// Appends the `n` low-order bytes of `x`, least significant first.
pub fn push_le(out: &mut Vec<u8>, x: u128, n: usize)
    ensures
        final(out)@ == old(out)@ + le_bytes(x as nat, n as nat),
    decreases n,
{
    if n == 0 {
        assert(old(out)@ + le_bytes(x as nat, 0) =~= old(out)@);
        return;
    }
    let ghost before = out@;
    out.push((x % 256) as u8);
    push_le(out, x / 256, n - 1);
    assert(before + le_bytes(x as nat, n as nat) =~= before.push((x % 256) as u8) + le_bytes(
        (x / 256) as nat,
        (n - 1) as nat,
    ));
}

pub fn push_u32(out: &mut Vec<u8>, x: u32)
    ensures
        final(out)@ == old(out)@ + u32_field(x),
{
    push_le(out, x as u128, 4);
}

pub fn push_u64(out: &mut Vec<u8>, x: u64)
    ensures
        final(out)@ == old(out)@ + u64_field(x),
{
    push_le(out, x as u128, 8);
}

pub fn push_u128(out: &mut Vec<u8>, x: u128)
    ensures
        final(out)@ == old(out)@ + u128_field(x),
{
    push_le(out, x, 16);
}

pub fn push_bytes(out: &mut Vec<u8>, b: &[u8])
    ensures
        final(out)@ == old(out)@ + bytes_field(b@),
{
    let ghost start = out@;
    push_le(out, b.len() as u128, 8);
    let ghost mid = out@;
    let mut i: usize = 0;
    while i < b.len()
        invariant
            0 <= i <= b@.len(),
            out@ == mid + b@.subrange(0, i as int),
        decreases b@.len() - i,
    {
        out.push(b[i]);
        i = i + 1;
        assert(out@ =~= mid + b@.subrange(0, i as int));
    }
    assert(b@.subrange(0, b@.len() as int) =~= b@);
    assert(start + bytes_field(b@) =~= mid + b@);
}

pub fn push_opt_bytes(out: &mut Vec<u8>, o: &Option<Vec<u8>>)
    ensures
        final(out)@ == old(out)@ + opt_bytes_field(
            match o {
                None => None,
                Some(b) => Some(b@),
            },
        ),
{
    match o {
        None => {
            out.push(0u8);
            assert(old(out)@ + seq![0u8] =~= old(out)@.push(0u8));
        },
        Some(b) => {
            let ghost before = out@;
            out.push(1u8);
            push_bytes(out, b.as_slice());
            assert(before + (seq![1u8] + bytes_field(b@)) =~= before.push(1u8) + bytes_field(b@));
        },
    }
}

/// Distinct numbers below `256^n` have distinct `n`-byte encodings.
pub proof fn lemma_le_bytes_injective(x: nat, y: nat, n: nat)
    requires
        x < pow256(n),
        y < pow256(n),
        le_bytes(x, n) == le_bytes(y, n),
    ensures
        x == y,
    decreases n,
{
    if n > 0 {
        let p = pow256((n - 1) as nat);
        assert(le_bytes(x, n)[0] == (x % 256) as u8);
        assert(le_bytes(y, n)[0] == (y % 256) as u8);
        assert(le_bytes(x / 256, (n - 1) as nat) =~= le_bytes(x, n).subrange(1, le_bytes(x, n).len() as int)) by {
            lemma_le_bytes_len(x / 256, (n - 1) as nat);
        }
        assert(le_bytes(y / 256, (n - 1) as nat) =~= le_bytes(y, n).subrange(1, le_bytes(y, n).len() as int)) by {
            lemma_le_bytes_len(y / 256, (n - 1) as nat);
        }
        assert(x / 256 < p) by (nonlinear_arith)
            requires
                x < 256 * p,
        ;
        assert(y / 256 < p) by (nonlinear_arith)
            requires
                y < 256 * p,
        ;
        lemma_le_bytes_injective(x / 256, y / 256, (n - 1) as nat);
        assert(x == 256 * (x / 256) + x % 256);
        assert(y == 256 * (y / 256) + y % 256);
    }
}

pub proof fn lemma_le_bytes_len(x: nat, n: nat)
    ensures
        le_bytes(x, n).len() == n,
    decreases n,
{
    if n > 0 {
        lemma_le_bytes_len(x / 256, (n - 1) as nat);
    }
}

/// Two concatenations whose first parts have equal length are equal only part by part.
pub proof fn lemma_split(a: Seq<u8>, b: Seq<u8>, c: Seq<u8>, d: Seq<u8>)
    requires
        a.len() == c.len(),
        a + b == c + d,
    ensures
        a == c,
        b == d,
{
    assert(a =~= (a + b).subrange(0, a.len() as int));
    assert(c =~= (c + d).subrange(0, c.len() as int));
    assert(b =~= (a + b).subrange(a.len() as int, (a + b).len() as int));
    assert(d =~= (c + d).subrange(c.len() as int, (c + d).len() as int));
}

pub proof fn lemma_u64_field(x: u64, y: u64, b: Seq<u8>, d: Seq<u8>)
    requires
        u64_field(x) + b == u64_field(y) + d,
    ensures
        x == y,
        b == d,
{
    lemma_le_bytes_len(x as nat, 8);
    lemma_le_bytes_len(y as nat, 8);
    lemma_split(u64_field(x), b, u64_field(y), d);
    reveal_with_fuel(pow256, 9);
    lemma_le_bytes_injective(x as nat, y as nat, 8);
}

pub proof fn lemma_u128_field(x: u128, y: u128, b: Seq<u8>, d: Seq<u8>)
    requires
        u128_field(x) + b == u128_field(y) + d,
    ensures
        x == y,
        b == d,
{
    lemma_le_bytes_len(x as nat, 16);
    lemma_le_bytes_len(y as nat, 16);
    lemma_split(u128_field(x), b, u128_field(y), d);
    reveal_with_fuel(pow256, 17);
    lemma_le_bytes_injective(x as nat, y as nat, 16);
}

pub proof fn lemma_bytes_field(x: Seq<u8>, y: Seq<u8>, b: Seq<u8>, d: Seq<u8>)
    requires
        x.len() <= u64::MAX,
        y.len() <= u64::MAX,
        bytes_field(x) + b == bytes_field(y) + d,
    ensures
        x == y,
        b == d,
{
    lemma_le_bytes_len(x.len(), 8);
    lemma_le_bytes_len(y.len(), 8);
    assert(bytes_field(x) + b =~= le_bytes(x.len(), 8) + (x + b));
    assert(bytes_field(y) + d =~= le_bytes(y.len(), 8) + (y + d));
    lemma_split(le_bytes(x.len(), 8), x + b, le_bytes(y.len(), 8), y + d);
    reveal_with_fuel(pow256, 9);
    lemma_le_bytes_injective(x.len(), y.len(), 8);
    lemma_split(x, b, y, d);
}

} // verus!

verus! {

/// A fresh copy of a byte string.
pub fn copy_bytes(b: &[u8]) -> (r: Vec<u8>)
    ensures
        r@ == b@,
{
    let mut r: Vec<u8> = Vec::new();
    let mut i: usize = 0;
    while i < b.len()
        invariant
            0 <= i <= b@.len(),
            r@ == b@.subrange(0, i as int),
        decreases b@.len() - i,
    {
        r.push(b[i]);
        i = i + 1;
        assert(r@ =~= b@.subrange(0, i as int));
    }
    assert(b@.subrange(0, b@.len() as int) =~= b@);
    r
}

/// The encoding of a byte string on its own.
pub fn encode_bytes(b: &[u8]) -> (r: Vec<u8>)
    ensures
        r@ == bytes_field(b@),
{
    let mut out: Vec<u8> = Vec::new();
    push_bytes(&mut out, b);
    assert(out@ =~= bytes_field(b@));
    out
}

} // verus!
