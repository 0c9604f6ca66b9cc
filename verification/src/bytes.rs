//! Byte-order readers and writers for the routing-socket wire format.
//!
//! Multi-byte header fields arrive in host order, which on the supported
//! platforms is little-endian; addresses and ports inside socket-address
//! records are big-endian. Each reader is specified against a spec
//! function that names the bytes it consumes.

use vstd::prelude::*;

verus! {

broadcast use vstd::slice::group_slice_axioms;

/// Little-endian 16-bit value starting at byte `i`.
pub open spec fn le16_at(b: Seq<u8>, i: int) -> u16
    recommends
        0 <= i,
        i + 2 <= b.len(),
{
    (b[i + 1] as u16) << 8 | (b[i] as u16)
}

/// Little-endian 32-bit value starting at byte `i`.
pub open spec fn le32_at(b: Seq<u8>, i: int) -> u32
    recommends
        0 <= i,
        i + 4 <= b.len(),
{
    (b[i + 3] as u32) << 24 | (b[i + 2] as u32) << 16 | (b[i + 1] as u32) << 8 | (b[i] as u32)
}

/// Little-endian 32-bit field read as a signed value (flag words and
/// address masks are `int` fields in the kernel headers).
pub open spec fn le32i_at(b: Seq<u8>, i: int) -> i32
    recommends
        0 <= i,
        i + 4 <= b.len(),
{
    le32_at(b, i) as i32
}

/// Big-endian (network order) 16-bit value starting at byte `i`.
pub open spec fn be16_at(b: Seq<u8>, i: int) -> u16
    recommends
        0 <= i,
        i + 2 <= b.len(),
{
    (b[i] as u16) << 8 | (b[i + 1] as u16)
}

/// Big-endian (network order) 32-bit value starting at byte `i`.
pub open spec fn be32_at(b: Seq<u8>, i: int) -> u32
    recommends
        0 <= i,
        i + 4 <= b.len(),
{
    (b[i] as u32) << 24 | (b[i + 1] as u32) << 16 | (b[i + 2] as u32) << 8 | (b[i + 3] as u32)
}

/// Big-endian 128-bit value starting at byte `i` (an IPv6 address is
/// carried byte-for-byte, most significant byte first).
pub open spec fn be128_at(b: Seq<u8>, i: int) -> u128
    recommends
        0 <= i,
        i + 16 <= b.len(),
{
    (b[i] as u128) << 120 | (b[i + 1] as u128) << 112 | (b[i + 2] as u128) << 104 | (b[i
        + 3] as u128) << 96 | (b[i + 4] as u128) << 88 | (b[i + 5] as u128) << 80 | (b[i
        + 6] as u128) << 72 | (b[i + 7] as u128) << 64 | (b[i + 8] as u128) << 56 | (b[i
        + 9] as u128) << 48 | (b[i + 10] as u128) << 40 | (b[i + 11] as u128) << 32 | (b[i
        + 12] as u128) << 24 | (b[i + 13] as u128) << 16 | (b[i + 14] as u128) << 8 | (b[i
        + 15] as u128)
}

pub fn read_le16(b: &[u8], i: usize) -> (r: u16)
    requires
        i + 2 <= b@.len(),
    ensures
        r == le16_at(b@, i as int),
{
    proof {
        vstd::slice::axiom_spec_len::<u8>(b);
    }
    (b[i + 1] as u16) << 8u16 | (b[i] as u16)
}

pub fn read_le32(b: &[u8], i: usize) -> (r: u32)
    requires
        i + 4 <= b@.len(),
    ensures
        r == le32_at(b@, i as int),
{
    proof {
        vstd::slice::axiom_spec_len::<u8>(b);
    }
    (b[i + 3] as u32) << 24u32 | (b[i + 2] as u32) << 16u32 | (b[i + 1] as u32) << 8u32 | (b[
        i
    ] as u32)
}

pub fn read_le32i(b: &[u8], i: usize) -> (r: i32)
    requires
        i + 4 <= b@.len(),
    ensures
        r == le32i_at(b@, i as int),
{
    read_le32(b, i) as i32
}

pub fn read_be16(b: &[u8], i: usize) -> (r: u16)
    requires
        i + 2 <= b@.len(),
    ensures
        r == be16_at(b@, i as int),
{
    proof {
        vstd::slice::axiom_spec_len::<u8>(b);
    }
    (b[i] as u16) << 8u16 | (b[i + 1] as u16)
}

pub fn read_be32(b: &[u8], i: usize) -> (r: u32)
    requires
        i + 4 <= b@.len(),
    ensures
        r == be32_at(b@, i as int),
{
    proof {
        vstd::slice::axiom_spec_len::<u8>(b);
    }
    (b[i] as u32) << 24u32 | (b[i + 1] as u32) << 16u32 | (b[i + 2] as u32) << 8u32 | (b[i
        + 3] as u32)
}

pub fn read_be128(b: &[u8], i: usize) -> (r: u128)
    requires
        i + 16 <= b@.len(),
    ensures
        r == be128_at(b@, i as int),
{
    proof {
        vstd::slice::axiom_spec_len::<u8>(b);
    }
    (b[i] as u128) << 120u128 | (b[i + 1] as u128) << 112u128 | (b[i + 2] as u128) << 104u128 | (b[
        i + 3] as u128) << 96u128 | (b[i + 4] as u128) << 88u128 | (b[i + 5] as u128) << 80u128 | (
    b[i + 6] as u128) << 72u128 | (b[i + 7] as u128) << 64u128 | (b[i + 8] as u128) << 56u128 | (b[
        i + 9] as u128) << 48u128 | (b[i + 10] as u128) << 40u128 | (b[i + 11] as u128) << 32u128
        | (b[i + 12] as u128) << 24u128 | (b[i + 13] as u128) << 16u128 | (b[i
        + 14] as u128) << 8u128 | (b[i + 15] as u128)
}

/// The two bytes of `x` in little-endian order.
pub open spec fn le16_bytes(x: u16) -> Seq<u8> {
    seq![(x & 0xff) as u8, (x >> 8) as u8]
}

/// The four bytes of `x` in little-endian order.
pub open spec fn le32_bytes(x: u32) -> Seq<u8> {
    seq![
        (x & 0xff) as u8,
        ((x >> 8) & 0xff) as u8,
        ((x >> 16) & 0xff) as u8,
        ((x >> 24) & 0xff) as u8,
    ]
}

/// The two bytes of `x` in big-endian (network) order.
pub open spec fn be16_bytes(x: u16) -> Seq<u8> {
    seq![(x >> 8) as u8, (x & 0xff) as u8]
}

/// The four bytes of `x` in big-endian (network) order.
pub open spec fn be32_bytes(x: u32) -> Seq<u8> {
    seq![
        ((x >> 24) & 0xff) as u8,
        ((x >> 16) & 0xff) as u8,
        ((x >> 8) & 0xff) as u8,
        (x & 0xff) as u8,
    ]
}

/// `n` zero bytes.
pub open spec fn zeros(n: nat) -> Seq<u8> {
    Seq::new(n, |i: int| 0u8)
}

pub fn put_le16(v: &mut Vec<u8>, x: u16)
    ensures
        final(v)@ == old(v)@ + le16_bytes(x),
{
    v.push((x & 0xff) as u8);
    v.push((x >> 8u16) as u8);
    proof {
        assert(final(v)@ =~= old(v)@ + le16_bytes(x));
    }
}

pub fn put_le32(v: &mut Vec<u8>, x: u32)
    ensures
        final(v)@ == old(v)@ + le32_bytes(x),
{
    v.push((x & 0xff) as u8);
    v.push(((x >> 8u32) & 0xff) as u8);
    v.push(((x >> 16u32) & 0xff) as u8);
    v.push(((x >> 24u32) & 0xff) as u8);
    proof {
        assert(final(v)@ =~= old(v)@ + le32_bytes(x));
    }
}

pub fn put_zeros(v: &mut Vec<u8>, n: usize)
    requires
        old(v)@.len() + n <= usize::MAX,
    ensures
        final(v)@ == old(v)@ + zeros(n as nat),
{
    let mut k: usize = 0;
    while k < n
        invariant
            k <= n,
            v@.len() + n <= usize::MAX + k,
            v@ == old(v)@ + zeros(k as nat),
        decreases n - k,
    {
        v.push(0u8);
        k = k + 1;
        proof {
            assert(v@ =~= old(v)@ + zeros(k as nat));
        }
    }
}

pub fn put_be16(v: &mut Vec<u8>, x: u16)
    ensures
        final(v)@ == old(v)@ + be16_bytes(x),
{
    v.push((x >> 8u16) as u8);
    v.push((x & 0xff) as u8);
    proof {
        assert(final(v)@ =~= old(v)@ + be16_bytes(x));
    }
}

pub fn put_be32(v: &mut Vec<u8>, x: u32)
    ensures
        final(v)@ == old(v)@ + be32_bytes(x),
{
    v.push(((x >> 24u32) & 0xff) as u8);
    v.push(((x >> 16u32) & 0xff) as u8);
    v.push(((x >> 8u32) & 0xff) as u8);
    v.push((x & 0xff) as u8);
    proof {
        assert(final(v)@ =~= old(v)@ + be32_bytes(x));
    }
}

/// A big-endian 16-bit value recomposes from its two bytes.
pub proof fn lemma_be16_recompose(hi: u8, lo: u8, x: u16)
    requires
        hi == (x >> 8) as u8,
        lo == (x & 0xff) as u8,
    ensures
        (hi as u16) << 8 | (lo as u16) == x,
{
    assert(((x >> 8) as u8 as u16) << 8 | ((x & 0xff) as u8 as u16) == x) by (bit_vector);
}

/// A big-endian 32-bit value recomposes from its four bytes.
pub proof fn lemma_be32_recompose(b0: u8, b1: u8, b2: u8, b3: u8, x: u32)
    requires
        b0 == ((x >> 24) & 0xff) as u8,
        b1 == ((x >> 16) & 0xff) as u8,
        b2 == ((x >> 8) & 0xff) as u8,
        b3 == (x & 0xff) as u8,
    ensures
        (b0 as u32) << 24 | (b1 as u32) << 16 | (b2 as u32) << 8 | (b3 as u32) == x,
{
    assert((((x >> 24) & 0xff) as u8 as u32) << 24 | (((x >> 16) & 0xff) as u8 as u32) << 16 | (((x
        >> 8) & 0xff) as u8 as u32) << 8 | ((x & 0xff) as u8 as u32) == x) by (bit_vector);
}

} // verus!
