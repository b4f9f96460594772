//! Little-endian primitives of the persisted cell layouts and of the wire
//! format: 64-bit and 32-bit integers and 32-byte keys.
use vstd::prelude::*;
use crate::keys::{lemma_pubkey_of, pubkey_of, Pubkey};

verus! {

/// The 64-bit integer stored little-endian in the eight bytes of `s` from `i`.
pub open spec fn u64_at(s: Seq<u8>, i: int) -> u64 {
    (s[i] as int + s[i + 1] as int * 0x100 + s[i + 2] as int * 0x1_0000 + s[i + 3] as int
        * 0x100_0000 + s[i + 4] as int * 0x1_0000_0000 + s[i + 5] as int * 0x100_0000_0000 + s[i
        + 6] as int * 0x1_0000_0000_0000 + s[i + 7] as int * 0x100_0000_0000_0000) as u64
}

/// The eight bytes that store `x` little-endian.
#[verifier::opaque]
pub open spec fn u64_bytes(x: u64) -> Seq<u8> {
    seq![
        (x % 0x100) as u8,
        (x / 0x100 % 0x100) as u8,
        (x / 0x1_0000 % 0x100) as u8,
        (x / 0x100_0000 % 0x100) as u8,
        (x / 0x1_0000_0000 % 0x100) as u8,
        (x / 0x100_0000_0000 % 0x100) as u8,
        (x / 0x1_0000_0000_0000 % 0x100) as u8,
        (x / 0x100_0000_0000_0000 % 0x100) as u8,
    ]
}

/// The 32-bit integer stored little-endian in the four bytes of `s` from `i`.
pub open spec fn u32_at(s: Seq<u8>, i: int) -> u32 {
    (s[i] as int + s[i + 1] as int * 0x100 + s[i + 2] as int * 0x1_0000 + s[i + 3] as int
        * 0x100_0000) as u32
}

/// The four bytes that store `x` little-endian.
#[verifier::opaque]
pub open spec fn u32_bytes(x: u32) -> Seq<u8> {
    seq![
        (x % 0x100) as u8,
        (x / 0x100 % 0x100) as u8,
        (x / 0x1_0000 % 0x100) as u8,
        (x / 0x100_0000 % 0x100) as u8,
    ]
}

/// The key stored in the 32 bytes of `s` from `i`.
pub open spec fn key_at(s: Seq<u8>, i: int) -> Pubkey {
    pubkey_of(s.subrange(i, i + 32))
}

proof fn lemma_u64_digits(x: u64)
    by (bit_vector)
    ensures
        x == (x % 0x100) + (x / 0x100 % 0x100) * 0x100 + (x / 0x1_0000 % 0x100) * 0x1_0000 + (x
            / 0x100_0000 % 0x100) * 0x100_0000 + (x / 0x1_0000_0000 % 0x100) * 0x1_0000_0000 + (x
            / 0x100_0000_0000 % 0x100) * 0x100_0000_0000 + (x / 0x1_0000_0000_0000 % 0x100)
            * 0x1_0000_0000_0000 + (x / 0x100_0000_0000_0000 % 0x100) * 0x100_0000_0000_0000,
{
}

proof fn lemma_u32_digits(x: u32)
    by (bit_vector)
    ensures
        x == (x % 0x100) + (x / 0x100 % 0x100) * 0x100 + (x / 0x1_0000 % 0x100) * 0x1_0000 + (x
            / 0x100_0000 % 0x100) * 0x100_0000,
{
}

/// An integer takes eight bytes, or four.
pub proof fn lemma_int_bytes_len(x: u64, y: u32)
    ensures
        u64_bytes(x).len() == 8,
        u32_bytes(y).len() == 4,
{
    reveal(u64_bytes);
    reveal(u32_bytes);
}

/// Reading back the eight bytes of `x` gives `x`, wherever they stand.
pub proof fn lemma_u64_round_trip(x: u64, s: Seq<u8>, i: int)
    requires
        0 <= i,
        i + 8 <= s.len(),
        s.subrange(i, i + 8) == u64_bytes(x),
    ensures
        u64_at(s, i) == x,
{
    reveal(u64_bytes);
    let t = s.subrange(i, i + 8);
    assert(s[i] == t[0] && s[i + 1] == t[1] && s[i + 2] == t[2] && s[i + 3] == t[3]);
    assert(s[i + 4] == t[4] && s[i + 5] == t[5] && s[i + 6] == t[6] && s[i + 7] == t[7]);
    lemma_u64_digits(x);
}

/// Reading back the four bytes of `x` gives `x`, wherever they stand.
pub proof fn lemma_u32_round_trip(x: u32, s: Seq<u8>, i: int)
    requires
        0 <= i,
        i + 4 <= s.len(),
        s.subrange(i, i + 4) == u32_bytes(x),
    ensures
        u32_at(s, i) == x,
{
    reveal(u32_bytes);
    let t = s.subrange(i, i + 4);
    assert(s[i] == t[0] && s[i + 1] == t[1] && s[i + 2] == t[2] && s[i + 3] == t[3]);
    lemma_u32_digits(x);
}

/// Reads the 64-bit little-endian integer at offset `at`.
pub fn read_u64(data: &[u8], at: usize) -> (r: u64)
    requires
        at + 8 <= data@.len(),
    ensures
        r == u64_at(data@, at as int),
{
    let b0: u64 = data[at] as u64;
    let b1: u64 = data[at + 1] as u64;
    let b2: u64 = data[at + 2] as u64;
    let b3: u64 = data[at + 3] as u64;
    let b4: u64 = data[at + 4] as u64;
    let b5: u64 = data[at + 5] as u64;
    let b6: u64 = data[at + 6] as u64;
    let b7: u64 = data[at + 7] as u64;
    b0 + b1 * 0x100 + b2 * 0x1_0000 + b3 * 0x100_0000 + b4 * 0x1_0000_0000 + b5 * 0x100_0000_0000
        + b6 * 0x1_0000_0000_0000 + b7 * 0x100_0000_0000_0000
}

/// Reads the 32-bit little-endian integer at offset `at`.
pub fn read_u32(data: &[u8], at: usize) -> (r: u32)
    requires
        at + 4 <= data@.len(),
    ensures
        r == u32_at(data@, at as int),
{
    let b0: u32 = data[at] as u32;
    let b1: u32 = data[at + 1] as u32;
    let b2: u32 = data[at + 2] as u32;
    let b3: u32 = data[at + 3] as u32;
    b0 + b1 * 0x100 + b2 * 0x1_0000 + b3 * 0x100_0000
}

/// Reads the 32-byte key at offset `at`.
pub fn read_key(data: &[u8], at: usize) -> (r: Pubkey)
    requires
        at + 32 <= data@.len(),
    ensures
        r == key_at(data@, at as int),
        r@ == data@.subrange(at as int, at + 32),
{
    let n: usize = data.len();
    let mut bytes: [u8; 32] = [0u8; 32];
    let mut i: usize = 0;
    while i < 32
        invariant
            i <= 32,
            at + 32 <= n,
            n == data@.len(),
            forall|j: int| 0 <= j < i ==> bytes@[j] == data@[at + j],
        decreases 32 - i,
    {
        bytes[i] = data[at + i];
        i += 1;
    }
    let r = Pubkey { bytes };
    proof {
        assert(r@ =~= data@.subrange(at as int, at + 32));
        lemma_pubkey_of(r);
    }
    r
}

/// Appends the eight little-endian bytes of `x`.
pub fn push_u64(out: &mut Vec<u8>, x: u64)
    ensures
        final(out)@ == old(out)@ + u64_bytes(x),
        final(out)@.len() == old(out)@.len() + 8,
{
    out.push((x % 0x100) as u8);
    out.push((x / 0x100 % 0x100) as u8);
    out.push((x / 0x1_0000 % 0x100) as u8);
    out.push((x / 0x100_0000 % 0x100) as u8);
    out.push((x / 0x1_0000_0000 % 0x100) as u8);
    out.push((x / 0x100_0000_0000 % 0x100) as u8);
    out.push((x / 0x1_0000_0000_0000 % 0x100) as u8);
    out.push((x / 0x100_0000_0000_0000 % 0x100) as u8);
    proof {
        reveal(u64_bytes);
    }
    assert(out@ =~= old(out)@ + u64_bytes(x));
}

/// Appends the four little-endian bytes of `x`.
pub fn push_u32(out: &mut Vec<u8>, x: u32)
    ensures
        final(out)@ == old(out)@ + u32_bytes(x),
        final(out)@.len() == old(out)@.len() + 4,
{
    out.push((x % 0x100) as u8);
    out.push((x / 0x100 % 0x100) as u8);
    out.push((x / 0x1_0000 % 0x100) as u8);
    out.push((x / 0x100_0000 % 0x100) as u8);
    proof {
        reveal(u32_bytes);
    }
    assert(out@ =~= old(out)@ + u32_bytes(x));
}

/// Appends the 32 bytes of `key`.
pub fn push_key(out: &mut Vec<u8>, key: &Pubkey)
    ensures
        final(out)@ == old(out)@ + key@,
        final(out)@.len() == old(out)@.len() + 32,
{
    let mut i: usize = 0;
    while i < 32
        invariant
            i <= 32,
            out@ == old(out)@ + key@.subrange(0, i as int),
        decreases 32 - i,
    {
        out.push(key.bytes[i]);
        assert(out@ =~= old(out)@ + key@.subrange(0, i + 1));
        i += 1;
    }
    assert(key@.subrange(0, 32) =~= key@);
}

} // verus!
