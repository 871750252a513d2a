//! Fixed-width little-endian integers and 32-byte addresses inside byte strings.
//!
//! Every record and command of the pool is a concatenation of such fields at
//! fixed offsets. The spec functions here say what a field's bytes mean as a
//! number; the executable readers and writers are proved against them.

use vstd::prelude::*;

verus! {

/// The unsigned number that the eight bytes of `s` starting at `at` spell,
/// least significant byte first.
pub open spec fn le_u64_at(s: Seq<u8>, at: int) -> u64 {
    (s[at] as int
        + s[at + 1] as int * 0x100
        + s[at + 2] as int * 0x1_0000
        + s[at + 3] as int * 0x100_0000
        + s[at + 4] as int * 0x1_0000_0000
        + s[at + 5] as int * 0x100_0000_0000
        + s[at + 6] as int * 0x1_0000_0000_0000
        + s[at + 7] as int * 0x100_0000_0000_0000) as u64
}

/// The eight bytes that spell `x`, least significant byte first.
pub open spec fn u64_le_bytes(x: u64) -> Seq<u8> {
    seq![
        (x % 0x100) as u8,
        (x / 0x100 % 0x100) as u8,
        (x / 0x1_0000 % 0x100) as u8,
        (x / 0x100_0000 % 0x100) as u8,
        (x / 0x1_0000_0000 % 0x100) as u8,
        (x / 0x100_0000_0000 % 0x100) as u8,
        (x / 0x1_0000_0000_0000 % 0x100) as u8,
        (x / 0x100_0000_0000_0000 % 0x100) as u8,
    ]
}

/// A signed 64-bit number as the unsigned number with the same bits
/// (two's complement).
pub open spec fn i64_bits(x: i64) -> u64 {
    if x >= 0 {
        x as u64
    } else {
        (x + 0x1_0000_0000_0000_0000) as u64
    }
}

/// The signed number whose two's-complement bits are `u`.
pub open spec fn bits_i64(u: u64) -> i64 {
    if u < 0x8000_0000_0000_0000 {
        u as i64
    } else {
        (u - 0x1_0000_0000_0000_0000) as i64
    }
}

/// The signed number that the eight bytes of `s` starting at `at` spell.
pub open spec fn le_i64_at(s: Seq<u8>, at: int) -> i64 {
    bits_i64(le_u64_at(s, at))
}

/// The eight bytes that spell the signed number `x`.
pub open spec fn i64_le_bytes(x: i64) -> Seq<u8> {
    u64_le_bytes(i64_bits(x))
}

/// Reading back the bytes of a number gives the number, wherever in a longer
/// string those bytes stand.
pub proof fn lemma_u64_le_roundtrip(x: u64, s: Seq<u8>, at: int)
    requires
        0 <= at,
        at + 8 <= s.len(),
        s.subrange(at, at + 8) == u64_le_bytes(x),
    ensures
        le_u64_at(s, at) == x,
{
    let b = u64_le_bytes(x);
    let t = s.subrange(at, at + 8);
    assert(s[at] == t[0] && s[at + 1] == t[1] && s[at + 2] == t[2] && s[at + 3] == t[3]);
    assert(s[at + 4] == t[4] && s[at + 5] == t[5] && s[at + 6] == t[6] && s[at + 7] == t[7]);
    let x0 = x as int;
    let x1 = x0 / 0x100;
    let x2 = x1 / 0x100;
    let x3 = x2 / 0x100;
    let x4 = x3 / 0x100;
    let x5 = x4 / 0x100;
    let x6 = x5 / 0x100;
    let x7 = x6 / 0x100;
    assert(x1 == x0 / 0x100 && x2 == x0 / 0x1_0000 && x3 == x0 / 0x100_0000);
    assert(x4 == x0 / 0x1_0000_0000 && x5 == x0 / 0x100_0000_0000);
    assert(x6 == x0 / 0x1_0000_0000_0000 && x7 == x0 / 0x100_0000_0000_0000);
    assert(x7 < 0x100);
}

/// The same for a signed number.
pub proof fn lemma_i64_le_roundtrip(x: i64, s: Seq<u8>, at: int)
    requires
        0 <= at,
        at + 8 <= s.len(),
        s.subrange(at, at + 8) == i64_le_bytes(x),
    ensures
        le_i64_at(s, at) == x,
{
    lemma_u64_le_roundtrip(i64_bits(x), s, at);
}

/// A byte below a multiple of 256 is recovered by remainder, the rest by
/// division.
proof fn lemma_low_byte(b: int, rest: int)
    requires
        0 <= b < 0x100,
        0 <= rest,
    ensures
        (b + 0x100 * rest) % 0x100 == b,
        (b + 0x100 * rest) / 0x100 == rest,
{
}

/// Writing out the number that eight bytes spell gives those bytes back.
pub proof fn lemma_le_u64_bytes(s: Seq<u8>, at: int)
    requires
        0 <= at,
        at + 8 <= s.len(),
    ensures
        u64_le_bytes(le_u64_at(s, at)) == s.subrange(at, at + 8),
{
    let r7 = s[at + 7] as int;
    let r6 = s[at + 6] as int + 0x100 * r7;
    let r5 = s[at + 5] as int + 0x100 * r6;
    let r4 = s[at + 4] as int + 0x100 * r5;
    let r3 = s[at + 3] as int + 0x100 * r4;
    let r2 = s[at + 2] as int + 0x100 * r3;
    let r1 = s[at + 1] as int + 0x100 * r2;
    let r0 = s[at] as int + 0x100 * r1;
    assert(r0 == le_u64_at(s, at));
    lemma_low_byte(s[at] as int, r1);
    lemma_low_byte(s[at + 1] as int, r2);
    lemma_low_byte(s[at + 2] as int, r3);
    lemma_low_byte(s[at + 3] as int, r4);
    lemma_low_byte(s[at + 4] as int, r5);
    lemma_low_byte(s[at + 5] as int, r6);
    lemma_low_byte(s[at + 6] as int, r7);
    assert(r1 == r0 / 0x100);
    assert(r2 == r0 / 0x1_0000) by {
        assert(r2 == r1 / 0x100);
    }
    assert(r3 == r0 / 0x100_0000) by {
        assert(r3 == r2 / 0x100);
    }
    assert(r4 == r0 / 0x1_0000_0000) by {
        assert(r4 == r3 / 0x100);
    }
    assert(r5 == r0 / 0x100_0000_0000) by {
        assert(r5 == r4 / 0x100);
    }
    assert(r6 == r0 / 0x1_0000_0000_0000) by {
        assert(r6 == r5 / 0x100);
    }
    assert(r7 == r0 / 0x100_0000_0000_0000) by {
        assert(r7 == r6 / 0x100);
    }
    assert(u64_le_bytes(le_u64_at(s, at)) =~= s.subrange(at, at + 8));
}

/// The same for a signed number.
pub proof fn lemma_le_i64_bytes(s: Seq<u8>, at: int)
    requires
        0 <= at,
        at + 8 <= s.len(),
    ensures
        i64_le_bytes(le_i64_at(s, at)) == s.subrange(at, at + 8),
{
    lemma_le_u64_bytes(s, at);
    assert(i64_bits(bits_i64(le_u64_at(s, at))) == le_u64_at(s, at));
}

/// Reads the unsigned little-endian number at offset `at`.
pub fn read_u64(src: &[u8], at: usize) -> (x: u64)
    requires
        at + 8 <= src@.len(),
    ensures
        x == le_u64_at(src@, at as int),
{
    let b0: u64 = src[at] as u64;
    let b1: u64 = src[at + 1] as u64;
    let b2: u64 = src[at + 2] as u64;
    let b3: u64 = src[at + 3] as u64;
    let b4: u64 = src[at + 4] as u64;
    let b5: u64 = src[at + 5] as u64;
    let b6: u64 = src[at + 6] as u64;
    let b7: u64 = src[at + 7] as u64;
    b0 + b1 * 0x100 + b2 * 0x1_0000 + b3 * 0x100_0000 + b4 * 0x1_0000_0000 + b5
        * 0x100_0000_0000 + b6 * 0x1_0000_0000_0000 + b7 * 0x100_0000_0000_0000
}

/// Reads the signed little-endian number at offset `at`.
pub fn read_i64(src: &[u8], at: usize) -> (x: i64)
    requires
        at + 8 <= src@.len(),
    ensures
        x == le_i64_at(src@, at as int),
{
    let u: u64 = read_u64(src, at);
    if u < 0x8000_0000_0000_0000 {
        u as i64
    } else {
        let low: i64 = (u - 0x8000_0000_0000_0000) as i64;
        low + i64::MIN
    }
}

/// Appends the eight little-endian bytes of `x` to `out`.
pub fn push_u64(out: &mut Vec<u8>, x: u64)
    ensures
        final(out)@ == old(out)@ + u64_le_bytes(x),
{
    out.push((x % 0x100) as u8);
    out.push((x / 0x100 % 0x100) as u8);
    out.push((x / 0x1_0000 % 0x100) as u8);
    out.push((x / 0x100_0000 % 0x100) as u8);
    out.push((x / 0x1_0000_0000 % 0x100) as u8);
    out.push((x / 0x100_0000_0000 % 0x100) as u8);
    out.push((x / 0x1_0000_0000_0000 % 0x100) as u8);
    out.push((x / 0x100_0000_0000_0000 % 0x100) as u8);
    assert(out@ =~= old(out)@ + u64_le_bytes(x));
}

/// Appends the eight little-endian bytes of the signed number `x` to `out`.
pub fn push_i64(out: &mut Vec<u8>, x: i64)
    ensures
        final(out)@ == old(out)@ + i64_le_bytes(x),
{
    let bits: u64 = if x >= 0 {
        x as u64
    } else {
        (x - i64::MIN) as u64 + 0x8000_0000_0000_0000
    };
    push_u64(out, bits);
}

/// Overwrites the first bytes of `dst` with `src` and leaves the rest.
pub fn write_prefix(dst: &mut [u8], src: &Vec<u8>)
    requires
        src@.len() <= old(dst)@.len(),
    ensures
        final(dst)@ == src@ + old(dst)@.subrange(src@.len() as int, old(dst)@.len() as int),
{
    let n: usize = src.len();
    let mut i: usize = 0;
    while i < n
        invariant
            i <= n,
            n == src@.len(),
            dst@.len() == old(dst)@.len(),
            n <= dst@.len(),
            forall|j: int| 0 <= j < i ==> dst@[j] == src@[j],
            forall|j: int| i <= j < dst@.len() ==> dst@[j] == old(dst)@[j],
        decreases n - i,
    {
        dst[i] = src[i];
        i = i + 1;
    }
    assert(dst@ =~= src@ + old(dst)@.subrange(src@.len() as int, old(dst)@.len() as int));
}

} // verus!
