//! Fixed-width integers as bytes on the wire.
//!
//! Signed fields travel in two's complement. The specification side is plain
//! arithmetic on `int`: a signed value is first wrapped to its unsigned
//! residue, then cut into bytes by division and remainder.

use vstd::prelude::*;

verus! {

/// 2^16.
pub const M16: i64 = 0x1_0000;

/// 2^32.
pub const M32: i64 = 0x1_0000_0000;

/// 2^40.
pub const M40: i64 = 0x100_0000_0000;

/// The residue of `v` modulo `modulus`: the two's complement of a signed value.
pub open spec fn wrapped(v: int, modulus: int) -> int {
    v % modulus
}

/// The signed reading of an unsigned residue below `modulus`.
pub open spec fn signed(u: int, modulus: int) -> int {
    if 2 * u >= modulus {
        u - modulus
    } else {
        u
    }
}

/// Whether `v` is a signed value of the width that `modulus` stands for.
pub open spec fn fits(v: int, modulus: int) -> bool {
    -modulus <= 2 * v < modulus
}

/// Two bytes, most significant first.
pub open spec fn be16(u: int) -> Seq<u8> {
    seq![(u / 0x100 % 0x100) as u8, (u % 0x100) as u8]
}

/// Four bytes, most significant first.
pub open spec fn be32(u: int) -> Seq<u8> {
    seq![
        (u / 0x100_0000 % 0x100) as u8,
        (u / 0x1_0000 % 0x100) as u8,
        (u / 0x100 % 0x100) as u8,
        (u % 0x100) as u8,
    ]
}

/// Five bytes, most significant first.
pub open spec fn be40(u: int) -> Seq<u8> {
    seq![
        (u / 0x1_0000_0000 % 0x100) as u8,
        (u / 0x100_0000 % 0x100) as u8,
        (u / 0x1_0000 % 0x100) as u8,
        (u / 0x100 % 0x100) as u8,
        (u % 0x100) as u8,
    ]
}

/// Four bytes, least significant first.
pub open spec fn le32(u: int) -> Seq<u8> {
    seq![
        (u % 0x100) as u8,
        (u / 0x100 % 0x100) as u8,
        (u / 0x1_0000 % 0x100) as u8,
        (u / 0x100_0000 % 0x100) as u8,
    ]
}

/// The number that `len` bytes of `b` from `at` on spell, most significant first.
pub open spec fn be_value(b: Seq<u8>, at: int, len: nat) -> int
    decreases len,
{
    if len == 0 {
        0
    } else {
        be_value(b, at, (len - 1) as nat) * 0x100 + b[at + len - 1] as int
    }
}

/// The number that four bytes of `b` from `at` on spell, least significant first.
pub open spec fn le32_value(b: Seq<u8>, at: int) -> int {
    b[at] as int + b[at + 1] as int * 0x100 + b[at + 2] as int * 0x1_0000 + b[at + 3] as int
        * 0x100_0000
}

/// A signed 16-bit value as two big-endian bytes.
pub(crate) fn i16_to_be(v: i16) -> (out: [u8; 2])
    ensures
        out@ == be16(wrapped(v as int, M16 as int)),
{
    let u: i64 = if v < 0 {
        v as i64 + M16
    } else {
        v as i64
    };
    let out: [u8; 2] = [(u / 0x100 % 0x100) as u8, (u % 0x100) as u8];
    assert(out@ =~= be16(wrapped(v as int, M16 as int)));
    out
}

/// An unsigned 32-bit value as four big-endian bytes.
pub(crate) fn u32_to_be(v: u32) -> (out: [u8; 4])
    ensures
        out@ == be32(v as int),
{
    let out: [u8; 4] = [
        (v / 0x100_0000 % 0x100) as u8,
        (v / 0x1_0000 % 0x100) as u8,
        (v / 0x100 % 0x100) as u8,
        (v % 0x100) as u8,
    ];
    assert(out@ =~= be32(v as int));
    out
}

/// A signed 32-bit value as four big-endian bytes.
pub(crate) fn i32_to_be(v: i32) -> (out: [u8; 4])
    ensures
        out@ == be32(wrapped(v as int, M32 as int)),
{
    let u: i64 = if v < 0 {
        v as i64 + M32
    } else {
        v as i64
    };
    let out: [u8; 4] = [
        (u / 0x100_0000 % 0x100) as u8,
        (u / 0x1_0000 % 0x100) as u8,
        (u / 0x100 % 0x100) as u8,
        (u % 0x100) as u8,
    ];
    assert(out@ =~= be32(wrapped(v as int, M32 as int)));
    out
}

/// A signed 32-bit value as four little-endian bytes.
pub(crate) fn i32_to_le(v: i32) -> (out: [u8; 4])
    ensures
        out@ == le32(wrapped(v as int, M32 as int)),
{
    let u: i64 = if v < 0 {
        v as i64 + M32
    } else {
        v as i64
    };
    let out: [u8; 4] = [
        (u % 0x100) as u8,
        (u / 0x100 % 0x100) as u8,
        (u / 0x1_0000 % 0x100) as u8,
        (u / 0x100_0000 % 0x100) as u8,
    ];
    assert(out@ =~= le32(wrapped(v as int, M32 as int)));
    out
}

/// The low 40 bits of a signed value as five big-endian bytes.
pub(crate) fn i40_to_be(v: i64) -> (out: [u8; 5])
    ensures
        out@ == be40(wrapped(v as int, M40 as int)),
{
    let r: i64 = v % M40;
    let u: i64 = if r < 0 {
        r + M40
    } else {
        r
    };
    assert(u == wrapped(v as int, M40 as int));
    let out: [u8; 5] = [
        (u / 0x1_0000_0000 % 0x100) as u8,
        (u / 0x100_0000 % 0x100) as u8,
        (u / 0x1_0000 % 0x100) as u8,
        (u / 0x100 % 0x100) as u8,
        (u % 0x100) as u8,
    ];
    assert(out@ =~= be40(wrapped(v as int, M40 as int)));
    out
}

/// Two big-endian bytes of `data` from `at` on, read as a signed value.
pub(crate) fn i16_from_be(data: &[u8], at: usize) -> (v: i16)
    requires
        at + 2 <= data@.len(),
    ensures
        v == signed(be_value(data@, at as int, 2), M16 as int),
{
    reveal_with_fuel(be_value, 3);
    let u: i64 = data[at] as i64 * 0x100 + data[at + 1] as i64;
    if u >= 0x8000 {
        (u - M16) as i16
    } else {
        u as i16
    }
}

/// Four big-endian bytes of `data` from `at` on, read as a signed value.
pub(crate) fn i32_from_be(data: &[u8], at: usize) -> (v: i32)
    requires
        at + 4 <= data@.len(),
    ensures
        v == signed(be_value(data@, at as int, 4), M32 as int),
{
    reveal_with_fuel(be_value, 5);
    let u: i64 = data[at] as i64 * 0x100_0000 + data[at + 1] as i64 * 0x1_0000 + data[at
        + 2] as i64 * 0x100 + data[at + 3] as i64;
    if u >= 0x8000_0000 {
        (u - M32) as i32
    } else {
        u as i32
    }
}

/// Five big-endian bytes of `data` from `at` on, sign-extended from 40 bits.
pub(crate) fn i40_from_be(data: &[u8], at: usize) -> (v: i64)
    requires
        at + 5 <= data@.len(),
    ensures
        v == signed(be_value(data@, at as int, 5), M40 as int),
        fits(v as int, M40 as int),
        (v < 0) == (data@[at as int] >= 0x80),
{
    reveal_with_fuel(be_value, 6);
    let u: i64 = data[at] as i64 * 0x1_0000_0000 + data[at + 1] as i64 * 0x100_0000 + data[at
        + 2] as i64 * 0x1_0000 + data[at + 3] as i64 * 0x100 + data[at + 4] as i64;
    if data[at] >= 0x80 {
        u - M40
    } else {
        u
    }
}

/// Four little-endian bytes of `data` from `at` on, read as an unsigned value.
pub(crate) fn u32_from_le(data: &[u8], at: usize) -> (v: u32)
    requires
        at + 4 <= data@.len(),
    ensures
        v == le32_value(data@, at as int),
{
    let u: u64 = data[at] as u64 + data[at + 1] as u64 * 0x100 + data[at + 2] as u64 * 0x1_0000
        + data[at + 3] as u64 * 0x100_0000;
    u as u32
}

/// What a signed value of the width wraps to, reads back as itself.
pub proof fn lemma_signed_wrapped(v: int, modulus: int)
    requires
        modulus > 0,
        modulus % 2 == 0,
        fits(v, modulus),
    ensures
        signed(wrapped(v, modulus), modulus) == v,
        0 <= wrapped(v, modulus) < modulus,
{
    if v >= 0 {
        vstd::arithmetic::div_mod::lemma_small_mod(v as nat, modulus as nat);
    } else {
        vstd::arithmetic::div_mod::lemma_small_mod((v + modulus) as nat, modulus as nat);
        vstd::arithmetic::div_mod::lemma_mod_add_multiples_vanish(v, modulus);
    }
}

/// The bytes that `be16` writes spell the number again.
pub(crate) proof fn lemma_be16_value(u: int, b: Seq<u8>, at: int)
    requires
        0 <= u < 0x1_0000,
        0 <= at,
        at + 2 <= b.len(),
        b.subrange(at, at + 2) == be16(u),
    ensures
        be_value(b, at, 2) == u,
{
    reveal_with_fuel(be_value, 3);
    let s = b.subrange(at, at + 2);
    assert(s[0] == b[at] && s[1] == b[at + 1]);
}

/// The bytes that `be32` writes spell the number again.
pub(crate) proof fn lemma_be32_value(u: int, b: Seq<u8>, at: int)
    requires
        0 <= u < 0x1_0000_0000,
        0 <= at,
        at + 4 <= b.len(),
        b.subrange(at, at + 4) == be32(u),
    ensures
        be_value(b, at, 4) == u,
{
    reveal_with_fuel(be_value, 5);
    let s = b.subrange(at, at + 4);
    assert(s[0] == b[at] && s[1] == b[at + 1] && s[2] == b[at + 2] && s[3] == b[at + 3]);
}

/// The bytes that `be40` writes spell the number again.
pub(crate) proof fn lemma_be40_value(u: int, b: Seq<u8>, at: int)
    requires
        0 <= u < 0x100_0000_0000,
        0 <= at,
        at + 5 <= b.len(),
        b.subrange(at, at + 5) == be40(u),
    ensures
        be_value(b, at, 5) == u,
{
    reveal_with_fuel(be_value, 6);
    let s = b.subrange(at, at + 5);
    assert(s[0] == b[at] && s[1] == b[at + 1] && s[2] == b[at + 2] && s[3] == b[at + 3] && s[4]
        == b[at + 4]);
}

} // verus!
