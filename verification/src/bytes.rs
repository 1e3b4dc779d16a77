//! Byte-order-aware field extraction.
//!
//! Multi-byte fields are read out of the buffer byte by byte, with explicit
//! offset arithmetic, rather than by reinterpreting the buffer's memory: a
//! header is at most 64 bytes, so nothing is gained by a layout cast, and the
//! byte-by-byte read needs no alignment assumption.

use vstd::prelude::*;

use crate::semantic::Endian;

verus! {

/// The value whose least-significant byte is `b0`, then `b1`.
pub open spec fn u16_of(b0: u8, b1: u8) -> u16 {
    (b0 as u16) | ((b1 as u16) << 8)
}

/// The value whose bytes are `b0` (least significant) through `b3`.
pub open spec fn u32_of(b0: u8, b1: u8, b2: u8, b3: u8) -> u32 {
    (b0 as u32) | ((b1 as u32) << 8) | ((b2 as u32) << 16) | ((b3 as u32) << 24)
}

/// The value whose bytes are `b0` (least significant) through `b7`.
pub open spec fn u64_of(b0: u8, b1: u8, b2: u8, b3: u8, b4: u8, b5: u8, b6: u8, b7: u8) -> u64 {
    (b0 as u64) | ((b1 as u64) << 8) | ((b2 as u64) << 16) | ((b3 as u64) << 24) | ((b4 as u64)
        << 32) | ((b5 as u64) << 40) | ((b6 as u64) << 48) | ((b7 as u64) << 56)
}

/// The 2-byte field at offset `i` of `b`, stored in byte order `e`.
pub open spec fn u16_at(b: Seq<u8>, i: int, e: Endian) -> u16
    recommends
        0 <= i,
        i + 2 <= b.len(),
{
    match e {
        Endian::Little => u16_of(b[i], b[i + 1]),
        Endian::Big => u16_of(b[i + 1], b[i]),
    }
}

/// The 4-byte field at offset `i` of `b`, stored in byte order `e`.
pub open spec fn u32_at(b: Seq<u8>, i: int, e: Endian) -> u32
    recommends
        0 <= i,
        i + 4 <= b.len(),
{
    match e {
        Endian::Little => u32_of(b[i], b[i + 1], b[i + 2], b[i + 3]),
        Endian::Big => u32_of(b[i + 3], b[i + 2], b[i + 1], b[i]),
    }
}

/// The 8-byte field at offset `i` of `b`, stored in byte order `e`.
pub open spec fn u64_at(b: Seq<u8>, i: int, e: Endian) -> u64
    recommends
        0 <= i,
        i + 8 <= b.len(),
{
    match e {
        Endian::Little => u64_of(
            b[i],
            b[i + 1],
            b[i + 2],
            b[i + 3],
            b[i + 4],
            b[i + 5],
            b[i + 6],
            b[i + 7],
        ),
        Endian::Big => u64_of(
            b[i + 7],
            b[i + 6],
            b[i + 5],
            b[i + 4],
            b[i + 3],
            b[i + 2],
            b[i + 1],
            b[i],
        ),
    }
}

/// `x` with its two bytes exchanged.
pub open spec fn swap16(x: u16) -> u16 {
    (x << 8) | (x >> 8)
}

/// `x` with its four bytes reversed.
pub open spec fn swap32(x: u32) -> u32 {
    ((x & 0xff) << 24) | ((x & 0xff00) << 8) | ((x >> 8) & 0xff00) | (x >> 24)
}

/// `x` with its eight bytes reversed.
pub open spec fn swap64(x: u64) -> u64 {
    ((x & 0xff) << 56) | ((x & 0xff00) << 40) | ((x & 0xff0000) << 24) | ((x & 0xff000000) << 8) | (
    (x >> 8) & 0xff000000) | ((x >> 24) & 0xff0000) | ((x >> 40) & 0xff00) | (x >> 56)
}

/// Swapping two bytes twice gives the original value back.
pub proof fn lemma_swap16_involutive(x: u16)
    ensures
        swap16(swap16(x)) == x,
{
    assert(((((x << 8) | (x >> 8)) << 8) | (((x << 8) | (x >> 8)) >> 8)) == x) by (bit_vector);
}

/// Reversing four bytes twice gives the original value back.
pub proof fn lemma_swap32_involutive(x: u32)
    ensures
        swap32(swap32(x)) == x,
{
    let y = swap32(x);
    assert(y == ((x & 0xff) << 24) | ((x & 0xff00) << 8) | ((x >> 8) & 0xff00) | (x >> 24));
    assert((((y & 0xff) << 24) | ((y & 0xff00) << 8) | ((y >> 8) & 0xff00) | (y >> 24)) == x)
        by (bit_vector)
        requires
            y == ((x & 0xff) << 24) | ((x & 0xff00) << 8) | ((x >> 8) & 0xff00) | (x >> 24),
    ;
}

/// Reversing eight bytes twice gives the original value back.
pub proof fn lemma_swap64_involutive(x: u64)
    ensures
        swap64(swap64(x)) == x,
{
    let y = swap64(x);
    assert((((y & 0xff) << 56) | ((y & 0xff00) << 40) | ((y & 0xff0000) << 24) | ((y & 0xff000000)
        << 8) | ((y >> 8) & 0xff000000) | ((y >> 24) & 0xff0000) | ((y >> 40) & 0xff00) | (y
        >> 56)) == x) by (bit_vector)
        requires
            y == ((x & 0xff) << 56) | ((x & 0xff00) << 40) | ((x & 0xff0000) << 24) | ((x
                & 0xff000000) << 8) | ((x >> 8) & 0xff000000) | ((x >> 24) & 0xff0000) | ((x >> 40)
                & 0xff00) | (x >> 56),
    ;
}

/// Swapping a value read in one byte order yields the value read in the other.
pub proof fn lemma_swap16_reverses(b0: u8, b1: u8)
    ensures
        swap16(u16_of(b0, b1)) == u16_of(b1, b0),
{
    let x = u16_of(b0, b1);
    assert(((x << 8) | (x >> 8)) == ((b1 as u16) | ((b0 as u16) << 8))) by (bit_vector)
        requires
            x == ((b0 as u16) | ((b1 as u16) << 8)),
    ;
}

/// Reversing a value read in one byte order yields the value read in the other.
pub proof fn lemma_swap32_reverses(b0: u8, b1: u8, b2: u8, b3: u8)
    ensures
        swap32(u32_of(b0, b1, b2, b3)) == u32_of(b3, b2, b1, b0),
{
    let x = u32_of(b0, b1, b2, b3);
    assert((((x & 0xff) << 24) | ((x & 0xff00) << 8) | ((x >> 8) & 0xff00) | (x >> 24)) == ((
    b3 as u32) | ((b2 as u32) << 8) | ((b1 as u32) << 16) | ((b0 as u32) << 24))) by (bit_vector)
        requires
            x == ((b0 as u32) | ((b1 as u32) << 8) | ((b2 as u32) << 16) | ((b3 as u32) << 24)),
    ;
}

/// Reversing a value read in one byte order yields the value read in the other.
pub proof fn lemma_swap64_reverses(b0: u8, b1: u8, b2: u8, b3: u8, b4: u8, b5: u8, b6: u8, b7: u8)
    ensures
        swap64(u64_of(b0, b1, b2, b3, b4, b5, b6, b7)) == u64_of(b7, b6, b5, b4, b3, b2, b1, b0),
{
    let x = u64_of(b0, b1, b2, b3, b4, b5, b6, b7);
    assert((((x & 0xff) << 56) | ((x & 0xff00) << 40) | ((x & 0xff0000) << 24) | ((x & 0xff000000)
        << 8) | ((x >> 8) & 0xff000000) | ((x >> 24) & 0xff0000) | ((x >> 40) & 0xff00) | (x
        >> 56)) == ((b7 as u64) | ((b6 as u64) << 8) | ((b5 as u64) << 16) | ((b4 as u64) << 24) | (
    (b3 as u64) << 32) | ((b2 as u64) << 40) | ((b1 as u64) << 48) | ((b0 as u64) << 56)))
        by (bit_vector)
        requires
            x == ((b0 as u64) | ((b1 as u64) << 8) | ((b2 as u64) << 16) | ((b3 as u64) << 24) | ((
            b4 as u64) << 32) | ((b5 as u64) << 40) | ((b6 as u64) << 48) | ((b7 as u64) << 56)),
    ;
}

/// Swapping a 2-byte field read at `i` in order `e` yields the field read in
/// the opposite order.
pub proof fn lemma_swap16_at(b: Seq<u8>, i: int, e: Endian)
    requires
        0 <= i,
        i + 2 <= b.len(),
    ensures
        swap16(u16_at(b, i, e)) == u16_at(b, i, e.opposite()),
{
    match e {
        Endian::Little => lemma_swap16_reverses(b[i], b[i + 1]),
        Endian::Big => lemma_swap16_reverses(b[i + 1], b[i]),
    }
}

/// Swapping a 4-byte field read at `i` in order `e` yields the field read in
/// the opposite order.
pub proof fn lemma_swap32_at(b: Seq<u8>, i: int, e: Endian)
    requires
        0 <= i,
        i + 4 <= b.len(),
    ensures
        swap32(u32_at(b, i, e)) == u32_at(b, i, e.opposite()),
{
    match e {
        Endian::Little => lemma_swap32_reverses(b[i], b[i + 1], b[i + 2], b[i + 3]),
        Endian::Big => lemma_swap32_reverses(b[i + 3], b[i + 2], b[i + 1], b[i]),
    }
}

/// Swapping an 8-byte field read at `i` in order `e` yields the field read in
/// the opposite order.
pub proof fn lemma_swap64_at(b: Seq<u8>, i: int, e: Endian)
    requires
        0 <= i,
        i + 8 <= b.len(),
    ensures
        swap64(u64_at(b, i, e)) == u64_at(b, i, e.opposite()),
{
    match e {
        Endian::Little => lemma_swap64_reverses(
            b[i],
            b[i + 1],
            b[i + 2],
            b[i + 3],
            b[i + 4],
            b[i + 5],
            b[i + 6],
            b[i + 7],
        ),
        Endian::Big => lemma_swap64_reverses(
            b[i + 7],
            b[i + 6],
            b[i + 5],
            b[i + 4],
            b[i + 3],
            b[i + 2],
            b[i + 1],
            b[i],
        ),
    }
}

/// Exchange the two bytes of `x`.
pub fn swap_u16(x: u16) -> (r: u16)
    ensures
        r == swap16(x),
{
    (x << 8) | (x >> 8)
}

/// Reverse the four bytes of `x`.
pub fn swap_u32(x: u32) -> (r: u32)
    ensures
        r == swap32(x),
{
    ((x & 0xff) << 24) | ((x & 0xff00) << 8) | ((x >> 8) & 0xff00) | (x >> 24)
}

/// Reverse the eight bytes of `x`.
pub fn swap_u64(x: u64) -> (r: u64)
    ensures
        r == swap64(x),
{
    ((x & 0xff) << 56) | ((x & 0xff00) << 40) | ((x & 0xff0000) << 24) | ((x & 0xff000000) << 8) | (
    (x >> 8) & 0xff000000) | ((x >> 24) & 0xff0000) | ((x >> 40) & 0xff00) | (x >> 56)
}

/// Read the 2-byte field at offset `i` of `b`, stored in byte order `e`.
pub fn read_u16(b: &[u8], i: usize, e: Endian) -> (r: u16)
    requires
        i + 2 <= b@.len(),
        b@.len() <= usize::MAX,
    ensures
        r == u16_at(b@, i as int, e),
{
    match e {
        Endian::Little => (b[i] as u16) | ((b[i + 1] as u16) << 8),
        Endian::Big => (b[i + 1] as u16) | ((b[i] as u16) << 8),
    }
}

/// Read the 4-byte field at offset `i` of `b`, stored in byte order `e`.
pub fn read_u32(b: &[u8], i: usize, e: Endian) -> (r: u32)
    requires
        i + 4 <= b@.len(),
        b@.len() <= usize::MAX,
    ensures
        r == u32_at(b@, i as int, e),
{
    match e {
        Endian::Little => (b[i] as u32) | ((b[i + 1] as u32) << 8) | ((b[i + 2] as u32) << 16) | ((
        b[i + 3] as u32) << 24),
        Endian::Big => (b[i + 3] as u32) | ((b[i + 2] as u32) << 8) | ((b[i + 1] as u32) << 16) | ((
        b[i] as u32) << 24),
    }
}

/// Read the 8-byte field at offset `i` of `b`, stored in byte order `e`.
pub fn read_u64(b: &[u8], i: usize, e: Endian) -> (r: u64)
    requires
        i + 8 <= b@.len(),
        b@.len() <= usize::MAX,
    ensures
        r == u64_at(b@, i as int, e),
{
    match e {
        Endian::Little => (b[i] as u64) | ((b[i + 1] as u64) << 8) | ((b[i + 2] as u64) << 16) | ((
        b[i + 3] as u64) << 24) | ((b[i + 4] as u64) << 32) | ((b[i + 5] as u64) << 40) | ((b[i
            + 6] as u64) << 48) | ((b[i + 7] as u64) << 56),
        Endian::Big => (b[i + 7] as u64) | ((b[i + 6] as u64) << 8) | ((b[i + 5] as u64) << 16) | ((
        b[i + 4] as u64) << 24) | ((b[i + 3] as u64) << 32) | ((b[i + 2] as u64) << 40) | ((b[i
            + 1] as u64) << 48) | ((b[i] as u64) << 56),
    }
}

/// Relies on u16::to_ne_bytes: on a little-endian machine the representation
/// of 1u16 puts the byte 1 first; on a big-endian machine it puts it last.
/// The byte order of the decoding machine is all this call reveals.
#[verifier::external_body]
pub(crate) fn native_endian() -> (e: Endian)
    ensures
        e == Endian::Little || e == Endian::Big,
{
    if 1u16.to_ne_bytes()[0] == 1 {
        Endian::Little
    } else {
        Endian::Big
    }
}

} // verus!
