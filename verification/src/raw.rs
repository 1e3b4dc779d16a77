//! The layout record: a field-for-field mirror of the on-disk header for one
//! address-width class, holding raw integers with no validation applied.
//!
//! A record is filled by reading the buffer byte by byte in the decoding
//! machine's own byte order; when the file was written in the other order,
//! `swap_bytes` reverses every multi-byte field exactly once.

use vstd::prelude::*;

use crate::bytes::{
    lemma_swap16_at, lemma_swap16_involutive, lemma_swap32_at, lemma_swap32_involutive,
    lemma_swap64_at, lemma_swap64_involutive, read_u16, read_u32, read_u64, swap16, swap32, swap64,
    swap_u16, swap_u32, swap_u64, u16_at, u32_at, u64_at,
};
use crate::semantic::Endian;

verus! {

/// A field type whose bytes can be reversed.
pub trait SwapBytes: Sized {
    /// The value with its bytes in the opposite order.
    spec fn spec_swap_bytes(self) -> Self;

    fn swap_bytes(self) -> (r: Self)
        ensures
            r == self.spec_swap_bytes(),
    ;
}

impl SwapBytes for u32 {
    open spec fn spec_swap_bytes(self) -> u32 {
        swap32(self)
    }

    fn swap_bytes(self) -> (r: u32) {
        swap_u32(self)
    }
}

impl SwapBytes for u64 {
    open spec fn spec_swap_bytes(self) -> u64 {
        swap64(self)
    }

    fn swap_bytes(self) -> (r: u64) {
        swap_u64(self)
    }
}

/// The 16-byte identifier block exactly as it stands in the file. Every field
/// is a single byte (or an array of single bytes), so byte order never touches
/// it.
#[derive(Debug, Clone, Copy, PartialEq, Eq)]
pub struct ELFIdentifier {
    pub magic: [u8; 4],
    pub class: u8,
    pub data: u8,
    pub version: u8,
    pub os_abi: u8,
    pub os_abi_version: u8,
    pub padding: [u8; 7],
}

/// The raw header for one address-width class: `Class` is `u32` for the
/// 52-byte 32-bit layout and `u64` for the 64-byte 64-bit layout.
#[derive(Debug, Clone, Copy, PartialEq, Eq)]
pub struct ELFHeader<Class> where Class: SwapBytes + Copy {
    pub e_ident: ELFIdentifier,
    pub e_type: u16,
    pub e_machine: u16,
    pub e_version: u32,
    pub e_entry: Class,
    pub e_phoff: Class,
    pub e_shoff: Class,
    pub e_flags: u32,
    pub e_ehsize: u16,
    pub e_phentsize: u16,
    pub e_phnum: u16,
    pub e_shentsize: u16,
    pub e_shnum: u16,
    pub e_shstrndx: u16,
}

impl<Class> ELFHeader<Class> where Class: SwapBytes + Copy {
    /// The record with every multi-byte field byte-reversed and the
    /// identifier block untouched.
    pub open spec fn spec_swap_bytes(self) -> Self {
        ELFHeader {
            e_ident: self.e_ident,
            e_type: swap16(self.e_type),
            e_machine: swap16(self.e_machine),
            e_version: swap32(self.e_version),
            e_entry: self.e_entry.spec_swap_bytes(),
            e_phoff: self.e_phoff.spec_swap_bytes(),
            e_shoff: self.e_shoff.spec_swap_bytes(),
            e_flags: swap32(self.e_flags),
            e_ehsize: swap16(self.e_ehsize),
            e_phentsize: swap16(self.e_phentsize),
            e_phnum: swap16(self.e_phnum),
            e_shentsize: swap16(self.e_shentsize),
            e_shnum: swap16(self.e_shnum),
            e_shstrndx: swap16(self.e_shstrndx),
        }
    }

    /// Reverse every multi-byte field; single-byte fields stay as they are.
    pub fn swap_bytes(&self) -> (r: Self)
        ensures
            r == self.spec_swap_bytes(),
    {
        ELFHeader {
            e_ident: self.e_ident,
            e_type: swap_u16(self.e_type),
            e_machine: swap_u16(self.e_machine),
            e_version: swap_u32(self.e_version),
            e_entry: self.e_entry.swap_bytes(),
            e_phoff: self.e_phoff.swap_bytes(),
            e_shoff: self.e_shoff.swap_bytes(),
            e_flags: swap_u32(self.e_flags),
            e_ehsize: swap_u16(self.e_ehsize),
            e_phentsize: swap_u16(self.e_phentsize),
            e_phnum: swap_u16(self.e_phnum),
            e_shentsize: swap_u16(self.e_shentsize),
            e_shnum: swap_u16(self.e_shnum),
            e_shstrndx: swap_u16(self.e_shstrndx),
        }
    }
}

/// Swapping a 32-bit record twice gives the original record back.
pub proof fn lemma_swap_bytes_involutive_32(h: ELFHeader<u32>)
    ensures
        h.spec_swap_bytes().spec_swap_bytes() == h,
{
    lemma_swap16_involutive(h.e_type);
    lemma_swap16_involutive(h.e_machine);
    lemma_swap32_involutive(h.e_version);
    lemma_swap32_involutive(h.e_entry);
    lemma_swap32_involutive(h.e_phoff);
    lemma_swap32_involutive(h.e_shoff);
    lemma_swap32_involutive(h.e_flags);
    lemma_swap16_involutive(h.e_ehsize);
    lemma_swap16_involutive(h.e_phentsize);
    lemma_swap16_involutive(h.e_phnum);
    lemma_swap16_involutive(h.e_shentsize);
    lemma_swap16_involutive(h.e_shnum);
    lemma_swap16_involutive(h.e_shstrndx);
}

/// Swapping a 64-bit record twice gives the original record back.
pub proof fn lemma_swap_bytes_involutive_64(h: ELFHeader<u64>)
    ensures
        h.spec_swap_bytes().spec_swap_bytes() == h,
{
    lemma_swap16_involutive(h.e_type);
    lemma_swap16_involutive(h.e_machine);
    lemma_swap32_involutive(h.e_version);
    lemma_swap64_involutive(h.e_entry);
    lemma_swap64_involutive(h.e_phoff);
    lemma_swap64_involutive(h.e_shoff);
    lemma_swap32_involutive(h.e_flags);
    lemma_swap16_involutive(h.e_ehsize);
    lemma_swap16_involutive(h.e_phentsize);
    lemma_swap16_involutive(h.e_phnum);
    lemma_swap16_involutive(h.e_shentsize);
    lemma_swap16_involutive(h.e_shnum);
    lemma_swap16_involutive(h.e_shstrndx);
}

/// The identifier block of `b`, byte for byte.
pub open spec fn spec_ident_of(b: Seq<u8>) -> ELFIdentifier
    recommends
        b.len() >= 16,
{
    ELFIdentifier {
        magic: [b[0], b[1], b[2], b[3]],
        class: b[4],
        data: b[5],
        version: b[6],
        os_abi: b[7],
        os_abi_version: b[8],
        padding: [b[9], b[10], b[11], b[12], b[13], b[14], b[15]],
    }
}

/// The 32-bit layout record of `b`, every multi-byte field read in byte
/// order `e`.
pub open spec fn spec_header32_of(b: Seq<u8>, e: Endian) -> ELFHeader<u32>
    recommends
        b.len() >= 52,
{
    ELFHeader {
        e_ident: spec_ident_of(b),
        e_type: u16_at(b, 16, e),
        e_machine: u16_at(b, 18, e),
        e_version: u32_at(b, 20, e),
        e_entry: u32_at(b, 24, e),
        e_phoff: u32_at(b, 28, e),
        e_shoff: u32_at(b, 32, e),
        e_flags: u32_at(b, 36, e),
        e_ehsize: u16_at(b, 40, e),
        e_phentsize: u16_at(b, 42, e),
        e_phnum: u16_at(b, 44, e),
        e_shentsize: u16_at(b, 46, e),
        e_shnum: u16_at(b, 48, e),
        e_shstrndx: u16_at(b, 50, e),
    }
}

/// The 64-bit layout record of `b`, every multi-byte field read in byte
/// order `e`.
pub open spec fn spec_header64_of(b: Seq<u8>, e: Endian) -> ELFHeader<u64>
    recommends
        b.len() >= 64,
{
    ELFHeader {
        e_ident: spec_ident_of(b),
        e_type: u16_at(b, 16, e),
        e_machine: u16_at(b, 18, e),
        e_version: u32_at(b, 20, e),
        e_entry: u64_at(b, 24, e),
        e_phoff: u64_at(b, 32, e),
        e_shoff: u64_at(b, 40, e),
        e_flags: u32_at(b, 48, e),
        e_ehsize: u16_at(b, 52, e),
        e_phentsize: u16_at(b, 54, e),
        e_phnum: u16_at(b, 56, e),
        e_shentsize: u16_at(b, 58, e),
        e_shnum: u16_at(b, 60, e),
        e_shstrndx: u16_at(b, 62, e),
    }
}

/// Swapping the 32-bit record read in order `e` gives the record read in the
/// opposite order: the transform corrects every field exactly once.
pub proof fn lemma_header32_swap(b: Seq<u8>, e: Endian)
    requires
        b.len() >= 52,
    ensures
        spec_header32_of(b, e).spec_swap_bytes() == spec_header32_of(b, e.opposite()),
{
    lemma_swap16_at(b, 16, e);
    lemma_swap16_at(b, 18, e);
    lemma_swap32_at(b, 20, e);
    lemma_swap32_at(b, 24, e);
    lemma_swap32_at(b, 28, e);
    lemma_swap32_at(b, 32, e);
    lemma_swap32_at(b, 36, e);
    lemma_swap16_at(b, 40, e);
    lemma_swap16_at(b, 42, e);
    lemma_swap16_at(b, 44, e);
    lemma_swap16_at(b, 46, e);
    lemma_swap16_at(b, 48, e);
    lemma_swap16_at(b, 50, e);
}

/// Swapping the 64-bit record read in order `e` gives the record read in the
/// opposite order: the transform corrects every field exactly once.
pub proof fn lemma_header64_swap(b: Seq<u8>, e: Endian)
    requires
        b.len() >= 64,
    ensures
        spec_header64_of(b, e).spec_swap_bytes() == spec_header64_of(b, e.opposite()),
{
    lemma_swap16_at(b, 16, e);
    lemma_swap16_at(b, 18, e);
    lemma_swap32_at(b, 20, e);
    lemma_swap64_at(b, 24, e);
    lemma_swap64_at(b, 32, e);
    lemma_swap64_at(b, 40, e);
    lemma_swap32_at(b, 48, e);
    lemma_swap16_at(b, 52, e);
    lemma_swap16_at(b, 54, e);
    lemma_swap16_at(b, 56, e);
    lemma_swap16_at(b, 58, e);
    lemma_swap16_at(b, 60, e);
    lemma_swap16_at(b, 62, e);
}

/// Copy the identifier block out of `b`.
pub fn read_ident(b: &[u8]) -> (r: ELFIdentifier)
    requires
        16 <= b@.len() <= usize::MAX,
    ensures
        r == spec_ident_of(b@),
{
    let r = ELFIdentifier {
        magic: [b[0], b[1], b[2], b[3]],
        class: b[4],
        data: b[5],
        version: b[6],
        os_abi: b[7],
        os_abi_version: b[8],
        padding: [b[9], b[10], b[11], b[12], b[13], b[14], b[15]],
    };
    proof {
        assert(r.magic =~= spec_ident_of(b@).magic);
        assert(r.padding =~= spec_ident_of(b@).padding);
    }
    r
}

/// Read the 32-bit layout record of `b` in byte order `e`.
pub fn read_header32(b: &[u8], e: Endian) -> (r: ELFHeader<u32>)
    requires
        52 <= b@.len() <= usize::MAX,
    ensures
        r == spec_header32_of(b@, e),
{
    ELFHeader {
        e_ident: read_ident(b),
        e_type: read_u16(b, 16, e),
        e_machine: read_u16(b, 18, e),
        e_version: read_u32(b, 20, e),
        e_entry: read_u32(b, 24, e),
        e_phoff: read_u32(b, 28, e),
        e_shoff: read_u32(b, 32, e),
        e_flags: read_u32(b, 36, e),
        e_ehsize: read_u16(b, 40, e),
        e_phentsize: read_u16(b, 42, e),
        e_phnum: read_u16(b, 44, e),
        e_shentsize: read_u16(b, 46, e),
        e_shnum: read_u16(b, 48, e),
        e_shstrndx: read_u16(b, 50, e),
    }
}

/// Read the 64-bit layout record of `b` in byte order `e`.
pub fn read_header64(b: &[u8], e: Endian) -> (r: ELFHeader<u64>)
    requires
        64 <= b@.len() <= usize::MAX,
    ensures
        r == spec_header64_of(b@, e),
{
    ELFHeader {
        e_ident: read_ident(b),
        e_type: read_u16(b, 16, e),
        e_machine: read_u16(b, 18, e),
        e_version: read_u32(b, 20, e),
        e_entry: read_u64(b, 24, e),
        e_phoff: read_u64(b, 32, e),
        e_shoff: read_u64(b, 40, e),
        e_flags: read_u32(b, 48, e),
        e_ehsize: read_u16(b, 52, e),
        e_phentsize: read_u16(b, 54, e),
        e_phnum: read_u16(b, 56, e),
        e_shentsize: read_u16(b, 58, e),
        e_shnum: read_u16(b, 60, e),
        e_shstrndx: read_u16(b, 62, e),
    }
}

} // verus!
