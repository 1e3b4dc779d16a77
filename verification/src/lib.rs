//! Decodes the fixed-size header at the start of an ELF binary into a
//! validated, strongly typed representation.
//!
//! The decode works for both the 32-bit and the 64-bit header layout,
//! reconciles the byte order recorded in the file with the byte order of the
//! decoding machine, and exposes every coded field as a domain value; a code
//! outside the known set is surfaced losslessly in an `Unknown` variant.
//!
//! [`parse_header`] is the entry point; its whole behaviour is pinned to the
//! spec-level [`spec_parse`].

use vstd::prelude::*;

pub mod bytes;
pub mod parser;
pub mod raw;
pub mod semantic;
pub mod zero_alloc;

use crate::parser::ELFParser;
use crate::semantic::Endian;
use crate::zero_alloc::ZeroAllocationELFParser;

verus! {

/// Why a buffer was rejected.
#[derive(Debug, Clone, Copy, PartialEq, Eq)]
pub enum ParseError {
    /// Too short for the magic and class byte, too short for the full header
    /// of the detected class, an unrecognized class byte, or an unrecognized
    /// data-encoding byte.
    InvalidFile,
    /// The first four bytes are not the ELF magic; they are carried here.
    InvalidMagic([u8; 4]),
}

/// Whether `b` starts with the fixed magic `7F 45 4C 46` (`0x7f 'E' 'L' 'F'`).
pub open spec fn valid_magic(b: Seq<u8>) -> bool
    recommends
        b.len() >= 4,
{
    b[0] == 0x7f && b[1] == 0x45 && b[2] == 0x4c && b[3] == 0x46
}

/// The exact byte size of the layout record selected by a class byte.
pub open spec fn header_size(class: u8) -> int
    recommends
        class == 1 || class == 2,
{
    if class == 1 {
        52
    } else {
        64
    }
}

/// What parsing `b` yields, checks in order: length for magic and class
/// byte, the magic itself, a class byte of 1 or 2, length for the full
/// record of that class, a data-encoding byte of 1 or 2; then the record is
/// read in the file's byte order and projected field by field.
pub open spec fn spec_parse(b: Seq<u8>) -> Result<semantic::ELFHeader, ParseError> {
    if b.len() < 5 {
        Err(ParseError::InvalidFile)
    } else if !valid_magic(b) {
        Err(ParseError::InvalidMagic([b[0], b[1], b[2], b[3]]))
    } else if b[4] != 1 && b[4] != 2 {
        Err(ParseError::InvalidFile)
    } else if b.len() < header_size(b[4]) {
        Err(ParseError::InvalidFile)
    } else if b[5] != 1 && b[5] != 2 {
        Err(ParseError::InvalidFile)
    } else {
        let e = Endian::spec_from_code(b[5]);
        if b[4] == 1 {
            Ok(semantic::ELFHeader::spec_from_raw32(raw::spec_header32_of(b, e)))
        } else {
            Ok(semantic::ELFHeader::spec_from_raw64(raw::spec_header64_of(b, e)))
        }
    }
}

/// Decode the ELF header at the start of `buffer`.
///
/// The result equals [`spec_parse`] of the buffer's bytes, for every buffer;
/// the clauses after the first restate the rejections it is pinned to.
pub fn parse_header(buffer: &[u8]) -> (r: Result<semantic::ELFHeader, ParseError>)
    ensures
        r == spec_parse(buffer@),
        buffer@.len() < 5 ==> r == Err::<semantic::ELFHeader, ParseError>(ParseError::InvalidFile),
        buffer@.len() >= 5 && !valid_magic(buffer@) ==> r == Err::<
            semantic::ELFHeader,
            ParseError,
        >(ParseError::InvalidMagic([buffer@[0], buffer@[1], buffer@[2], buffer@[3]])),
        buffer@.len() >= 5 && valid_magic(buffer@) && buffer@[4] != 1 && buffer@[4] != 2 ==> r
            == Err::<semantic::ELFHeader, ParseError>(ParseError::InvalidFile),
{
    let p = match ZeroAllocationELFParser::new(buffer) {
        Ok(p) => p,
        Err(e) => {
            return Err(e);
        },
    };
    p.parse_elf_header()
}

/// Bytes `off` and `off + 1` of `b2` are those of `b1` exchanged.
pub open spec fn rev2(b1: Seq<u8>, b2: Seq<u8>, off: int) -> bool {
    &&& b2[off] == b1[off + 1]
    &&& b2[off + 1] == b1[off]
}

/// Bytes `off .. off + 4` of `b2` are those of `b1` reversed.
pub open spec fn rev4(b1: Seq<u8>, b2: Seq<u8>, off: int) -> bool {
    &&& b2[off] == b1[off + 3]
    &&& b2[off + 1] == b1[off + 2]
    &&& b2[off + 2] == b1[off + 1]
    &&& b2[off + 3] == b1[off]
}

/// Bytes `off .. off + 8` of `b2` are those of `b1` reversed.
pub open spec fn rev8(b1: Seq<u8>, b2: Seq<u8>, off: int) -> bool {
    &&& b2[off] == b1[off + 7]
    &&& b2[off + 1] == b1[off + 6]
    &&& b2[off + 2] == b1[off + 5]
    &&& b2[off + 3] == b1[off + 4]
    &&& b2[off + 4] == b1[off + 3]
    &&& b2[off + 5] == b1[off + 2]
    &&& b2[off + 6] == b1[off + 1]
    &&& b2[off + 7] == b1[off]
}

/// Storing every multi-byte field byte-reversed, and recording the opposite
/// byte order in the data-encoding byte, changes nothing in the decoded
/// header but the recorded order itself: the byte-order correction is applied
/// exactly once, to exactly the multi-byte fields.
///
/// `b1` is a valid little-endian 64-bit header; `b2` agrees with it on every
/// single-byte field, records big-endian instead, and stores each multi-byte
/// field with its bytes reversed.
pub proof fn lemma_byte_reversal_irrelevant_64(b1: Seq<u8>, b2: Seq<u8>)
    requires
        b1.len() >= 64,
        b2.len() >= 64,
        valid_magic(b1),
        b1[4] == 2,
        b1[5] == 1,
        b2[5] == 2,
        forall|i: int| 0 <= i < 16 && i != 5 ==> b2[i] == b1[i],
        rev2(b1, b2, 16),
        rev2(b1, b2, 18),
        rev4(b1, b2, 20),
        rev8(b1, b2, 24),
        rev8(b1, b2, 32),
        rev8(b1, b2, 40),
        rev4(b1, b2, 48),
        rev2(b1, b2, 52),
        rev2(b1, b2, 54),
        rev2(b1, b2, 56),
        rev2(b1, b2, 58),
        rev2(b1, b2, 60),
        rev2(b1, b2, 62),
    ensures
        spec_parse(b1) is Ok,
        spec_parse(b2) is Ok,
        ({
            let h1 = spec_parse(b1)->Ok_0;
            let h2 = spec_parse(b2)->Ok_0;
            &&& h1.e_ident.data == Endian::Little
            &&& h2.e_ident.data == Endian::Big
            &&& h2.e_ident.magic == h1.e_ident.magic
            &&& h2.e_ident.class == h1.e_ident.class
            &&& h2.e_ident.version == h1.e_ident.version
            &&& h2.e_ident.os_abi == h1.e_ident.os_abi
            &&& h2.e_ident.os_abi_version == h1.e_ident.os_abi_version
            &&& h2.e_type == h1.e_type
            &&& h2.e_machine == h1.e_machine
            &&& h2.e_version == h1.e_version
            &&& h2.e_entry == h1.e_entry
            &&& h2.e_phoff == h1.e_phoff
            &&& h2.e_shoff == h1.e_shoff
            &&& h2.e_flags == h1.e_flags
            &&& h2.e_ehsize == h1.e_ehsize
            &&& h2.e_phentsize == h1.e_phentsize
            &&& h2.e_phnum == h1.e_phnum
            &&& h2.e_shentsize == h1.e_shentsize
            &&& h2.e_shnum == h1.e_shnum
            &&& h2.e_shstrndx == h1.e_shstrndx
        }),
{
    assert(b2[0] == b1[0] && b2[1] == b1[1] && b2[2] == b1[2] && b2[3] == b1[3] && b2[4] == b1[4]);
    let r1 = raw::spec_header64_of(b1, Endian::Little);
    let r2 = raw::spec_header64_of(b2, Endian::Big);
    assert(r2.e_ident.magic =~= r1.e_ident.magic);
    let h1 = spec_parse(b1)->Ok_0;
    let h2 = spec_parse(b2)->Ok_0;
    assert(h2.e_ident.magic =~= h1.e_ident.magic);
}

/// The 32-bit counterpart of [`lemma_byte_reversal_irrelevant_64`].
pub proof fn lemma_byte_reversal_irrelevant_32(b1: Seq<u8>, b2: Seq<u8>)
    requires
        b1.len() >= 52,
        b2.len() >= 52,
        valid_magic(b1),
        b1[4] == 1,
        b1[5] == 1,
        b2[5] == 2,
        forall|i: int| 0 <= i < 16 && i != 5 ==> b2[i] == b1[i],
        rev2(b1, b2, 16),
        rev2(b1, b2, 18),
        rev4(b1, b2, 20),
        rev4(b1, b2, 24),
        rev4(b1, b2, 28),
        rev4(b1, b2, 32),
        rev4(b1, b2, 36),
        rev2(b1, b2, 40),
        rev2(b1, b2, 42),
        rev2(b1, b2, 44),
        rev2(b1, b2, 46),
        rev2(b1, b2, 48),
        rev2(b1, b2, 50),
    ensures
        spec_parse(b1) is Ok,
        spec_parse(b2) is Ok,
        ({
            let h1 = spec_parse(b1)->Ok_0;
            let h2 = spec_parse(b2)->Ok_0;
            &&& h1.e_ident.data == Endian::Little
            &&& h2.e_ident.data == Endian::Big
            &&& h2.e_ident.magic == h1.e_ident.magic
            &&& h2.e_ident.class == h1.e_ident.class
            &&& h2.e_ident.version == h1.e_ident.version
            &&& h2.e_ident.os_abi == h1.e_ident.os_abi
            &&& h2.e_ident.os_abi_version == h1.e_ident.os_abi_version
            &&& h2.e_type == h1.e_type
            &&& h2.e_machine == h1.e_machine
            &&& h2.e_version == h1.e_version
            &&& h2.e_entry == h1.e_entry
            &&& h2.e_phoff == h1.e_phoff
            &&& h2.e_shoff == h1.e_shoff
            &&& h2.e_flags == h1.e_flags
            &&& h2.e_ehsize == h1.e_ehsize
            &&& h2.e_phentsize == h1.e_phentsize
            &&& h2.e_phnum == h1.e_phnum
            &&& h2.e_shentsize == h1.e_shentsize
            &&& h2.e_shnum == h1.e_shnum
            &&& h2.e_shstrndx == h1.e_shstrndx
        }),
{
    assert(b2[0] == b1[0] && b2[1] == b1[1] && b2[2] == b1[2] && b2[3] == b1[3] && b2[4] == b1[4]);
    let r1 = raw::spec_header32_of(b1, Endian::Little);
    let r2 = raw::spec_header32_of(b2, Endian::Big);
    assert(r2.e_ident.magic =~= r1.e_ident.magic);
    let h1 = spec_parse(b1)->Ok_0;
    let h2 = spec_parse(b2)->Ok_0;
    assert(h2.e_ident.magic =~= h1.e_ident.magic);
}

} // verus!
