//! A parser that allocates nothing: the layout record is copied field by
//! field onto the stack at construction, and the buffer is not held onto.
//!
//! Construction front-loads all the validation: buffer length, magic, class
//! byte, the exact record size of the detected class, and the data-encoding
//! byte. Decoding a constructed parser cannot fail.

use vstd::prelude::*;

use crate::bytes::native_endian;
use crate::parser::ELFParser;
use crate::raw;
use crate::raw::{
    lemma_header32_swap, lemma_header64_swap, read_header32, read_header64, spec_header32_of,
    spec_header64_of,
};
use crate::semantic;
use crate::semantic::Endian;
use crate::{header_size, spec_parse, valid_magic, ParseError};

verus! {

/// The layout record for the class detected at construction.
#[derive(Debug, Clone, Copy)]
pub enum RawELFHeader {
    U32(raw::ELFHeader<u32>),
    U64(raw::ELFHeader<u64>),
}

impl RawELFHeader {
    /// The identifier block, common to both classes.
    pub open spec fn spec_ident(self) -> raw::ELFIdentifier {
        match self {
            RawELFHeader::U32(h) => h.e_ident,
            RawELFHeader::U64(h) => h.e_ident,
        }
    }

    /// The record with every multi-byte field byte-reversed, whichever class
    /// it holds.
    pub open spec fn spec_swap_bytes(self) -> Self {
        match self {
            RawELFHeader::U32(h) => RawELFHeader::U32(h.spec_swap_bytes()),
            RawELFHeader::U64(h) => RawELFHeader::U64(h.spec_swap_bytes()),
        }
    }

    /// The magic bytes of the identifier block.
    pub fn magic(&self) -> (r: &[u8; 4])
        ensures
            *r == self.spec_ident().magic,
    {
        match self {
            RawELFHeader::U32(h) => &h.e_ident.magic,
            RawELFHeader::U64(h) => &h.e_ident.magic,
        }
    }

    /// The data-encoding byte of the identifier block.
    pub fn endian(&self) -> (r: &u8)
        ensures
            *r == self.spec_ident().data,
    {
        match self {
            RawELFHeader::U32(h) => &h.e_ident.data,
            RawELFHeader::U64(h) => &h.e_ident.data,
        }
    }

    /// Reverse every multi-byte field of the record it holds.
    pub fn swap_bytes(&self) -> (r: Self)
        ensures
            r == self.spec_swap_bytes(),
    {
        match self {
            RawELFHeader::U32(h) => RawELFHeader::U32(h.swap_bytes()),
            RawELFHeader::U64(h) => RawELFHeader::U64(h.swap_bytes()),
        }
    }
}

/// A parser handle over a validated buffer. It holds the layout record read
/// in the decoding machine's own byte order, and which byte order that is.
pub struct ZeroAllocationELFParser {
    raw_elf_header: RawELFHeader,
    native: Endian,
    buf: Ghost<Seq<u8>>,
}

impl ZeroAllocationELFParser {
    /// Validate `raw_data` and build a parser over it.
    ///
    /// Checks, in order: length at least 5 (magic and class byte), the magic
    /// itself, a class byte of 1 or 2, length at least the exact record size
    /// of that class, and a data-encoding byte of 1 or 2. An unrecognized
    /// data-encoding byte is rejected rather than defaulted.
    pub fn new(raw_data: &[u8]) -> (r: Result<Self, ParseError>)
        ensures
            match r {
                Ok(p) => p.inv() && p.buffer() == raw_data@ && spec_parse(raw_data@) is Ok,
                Err(e) => spec_parse(raw_data@) is Err && spec_parse(raw_data@)->Err_0 == e,
            },
    {
        let n: usize = raw_data.len();
        if n < 5 {
            return Err(ParseError::InvalidFile);
        }
        if !(raw_data[0] == 0x7f && raw_data[1] == 0x45 && raw_data[2] == 0x4c && raw_data[3]
            == 0x46) {
            let m: [u8; 4] = [raw_data[0], raw_data[1], raw_data[2], raw_data[3]];
            proof {
                assert(m =~= [raw_data@[0], raw_data@[1], raw_data@[2], raw_data@[3]]);
            }
            return Err(ParseError::InvalidMagic(m));
        }
        let elf_class: u8 = raw_data[4];
        if elf_class != 1 && elf_class != 2 {
            return Err(ParseError::InvalidFile);
        }
        if elf_class == 1 && n < 52 {
            return Err(ParseError::InvalidFile);
        }
        if elf_class == 2 && n < 64 {
            return Err(ParseError::InvalidFile);
        }
        let data: u8 = raw_data[5];
        if data != 1 && data != 2 {
            return Err(ParseError::InvalidFile);
        }
        let native: Endian = native_endian();
        let raw_elf_header: RawELFHeader = if elf_class == 1 {
            RawELFHeader::U32(read_header32(raw_data, native))
        } else {
            RawELFHeader::U64(read_header64(raw_data, native))
        };
        Ok(ZeroAllocationELFParser { raw_elf_header, native, buf: Ghost(raw_data@) })
    }
}

impl ELFParser for ZeroAllocationELFParser {
    closed spec fn buffer(&self) -> Seq<u8> {
        self.buf@
    }

    closed spec fn inv(&self) -> bool {
        let b = self.buf@;
        &&& b.len() >= 5
        &&& valid_magic(b)
        &&& (b[4] == 1 || b[4] == 2)
        &&& b.len() >= header_size(b[4])
        &&& (b[5] == 1 || b[5] == 2)
        &&& match self.raw_elf_header {
            RawELFHeader::U32(h) => b[4] == 1 && h == spec_header32_of(b, self.native),
            RawELFHeader::U64(h) => b[4] == 2 && h == spec_header64_of(b, self.native),
        }
    }

    fn has_valid_magic(&self) -> (r: bool) {
        let m: &[u8; 4] = self.raw_elf_header.magic();
        m[0] == 0x7f && m[1] == 0x45 && m[2] == 0x4c && m[3] == 0x46
    }

    fn parse_elf_header(&self) -> (r: Result<semantic::ELFHeader, ParseError>) {
        let data: u8 = *self.raw_elf_header.endian();
        let needs_swap: bool = (self.native == Endian::Little && data == 2) || (self.native
            == Endian::Big && data == 1);
        let corrected: RawELFHeader = if needs_swap {
            proof {
                match self.raw_elf_header {
                    RawELFHeader::U32(_h) => lemma_header32_swap(self.buf@, self.native),
                    RawELFHeader::U64(_h) => lemma_header64_swap(self.buf@, self.native),
                }
            }
            self.raw_elf_header.swap_bytes()
        } else {
            self.raw_elf_header
        };
        match corrected {
            RawELFHeader::U32(h) => Ok(semantic::ELFHeader::from_raw32(&h)),
            RawELFHeader::U64(h) => Ok(semantic::ELFHeader::from_raw64(&h)),
        }
    }
}

} // verus!
