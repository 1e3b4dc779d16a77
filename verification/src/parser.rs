//! The parsing interface.
//!
//! Decoding is a pure, bounded computation over an in-memory buffer: it never
//! blocks and never yields. Callers that compose the decode with I/O-bound
//! work can wrap these calls in whatever asynchronous shell they use; the
//! calls themselves are plain.

use vstd::prelude::*;

use crate::semantic;
use crate::ParseError;

verus! {

/// A header parser constructed over one buffer.
pub trait ELFParser {
    /// The buffer the parser was constructed over.
    spec fn buffer(&self) -> Seq<u8>;

    /// What construction established about the buffer.
    spec fn inv(&self) -> bool;

    /// Whether the buffer starts with the fixed four-byte ELF magic.
    fn has_valid_magic(&self) -> (r: bool)
        requires
            self.inv(),
        ensures
            r == crate::valid_magic(self.buffer()),
    ;

    /// Decode the buffer's header into its semantic form.
    fn parse_elf_header(&self) -> (r: Result<semantic::ELFHeader, ParseError>)
        requires
            self.inv(),
        ensures
            r == crate::spec_parse(self.buffer()),
    ;
}

} // verus!
