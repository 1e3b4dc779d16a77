//! The semantic header: the durable result of a successful parse, with every
//! coded field replaced by its domain enumeration or a width-normalized value.
//!
//! Every enumeration here is open: a code outside the known set maps to that
//! enumeration's `Unknown` variant carrying the original raw value, so nothing
//! is silently dropped or coerced.

use vstd::prelude::*;

use crate::raw;

verus! {

/// Byte order recorded in the identifier block (data-encoding byte).
#[derive(Debug, Clone, Copy, PartialEq, Eq, Structural)]
pub enum Endian {
    Little,
    Big,
}

impl Endian {
    /// The other byte order.
    pub open spec fn opposite(self) -> Endian {
        match self {
            Endian::Little => Endian::Big,
            Endian::Big => Endian::Little,
        }
    }
}

/// Header-version byte (offset 6 of the identifier block).
#[derive(Debug, Clone, Copy, PartialEq, Eq, Structural)]
pub enum Version {
    NoVersion,
    Current,
    Unknown(u8),
}

/// OS/ABI convention byte (offset 7 of the identifier block).
#[derive(Debug, Clone, Copy, PartialEq, Eq, Structural)]
pub enum OSABI {
    SystemV,
    HPUX,
    NetBSD,
    GNUOrLinux,
    Solaris,
    AIX,
    SGIIrix,
    FreeBSD,
    TRU64,
    NovellModesto,
    OpenBSD,
    ArmEABI,
    Arm,
    Standalone,
    Unknown(u8),
}

/// Machine architecture (2-byte field at offset 18).
#[derive(Debug, Clone, Copy, PartialEq, Eq, Structural)]
pub enum MachineType {
    AMD64,
    Unknown(u16),
}

/// Object-file kind (2-byte field at offset 16).
#[derive(Debug, Clone, Copy, PartialEq, Eq, Structural)]
pub enum FileType {
    NoType,
    Relocatable,
    Executable,
    DynamicLibrary,
    Core,
    Number,
    Unknown(u16),
}

/// Address-width class of the layout (class byte at offset 4).
#[derive(Debug, Clone, Copy, PartialEq, Eq, Structural)]
pub enum ELFClass {
    ELF32,
    ELF64,
}

impl Endian {
    /// Meaning of a data-encoding byte already known to be 1 or 2.
    pub open spec fn spec_from_code(d: u8) -> Endian
        recommends
            d == 1 || d == 2,
    {
        if d == 1 {
            Endian::Little
        } else {
            Endian::Big
        }
    }
}

impl Endian {
    pub fn from_code(d: u8) -> (r: Endian)
        ensures
            r == Endian::spec_from_code(d),
    {
        if d == 1 {
            Endian::Little
        } else {
            Endian::Big
        }
    }
}

impl ELFClass {
    /// Meaning of a class byte already known to be 1 or 2.
    pub open spec fn spec_from_code(c: u8) -> ELFClass
        recommends
            c == 1 || c == 2,
    {
        if c == 1 {
            ELFClass::ELF32
        } else {
            ELFClass::ELF64
        }
    }

    pub fn from_code(c: u8) -> (r: ELFClass)
        ensures
            r == ELFClass::spec_from_code(c),
    {
        if c == 1 {
            ELFClass::ELF32
        } else {
            ELFClass::ELF64
        }
    }
}

impl Version {
    /// Total mapping from the header-version byte.
    pub open spec fn spec_from_code(v: u8) -> Version {
        if v == 0 {
            Version::NoVersion
        } else if v == 1 {
            Version::Current
        } else {
            Version::Unknown(v)
        }
    }

    pub fn from_code(v: u8) -> (r: Version)
        ensures
            r == Version::spec_from_code(v),
    {
        if v == 0 {
            Version::NoVersion
        } else if v == 1 {
            Version::Current
        } else {
            Version::Unknown(v)
        }
    }
}

impl OSABI {
    /// Total mapping from the OS/ABI byte.
    pub open spec fn spec_from_code(v: u8) -> OSABI {
        if v == 0 {
            OSABI::SystemV
        } else if v == 1 {
            OSABI::HPUX
        } else if v == 2 {
            OSABI::NetBSD
        } else if v == 3 {
            OSABI::GNUOrLinux
        } else if v == 6 {
            OSABI::Solaris
        } else if v == 7 {
            OSABI::AIX
        } else if v == 8 {
            OSABI::SGIIrix
        } else if v == 9 {
            OSABI::FreeBSD
        } else if v == 10 {
            OSABI::TRU64
        } else if v == 11 {
            OSABI::NovellModesto
        } else if v == 12 {
            OSABI::OpenBSD
        } else if v == 64 {
            OSABI::ArmEABI
        } else if v == 97 {
            OSABI::Arm
        } else if v == 255 {
            OSABI::Standalone
        } else {
            OSABI::Unknown(v)
        }
    }

    pub fn from_code(v: u8) -> (r: OSABI)
        ensures
            r == OSABI::spec_from_code(v),
    {
        match v {
            0 => OSABI::SystemV,
            1 => OSABI::HPUX,
            2 => OSABI::NetBSD,
            3 => OSABI::GNUOrLinux,
            6 => OSABI::Solaris,
            7 => OSABI::AIX,
            8 => OSABI::SGIIrix,
            9 => OSABI::FreeBSD,
            10 => OSABI::TRU64,
            11 => OSABI::NovellModesto,
            12 => OSABI::OpenBSD,
            64 => OSABI::ArmEABI,
            97 => OSABI::Arm,
            255 => OSABI::Standalone,
            _ => OSABI::Unknown(v),
        }
    }
}

impl MachineType {
    /// Total mapping from the 2-byte machine code.
    pub open spec fn spec_from_code(v: u16) -> MachineType {
        if v == 62 {
            MachineType::AMD64
        } else {
            MachineType::Unknown(v)
        }
    }

    pub fn from_code(v: u16) -> (r: MachineType)
        ensures
            r == MachineType::spec_from_code(v),
    {
        if v == 62 {
            MachineType::AMD64
        } else {
            MachineType::Unknown(v)
        }
    }
}

impl FileType {
    /// Total mapping from the 2-byte object-type code.
    pub open spec fn spec_from_code(v: u16) -> FileType {
        if v == 0 {
            FileType::NoType
        } else if v == 1 {
            FileType::Relocatable
        } else if v == 2 {
            FileType::Executable
        } else if v == 3 {
            FileType::DynamicLibrary
        } else if v == 4 {
            FileType::Core
        } else if v == 5 {
            FileType::Number
        } else {
            FileType::Unknown(v)
        }
    }

    pub fn from_code(v: u16) -> (r: FileType)
        ensures
            r == FileType::spec_from_code(v),
    {
        match v {
            0 => FileType::NoType,
            1 => FileType::Relocatable,
            2 => FileType::Executable,
            3 => FileType::DynamicLibrary,
            4 => FileType::Core,
            5 => FileType::Number,
            _ => FileType::Unknown(v),
        }
    }
}

/// An unassigned machine code is never coerced: it always comes back as
/// `MachineType::Unknown` carrying the original value.
pub proof fn lemma_unknown_machine_preserved(v: u16)
    requires
        v != 62,
    ensures
        MachineType::spec_from_code(v) == MachineType::Unknown(v),
{
}

/// An unassigned object-type code is preserved in `FileType::Unknown`.
pub proof fn lemma_unknown_file_type_preserved(v: u16)
    requires
        v != 0,
        v != 1,
        v != 2,
        v != 3,
        v != 4,
        v != 5,
    ensures
        FileType::spec_from_code(v) == FileType::Unknown(v),
{
}

/// The decoded identifier block: every byte of it replaced by its meaning.
/// The padding bytes (offsets 9 to 15) carry no information and are not kept.
#[derive(Debug, Clone, Copy, PartialEq, Eq)]
pub struct ELFIdentifier {
    pub magic: [u8; 4],
    pub class: ELFClass,
    pub data: Endian,
    pub version: Version,
    pub os_abi: OSABI,
    pub os_abi_version: u8,
}

/// The public result of a parse. Addresses and offsets are width-normalized
/// to 64 bits whatever the source class (32-bit values zero-extended), so the
/// header owns no reference into the input buffer and may outlive it.
#[derive(Debug, Clone, Copy, PartialEq, Eq)]
pub struct ELFHeader {
    pub e_ident: ELFIdentifier,
    pub e_type: FileType,
    pub e_machine: MachineType,
    pub e_version: u32,
    pub e_entry: u64,
    pub e_phoff: u64,
    pub e_shoff: u64,
    pub e_flags: u32,
    pub e_ehsize: u16,
    pub e_phentsize: u16,
    pub e_phnum: u16,
    pub e_shentsize: u16,
    pub e_shnum: u16,
    pub e_shstrndx: u16,
}

impl ELFHeader {
    /// The semantic reading of a byte-order-corrected 32-bit layout record:
    /// every coded field mapped through its (total) enumeration, addresses
    /// zero-extended to 64 bits.
    pub open spec fn spec_from_raw32(h: raw::ELFHeader<u32>) -> ELFHeader {
        ELFHeader {
            e_ident: ELFIdentifier {
                magic: h.e_ident.magic,
                class: ELFClass::spec_from_code(h.e_ident.class),
                data: Endian::spec_from_code(h.e_ident.data),
                version: Version::spec_from_code(h.e_ident.version),
                os_abi: OSABI::spec_from_code(h.e_ident.os_abi),
                os_abi_version: h.e_ident.os_abi_version,
            },
            e_type: FileType::spec_from_code(h.e_type),
            e_machine: MachineType::spec_from_code(h.e_machine),
            e_version: h.e_version,
            e_entry: h.e_entry as u64,
            e_phoff: h.e_phoff as u64,
            e_shoff: h.e_shoff as u64,
            e_flags: h.e_flags,
            e_ehsize: h.e_ehsize,
            e_phentsize: h.e_phentsize,
            e_phnum: h.e_phnum,
            e_shentsize: h.e_shentsize,
            e_shnum: h.e_shnum,
            e_shstrndx: h.e_shstrndx,
        }
    }

    /// The semantic reading of a byte-order-corrected 64-bit layout record.
    pub open spec fn spec_from_raw64(h: raw::ELFHeader<u64>) -> ELFHeader {
        ELFHeader {
            e_ident: ELFIdentifier {
                magic: h.e_ident.magic,
                class: ELFClass::spec_from_code(h.e_ident.class),
                data: Endian::spec_from_code(h.e_ident.data),
                version: Version::spec_from_code(h.e_ident.version),
                os_abi: OSABI::spec_from_code(h.e_ident.os_abi),
                os_abi_version: h.e_ident.os_abi_version,
            },
            e_type: FileType::spec_from_code(h.e_type),
            e_machine: MachineType::spec_from_code(h.e_machine),
            e_version: h.e_version,
            e_entry: h.e_entry,
            e_phoff: h.e_phoff,
            e_shoff: h.e_shoff,
            e_flags: h.e_flags,
            e_ehsize: h.e_ehsize,
            e_phentsize: h.e_phentsize,
            e_phnum: h.e_phnum,
            e_shentsize: h.e_shentsize,
            e_shnum: h.e_shnum,
            e_shstrndx: h.e_shstrndx,
        }
    }

    /// Project a corrected 32-bit layout record into the semantic header.
    pub fn from_raw32(h: &raw::ELFHeader<u32>) -> (r: ELFHeader)
        ensures
            r == ELFHeader::spec_from_raw32(*h),
    {
        ELFHeader {
            e_ident: ELFIdentifier {
                magic: h.e_ident.magic,
                class: ELFClass::from_code(h.e_ident.class),
                data: Endian::from_code(h.e_ident.data),
                version: Version::from_code(h.e_ident.version),
                os_abi: OSABI::from_code(h.e_ident.os_abi),
                os_abi_version: h.e_ident.os_abi_version,
            },
            e_type: FileType::from_code(h.e_type),
            e_machine: MachineType::from_code(h.e_machine),
            e_version: h.e_version,
            e_entry: h.e_entry as u64,
            e_phoff: h.e_phoff as u64,
            e_shoff: h.e_shoff as u64,
            e_flags: h.e_flags,
            e_ehsize: h.e_ehsize,
            e_phentsize: h.e_phentsize,
            e_phnum: h.e_phnum,
            e_shentsize: h.e_shentsize,
            e_shnum: h.e_shnum,
            e_shstrndx: h.e_shstrndx,
        }
    }

    /// Project a corrected 64-bit layout record into the semantic header.
    pub fn from_raw64(h: &raw::ELFHeader<u64>) -> (r: ELFHeader)
        ensures
            r == ELFHeader::spec_from_raw64(*h),
    {
        ELFHeader {
            e_ident: ELFIdentifier {
                magic: h.e_ident.magic,
                class: ELFClass::from_code(h.e_ident.class),
                data: Endian::from_code(h.e_ident.data),
                version: Version::from_code(h.e_ident.version),
                os_abi: OSABI::from_code(h.e_ident.os_abi),
                os_abi_version: h.e_ident.os_abi_version,
            },
            e_type: FileType::from_code(h.e_type),
            e_machine: MachineType::from_code(h.e_machine),
            e_version: h.e_version,
            e_entry: h.e_entry,
            e_phoff: h.e_phoff,
            e_shoff: h.e_shoff,
            e_flags: h.e_flags,
            e_ehsize: h.e_ehsize,
            e_phentsize: h.e_phentsize,
            e_phnum: h.e_phnum,
            e_shentsize: h.e_shentsize,
            e_shnum: h.e_shnum,
            e_shstrndx: h.e_shstrndx,
        }
    }
}

} // verus!
