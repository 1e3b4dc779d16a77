use elf_header::parse_header;
use elf_header::parser::ELFParser;
use elf_header::semantic::{ELFClass, Endian, FileType, MachineType, OSABI, Version};
use elf_header::zero_alloc::ZeroAllocationELFParser;
use elf_header::ParseError;

/// A well-formed little-endian 64-bit header with distinctive field values.
fn le64_bytes() -> Vec<u8> {
    let mut b = vec![0u8; 64];
    b[0] = 0x7f;
    b[1] = 0x45;
    b[2] = 0x4c;
    b[3] = 0x46;
    b[4] = 2; // class: 64-bit
    b[5] = 1; // data: little-endian
    b[6] = 1; // header version: current
    b[7] = 0; // OS/ABI: System V
    b[8] = 0; // ABI version
    // bytes 9..16: padding, already zero
    b[16] = 2; // object type: executable
    b[18] = 62; // machine: AMD64
    b[20] = 1; // ELF version 1
    // entry = 0x0000000012345678
    b[24] = 0x78;
    b[25] = 0x56;
    b[26] = 0x34;
    b[27] = 0x12;
    b[32] = 64; // program-header offset = 64
    b[40] = 0x00; // section-header offset = 0x1200
    b[41] = 0x12;
    b[48] = 5; // flags = 5
    b[52] = 64; // header size
    b[54] = 56; // program-header entry size
    b[56] = 2; // program-header count
    b[58] = 64; // section-header entry size
    b[60] = 3; // section-header count
    b[62] = 1; // section-name table index
    b
}

/// The same header with every multi-byte field byte-reversed and the
/// data-encoding byte saying big-endian.
fn be64_bytes() -> Vec<u8> {
    let le = le64_bytes();
    let mut b = le.clone();
    b[5] = 2; // data: big-endian
    let fields: [(usize, usize); 13] = [
        (16, 2),
        (18, 2),
        (20, 4),
        (24, 8),
        (32, 8),
        (40, 8),
        (48, 4),
        (52, 2),
        (54, 2),
        (56, 2),
        (58, 2),
        (60, 2),
        (62, 2),
    ];
    for (off, w) in fields {
        for k in 0..w {
            b[off + k] = le[off + w - 1 - k];
        }
    }
    b
}

/// A well-formed little-endian 32-bit header.
fn le32_bytes() -> Vec<u8> {
    let mut b = vec![0u8; 52];
    b[0] = 0x7f;
    b[1] = 0x45;
    b[2] = 0x4c;
    b[3] = 0x46;
    b[4] = 1; // class: 32-bit
    b[5] = 1; // data: little-endian
    b[6] = 1;
    b[16] = 3; // object type: dynamic library
    b[18] = 62;
    b[20] = 1;
    // entry = 0x8048000
    b[24] = 0x00;
    b[25] = 0x80;
    b[26] = 0x04;
    b[27] = 0x08;
    b[28] = 52; // program-header offset
    b[32] = 0xff; // section-header offset = 0xff
    b[36] = 7; // flags
    b[40] = 52; // header size
    b[42] = 32;
    b[44] = 4;
    b[46] = 40;
    b[48] = 9;
    b[50] = 8;
    b
}

#[test]
fn it_works() {
    let bytes = le64_bytes();
    let header = parse_header(&bytes).unwrap();
    println!("{header:#x?}");
}

#[test]
fn has_valid_magic() {
    let raw_data = le64_bytes();
    let parser = ZeroAllocationELFParser::new(&raw_data).unwrap();
    assert!(parser.has_valid_magic());
}

#[test]
fn short_buffers_are_invalid_file() {
    for n in 0..5 {
        let b = vec![0x7fu8; n];
        assert_eq!(parse_header(&b), Err(ParseError::InvalidFile));
    }
    // Even a short prefix of a valid header is rejected for its length.
    let b = [0x7f, 0x45, 0x4c, 0x46];
    assert_eq!(parse_header(&b), Err(ParseError::InvalidFile));
}

#[test]
fn wrong_magic_reports_the_bytes() {
    let mut b = le64_bytes();
    b[0] = 0x41;
    b[1] = 0x42;
    b[2] = 0x43;
    b[3] = 0x44;
    assert_eq!(
        parse_header(&b),
        Err(ParseError::InvalidMagic([0x41, 0x42, 0x43, 0x44]))
    );
    // One byte off is enough.
    let mut c = le64_bytes();
    c[3] = 0x47;
    assert_eq!(
        parse_header(&c),
        Err(ParseError::InvalidMagic([0x7f, 0x45, 0x4c, 0x47]))
    );
}

#[test]
fn unrecognized_class_is_invalid_file() {
    for class in [0u8, 3, 4, 0xff] {
        let mut b = le64_bytes();
        b[4] = class;
        assert_eq!(parse_header(&b), Err(ParseError::InvalidFile));
    }
}

#[test]
fn unrecognized_data_encoding_is_invalid_file() {
    for data in [0u8, 3, 0xff] {
        let mut b = le64_bytes();
        b[5] = data;
        assert_eq!(parse_header(&b), Err(ParseError::InvalidFile));
    }
}

#[test]
fn truncated_record_is_invalid_file() {
    let b = le64_bytes();
    assert_eq!(parse_header(&b[..63]), Err(ParseError::InvalidFile));
    let c = le32_bytes();
    assert_eq!(parse_header(&c[..51]), Err(ParseError::InvalidFile));
    // A 52-byte buffer is enough for the 32-bit class, not for the 64-bit one.
    let mut d = le32_bytes();
    d[4] = 2;
    assert_eq!(parse_header(&d), Err(ParseError::InvalidFile));
}

#[test]
fn round_trip_le64() {
    let h = parse_header(&le64_bytes()).unwrap();
    assert_eq!(h.e_ident.magic, [0x7f, 0x45, 0x4c, 0x46]);
    assert_eq!(h.e_ident.class, ELFClass::ELF64);
    assert_eq!(h.e_ident.data, Endian::Little);
    assert_eq!(h.e_ident.version, Version::Current);
    assert_eq!(h.e_ident.os_abi, OSABI::SystemV);
    assert_eq!(h.e_ident.os_abi_version, 0);
    assert_eq!(h.e_type, FileType::Executable);
    assert_eq!(h.e_machine, MachineType::AMD64);
    assert_eq!(h.e_version, 1);
    assert_eq!(h.e_entry, 0x12345678);
    assert_eq!(h.e_phoff, 64);
    assert_eq!(h.e_shoff, 0x1200);
    assert_eq!(h.e_flags, 5);
    assert_eq!(h.e_ehsize, 64);
    assert_eq!(h.e_phentsize, 56);
    assert_eq!(h.e_phnum, 2);
    assert_eq!(h.e_shentsize, 64);
    assert_eq!(h.e_shnum, 3);
    assert_eq!(h.e_shstrndx, 1);
}

#[test]
fn byte_reversed_fields_decode_alike() {
    let h1 = parse_header(&le64_bytes()).unwrap();
    let h2 = parse_header(&be64_bytes()).unwrap();
    assert_eq!(h1.e_ident.data, Endian::Little);
    assert_eq!(h2.e_ident.data, Endian::Big);
    assert_eq!(h2.e_ident.magic, h1.e_ident.magic);
    assert_eq!(h2.e_ident.class, h1.e_ident.class);
    assert_eq!(h2.e_ident.version, h1.e_ident.version);
    assert_eq!(h2.e_ident.os_abi, h1.e_ident.os_abi);
    assert_eq!(h2.e_type, h1.e_type);
    assert_eq!(h2.e_machine, h1.e_machine);
    assert_eq!(h2.e_version, h1.e_version);
    assert_eq!(h2.e_entry, h1.e_entry);
    assert_eq!(h2.e_phoff, h1.e_phoff);
    assert_eq!(h2.e_shoff, h1.e_shoff);
    assert_eq!(h2.e_flags, h1.e_flags);
    assert_eq!(h2.e_ehsize, h1.e_ehsize);
    assert_eq!(h2.e_phentsize, h1.e_phentsize);
    assert_eq!(h2.e_phnum, h1.e_phnum);
    assert_eq!(h2.e_shentsize, h1.e_shentsize);
    assert_eq!(h2.e_shnum, h1.e_shnum);
    assert_eq!(h2.e_shstrndx, h1.e_shstrndx);
}

#[test]
fn unknown_machine_is_preserved() {
    let mut b = le64_bytes();
    b[18] = 0xff;
    b[19] = 0xff;
    let h = parse_header(&b).unwrap();
    assert_eq!(h.e_machine, MachineType::Unknown(0xffff));
}

#[test]
fn le64_concrete_scenario() {
    // magic, class=2, data=1, version=1, OS/ABI=0, object type=2.
    let h = parse_header(&le64_bytes()).unwrap();
    assert_eq!(h.e_ident.data, Endian::Little);
    assert_eq!(h.e_ident.version, Version::Current);
    assert_eq!(h.e_ident.os_abi, OSABI::SystemV);
    assert_eq!(h.e_type, FileType::Executable);
}

#[test]
fn be64_concrete_scenario() {
    // Same buffer with data=2 and the object-type bytes stored as 00 02.
    let mut b = le64_bytes();
    b[5] = 2;
    b[16] = 0x00;
    b[17] = 0x02;
    let h = parse_header(&b).unwrap();
    assert_eq!(h.e_ident.data, Endian::Big);
    assert_eq!(h.e_type, FileType::Executable);
}

#[test]
fn class32_widens_addresses() {
    let h = parse_header(&le32_bytes()).unwrap();
    assert_eq!(h.e_ident.class, ELFClass::ELF32);
    assert_eq!(h.e_type, FileType::DynamicLibrary);
    assert_eq!(h.e_machine, MachineType::AMD64);
    assert_eq!(h.e_entry, 0x8048000);
    assert_eq!(h.e_phoff, 52);
    assert_eq!(h.e_shoff, 0xff);
    assert_eq!(h.e_flags, 7);
    assert_eq!(h.e_ehsize, 52);
    assert_eq!(h.e_phentsize, 32);
    assert_eq!(h.e_phnum, 4);
    assert_eq!(h.e_shentsize, 40);
    assert_eq!(h.e_shnum, 9);
    assert_eq!(h.e_shstrndx, 8);
}

#[test]
fn big_endian_32_bit_header() {
    let mut b = vec![0u8; 52];
    b[0] = 0x7f;
    b[1] = 0x45;
    b[2] = 0x4c;
    b[3] = 0x46;
    b[4] = 1;
    b[5] = 2; // big-endian
    b[16] = 0x00; // object type 00 01 = relocatable
    b[17] = 0x01;
    b[18] = 0x00;
    b[19] = 62;
    b[24] = 0x12; // entry = 0x12345678 stored big-endian
    b[25] = 0x34;
    b[26] = 0x56;
    b[27] = 0x78;
    let h = parse_header(&b).unwrap();
    assert_eq!(h.e_ident.data, Endian::Big);
    assert_eq!(h.e_type, FileType::Relocatable);
    assert_eq!(h.e_machine, MachineType::AMD64);
    assert_eq!(h.e_entry, 0x12345678);
}

#[test]
fn version_codes() {
    for (code, want) in [
        (0u8, Version::NoVersion),
        (1, Version::Current),
        (7, Version::Unknown(7)),
    ] {
        let mut b = le64_bytes();
        b[6] = code;
        assert_eq!(parse_header(&b).unwrap().e_ident.version, want);
    }
}

#[test]
fn os_abi_codes() {
    for (code, want) in [
        (0u8, OSABI::SystemV),
        (1, OSABI::HPUX),
        (2, OSABI::NetBSD),
        (3, OSABI::GNUOrLinux),
        (4, OSABI::Unknown(4)),
        (6, OSABI::Solaris),
        (7, OSABI::AIX),
        (8, OSABI::SGIIrix),
        (9, OSABI::FreeBSD),
        (10, OSABI::TRU64),
        (11, OSABI::NovellModesto),
        (12, OSABI::OpenBSD),
        (13, OSABI::Unknown(13)),
        (64, OSABI::ArmEABI),
        (97, OSABI::Arm),
        (255, OSABI::Standalone),
    ] {
        let mut b = le64_bytes();
        b[7] = code;
        assert_eq!(parse_header(&b).unwrap().e_ident.os_abi, want);
    }
}

#[test]
fn file_type_codes() {
    for (code, want) in [
        (0u8, FileType::NoType),
        (1, FileType::Relocatable),
        (2, FileType::Executable),
        (3, FileType::DynamicLibrary),
        (4, FileType::Core),
        (5, FileType::Number),
        (6, FileType::Unknown(6)),
    ] {
        let mut b = le64_bytes();
        b[16] = code;
        assert_eq!(parse_header(&b).unwrap().e_type, want);
    }
    let mut b = le64_bytes();
    b[16] = 0xce;
    b[17] = 0xfa;
    assert_eq!(parse_header(&b).unwrap().e_type, FileType::Unknown(0xface));
}
