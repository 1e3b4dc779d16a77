use elf_header::raw::{ELFHeader, ELFIdentifier, SwapBytes};
use elf_header::zero_alloc::RawELFHeader;

fn sample() -> ELFHeader<u64> {
    ELFHeader {
        e_ident: ELFIdentifier {
            magic: [0x7f, 0x45, 0x4c, 0x46],
            class: 2,
            data: 2,
            version: 1,
            os_abi: 3,
            os_abi_version: 9,
            padding: [0; 7],
        },
        e_type: 0x1234,
        e_machine: 0x003e,
        e_version: 0x11223344,
        e_entry: 0x0102030405060708,
        e_phoff: 0x0000000000000400,
        e_shoff: 0xa0b0c0d0e0f01020,
        e_flags: 0xdeadbeef,
        e_ehsize: 0x0040,
        e_phentsize: 0x0038,
        e_phnum: 0x0002,
        e_shentsize: 0x0040,
        e_shnum: 0x0003,
        e_shstrndx: 0x0001,
    }
}

#[test]
fn swap_bytes_reverses_every_multi_byte_field() {
    let h = sample();
    let s = h.swap_bytes();
    assert_eq!(s.e_ident, h.e_ident);
    assert_eq!(s.e_type, 0x3412);
    assert_eq!(s.e_machine, 0x3e00);
    assert_eq!(s.e_version, 0x44332211);
    assert_eq!(s.e_entry, 0x0807060504030201);
    assert_eq!(s.e_phoff, 0x0004000000000000);
    assert_eq!(s.e_shoff, 0x2010f0e0d0c0b0a0);
    assert_eq!(s.e_flags, 0xefbeadde);
    assert_eq!(s.e_ehsize, 0x4000);
    assert_eq!(s.e_phentsize, 0x3800);
    assert_eq!(s.e_phnum, 0x0200);
    assert_eq!(s.e_shentsize, 0x4000);
    assert_eq!(s.e_shnum, 0x0300);
    assert_eq!(s.e_shstrndx, 0x0100);
}

#[test]
fn swap_bytes_is_self_inverse() {
    let h = sample();
    assert_eq!(h.swap_bytes().swap_bytes(), h);
}

#[test]
fn raw_header_accessors() {
    let raw = RawELFHeader::U64(sample());
    assert_eq!(raw.magic(), &[0x7f, 0x45, 0x4c, 0x46]);
    assert_eq!(*raw.endian(), 2);
    let swapped = raw.swap_bytes();
    // The identifier block, magic and data byte included, is untouched.
    assert_eq!(swapped.magic(), &[0x7f, 0x45, 0x4c, 0x46]);
    assert_eq!(*swapped.endian(), 2);
    match swapped {
        RawELFHeader::U64(h) => assert_eq!(h.e_type, 0x3412),
        RawELFHeader::U32(_) => panic!("class changed by swapping"),
    }
}

#[test]
fn integer_byte_reversal() {
    assert_eq!(SwapBytes::swap_bytes(0x11223344u32), 0x44332211u32);
    assert_eq!(
        SwapBytes::swap_bytes(0x1122334455667788u64),
        0x8877665544332211u64
    );
    assert_eq!(SwapBytes::swap_bytes(SwapBytes::swap_bytes(0xcafef00du32)), 0xcafef00du32);
}
