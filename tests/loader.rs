use rustpush_nac::loader::{
    get_x64_slice, read_fat_arches, select_x64_slice, FatArchEntry, CPU_TYPE_X86_64,
};
use rustpush_nac::FormatError;

const CPU_TYPE_ARM64: u32 = 0x0100_000c;

fn be32(v: u32) -> [u8; 4] {
    v.to_be_bytes()
}

// A 64-bit Mach-O header with no load commands.
fn thin_macho64() -> Vec<u8> {
    let mut h = Vec::new();
    for w in [0xfeed_facfu32, CPU_TYPE_X86_64, 3, 6, 0, 0, 0, 0] {
        h.extend_from_slice(&w.to_le_bytes());
    }
    h
}

// A 32-bit Mach-O header with no load commands.
fn thin_macho32() -> Vec<u8> {
    let mut h = Vec::new();
    for w in [0xfeed_faceu32, 7, 3, 6, 0, 0, 0] {
        h.extend_from_slice(&w.to_le_bytes());
    }
    h
}

fn fat_with(cputype: u32, slice: &[u8]) -> Vec<u8> {
    let mut b = Vec::new();
    b.extend_from_slice(&be32(0xcafe_babe));
    b.extend_from_slice(&be32(1));
    b.extend_from_slice(&be32(cputype));
    b.extend_from_slice(&be32(3));
    b.extend_from_slice(&be32(32));
    b.extend_from_slice(&be32(slice.len() as u32));
    b.extend_from_slice(&be32(0));
    b.resize(32, 0);
    b.extend_from_slice(slice);
    b
}

#[test]
fn test() {
    let binary = fat_with(CPU_TYPE_X86_64, &thin_macho64());
    let x64_slice = get_x64_slice(&binary);
    assert!(x64_slice.is_ok());
}

#[test]
fn x64_slice_has_declared_size_and_magic() {
    let slice = thin_macho64();
    let binary = fat_with(CPU_TYPE_X86_64, &slice);
    let got = get_x64_slice(&binary).unwrap();
    assert_eq!(got.len(), 32);
    assert_eq!(&got[..4], &[0xcf, 0xfa, 0xed, 0xfe]);
    assert_eq!(got, slice);
}

#[test]
fn container_without_x64_is_refused() {
    let binary = fat_with(CPU_TYPE_ARM64, &thin_macho64());
    assert_eq!(get_x64_slice(&binary), Err(FormatError::MissingArch));
}

#[test]
fn thin_binary_is_not_fat() {
    assert_eq!(get_x64_slice(&thin_macho64()), Err(FormatError::NotFat));
    assert_eq!(get_x64_slice(&[]), Err(FormatError::NotFat));
}

#[test]
fn x64_entry_with_other_magic_is_refused() {
    let binary = fat_with(CPU_TYPE_X86_64, &thin_macho32());
    assert_eq!(get_x64_slice(&binary), Err(FormatError::BadSliceMagic));
}

#[test]
fn select_takes_first_x64_entry() {
    let binary = vec![0u8, 1, 0xcf, 0xfa, 0xed, 0xfe, 9, 0xcf, 0xfa, 0xed, 0xfe];
    let arches = [
        FatArchEntry { cputype: CPU_TYPE_ARM64, offset: 0, size: 2 },
        FatArchEntry { cputype: CPU_TYPE_X86_64, offset: 2, size: 5 },
        FatArchEntry { cputype: CPU_TYPE_X86_64, offset: 7, size: 4 },
    ];
    assert_eq!(select_x64_slice(&binary, &arches), Ok(vec![0xcf, 0xfa, 0xed, 0xfe, 9]));
}

#[test]
fn select_refuses_out_of_range_entry() {
    let binary = vec![0xcf, 0xfa, 0xed, 0xfe];
    let arches = [FatArchEntry { cputype: CPU_TYPE_X86_64, offset: 2, size: 4 }];
    assert_eq!(select_x64_slice(&binary, &arches), Err(FormatError::MissingArch));
    let short = [FatArchEntry { cputype: CPU_TYPE_X86_64, offset: 0, size: 3 }];
    assert_eq!(select_x64_slice(&binary, &short), Err(FormatError::BadSliceMagic));
    assert_eq!(select_x64_slice(&binary, &[]), Err(FormatError::MissingArch));
}

#[test]
fn fat64_header_is_read() {
    let slice = thin_macho64();
    let mut b = Vec::new();
    b.extend_from_slice(&be32(0xcafe_babf));
    b.extend_from_slice(&be32(1));
    b.extend_from_slice(&be32(CPU_TYPE_X86_64));
    b.extend_from_slice(&be32(3));
    b.extend_from_slice(&48u64.to_be_bytes());
    b.extend_from_slice(&(slice.len() as u64).to_be_bytes());
    b.extend_from_slice(&be32(0));
    b.extend_from_slice(&be32(0));
    b.resize(48, 0);
    b.extend_from_slice(&slice);
    assert_eq!(
        read_fat_arches(&b),
        Some(vec![FatArchEntry { cputype: CPU_TYPE_X86_64, offset: 48, size: 32 }])
    );
    assert_eq!(get_x64_slice(&b), Ok(slice));
}

#[test]
fn entry_past_the_end_is_not_fat() {
    let mut binary = fat_with(CPU_TYPE_X86_64, &thin_macho64());
    binary.truncate(60);
    assert_eq!(read_fat_arches(&binary), None);
    assert_eq!(get_x64_slice(&binary), Err(FormatError::NotFat));
}

#[test]
fn malformed_load_command_does_not_matter() {
    // One LC_RPATH command whose string offset exceeds its size.
    let mut slice = thin_macho64();
    slice[16..20].copy_from_slice(&1u32.to_le_bytes());
    slice[20..24].copy_from_slice(&12u32.to_le_bytes());
    for w in [0x8000_001cu32, 12, 0xffff] {
        slice.extend_from_slice(&w.to_le_bytes());
    }
    let binary = fat_with(CPU_TYPE_X86_64, &slice);
    assert_eq!(get_x64_slice(&binary), Ok(slice));
}
