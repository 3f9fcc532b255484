use vstd::prelude::*;

use crate::error::EmulationFault;
use crate::objects::bytes_eq;
use vstd::string::{StrSliceExecFns, StringSliceAdditionalSpecFns};

verus! {

/// Base address of the trampoline region that hooks are assigned addresses in.
pub const HOOK_BASE: u64 = 0xD0_0000;

/// Size in bytes of the trampoline region.
pub const HOOK_SIZE: u64 = 0x10_0000;

/// The number of hooks in the table.
pub const HOOK_COUNT: usize = 37;

/// The single-byte x86 `ret` instruction that fills the trampoline region.
pub const RET_OPCODE: u8 = 0xc3;

/// One imported symbol of the vendor binary that the harness answers.
#[derive(Debug, Clone, Copy, PartialEq, Eq, Structural)]
pub enum Hook {
    Malloc,
    StackChkGuard,
    MemsetChk,
    Sysctlbyname,
    Memcpy,
    IOMasterPortDefault,
    IORegistryEntryFromPath,
    CFAllocatorDefault,
    IORegistryEntryCreateCFProperty,
    CFGetTypeID,
    CFStringGetTypeID,
    CFDataGetTypeID,
    CFDataGetLength,
    CFDataGetBytes,
    CFRelease,
    IOObjectRelease,
    StatfsInode64,
    DASessionCreate,
    DADiskCreateFromBSDName,
    DADiskDescriptionVolumeUUIDKey,
    DADiskCopyDescription,
    CFDictionaryGetValue,
    CFUUIDCreateString,
    CFStringGetLength,
    CFStringGetMaximumSizeForEncoding,
    CFStringGetCString,
    Free,
    IOServiceMatching,
    IOServiceGetMatchingService,
    CFDictionaryCreateMutable,
    CFBooleanTrue,
    CFDictionarySetValue,
    IOServiceGetMatchingServices,
    IOIteratorNext,
    Bzero,
    IORegistryEntryGetParentEntry,
    Arc4random,
}

impl Hook {
    /// The hook's position in the table.
    pub open spec fn index_spec(self) -> int {
        match self {
            Hook::Malloc => 0,
            Hook::StackChkGuard => 1,
            Hook::MemsetChk => 2,
            Hook::Sysctlbyname => 3,
            Hook::Memcpy => 4,
            Hook::IOMasterPortDefault => 5,
            Hook::IORegistryEntryFromPath => 6,
            Hook::CFAllocatorDefault => 7,
            Hook::IORegistryEntryCreateCFProperty => 8,
            Hook::CFGetTypeID => 9,
            Hook::CFStringGetTypeID => 10,
            Hook::CFDataGetTypeID => 11,
            Hook::CFDataGetLength => 12,
            Hook::CFDataGetBytes => 13,
            Hook::CFRelease => 14,
            Hook::IOObjectRelease => 15,
            Hook::StatfsInode64 => 16,
            Hook::DASessionCreate => 17,
            Hook::DADiskCreateFromBSDName => 18,
            Hook::DADiskDescriptionVolumeUUIDKey => 19,
            Hook::DADiskCopyDescription => 20,
            Hook::CFDictionaryGetValue => 21,
            Hook::CFUUIDCreateString => 22,
            Hook::CFStringGetLength => 23,
            Hook::CFStringGetMaximumSizeForEncoding => 24,
            Hook::CFStringGetCString => 25,
            Hook::Free => 26,
            Hook::IOServiceMatching => 27,
            Hook::IOServiceGetMatchingService => 28,
            Hook::CFDictionaryCreateMutable => 29,
            Hook::CFBooleanTrue => 30,
            Hook::CFDictionarySetValue => 31,
            Hook::IOServiceGetMatchingServices => 32,
            Hook::IOIteratorNext => 33,
            Hook::Bzero => 34,
            Hook::IORegistryEntryGetParentEntry => 35,
            Hook::Arc4random => 36,
        }
    }

    /// How many arguments the hook takes.
    pub open spec fn arity_spec(self) -> int {
        match self {
            Hook::Malloc => 1,
            Hook::StackChkGuard => 0,
            Hook::MemsetChk => 4,
            Hook::Sysctlbyname => 5,
            Hook::Memcpy => 3,
            Hook::IOMasterPortDefault => 0,
            Hook::IORegistryEntryFromPath => 1,
            Hook::CFAllocatorDefault => 0,
            Hook::IORegistryEntryCreateCFProperty => 4,
            Hook::CFGetTypeID => 1,
            Hook::CFStringGetTypeID => 0,
            Hook::CFDataGetTypeID => 0,
            Hook::CFDataGetLength => 1,
            Hook::CFDataGetBytes => 4,
            Hook::CFRelease => 0,
            Hook::IOObjectRelease => 0,
            Hook::StatfsInode64 => 0,
            Hook::DASessionCreate => 0,
            Hook::DADiskCreateFromBSDName => 0,
            Hook::DADiskDescriptionVolumeUUIDKey => 0,
            Hook::DADiskCopyDescription => 0,
            Hook::CFDictionaryGetValue => 2,
            Hook::CFUUIDCreateString => 2,
            Hook::CFStringGetLength => 1,
            Hook::CFStringGetMaximumSizeForEncoding => 2,
            Hook::CFStringGetCString => 4,
            Hook::Free => 0,
            Hook::IOServiceMatching => 1,
            Hook::IOServiceGetMatchingService => 0,
            Hook::CFDictionaryCreateMutable => 0,
            Hook::CFBooleanTrue => 0,
            Hook::CFDictionarySetValue => 3,
            Hook::IOServiceGetMatchingServices => 3,
            Hook::IOIteratorNext => 1,
            Hook::Bzero => 2,
            Hook::IORegistryEntryGetParentEntry => 3,
            Hook::Arc4random => 0,
        }
    }

    /// The symbol the hook stands in for.
    pub open spec fn symbol_spec(self) -> &'static str {
        match self {
            Hook::Malloc => "_malloc",
            Hook::StackChkGuard => "___stack_chk_guard",
            Hook::MemsetChk => "___memset_chk",
            Hook::Sysctlbyname => "_sysctlbyname",
            Hook::Memcpy => "_memcpy",
            Hook::IOMasterPortDefault => "_kIOMasterPortDefault",
            Hook::IORegistryEntryFromPath => "_IORegistryEntryFromPath",
            Hook::CFAllocatorDefault => "_kCFAllocatorDefault",
            Hook::IORegistryEntryCreateCFProperty => "_IORegistryEntryCreateCFProperty",
            Hook::CFGetTypeID => "_CFGetTypeID",
            Hook::CFStringGetTypeID => "_CFStringGetTypeID",
            Hook::CFDataGetTypeID => "_CFDataGetTypeID",
            Hook::CFDataGetLength => "_CFDataGetLength",
            Hook::CFDataGetBytes => "_CFDataGetBytes",
            Hook::CFRelease => "_CFRelease",
            Hook::IOObjectRelease => "_IOObjectRelease",
            Hook::StatfsInode64 => "_statfs$INODE64",
            Hook::DASessionCreate => "_DASessionCreate",
            Hook::DADiskCreateFromBSDName => "_DADiskCreateFromBSDName",
            Hook::DADiskDescriptionVolumeUUIDKey => "_kDADiskDescriptionVolumeUUIDKey",
            Hook::DADiskCopyDescription => "_DADiskCopyDescription",
            Hook::CFDictionaryGetValue => "_CFDictionaryGetValue",
            Hook::CFUUIDCreateString => "_CFUUIDCreateString",
            Hook::CFStringGetLength => "_CFStringGetLength",
            Hook::CFStringGetMaximumSizeForEncoding => "_CFStringGetMaximumSizeForEncoding",
            Hook::CFStringGetCString => "_CFStringGetCString",
            Hook::Free => "_free",
            Hook::IOServiceMatching => "_IOServiceMatching",
            Hook::IOServiceGetMatchingService => "_IOServiceGetMatchingService",
            Hook::CFDictionaryCreateMutable => "_CFDictionaryCreateMutable",
            Hook::CFBooleanTrue => "_kCFBooleanTrue",
            Hook::CFDictionarySetValue => "_CFDictionarySetValue",
            Hook::IOServiceGetMatchingServices => "_IOServiceGetMatchingServices",
            Hook::IOIteratorNext => "_IOIteratorNext",
            Hook::Bzero => "___bzero",
            Hook::IORegistryEntryGetParentEntry => "_IORegistryEntryGetParentEntry",
            Hook::Arc4random => "_arc4random",
        }
    }

    /// The hook's position in the table.
    pub fn index(&self) -> (r: usize)
        ensures
            r == self.index_spec(),
            r < HOOK_COUNT,
    {
        match self {
            Hook::Malloc => 0,
            Hook::StackChkGuard => 1,
            Hook::MemsetChk => 2,
            Hook::Sysctlbyname => 3,
            Hook::Memcpy => 4,
            Hook::IOMasterPortDefault => 5,
            Hook::IORegistryEntryFromPath => 6,
            Hook::CFAllocatorDefault => 7,
            Hook::IORegistryEntryCreateCFProperty => 8,
            Hook::CFGetTypeID => 9,
            Hook::CFStringGetTypeID => 10,
            Hook::CFDataGetTypeID => 11,
            Hook::CFDataGetLength => 12,
            Hook::CFDataGetBytes => 13,
            Hook::CFRelease => 14,
            Hook::IOObjectRelease => 15,
            Hook::StatfsInode64 => 16,
            Hook::DASessionCreate => 17,
            Hook::DADiskCreateFromBSDName => 18,
            Hook::DADiskDescriptionVolumeUUIDKey => 19,
            Hook::DADiskCopyDescription => 20,
            Hook::CFDictionaryGetValue => 21,
            Hook::CFUUIDCreateString => 22,
            Hook::CFStringGetLength => 23,
            Hook::CFStringGetMaximumSizeForEncoding => 24,
            Hook::CFStringGetCString => 25,
            Hook::Free => 26,
            Hook::IOServiceMatching => 27,
            Hook::IOServiceGetMatchingService => 28,
            Hook::CFDictionaryCreateMutable => 29,
            Hook::CFBooleanTrue => 30,
            Hook::CFDictionarySetValue => 31,
            Hook::IOServiceGetMatchingServices => 32,
            Hook::IOIteratorNext => 33,
            Hook::Bzero => 34,
            Hook::IORegistryEntryGetParentEntry => 35,
            Hook::Arc4random => 36,
        }
    }

    /// How many arguments the hook takes.
    pub fn arity(&self) -> (r: usize)
        ensures
            r == self.arity_spec(),
    {
        match self {
            Hook::Malloc => 1,
            Hook::StackChkGuard => 0,
            Hook::MemsetChk => 4,
            Hook::Sysctlbyname => 5,
            Hook::Memcpy => 3,
            Hook::IOMasterPortDefault => 0,
            Hook::IORegistryEntryFromPath => 1,
            Hook::CFAllocatorDefault => 0,
            Hook::IORegistryEntryCreateCFProperty => 4,
            Hook::CFGetTypeID => 1,
            Hook::CFStringGetTypeID => 0,
            Hook::CFDataGetTypeID => 0,
            Hook::CFDataGetLength => 1,
            Hook::CFDataGetBytes => 4,
            Hook::CFRelease => 0,
            Hook::IOObjectRelease => 0,
            Hook::StatfsInode64 => 0,
            Hook::DASessionCreate => 0,
            Hook::DADiskCreateFromBSDName => 0,
            Hook::DADiskDescriptionVolumeUUIDKey => 0,
            Hook::DADiskCopyDescription => 0,
            Hook::CFDictionaryGetValue => 2,
            Hook::CFUUIDCreateString => 2,
            Hook::CFStringGetLength => 1,
            Hook::CFStringGetMaximumSizeForEncoding => 2,
            Hook::CFStringGetCString => 4,
            Hook::Free => 0,
            Hook::IOServiceMatching => 1,
            Hook::IOServiceGetMatchingService => 0,
            Hook::CFDictionaryCreateMutable => 0,
            Hook::CFBooleanTrue => 0,
            Hook::CFDictionarySetValue => 3,
            Hook::IOServiceGetMatchingServices => 3,
            Hook::IOIteratorNext => 1,
            Hook::Bzero => 2,
            Hook::IORegistryEntryGetParentEntry => 3,
            Hook::Arc4random => 0,
        }
    }

    /// The symbol the hook stands in for.
    pub fn symbol(&self) -> (r: &'static str)
        ensures
            r == self.symbol_spec(),
    {
        match self {
            Hook::Malloc => "_malloc",
            Hook::StackChkGuard => "___stack_chk_guard",
            Hook::MemsetChk => "___memset_chk",
            Hook::Sysctlbyname => "_sysctlbyname",
            Hook::Memcpy => "_memcpy",
            Hook::IOMasterPortDefault => "_kIOMasterPortDefault",
            Hook::IORegistryEntryFromPath => "_IORegistryEntryFromPath",
            Hook::CFAllocatorDefault => "_kCFAllocatorDefault",
            Hook::IORegistryEntryCreateCFProperty => "_IORegistryEntryCreateCFProperty",
            Hook::CFGetTypeID => "_CFGetTypeID",
            Hook::CFStringGetTypeID => "_CFStringGetTypeID",
            Hook::CFDataGetTypeID => "_CFDataGetTypeID",
            Hook::CFDataGetLength => "_CFDataGetLength",
            Hook::CFDataGetBytes => "_CFDataGetBytes",
            Hook::CFRelease => "_CFRelease",
            Hook::IOObjectRelease => "_IOObjectRelease",
            Hook::StatfsInode64 => "_statfs$INODE64",
            Hook::DASessionCreate => "_DASessionCreate",
            Hook::DADiskCreateFromBSDName => "_DADiskCreateFromBSDName",
            Hook::DADiskDescriptionVolumeUUIDKey => "_kDADiskDescriptionVolumeUUIDKey",
            Hook::DADiskCopyDescription => "_DADiskCopyDescription",
            Hook::CFDictionaryGetValue => "_CFDictionaryGetValue",
            Hook::CFUUIDCreateString => "_CFUUIDCreateString",
            Hook::CFStringGetLength => "_CFStringGetLength",
            Hook::CFStringGetMaximumSizeForEncoding => "_CFStringGetMaximumSizeForEncoding",
            Hook::CFStringGetCString => "_CFStringGetCString",
            Hook::Free => "_free",
            Hook::IOServiceMatching => "_IOServiceMatching",
            Hook::IOServiceGetMatchingService => "_IOServiceGetMatchingService",
            Hook::CFDictionaryCreateMutable => "_CFDictionaryCreateMutable",
            Hook::CFBooleanTrue => "_kCFBooleanTrue",
            Hook::CFDictionarySetValue => "_CFDictionarySetValue",
            Hook::IOServiceGetMatchingServices => "_IOServiceGetMatchingServices",
            Hook::IOIteratorNext => "_IOIteratorNext",
            Hook::Bzero => "___bzero",
            Hook::IORegistryEntryGetParentEntry => "_IORegistryEntryGetParentEntry",
            Hook::Arc4random => "_arc4random",
        }
    }

    /// The hook at a position of the table.
    pub fn from_index(i: usize) -> (r: Option<Hook>)
        ensures
            r is Some <==> i < HOOK_COUNT,
            r matches Some(h) ==> h.index_spec() == i,
    {
        match i {
            0 => Some(Hook::Malloc),
            1 => Some(Hook::StackChkGuard),
            2 => Some(Hook::MemsetChk),
            3 => Some(Hook::Sysctlbyname),
            4 => Some(Hook::Memcpy),
            5 => Some(Hook::IOMasterPortDefault),
            6 => Some(Hook::IORegistryEntryFromPath),
            7 => Some(Hook::CFAllocatorDefault),
            8 => Some(Hook::IORegistryEntryCreateCFProperty),
            9 => Some(Hook::CFGetTypeID),
            10 => Some(Hook::CFStringGetTypeID),
            11 => Some(Hook::CFDataGetTypeID),
            12 => Some(Hook::CFDataGetLength),
            13 => Some(Hook::CFDataGetBytes),
            14 => Some(Hook::CFRelease),
            15 => Some(Hook::IOObjectRelease),
            16 => Some(Hook::StatfsInode64),
            17 => Some(Hook::DASessionCreate),
            18 => Some(Hook::DADiskCreateFromBSDName),
            19 => Some(Hook::DADiskDescriptionVolumeUUIDKey),
            20 => Some(Hook::DADiskCopyDescription),
            21 => Some(Hook::CFDictionaryGetValue),
            22 => Some(Hook::CFUUIDCreateString),
            23 => Some(Hook::CFStringGetLength),
            24 => Some(Hook::CFStringGetMaximumSizeForEncoding),
            25 => Some(Hook::CFStringGetCString),
            26 => Some(Hook::Free),
            27 => Some(Hook::IOServiceMatching),
            28 => Some(Hook::IOServiceGetMatchingService),
            29 => Some(Hook::CFDictionaryCreateMutable),
            30 => Some(Hook::CFBooleanTrue),
            31 => Some(Hook::CFDictionarySetValue),
            32 => Some(Hook::IOServiceGetMatchingServices),
            33 => Some(Hook::IOIteratorNext),
            34 => Some(Hook::Bzero),
            35 => Some(Hook::IORegistryEntryGetParentEntry),
            36 => Some(Hook::Arc4random),
            _ => None,
        }
    }

    /// The trampoline address assigned to the hook.
    pub fn address(&self) -> (r: u64)
        ensures
            r == HOOK_BASE + self.index_spec(),
    {
        HOOK_BASE + self.index() as u64
    }

    /// The hook whose symbol is `name`.
    pub fn from_symbol(name: &str) -> (r: Option<Hook>)
        ensures
            r matches Some(h) ==> h.symbol_spec().spec_bytes() == name.spec_bytes(),
            r is None ==> forall|h: Hook| h.symbol_spec().spec_bytes() != name.spec_bytes(),
    {
        let wanted = name.as_bytes_vec();
        let mut i: usize = 0;
        while i < HOOK_COUNT
            invariant
                wanted@ == name.spec_bytes(),
                forall|h: Hook|
                    #![trigger h.index_spec()]
                    h.index_spec() < i ==> h.symbol_spec().spec_bytes() != name.spec_bytes(),
            decreases HOOK_COUNT - i,
        {
            let h = Hook::from_index(i).unwrap();
            let sym = h.symbol().as_bytes_vec();
            if bytes_eq(sym.as_slice(), wanted.as_slice()) {
                return Some(h);
            }
            assert forall|g: Hook| #![trigger g.index_spec()] g.index_spec() < i + 1 implies g.symbol_spec().spec_bytes()
                != name.spec_bytes() by {
                if g.index_spec() == i {
                    assert(g == h);
                }
            }
            i = i + 1;
        }
        assert forall|h: Hook| h.symbol_spec().spec_bytes() != name.spec_bytes() by {
            assert(h.index_spec() < HOOK_COUNT);
        }
        None
    }
}

/// Whether `addr` lies in the trampoline region.
pub open spec fn in_hook_region(addr: u64) -> bool {
    HOOK_BASE <= addr < HOOK_BASE + HOOK_SIZE
}

/// The hook assigned to a trampoline address. An address of the region that
/// no hook was assigned to is an unresolved hook.
pub fn hook_at(addr: u64) -> (r: Result<Hook, EmulationFault>)
    ensures
        r matches Ok(h) ==> h.address_spec() == addr,
        r is Err ==> r == Err::<Hook, EmulationFault>(EmulationFault::UnresolvedHook) && forall|h: Hook|
            h.address_spec() != addr,
{
    if addr < HOOK_BASE || addr - HOOK_BASE >= HOOK_COUNT as u64 {
        assert forall|h: Hook| h.address_spec() != addr by {
            assert(h.index_spec() < HOOK_COUNT);
        }
        return Err(EmulationFault::UnresolvedHook);
    }
    let h = Hook::from_index((addr - HOOK_BASE) as usize).unwrap();
    Ok(h)
}

impl Hook {
    /// The trampoline address assigned to the hook.
    pub open spec fn address_spec(self) -> u64 {
        (HOOK_BASE + self.index_spec()) as u64
    }
}

/// The contents of the trampoline region: a `ret` at every address.
pub fn trampoline_code() -> (r: Vec<u8>)
    ensures
        r@.len() == HOOK_SIZE,
        forall|i: int| 0 <= i < r@.len() ==> r@[i] == RET_OPCODE,
{
    let mut r: Vec<u8> = Vec::new();
    let mut i: u64 = 0;
    while i < HOOK_SIZE
        invariant
            0 <= i <= HOOK_SIZE,
            r@.len() == i,
            forall|k: int| 0 <= k < r@.len() ==> r@[k] == RET_OPCODE,
        decreases HOOK_SIZE - i,
    {
        r.push(RET_OPCODE);
        i = i + 1;
    }
    r
}

} // verus!
