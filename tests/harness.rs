use rustpush_nac::hooks::{
    memcpy_step, Fixture, FixtureEntry, FixtureValue, Harness, HookStep, HEAP_BASE,
    ITERATOR_SENTINEL, SENTINEL_KEY,
};
use rustpush_nac::objects::CfObject;
use rustpush_nac::table::{hook_at, trampoline_code, Hook, HOOK_BASE, HOOK_COUNT, HOOK_SIZE};
use rustpush_nac::EmulationFault;

fn fixture() -> Fixture {
    Fixture {
        iokit: vec![
            FixtureEntry {
                key: b"IOPlatformSerialNumber".to_vec(),
                value: FixtureValue::Str(b"C02XXXXXXXXX".to_vec()),
            },
            FixtureEntry {
                key: b"board-id".to_vec(),
                value: FixtureValue::Data(vec![0x4d, 0x61, 0x63, 0x00]),
            },
        ],
        root_disk_uuid: b"2C9C1A7E-1111-2222-3333-444455556666".to_vec(),
    }
}

fn done(step: HookStep) -> (u64, Vec<(u64, Vec<u8>)>) {
    match step {
        HookStep::Done { ret, writes } => (ret, writes.into_iter().map(|w| (w.addr, w.bytes)).collect()),
        HookStep::Read { .. } => panic!("expected a finished hook"),
    }
}

fn read(step: HookStep) -> (u64, u64) {
    match step {
        HookStep::Read { addr, len } => (addr, len),
        HookStep::Done { .. } => panic!("expected a read"),
    }
}

fn intern_str(h: &mut Harness, s: &[u8]) -> u64 {
    h.objects.intern(CfObject::Str(s.to_vec()))
}

#[test]
fn fresh_runs_start_at_handle_one() {
    let mut a = Harness::new(fixture());
    let mut b = Harness::new(fixture());
    assert_eq!(a.create_dictionary(), 1);
    assert_eq!(a.create_dictionary(), 2);
    assert_eq!(b.create_dictionary(), 1);
    assert_eq!(a.heap_used, 0);
    assert!(!b.iterator_pending);
}

#[test]
fn iterator_yields_sentinel_once() {
    let mut h = Harness::new(fixture());
    let (ret, writes) = done(h.run_hook(Hook::IOServiceGetMatchingServices, &[0, 5, 0x5000], &[]).unwrap());
    assert_eq!(ret, 0);
    assert_eq!(writes, vec![(0x5000, vec![93])]);
    let first = done(h.run_hook(Hook::IOIteratorNext, &[93], &[]).unwrap()).0;
    assert_eq!(first, ITERATOR_SENTINEL);
    assert_eq!(first, 94);
    for _ in 0..5 {
        assert_eq!(done(h.run_hook(Hook::IOIteratorNext, &[93], &[]).unwrap()).0, 0);
    }
}

#[test]
fn iterator_without_matching_is_empty() {
    let mut h = Harness::new(fixture());
    assert_eq!(h.iterator_next(), 0);
}

#[test]
fn string_copy_truncates_at_capacity() {
    let mut h = Harness::new(fixture());
    let s = intern_str(&mut h, b"abcdefgh");
    let (ret, writes) = done(h.copy_cstring(s, 0x9000, 3).unwrap());
    assert_eq!(ret, 3);
    assert_eq!(writes, vec![(0x9000, b"abc".to_vec())]);
    let (ret, writes) = done(h.run_hook(Hook::CFStringGetCString, &[s, 0x9000, 5, 0x0800_0100], &[]).unwrap());
    assert_eq!(ret, 5);
    assert_eq!(writes, vec![(0x9000, b"abcde".to_vec())]);
}

#[test]
fn string_copy_fits_whole_string() {
    let mut h = Harness::new(fixture());
    let s = intern_str(&mut h, b"abc");
    let (ret, writes) = done(h.copy_cstring(s, 0x10, 100).unwrap());
    assert_eq!(ret, 3);
    assert_eq!(writes, vec![(0x10, b"abc".to_vec())]);
    let (ret, writes) = done(h.copy_cstring(s, 0x10, 0).unwrap());
    assert_eq!(ret, 0);
    assert_eq!(writes, vec![(0x10, Vec::new())]);
}

fn resolved_str(h: &Harness, handle: u64) -> Vec<u8> {
    match h.objects.resolve(handle).unwrap() {
        CfObject::Str(s) => s.clone(),
        _ => panic!("wrong object"),
    }
}

#[test]
fn sentinel_key_reads_volume_uuid() {
    let mut h = Harness::new(fixture());
    let desc = done(h.run_hook(Hook::DADiskCopyDescription, &[], &[]).unwrap()).0;
    let key = intern_str(&mut h, b"DADiskDescriptionVolumeUUIDKey");
    let before = h.objects.len() as u64;
    let by_sentinel = done(h.run_hook(Hook::CFDictionaryGetValue, &[desc, SENTINEL_KEY], &[]).unwrap()).0;
    assert_eq!(by_sentinel, before + 1);
    let by_name = h.get_value(desc, key).unwrap();
    assert_eq!(by_name, before + 2);
    let uuid = b"2C9C1A7E-1111-2222-3333-444455556666".to_vec();
    assert_eq!(resolved_str(&h, by_sentinel), uuid);
    assert_eq!(resolved_str(&h, by_name), uuid);
    let other = h.create_dictionary();
    let len = h.objects.len();
    assert_eq!(h.get_value(other, SENTINEL_KEY), Err(EmulationFault::KeyNotFound));
    assert_eq!(h.get_value(other, key), Err(EmulationFault::KeyNotFound));
    assert_eq!(h.objects.len(), len);
}

#[test]
fn dictionary_hooks_round_trip() {
    let mut h = Harness::new(fixture());
    let d = done(h.run_hook(Hook::CFDictionaryCreateMutable, &[], &[]).unwrap()).0;
    let k = intern_str(&mut h, b"IOProviderClass");
    let v = h.objects.intern(CfObject::Data(vec![7, 7]));
    assert_eq!(done(h.run_hook(Hook::CFDictionarySetValue, &[d, k, v], &[]).unwrap()).0, 0);
    let got = done(h.run_hook(Hook::CFDictionaryGetValue, &[d, k], &[]).unwrap()).0;
    assert_eq!(got, v + 1);
    assert_eq!(h.objects.len() as u64, got);
    match h.objects.resolve(got).unwrap() {
        CfObject::Data(bytes) => assert_eq!(bytes, &vec![7u8, 7]),
        _ => panic!("wrong object"),
    }
    assert_eq!(h.set_value(d, v, k), Err(EmulationFault::WrongObjectType));
    assert_eq!(h.set_value(d, k, 99), Err(EmulationFault::InvalidHandle));
    assert_eq!(h.set_value(k, k, v), Err(EmulationFault::WrongObjectType));
}

#[test]
fn type_and_length_queries() {
    let mut h = Harness::new(fixture());
    let data = h.objects.intern(CfObject::Data(vec![1, 2, 3, 4]));
    let s = intern_str(&mut h, b"hello");
    let d = h.create_dictionary();
    assert_eq!(h.type_id(data), Ok(1));
    assert_eq!(h.type_id(s), Ok(2));
    assert_eq!(h.type_id(d), Err(EmulationFault::WrongObjectType));
    assert_eq!(h.data_length(data), Ok(4));
    assert_eq!(h.string_length(s), Ok(5));
    assert_eq!(h.string_length(data), Err(EmulationFault::WrongObjectType));
    assert_eq!(h.data_length(0), Err(EmulationFault::InvalidHandle));
    let (ret, writes) = done(h.data_bytes(data, 1, 3, 0x700).unwrap());
    assert_eq!(ret, 2);
    assert_eq!(writes, vec![(0x700, vec![2, 3])]);
    assert!(matches!(h.data_bytes(data, 3, 5, 0x700), Err(EmulationFault::OutOfRange)));
    assert!(matches!(h.data_bytes(data, 3, 2, 0x700), Err(EmulationFault::OutOfRange)));
}

#[test]
fn malloc_bumps_the_cursor() {
    let mut h = Harness::new(fixture());
    assert_eq!(h.malloc(16), HEAP_BASE);
    assert_eq!(done(h.run_hook(Hook::Malloc, &[8], &[]).unwrap()).0, HEAP_BASE + 16);
    assert_eq!(h.malloc(0), HEAP_BASE + 24);
    assert_eq!(h.heap_used, 24);
    assert!(matches!(h.run_hook(Hook::Malloc, &[u64::MAX], &[]), Err(EmulationFault::UnmappedMemory)));
}

#[test]
fn wrong_argument_count_is_refused() {
    let mut h = Harness::new(fixture());
    assert!(matches!(h.run_hook(Hook::Malloc, &[], &[]), Err(EmulationFault::InvalidHookArity)));
    assert!(matches!(h.run_hook(Hook::Free, &[1], &[]), Err(EmulationFault::InvalidHookArity)));
    assert_eq!(h.heap_used, 0);
}

#[test]
fn constant_hooks() {
    let mut h = Harness::new(fixture());
    assert_eq!(done(h.run_hook(Hook::DASessionCreate, &[], &[]).unwrap()).0, 201);
    assert_eq!(done(h.run_hook(Hook::DADiskCreateFromBSDName, &[], &[]).unwrap()).0, 202);
    assert_eq!(done(h.run_hook(Hook::IOServiceGetMatchingService, &[], &[]).unwrap()).0, 92);
    assert_eq!(done(h.run_hook(Hook::IORegistryEntryFromPath, &[7], &[]).unwrap()).0, 1);
    assert_eq!(done(h.run_hook(Hook::CFUUIDCreateString, &[0, 77], &[]).unwrap()).0, 77);
    assert_eq!(done(h.run_hook(Hook::CFStringGetMaximumSizeForEncoding, &[12, 0x0800_0100], &[]).unwrap()).0, 12);
    assert_eq!(done(h.run_hook(Hook::CFStringGetTypeID, &[], &[]).unwrap()).0, 2);
    assert_eq!(done(h.run_hook(Hook::CFDataGetTypeID, &[], &[]).unwrap()).0, 1);
    assert_eq!(done(h.run_hook(Hook::StackChkGuard, &[], &[]).unwrap()).0, 0);
    assert_eq!(h.objects.len(), 0);
}

#[test]
fn memory_hooks_write() {
    let mut h = Harness::new(fixture());
    let (ret, writes) = done(h.run_hook(Hook::MemsetChk, &[0x100, 0x1ab, 3, 64], &[]).unwrap());
    assert_eq!(ret, 0);
    assert_eq!(writes, vec![(0x100, vec![0xab, 0xab, 0xab])]);
    let (_, writes) = done(h.run_hook(Hook::Bzero, &[0x200, 2], &[]).unwrap());
    assert_eq!(writes, vec![(0x200, vec![0, 0])]);
    let (_, writes) = done(h.run_hook(Hook::IORegistryEntryGetParentEntry, &[200, 0, 0x300], &[]).unwrap());
    assert_eq!(writes, vec![(0x300, vec![44])]);
    let (_, writes) = done(h.run_hook(Hook::IORegistryEntryGetParentEntry, &[1, 0, 0x300], &[]).unwrap());
    assert_eq!(writes, vec![(0x300, vec![101])]);
}

#[test]
fn memcpy_reads_then_writes() {
    assert_eq!(read(memcpy_step(0x10, 0x20, 3, &[]).unwrap()), (0x20, 3));
    let (ret, writes) = done(memcpy_step(0x10, 0x20, 3, &[vec![1, 2, 3]]).unwrap());
    assert_eq!(ret, 0);
    assert_eq!(writes, vec![(0x10, vec![1, 2, 3])]);
    assert!(matches!(memcpy_step(0x10, 0x20, 3, &[vec![1]]), Err(EmulationFault::UnmappedMemory)));
}

fn descriptor(ptr: u64, len: u64) -> Vec<u8> {
    let mut d = Vec::new();
    d.extend_from_slice(&0x1234u64.to_le_bytes());
    d.extend_from_slice(&0x7c8u64.to_le_bytes());
    d.extend_from_slice(&ptr.to_le_bytes());
    d.extend_from_slice(&len.to_le_bytes());
    d
}

#[test]
fn registry_property_answers_from_fixture() {
    let mut h = Harness::new(fixture());
    let args = [1, 0x6000, 0, 0];
    let desc = descriptor(0x6100, 8);
    assert_eq!(read(h.run_hook(Hook::IORegistryEntryCreateCFProperty, &args, &[]).unwrap()), (0x6000, 32));
    assert_eq!(read(h.run_hook(Hook::IORegistryEntryCreateCFProperty, &args, &[desc.clone()]).unwrap()), (0x6100, 8));
    let handle = done(h.run_hook(Hook::IORegistryEntryCreateCFProperty, &args, &[desc, b"board-id".to_vec()]).unwrap()).0;
    assert_eq!(handle, 1);
    assert_eq!(h.type_id(handle), Ok(1));
    assert_eq!(h.data_length(handle), Ok(4));
    let desc = descriptor(0x6100, 7);
    let missing = done(h.registry_property(0x6000, &[desc, b"unknown".to_vec()]).unwrap()).0;
    assert_eq!(missing, 0);
    assert_eq!(h.objects.len(), 1);
    assert!(matches!(h.registry_property(0x6000, &[vec![0; 8]]), Err(EmulationFault::UnmappedMemory)));
    let desc = descriptor(0x6100, 9);
    assert!(matches!(h.registry_property(0x6000, &[desc, b"board-id".to_vec()]), Err(EmulationFault::UnmappedMemory)));
}

#[test]
fn service_matching_builds_dictionary() {
    let mut h = Harness::new(fixture());
    assert_eq!(read(h.run_hook(Hook::IOServiceMatching, &[0x8000], &[]).unwrap()), (0x8000, 256));
    let mut name = b"IOEthernetInterface".to_vec();
    name.resize(256, 0);
    name[200] = b'x';
    let d = done(h.run_hook(Hook::IOServiceMatching, &[0x8000], &[name]).unwrap()).0;
    assert_eq!(d, 1);
    let key = h.objects.intern(CfObject::Str(b"IOProviderClass".to_vec()));
    let class = h.get_value(d, key).unwrap();
    assert_eq!(resolved_str(&h, class), b"IOEthernetInterface".to_vec());
}

#[test]
fn random_hook_gives_32_bits() {
    let mut h = Harness::new(fixture());
    for _ in 0..20 {
        assert!(done(h.run_hook(Hook::Arc4random, &[], &[]).unwrap()).0 <= u32::MAX as u64);
    }
}

#[test]
fn trampoline_addresses_resolve() {
    assert_eq!(hook_at(HOOK_BASE), Ok(Hook::Malloc));
    assert_eq!(hook_at(Hook::IOIteratorNext.address()), Ok(Hook::IOIteratorNext));
    assert_eq!(hook_at(HOOK_BASE + HOOK_COUNT as u64), Err(EmulationFault::UnresolvedHook));
    assert_eq!(hook_at(HOOK_BASE - 1), Err(EmulationFault::UnresolvedHook));
    for i in 0..HOOK_COUNT {
        let h = Hook::from_index(i).unwrap();
        assert_eq!(Hook::from_symbol(h.symbol()), Some(h));
    }
    assert_eq!(Hook::from_symbol("_statfs$INODE64"), Some(Hook::StatfsInode64));
    assert_eq!(Hook::from_symbol("_malloc"), Some(Hook::Malloc));
    assert_eq!(Hook::from_symbol("_unknown"), None);
    assert_eq!(Hook::from_index(HOOK_COUNT), None);
    let code = trampoline_code();
    assert_eq!(code.len() as u64, HOOK_SIZE);
    assert!(code.iter().all(|b| *b == 0xc3));
}

#[test]
fn trap_dispatch_reads_registers() {
    let mut h = Harness::new(fixture());
    let regs = [24, 0, 0, 0, 0, 0];
    let step = h.dispatch_trap(Hook::Malloc.address(), &regs, &[], &[]).unwrap();
    assert_eq!(done(step).0, HEAP_BASE);
    assert_eq!(h.heap_used, 24);
    assert!(matches!(h.dispatch_trap(HOOK_BASE + 0x1000, &regs, &[], &[]), Err(EmulationFault::UnresolvedHook)));
    assert!(matches!(h.dispatch_trap(Hook::Malloc.address(), &[], &[], &[]), Err(EmulationFault::InvalidHookArity)));
}
