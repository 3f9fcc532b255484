use vstd::prelude::*;

use crate::error::EmulationFault;
use crate::objects::{
    copy_bytes, dict_get_spec, dict_set_result, valid_handle, CfObject, CfValue, DictEntry,
    ObjectTable,
};
use crate::calls::{gather_args, gathered_args, reg_count};
use crate::table::{hook_at, Hook};
use vstd::string::{StrSliceExecFns, StringSliceAdditionalSpecFns};

verus! {

/// Base address of the bump-allocated heap region.
pub const HEAP_BASE: u64 = 0x4000;

/// The key constant the vendor binary hands to the dictionary lookup when it
/// means the volume UUID key.
pub const SENTINEL_KEY: u64 = 0xc3c3_c3c3_c3c3_c3c3;

/// The iterator handle written back by the service-matching hook.
pub const MATCHING_ITERATOR: u8 = 93;

/// The one service the simulated iterator yields.
pub const ITERATOR_SENTINEL: u64 = 94;

/// The type identifier of byte buffers.
pub const DATA_TYPE_ID: u64 = 1;

/// The type identifier of strings.
pub const STRING_TYPE_ID: u64 = 2;

/// Length of a constant string descriptor in guest memory.
pub const CFSTR_DESCRIPTOR_LEN: u64 = 32;

/// How many bytes a C string argument is read from guest memory.
pub const CSTR_READ_LEN: u64 = 256;

/// The key under which a disk description holds the volume UUID.
pub open spec fn volume_uuid_key() -> Seq<u8> {
    "DADiskDescriptionVolumeUUIDKey".spec_bytes()
}

/// The key under which a matching dictionary holds the service class.
pub open spec fn provider_class_key() -> Seq<u8> {
    "IOProviderClass".spec_bytes()
}

/// A fixture value: a byte buffer or a string.
pub enum FixtureValue {
    Data(Vec<u8>),
    Str(Vec<u8>),
}

impl View for FixtureValue {
    type V = CfValue;

    open spec fn view(&self) -> CfValue {
        match self {
            FixtureValue::Data(d) => CfValue::Data(d@),
            FixtureValue::Str(s) => CfValue::Str(s@),
        }
    }
}

/// A registry property of the fixture.
pub struct FixtureEntry {
    pub key: Vec<u8>,
    pub value: FixtureValue,
}

/// The fabricated hardware identifiers the hooks answer with.
pub struct Fixture {
    pub iokit: Vec<FixtureEntry>,
    pub root_disk_uuid: Vec<u8>,
}

/// A write into guest memory.
pub struct MemWrite {
    pub addr: u64,
    pub bytes: Vec<u8>,
}

/// What a hook asks of the emulator next.
pub enum HookStep {
    /// Read `len` bytes at `addr` and run the hook again with them added.
    Read { addr: u64, len: u64 },
    /// Apply the writes in order, then return `ret` to the caller.
    Done { ret: u64, writes: Vec<MemWrite> },
}

/// The mathematical value of a hook step.
pub enum StepValue {
    Read(u64, u64),
    Done(u64, Seq<(u64, Seq<u8>)>),
}

impl View for HookStep {
    type V = StepValue;

    open spec fn view(&self) -> StepValue {
        match self {
            HookStep::Read { addr, len } => StepValue::Read(*addr, *len),
            HookStep::Done { ret, writes } => StepValue::Done(
                *ret,
                writes@.map_values(|w: MemWrite| (w.addr, w.bytes@)),
            ),
        }
    }
}

/// A finished hook that writes nothing.
pub open spec fn done(ret: u64) -> StepValue {
    StepValue::Done(ret, Seq::empty())
}

/// A finished hook that makes one write.
pub open spec fn done_writing(ret: u64, addr: u64, bytes: Seq<u8>) -> StepValue {
    StepValue::Done(ret, seq![(addr, bytes)])
}

fn finish(ret: u64) -> (r: HookStep)
    ensures
        r@ == done(ret),
{
    let r = HookStep::Done { ret, writes: Vec::new() };
    assert(r@ == done(ret)) by {
        assert(Seq::<MemWrite>::empty().map_values(|w: MemWrite| (w.addr, w.bytes@)) =~= Seq::<
            (u64, Seq<u8>),
        >::empty());
    }
    r
}

fn finish_writing(ret: u64, addr: u64, bytes: Vec<u8>) -> (r: HookStep)
    ensures
        r@ == done_writing(ret, addr, bytes@),
{
    let mut writes: Vec<MemWrite> = Vec::new();
    let ghost b = bytes@;
    writes.push(MemWrite { addr, bytes });
    let r = HookStep::Done { ret, writes };
    assert(r@ == done_writing(ret, addr, b)) by {
        assert(writes@.map_values(|w: MemWrite| (w.addr, w.bytes@)) =~= seq![(addr, b)]);
    }
    r
}

/// `n` copies of byte `c`.
pub fn filled(c: u8, n: u64) -> (r: Vec<u8>)
    ensures
        r@ == Seq::new(n as nat, |i: int| c),
{
    let mut r: Vec<u8> = Vec::new();
    let mut i: u64 = 0;
    while i < n
        invariant
            0 <= i <= n,
            r@ == Seq::new(i as nat, |k: int| c),
        decreases n - i,
    {
        r.push(c);
        assert(r@ =~= Seq::new((i + 1) as nat, |k: int| c));
        i = i + 1;
    }
    r
}

/// The little-endian 64-bit word at `off`.
pub open spec fn le_u64(b: Seq<u8>, off: int) -> int {
    b[off] + b[off + 1] * 0x100 + b[off + 2] * 0x1_0000 + b[off + 3] * 0x100_0000 + b[off + 4]
        * 0x1_0000_0000 + b[off + 5] * 0x100_0000_0000 + b[off + 6] * 0x1_0000_0000_0000 + b[off
        + 7] * 0x100_0000_0000_0000
}

fn read_le_u64(b: &[u8], off: usize) -> (r: u64)
    requires
        off + 8 <= b@.len(),
    ensures
        r == le_u64(b@, off as int),
{
    b[off] as u64 + b[off + 1] as u64 * 0x100 + b[off + 2] as u64 * 0x1_0000 + b[off + 3] as u64
        * 0x100_0000 + b[off + 4] as u64 * 0x1_0000_0000 + b[off + 5] as u64 * 0x100_0000_0000
        + b[off + 6] as u64 * 0x1_0000_0000_0000 + b[off + 7] as u64 * 0x100_0000_0000_0000
}

/// The prefix of `b` up to its first zero byte.
pub open spec fn c_string(b: Seq<u8>) -> Seq<u8> {
    if exists|i: int| 0 <= i < b.len() && b[i] == 0 {
        b.take(choose|i: int| 0 <= i < b.len() && b[i] == 0 && forall|j: int| 0 <= j < i ==> b[j] != 0)
    } else {
        b
    }
}

fn c_string_of(b: &[u8]) -> (r: Vec<u8>)
    ensures
        r@ == c_string(b@),
{
    let mut i: usize = 0;
    while i < b.len() && b[i] != 0
        invariant
            0 <= i <= b@.len(),
            forall|j: int| 0 <= j < i ==> b@[j] != 0,
        decreases b@.len() - i,
    {
        i = i + 1;
    }
    let mut r: Vec<u8> = Vec::new();
    let mut k: usize = 0;
    while k < i
        invariant
            0 <= k <= i <= b@.len(),
            r@ == b@.take(k as int),
        decreases i - k,
    {
        r.push(b[k]);
        assert(b@.take(k + 1) == b@.take(k as int).push(b@[k as int]));
        k = k + 1;
    }
    proof {
        if i < b.len() {
            let c = choose|c: int|
                0 <= c < b@.len() && b@[c] == 0 && forall|j: int| 0 <= j < c ==> b@[j] != 0;
            if c < i {
                assert(b@[c] != 0);
            }
            if i < c {
                assert(b@[i as int] != 0);
            }
        } else {
            assert(b@.take(i as int) =~= b@);
            if exists|c: int| 0 <= c < b@.len() && b@[c] == 0 {
                let c = choose|c: int| 0 <= c < b@.len() && b@[c] == 0;
                assert(b@[c] != 0);
            }
        }
    }
    r
}

/// The smaller of a string's length and a buffer's capacity.
pub open spec fn copy_len(len: int, cap: u64) -> int {
    if len > cap {
        cap as int
    } else {
        len
    }
}

/// The state of one emulation run besides the machine itself.
pub struct Harness {
    /// The emulated runtime objects.
    pub objects: ObjectTable,
    /// How far the heap cursor has advanced from the heap base.
    pub heap_used: u64,
    /// Set by the service-matching hook; the iterator yields one service
    /// while it is set.
    pub iterator_pending: bool,
    /// The identifiers the hooks answer with.
    pub fixture: Fixture,
}

/// Index of the first fixture property with the given key.
pub open spec fn fixture_index(iokit: Seq<FixtureEntry>, key: Seq<u8>, i: int) -> bool {
    &&& 0 <= i < iokit.len()
    &&& iokit[i].key@ == key
    &&& forall|j: int| 0 <= j < i ==> iokit[j].key@ != key
}

/// The type identifier the type query gives for an object.
pub open spec fn type_id_spec(t: Seq<CfValue>, h: u64) -> Result<u64, EmulationFault> {
    if !valid_handle(t.len(), h) {
        Err(EmulationFault::InvalidHandle)
    } else {
        match t[h - 1] {
            CfValue::Data(_) => Ok(DATA_TYPE_ID),
            CfValue::Str(_) => Ok(STRING_TYPE_ID),
            _ => Err(EmulationFault::WrongObjectType),
        }
    }
}

/// The bytes of a buffer object.
pub open spec fn data_spec(t: Seq<CfValue>, h: u64) -> Result<Seq<u8>, EmulationFault> {
    if !valid_handle(t.len(), h) {
        Err(EmulationFault::InvalidHandle)
    } else {
        match t[h - 1] {
            CfValue::Data(d) => Ok(d),
            _ => Err(EmulationFault::WrongObjectType),
        }
    }
}

/// The bytes of a string object.
pub open spec fn string_spec(t: Seq<CfValue>, h: u64) -> Result<Seq<u8>, EmulationFault> {
    if !valid_handle(t.len(), h) {
        Err(EmulationFault::InvalidHandle)
    } else {
        match t[h - 1] {
            CfValue::Str(s) => Ok(s),
            _ => Err(EmulationFault::WrongObjectType),
        }
    }
}

/// The key a dictionary lookup uses: the volume UUID key for the sentinel,
/// else the string the key handle names.
pub open spec fn lookup_key_spec(t: Seq<CfValue>, key: u64) -> Result<Seq<u8>, EmulationFault> {
    if key == SENTINEL_KEY {
        Ok(volume_uuid_key())
    } else {
        string_spec(t, key)
    }
}

/// The handle a dictionary holds under a key handle (or the sentinel key).
pub open spec fn stored_value_spec(t: Seq<CfValue>, d: u64, key: u64) -> Result<u64, EmulationFault> {
    match lookup_key_spec(t, key) {
        Ok(k) => dict_get_spec(t, d, k),
        Err(e) => Err(e),
    }
}

/// What the dictionary lookup hook gives, and the table after it: a new
/// object holding a copy of the stored value, whose handle is returned.
pub open spec fn get_value_spec(t: Seq<CfValue>, d: u64, key: u64) -> (
    Result<u64, EmulationFault>,
    Seq<CfValue>,
) {
    match stored_value_spec(t, d, key) {
        Err(e) => (Err(e), t),
        Ok(h) => if valid_handle(t.len(), h) {
            (Ok((t.len() + 1) as u64), t.push(t[h - 1]))
        } else {
            (Err(EmulationFault::InvalidHandle), t)
        },
    }
}

/// What the string-copy hook does: copy at most `cap` bytes to `buf` and
/// return how many.
pub open spec fn cstring_spec(t: Seq<CfValue>, s: u64, buf: u64, cap: u64) -> Result<
    StepValue,
    EmulationFault,
> {
    match string_spec(t, s) {
        Ok(bytes) => {
            let n = copy_len(bytes.len() as int, cap);
            Ok(done_writing(n as u64, buf, bytes.take(n)))
        },
        Err(e) => Err(e),
    }
}

/// What the byte-range hook does: copy `data[start..end]` to `buf` and return
/// its length.
pub open spec fn data_bytes_spec(t: Seq<CfValue>, h: u64, start: u64, end: u64, buf: u64) -> Result<
    StepValue,
    EmulationFault,
> {
    match data_spec(t, h) {
        Ok(d) => if start <= end <= d.len() {
            Ok(done_writing((end - start) as u64, buf, d.subrange(start as int, end as int)))
        } else {
            Err(EmulationFault::OutOfRange)
        },
        Err(e) => Err(e),
    }
}

/// What the iterator hook returns for a given flag.
pub open spec fn iterator_next_spec(pending: bool) -> u64 {
    if pending {
        ITERATOR_SENTINEL
    } else {
        0
    }
}

/// The byte the parent-entry hook writes for an entry.
pub open spec fn parent_entry_byte(entry: u64) -> u8 {
    ((entry % 256 + 100) % 256) as u8
}

/// The result of the hooks that answer with a constant or an argument and
/// touch nothing.
pub open spec fn constant_hook(h: Hook, args: Seq<u64>) -> Option<u64> {
    match h {
        Hook::StackChkGuard => Some(0),
        Hook::Sysctlbyname => Some(0),
        Hook::IOMasterPortDefault => Some(0),
        Hook::IORegistryEntryFromPath => Some(1),
        Hook::CFAllocatorDefault => Some(0),
        Hook::CFStringGetTypeID => Some(STRING_TYPE_ID),
        Hook::CFDataGetTypeID => Some(DATA_TYPE_ID),
        Hook::CFRelease => Some(0),
        Hook::IOObjectRelease => Some(0),
        Hook::StatfsInode64 => Some(0),
        Hook::DASessionCreate => Some(201),
        Hook::DADiskCreateFromBSDName => Some(202),
        Hook::DADiskDescriptionVolumeUUIDKey => Some(0),
        Hook::CFUUIDCreateString => Some(args[1]),
        Hook::CFStringGetMaximumSizeForEncoding => Some(args[0]),
        Hook::Free => Some(0),
        Hook::IOServiceGetMatchingService => Some(92),
        Hook::CFBooleanTrue => Some(0),
        _ => None,
    }
}

/// A hook outcome as a value.
pub open spec fn step_result(r: Result<HookStep, EmulationFault>) -> Result<StepValue, EmulationFault> {
    match r {
        Ok(s) => Ok(s@),
        Err(e) => Err(e),
    }
}

/// A hook that returns a word and writes nothing.
pub open spec fn word_result(r: Result<u64, EmulationFault>) -> Result<StepValue, EmulationFault> {
    match r {
        Ok(v) => Ok(done(v)),
        Err(e) => Err(e),
    }
}

/// The length of a buffer or string, as the length hooks return it.
pub open spec fn len_result(r: Result<Seq<u8>, EmulationFault>) -> Result<u64, EmulationFault> {
    match r {
        Ok(b) => Ok(b.len() as u64),
        Err(e) => Err(e),
    }
}

/// What storing handle `val` under string `key` in dictionary `d` gives.
pub open spec fn set_value_result(t: Seq<CfValue>, d: u64, key: u64, val: u64) -> Result<
    (),
    EmulationFault,
> {
    match string_spec(t, key) {
        Err(e) => Err(e),
        Ok(_) => if !valid_handle(t.len(), val) {
            Err(EmulationFault::InvalidHandle)
        } else {
            dict_set_result(t, d)
        },
    }
}

/// The table after a successful store of `val` under string `key` in `d`.
pub open spec fn set_value_table(t: Seq<CfValue>, d: u64, key: u64, val: u64) -> Seq<CfValue> {
    t.update(d - 1, CfValue::Dictionary(t[d - 1]->Dictionary_0.insert(string_spec(t, key)->Ok_0, val)))
}

/// The table after a disk description was made.
pub open spec fn description_table(t: Seq<CfValue>, uuid: Seq<u8>) -> Seq<CfValue> {
    t.push(CfValue::Dictionary(Map::empty().insert(volume_uuid_key(), (t.len() + 2) as u64))).push(
        CfValue::Str(uuid),
    )
}

/// Nothing of the run's state changed.
pub open spec fn unchanged(a: Harness, b: Harness) -> bool {
    &&& a.objects@ == b.objects@
    &&& a.heap_used == b.heap_used
    &&& a.iterator_pending == b.iterator_pending
    &&& a.fixture == b.fixture
}

/// The bytes handed back by the emulator's reads.
pub open spec fn reads_view(reads: Seq<Vec<u8>>) -> Seq<Seq<u8>> {
    reads.map_values(|v: Vec<u8>| v@)
}

/// What the registry property hook gives at each step, and the table after it.
pub open spec fn property_spec(
    t: Seq<CfValue>,
    iokit: Seq<FixtureEntry>,
    key: u64,
    reads: Seq<Seq<u8>>,
) -> (Result<StepValue, EmulationFault>, Seq<CfValue>) {
    if reads.len() == 0 {
        (Ok(StepValue::Read(key, CFSTR_DESCRIPTOR_LEN)), t)
    } else if reads[0].len() != CFSTR_DESCRIPTOR_LEN {
        (Err(EmulationFault::UnmappedMemory), t)
    } else if reads.len() == 1 {
        (Ok(StepValue::Read(le_u64(reads[0], 16) as u64, le_u64(reads[0], 24) as u64)), t)
    } else if reads[1].len() != le_u64(reads[0], 24) {
        (Err(EmulationFault::UnmappedMemory), t)
    } else if exists|i: int| fixture_index(iokit, reads[1], i) {
        let i = choose|i: int| fixture_index(iokit, reads[1], i);
        (Ok(done((t.len() + 1) as u64)), t.push(iokit[i].value@))
    } else {
        (Ok(done(0)), t)
    }
}

/// What the service matching hook gives at each step, and the table after it.
pub open spec fn matching_spec(t: Seq<CfValue>, name: u64, reads: Seq<Seq<u8>>) -> (Result<
    StepValue,
    EmulationFault,
>, Seq<CfValue>) {
    if reads.len() == 0 {
        (Ok(StepValue::Read(name, CSTR_READ_LEN)), t)
    } else {
        (
            Ok(done((t.len() + 1) as u64)),
            t.push(
                CfValue::Dictionary(Map::empty().insert(provider_class_key(), (t.len() + 2) as u64)),
            ).push(CfValue::Str(c_string(reads[0]))),
        )
    }
}

/// What the memory copy hook gives at each step.
pub open spec fn memcpy_spec(dest: u64, src: u64, len: u64, reads: Seq<Seq<u8>>) -> Result<
    StepValue,
    EmulationFault,
> {
    if reads.len() == 0 {
        Ok(StepValue::Read(src, len))
    } else if reads[0].len() != len {
        Err(EmulationFault::UnmappedMemory)
    } else {
        Ok(done_writing(0, dest, reads[0]))
    }
}

/// Relies on rand::random: a value drawn from the thread-local generator.
#[verifier::external_body]
fn random_u32() -> (r: u32) {
    rand::random::<u32>()
}

impl Harness {
    /// The object table is well formed.
    pub open spec fn wf(&self) -> bool {
        self.objects.wf()
    }

    /// A fresh run: no objects, an untouched heap, no pending iterator.
    pub fn new(fixture: Fixture) -> (r: Harness)
        ensures
            r.wf(),
            r.objects@ == Seq::<CfValue>::empty(),
            r.heap_used == 0,
            !r.iterator_pending,
            r.fixture == fixture,
    {
        Harness { objects: ObjectTable::new(), heap_used: 0, iterator_pending: false, fixture }
    }

    /// Returns the heap cursor and advances it by `size`.
    pub fn malloc(&mut self, size: u64) -> (r: u64)
        requires
            old(self).heap_used + size <= u64::MAX - HEAP_BASE,
        ensures
            r == HEAP_BASE + old(self).heap_used,
            final(self).heap_used == old(self).heap_used + size,
            final(self).objects == old(self).objects,
            final(self).iterator_pending == old(self).iterator_pending,
            final(self).fixture == old(self).fixture,
    {
        let addr = HEAP_BASE + self.heap_used;
        self.heap_used = self.heap_used + size;
        addr
    }

    /// The type identifier of a buffer or string object.
    pub fn type_id(&self, obj: u64) -> (r: Result<u64, EmulationFault>)
        requires
            self.wf(),
        ensures
            r == type_id_spec(self.objects@, obj),
    {
        match self.objects.resolve(obj)? {
            CfObject::Data(_) => Ok(DATA_TYPE_ID),
            CfObject::Str(_) => Ok(STRING_TYPE_ID),
            CfObject::Dictionary(_) => Err(EmulationFault::WrongObjectType),
        }
    }

    /// The length of a buffer object.
    pub fn data_length(&self, obj: u64) -> (r: Result<u64, EmulationFault>)
        requires
            self.wf(),
        ensures
            r == len_result(data_spec(self.objects@, obj)),
    {
        match self.objects.resolve(obj)? {
            CfObject::Data(d) => Ok(d.len() as u64),
            _ => Err(EmulationFault::WrongObjectType),
        }
    }

    /// Copies bytes `start..end` of a buffer object to `buf`.
    pub fn data_bytes(&self, obj: u64, start: u64, end: u64, buf: u64) -> (r: Result<
        HookStep,
        EmulationFault,
    >)
        requires
            self.wf(),
        ensures
            step_result(r) == data_bytes_spec(self.objects@, obj, start, end, buf),
    {
        match self.objects.resolve(obj)? {
            CfObject::Data(d) => {
                if start > end || end > d.len() as u64 {
                    return Err(EmulationFault::OutOfRange);
                }
                let mut out: Vec<u8> = Vec::new();
                let mut i: usize = start as usize;
                while i < end as usize
                    invariant
                        start <= i <= end <= d@.len(),
                        out@ == d@.subrange(start as int, i as int),
                    decreases end - i,
                {
                    out.push(d[i]);
                    assert(d@.subrange(start as int, i + 1) == d@.subrange(start as int, i as int).push(
                        d@[i as int],
                    ));
                    i = i + 1;
                }
                Ok(finish_writing(end - start, buf, out))
            },
            _ => Err(EmulationFault::WrongObjectType),
        }
    }

    /// The byte length of a string object.
    pub fn string_length(&self, obj: u64) -> (r: Result<u64, EmulationFault>)
        requires
            self.wf(),
        ensures
            r == len_result(string_spec(self.objects@, obj)),
    {
        match self.objects.resolve(obj)? {
            CfObject::Str(s) => Ok(s.len() as u64),
            _ => Err(EmulationFault::WrongObjectType),
        }
    }

    /// Copies a string object into a buffer of capacity `cap`, cutting it at
    /// the capacity, and returns how many bytes were copied.
    pub fn copy_cstring(&self, obj: u64, buf: u64, cap: u64) -> (r: Result<
        HookStep,
        EmulationFault,
    >)
        requires
            self.wf(),
        ensures
            step_result(r) == cstring_spec(self.objects@, obj, buf, cap),
    {
        match self.objects.resolve(obj)? {
            CfObject::Str(s) => {
                let n: usize = if s.len() as u64 > cap {
                    cap as usize
                } else {
                    s.len()
                };
                let mut out: Vec<u8> = Vec::new();
                let mut i: usize = 0;
                while i < n
                    invariant
                        n <= s@.len(),
                        0 <= i <= n,
                        out@ == s@.take(i as int),
                    decreases n - i,
                {
                    out.push(s[i]);
                    assert(s@.take(i + 1) == s@.take(i as int).push(s@[i as int]));
                    i = i + 1;
                }
                Ok(finish_writing(n as u64, buf, out))
            },
            _ => Err(EmulationFault::WrongObjectType),
        }
    }

    /// Makes an empty dictionary and returns its handle.
    pub fn create_dictionary(&mut self) -> (h: u64)
        requires
            old(self).wf(),
            old(self).objects@.len() < u64::MAX,
        ensures
            final(self).wf(),
            h == old(self).objects@.len() + 1,
            final(self).objects@ == old(self).objects@.push(CfValue::Dictionary(Map::empty())),
            final(self).heap_used == old(self).heap_used,
            final(self).iterator_pending == old(self).iterator_pending,
            final(self).fixture == old(self).fixture,
    {
        let d = CfObject::Dictionary(Vec::new());
        assert(d@ == CfValue::Dictionary(Map::empty())) by {
            assert(crate::objects::entries_map(Seq::<DictEntry>::empty()) == Map::<
                Seq<u8>,
                u64,
            >::empty());
        }
        self.objects.intern(d)
    }

    /// Stores handle `val` under the string object `key` in dictionary `d`.
    pub fn set_value(&mut self, d: u64, key: u64, val: u64) -> (r: Result<(), EmulationFault>)
        requires
            old(self).wf(),
        ensures
            final(self).wf(),
            r == set_value_result(old(self).objects@, d, key, val),
            r is Ok ==> final(self).objects@ == set_value_table(old(self).objects@, d, key, val),
            r is Err ==> final(self).objects@ == old(self).objects@,
            final(self).heap_used == old(self).heap_used,
            final(self).iterator_pending == old(self).iterator_pending,
            final(self).fixture == old(self).fixture,
    {
        let k = match self.objects.resolve(key)? {
            CfObject::Str(s) => copy_bytes(s.as_slice()),
            _ => return Err(EmulationFault::WrongObjectType),
        };
        if val == 0 || val > self.objects.len() as u64 {
            return Err(EmulationFault::InvalidHandle);
        }
        self.objects.dict_set(d, k.as_slice(), val)
    }

    /// Looks a key up in dictionary `d` and returns a new object holding a
    /// copy of the value found. The sentinel key constant stands for the
    /// volume UUID key, whatever the dictionary.
    pub fn get_value(&mut self, d: u64, key: u64) -> (r: Result<u64, EmulationFault>)
        requires
            old(self).wf(),
            old(self).objects@.len() + 1 < u64::MAX,
        ensures
            final(self).wf(),
            (r, final(self).objects@) == get_value_spec(old(self).objects@, d, key),
            final(self).heap_used == old(self).heap_used,
            final(self).iterator_pending == old(self).iterator_pending,
            final(self).fixture == old(self).fixture,
    {
        let k = if key == SENTINEL_KEY {
            "DADiskDescriptionVolumeUUIDKey".as_bytes_vec()
        } else {
            match self.objects.resolve(key)? {
                CfObject::Str(s) => copy_bytes(s.as_slice()),
                _ => return Err(EmulationFault::WrongObjectType),
            }
        };
        let h = self.objects.dict_get(d, k.as_slice())?;
        let copy = self.objects.resolve(h)?.duplicate();
        Ok(self.objects.intern(copy))
    }

    /// Makes a disk description: a dictionary holding the fixture's volume
    /// UUID under the volume UUID key. Returns the dictionary's handle.
    pub fn copy_description(&mut self) -> (h: u64)
        requires
            old(self).wf(),
            old(self).objects@.len() + 2 < u64::MAX,
        ensures
            final(self).wf(),
            h == old(self).objects@.len() + 1,
            final(self).objects@ == description_table(
                old(self).objects@,
                old(self).fixture.root_disk_uuid@,
            ),
            final(self).heap_used == old(self).heap_used,
            final(self).iterator_pending == old(self).iterator_pending,
            final(self).fixture == old(self).fixture,
    {
        let ghost t = self.objects@;
        let d = self.create_dictionary();
        let uuid = self.objects.intern(CfObject::Str(copy_bytes(self.fixture.root_disk_uuid.as_slice())));
        let key = "DADiskDescriptionVolumeUUIDKey".as_bytes_vec();
        let r = self.objects.dict_set(d, key.as_slice(), uuid);
        assert(r is Ok);
        assert(self.objects@ =~= description_table(t, self.fixture.root_disk_uuid@));
        d
    }

    /// Starts the simulated one-service iteration and hands the iterator back
    /// through `existing`.
    pub fn matching_services(&mut self, existing: u64) -> (r: HookStep)
        ensures
            r@ == done_writing(0, existing, seq![MATCHING_ITERATOR]),
            final(self).iterator_pending,
            final(self).objects == old(self).objects,
            final(self).heap_used == old(self).heap_used,
            final(self).fixture == old(self).fixture,
    {
        self.iterator_pending = true;
        let mut b: Vec<u8> = Vec::new();
        b.push(MATCHING_ITERATOR);
        assert(b@ =~= seq![MATCHING_ITERATOR]);
        finish_writing(0, existing, b)
    }

    /// The next service of the simulated iteration: the sentinel service once
    /// after the matching hook, zero after that.
    pub fn iterator_next(&mut self) -> (r: u64)
        ensures
            r == iterator_next_spec(old(self).iterator_pending),
            !final(self).iterator_pending,
            final(self).objects == old(self).objects,
            final(self).heap_used == old(self).heap_used,
            final(self).fixture == old(self).fixture,
    {
        if self.iterator_pending {
            self.iterator_pending = false;
            ITERATOR_SENTINEL
        } else {
            0
        }
    }

    /// Answers a registry property query. The key argument points at a
    /// constant string descriptor (header word, flags word, pointer to the
    /// UTF-8 bytes, byte length; little-endian words). The first step asks for
    /// the descriptor, the second for the bytes it names. A key the fixture
    /// holds gives a new object with the fixture's value; another key gives 0.
    pub fn registry_property(&mut self, key: u64, reads: &[Vec<u8>]) -> (r: Result<
        HookStep,
        EmulationFault,
    >)
        requires
            old(self).wf(),
            old(self).objects@.len() + 1 < u64::MAX,
        ensures
            final(self).wf(),
            (step_result(r), final(self).objects@) == property_spec(
                old(self).objects@,
                old(self).fixture.iokit@,
                key,
                reads_view(reads@),
            ),
            final(self).heap_used == old(self).heap_used,
            final(self).iterator_pending == old(self).iterator_pending,
            final(self).fixture == old(self).fixture,
    {
        if reads.len() == 0 {
            return Ok(HookStep::Read { addr: key, len: CFSTR_DESCRIPTOR_LEN });
        }
        if reads[0].len() as u64 != CFSTR_DESCRIPTOR_LEN {
            return Err(EmulationFault::UnmappedMemory);
        }
        let ptr = read_le_u64(reads[0].as_slice(), 16);
        let len = read_le_u64(reads[0].as_slice(), 24);
        if reads.len() == 1 {
            return Ok(HookStep::Read { addr: ptr, len });
        }
        if reads[1].len() as u64 != len {
            return Err(EmulationFault::UnmappedMemory);
        }
        let name = reads[1].as_slice();
        let mut i: usize = 0;
        while i < self.fixture.iokit.len() && !crate::objects::bytes_eq(
            self.fixture.iokit[i].key.as_slice(),
            name,
        )
            invariant
                0 <= i <= self.fixture.iokit@.len(),
                forall|j: int| 0 <= j < i ==> self.fixture.iokit@[j].key@ != name@,
            decreases self.fixture.iokit@.len() - i,
        {
            i = i + 1;
        }
        if i == self.fixture.iokit.len() {
            assert(!exists|k: int| fixture_index(self.fixture.iokit@, name@, k)) by {
                if exists|k: int| fixture_index(self.fixture.iokit@, name@, k) {
                    let k = choose|k: int| fixture_index(self.fixture.iokit@, name@, k);
                    assert(self.fixture.iokit@[k].key@ != name@);
                }
            }
            return Ok(finish(0));
        }
        proof {
            assert(fixture_index(self.fixture.iokit@, name@, i as int));
            let k = choose|k: int| fixture_index(self.fixture.iokit@, name@, k);
            if k < i {
                assert(self.fixture.iokit@[k].key@ != name@);
            }
            if i < k {
                assert(self.fixture.iokit@[i as int].key@ != name@);
            }
        }
        let obj = match &self.fixture.iokit[i].value {
            FixtureValue::Data(d) => CfObject::Data(copy_bytes(d.as_slice())),
            FixtureValue::Str(s) => CfObject::Str(copy_bytes(s.as_slice())),
        };
        let h = self.objects.intern(obj);
        Ok(finish(h))
    }

    /// Makes a matching dictionary for a service class. The argument points at
    /// a C string; the first step asks for its bytes. The dictionary holds the
    /// class name, up to its first zero byte, under the provider class key.
    pub fn service_matching(&mut self, name: u64, reads: &[Vec<u8>]) -> (r: Result<
        HookStep,
        EmulationFault,
    >)
        requires
            old(self).wf(),
            old(self).objects@.len() + 2 < u64::MAX,
        ensures
            final(self).wf(),
            (step_result(r), final(self).objects@) == matching_spec(
                old(self).objects@,
                name,
                reads_view(reads@),
            ),
            final(self).heap_used == old(self).heap_used,
            final(self).iterator_pending == old(self).iterator_pending,
            final(self).fixture == old(self).fixture,
    {
        if reads.len() == 0 {
            return Ok(HookStep::Read { addr: name, len: CSTR_READ_LEN });
        }
        let ghost t = self.objects@;
        let class = c_string_of(reads[0].as_slice());
        let d = self.create_dictionary();
        let s = self.objects.intern(CfObject::Str(class));
        let key = "IOProviderClass".as_bytes_vec();
        let res = self.objects.dict_set(d, key.as_slice(), s);
        assert(res is Ok);
        assert(self.objects@ =~= t.push(
            CfValue::Dictionary(Map::empty().insert(provider_class_key(), (t.len() + 2) as u64)),
        ).push(CfValue::Str(c_string(reads@[0]@))));
        Ok(finish(d))
    }
}

/// Copies `len` bytes from `src` to `dest`: the first step asks for the source
/// bytes, the second writes them.
pub fn memcpy_step(dest: u64, src: u64, len: u64, reads: &[Vec<u8>]) -> (r: Result<
    HookStep,
    EmulationFault,
>)
    ensures
        step_result(r) == memcpy_spec(dest, src, len, reads_view(reads@)),
{
    if reads.len() == 0 {
        return Ok(HookStep::Read { addr: src, len });
    }
    if reads[0].len() as u64 != len {
        return Err(EmulationFault::UnmappedMemory);
    }
    Ok(finish_writing(0, dest, copy_bytes(reads[0].as_slice())))
}

/// Whether an allocation of `size` bytes keeps the heap cursor addressable.
pub open spec fn heap_fits(heap_used: u64, size: u64) -> bool {
    heap_used + size <= u64::MAX - HEAP_BASE
}

impl Harness {
    /// Runs one step of a hook on the raw argument words it was called with.
    /// `reads` holds the guest bytes earlier steps of this call asked for.
    pub fn run_hook(&mut self, hook: Hook, args: &[u64], reads: &[Vec<u8>]) -> (r: Result<
        HookStep,
        EmulationFault,
    >)
        requires
            old(self).wf(),
            old(self).objects@.len() + 2 < u64::MAX,
        ensures
            final(self).wf(),
            final(self).fixture == old(self).fixture,
            args@.len() != hook.arity_spec() ==> r == Err::<HookStep, EmulationFault>(
                EmulationFault::InvalidHookArity,
            ) && unchanged(*old(self), *final(self)),
            args@.len() == hook.arity_spec() ==> hook_effect(
                *old(self),
                *final(self),
                hook,
                args@,
                reads_view(reads@),
                step_result(r),
            ),
    {
        if args.len() != hook.arity() {
            return Err(EmulationFault::InvalidHookArity);
        }
        let ghost t = self.objects@;
        match hook {
            Hook::Malloc => {
                if self.heap_used > u64::MAX - HEAP_BASE || args[0] > u64::MAX - HEAP_BASE
                    - self.heap_used {
                    return Err(EmulationFault::UnmappedMemory);
                }
                let a = self.malloc(args[0]);
                Ok(finish(a))
            },
            Hook::StackChkGuard => Ok(finish(0)),
            Hook::MemsetChk => Ok(finish_writing(0, args[0], filled(args[1] as u8, args[2]))),
            Hook::Sysctlbyname => Ok(finish(0)),
            Hook::Memcpy => memcpy_step(args[0], args[1], args[2], reads),
            Hook::IOMasterPortDefault => Ok(finish(0)),
            Hook::IORegistryEntryFromPath => Ok(finish(1)),
            Hook::CFAllocatorDefault => Ok(finish(0)),
            Hook::IORegistryEntryCreateCFProperty => self.registry_property(args[1], reads),
            Hook::CFGetTypeID => Ok(finish(self.type_id(args[0])?)),
            Hook::CFStringGetTypeID => Ok(finish(STRING_TYPE_ID)),
            Hook::CFDataGetTypeID => Ok(finish(DATA_TYPE_ID)),
            Hook::CFDataGetLength => Ok(finish(self.data_length(args[0])?)),
            Hook::CFDataGetBytes => self.data_bytes(args[0], args[1], args[2], args[3]),
            Hook::CFRelease => Ok(finish(0)),
            Hook::IOObjectRelease => Ok(finish(0)),
            Hook::StatfsInode64 => Ok(finish(0)),
            Hook::DASessionCreate => Ok(finish(201)),
            Hook::DADiskCreateFromBSDName => Ok(finish(202)),
            Hook::DADiskDescriptionVolumeUUIDKey => Ok(finish(0)),
            Hook::DADiskCopyDescription => {
                let d = self.copy_description();
                Ok(finish(d))
            },
            Hook::CFDictionaryGetValue => Ok(finish(self.get_value(args[0], args[1])?)),
            Hook::CFUUIDCreateString => Ok(finish(args[1])),
            Hook::CFStringGetLength => Ok(finish(self.string_length(args[0])?)),
            Hook::CFStringGetMaximumSizeForEncoding => Ok(finish(args[0])),
            Hook::CFStringGetCString => self.copy_cstring(args[0], args[1], args[2]),
            Hook::Free => Ok(finish(0)),
            Hook::IOServiceMatching => self.service_matching(args[0], reads),
            Hook::IOServiceGetMatchingService => Ok(finish(92)),
            Hook::CFDictionaryCreateMutable => {
                let d = self.create_dictionary();
                Ok(finish(d))
            },
            Hook::CFBooleanTrue => Ok(finish(0)),
            Hook::CFDictionarySetValue => {
                self.set_value(args[0], args[1], args[2])?;
                Ok(finish(0))
            },
            Hook::IOServiceGetMatchingServices => Ok(self.matching_services(args[2])),
            Hook::IOIteratorNext => Ok(finish(self.iterator_next())),
            Hook::Bzero => Ok(finish_writing(0, args[0], filled(0, args[1]))),
            Hook::IORegistryEntryGetParentEntry => {
                let mut b: Vec<u8> = Vec::new();
                b.push(((args[0] % 256 + 100) % 256) as u8);
                assert(b@ =~= seq![parent_entry_byte(args@[0])]);
                Ok(finish_writing(0, args[2], b))
            },
            Hook::Arc4random => Ok(finish(random_u32() as u64)),
        }
    }
}

/// What one step of `h` on `args` does to the run's state `a`, giving `b` and
/// the outcome `r`.
pub open spec fn hook_effect(
    a: Harness,
    b: Harness,
    h: Hook,
    args: Seq<u64>,
    reads: Seq<Seq<u8>>,
    r: Result<StepValue, EmulationFault>,
) -> bool {
    let t = a.objects@;
    let same_flag = b.iterator_pending == a.iterator_pending;
    let same_heap = b.heap_used == a.heap_used;
    if constant_hook(h, args) is Some {
        r == Ok::<StepValue, EmulationFault>(done(constant_hook(h, args)->Some_0)) && unchanged(a, b)
    } else {
        match h {
            Hook::Malloc => if heap_fits(a.heap_used, args[0]) {
                r == Ok::<StepValue, EmulationFault>(done((HEAP_BASE + a.heap_used) as u64))
                    && b.heap_used == a.heap_used + args[0] && b.objects@ == t && same_flag
            } else {
                r == Err::<StepValue, EmulationFault>(EmulationFault::UnmappedMemory) && unchanged(a, b)
            },
            Hook::MemsetChk => r == Ok::<StepValue, EmulationFault>(
                done_writing(0, args[0], Seq::new(args[2] as nat, |i: int| args[1] as u8)),
            ) && unchanged(a, b),
            Hook::Bzero => r == Ok::<StepValue, EmulationFault>(
                done_writing(0, args[0], Seq::new(args[1] as nat, |i: int| 0u8)),
            ) && unchanged(a, b),
            Hook::Memcpy => r == memcpy_spec(args[0], args[1], args[2], reads) && unchanged(a, b),
            Hook::IORegistryEntryCreateCFProperty => (r, b.objects@) == property_spec(
                t,
                a.fixture.iokit@,
                args[1],
                reads,
            ) && same_heap && same_flag,
            Hook::CFGetTypeID => r == word_result(type_id_spec(t, args[0])) && unchanged(a, b),
            Hook::CFDataGetLength => r == word_result(len_result(data_spec(t, args[0])))
                && unchanged(a, b),
            Hook::CFDataGetBytes => r == data_bytes_spec(t, args[0], args[1], args[2], args[3])
                && unchanged(a, b),
            Hook::DADiskCopyDescription => r == Ok::<StepValue, EmulationFault>(
                done((t.len() + 1) as u64),
            ) && b.objects@ == description_table(t, a.fixture.root_disk_uuid@) && same_heap
                && same_flag,
            Hook::CFDictionaryGetValue => r == word_result(get_value_spec(t, args[0], args[1]).0)
                && b.objects@ == get_value_spec(t, args[0], args[1]).1 && same_heap && same_flag,
            Hook::CFStringGetLength => r == word_result(len_result(string_spec(t, args[0])))
                && unchanged(a, b),
            Hook::CFStringGetCString => r == cstring_spec(t, args[0], args[1], args[2]) && unchanged(
                a,
                b,
            ),
            Hook::IOServiceMatching => (r, b.objects@) == matching_spec(t, args[0], reads)
                && same_heap && same_flag,
            Hook::CFDictionaryCreateMutable => r == Ok::<StepValue, EmulationFault>(
                done((t.len() + 1) as u64),
            ) && b.objects@ == t.push(CfValue::Dictionary(Map::empty())) && same_heap && same_flag,
            Hook::CFDictionarySetValue => match set_value_result(t, args[0], args[1], args[2]) {
                Ok(_) => r == Ok::<StepValue, EmulationFault>(done(0)) && b.objects@
                    == set_value_table(t, args[0], args[1], args[2]) && same_heap && same_flag,
                Err(e) => r == Err::<StepValue, EmulationFault>(e) && unchanged(a, b),
            },
            Hook::IOServiceGetMatchingServices => r == Ok::<StepValue, EmulationFault>(
                done_writing(0, args[2], seq![MATCHING_ITERATOR]),
            ) && b.iterator_pending && b.objects@ == t && same_heap,
            Hook::IOIteratorNext => r == Ok::<StepValue, EmulationFault>(
                done(iterator_next_spec(a.iterator_pending)),
            ) && !b.iterator_pending && b.objects@ == t && same_heap,
            Hook::IORegistryEntryGetParentEntry => r == Ok::<StepValue, EmulationFault>(
                done_writing(0, args[2], seq![parent_entry_byte(args[0])]),
            ) && unchanged(a, b),
            Hook::Arc4random => (exists|v: u64| v < 0x1_0000_0000 && r == Ok::<
                StepValue,
                EmulationFault,
            >(done(v))) && unchanged(a, b),
            _ => false,
        }
    }
}

/// What `n` calls of the iterator hook return, starting with the flag `pending`.
pub open spec fn iterator_run(pending: bool, n: nat) -> Seq<u64>
    decreases n,
{
    if n == 0 {
        Seq::empty()
    } else {
        seq![iterator_next_spec(pending)].add(iterator_run(false, (n - 1) as nat))
    }
}

/// After the service-matching hook, the iterator yields the sentinel service
/// exactly once and then end-of-iteration on every later call.
pub proof fn lemma_iterator_yields_once(n: nat)
    requires
        n >= 1,
    ensures
        iterator_run(true, n)[0] == ITERATOR_SENTINEL,
        forall|k: int| 1 <= k < n ==> #[trigger] iterator_run(true, n)[k] == 0,
{
    assert forall|k: int| 1 <= k < n implies #[trigger] iterator_run(true, n)[k] == 0 by {
        lemma_iterator_exhausted((n - 1) as nat);
        assert(iterator_run(true, n)[k] == iterator_run(false, (n - 1) as nat)[k - 1]);
    }
}

proof fn lemma_iterator_exhausted(n: nat)
    ensures
        iterator_run(false, n).len() == n,
        forall|k: int| 0 <= k < n ==> #[trigger] iterator_run(false, n)[k] == 0,
    decreases n,
{
    if n > 0 {
        lemma_iterator_exhausted((n - 1) as nat);
        assert forall|k: int| 0 <= k < n implies #[trigger] iterator_run(false, n)[k] == 0 by {
            if k > 0 {
                assert(iterator_run(false, n)[k] == iterator_run(false, (n - 1) as nat)[k - 1]);
            }
        }
    }
}

/// A string copy into a buffer smaller than the string writes exactly the
/// capacity's worth of the string's first bytes and returns the capacity.
pub proof fn lemma_copy_truncates(t: Seq<CfValue>, s: u64, buf: u64, cap: u64)
    requires
        string_spec(t, s) is Ok,
        cap < string_spec(t, s)->Ok_0.len(),
    ensures
        cstring_spec(t, s, buf, cap) == Ok::<StepValue, EmulationFault>(
            done_writing(cap, buf, string_spec(t, s)->Ok_0.take(cap as int)),
        ),
        string_spec(t, s)->Ok_0.take(cap as int).len() == cap,
{
}

/// The sentinel key constant gives the same result and the same table as a
/// string object holding the volume UUID key, whichever dictionary handle is
/// given.
pub proof fn lemma_sentinel_key(t: Seq<CfValue>, d: u64, key: u64)
    requires
        string_spec(t, key) == Ok::<Seq<u8>, EmulationFault>(volume_uuid_key()),
    ensures
        get_value_spec(t, d, SENTINEL_KEY) == get_value_spec(t, d, key),
{
}

/// Storing handle `val` under a string key and then looking that key up in
/// the same dictionary appends one object, equal to the value `val` names,
/// and returns its handle.
pub proof fn lemma_set_value_then_get(t: Seq<CfValue>, d: u64, key: u64, val: u64)
    requires
        set_value_result(t, d, key, val) is Ok,
        key != SENTINEL_KEY,
    ensures
        get_value_spec(set_value_table(t, d, key, val), d, key) == (
            Ok::<u64, EmulationFault>((t.len() + 1) as u64),
            set_value_table(t, d, key, val).push(set_value_table(t, d, key, val)[val - 1]),
        ),
{
    let t2 = set_value_table(t, d, key, val);
    assert(t2[key - 1] == t[key - 1]);
}

impl Harness {
    /// Handles control reaching trampoline address `addr`: finds the hook
    /// assigned there, takes its arguments from the argument registers and the
    /// stack words above the return address, and runs one step of it.
    pub fn dispatch_trap(
        &mut self,
        addr: u64,
        registers: &[u64],
        stack: &[u64],
        reads: &[Vec<u8>],
    ) -> (r: Result<HookStep, EmulationFault>)
        requires
            old(self).wf(),
            old(self).objects@.len() + 2 < u64::MAX,
        ensures
            final(self).wf(),
            final(self).fixture == old(self).fixture,
            (forall|h: Hook| h.address_spec() != addr) ==> r == Err::<HookStep, EmulationFault>(
                EmulationFault::UnresolvedHook,
            ) && unchanged(*old(self), *final(self)),
            forall|h: Hook|
                h.address_spec() == addr ==> if registers@.len() >= reg_count(h.arity_spec())
                    && stack@.len() >= h.arity_spec() - reg_count(h.arity_spec()) {
                    hook_effect(
                        *old(self),
                        *final(self),
                        h,
                        gathered_args(registers@, stack@, h.arity_spec()),
                        reads_view(reads@),
                        step_result(r),
                    )
                } else {
                    r == Err::<HookStep, EmulationFault>(EmulationFault::InvalidHookArity)
                        && unchanged(*old(self), *final(self))
                },
    {
        let hook = hook_at(addr)?;
        proof {
            assert forall|h: Hook| h.address_spec() == addr implies h == hook by {
                assert(h.index_spec() == hook.index_spec());
            }
        }
        let args = gather_args(hook.arity(), registers, stack)?;
        self.run_hook(hook, args.as_slice(), reads)
    }
}

/// Runs do not leak into each other: one hook step (other than the random
/// one) on two runs in the same state, such as two runs fresh from
/// `Harness::new` with the same fixture, gives the same outcome and the same
/// new state. Each run's handles depend on its own table alone.
pub proof fn lemma_runs_independent(
    a: Harness,
    a2: Harness,
    b: Harness,
    b2: Harness,
    h: Hook,
    args: Seq<u64>,
    reads: Seq<Seq<u8>>,
    r1: Result<StepValue, EmulationFault>,
    r2: Result<StepValue, EmulationFault>,
)
    requires
        a.objects@ == b.objects@,
        a.heap_used == b.heap_used,
        a.iterator_pending == b.iterator_pending,
        a.fixture.iokit@ == b.fixture.iokit@,
        a.fixture.root_disk_uuid@ == b.fixture.root_disk_uuid@,
        h != Hook::Arc4random,
        hook_effect(a, a2, h, args, reads, r1),
        hook_effect(b, b2, h, args, reads, r2),
    ensures
        r1 == r2,
        a2.objects@ == b2.objects@,
        a2.heap_used == b2.heap_used,
        a2.iterator_pending == b2.iterator_pending,
{
}

} // verus!
