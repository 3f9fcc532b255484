use vstd::prelude::*;

use crate::error::FormatError;

verus! {

/// The CPU type of x86-64 in a fat header.
pub const CPU_TYPE_X86_64: u32 = 0x0100_0007;

/// The first four bytes of a little-endian 64-bit Mach-O image.
pub open spec fn mach_magic_64() -> Seq<u8> {
    seq![0xcfu8, 0xfau8, 0xedu8, 0xfeu8]
}

/// One architecture entry of a fat header.
#[derive(Debug, Clone, Copy, PartialEq, Eq, Structural)]
pub struct FatArchEntry {
    pub cputype: u32,
    pub offset: u64,
    pub size: u64,
}

/// The big-endian 32-bit word at `off`.
pub open spec fn be_u32(b: Seq<u8>, off: int) -> int {
    b[off] * 0x100_0000 + b[off + 1] * 0x1_0000 + b[off + 2] * 0x100 + b[off + 3]
}

/// The big-endian 64-bit word at `off`.
pub open spec fn be_u64(b: Seq<u8>, off: int) -> int {
    be_u32(b, off) * 0x1_0000_0000 + be_u32(b, off + 4)
}

/// The container starts with the magic of a fat header with 32-bit entries,
/// in either byte order.
pub open spec fn is_fat32(b: Seq<u8>) -> bool {
    b.len() >= 4 && (b.subrange(0, 4) == seq![0xcau8, 0xfeu8, 0xbau8, 0xbeu8] || b.subrange(0, 4)
        == seq![0xbeu8, 0xbau8, 0xfeu8, 0xcau8])
}

/// The container starts with the magic of a fat header with 64-bit entries,
/// in either byte order.
pub open spec fn is_fat64(b: Seq<u8>) -> bool {
    b.len() >= 4 && (b.subrange(0, 4) == seq![0xcau8, 0xfeu8, 0xbau8, 0xbfu8] || b.subrange(0, 4)
        == seq![0xbfu8, 0xbau8, 0xfeu8, 0xcau8])
}

/// The number of architecture entries the fat header declares.
pub open spec fn fat_count(b: Seq<u8>) -> int {
    be_u32(b, 4)
}

/// The length in bytes of one architecture entry.
pub open spec fn fat_entry_len(b: Seq<u8>) -> int {
    if is_fat64(b) {
        32
    } else {
        20
    }
}

/// Where architecture entry `i` starts.
pub open spec fn fat_entry_start(b: Seq<u8>, i: int) -> int {
    8 + i * fat_entry_len(b)
}

/// Architecture entry `i` as the fat header declares it.
pub open spec fn fat_entry(b: Seq<u8>, i: int) -> FatArchEntry {
    let at = fat_entry_start(b, i);
    if is_fat64(b) {
        FatArchEntry {
            cputype: be_u32(b, at) as u32,
            offset: be_u64(b, at + 8) as u64,
            size: be_u64(b, at + 16) as u64,
        }
    } else {
        FatArchEntry {
            cputype: be_u32(b, at) as u32,
            offset: be_u32(b, at + 8) as u64,
            size: be_u32(b, at + 12) as u64,
        }
    }
}

/// The byte where the entries of the fat header end.
pub open spec fn fat_header_end(b: Seq<u8>) -> int {
    fat_entry_start(b, fat_count(b))
}

/// `b` is a well-formed fat container: a fat magic, room for every declared
/// entry, and each entry naming a non-empty range past the header and inside
/// the container.
pub open spec fn fat_header_valid(b: Seq<u8>) -> bool {
    &&& is_fat32(b) || is_fat64(b)
    &&& b.len() >= 8
    &&& b.len() >= fat_header_end(b)
    &&& forall|i: int|
        0 <= i < fat_count(b) ==> #[trigger] fat_entry(b, i).offset >= fat_header_end(b) && 0
            < fat_entry(b, i).size && fat_entry(b, i).offset + fat_entry(b, i).size <= b.len()
}

/// The entries the fat header of `b` declares, in order.
pub open spec fn fat_entries(b: Seq<u8>) -> Seq<FatArchEntry> {
    Seq::new(fat_count(b) as nat, |i: int| fat_entry(b, i))
}

fn read_be_u32(b: &[u8], off: usize) -> (r: u32)
    requires
        off + 4 <= b@.len(),
    ensures
        r == be_u32(b@, off as int),
{
    (b[off] as u32) * 0x100_0000 + (b[off + 1] as u32) * 0x1_0000 + (b[off + 2] as u32) * 0x100
        + b[off + 3] as u32
}

fn read_be_u64(b: &[u8], off: usize) -> (r: u64)
    requires
        off + 8 <= b@.len(),
    ensures
        r == be_u64(b@, off as int),
{
    let n = b.len();
    assert(off + 4 < n);
    let hi = read_be_u32(b, off) as u64;
    let lo = read_be_u32(b, off + 4) as u64;
    assert(hi * 0x1_0000_0000 <= 0xffff_ffff_0000_0000) by (nonlinear_arith)
        requires
            hi <= 0xffff_ffff,
    ;
    hi * 0x1_0000_0000 + lo
}

/// Reads the architecture entries of a fat container's header (the 32-bit
/// and 64-bit forms, magic in either byte order, fields big-endian).
pub fn read_fat_arches(binary: &[u8]) -> (r: Option<Vec<FatArchEntry>>)
    ensures
        r is Some <==> fat_header_valid(binary@),
        r matches Some(es) ==> es@ == fat_entries(binary@),
{
    let len = binary.len();
    if len < 8 {
        return None;
    }
    let is64 = (binary[0] == 0xca && binary[1] == 0xfe && binary[2] == 0xba && binary[3] == 0xbf)
        || (binary[0] == 0xbf && binary[1] == 0xba && binary[2] == 0xfe && binary[3] == 0xca);
    let is32 = (binary[0] == 0xca && binary[1] == 0xfe && binary[2] == 0xba && binary[3] == 0xbe)
        || (binary[0] == 0xbe && binary[1] == 0xba && binary[2] == 0xfe && binary[3] == 0xca);
    proof {
        let m = binary@.subrange(0, 4);
        assert(m[0] == binary@[0] && m[1] == binary@[1] && m[2] == binary@[2] && m[3] == binary@[3]);
        assert(is64 ==> is_fat64(binary@)) by {
            if is64 && binary@[0] == 0xca {
                assert(m =~= seq![0xcau8, 0xfeu8, 0xbau8, 0xbfu8]);
            } else if is64 {
                assert(m =~= seq![0xbfu8, 0xbau8, 0xfeu8, 0xcau8]);
            }
        }
        assert(is32 ==> is_fat32(binary@)) by {
            if is32 && binary@[0] == 0xca {
                assert(m =~= seq![0xcau8, 0xfeu8, 0xbau8, 0xbeu8]);
            } else if is32 {
                assert(m =~= seq![0xbeu8, 0xbau8, 0xfeu8, 0xcau8]);
            }
        }
        assert(is_fat64(binary@) ==> is64);
        assert(is_fat32(binary@) ==> is32);
    }
    if !is64 && !is32 {
        return None;
    }
    let count = read_be_u32(binary, 4) as u64;
    let elen: u64 = if is64 {
        32
    } else {
        20
    };
    let end: u64 = if is64 {
        8 + 32 * count
    } else {
        8 + 20 * count
    };
    assert(end == fat_header_end(binary@));
    if end > len as u64 {
        return None;
    }
    let mut es: Vec<FatArchEntry> = Vec::new();
    let mut i: u64 = 0;
    while i < count
        invariant
            len == binary@.len(),
            len >= 8,
            is_fat32(binary@) || is_fat64(binary@),
            is64 == is_fat64(binary@),
            elen == fat_entry_len(binary@),
            count == fat_count(binary@),
            end == fat_header_end(binary@),
            end <= len,
            0 <= i <= count,
            es@ == fat_entries(binary@).take(i as int),
            forall|k: int|
                0 <= k < i ==> #[trigger] fat_entry(binary@, k).offset >= end && 0 < fat_entry(
                    binary@,
                    k,
                ).size && fat_entry(binary@, k).offset + fat_entry(binary@, k).size <= len,
        decreases count - i,
    {
        let at: u64 = if is64 {
            8 + 32 * i
        } else {
            8 + 20 * i
        };
        assert(at == fat_entry_start(binary@, i as int));
        let at = at as usize;
        let cputype = read_be_u32(binary, at);
        let (offset, size) = if is64 {
            (read_be_u64(binary, at + 8), read_be_u64(binary, at + 16))
        } else {
            (read_be_u32(binary, at + 8) as u64, read_be_u32(binary, at + 12) as u64)
        };
        let e = FatArchEntry { cputype, offset, size };
        assert(e == fat_entry(binary@, i as int));
        if offset < end || size == 0 || offset > len as u64 || size > len as u64 - offset {
            proof {
                assert(!fat_header_valid(binary@)) by {
                    if fat_header_valid(binary@) {
                        assert(fat_entry(binary@, i as int).offset >= fat_header_end(binary@));
                    }
                }
            }
            return None;
        }
        es.push(e);
        assert(es@ =~= fat_entries(binary@).take(i + 1));
        i = i + 1;
    }
    assert(es@ =~= fat_entries(binary@));
    assert forall|k: int| 0 <= k < fat_count(binary@) implies #[trigger] fat_entry(binary@, k).offset
        >= fat_header_end(binary@) && 0 < fat_entry(binary@, k).size && fat_entry(binary@, k).offset
        + fat_entry(binary@, k).size <= binary@.len() by {
        assert(k < i);
    }
    assert(fat_header_valid(binary@));
    Some(es)
}

/// Index of the first x86-64 entry.
pub open spec fn first_x64(es: Seq<FatArchEntry>, i: int) -> bool {
    &&& 0 <= i < es.len()
    &&& es[i].cputype == CPU_TYPE_X86_64
    &&& forall|j: int| 0 <= j < i ==> es[j].cputype != CPU_TYPE_X86_64
}

/// What selecting the x86-64 slice out of `b`, given its entries `es`, yields.
pub open spec fn select_spec(b: Seq<u8>, es: Seq<FatArchEntry>) -> Result<Seq<u8>, FormatError> {
    if !exists|i: int| first_x64(es, i) {
        Err(FormatError::MissingArch)
    } else {
        let i = choose|i: int| first_x64(es, i);
        let (off, size) = (es[i].offset as int, es[i].size as int);
        if off + size > b.len() {
            Err(FormatError::MissingArch)
        } else if size < 4 || b.subrange(off, off + 4) != mach_magic_64() {
            Err(FormatError::BadSliceMagic)
        } else {
            Ok(b.subrange(off, off + size))
        }
    }
}

/// The bytes of a selected slice, or the error.
pub open spec fn slice_result(r: Result<Vec<u8>, FormatError>) -> Result<Seq<u8>, FormatError> {
    match r {
        Ok(s) => Ok(s@),
        Err(e) => Err(e),
    }
}

/// Picks the x86-64 slice out of a container, given the container's
/// architecture entries.
pub fn select_x64_slice(binary: &[u8], arches: &[FatArchEntry]) -> (r: Result<Vec<u8>, FormatError>)
    ensures
        slice_result(r) == select_spec(binary@, arches@),
{
    let mut i: usize = 0;
    while i < arches.len() && arches[i].cputype != CPU_TYPE_X86_64
        invariant
            0 <= i <= arches@.len(),
            forall|j: int| 0 <= j < i ==> arches@[j].cputype != CPU_TYPE_X86_64,
        decreases arches@.len() - i,
    {
        i = i + 1;
    }
    if i == arches.len() {
        assert(!exists|k: int| first_x64(arches@, k)) by {
            if exists|k: int| first_x64(arches@, k) {
                let k = choose|k: int| first_x64(arches@, k);
                assert(arches@[k].cputype != CPU_TYPE_X86_64);
            }
        }
        return Err(FormatError::MissingArch);
    }
    proof {
        assert(first_x64(arches@, i as int));
        let k = choose|k: int| first_x64(arches@, k);
        if k < i {
            assert(arches@[k].cputype != CPU_TYPE_X86_64);
        }
        if i < k {
            assert(arches@[i as int].cputype != CPU_TYPE_X86_64);
        }
        assert(k == i);
    }
    let off = arches[i].offset;
    let size = arches[i].size;
    if off > binary.len() as u64 || size > binary.len() as u64 - off {
        return Err(FormatError::MissingArch);
    }
    let off = off as usize;
    let size = size as usize;
    if size < 4 || binary[off] != 0xcf || binary[off + 1] != 0xfa || binary[off + 2] != 0xed
        || binary[off + 3] != 0xfe {
        proof {
            if size >= 4 {
                let m = binary@.subrange(off as int, off + 4);
                assert(m[0] == binary@[off as int]);
                assert(m[1] == binary@[off + 1]);
                assert(m[2] == binary@[off + 2]);
                assert(m[3] == binary@[off + 3]);
            }
        }
        return Err(FormatError::BadSliceMagic);
    }
    assert(binary@.subrange(off as int, off + 4) =~= mach_magic_64());
    let mut out: Vec<u8> = Vec::new();
    let end = off + size;
    let mut k: usize = off;
    while k < end
        invariant
            off <= k <= end,
            end == off + size <= binary@.len(),
            out@ == binary@.subrange(off as int, k as int),
        decreases end - k,
    {
        out.push(binary[k]);
        assert(binary@.subrange(off as int, k + 1) == binary@.subrange(off as int, k as int).push(
            binary@[k as int],
        ));
        k = k + 1;
    }
    Ok(out)
}

/// Entry `i` of the fat header of `b` is its first x86-64 entry.
pub open spec fn is_first_x64_entry(b: Seq<u8>, i: int) -> bool {
    &&& 0 <= i < fat_count(b)
    &&& fat_entry(b, i).cputype == CPU_TYPE_X86_64
    &&& forall|j: int| 0 <= j < i ==> fat_entry(b, j).cputype != CPU_TYPE_X86_64
}

/// What loading the x86-64 slice of a container yields.
pub open spec fn load_spec(b: Seq<u8>) -> Result<Seq<u8>, FormatError> {
    if !fat_header_valid(b) {
        Err(FormatError::NotFat)
    } else {
        select_spec(b, fat_entries(b))
    }
}

/// Extracts the x86-64 slice of a multi-architecture container. The slice is
/// the range the header declares for its first x86-64 entry; it must start
/// with the 64-bit Mach-O magic.
pub fn get_x64_slice(binary: &[u8]) -> (r: Result<Vec<u8>, FormatError>)
    ensures
        slice_result(r) == load_spec(binary@),
        r matches Ok(s) ==> fat_header_valid(binary@) && exists|i: int|
            #[trigger] is_first_x64_entry(binary@, i) && fat_entry(binary@, i).offset + fat_entry(
                binary@,
                i,
            ).size <= binary@.len() && s@.len() == fat_entry(binary@, i).size && s@
                == binary@.subrange(
                fat_entry(binary@, i).offset as int,
                fat_entry(binary@, i).offset + fat_entry(binary@, i).size,
            ) && s@.subrange(0, 4) == mach_magic_64(),
{
    match read_fat_arches(binary) {
        None => Err(FormatError::NotFat),
        Some(arches) => {
            let r = select_x64_slice(binary, arches.as_slice());
            proof {
                if r is Ok {
                    let es = arches@;
                    let i = choose|i: int| first_x64(es, i);
                    assert(es[i] == fat_entry(binary@, i));
                    assert forall|j: int| 0 <= j < i implies fat_entry(binary@, j).cputype
                        != CPU_TYPE_X86_64 by {
                        assert(es[j] == fat_entry(binary@, j));
                    }
                    assert(is_first_x64_entry(binary@, i));
                    let s = r->Ok_0@;
                    assert(s.subrange(0, 4) =~= binary@.subrange(
                        es[i].offset as int,
                        es[i].offset + 4,
                    ));
                }
            }
            r
        },
    }
}

/// A well-formed container whose first x86-64 entry starts with the 64-bit
/// Mach-O magic gives that entry's slice: exactly as long as the declared
/// size, and starting with the magic.
pub proof fn lemma_x64_slice_loads(b: Seq<u8>, i: int)
    requires
        fat_header_valid(b),
        is_first_x64_entry(b, i),
        fat_entry(b, i).size >= 4,
        b.subrange(fat_entry(b, i).offset as int, fat_entry(b, i).offset + 4) == mach_magic_64(),
    ensures
        load_spec(b) == Ok::<Seq<u8>, FormatError>(
            b.subrange(fat_entry(b, i).offset as int, fat_entry(b, i).offset + fat_entry(b, i).size),
        ),
        b.subrange(fat_entry(b, i).offset as int, fat_entry(b, i).offset + fat_entry(b, i).size).len()
            == fat_entry(b, i).size,
        b.subrange(fat_entry(b, i).offset as int, fat_entry(b, i).offset + fat_entry(b, i).size).subrange(0, 4)
            == mach_magic_64(),
{
    let es = fat_entries(b);
    assert(first_x64(es, i));
    let k = choose|k: int| first_x64(es, k);
    if k < i {
        assert(es[k].cputype != CPU_TYPE_X86_64);
    }
    if i < k {
        assert(es[i].cputype != CPU_TYPE_X86_64);
    }
    assert(k == i);
    let (off, size) = (fat_entry(b, i).offset as int, fat_entry(b, i).size as int);
    assert(b.subrange(off, off + size).subrange(0, 4) =~= b.subrange(off, off + 4));
}

} // verus!
