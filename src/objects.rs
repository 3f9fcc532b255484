use vstd::prelude::*;

use crate::error::EmulationFault;

verus! {

/// One key of a dictionary object and the handle of the value stored under it.
pub struct DictEntry {
    pub key: Vec<u8>,
    pub value: u64,
}

/// An emulated runtime object. Strings hold their UTF-8 bytes; a dictionary
/// refers to its values by handle.
pub enum CfObject {
    Str(Vec<u8>),
    Data(Vec<u8>),
    Dictionary(Vec<DictEntry>),
}

/// The mathematical value of an object.
pub enum CfValue {
    Str(Seq<u8>),
    Data(Seq<u8>),
    Dictionary(Map<Seq<u8>, u64>),
}

/// The map that a list of entries stands for; a later entry wins over an earlier one.
pub open spec fn entries_map(s: Seq<DictEntry>) -> Map<Seq<u8>, u64>
    decreases s.len(),
{
    if s.len() == 0 {
        Map::empty()
    } else {
        entries_map(s.drop_last()).insert(s.last().key@, s.last().value)
    }
}

/// No key occurs twice among the entries.
pub open spec fn keys_unique(s: Seq<DictEntry>) -> bool {
    forall|i: int, j: int| 0 <= i < j < s.len() ==> s[i].key@ != s[j].key@
}

proof fn lemma_entries_map_domain(s: Seq<DictEntry>, k: Seq<u8>)
    ensures
        entries_map(s).contains_key(k) <==> exists|i: int| 0 <= i < s.len() && s[i].key@ == k,
    decreases s.len(),
{
    if s.len() > 0 {
        lemma_entries_map_domain(s.drop_last(), k);
        if entries_map(s).contains_key(k) && k != s.last().key@ {
            let i = choose|i: int| 0 <= i < s.len() - 1 && s.drop_last()[i].key@ == k;
            assert(s[i].key@ == k);
        }
        if exists|i: int| 0 <= i < s.len() && s[i].key@ == k {
            let i = choose|i: int| 0 <= i < s.len() && s[i].key@ == k;
            if i < s.len() - 1 {
                assert(s.drop_last()[i].key@ == k);
            }
        }
    }
}

proof fn lemma_entries_map_value(s: Seq<DictEntry>, i: int)
    requires
        keys_unique(s),
        0 <= i < s.len(),
    ensures
        entries_map(s).contains_key(s[i].key@),
        entries_map(s)[s[i].key@] == s[i].value,
    decreases s.len(),
{
    if i < s.len() - 1 {
        assert(s.drop_last()[i] == s[i]);
        lemma_entries_map_value(s.drop_last(), i);
    }
}

proof fn lemma_entries_map_update(s: Seq<DictEntry>, i: int, e: DictEntry)
    requires
        keys_unique(s),
        0 <= i < s.len(),
        e.key@ == s[i].key@,
    ensures
        keys_unique(s.update(i, e)),
        entries_map(s.update(i, e)) == entries_map(s).insert(e.key@, e.value),
{
    let t = s.update(i, e);
    assert(keys_unique(t));
    assert forall|k: Seq<u8>| #[trigger] entries_map(t).contains_key(k) <==> entries_map(
        s,
    ).insert(e.key@, e.value).contains_key(k) by {
        lemma_entries_map_domain(t, k);
        lemma_entries_map_domain(s, k);
        assert(t[i].key@ == e.key@);
        if exists|j: int| 0 <= j < s.len() && s[j].key@ == k {
            let j = choose|j: int| 0 <= j < s.len() && s[j].key@ == k;
            if j != i {
                assert(t[j].key@ == k);
            }
        }
        if exists|j: int| 0 <= j < t.len() && t[j].key@ == k {
            let j = choose|j: int| 0 <= j < t.len() && t[j].key@ == k;
            if j != i {
                assert(s[j].key@ == k);
            }
        }
    }
    assert forall|k: Seq<u8>| #[trigger] entries_map(t).contains_key(k) implies entries_map(t)[k]
        == entries_map(s).insert(e.key@, e.value)[k] by {
        lemma_entries_map_domain(t, k);
        let j = choose|j: int| 0 <= j < t.len() && t[j].key@ == k;
        lemma_entries_map_value(t, j);
        if j != i {
            lemma_entries_map_value(s, j);
        }
    }
    assert(entries_map(t) =~= entries_map(s).insert(e.key@, e.value));
}

/// Whether two byte strings are equal.
pub fn bytes_eq(a: &[u8], b: &[u8]) -> (r: bool)
    ensures
        r == (a@ == b@),
{
    if a.len() != b.len() {
        return false;
    }
    let mut i: usize = 0;
    while i < a.len()
        invariant
            a@.len() == b@.len(),
            0 <= i <= a@.len(),
            a@.subrange(0, i as int) == b@.subrange(0, i as int),
        decreases a@.len() - i,
    {
        if a[i] != b[i] {
            assert(a@[i as int] != b@[i as int]);
            return false;
        }
        assert(a@.subrange(0, i + 1) == a@.subrange(0, i as int).push(a@[i as int]));
        assert(b@.subrange(0, i + 1) == b@.subrange(0, i as int).push(b@[i as int]));
        i = i + 1;
    }
    assert(a@ == a@.subrange(0, a@.len() as int));
    assert(b@ == b@.subrange(0, b@.len() as int));
    true
}

/// A copy of a byte string.
pub fn copy_bytes(a: &[u8]) -> (r: Vec<u8>)
    ensures
        r@ == a@,
{
    let mut r: Vec<u8> = Vec::new();
    let mut i: usize = 0;
    while i < a.len()
        invariant
            0 <= i <= a@.len(),
            r@ == a@.subrange(0, i as int),
        decreases a@.len() - i,
    {
        r.push(a[i]);
        assert(a@.subrange(0, i + 1) == a@.subrange(0, i as int).push(a@[i as int]));
        i = i + 1;
    }
    assert(a@ == a@.subrange(0, a@.len() as int));
    r
}

/// The index of the entry whose key is `key`, if there is one.
fn find_entry(entries: &Vec<DictEntry>, key: &[u8]) -> (r: Option<usize>)
    ensures
        r matches Some(i) ==> i < entries@.len() && entries@[i as int].key@ == key@,
        r is None ==> forall|j: int| 0 <= j < entries@.len() ==> entries@[j].key@ != key@,
{
    let mut i: usize = 0;
    while i < entries.len()
        invariant
            0 <= i <= entries@.len(),
            forall|j: int| 0 <= j < i ==> entries@[j].key@ != key@,
        decreases entries@.len() - i,
    {
        if bytes_eq(entries[i].key.as_slice(), key) {
            return Some(i);
        }
        i = i + 1;
    }
    None
}

impl CfObject {
    /// A dictionary holds each key once.
    pub open spec fn wf(&self) -> bool {
        match self {
            CfObject::Dictionary(entries) => keys_unique(entries@),
            _ => true,
        }
    }

    /// A copy with the same value.
    pub fn duplicate(&self) -> (r: CfObject)
        ensures
            r@ == self@,
            self.wf() ==> r.wf(),
    {
        match self {
            CfObject::Str(s) => CfObject::Str(copy_bytes(s.as_slice())),
            CfObject::Data(d) => CfObject::Data(copy_bytes(d.as_slice())),
            CfObject::Dictionary(entries) => {
                let mut out: Vec<DictEntry> = Vec::new();
                let mut i: usize = 0;
                while i < entries.len()
                    invariant
                        0 <= i <= entries@.len(),
                        out@.len() == i,
                        forall|j: int|
                            #![trigger out@[j]]
                            0 <= j < i ==> out@[j].key@ == entries@[j].key@ && out@[j].value
                                == entries@[j].value,
                    decreases entries@.len() - i,
                {
                    out.push(
                        DictEntry {
                            key: copy_bytes(entries[i].key.as_slice()),
                            value: entries[i].value,
                        },
                    );
                    i = i + 1;
                }
                proof {
                    lemma_same_keys_same_map(out@, entries@);
                }
                CfObject::Dictionary(out)
            },
        }
    }
}

proof fn lemma_same_keys_same_map(a: Seq<DictEntry>, b: Seq<DictEntry>)
    requires
        a.len() == b.len(),
        forall|j: int|
            #![trigger a[j]]
            0 <= j < a.len() ==> a[j].key@ == b[j].key@ && a[j].value == b[j].value,
    ensures
        entries_map(a) == entries_map(b),
        keys_unique(b) ==> keys_unique(a),
    decreases a.len(),
{
    if a.len() > 0 {
        let (a1, b1) = (a.drop_last(), b.drop_last());
        assert forall|j: int| #![trigger a1[j]] 0 <= j < a1.len() implies a1[j].key@ == b1[j].key@
            && a1[j].value == b1[j].value by {
            assert(a[j].key@ == b[j].key@);
        }
        lemma_same_keys_same_map(a1, b1);
        assert(a[a.len() - 1].key@ == b[b.len() - 1].key@);
    }
    if keys_unique(b) {
        assert forall|i: int, j: int| 0 <= i < j < a.len() implies a[i].key@ != a[j].key@ by {
            assert(a[i].key@ == b[i].key@);
            assert(a[j].key@ == b[j].key@);
        }
    }
}

impl View for CfObject {
    type V = CfValue;

    open spec fn view(&self) -> CfValue {
        match self {
            CfObject::Str(s) => CfValue::Str(s@),
            CfObject::Data(d) => CfValue::Data(d@),
            CfObject::Dictionary(entries) => CfValue::Dictionary(entries_map(entries@)),
        }
    }
}

/// The append-only table of emulated objects; handle `h` names position `h - 1`.
pub struct ObjectTable {
    objects: Vec<CfObject>,
}

impl View for ObjectTable {
    type V = Seq<CfValue>;

    closed spec fn view(&self) -> Seq<CfValue> {
        self.objects@.map_values(|o: CfObject| o@)
    }
}

/// Whether `h` is a handle of a table holding `len` objects.
pub open spec fn valid_handle(len: nat, h: u64) -> bool {
    1 <= h <= len
}

impl ObjectTable {
    /// Every object in the table is well formed.
    pub closed spec fn wf(&self) -> bool {
        forall|i: int| 0 <= i < self.objects@.len() ==> (#[trigger] self.objects@[i]).wf()
    }

    /// An empty table: the first object interned gets handle 1.
    pub fn new() -> (r: ObjectTable)
        ensures
            r.wf(),
            r@ == Seq::<CfValue>::empty(),
    {
        let r = ObjectTable { objects: Vec::new() };
        assert(r@ =~= Seq::<CfValue>::empty());
        r
    }

    /// The number of objects in the table.
    pub fn len(&self) -> (r: usize)
        ensures
            r == self@.len(),
    {
        self.objects.len()
    }

    /// Appends an object and returns its handle, one more than the number of
    /// objects before.
    pub fn intern(&mut self, obj: CfObject) -> (h: u64)
        requires
            old(self).wf(),
            obj.wf(),
            old(self)@.len() < u64::MAX,
        ensures
            final(self).wf(),
            h == old(self)@.len() + 1,
            final(self)@ == old(self)@.push(obj@),
    {
        self.objects.push(obj);
        assert(self@ =~= old(self)@.push(obj@));
        self.objects.len() as u64
    }

    /// The object a handle names.
    pub fn resolve(&self, h: u64) -> (r: Result<&CfObject, EmulationFault>)
        requires
            self.wf(),
        ensures
            valid_handle(self@.len(), h) <==> r is Ok,
            r matches Ok(o) ==> o@ == self@[h - 1] && o.wf(),
            r matches Err(e) ==> e == EmulationFault::InvalidHandle,
    {
        if h == 0 || h > self.objects.len() as u64 {
            Err(EmulationFault::InvalidHandle)
        } else {
            Ok(&self.objects[(h - 1) as usize])
        }
    }

    /// The handle stored under `key` in dictionary `d`.
    pub fn dict_get(&self, d: u64, key: &[u8]) -> (r: Result<u64, EmulationFault>)
        requires
            self.wf(),
        ensures
            r == dict_get_spec(self@, d, key@),
    {
        let obj = self.resolve(d)?;
        match obj {
            CfObject::Dictionary(entries) => {
                match find_entry(entries, key) {
                    Some(i) => {
                        proof {
                            lemma_entries_map_value(entries@, i as int);
                        }
                        Ok(entries[i].value)
                    },
                    None => {
                        proof {
                            lemma_entries_map_domain(entries@, key@);
                        }
                        Err(EmulationFault::KeyNotFound)
                    },
                }
            },
            _ => Err(EmulationFault::WrongObjectType),
        }
    }

    /// Stores handle `v` under `key` in dictionary `d`, replacing what was there.
    pub fn dict_set(&mut self, d: u64, key: &[u8], v: u64) -> (r: Result<(), EmulationFault>)
        requires
            old(self).wf(),
        ensures
            final(self).wf(),
            r == dict_set_result(old(self)@, d),
            r is Ok ==> final(self)@ == old(self)@.update(
                d - 1,
                CfValue::Dictionary(old(self)@[d - 1]->Dictionary_0.insert(key@, v)),
            ),
            r is Err ==> final(self)@ == old(self)@,
    {
        if d == 0 || d > self.objects.len() as u64 {
            return Err(EmulationFault::InvalidHandle);
        }
        let idx = (d - 1) as usize;
        if !matches!(self.objects[idx], CfObject::Dictionary(_)) {
            return Err(EmulationFault::WrongObjectType);
        }
        let ghost before = self.objects@;
        let obj = self.objects.remove(idx);
        let mut entries = match obj {
            CfObject::Dictionary(entries) => entries,
            _ => Vec::new(),
        };
        let ghost old_entries = entries@;
        let new_entry = DictEntry { key: copy_bytes(key), value: v };
        match find_entry(&entries, key) {
            Some(i) => {
                proof {
                    lemma_entries_map_update(old_entries, i as int, new_entry);
                }
                entries.set(i, new_entry);
            },
            None => {
                proof {
                    assert(entries_map(old_entries.push(new_entry)) == entries_map(
                        old_entries,
                    ).insert(key@, v)) by {
                        assert(old_entries.push(new_entry).drop_last() == old_entries);
                    }
                    assert forall|a: int, b: int|
                        0 <= a < b < old_entries.len() + 1 implies old_entries.push(
                        new_entry,
                    )[a].key@ != old_entries.push(new_entry)[b].key@ by {
                        if b == old_entries.len() {
                            assert(old_entries[a].key@ != key@);
                        }
                    }
                }
                entries.push(new_entry);
            },
        }
        self.objects.insert(idx, CfObject::Dictionary(entries));
        proof {
            assert(self.objects@ =~= before.update(idx as int, CfObject::Dictionary(entries)));
            assert(self@ =~= old(self)@.update(
                d - 1,
                CfValue::Dictionary(old(self)@[d - 1]->Dictionary_0.insert(key@, v)),
            ));
        }
        Ok(())
    }
}

/// What a lookup of `key` in dictionary `d` of table `t` gives.
pub open spec fn dict_get_spec(t: Seq<CfValue>, d: u64, key: Seq<u8>) -> Result<u64, EmulationFault> {
    if !valid_handle(t.len(), d) {
        Err(EmulationFault::InvalidHandle)
    } else {
        match t[d - 1] {
            CfValue::Dictionary(m) => if m.contains_key(key) {
                Ok(m[key])
            } else {
                Err(EmulationFault::KeyNotFound)
            },
            _ => Err(EmulationFault::WrongObjectType),
        }
    }
}

/// Whether a store into object `d` of table `t` succeeds, and if not why.
pub open spec fn dict_set_result(t: Seq<CfValue>, d: u64) -> Result<(), EmulationFault> {
    if !valid_handle(t.len(), d) {
        Err(EmulationFault::InvalidHandle)
    } else if t[d - 1] is Dictionary {
        Ok(())
    } else {
        Err(EmulationFault::WrongObjectType)
    }
}

/// Handles are issued in call order: when a run of interns starts on an empty
/// table and each one appends to what the one before left, the `k`-th intern
/// returns handle `k + 1` and the table ends up holding the values in order.
pub proof fn lemma_handles_sequential(
    tables: Seq<Seq<CfValue>>,
    values: Seq<CfValue>,
    handles: Seq<u64>,
)
    requires
        tables.len() == values.len() + 1,
        handles.len() == values.len(),
        tables[0] == Seq::<CfValue>::empty(),
        forall|k: int|
            #![trigger tables[k + 1]]
            0 <= k < values.len() ==> tables[k + 1] == tables[k].push(values[k]) && handles[k]
                == tables[k].len() + 1,
    ensures
        forall|k: int| 0 <= k < handles.len() ==> handles[k] == k + 1,
        tables[values.len() as int] == values,
{
    assert forall|k: int| 0 <= k <= values.len() implies #[trigger] tables[k] == values.take(k) by {
        lemma_tables_prefix(tables, values, k);
    }
    assert forall|k: int| 0 <= k < handles.len() implies handles[k] == k + 1 by {
        assert(tables[k + 1] == tables[k].push(values[k]));
        assert(tables[k] == values.take(k));
    }
    assert(values.take(values.len() as int) =~= values);
}

proof fn lemma_tables_prefix(tables: Seq<Seq<CfValue>>, values: Seq<CfValue>, k: int)
    requires
        tables.len() == values.len() + 1,
        tables[0] == Seq::<CfValue>::empty(),
        forall|j: int|
            #![trigger tables[j + 1]]
            0 <= j < values.len() ==> tables[j + 1] == tables[j].push(values[j]),
        0 <= k <= values.len(),
    ensures
        tables[k] == values.take(k),
    decreases k,
{
    if k == 0 {
        assert(values.take(0) =~= Seq::<CfValue>::empty());
    } else {
        lemma_tables_prefix(tables, values, k - 1);
        assert(tables[(k - 1) + 1] == tables[k - 1].push(values[k - 1]));
        assert(values.take(k) =~= values.take(k - 1).push(values[k - 1]));
    }
}

/// A dictionary gives back what was stored: after a successful store of `v`
/// under `key` in dictionary `d`, a lookup of `key` in `d` gives `v`.
pub proof fn lemma_dict_set_then_get(t: Seq<CfValue>, d: u64, key: Seq<u8>, v: u64)
    requires
        dict_set_result(t, d) is Ok,
    ensures
        dict_get_spec(
            t.update(d - 1, CfValue::Dictionary(t[d - 1]->Dictionary_0.insert(key, v))),
            d,
            key,
        ) == Ok::<u64, EmulationFault>(v),
{
}

} // verus!
