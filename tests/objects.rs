use rustpush_nac::objects::{CfObject, ObjectTable};
use rustpush_nac::EmulationFault;

#[test]
fn interned_handles_count_up_from_one() {
    let mut t = ObjectTable::new();
    let mut handles = Vec::new();
    for i in 0..5u8 {
        handles.push(t.intern(CfObject::Data(vec![i])));
    }
    assert_eq!(handles, vec![1, 2, 3, 4, 5]);
    assert_eq!(t.len(), 5);
    match t.resolve(3).unwrap() {
        CfObject::Data(d) => assert_eq!(d, &vec![2u8]),
        _ => panic!("wrong object"),
    }
}

#[test]
fn resolve_outside_table_fails() {
    let mut t = ObjectTable::new();
    t.intern(CfObject::Str(b"a".to_vec()));
    assert!(matches!(t.resolve(0), Err(EmulationFault::InvalidHandle)));
    assert!(matches!(t.resolve(2), Err(EmulationFault::InvalidHandle)));
    assert!(t.resolve(1).is_ok());
}

#[test]
fn dictionary_round_trip() {
    let mut t = ObjectTable::new();
    let d = t.intern(CfObject::Dictionary(Vec::new()));
    let v = t.intern(CfObject::Str(b"value".to_vec()));
    assert_eq!(t.dict_set(d, b"key", v), Ok(()));
    assert_eq!(t.dict_get(d, b"key"), Ok(v));
    let w = t.intern(CfObject::Data(vec![1, 2]));
    assert_eq!(t.dict_set(d, b"key", w), Ok(()));
    assert_eq!(t.dict_get(d, b"key"), Ok(w));
    assert_eq!(t.dict_set(d, b"", v), Ok(()));
    assert_eq!(t.dict_get(d, b""), Ok(v));
    assert_eq!(t.dict_get(d, b"key"), Ok(w));
}

#[test]
fn dictionary_errors() {
    let mut t = ObjectTable::new();
    let d = t.intern(CfObject::Dictionary(Vec::new()));
    let s = t.intern(CfObject::Str(b"x".to_vec()));
    assert_eq!(t.dict_get(d, b"missing"), Err(EmulationFault::KeyNotFound));
    assert_eq!(t.dict_get(s, b"x"), Err(EmulationFault::WrongObjectType));
    assert_eq!(t.dict_set(s, b"x", d), Err(EmulationFault::WrongObjectType));
    assert_eq!(t.dict_get(9, b"x"), Err(EmulationFault::InvalidHandle));
    assert_eq!(t.dict_set(0, b"x", d), Err(EmulationFault::InvalidHandle));
}

#[test]
fn duplicate_keeps_value() {
    let o = CfObject::Str(b"abc".to_vec());
    match o.duplicate() {
        CfObject::Str(s) => assert_eq!(s, b"abc".to_vec()),
        _ => panic!("wrong object"),
    }
}
