use coreroot::codec::{hname_from_name, ScHname};
use coreroot::keys::{
    core_schema_keys, KeyMap, KEY_DEPLOYER, KEY_DESCRIPTION, KEY_HNAME, KEY_NAME,
    KEY_PROGRAM_HASH,
};

#[test]
fn interning_is_stable() {
    let mut m = KeyMap::new();
    let a = m.key_id_of("alpha");
    let b = m.key_id_of("beta");
    assert_ne!(a, b);
    assert_eq!(m.key_id_of("alpha"), a);
    assert_eq!(m.key_id_of("beta"), b);
    let c = m.key_id_of("gamma");
    assert_ne!(c, a);
    assert_ne!(c, b);
    assert_eq!(m.key_id_of("alpha"), a);
}

#[test]
fn schema_keys_match_constants() {
    let mut m = core_schema_keys();
    assert_eq!(m.key_id_of("d"), KEY_DESCRIPTION);
    assert_eq!(m.key_id_of("n"), KEY_NAME);
    assert_eq!(m.key_id_of("ph"), KEY_PROGRAM_HASH);
    assert_eq!(m.key_id_of("dp"), KEY_DEPLOYER);
    assert_eq!(m.key_id_of("hn"), KEY_HNAME);
}

#[test]
fn hname_bytes_are_little_endian() {
    let h = ScHname(0x12345678);
    assert_eq!(h.to_bytes(), vec![0x78, 0x56, 0x34, 0x12]);
}

#[test]
fn hname_from_bytes_round_trip() {
    let h = ScHname(0xc0ffee11);
    let b = h.to_bytes();
    assert_eq!(ScHname::from_bytes(&b), Some(h));
}

#[test]
fn hname_from_bytes_rejects_wrong_length() {
    assert_eq!(ScHname::from_bytes(&vec![1, 2, 3]), None);
    assert_eq!(ScHname::from_bytes(&vec![1, 2, 3, 4, 5]), None);
}

#[test]
fn hname_of_name_exact_value() {
    assert_eq!(hname_from_name("myContract"), ScHname(3228703037));
    assert_eq!(hname_from_name(""), ScHname(2166136261));
    assert_eq!(hname_from_name("h\u{e9}llo"), ScHname(1252296000));
}

#[test]
fn hname_of_name_is_deterministic() {
    assert_eq!(hname_from_name("root"), hname_from_name("root"));
    assert_ne!(hname_from_name("root"), hname_from_name("accounts"));
}
