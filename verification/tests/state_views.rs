use coreroot::proxies::{
    ScImmutableAgentID, ScImmutableHash, ScImmutableHname, ScImmutableString, ScMutableAgentID,
    ScMutableHash, ScMutableHname, ScMutableString,
};
use coreroot::codec::ScHname;
use coreroot::state::ScState;
use coreroot::ScError;

#[test]
fn string_round_trip() {
    let mut st = ScState::new();
    let w = ScMutableString::new(1, 2);
    w.set_value(&mut st, "hello world");
    let r = ScImmutableString::new(1, 2);
    assert_eq!(r.value(&st).unwrap(), "hello world");
    assert_eq!(w.value(&st).unwrap(), "hello world");
}

#[test]
fn string_round_trip_multibyte() {
    let mut st = ScState::new();
    let w = ScMutableString::new(1, 2);
    w.set_value(&mut st, "h\u{e9}llo");
    assert_eq!(ScImmutableString::new(1, 2).value(&st).unwrap(), "h\u{e9}llo");
}

#[test]
fn later_write_wins() {
    let mut st = ScState::new();
    let w = ScMutableString::new(1, 2);
    w.set_value(&mut st, "first");
    w.set_value(&mut st, "second");
    assert_eq!(ScImmutableString::new(1, 2).value(&st).unwrap(), "second");
}

#[test]
fn coordinates_are_independent() {
    let mut st = ScState::new();
    ScMutableString::new(1, 2).set_value(&mut st, "a");
    ScMutableString::new(1, 3).set_value(&mut st, "b");
    ScMutableString::new(2, 2).set_value(&mut st, "c");
    assert_eq!(ScImmutableString::new(1, 2).value(&st).unwrap(), "a");
    assert_eq!(ScImmutableString::new(1, 3).value(&st).unwrap(), "b");
    assert_eq!(ScImmutableString::new(2, 2).value(&st).unwrap(), "c");
}

#[test]
fn missing_key_is_not_found() {
    let st = ScState::new();
    assert_eq!(ScImmutableString::new(1, 2).value(&st), Err(ScError::NotFound));
    assert!(!ScImmutableString::new(1, 2).has_value(&st));
}

#[test]
fn empty_string_is_present() {
    let mut st = ScState::new();
    ScMutableString::new(1, 2).set_value(&mut st, "");
    assert!(ScImmutableString::new(1, 2).has_value(&st));
    assert_eq!(ScImmutableString::new(1, 2).value(&st).unwrap(), "");
}

#[test]
fn invalid_utf8_is_decode_error() {
    let mut st = ScState::new();
    st.set(1, 2, vec![0xff, 0xfe]);
    assert_eq!(ScImmutableString::new(1, 2).value(&st), Err(ScError::DecodeError));
}

#[test]
fn hname_round_trip() {
    let mut st = ScState::new();
    ScMutableHname::new(4, 7).set_value(&mut st, ScHname(0x12345678));
    assert_eq!(ScImmutableHname::new(4, 7).value(&st).unwrap(), ScHname(0x12345678));
}

#[test]
fn hname_wrong_length_is_decode_error() {
    let mut st = ScState::new();
    st.set(4, 7, vec![1, 2, 3]);
    assert_eq!(ScImmutableHname::new(4, 7).value(&st), Err(ScError::DecodeError));
    assert_eq!(ScMutableHname::new(4, 7).value(&st), Err(ScError::DecodeError));
}

#[test]
fn hash_round_trip() {
    let mut st = ScState::new();
    let hash: Vec<u8> = (0u8..32u8).collect();
    ScMutableHash::new(3, 9).set_value(&mut st, hash.clone());
    assert_eq!(ScImmutableHash::new(3, 9).value(&st).unwrap(), hash);
    assert_eq!(ScMutableHash::new(3, 9).value(&st).unwrap(), hash);
}

#[test]
fn hash_wrong_length_is_decode_error() {
    let mut st = ScState::new();
    st.set(3, 9, vec![1u8; 31]);
    assert_eq!(ScImmutableHash::new(3, 9).value(&st), Err(ScError::DecodeError));
}

#[test]
fn agent_id_round_trip() {
    let mut st = ScState::new();
    let agent = vec![7u8; 37];
    ScMutableAgentID::new(5, 1).set_value(&mut st, agent.clone());
    assert_eq!(ScImmutableAgentID::new(5, 1).value(&st).unwrap(), agent);
    assert_eq!(ScMutableAgentID::new(5, 1).value(&st).unwrap(), agent);
}

#[test]
fn agent_id_wrong_length_is_decode_error() {
    let mut st = ScState::new();
    st.set(5, 1, vec![7u8; 36]);
    assert_eq!(ScImmutableAgentID::new(5, 1).value(&st), Err(ScError::DecodeError));
}

#[test]
fn store_get_and_has() {
    let mut st = ScState::new();
    assert_eq!(st.get(1, 1), None);
    st.set(1, 1, vec![9, 9]);
    assert!(st.has(1, 1));
    assert_eq!(st.get(1, 1), Some(vec![9, 9]));
    st.set(1, 1, vec![8]);
    assert_eq!(st.get(1, 1), Some(vec![8]));
}
