//! Wire formats of the scalar types that cross the state boundary, and the
//! derivation of contract identifiers.
//!
//! Every value stored under a coordinate pair is a byte string. A string
//! travels as its UTF-8 encoding, an hname as four little-endian bytes, a
//! program hash and an agent id as fixed-width byte strings. Decoding
//! validates: wrong length or invalid encoding is an error, never a silent
//! default.

use vstd::prelude::*;
use vstd::std_specs::cmp::PartialEqSpec;
use vstd::string::StrSliceExecFns;
use vstd::utf8::{
    decode_utf8, encode_utf8, encode_utf8_decode_utf8, encode_utf8_valid_utf8, valid_utf8,
};

use crate::ScError;

verus! {

/// Width in bytes of an encoded hname.
pub const HNAME_LENGTH: usize = 4;

/// Width in bytes of a program hash, the fingerprint of contract bytecode.
pub const HASH_LENGTH: usize = 32;

/// Width in bytes of an agent id, the identifier of a chain principal.
pub const AGENT_ID_LENGTH: usize = 37;

/// A contract's registry key: a fixed-width identifier derived
/// deterministically from the contract's name.
#[derive(Clone, Copy, Debug, PartialEq, Eq, Structural)]
pub struct ScHname(pub u32);

/// The four little-endian bytes of an hname.
pub open spec fn encode_hname(h: u32) -> Seq<u8> {
    seq![
        (h & 0xff) as u8,
        ((h >> 8u32) & 0xff) as u8,
        ((h >> 16u32) & 0xff) as u8,
        ((h >> 24u32) & 0xff) as u8,
    ]
}

/// The hname held by four little-endian bytes.
pub open spec fn decode_hname(b: Seq<u8>) -> u32
    recommends
        b.len() == HNAME_LENGTH,
{
    (b[0] as u32) | ((b[1] as u32) << 8u32) | ((b[2] as u32) << 16u32) | ((b[3] as u32) << 24u32)
}

/// An hname survives encoding and decoding unchanged.
pub proof fn lemma_hname_codec(h: u32)
    ensures
        encode_hname(h).len() == HNAME_LENGTH,
        decode_hname(encode_hname(h)) == h,
{
    assert(((h & 0xff) as u8 as u32) | ((((h >> 8u32) & 0xff) as u8 as u32) << 8u32) | ((((h
        >> 16u32) & 0xff) as u8 as u32) << 16u32) | ((((h >> 24u32) & 0xff) as u8 as u32)
        << 24u32) == h) by (bit_vector);
}

impl ScHname {
    /// The four little-endian bytes of this hname.
    pub fn to_bytes(&self) -> (r: Vec<u8>)
        ensures
            r@ == encode_hname(self.0),
    {
        let h = self.0;
        proof {
            assert(h & 0xff < 256 && (h >> 8u32) & 0xff < 256 && (h >> 16u32) & 0xff < 256 && (h
                >> 24u32) & 0xff < 256) by (bit_vector);
        }
        let mut v: Vec<u8> = Vec::new();
        v.push((h & 0xff) as u8);
        v.push(((h >> 8) & 0xff) as u8);
        v.push(((h >> 16) & 0xff) as u8);
        v.push(((h >> 24) & 0xff) as u8);
        proof {
            assert(v@ =~= encode_hname(h));
        }
        v
    }

    /// Reads an hname out of its four little-endian bytes; any other length
    /// is no hname.
    pub fn from_bytes(b: &Vec<u8>) -> (r: Option<ScHname>)
        ensures
            r is Some <==> b@.len() == HNAME_LENGTH,
            r matches Some(h) ==> h.0 == decode_hname(b@),
    {
        if b.len() != HNAME_LENGTH {
            return None;
        }
        let h: u32 = (b[0] as u32) | ((b[1] as u32) << 8) | ((b[2] as u32) << 16) | ((b[3] as u32)
            << 24);
        Some(ScHname(h))
    }
}

/// Whether two byte strings hold the same bytes.
pub fn bytes_eq(a: &Vec<u8>, b: &Vec<u8>) -> (r: bool)
    ensures
        r == (a@ == b@),
{
    let r = a == b;
    proof {
        if r {
            assert(a@ =~= b@);
        } else {
            if a@ == b@ {
                assert(a.eq_spec(b));
            }
        }
    }
    r
}

/// Relies on `String::from_utf8`: it succeeds exactly on valid UTF-8 input,
/// and the returned string then holds exactly the given bytes.
#[verifier::external_body]
fn string_from_utf8(v: Vec<u8>) -> (r: Option<String>)
    ensures
        r is Some <==> valid_utf8(v@),
        r matches Some(s) ==> encode_utf8(s@) == v@,
{
    String::from_utf8(v).ok()
}

/// Reads a string out of its UTF-8 bytes; bytes that are no valid UTF-8
/// decode to nothing.
pub fn string_from_bytes(v: Vec<u8>) -> (r: Option<String>)
    ensures
        r is Some <==> valid_utf8(v@),
        r matches Some(s) ==> s@ == decode_utf8(v@) && encode_utf8(s@) == v@,
{
    let ghost bytes = v@;
    let r = string_from_utf8(v);
    proof {
        if r is Some {
            encode_utf8_decode_utf8(r->Some_0@);
        }
    }
    r
}

/// The UTF-8 bytes of a string.
pub fn string_to_bytes(s: &str) -> (r: Vec<u8>)
    ensures
        r@ == encode_utf8(s@),
{
    s.as_bytes_vec()
}

/// What reading a string parameter stored under a coordinate pair yields:
/// the decoded characters, or `NotFound` when the pair holds nothing, or
/// `DecodeError` when the bytes are no valid UTF-8.
pub open spec fn read_string(m: Map<(i32, i32), Seq<u8>>, k: (i32, i32)) -> Result<
    Seq<char>,
    ScError,
> {
    if !m.contains_key(k) {
        Err(ScError::NotFound)
    } else if !valid_utf8(m[k]) {
        Err(ScError::DecodeError)
    } else {
        Ok(decode_utf8(m[k]))
    }
}

/// What reading an hname parameter stored under a coordinate pair yields.
pub open spec fn read_hname(m: Map<(i32, i32), Seq<u8>>, k: (i32, i32)) -> Result<u32, ScError> {
    if !m.contains_key(k) {
        Err(ScError::NotFound)
    } else if m[k].len() != HNAME_LENGTH {
        Err(ScError::DecodeError)
    } else {
        Ok(decode_hname(m[k]))
    }
}

/// What reading a program-hash parameter stored under a coordinate pair
/// yields: exactly `HASH_LENGTH` raw bytes.
pub open spec fn read_hash(m: Map<(i32, i32), Seq<u8>>, k: (i32, i32)) -> Result<Seq<u8>, ScError> {
    if !m.contains_key(k) {
        Err(ScError::NotFound)
    } else if m[k].len() != HASH_LENGTH {
        Err(ScError::DecodeError)
    } else {
        Ok(m[k])
    }
}

/// What reading an agent-id parameter stored under a coordinate pair
/// yields: exactly `AGENT_ID_LENGTH` raw bytes.
pub open spec fn read_agent_id(m: Map<(i32, i32), Seq<u8>>, k: (i32, i32)) -> Result<
    Seq<u8>,
    ScError,
> {
    if !m.contains_key(k) {
        Err(ScError::NotFound)
    } else if m[k].len() != AGENT_ID_LENGTH {
        Err(ScError::DecodeError)
    } else {
        Ok(m[k])
    }
}

/// Law: a string written under a coordinate pair is read back from that
/// pair as exactly the string written, whatever the store held before.
pub proof fn lemma_string_round_trip(m: Map<(i32, i32), Seq<u8>>, k: (i32, i32), v: Seq<char>)
    ensures
        read_string(m.insert(k, encode_utf8(v)), k) == Ok::<Seq<char>, ScError>(v),
{
    encode_utf8_valid_utf8(v);
    encode_utf8_decode_utf8(v);
}

/// Law: an hname written under a coordinate pair is read back from that
/// pair as exactly the hname written.
pub proof fn lemma_hname_round_trip(m: Map<(i32, i32), Seq<u8>>, k: (i32, i32), h: u32)
    ensures
        read_hname(m.insert(k, encode_hname(h)), k) == Ok::<u32, ScError>(h),
{
    lemma_hname_codec(h);
}

/// Law: a program hash written under a coordinate pair is read back from
/// that pair as exactly the bytes written.
pub proof fn lemma_hash_round_trip(m: Map<(i32, i32), Seq<u8>>, k: (i32, i32), v: Seq<u8>)
    requires
        v.len() == HASH_LENGTH,
    ensures
        read_hash(m.insert(k, v), k) == Ok::<Seq<u8>, ScError>(v),
{
}

/// Law: an agent id written under a coordinate pair is read back from that
/// pair as exactly the bytes written.
pub proof fn lemma_agent_id_round_trip(m: Map<(i32, i32), Seq<u8>>, k: (i32, i32), v: Seq<u8>)
    requires
        v.len() == AGENT_ID_LENGTH,
    ensures
        read_agent_id(m.insert(k, v), k) == Ok::<Seq<u8>, ScError>(v),
{
}

/// Seed of the 32-bit FNV-1a fold that derives an hname from a name.
pub const HNAME_SEED: u32 = 2166136261;

/// Multiplier of the 32-bit FNV-1a fold.
pub const HNAME_PRIME: u32 = 16777619;

/// One step of the fold: mix one byte into the running hash.
pub open spec fn hname_step(h: u32, b: u8) -> u32 {
    ((((h ^ (b as u32)) as u64) * (HNAME_PRIME as u64)) % 0x1_0000_0000) as u32
}

/// The fold over a whole byte string, seed first.
pub open spec fn hname_fold(bytes: Seq<u8>) -> u32
    decreases bytes.len(),
{
    if bytes.len() == 0 {
        HNAME_SEED
    } else {
        hname_step(hname_fold(bytes.drop_last()), bytes.last())
    }
}

/// The hname a contract name derives to: the fold over the name's UTF-8
/// bytes. Equal names always derive to equal hnames.
pub open spec fn hname_of(name: Seq<char>) -> u32 {
    hname_fold(encode_utf8(name))
}

/// Derives the registry key of a contract from its name.
pub fn hname_from_name(name: &str) -> (r: ScHname)
    ensures
        r.0 == hname_of(name@),
{
    let bytes = string_to_bytes(name);
    let n = bytes.len();
    let mut h: u32 = HNAME_SEED;
    let mut i: usize = 0;
    while i < n
        invariant
            i <= n,
            n == bytes@.len(),
            h == hname_fold(bytes@.take(i as int)),
        decreases n - i,
    {
        let x: u64 = ((h ^ (bytes[i] as u32)) as u64) * (HNAME_PRIME as u64);
        proof {
            assert(bytes@.take(i + 1).drop_last() =~= bytes@.take(i as int));
            assert(bytes@.take(i + 1).last() == bytes@[i as int]);
        }
        h = (x % 0x1_0000_0000) as u32;
        i = i + 1;
    }
    proof {
        assert(bytes@.take(n as int) =~= bytes@);
    }
    ScHname(h)
}

} // verus!
