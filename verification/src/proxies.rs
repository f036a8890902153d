//! Typed views over one (object id, key id) coordinate pair each.
//!
//! A view owns only the coordinates, never the bytes; the state store is the
//! sole owner of the data. Each view decodes or encodes exactly its declared
//! scalar type. Immutable views expose no mutation operation at all — the
//! two modes are disjoint types, not one type with a runtime flag — so a
//! write through a read-only view is a compile-time error.

use vstd::prelude::*;
use vstd::utf8::encode_utf8;

use crate::codec::{
    read_agent_id, read_hash, read_hname, read_string, string_from_bytes, string_to_bytes,
    ScHname, AGENT_ID_LENGTH, HASH_LENGTH,
};
use crate::state::ScState;
use crate::ScError;

verus! {

/// Read-only view of a string field.
#[derive(Clone, Copy)]
pub struct ScImmutableString {
    pub obj_id: i32,
    pub key_id: i32,
}

impl ScImmutableString {
    /// A view over the given coordinates.
    pub fn new(obj_id: i32, key_id: i32) -> (r: Self)
        ensures
            r.obj_id == obj_id && r.key_id == key_id,
    {
        ScImmutableString { obj_id, key_id }
    }

    /// Whether the field holds any bytes; an empty string counts as present.
    pub fn has_value(&self, state: &ScState) -> (r: bool)
        requires
            state.inv(),
        ensures
            r == state@.contains_key((self.obj_id, self.key_id)),
    {
        state.has(self.obj_id, self.key_id)
    }

    /// The string held by the field.
    pub fn value(&self, state: &ScState) -> (r: Result<String, ScError>)
        requires
            state.inv(),
        ensures
            match r {
                Ok(s) => read_string(state@, (self.obj_id, self.key_id)) == Ok::<
                    Seq<char>,
                    ScError,
                >(s@),
                Err(e) => read_string(state@, (self.obj_id, self.key_id)) == Err::<
                    Seq<char>,
                    ScError,
                >(e),
            },
    {
        match state.get(self.obj_id, self.key_id) {
            None => Err(ScError::NotFound),
            Some(bytes) => match string_from_bytes(bytes) {
                Some(s) => Ok(s),
                None => Err(ScError::DecodeError),
            },
        }
    }
}

/// Read-write view of a string field.
#[derive(Clone, Copy)]
pub struct ScMutableString {
    pub obj_id: i32,
    pub key_id: i32,
}

impl ScMutableString {
    /// A view over the given coordinates.
    pub fn new(obj_id: i32, key_id: i32) -> (r: Self)
        ensures
            r.obj_id == obj_id && r.key_id == key_id,
    {
        ScMutableString { obj_id, key_id }
    }

    /// Whether the field holds any bytes; an empty string counts as present.
    pub fn has_value(&self, state: &ScState) -> (r: bool)
        requires
            state.inv(),
        ensures
            r == state@.contains_key((self.obj_id, self.key_id)),
    {
        state.has(self.obj_id, self.key_id)
    }

    /// The string held by the field.
    pub fn value(&self, state: &ScState) -> (r: Result<String, ScError>)
        requires
            state.inv(),
        ensures
            match r {
                Ok(s) => read_string(state@, (self.obj_id, self.key_id)) == Ok::<
                    Seq<char>,
                    ScError,
                >(s@),
                Err(e) => read_string(state@, (self.obj_id, self.key_id)) == Err::<
                    Seq<char>,
                    ScError,
                >(e),
            },
    {
        match state.get(self.obj_id, self.key_id) {
            None => Err(ScError::NotFound),
            Some(bytes) => match string_from_bytes(bytes) {
                Some(s) => Ok(s),
                None => Err(ScError::DecodeError),
            },
        }
    }

    /// Writes the string into the field, as its UTF-8 bytes.
    pub fn set_value(&self, state: &mut ScState, v: &str)
        requires
            old(state).inv(),
        ensures
            final(state).inv(),
            final(state)@ == old(state)@.insert((self.obj_id, self.key_id), encode_utf8(v@)),
    {
        state.set(self.obj_id, self.key_id, string_to_bytes(v));
    }
}

/// Read-only view of a program-hash field.
#[derive(Clone, Copy)]
pub struct ScImmutableHash {
    pub obj_id: i32,
    pub key_id: i32,
}

impl ScImmutableHash {
    /// A view over the given coordinates.
    pub fn new(obj_id: i32, key_id: i32) -> (r: Self)
        ensures
            r.obj_id == obj_id && r.key_id == key_id,
    {
        ScImmutableHash { obj_id, key_id }
    }

    /// Whether the field holds any bytes.
    pub fn has_value(&self, state: &ScState) -> (r: bool)
        requires
            state.inv(),
        ensures
            r == state@.contains_key((self.obj_id, self.key_id)),
    {
        state.has(self.obj_id, self.key_id)
    }

    /// The hash held by the field: exactly `HASH_LENGTH` bytes.
    pub fn value(&self, state: &ScState) -> (r: Result<Vec<u8>, ScError>)
        requires
            state.inv(),
        ensures
            match r {
                Ok(v) => read_hash(state@, (self.obj_id, self.key_id)) == Ok::<Seq<u8>, ScError>(
                    v@,
                ),
                Err(e) => read_hash(state@, (self.obj_id, self.key_id)) == Err::<Seq<u8>, ScError>(
                    e,
                ),
            },
    {
        match state.get(self.obj_id, self.key_id) {
            None => Err(ScError::NotFound),
            Some(bytes) => if bytes.len() == HASH_LENGTH {
                Ok(bytes)
            } else {
                Err(ScError::DecodeError)
            },
        }
    }
}

/// Read-write view of a program-hash field.
#[derive(Clone, Copy)]
pub struct ScMutableHash {
    pub obj_id: i32,
    pub key_id: i32,
}

impl ScMutableHash {
    /// A view over the given coordinates.
    pub fn new(obj_id: i32, key_id: i32) -> (r: Self)
        ensures
            r.obj_id == obj_id && r.key_id == key_id,
    {
        ScMutableHash { obj_id, key_id }
    }

    /// Whether the field holds any bytes.
    pub fn has_value(&self, state: &ScState) -> (r: bool)
        requires
            state.inv(),
        ensures
            r == state@.contains_key((self.obj_id, self.key_id)),
    {
        state.has(self.obj_id, self.key_id)
    }

    /// The hash held by the field: exactly `HASH_LENGTH` bytes.
    pub fn value(&self, state: &ScState) -> (r: Result<Vec<u8>, ScError>)
        requires
            state.inv(),
        ensures
            match r {
                Ok(v) => read_hash(state@, (self.obj_id, self.key_id)) == Ok::<Seq<u8>, ScError>(
                    v@,
                ),
                Err(e) => read_hash(state@, (self.obj_id, self.key_id)) == Err::<Seq<u8>, ScError>(
                    e,
                ),
            },
    {
        match state.get(self.obj_id, self.key_id) {
            None => Err(ScError::NotFound),
            Some(bytes) => if bytes.len() == HASH_LENGTH {
                Ok(bytes)
            } else {
                Err(ScError::DecodeError)
            },
        }
    }

    /// Writes the hash into the field.
    pub fn set_value(&self, state: &mut ScState, v: Vec<u8>)
        requires
            old(state).inv(),
            v@.len() == HASH_LENGTH,
        ensures
            final(state).inv(),
            final(state)@ == old(state)@.insert((self.obj_id, self.key_id), v@),
    {
        state.set(self.obj_id, self.key_id, v);
    }
}

/// Read-only view of an agent-id field.
#[derive(Clone, Copy)]
pub struct ScImmutableAgentID {
    pub obj_id: i32,
    pub key_id: i32,
}

impl ScImmutableAgentID {
    /// A view over the given coordinates.
    pub fn new(obj_id: i32, key_id: i32) -> (r: Self)
        ensures
            r.obj_id == obj_id && r.key_id == key_id,
    {
        ScImmutableAgentID { obj_id, key_id }
    }

    /// Whether the field holds any bytes.
    pub fn has_value(&self, state: &ScState) -> (r: bool)
        requires
            state.inv(),
        ensures
            r == state@.contains_key((self.obj_id, self.key_id)),
    {
        state.has(self.obj_id, self.key_id)
    }

    /// The agent id held by the field: exactly `AGENT_ID_LENGTH` bytes.
    pub fn value(&self, state: &ScState) -> (r: Result<Vec<u8>, ScError>)
        requires
            state.inv(),
        ensures
            match r {
                Ok(v) => read_agent_id(state@, (self.obj_id, self.key_id)) == Ok::<
                    Seq<u8>,
                    ScError,
                >(v@),
                Err(e) => read_agent_id(state@, (self.obj_id, self.key_id)) == Err::<
                    Seq<u8>,
                    ScError,
                >(e),
            },
    {
        match state.get(self.obj_id, self.key_id) {
            None => Err(ScError::NotFound),
            Some(bytes) => if bytes.len() == AGENT_ID_LENGTH {
                Ok(bytes)
            } else {
                Err(ScError::DecodeError)
            },
        }
    }
}

/// Read-write view of an agent-id field.
#[derive(Clone, Copy)]
pub struct ScMutableAgentID {
    pub obj_id: i32,
    pub key_id: i32,
}

impl ScMutableAgentID {
    /// A view over the given coordinates.
    pub fn new(obj_id: i32, key_id: i32) -> (r: Self)
        ensures
            r.obj_id == obj_id && r.key_id == key_id,
    {
        ScMutableAgentID { obj_id, key_id }
    }

    /// Whether the field holds any bytes.
    pub fn has_value(&self, state: &ScState) -> (r: bool)
        requires
            state.inv(),
        ensures
            r == state@.contains_key((self.obj_id, self.key_id)),
    {
        state.has(self.obj_id, self.key_id)
    }

    /// The agent id held by the field: exactly `AGENT_ID_LENGTH` bytes.
    pub fn value(&self, state: &ScState) -> (r: Result<Vec<u8>, ScError>)
        requires
            state.inv(),
        ensures
            match r {
                Ok(v) => read_agent_id(state@, (self.obj_id, self.key_id)) == Ok::<
                    Seq<u8>,
                    ScError,
                >(v@),
                Err(e) => read_agent_id(state@, (self.obj_id, self.key_id)) == Err::<
                    Seq<u8>,
                    ScError,
                >(e),
            },
    {
        match state.get(self.obj_id, self.key_id) {
            None => Err(ScError::NotFound),
            Some(bytes) => if bytes.len() == AGENT_ID_LENGTH {
                Ok(bytes)
            } else {
                Err(ScError::DecodeError)
            },
        }
    }

    /// Writes the agent id into the field.
    pub fn set_value(&self, state: &mut ScState, v: Vec<u8>)
        requires
            old(state).inv(),
            v@.len() == AGENT_ID_LENGTH,
        ensures
            final(state).inv(),
            final(state)@ == old(state)@.insert((self.obj_id, self.key_id), v@),
    {
        state.set(self.obj_id, self.key_id, v);
    }
}

/// Read-only view of an hname field.
#[derive(Clone, Copy)]
pub struct ScImmutableHname {
    pub obj_id: i32,
    pub key_id: i32,
}

impl ScImmutableHname {
    /// A view over the given coordinates.
    pub fn new(obj_id: i32, key_id: i32) -> (r: Self)
        ensures
            r.obj_id == obj_id && r.key_id == key_id,
    {
        ScImmutableHname { obj_id, key_id }
    }

    /// Whether the field holds any bytes.
    pub fn has_value(&self, state: &ScState) -> (r: bool)
        requires
            state.inv(),
        ensures
            r == state@.contains_key((self.obj_id, self.key_id)),
    {
        state.has(self.obj_id, self.key_id)
    }

    /// The hname held by the field, read out of four little-endian bytes.
    pub fn value(&self, state: &ScState) -> (r: Result<ScHname, ScError>)
        requires
            state.inv(),
        ensures
            match r {
                Ok(h) => read_hname(state@, (self.obj_id, self.key_id)) == Ok::<u32, ScError>(h.0),
                Err(e) => read_hname(state@, (self.obj_id, self.key_id)) == Err::<u32, ScError>(e),
            },
    {
        match state.get(self.obj_id, self.key_id) {
            None => Err(ScError::NotFound),
            Some(bytes) => match ScHname::from_bytes(&bytes) {
                Some(h) => Ok(h),
                None => Err(ScError::DecodeError),
            },
        }
    }
}

/// Read-write view of an hname field.
#[derive(Clone, Copy)]
pub struct ScMutableHname {
    pub obj_id: i32,
    pub key_id: i32,
}

impl ScMutableHname {
    /// A view over the given coordinates.
    pub fn new(obj_id: i32, key_id: i32) -> (r: Self)
        ensures
            r.obj_id == obj_id && r.key_id == key_id,
    {
        ScMutableHname { obj_id, key_id }
    }

    /// Whether the field holds any bytes.
    pub fn has_value(&self, state: &ScState) -> (r: bool)
        requires
            state.inv(),
        ensures
            r == state@.contains_key((self.obj_id, self.key_id)),
    {
        state.has(self.obj_id, self.key_id)
    }

    /// The hname held by the field, read out of four little-endian bytes.
    pub fn value(&self, state: &ScState) -> (r: Result<ScHname, ScError>)
        requires
            state.inv(),
        ensures
            match r {
                Ok(h) => read_hname(state@, (self.obj_id, self.key_id)) == Ok::<u32, ScError>(h.0),
                Err(e) => read_hname(state@, (self.obj_id, self.key_id)) == Err::<u32, ScError>(e),
            },
    {
        match state.get(self.obj_id, self.key_id) {
            None => Err(ScError::NotFound),
            Some(bytes) => match ScHname::from_bytes(&bytes) {
                Some(h) => Ok(h),
                None => Err(ScError::DecodeError),
            },
        }
    }

    /// Writes the hname into the field, as four little-endian bytes.
    pub fn set_value(&self, state: &mut ScState, v: ScHname)
        requires
            old(state).inv(),
        ensures
            final(state).inv(),
            final(state)@ == old(state)@.insert(
                (self.obj_id, self.key_id),
                crate::codec::encode_hname(v.0),
            ),
    {
        state.set(self.obj_id, self.key_id, v.to_bytes());
    }
}

} // verus!
