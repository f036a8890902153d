//! Typed state access for a sandboxed smart-contract module, plus the root
//! contract's permission-gated deployment registry.
//!
//! The host owns a schemaless key-value store reachable only through opaque
//! integer handles: an object id names a container, a key id names a field
//! within it ([`state`]). Typed views wrap one (object id, key id) coordinate
//! pair each and decode or encode a single declared scalar type ([`proxies`],
//! [`codec`]); immutable views expose no mutation operation at all. The param
//! structs of [`params`] bundle the views for each root-contract entry point,
//! and [`root`] holds the registry of deployed contracts and the set of
//! principals allowed to deploy, with the grant / revoke / deploy / find
//! operations over them.

use vstd::prelude::*;

pub mod codec;
pub mod keys;
pub mod params;
pub mod proxies;
pub mod root;
pub mod state;

verus! {

/// Everything that can go wrong inside this layer.
///
/// `PermissionDenied`, `AlreadyExists` and `InvalidProgramHash` are business
/// outcomes of the root contract; `NotFound` and `DecodeError` arise when a
/// mandatory parameter is absent or its bytes do not decode to the declared
/// scalar type.
#[derive(Clone, Copy, Debug, PartialEq, Eq, Structural)]
pub enum ScError {
    /// The caller lacks the privilege the operation demands.
    PermissionDenied,
    /// A key is absent: a missing mandatory parameter, or an unknown hname.
    NotFound,
    /// A contract with the same derived hname is already registered.
    AlreadyExists,
    /// Stored bytes do not decode to the declared scalar type.
    DecodeError,
    /// The program hash handed to a deployment is no acceptable fingerprint.
    InvalidProgramHash,
}

} // verus!
