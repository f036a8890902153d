//! Parameter bags of the root contract's entry points.
//!
//! The host places a call's arguments into a request-scoped container and
//! hands the entry point its object id. Each struct here wraps such an id
//! and offers one typed view per schema-declared parameter, under that
//! parameter's fixed key id. Immutable bags are for reading arguments;
//! mutable bags are for a caller composing them.

use vstd::prelude::*;

use crate::keys::{KEY_DEPLOYER, KEY_DESCRIPTION, KEY_HNAME, KEY_NAME, KEY_PROGRAM_HASH};
use crate::proxies::{
    ScImmutableAgentID, ScImmutableHash, ScImmutableHname, ScImmutableString, ScMutableAgentID,
    ScMutableHash, ScMutableHname, ScMutableString,
};

verus! {

/// Read-only arguments of a contract deployment: description, name and
/// program hash.
#[derive(Clone, Copy)]
pub struct ImmutableDeployContractParams {
    pub id: i32,
}

impl ImmutableDeployContractParams {
    /// The bag inside the container with the given object id.
    pub fn new(id: i32) -> (r: Self)
        ensures
            r.id == id,
    {
        ImmutableDeployContractParams { id }
    }

    /// View of the description parameter.
    pub fn description(&self) -> (r: ScImmutableString)
        ensures
            r.obj_id == self.id && r.key_id == KEY_DESCRIPTION,
    {
        ScImmutableString::new(self.id, KEY_DESCRIPTION)
    }

    /// View of the contract-name parameter.
    pub fn name(&self) -> (r: ScImmutableString)
        ensures
            r.obj_id == self.id && r.key_id == KEY_NAME,
    {
        ScImmutableString::new(self.id, KEY_NAME)
    }

    /// View of the program-hash parameter.
    pub fn program_hash(&self) -> (r: ScImmutableHash)
        ensures
            r.obj_id == self.id && r.key_id == KEY_PROGRAM_HASH,
    {
        ScImmutableHash::new(self.id, KEY_PROGRAM_HASH)
    }
}

/// Writable arguments of a contract deployment.
#[derive(Clone, Copy)]
pub struct MutableDeployContractParams {
    pub id: i32,
}

impl MutableDeployContractParams {
    /// The bag inside the container with the given object id.
    pub fn new(id: i32) -> (r: Self)
        ensures
            r.id == id,
    {
        MutableDeployContractParams { id }
    }

    /// View of the description parameter.
    pub fn description(&self) -> (r: ScMutableString)
        ensures
            r.obj_id == self.id && r.key_id == KEY_DESCRIPTION,
    {
        ScMutableString::new(self.id, KEY_DESCRIPTION)
    }

    /// View of the contract-name parameter.
    pub fn name(&self) -> (r: ScMutableString)
        ensures
            r.obj_id == self.id && r.key_id == KEY_NAME,
    {
        ScMutableString::new(self.id, KEY_NAME)
    }

    /// View of the program-hash parameter.
    pub fn program_hash(&self) -> (r: ScMutableHash)
        ensures
            r.obj_id == self.id && r.key_id == KEY_PROGRAM_HASH,
    {
        ScMutableHash::new(self.id, KEY_PROGRAM_HASH)
    }
}

/// Read-only argument of a permission grant: the deployer to authorize.
#[derive(Clone, Copy)]
pub struct ImmutableGrantDeployPermissionParams {
    pub id: i32,
}

impl ImmutableGrantDeployPermissionParams {
    /// The bag inside the container with the given object id.
    pub fn new(id: i32) -> (r: Self)
        ensures
            r.id == id,
    {
        ImmutableGrantDeployPermissionParams { id }
    }

    /// View of the deployer parameter.
    pub fn deployer(&self) -> (r: ScImmutableAgentID)
        ensures
            r.obj_id == self.id && r.key_id == KEY_DEPLOYER,
    {
        ScImmutableAgentID::new(self.id, KEY_DEPLOYER)
    }
}

/// Writable argument of a permission grant.
#[derive(Clone, Copy)]
pub struct MutableGrantDeployPermissionParams {
    pub id: i32,
}

impl MutableGrantDeployPermissionParams {
    /// The bag inside the container with the given object id.
    pub fn new(id: i32) -> (r: Self)
        ensures
            r.id == id,
    {
        MutableGrantDeployPermissionParams { id }
    }

    /// View of the deployer parameter.
    pub fn deployer(&self) -> (r: ScMutableAgentID)
        ensures
            r.obj_id == self.id && r.key_id == KEY_DEPLOYER,
    {
        ScMutableAgentID::new(self.id, KEY_DEPLOYER)
    }
}

/// Read-only argument of a permission revocation: the deployer to strip.
#[derive(Clone, Copy)]
pub struct ImmutableRevokeDeployPermissionParams {
    pub id: i32,
}

impl ImmutableRevokeDeployPermissionParams {
    /// The bag inside the container with the given object id.
    pub fn new(id: i32) -> (r: Self)
        ensures
            r.id == id,
    {
        ImmutableRevokeDeployPermissionParams { id }
    }

    /// View of the deployer parameter.
    pub fn deployer(&self) -> (r: ScImmutableAgentID)
        ensures
            r.obj_id == self.id && r.key_id == KEY_DEPLOYER,
    {
        ScImmutableAgentID::new(self.id, KEY_DEPLOYER)
    }
}

/// Writable argument of a permission revocation.
#[derive(Clone, Copy)]
pub struct MutableRevokeDeployPermissionParams {
    pub id: i32,
}

impl MutableRevokeDeployPermissionParams {
    /// The bag inside the container with the given object id.
    pub fn new(id: i32) -> (r: Self)
        ensures
            r.id == id,
    {
        MutableRevokeDeployPermissionParams { id }
    }

    /// View of the deployer parameter.
    pub fn deployer(&self) -> (r: ScMutableAgentID)
        ensures
            r.obj_id == self.id && r.key_id == KEY_DEPLOYER,
    {
        ScMutableAgentID::new(self.id, KEY_DEPLOYER)
    }
}

/// Read-only argument of a registry lookup: the hname to search for.
#[derive(Clone, Copy)]
pub struct ImmutableFindContractParams {
    pub id: i32,
}

impl ImmutableFindContractParams {
    /// The bag inside the container with the given object id.
    pub fn new(id: i32) -> (r: Self)
        ensures
            r.id == id,
    {
        ImmutableFindContractParams { id }
    }

    /// View of the hname parameter.
    pub fn hname(&self) -> (r: ScImmutableHname)
        ensures
            r.obj_id == self.id && r.key_id == KEY_HNAME,
    {
        ScImmutableHname::new(self.id, KEY_HNAME)
    }
}

/// Writable argument of a registry lookup.
#[derive(Clone, Copy)]
pub struct MutableFindContractParams {
    pub id: i32,
}

impl MutableFindContractParams {
    /// The bag inside the container with the given object id.
    pub fn new(id: i32) -> (r: Self)
        ensures
            r.id == id,
    {
        MutableFindContractParams { id }
    }

    /// View of the hname parameter.
    pub fn hname(&self) -> (r: ScMutableHname)
        ensures
            r.obj_id == self.id && r.key_id == KEY_HNAME,
    {
        ScMutableHname::new(self.id, KEY_HNAME)
    }
}

} // verus!
