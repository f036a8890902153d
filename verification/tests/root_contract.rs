use coreroot::codec::hname_from_name;
use coreroot::params::{
    MutableDeployContractParams, MutableFindContractParams, MutableGrantDeployPermissionParams,
    MutableRevokeDeployPermissionParams,
};
use coreroot::root::{
    func_deploy_contract, func_grant_deploy_permission, func_revoke_deploy_permission,
    view_find_contract, RootState,
};
use coreroot::state::ScState;
use coreroot::ScError;

fn agent(tag: u8) -> Vec<u8> {
    vec![tag; 37]
}

fn program_hash(tag: u8) -> Vec<u8> {
    let mut h = vec![0u8; 32];
    h[0] = tag;
    h
}

#[test]
fn owner_can_deploy() {
    let owner = agent(1);
    let mut root = RootState::new(owner.clone());
    let r = root.deploy_contract(&owner, String::from("d"), String::from("c"), program_hash(9));
    assert!(r.is_ok());
}

#[test]
fn deploy_without_permission_is_denied() {
    let owner = agent(1);
    let deployer = agent(2);
    let mut root = RootState::new(owner);
    let r = root.deploy_contract(
        &deployer,
        String::from("desc"),
        String::from("myContract"),
        program_hash(9),
    );
    assert_eq!(r, Err(ScError::PermissionDenied));
    assert!(root.find_contract(hname_from_name("myContract")).is_none());
}

#[test]
fn granted_deployer_can_deploy_until_revoked() {
    let owner = agent(1);
    let deployer = agent(2);
    let mut root = RootState::new(owner.clone());
    assert_eq!(root.grant_deploy_permission(&owner, &deployer), Ok(()));
    let r = root.deploy_contract(
        &deployer,
        String::from("d"),
        String::from("one"),
        program_hash(9),
    );
    assert!(r.is_ok());
    assert_eq!(root.revoke_deploy_permission(&owner, &deployer), Ok(()));
    let r2 = root.deploy_contract(
        &deployer,
        String::from("d"),
        String::from("two"),
        program_hash(9),
    );
    assert_eq!(r2, Err(ScError::PermissionDenied));
}

#[test]
fn grant_is_idempotent() {
    let owner = agent(1);
    let deployer = agent(2);
    let mut root = RootState::new(owner.clone());
    assert_eq!(root.grant_deploy_permission(&owner, &deployer), Ok(()));
    assert_eq!(root.grant_deploy_permission(&owner, &deployer), Ok(()));
    // The flag is a flag, not a count: one revocation clears it.
    assert_eq!(root.revoke_deploy_permission(&owner, &deployer), Ok(()));
    let r = root.deploy_contract(
        &deployer,
        String::from("d"),
        String::from("c"),
        program_hash(9),
    );
    assert_eq!(r, Err(ScError::PermissionDenied));
}

#[test]
fn revoke_of_never_granted_is_noop_success() {
    let owner = agent(1);
    let stranger = agent(5);
    let mut root = RootState::new(owner.clone());
    assert_eq!(root.revoke_deploy_permission(&owner, &stranger), Ok(()));
    let r = root.deploy_contract(
        &stranger,
        String::from("d"),
        String::from("c"),
        program_hash(9),
    );
    assert_eq!(r, Err(ScError::PermissionDenied));
}

#[test]
fn grant_and_revoke_demand_the_owner() {
    let owner = agent(1);
    let deployer = agent(2);
    let mut root = RootState::new(owner);
    let r = root.grant_deploy_permission(&deployer, &deployer);
    assert_eq!(r, Err(ScError::PermissionDenied));
    let r = root.revoke_deploy_permission(&deployer, &deployer);
    assert_eq!(r, Err(ScError::PermissionDenied));
}

#[test]
fn duplicate_deployment_keeps_the_first_record() {
    let owner = agent(1);
    let mut root = RootState::new(owner.clone());
    let first = root.deploy_contract(
        &owner,
        String::from("first description"),
        String::from("myContract"),
        program_hash(9),
    );
    assert!(first.is_ok());
    let second = root.deploy_contract(
        &owner,
        String::from("second description"),
        String::from("myContract"),
        program_hash(8),
    );
    assert_eq!(second, Err(ScError::AlreadyExists));
    let e = root.find_contract(hname_from_name("myContract")).unwrap();
    assert_eq!(e.description, "first description");
    assert_eq!(e.program_hash, program_hash(9));
}

#[test]
fn find_returns_exactly_what_was_deployed() {
    let owner = agent(1);
    let mut root = RootState::new(owner.clone());
    let h = hname_from_name("myContract");
    assert!(root.find_contract(h).is_none());
    let r = root.deploy_contract(
        &owner,
        String::from("a test contract"),
        String::from("myContract"),
        program_hash(9),
    );
    assert_eq!(r, Ok(h));
    let e = root.find_contract(h).unwrap();
    assert_eq!(e.hname, h);
    assert_eq!(e.name, "myContract");
    assert_eq!(e.description, "a test contract");
    assert_eq!(e.program_hash, program_hash(9));
    assert!(root.find_contract(hname_from_name("otherContract")).is_none());
}

#[test]
fn all_zero_program_hash_is_invalid() {
    let owner = agent(1);
    let mut root = RootState::new(owner.clone());
    let r = root.deploy_contract(
        &owner,
        String::from("d"),
        String::from("c"),
        vec![0u8; 32],
    );
    assert_eq!(r, Err(ScError::InvalidProgramHash));
    assert!(root.find_contract(hname_from_name("c")).is_none());
}

#[test]
fn wrong_width_program_hash_is_invalid() {
    let owner = agent(1);
    let mut root = RootState::new(owner.clone());
    let r = root.deploy_contract(&owner, String::from("d"), String::from("c"), vec![9u8; 31]);
    assert_eq!(r, Err(ScError::InvalidProgramHash));
}

#[test]
fn deploy_entry_point_reads_views() {
    let owner = agent(1);
    let mut host = ScState::new();
    let params = MutableDeployContractParams::new(10);
    params.description().set_value(&mut host, "through the views");
    params.name().set_value(&mut host, "myContract");
    params.program_hash().set_value(&mut host, program_hash(9));
    let mut root = RootState::new(owner.clone());
    let r = func_deploy_contract(&host, 10, &owner, &mut root);
    assert_eq!(r, Ok(hname_from_name("myContract")));
    let e = root.find_contract(hname_from_name("myContract")).unwrap();
    assert_eq!(e.description, "through the views");
}

#[test]
fn deploy_entry_point_demands_every_parameter() {
    let owner = agent(1);
    let mut host = ScState::new();
    let params = MutableDeployContractParams::new(10);
    params.description().set_value(&mut host, "d");
    params.name().set_value(&mut host, "c");
    // The program hash is missing.
    let mut root = RootState::new(owner.clone());
    let r = func_deploy_contract(&host, 10, &owner, &mut root);
    assert_eq!(r, Err(ScError::NotFound));
    assert!(root.find_contract(hname_from_name("c")).is_none());
}

#[test]
fn grant_and_revoke_entry_points() {
    let owner = agent(1);
    let deployer = agent(2);
    let mut host = ScState::new();
    MutableGrantDeployPermissionParams::new(11)
        .deployer()
        .set_value(&mut host, deployer.clone());
    let mut root = RootState::new(owner.clone());
    assert_eq!(func_grant_deploy_permission(&host, 11, &owner, &mut root), Ok(()));
    let r = root.deploy_contract(
        &deployer,
        String::from("d"),
        String::from("one"),
        program_hash(9),
    );
    assert!(r.is_ok());
    MutableRevokeDeployPermissionParams::new(12)
        .deployer()
        .set_value(&mut host, deployer.clone());
    assert_eq!(func_revoke_deploy_permission(&host, 12, &owner, &mut root), Ok(()));
    let r2 = root.deploy_contract(
        &deployer,
        String::from("d"),
        String::from("two"),
        program_hash(9),
    );
    assert_eq!(r2, Err(ScError::PermissionDenied));
}

#[test]
fn grant_entry_point_rejects_malformed_deployer() {
    let owner = agent(1);
    let mut host = ScState::new();
    // Too short for an agent id.
    host.set(11, 3, vec![2u8; 5]);
    let mut root = RootState::new(owner.clone());
    let r = func_grant_deploy_permission(&host, 11, &owner, &mut root);
    assert_eq!(r, Err(ScError::DecodeError));
}

#[test]
fn find_entry_point() {
    let owner = agent(1);
    let mut root = RootState::new(owner.clone());
    root.deploy_contract(
        &owner,
        String::from("d"),
        String::from("myContract"),
        program_hash(9),
    )
    .unwrap();
    let mut host = ScState::new();
    MutableFindContractParams::new(13)
        .hname()
        .set_value(&mut host, hname_from_name("myContract"));
    let found = view_find_contract(&host, 13, &root).unwrap().unwrap();
    assert_eq!(found.name, "myContract");

    let mut host2 = ScState::new();
    MutableFindContractParams::new(13)
        .hname()
        .set_value(&mut host2, hname_from_name("unknown"));
    assert!(view_find_contract(&host2, 13, &root).unwrap().is_none());

    let host3 = ScState::new();
    assert_eq!(
        view_find_contract(&host3, 13, &root).unwrap_err(),
        ScError::NotFound
    );
}

#[test]
fn owner_is_kept() {
    let owner = agent(1);
    let root = RootState::new(owner.clone());
    assert_eq!(root.owner(), &owner);
}
