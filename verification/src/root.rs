//! The root contract: the registry of deployed contracts and the set of
//! principals allowed to deploy new ones.
//!
//! Four operations work on this state. `deploy_contract` derives the new
//! contract's hname from its name, demands deploy permission, refuses a
//! duplicate hname and an unacceptable program hash, and only then writes
//! the registry entry — all checks come before the one write, so a failed
//! call changes nothing. `grant_deploy_permission` and
//! `revoke_deploy_permission` are the chain owner's two idempotent switches
//! of a principal's permission flag. `find_contract` is a public lookup and
//! never fails for permission reasons.
//!
//! Each operation's contract equates its outcome with a specification-level
//! transition function (`deploy_spec`, `grant_spec`, `revoke_spec`,
//! `find_spec`); the laws at the bottom of this module are proved over
//! those transitions. The `func_` / `view_` entry points wrap the
//! operations behind the host calling convention: arguments arrive in a
//! request-scoped state container and are read through immutable typed
//! views before any logic runs.

use vstd::prelude::*;

use crate::codec::{
    bytes_eq, hname_from_name, hname_of, read_agent_id, read_hash, read_hname, read_string,
    ScHname, HASH_LENGTH,
};
use crate::keys::{KEY_DEPLOYER, KEY_DESCRIPTION, KEY_HNAME, KEY_NAME, KEY_PROGRAM_HASH};
use crate::params::{
    ImmutableDeployContractParams, ImmutableFindContractParams,
    ImmutableGrantDeployPermissionParams, ImmutableRevokeDeployPermissionParams,
};
use crate::state::ScState;
use crate::ScError;

verus! {

/// Specification-level image of one registry record: the metadata a
/// successful deployment stores.
#[verifier::ext_equal]
pub ghost struct RecordView {
    pub name: Seq<char>,
    pub description: Seq<char>,
    pub program_hash: Seq<u8>,
}

/// Specification-level image of the whole root-contract state: the chain
/// owner, the principals holding deploy permission, and the registry keyed
/// by hname.
#[verifier::ext_equal]
pub ghost struct RootView {
    pub owner: Seq<u8>,
    pub deployers: Set<Seq<u8>>,
    pub registry: Map<u32, RecordView>,
}

/// One deployed contract as registered: its hname and metadata.
#[derive(Debug)]
pub struct RegistryEntry {
    pub hname: ScHname,
    pub name: String,
    pub description: String,
    pub program_hash: Vec<u8>,
}

impl View for RegistryEntry {
    type V = RecordView;

    open spec fn view(&self) -> RecordView {
        RecordView {
            name: self.name@,
            description: self.description@,
            program_hash: self.program_hash@,
        }
    }
}

/// No two entries share their hname.
pub open spec fn distinct_hnames(s: Seq<RegistryEntry>) -> bool {
    forall|i: int, j: int| 0 <= i < j < s.len() ==> s[i].hname.0 != s[j].hname.0
}

/// The registry entries read as a map from hname to record. A later entry
/// for the same hname overrides an earlier one.
pub open spec fn registry_map(s: Seq<RegistryEntry>) -> Map<u32, RecordView>
    decreases s.len(),
{
    if s.len() == 0 {
        Map::empty()
    } else {
        registry_map(s.drop_last()).insert(s.last().hname.0, s.last()@)
    }
}

/// No two listed agent ids hold the same bytes.
pub open spec fn distinct_agents(s: Seq<Vec<u8>>) -> bool {
    forall|i: int, j: int| 0 <= i < j < s.len() ==> s[i]@ != s[j]@
}

/// The listed agent ids read as a set of byte strings.
pub open spec fn agents_set(s: Seq<Vec<u8>>) -> Set<Seq<u8>>
    decreases s.len(),
{
    if s.len() == 0 {
        Set::empty()
    } else {
        agents_set(s.drop_last()).insert(s.last()@)
    }
}

/// An hname is in the registry map exactly when some entry carries it.
proof fn lemma_registry_map_domain(s: Seq<RegistryEntry>, h: u32)
    ensures
        registry_map(s).contains_key(h) <==> exists|i: int| 0 <= i < s.len() && s[i].hname.0 == h,
    decreases s.len(),
{
    if s.len() > 0 {
        lemma_registry_map_domain(s.drop_last(), h);
        assert(forall|i: int| 0 <= i < s.len() - 1 ==> #[trigger] s.drop_last()[i] == s[i]);
        if s.last().hname.0 == h {
            assert(s[s.len() - 1].hname.0 == h);
        } else {
            assert(registry_map(s).contains_key(h) <==> registry_map(s.drop_last()).contains_key(
                h,
            ));
            if exists|i: int| 0 <= i < s.len() && s[i].hname.0 == h {
                let i = choose|i: int| 0 <= i < s.len() && s[i].hname.0 == h;
                assert(i != s.len() - 1);
                assert(s.drop_last()[i].hname.0 == h);
            }
        }
    }
}

/// When no two entries share an hname, the map holds each entry's record
/// under its hname.
proof fn lemma_registry_map_at(s: Seq<RegistryEntry>, i: int)
    requires
        distinct_hnames(s),
        0 <= i < s.len(),
    ensures
        registry_map(s).contains_key(s[i].hname.0),
        registry_map(s)[s[i].hname.0] == s[i]@,
    decreases s.len(),
{
    if i < s.len() - 1 {
        assert(distinct_hnames(s.drop_last())) by {
            assert(forall|p: int, q: int|
                0 <= p < q < s.len() - 1 ==> #[trigger] s.drop_last()[p].hname.0 != #[trigger] s.drop_last()[q].hname.0);
        }
        lemma_registry_map_at(s.drop_last(), i);
        assert(s[i].hname.0 != s.last().hname.0);
    }
}

/// An agent id is in the set exactly when it is listed.
proof fn lemma_agents_set_contains(s: Seq<Vec<u8>>, x: Seq<u8>)
    ensures
        agents_set(s).contains(x) <==> exists|i: int| 0 <= i < s.len() && s[i]@ == x,
    decreases s.len(),
{
    if s.len() > 0 {
        lemma_agents_set_contains(s.drop_last(), x);
        assert(forall|i: int| 0 <= i < s.len() - 1 ==> #[trigger] s.drop_last()[i] == s[i]);
        if s.last()@ == x {
            assert(s[s.len() - 1]@ == x);
        } else {
            if exists|i: int| 0 <= i < s.len() && s[i]@ == x {
                let i = choose|i: int| 0 <= i < s.len() && s[i]@ == x;
                assert(i != s.len() - 1);
                assert(s.drop_last()[i]@ == x);
            }
        }
    }
}

/// Dropping the listed agent id at one position removes exactly it from
/// the set, when no other position holds the same bytes.
proof fn lemma_agents_set_remove(s: Seq<Vec<u8>>, i: int)
    requires
        distinct_agents(s),
        0 <= i < s.len(),
    ensures
        distinct_agents(s.remove(i)),
        agents_set(s.remove(i)) == agents_set(s).remove(s[i]@),
    decreases s.len(),
{
    assert(distinct_agents(s.drop_last())) by {
        assert(forall|p: int, q: int|
            0 <= p < q < s.len() - 1 ==> (#[trigger] s.drop_last()[p])@ != (
            #[trigger] s.drop_last()[q])@);
    }
    if i == s.len() - 1 {
        assert(s.remove(i) =~= s.drop_last());
        lemma_agents_set_contains(s.drop_last(), s[i]@);
        assert(!agents_set(s.drop_last()).contains(s[i]@));
        assert(agents_set(s.drop_last()) =~= agents_set(s).remove(s[i]@));
    } else {
        lemma_agents_set_remove(s.drop_last(), i);
        assert(s.remove(i).drop_last() =~= s.drop_last().remove(i));
        assert(s.remove(i).last() == s.last());
        assert(agents_set(s.remove(i)) == agents_set(s.drop_last().remove(i)).insert(s.last()@));
        assert(s[i]@ != s.last()@);
        assert(agents_set(s.drop_last()).remove(s[i]@).insert(s.last()@) =~= agents_set(
            s.drop_last(),
        ).insert(s.last()@).remove(s[i]@));
        assert(agents_set(s.remove(i)) =~= agents_set(s).remove(s[i]@));
    }
}

/// Whether a program hash is an acceptable fingerprint: full width, and
/// not the reserved all-zero value, which stands for "no program".
pub open spec fn valid_program_hash(h: Seq<u8>) -> bool {
    h.len() == HASH_LENGTH && exists|i: int| 0 <= i < h.len() && h[i] != 0
}

/// What granting deploy permission does: only the chain owner may grant;
/// the deployer's flag is then set, idempotently.
pub open spec fn grant_spec(st: RootView, caller: Seq<u8>, deployer: Seq<u8>) -> (
    RootView,
    Result<(), ScError>,
) {
    if caller != st.owner {
        (st, Err(ScError::PermissionDenied))
    } else {
        (RootView { deployers: st.deployers.insert(deployer), ..st }, Ok(()))
    }
}

/// What revoking deploy permission does: only the chain owner may revoke;
/// the deployer's flag is then cleared, idempotently.
pub open spec fn revoke_spec(st: RootView, caller: Seq<u8>, deployer: Seq<u8>) -> (
    RootView,
    Result<(), ScError>,
) {
    if caller != st.owner {
        (st, Err(ScError::PermissionDenied))
    } else {
        (RootView { deployers: st.deployers.remove(deployer), ..st }, Ok(()))
    }
}

/// What deploying a contract does: the caller must be the chain owner or
/// hold deploy permission; the name derives to an hname that must be new;
/// the program hash must be acceptable; only then is the record registered
/// under the hname. A failed deployment changes nothing.
pub open spec fn deploy_spec(
    st: RootView,
    caller: Seq<u8>,
    description: Seq<char>,
    name: Seq<char>,
    program_hash: Seq<u8>,
) -> (RootView, Result<ScHname, ScError>) {
    if caller != st.owner && !st.deployers.contains(caller) {
        (st, Err(ScError::PermissionDenied))
    } else if st.registry.contains_key(hname_of(name)) {
        (st, Err(ScError::AlreadyExists))
    } else if !valid_program_hash(program_hash) {
        (st, Err(ScError::InvalidProgramHash))
    } else {
        (
            RootView {
                registry: st.registry.insert(
                    hname_of(name),
                    RecordView { name, description, program_hash },
                ),
                ..st
            },
            Ok(ScHname(hname_of(name))),
        )
    }
}

/// What looking a contract up does: the registered record, or nothing.
pub open spec fn find_spec(st: RootView, hname: u32) -> Option<RecordView> {
    if st.registry.contains_key(hname) {
        Some(st.registry[hname])
    } else {
        None
    }
}

/// The root contract's state. Its abstract value is a [`RootView`].
pub struct RootState {
    owner: Vec<u8>,
    deployers: Vec<Vec<u8>>,
    registry: Vec<RegistryEntry>,
}

impl View for RootState {
    type V = RootView;

    closed spec fn view(&self) -> RootView {
        RootView {
            owner: self.owner@,
            deployers: agents_set(self.deployers@),
            registry: registry_map(self.registry@),
        }
    }
}

impl RootState {
    /// Internal well-formedness: permissions and registry entries are
    /// listed once each, so scans agree with the abstract set and map.
    pub closed spec fn inv(&self) -> bool {
        distinct_agents(self.deployers@) && distinct_hnames(self.registry@)
    }

    /// A fresh chain: the given owner, nobody else authorized, and an
    /// empty registry.
    pub fn new(owner: Vec<u8>) -> (r: RootState)
        ensures
            r.inv(),
            r@.owner == owner@,
            r@.deployers == Set::<Seq<u8>>::empty(),
            r@.registry == Map::<u32, RecordView>::empty(),
    {
        RootState { owner, deployers: Vec::new(), registry: Vec::new() }
    }

    /// The position where the agent id is listed, if it is.
    fn find_deployer(&self, agent: &Vec<u8>) -> (r: Option<usize>)
        ensures
            match r {
                Some(i) => i < self.deployers@.len() && self.deployers@[i as int]@ == agent@,
                None => forall|j: int| 0 <= j < self.deployers@.len() ==> self.deployers@[j]@ != agent@,
            },
    {
        let n = self.deployers.len();
        let mut i: usize = 0;
        while i < n
            invariant
                i <= n,
                n == self.deployers@.len(),
                forall|j: int| 0 <= j < i ==> self.deployers@[j]@ != agent@,
            decreases n - i,
        {
            if bytes_eq(&self.deployers[i], agent) {
                return Some(i);
            }
            i = i + 1;
        }
        None
    }

    /// The position of the registry entry carrying the hname, if any does.
    fn find_registry(&self, hname: ScHname) -> (r: Option<usize>)
        ensures
            match r {
                Some(i) => i < self.registry@.len() && self.registry@[i as int].hname.0 == hname.0,
                None => forall|j: int| 0 <= j < self.registry@.len() ==> self.registry@[j].hname.0 != hname.0,
            },
    {
        let n = self.registry.len();
        let mut i: usize = 0;
        while i < n
            invariant
                i <= n,
                n == self.registry@.len(),
                forall|j: int| 0 <= j < i ==> self.registry@[j].hname.0 != hname.0,
            decreases n - i,
        {
            if self.registry[i].hname.0 == hname.0 {
                return Some(i);
            }
            i = i + 1;
        }
        None
    }

    /// Sets the deployer's permission flag. Only the chain owner may;
    /// granting an already granted permission is a legal no-op.
    pub fn grant_deploy_permission(&mut self, caller: &Vec<u8>, deployer: &Vec<u8>) -> (r: Result<
        (),
        ScError,
    >)
        requires
            old(self).inv(),
        ensures
            final(self).inv(),
            final(self)@ == grant_spec(old(self)@, caller@, deployer@).0,
            r == grant_spec(old(self)@, caller@, deployer@).1,
    {
        if !bytes_eq(caller, &self.owner) {
            return Err(ScError::PermissionDenied);
        }
        proof {
            lemma_agents_set_contains(self.deployers@, deployer@);
        }
        match self.find_deployer(deployer) {
            Some(_) => {
                proof {
                    assert(agents_set(self.deployers@).insert(deployer@) =~= agents_set(
                        self.deployers@,
                    ));
                    assert(self@ =~~= grant_spec(old(self)@, caller@, deployer@).0);
                }
            },
            None => {
                let ghost s0 = self.deployers@;
                let d = deployer.clone();
                proof {
                    assert(d@ =~= deployer@);
                }
                let ghost dv = d@;
                self.deployers.push(d);
                proof {
                    assert(self.deployers@.drop_last() =~= s0);
                    assert(self.deployers@.last()@ == dv);
                    assert(self@ =~~= grant_spec(old(self)@, caller@, deployer@).0);
                }
            },
        }
        Ok(())
    }

    /// Clears the deployer's permission flag. Only the chain owner may;
    /// revoking a permission never granted is a legal no-op.
    pub fn revoke_deploy_permission(&mut self, caller: &Vec<u8>, deployer: &Vec<u8>) -> (r: Result<
        (),
        ScError,
    >)
        requires
            old(self).inv(),
        ensures
            final(self).inv(),
            final(self)@ == revoke_spec(old(self)@, caller@, deployer@).0,
            r == revoke_spec(old(self)@, caller@, deployer@).1,
    {
        if !bytes_eq(caller, &self.owner) {
            return Err(ScError::PermissionDenied);
        }
        proof {
            lemma_agents_set_contains(self.deployers@, deployer@);
        }
        match self.find_deployer(deployer) {
            Some(i) => {
                proof {
                    lemma_agents_set_remove(self.deployers@, i as int);
                }
                self.deployers.remove(i);
                proof {
                    assert(self@ =~~= revoke_spec(old(self)@, caller@, deployer@).0);
                }
            },
            None => {
                proof {
                    assert(agents_set(self.deployers@).remove(deployer@) =~= agents_set(
                        self.deployers@,
                    ));
                    assert(self@ =~~= revoke_spec(old(self)@, caller@, deployer@).0);
                }
            },
        }
        Ok(())
    }

    /// Registers a new contract. All checks — permission, duplicate hname,
    /// program hash — come before the single write, so a failed call
    /// leaves the registry untouched.
    pub fn deploy_contract(
        &mut self,
        caller: &Vec<u8>,
        description: String,
        name: String,
        program_hash: Vec<u8>,
    ) -> (r: Result<ScHname, ScError>)
        requires
            old(self).inv(),
        ensures
            final(self).inv(),
            final(self)@ == deploy_spec(
                old(self)@,
                caller@,
                description@,
                name@,
                program_hash@,
            ).0,
            r == deploy_spec(old(self)@, caller@, description@, name@, program_hash@).1,
    {
        proof {
            lemma_agents_set_contains(self.deployers@, caller@);
        }
        let permitted = bytes_eq(caller, &self.owner) || self.find_deployer(caller).is_some();
        if !permitted {
            return Err(ScError::PermissionDenied);
        }
        let hname = hname_from_name(name.as_str());
        proof {
            lemma_registry_map_domain(self.registry@, hname.0);
        }
        if self.find_registry(hname).is_some() {
            return Err(ScError::AlreadyExists);
        }
        if !hash_is_acceptable(&program_hash) {
            return Err(ScError::InvalidProgramHash);
        }
        let ghost s0 = self.registry@;
        let ghost dv = description@;
        let ghost nv = name@;
        let ghost pv = program_hash@;
        let entry = RegistryEntry { hname, name, description, program_hash };
        self.registry.push(entry);
        proof {
            assert(self.registry@.drop_last() =~= s0);
            assert(self@ =~~= deploy_spec(old(self)@, caller@, dv, nv, pv).0);
        }
        Ok(hname)
    }

    /// Looks a contract up by hname: the registered entry, or nothing.
    /// A public query — it never fails for permission reasons.
    pub fn find_contract(&self, hname: ScHname) -> (r: Option<&RegistryEntry>)
        requires
            self.inv(),
        ensures
            match r {
                Some(e) => find_spec(self@, hname.0) == Some(e@) && e.hname.0 == hname.0,
                None => find_spec(self@, hname.0) is None,
            },
    {
        proof {
            lemma_registry_map_domain(self.registry@, hname.0);
        }
        match self.find_registry(hname) {
            Some(i) => {
                proof {
                    lemma_registry_map_at(self.registry@, i as int);
                }
                Some(&self.registry[i])
            },
            None => None,
        }
    }

    /// The chain owner's agent id.
    pub fn owner(&self) -> (r: &Vec<u8>)
        ensures
            r@ == self@.owner,
    {
        &self.owner
    }
}

/// What the grant entry point does: read the deployer argument through its
/// typed view, then grant; a missing or malformed argument changes nothing.
pub open spec fn grant_entry_spec(
    m: Map<(i32, i32), Seq<u8>>,
    params_id: i32,
    st: RootView,
    caller: Seq<u8>,
) -> (RootView, Result<(), ScError>) {
    match read_agent_id(m, (params_id, KEY_DEPLOYER)) {
        Err(e) => (st, Err(e)),
        Ok(deployer) => grant_spec(st, caller, deployer),
    }
}

/// Entry point of a permission grant: arguments arrive in the state
/// container with object id `params_id` and are read through an immutable
/// typed view before any logic runs.
pub fn func_grant_deploy_permission(
    state: &ScState,
    params_id: i32,
    caller: &Vec<u8>,
    root: &mut RootState,
) -> (r: Result<(), ScError>)
    requires
        state.inv(),
        old(root).inv(),
    ensures
        final(root).inv(),
        final(root)@ == grant_entry_spec(state@, params_id, old(root)@, caller@).0,
        r == grant_entry_spec(state@, params_id, old(root)@, caller@).1,
{
    let p = ImmutableGrantDeployPermissionParams::new(params_id);
    let deployer = match p.deployer().value(state) {
        Ok(d) => d,
        Err(e) => {
            return Err(e);
        },
    };
    root.grant_deploy_permission(caller, &deployer)
}

/// What the revoke entry point does: read the deployer argument through
/// its typed view, then revoke; a missing or malformed argument changes
/// nothing.
pub open spec fn revoke_entry_spec(
    m: Map<(i32, i32), Seq<u8>>,
    params_id: i32,
    st: RootView,
    caller: Seq<u8>,
) -> (RootView, Result<(), ScError>) {
    match read_agent_id(m, (params_id, KEY_DEPLOYER)) {
        Err(e) => (st, Err(e)),
        Ok(deployer) => revoke_spec(st, caller, deployer),
    }
}

/// Entry point of a permission revocation.
pub fn func_revoke_deploy_permission(
    state: &ScState,
    params_id: i32,
    caller: &Vec<u8>,
    root: &mut RootState,
) -> (r: Result<(), ScError>)
    requires
        state.inv(),
        old(root).inv(),
    ensures
        final(root).inv(),
        final(root)@ == revoke_entry_spec(state@, params_id, old(root)@, caller@).0,
        r == revoke_entry_spec(state@, params_id, old(root)@, caller@).1,
{
    let p = ImmutableRevokeDeployPermissionParams::new(params_id);
    let deployer = match p.deployer().value(state) {
        Ok(d) => d,
        Err(e) => {
            return Err(e);
        },
    };
    root.revoke_deploy_permission(caller, &deployer)
}

/// What the deploy entry point does: read description, name and program
/// hash through their typed views, in that order, then deploy; the first
/// missing or malformed argument aborts the call with nothing changed.
pub open spec fn deploy_entry_spec(
    m: Map<(i32, i32), Seq<u8>>,
    params_id: i32,
    st: RootView,
    caller: Seq<u8>,
) -> (RootView, Result<ScHname, ScError>) {
    match read_string(m, (params_id, KEY_DESCRIPTION)) {
        Err(e) => (st, Err(e)),
        Ok(description) => match read_string(m, (params_id, KEY_NAME)) {
            Err(e) => (st, Err(e)),
            Ok(name) => match read_hash(m, (params_id, KEY_PROGRAM_HASH)) {
                Err(e) => (st, Err(e)),
                Ok(program_hash) => deploy_spec(st, caller, description, name, program_hash),
            },
        },
    }
}

/// Entry point of a contract deployment.
pub fn func_deploy_contract(
    state: &ScState,
    params_id: i32,
    caller: &Vec<u8>,
    root: &mut RootState,
) -> (r: Result<ScHname, ScError>)
    requires
        state.inv(),
        old(root).inv(),
    ensures
        final(root).inv(),
        final(root)@ == deploy_entry_spec(state@, params_id, old(root)@, caller@).0,
        r == deploy_entry_spec(state@, params_id, old(root)@, caller@).1,
{
    let p = ImmutableDeployContractParams::new(params_id);
    let description = match p.description().value(state) {
        Ok(d) => d,
        Err(e) => {
            return Err(e);
        },
    };
    let name = match p.name().value(state) {
        Ok(n) => n,
        Err(e) => {
            return Err(e);
        },
    };
    let program_hash = match p.program_hash().value(state) {
        Ok(h) => h,
        Err(e) => {
            return Err(e);
        },
    };
    root.deploy_contract(caller, description, name, program_hash)
}

/// What the lookup entry point does: read the hname argument through its
/// typed view, then look it up. An unknown hname is a normal `None`
/// result, distinct from the errors of a missing or malformed argument.
pub open spec fn find_entry_spec(
    m: Map<(i32, i32), Seq<u8>>,
    params_id: i32,
    st: RootView,
) -> Result<Option<RecordView>, ScError> {
    match read_hname(m, (params_id, KEY_HNAME)) {
        Err(e) => Err(e),
        Ok(h) => Ok(find_spec(st, h)),
    }
}

/// Entry point of a registry lookup.
pub fn view_find_contract<'a>(state: &ScState, params_id: i32, root: &'a RootState) -> (r: Result<
    Option<&'a RegistryEntry>,
    ScError,
>)
    requires
        state.inv(),
        root.inv(),
    ensures
        match r {
            Ok(Some(e)) => find_entry_spec(state@, params_id, root@) == Ok::<
                Option<RecordView>,
                ScError,
            >(Some(e@)),
            Ok(None) => find_entry_spec(state@, params_id, root@) == Ok::<
                Option<RecordView>,
                ScError,
            >(None),
            Err(e) => find_entry_spec(state@, params_id, root@) == Err::<
                Option<RecordView>,
                ScError,
            >(e),
        },
{
    let p = ImmutableFindContractParams::new(params_id);
    let hname = match p.hname().value(state) {
        Ok(h) => h,
        Err(e) => {
            return Err(e);
        },
    };
    Ok(root.find_contract(hname))
}

/// Law: granting the same permission twice leaves exactly the state a
/// single grant leaves, with the same outcome — each principal's
/// permission is a flag, not a count.
pub proof fn lemma_grant_idempotent(st: RootView, caller: Seq<u8>, deployer: Seq<u8>)
    ensures
        grant_spec(grant_spec(st, caller, deployer).0, caller, deployer).0 == grant_spec(
            st,
            caller,
            deployer,
        ).0,
        grant_spec(grant_spec(st, caller, deployer).0, caller, deployer).1 == grant_spec(
            st,
            caller,
            deployer,
        ).1,
{
    if caller == st.owner {
        let st1 = grant_spec(st, caller, deployer).0;
        assert(st1.deployers.insert(deployer) =~= st.deployers.insert(deployer));
        assert(grant_spec(st1, caller, deployer).0 =~~= st1);
    }
}

/// Law: revoking a permission the deployer never held succeeds and leaves
/// the state unchanged — the no-op transition is legal.
pub proof fn lemma_revoke_absent_noop(st: RootView, caller: Seq<u8>, deployer: Seq<u8>)
    requires
        caller == st.owner,
        !st.deployers.contains(deployer),
    ensures
        revoke_spec(st, caller, deployer).0 == st,
        revoke_spec(st, caller, deployer).1 == Ok::<(), ScError>(()),
{
    assert(st.deployers.remove(deployer) =~= st.deployers);
    assert(revoke_spec(st, caller, deployer).0 =~~= st);
}

/// Law: a deployment by a caller that is neither the chain owner nor an
/// authorized deployer is refused with `PermissionDenied`, and the state
/// — the registry in particular — is exactly what it was.
pub proof fn lemma_deploy_without_permission(
    st: RootView,
    caller: Seq<u8>,
    description: Seq<char>,
    name: Seq<char>,
    program_hash: Seq<u8>,
)
    requires
        caller != st.owner,
        !st.deployers.contains(caller),
    ensures
        deploy_spec(st, caller, description, name, program_hash).0 == st,
        deploy_spec(st, caller, description, name, program_hash).1 == Err::<ScHname, ScError>(
            ScError::PermissionDenied,
        ),
{
}

/// Law: deploying twice under the same name, the first call succeeding —
/// the second is refused with `AlreadyExists`, changes nothing, and the
/// registry keeps exactly the first call's metadata.
pub proof fn lemma_deploy_twice(
    st: RootView,
    caller: Seq<u8>,
    d1: Seq<char>,
    name: Seq<char>,
    p1: Seq<u8>,
    d2: Seq<char>,
    p2: Seq<u8>,
)
    requires
        deploy_spec(st, caller, d1, name, p1).1 is Ok,
    ensures
        ({
            let st1 = deploy_spec(st, caller, d1, name, p1).0;
            &&& deploy_spec(st1, caller, d2, name, p2).1 == Err::<ScHname, ScError>(
                ScError::AlreadyExists,
            )
            &&& deploy_spec(st1, caller, d2, name, p2).0 == st1
            &&& st1.registry[hname_of(name)] == RecordView {
                name,
                description: d1,
                program_hash: p1,
            }
        }),
{
}

/// Law: an hname never deployed finds nothing.
pub proof fn lemma_find_absent(st: RootView, hname: u32)
    requires
        !st.registry.contains_key(hname),
    ensures
        find_spec(st, hname) is None,
{
}

/// Law: after a successful deployment, looking the derived hname up
/// returns exactly the name, description and program hash supplied.
pub proof fn lemma_find_after_deploy(
    st: RootView,
    caller: Seq<u8>,
    description: Seq<char>,
    name: Seq<char>,
    program_hash: Seq<u8>,
)
    requires
        deploy_spec(st, caller, description, name, program_hash).1 is Ok,
    ensures
        find_spec(deploy_spec(st, caller, description, name, program_hash).0, hname_of(name))
            == Some(RecordView { name, description, program_hash }),
{
}

/// Whether a program hash is an acceptable fingerprint.
fn hash_is_acceptable(h: &Vec<u8>) -> (r: bool)
    ensures
        r == valid_program_hash(h@),
{
    if h.len() != HASH_LENGTH {
        return false;
    }
    let n = h.len();
    let mut i: usize = 0;
    while i < n
        invariant
            i <= n,
            n == h@.len(),
            h@.len() == HASH_LENGTH,
            forall|j: int| 0 <= j < i ==> h@[j] == 0,
        decreases n - i,
    {
        if h[i] != 0 {
            return true;
        }
        i = i + 1;
    }
    false
}

} // verus!
