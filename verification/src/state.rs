//! The host-side key-value store behind the trust boundary.
//!
//! Every piece of persistent data a contract can reach lives in containers
//! owned by the host. A container is named by an opaque object id, a field
//! within it by a key id, and the value under such a coordinate pair is a
//! plain byte string. The guest never holds the data itself, only the
//! coordinates.

use vstd::prelude::*;

verus! {

/// One slot of the store: the bytes held under an (object id, key id)
/// coordinate pair.
pub struct StateEntry {
    pub obj_id: i32,
    pub key_id: i32,
    pub value: Vec<u8>,
}

/// The coordinate pair of a slot.
pub open spec fn coord_of(e: StateEntry) -> (i32, i32) {
    (e.obj_id, e.key_id)
}

/// No two slots share their coordinates.
pub open spec fn distinct_coords(s: Seq<StateEntry>) -> bool {
    forall|i: int, j: int|
        0 <= i < j < s.len() ==> coord_of(s[i]) != coord_of(s[j])
}

/// The contents of a sequence of slots, read as a map from coordinates to
/// bytes. A later slot for the same coordinates overrides an earlier one.
pub open spec fn entries_map(s: Seq<StateEntry>) -> Map<(i32, i32), Seq<u8>>
    decreases s.len(),
{
    if s.len() == 0 {
        Map::empty()
    } else {
        entries_map(s.drop_last()).insert(coord_of(s.last()), s.last().value@)
    }
}

/// A coordinate pair is in the map exactly when some slot carries it.
proof fn lemma_entries_map_domain(s: Seq<StateEntry>, k: (i32, i32))
    ensures
        entries_map(s).contains_key(k) <==> exists|i: int| 0 <= i < s.len() && coord_of(s[i]) == k,
    decreases s.len(),
{
    if s.len() > 0 {
        lemma_entries_map_domain(s.drop_last(), k);
        assert(forall|i: int| 0 <= i < s.len() - 1 ==> #[trigger] s.drop_last()[i] == s[i]);
        if coord_of(s.last()) == k {
            assert(coord_of(s[s.len() - 1]) == k);
        } else {
            assert(entries_map(s).contains_key(k) <==> entries_map(s.drop_last()).contains_key(k));
            if exists|i: int| 0 <= i < s.len() && coord_of(s[i]) == k {
                let i = choose|i: int| 0 <= i < s.len() && coord_of(s[i]) == k;
                assert(i != s.len() - 1);
                assert(coord_of(s.drop_last()[i]) == k);
            }
        }
    }
}

/// When no two slots share coordinates, the map holds each slot's bytes
/// under its coordinates.
proof fn lemma_entries_map_at(s: Seq<StateEntry>, i: int)
    requires
        distinct_coords(s),
        0 <= i < s.len(),
    ensures
        entries_map(s).contains_key(coord_of(s[i])),
        entries_map(s)[coord_of(s[i])] == s[i].value@,
    decreases s.len(),
{
    if i < s.len() - 1 {
        assert(distinct_coords(s.drop_last())) by {
            assert(forall|p: int, q: int|
                0 <= p < q < s.len() - 1 ==> coord_of(#[trigger] s.drop_last()[p]) != coord_of(
                    #[trigger] s.drop_last()[q],
                ));
        }
        lemma_entries_map_at(s.drop_last(), i);
        assert(coord_of(s[i]) != coord_of(s.last()));
    }
}

/// Replacing the slot that carries a coordinate pair updates the map at
/// exactly that pair.
proof fn lemma_entries_map_update(s: Seq<StateEntry>, i: int, e: StateEntry)
    requires
        distinct_coords(s),
        0 <= i < s.len(),
        coord_of(e) == coord_of(s[i]),
    ensures
        distinct_coords(s.update(i, e)),
        entries_map(s.update(i, e)) == entries_map(s).insert(coord_of(e), e.value@),
    decreases s.len(),
{
    let t = s.update(i, e);
    assert(forall|p: int| 0 <= p < s.len() && p != i ==> coord_of(#[trigger] t[p]) == coord_of(s[p]));
    if i == s.len() - 1 {
        assert(t.drop_last() =~= s.drop_last());
        assert(entries_map(t) =~= entries_map(s).insert(coord_of(e), e.value@));
    } else {
        assert(distinct_coords(s.drop_last())) by {
            assert(forall|p: int, q: int|
                0 <= p < q < s.len() - 1 ==> coord_of(#[trigger] s.drop_last()[p]) != coord_of(
                    #[trigger] s.drop_last()[q],
                ));
        }
        lemma_entries_map_update(s.drop_last(), i, e);
        assert(t.drop_last() =~= s.drop_last().update(i, e));
        assert(t.last() == s.last());
        assert(coord_of(e) != coord_of(s.last()));
        assert(entries_map(t) =~= entries_map(s).insert(coord_of(e), e.value@));
    }
}

/// The generic, schemaless key-value store owned by the host. Its abstract
/// value is the map from coordinate pairs to the bytes stored under them.
pub struct ScState {
    entries: Vec<StateEntry>,
}

impl View for ScState {
    type V = Map<(i32, i32), Seq<u8>>;

    closed spec fn view(&self) -> Map<(i32, i32), Seq<u8>> {
        entries_map(self.entries@)
    }
}

impl ScState {
    /// Internal well-formedness: a coordinate pair names at most one slot,
    /// so the slot a scan finds is the one the map speaks of.
    pub closed spec fn inv(&self) -> bool {
        distinct_coords(self.entries@)
    }

    /// An empty store, holding no coordinate pair at all.
    pub fn new() -> (r: ScState)
        ensures
            r.inv(),
            r@ == Map::<(i32, i32), Seq<u8>>::empty(),
    {
        ScState { entries: Vec::new() }
    }

    /// The index of the slot carrying the pair, if any slot does.
    fn find_index(&self, obj_id: i32, key_id: i32) -> (r: Option<usize>)
        ensures
            match r {
                Some(i) => i < self.entries@.len() && coord_of(self.entries@[i as int]) == (
                    obj_id,
                    key_id,
                ),
                None => forall|j: int|
                    0 <= j < self.entries@.len() ==> coord_of(self.entries@[j]) != (obj_id, key_id),
            },
    {
        let n = self.entries.len();
        let mut i: usize = 0;
        while i < n
            invariant
                i <= n,
                n == self.entries@.len(),
                forall|j: int| 0 <= j < i ==> coord_of(self.entries@[j]) != (obj_id, key_id),
            decreases n - i,
        {
            let e = &self.entries[i];
            if e.obj_id == obj_id && e.key_id == key_id {
                return Some(i);
            }
            i = i + 1;
        }
        None
    }

    /// Whether any bytes are stored under the pair. Lets a caller tell a
    /// missing key from a key holding an empty value.
    pub fn has(&self, obj_id: i32, key_id: i32) -> (r: bool)
        requires
            self.inv(),
        ensures
            r == self@.contains_key((obj_id, key_id)),
    {
        let r = self.find_index(obj_id, key_id);
        proof {
            lemma_entries_map_domain(self.entries@, (obj_id, key_id));
        }
        r.is_some()
    }

    /// The bytes stored under the pair, or `None` when the pair holds
    /// nothing.
    pub fn get(&self, obj_id: i32, key_id: i32) -> (r: Option<Vec<u8>>)
        requires
            self.inv(),
        ensures
            match r {
                Some(v) => self@.contains_key((obj_id, key_id)) && v@ == self@[(obj_id, key_id)],
                None => !self@.contains_key((obj_id, key_id)),
            },
    {
        proof {
            lemma_entries_map_domain(self.entries@, (obj_id, key_id));
        }
        match self.find_index(obj_id, key_id) {
            Some(i) => {
                proof {
                    lemma_entries_map_at(self.entries@, i as int);
                }
                let v = self.entries[i].value.clone();
                proof {
                    assert(v@ =~= self.entries@[i as int].value@);
                }
                Some(v)
            },
            None => None,
        }
    }

    /// Stores the bytes under the pair, replacing whatever was there. The
    /// write is visible to every later read of the same pair.
    pub fn set(&mut self, obj_id: i32, key_id: i32, value: Vec<u8>)
        requires
            old(self).inv(),
        ensures
            final(self).inv(),
            final(self)@ == old(self)@.insert((obj_id, key_id), value@),
    {
        let ghost s0 = self.entries@;
        match self.find_index(obj_id, key_id) {
            Some(i) => {
                let e = StateEntry { obj_id, key_id, value };
                proof {
                    lemma_entries_map_update(s0, i as int, e);
                }
                self.entries[i] = e;
            },
            None => {
                let e = StateEntry { obj_id, key_id, value };
                self.entries.push(e);
                proof {
                    assert(self.entries@.drop_last() =~= s0);
                    assert(distinct_coords(self.entries@));
                    assert(entries_map(self.entries@) == entries_map(s0).insert(
                        (obj_id, key_id),
                        e.value@,
                    ));
                }
            },
        }
    }
}

} // verus!
