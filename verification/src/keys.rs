//! Interning of field names into key ids.
//!
//! A key id names a field within a state container. It is derived once from
//! a human-readable name, and the table is append-only: within one table the
//! same name always yields the same key id, and a key id is never reused for
//! a different name.
//!
//! The root-contract schema fixes five parameter names — `"d"` for a
//! description, `"n"` for a contract name, `"ph"` for a program hash, `"dp"`
//! for a deployer and `"hn"` for an hname — interned in that order by
//! [`core_schema_keys`], so their key ids are the `KEY_` constants below.

use vstd::prelude::*;
use vstd::utf8::{encode_utf8, is_ascii_chars, is_ascii_chars_encode_utf8};

use crate::codec::{bytes_eq, string_to_bytes};

verus! {

/// Key id of the description parameter, named `"d"`.
pub const KEY_DESCRIPTION: i32 = 0;

/// Key id of the contract-name parameter, named `"n"`.
pub const KEY_NAME: i32 = 1;

/// Key id of the program-hash parameter, named `"ph"`.
pub const KEY_PROGRAM_HASH: i32 = 2;

/// Key id of the deployer parameter, named `"dp"`.
pub const KEY_DEPLOYER: i32 = 3;

/// Key id of the hname parameter, named `"hn"`.
pub const KEY_HNAME: i32 = 4;

/// An append-only interning table. The key id of a name is its position in
/// the table; the abstract value is the sequence of interned names, each as
/// its UTF-8 bytes.
pub struct KeyMap {
    names: Vec<Vec<u8>>,
}

impl View for KeyMap {
    type V = Seq<Seq<u8>>;

    closed spec fn view(&self) -> Seq<Seq<u8>> {
        Seq::new(self.names@.len(), |i: int| self.names@[i]@)
    }
}

impl KeyMap {
    /// No name stands in the table twice, so a name's key id is
    /// well-defined.
    pub open spec fn inv(&self) -> bool {
        forall|i: int, j: int| 0 <= i < j < self@.len() ==> self@[i] != self@[j]
    }

    /// An empty table.
    pub fn new() -> (r: KeyMap)
        ensures
            r.inv(),
            r@ == Seq::<Seq<u8>>::empty(),
    {
        let r = KeyMap { names: Vec::new() };
        proof {
            assert(r@ =~= Seq::<Seq<u8>>::empty());
        }
        r
    }

    /// The key id of a name: the position where the name stands in the
    /// table, appending it first when it is new. A known name leaves the
    /// table unchanged, so the same name always yields the same key id.
    pub fn key_id_of(&mut self, name: &str) -> (r: i32)
        requires
            old(self).inv(),
            old(self)@.len() < 0x7fff_ffff,
        ensures
            final(self).inv(),
            0 <= r < final(self)@.len(),
            final(self)@[r as int] == encode_utf8(name@),
            old(self)@.contains(encode_utf8(name@)) ==> final(self)@ == old(self)@,
            !old(self)@.contains(encode_utf8(name@)) ==> final(self)@ == old(self)@.push(
                encode_utf8(name@),
            ) && r == old(self)@.len(),
    {
        let target = string_to_bytes(name);
        let n = self.names.len();
        let mut i: usize = 0;
        while i < n
            invariant
                *self == *old(self),
                self.inv(),
                i <= n,
                n == self.names@.len(),
                n < 0x7fff_ffff,
                target@ == encode_utf8(name@),
                forall|j: int| 0 <= j < i ==> self@[j] != target@,
            decreases n - i,
        {
            if bytes_eq(&self.names[i], &target) {
                return i as i32;
            }
            i = i + 1;
        }
        proof {
            assert(!self@.contains(target@));
        }
        self.names.push(target);
        proof {
            assert(self@ =~= old(self)@.push(encode_utf8(name@)));
        }
        n as i32
    }
}

/// Law: within one table a key id belongs to one name and a name to one key
/// id — two positions holding the same name are the same position.
pub proof fn lemma_key_id_unique(m: KeyMap, i: int, j: int)
    requires
        m.inv(),
        0 <= i < m@.len(),
        0 <= j < m@.len(),
        m@[i] == m@[j],
    ensures
        i == j,
{
}

/// The interning table with the root-contract schema's five parameter
/// names, in the order that gives them the `KEY_` constants as key ids.
pub fn core_schema_keys() -> (r: KeyMap)
    ensures
        r.inv(),
        r@.len() == 5,
        r@[KEY_DESCRIPTION as int] == encode_utf8("d"@),
        r@[KEY_NAME as int] == encode_utf8("n"@),
        r@[KEY_PROGRAM_HASH as int] == encode_utf8("ph"@),
        r@[KEY_DEPLOYER as int] == encode_utf8("dp"@),
        r@[KEY_HNAME as int] == encode_utf8("hn"@),
{
    proof {
        reveal_strlit("d");
        reveal_strlit("n");
        reveal_strlit("ph");
        reveal_strlit("dp");
        reveal_strlit("hn");
        assert(is_ascii_chars("d"@));
        assert(is_ascii_chars("n"@));
        assert(is_ascii_chars("ph"@));
        assert(is_ascii_chars("dp"@));
        assert(is_ascii_chars("hn"@));
        is_ascii_chars_encode_utf8("d"@);
        is_ascii_chars_encode_utf8("n"@);
        is_ascii_chars_encode_utf8("ph"@);
        is_ascii_chars_encode_utf8("dp"@);
        is_ascii_chars_encode_utf8("hn"@);
        assert(encode_utf8("d"@).len() == 1 && encode_utf8("d"@)[0] == 100);
        assert(encode_utf8("n"@).len() == 1 && encode_utf8("n"@)[0] == 110);
        assert(encode_utf8("ph"@).len() == 2 && encode_utf8("ph"@)[0] == 112);
        assert(encode_utf8("dp"@).len() == 2 && encode_utf8("dp"@)[0] == 100);
        assert(encode_utf8("hn"@).len() == 2 && encode_utf8("hn"@)[0] == 104);
    }
    let mut m = KeyMap::new();
    m.key_id_of("d");
    m.key_id_of("n");
    m.key_id_of("ph");
    m.key_id_of("dp");
    m.key_id_of("hn");
    m
}

} // verus!
