//! A collection mapping key identifiers to live key buffers, with insert,
//! lookup, and an atomic remove-and-destroy that detaches an entry before the
//! (slower) wipe runs outside the structural mutation.

use vstd::prelude::*;

use crate::KeyError;
use crate::buffer::VolatileKey;

verus! {

/// No two entries share an identifier.
spec fn ids_unique(s: Seq<VolatileKey>) -> bool {
    forall|i: int, j: int| 0 <= i < j < s.len() ==> s[i]@.id != s[j]@.id
}

/// Some entry carries identifier `id`.
spec fn has_id(s: Seq<VolatileKey>, id: Seq<char>) -> bool {
    exists|i: int| 0 <= i < s.len() && s[i]@.id == id
}

/// Every entry still holds live, unwiped material.
spec fn all_live(s: Seq<VolatileKey>) -> bool {
    forall|i: int| 0 <= i < s.len() ==> !s[i]@.wiped
}

/// The mapping from identifier to key material that a sequence of entries
/// represents.
spec fn map_of(s: Seq<VolatileKey>) -> Map<Seq<char>, Seq<u8>>
    decreases s.len(),
{
    if s.len() == 0 {
        Map::empty()
    } else {
        map_of(s.drop_last()).insert(s.last()@.id, s.last()@.material)
    }
}

proof fn lemma_map_of_domain(s: Seq<VolatileKey>)
    ensures
        forall|id: Seq<char>| #[trigger] map_of(s).contains_key(id) <==> has_id(s, id),
    decreases s.len(),
{
    if s.len() > 0 {
        lemma_map_of_domain(s.drop_last());
        assert forall|id: Seq<char>| #[trigger] map_of(s).contains_key(id) implies has_id(
            s,
            id,
        ) by {
            if id == s.last()@.id {
                assert(s[s.len() - 1]@.id == id);
            } else {
                assert(map_of(s.drop_last()).contains_key(id));
                assert(has_id(s.drop_last(), id));
                let i = choose|i: int| 0 <= i < s.drop_last().len() && s.drop_last()[i]@.id == id;
                assert(s.drop_last()[i] == s[i]);
                assert(s[i]@.id == id);
            }
        }
        assert forall|id: Seq<char>| has_id(s, id) implies #[trigger] map_of(s).contains_key(
            id,
        ) by {
            let i = choose|i: int| 0 <= i < s.len() && s[i]@.id == id;
            if i < s.len() - 1 {
                assert(s.drop_last()[i]@.id == id);
                assert(has_id(s.drop_last(), id));
                assert(map_of(s.drop_last()).contains_key(id));
            } else {
                assert(id == s.last()@.id);
            }
        }
    }
}

proof fn lemma_map_of_index(s: Seq<VolatileKey>, i: int)
    requires
        ids_unique(s),
        0 <= i < s.len(),
    ensures
        map_of(s).contains_key(s[i]@.id),
        map_of(s)[s[i]@.id] == s[i]@.material,
    decreases s.len(),
{
    if i == s.len() - 1 {
    } else {
        assert(s[i]@.id != s.last()@.id);
        assert(s.drop_last()[i]@.id == s[i]@.id);
        lemma_map_of_index(s.drop_last(), i);
    }
}

proof fn lemma_map_of_push(s: Seq<VolatileKey>, k: VolatileKey)
    ensures
        map_of(s.push(k)) == map_of(s).insert(k@.id, k@.material),
{
    assert(s.push(k).drop_last() =~= s);
    assert(s.push(k).last() == k);
}

proof fn lemma_map_of_remove(s: Seq<VolatileKey>, i: int)
    requires
        ids_unique(s),
        0 <= i < s.len(),
    ensures
        map_of(s.remove(i)) == map_of(s).remove(s[i]@.id),
    decreases s.len(),
{
    s.remove_ensures(i);
    if i == s.len() - 1 {
        assert(s.remove(i) =~= s.drop_last());
        lemma_map_of_domain(s.drop_last());
        assert(forall|j: int| 0 <= j < s.len() - 1 ==> s.drop_last()[j]@.id != s[i]@.id);
        assert(!map_of(s.drop_last()).contains_key(s[i]@.id));
        assert(map_of(s.drop_last()).remove(s[i]@.id) =~= map_of(s.drop_last()));
    } else {
        let dl = s.drop_last();
        assert(s.remove(i).drop_last() =~= dl.remove(i));
        assert(s.remove(i).last() == s.last());
        lemma_map_of_remove(dl, i);
        assert(dl[i] == s[i]);
        assert(s[i]@.id != s.last()@.id);
        assert(map_of(dl).remove(s[i]@.id).insert(s.last()@.id, s.last()@.material) =~= map_of(
            dl,
        ).insert(s.last()@.id, s.last()@.material).remove(s[i]@.id));
    }
}

proof fn lemma_unique_remove(s: Seq<VolatileKey>, i: int)
    requires
        ids_unique(s),
        0 <= i < s.len(),
    ensures
        ids_unique(s.remove(i)),
{
    s.remove_ensures(i);
    assert forall|a: int, b: int| 0 <= a < b < s.remove(i).len() implies s.remove(i)[a]@.id
        != s.remove(i)[b]@.id by {
        let a0: int = if a < i { a } else { a + 1 };
        let b0: int = if b < i { b } else { b + 1 };
        assert(s.remove(i)[a] == s[a0]);
        assert(s.remove(i)[b] == s[b0]);
    }
}

/// A registry of live ephemeral keys for one region, keyed by identifier.
/// The structural mutations (`insert`, `remove_and_destroy`) are the only
/// operations that touch the mapping; a caller serialising them (for example
/// behind a mutex) obtains linearizable destruction per id.
pub struct KeyRegistry {
    region: String,
    entries: Vec<VolatileKey>,
}

impl KeyRegistry {
    /// Identifiers are unique and every held buffer is still live.
    pub closed spec fn wf(&self) -> bool {
        ids_unique(self.entries@) && all_live(self.entries@)
    }

    /// The mapping from key identifier to key material that the registry holds.
    pub closed spec fn contents(&self) -> Map<Seq<char>, Seq<u8>> {
        map_of(self.entries@)
    }

    pub closed spec fn spec_region(&self) -> Seq<char> {
        self.region@
    }

    /// An empty registry for `region`.
    pub fn new(region: String) -> (r: KeyRegistry)
        ensures
            r.wf(),
            r.spec_region() == region@,
            r.contents() == Map::<Seq<char>, Seq<u8>>::empty(),
    {
        KeyRegistry { region, entries: Vec::new() }
    }

    pub fn region(&self) -> (r: &String)
        ensures
            r@ == self.spec_region(),
    {
        &self.region
    }

    /// Index of the entry carrying `key_id`, if any.
    fn position_of(&self, key_id: &String) -> (r: Option<usize>)
        ensures
            match r {
                Some(i) => i < self.entries@.len() && self.entries@[i as int]@.id == key_id@,
                None => !has_id(self.entries@, key_id@),
            },
    {
        let mut i: usize = 0;
        while i < self.entries.len()
            invariant
                i <= self.entries@.len(),
                forall|j: int| 0 <= j < i ==> self.entries@[j]@.id != key_id@,
            decreases self.entries@.len() - i,
        {
            if *self.entries[i].id() == *key_id {
                return Some(i);
            }
            i += 1;
        }
        None
    }

    /// Whether `key_id` is present.
    pub fn contains(&self, key_id: &str) -> (b: bool)
        requires
            self.wf(),
        ensures
            b == self.contents().contains_key(key_id@),
    {
        proof {
            lemma_map_of_domain(self.entries@);
        }
        let key: String = key_id.to_owned();
        self.position_of(&key).is_some()
    }

    /// The live buffer under `key_id`, if any.
    pub fn lookup(&self, key_id: &str) -> (r: Option<&VolatileKey>)
        requires
            self.wf(),
        ensures
            match r {
                Some(k) => {
                    &&& self.contents().contains_key(key_id@)
                    &&& k@.id == key_id@
                    &&& k@.material == self.contents()[key_id@]
                    &&& !k@.wiped
                },
                None => !self.contents().contains_key(key_id@),
            },
    {
        proof {
            lemma_map_of_domain(self.entries@);
        }
        let key: String = key_id.to_owned();
        match self.position_of(&key) {
            Some(i) => {
                proof {
                    lemma_map_of_index(self.entries@, i as int);
                }
                Some(&self.entries[i])
            },
            None => None,
        }
    }

    /// Stores fresh key material under `id`; rejected as `DuplicateKey`, with
    /// no side effect, when `id` is already present.
    pub fn insert(&mut self, id: String, material: Vec<u8>) -> (r: Result<(), KeyError>)
        requires
            old(self).wf(),
        ensures
            final(self).wf(),
            final(self).spec_region() == old(self).spec_region(),
            r is Ok <==> !old(self).contents().contains_key(id@),
            r is Ok ==> final(self).contents() == old(self).contents().insert(id@, material@),
            r is Err ==> *final(self) == *old(self) && r == Err::<(), KeyError>(
                KeyError::DuplicateKey,
            ),
    {
        proof {
            lemma_map_of_domain(self.entries@);
        }
        if self.position_of(&id).is_some() {
            return Err(KeyError::DuplicateKey);
        }
        let k = VolatileKey::new(id, material);
        let ghost s0 = self.entries@;
        let ghost gk = k;
        self.entries.push(k);
        proof {
            lemma_map_of_push(s0, gk);
            assert forall|a: int, b: int|
                0 <= a < b < self.entries@.len() implies self.entries@[a]@.id
                != self.entries@[b]@.id by {
                if b == s0.len() {
                    assert(s0[a]@.id != gk@.id);
                }
            }
        }
        Ok(())
    }

    /// Atomic detach: under exclusive access to the mapping, removes the entry
    /// for `key_id` and hands the still-live buffer to the caller for wiping.
    /// An absent id is a normal outcome (the key may already be destroyed) and
    /// leaves the registry unchanged.
    pub fn remove_and_destroy(&mut self, key_id: &str) -> (r: Option<VolatileKey>)
        requires
            old(self).wf(),
        ensures
            final(self).wf(),
            final(self).spec_region() == old(self).spec_region(),
            final(self).contents() == old(self).contents().remove(key_id@),
            match r {
                Some(k) => {
                    &&& old(self).contents().contains_key(key_id@)
                    &&& k@.id == key_id@
                    &&& k@.material == old(self).contents()[key_id@]
                    &&& !k@.wiped
                },
                None => {
                    &&& !old(self).contents().contains_key(key_id@)
                    &&& *final(self) == *old(self)
                },
            },
    {
        proof {
            lemma_map_of_domain(self.entries@);
        }
        let key: String = key_id.to_owned();
        match self.position_of(&key) {
            Some(i) => {
                proof {
                    lemma_map_of_index(self.entries@, i as int);
                    lemma_map_of_remove(self.entries@, i as int);
                    lemma_unique_remove(self.entries@, i as int);
                    self.entries@.remove_ensures(i as int);
                }
                let k = self.entries.remove(i);
                Some(k)
            },
            None => {
                proof {
                    assert(map_of(self.entries@).remove(key_id@) =~= map_of(self.entries@));
                }
                None
            },
        }
    }
}

} // verus!
