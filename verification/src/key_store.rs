//! The key pairs a signer holds, one at most under each identity.

use crate::key_pair::Ed25519KeyPairGenerator;
use vstd::prelude::*;

verus! {

/// A key pair filed under an identity.
struct KeyEntry {
    id: String,
    key_pair: Ed25519KeyPairGenerator,
}

/// A mapping from identities to key pairs.
///
/// No identity occurs twice: filing a key pair under an identity that
/// already has one replaces it.
pub struct KeyStore {
    entries: Vec<KeyEntry>,
}

impl View for KeyStore {
    type V = Map<Seq<char>, Seq<u8>>;

    /// The mapping from each identity on file to the PKCS#8 document of
    /// its key pair.
    closed spec fn view(&self) -> Map<Seq<char>, Seq<u8>> {
        Map::new(
            |id: Seq<char>| exists|i: int| self.filed_at(id, i),
            |id: Seq<char>| self.entries@[self.position(id)].key_pair@,
        )
    }
}

impl KeyStore {
    #[verifier::type_invariant]
    spec fn distinct_ids(self) -> bool {
        forall|i: int, j: int|
            0 <= i < j < self.entries@.len() ==> #[trigger] self.entries@[i].id@
                != #[trigger] self.entries@[j].id@
    }

    /// Whether the entry at index `i` is filed under `id`.
    spec fn filed_at(self, id: Seq<char>, i: int) -> bool {
        0 <= i < self.entries@.len() && self.entries@[i].id@ == id
    }

    /// An index at which `id` is filed, if there is one.
    spec fn position(self, id: Seq<char>) -> int {
        choose|i: int| self.filed_at(id, i)
    }

    /// With distinct identities, the entry found under an identity is the
    /// one the mapping shows.
    proof fn lemma_filed_entry(self, id: Seq<char>, i: int)
        requires
            self.distinct_ids(),
            self.filed_at(id, i),
        ensures
            self@.contains_key(id),
            self@[id] == self.entries@[i].key_pair@,
            self.position(id) == i,
    {
        let p = self.position(id);
        assert(self.filed_at(id, p));
        if p < i {
            assert(self.entries@[p].id@ != self.entries@[i].id@);
        } else if i < p {
            assert(self.entries@[i].id@ != self.entries@[p].id@);
        }
    }

    /// The empty store.
    pub fn new() -> (store: KeyStore)
        ensures
            store@ == Map::<Seq<char>, Seq<u8>>::empty(),
    {
        let store = KeyStore { entries: Vec::new() };
        assert(store@ =~= Map::<Seq<char>, Seq<u8>>::empty());
        store
    }

    /// The index of the entry filed under `id`.
    fn find(&self, id: &String) -> (found: Option<usize>)
        ensures
            match found {
                Some(i) => self.filed_at(id@, i as int),
                None => forall|i: int| !self.filed_at(id@, i),
            },
    {
        let mut i: usize = 0;
        while i < self.entries.len()
            invariant
                i <= self.entries@.len(),
                forall|k: int| 0 <= k < i ==> !self.filed_at(id@, k),
            decreases self.entries@.len() - i,
        {
            if self.entries[i].id == *id {
                return Some(i);
            }
            i += 1;
        }
        None
    }

    /// Files `key_pair` under `id`, in place of any key pair filed there.
    pub fn insert(&mut self, id: String, key_pair: Ed25519KeyPairGenerator)
        ensures
            final(self)@ == old(self)@.insert(id@, key_pair@),
    {
        proof {
            use_type_invariant(&*self);
        }
        let ghost before = *self;
        let ghost new_id = id@;
        let ghost new_key = key_pair@;
        let found = self.find(&id);
        let ghost at: int = match found {
            Some(i) => i as int,
            None => before.entries@.len() as int,
        };
        let entry = KeyEntry { id, key_pair };
        let mut entries: Vec<KeyEntry> = Vec::new();
        std::mem::swap(&mut self.entries, &mut entries);
        match found {
            Some(i) => {
                entries.set(i, entry);
            },
            None => {
                entries.push(entry);
            },
        }
        proof {
            assert forall|a: int, b: int| 0 <= a < b < entries@.len() implies entries@[a].id@
                != entries@[b].id@ by {
                if a != at && b != at {
                    assert(before.entries@[a].id@ != before.entries@[b].id@);
                } else if a == at {
                    assert(before.filed_at(entries@[b].id@, b));
                } else {
                    assert(before.filed_at(entries@[a].id@, a));
                }
            }
        }
        self.entries = entries;
        proof {
            assert(self.filed_at(new_id, at));
            let expected = before@.insert(new_id, new_key);
            assert forall|k: Seq<char>| self@.contains_key(k) <==> expected.contains_key(k) by {
                if self@.contains_key(k) {
                    let p = choose|p: int| self.filed_at(k, p);
                    if p != at {
                        assert(before.filed_at(k, p));
                    }
                }
                if expected.contains_key(k) && k != new_id {
                    let p = choose|p: int| before.filed_at(k, p);
                    assert(self.filed_at(k, p));
                }
            }
            assert forall|k: Seq<char>| self@.contains_key(k) implies self@[k] == expected[k] by {
                let p = choose|p: int| self.filed_at(k, p);
                self.lemma_filed_entry(k, p);
                if p != at {
                    assert(before.filed_at(k, p));
                    before.lemma_filed_entry(k, p);
                } else {
                    self.lemma_filed_entry(new_id, at);
                }
            }
            assert(self@ =~= expected);
        }
    }

    /// The key pair filed under `id`, if there is one.
    pub fn get(&self, id: &String) -> (found: Option<&Ed25519KeyPairGenerator>)
        ensures
            match found {
                Some(key_pair) => self@.contains_key(id@) && self@[id@] == key_pair@,
                None => !self@.contains_key(id@),
            },
    {
        proof {
            use_type_invariant(self);
        }
        match self.find(id) {
            Some(i) => {
                proof {
                    self.lemma_filed_entry(id@, i as int);
                }
                Some(&self.entries[i].key_pair)
            },
            None => None,
        }
    }
}

} // verus!
