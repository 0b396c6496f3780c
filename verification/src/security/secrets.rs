//! A store of named secrets whose values are wiped when they leave it.

use vstd::prelude::*;
use crate::text::str_eq;

verus! {

/// Wipes a secret's text in place.
///
/// Trusted: calls `zeroize::Zeroize::zeroize` on the string, which
/// overwrites its bytes (and spare capacity) with zeros and then clears it,
/// so it is left empty.
#[verifier::external_body]
fn wipe(s: &mut String)
    ensures
        final(s)@.len() == 0,
{
    zeroize::Zeroize::zeroize(s);
}

/// A store as a map from name to value.
pub open spec fn secret_map(v: Seq<(String, String)>) -> Map<Seq<char>, Seq<char>> {
    Map::new(
        |k: Seq<char>| exists|i: int| 0 <= i < v.len() && v[i].0@ == k,
        |k: Seq<char>| v[choose|i: int| 0 <= i < v.len() && v[i].0@ == k].1@,
    )
}

/// Secure secret store. Each name holds one value; values that are
/// replaced, removed from the store's keeping or cleared are wiped.
pub struct SecretStore {
    secrets: Vec<(String, String)>,
}

impl SecretStore {
    /// No name occurs twice.
    pub closed spec fn wf(&self) -> bool {
        forall|i: int, j: int| 0 <= i < self.secrets@.len() && 0 <= j < self.secrets@.len() && i != j
            ==> self.secrets@[i].0@ != self.secrets@[j].0@
    }

    /// The stored secrets by name.
    pub closed spec fn view(&self) -> Map<Seq<char>, Seq<char>> {
        secret_map(self.secrets@)
    }

    /// An empty store.
    pub fn new() -> (r: Self)
        ensures
            r.wf(),
            r.view() == Map::<Seq<char>, Seq<char>>::empty(),
    {
        let r = SecretStore { secrets: Vec::new() };
        assert(r.view() =~= Map::<Seq<char>, Seq<char>>::empty());
        r
    }

    fn position(&self, key: &str) -> (r: Option<usize>)
        ensures
            r matches Some(i) ==> i < self.secrets@.len() && self.secrets@[i as int].0@ == key@,
            r is None ==> forall|i: int| 0 <= i < self.secrets@.len() ==> self.secrets@[i].0@ != key@,
    {
        let mut i: usize = 0;
        while i < self.secrets.len()
            invariant
                i <= self.secrets@.len(),
                forall|k: int| 0 <= k < i ==> self.secrets@[k].0@ != key@,
            decreases self.secrets@.len() - i,
        {
            if str_eq(self.secrets[i].0.as_str(), key) {
                return Some(i);
            }
            i += 1;
        }
        None
    }

    /// Stores a secret under `key`; a value already there is wiped and
    /// replaced.
    pub fn store(&mut self, key: &str, value: &str)
        requires
            old(self).wf(),
        ensures
            final(self).wf(),
            final(self).view() == old(self).view().insert(key@, value@),
    {
        let ghost before = self.secrets@;
        match self.position(key) {
            Some(i) => {
                let (name, mut old_value) = self.secrets.remove(i);
                wipe(&mut old_value);
                self.secrets.insert(i, (name, value.to_string()));
                proof {
                    let after = self.secrets@;
                    assert(after =~= before.update(i as int, (before[i as int].0, after[i as int].1)));
                    assert forall|k: Seq<char>| secret_map(after).dom().contains(k) <==> #[trigger] old(self).view().insert(key@, value@).dom().contains(k) by {
                        if k != key@ {
                            if secret_map(after).dom().contains(k) {
                                let j = choose|j: int| 0 <= j < after.len() && after[j].0@ == k;
                                assert(before[j].0@ == k);
                            }
                            if old(self).view().dom().contains(k) {
                                let j = choose|j: int| 0 <= j < before.len() && before[j].0@ == k;
                                assert(after[j].0@ == k);
                            }
                        } else {
                            assert(after[i as int].0@ == k);
                        }
                    }
                    assert forall|k: Seq<char>| #[trigger] secret_map(after).dom().contains(k) implies secret_map(after)[k] == old(self).view().insert(key@, value@)[k] by {
                        let j = choose|j: int| 0 <= j < after.len() && after[j].0@ == k;
                        if k != key@ {
                            assert(before[j].0@ == k);
                            let j2 = choose|j2: int| 0 <= j2 < before.len() && before[j2].0@ == k;
                            assert(j == j2);
                        } else {
                            assert(j == i);
                        }
                    }
                    assert(secret_map(after) =~= old(self).view().insert(key@, value@));
                }
            },
            None => {
                self.secrets.push((key.to_string(), value.to_string()));
                proof {
                    let after = self.secrets@;
                    assert forall|k: Seq<char>| secret_map(after).dom().contains(k) <==> #[trigger] old(self).view().insert(key@, value@).dom().contains(k) by {
                        if k != key@ && secret_map(after).dom().contains(k) {
                            let j = choose|j: int| 0 <= j < after.len() && after[j].0@ == k;
                            assert(j < before.len());
                            assert(before[j].0@ == k);
                        }
                        if old(self).view().dom().contains(k) {
                            let j = choose|j: int| 0 <= j < before.len() && before[j].0@ == k;
                            assert(after[j].0@ == k);
                        }
                        if k == key@ {
                            assert(after[before.len() as int].0@ == k);
                        }
                    }
                    assert forall|k: Seq<char>| #[trigger] secret_map(after).dom().contains(k) implies secret_map(after)[k] == old(self).view().insert(key@, value@)[k] by {
                        let j = choose|j: int| 0 <= j < after.len() && after[j].0@ == k;
                        if k != key@ {
                            assert(j < before.len());
                            let j2 = choose|j2: int| 0 <= j2 < before.len() && before[j2].0@ == k;
                            assert(after[j2].0@ == k);
                            assert(j == j2);
                        } else {
                            assert(j == before.len());
                        }
                    }
                    assert(secret_map(after) =~= old(self).view().insert(key@, value@));
                }
            },
        }
    }

    /// A copy of the secret stored under `key`, if any.
    pub fn get(&self, key: &str) -> (r: Option<String>)
        requires
            self.wf(),
        ensures
            match r {
                Some(v) => self.view().contains_key(key@) && self.view()[key@] == v@,
                None => !self.view().contains_key(key@),
            },
    {
        match self.position(key) {
            Some(i) => {
                proof {
                    let j = choose|j: int| 0 <= j < self.secrets@.len() && self.secrets@[j].0@ == key@;
                    assert(j == i);
                }
                Some(self.secrets[i].1.clone())
            },
            None => None,
        }
    }

    /// Whether a secret is stored under `key`.
    pub fn has(&self, key: &str) -> (r: bool)
        ensures
            r == self.view().contains_key(key@),
    {
        self.position(key).is_some()
    }

    /// Takes the secret stored under `key` out of the store, handing it to
    /// the caller.
    pub fn remove(&mut self, key: &str) -> (r: Option<String>)
        requires
            old(self).wf(),
        ensures
            final(self).wf(),
            final(self).view() == old(self).view().remove(key@),
            match r {
                Some(v) => old(self).view().contains_key(key@) && old(self).view()[key@] == v@,
                None => !old(self).view().contains_key(key@),
            },
    {
        let ghost before = self.secrets@;
        match self.position(key) {
            Some(i) => {
                proof {
                    let j = choose|j: int| 0 <= j < before.len() && before[j].0@ == key@;
                    assert(j == i);
                }
                let (_, v) = self.secrets.remove(i);
                proof {
                    let after = self.secrets@;
                    assert(after =~= before.remove(i as int));
                    assert forall|a: int, b: int| 0 <= a < after.len() && 0 <= b < after.len() && a != b implies after[a].0@ != after[b].0@ by {
                        let a2 = if a < i { a } else { a + 1 };
                        let b2 = if b < i { b } else { b + 1 };
                        assert(after[a] == before[a2]);
                        assert(after[b] == before[b2]);
                    }
                    assert forall|k: Seq<char>| secret_map(after).dom().contains(k) <==> #[trigger] old(self).view().remove(key@).dom().contains(k) by {
                        if secret_map(after).dom().contains(k) {
                            let j = choose|j: int| 0 <= j < after.len() && after[j].0@ == k;
                            let j2 = if j < i { j } else { j + 1 };
                            assert(after[j] == before[j2]);
                        }
                        if old(self).view().remove(key@).dom().contains(k) {
                            let j = choose|j: int| 0 <= j < before.len() && before[j].0@ == k;
                            assert(j != i);
                            let j2 = if j < i { j } else { j - 1 };
                            assert(after[j2] == before[j]);
                        }
                    }
                    assert forall|k: Seq<char>| #[trigger] secret_map(after).dom().contains(k) implies secret_map(after)[k] == old(self).view().remove(key@)[k] by {
                        let j = choose|j: int| 0 <= j < after.len() && after[j].0@ == k;
                        let j2 = if j < i { j } else { j + 1 };
                        assert(after[j] == before[j2]);
                        let j3 = choose|j3: int| 0 <= j3 < before.len() && before[j3].0@ == k;
                        assert(j3 == j2);
                    }
                    assert(secret_map(after) =~= old(self).view().remove(key@));
                }
                Some(v)
            },
            None => {
                assert(old(self).view().remove(key@) =~= old(self).view());
                None
            },
        }
    }

    /// Wipes every secret and empties the store.
    pub fn clear_all(&mut self)
        ensures
            final(self).wf(),
            final(self).view() == Map::<Seq<char>, Seq<char>>::empty(),
    {
        while self.secrets.len() > 0
            decreases self.secrets@.len(),
        {
            let (_, mut value) = self.secrets.pop().unwrap();
            wipe(&mut value);
        }
        assert(self.view() =~= Map::<Seq<char>, Seq<char>>::empty());
    }

    /// How many secrets are stored.
    pub fn count(&self) -> (r: usize)
        requires
            self.wf(),
        ensures
            r == self.view().len(),
    {
        proof {
            lemma_map_len(self.secrets@);
        }
        self.secrets.len()
    }
}

proof fn lemma_map_len(v: Seq<(String, String)>)
    requires
        forall|i: int, j: int| 0 <= i < v.len() && 0 <= j < v.len() && i != j ==> v[i].0@ != v[j].0@,
    ensures
        secret_map(v).dom().finite(),
        secret_map(v).len() == v.len(),
    decreases v.len(),
{
    if v.len() == 0 {
        assert(secret_map(v).dom() =~= Set::<Seq<char>>::empty());
    } else {
        let t = v.drop_last();
        lemma_map_len(t);
        let k = v.last().0@;
        assert(secret_map(v).dom() =~= secret_map(t).dom().insert(k)) by {
            assert forall|x: Seq<char>| secret_map(v).dom().contains(x) implies #[trigger] secret_map(t).dom().insert(k).contains(x) by {
                let j = choose|j: int| 0 <= j < v.len() && v[j].0@ == x;
                if j < t.len() {
                    assert(t[j].0@ == x);
                }
            }
            assert forall|x: Seq<char>| secret_map(t).dom().insert(k).contains(x) implies #[trigger] secret_map(v).dom().contains(x) by {
                if x != k {
                    let j = choose|j: int| 0 <= j < t.len() && t[j].0@ == x;
                    assert(v[j].0@ == x);
                } else {
                    assert(v[v.len() - 1].0@ == x);
                }
            }
        }
        assert(!secret_map(t).dom().contains(k)) by {
            if secret_map(t).dom().contains(k) {
                let j = choose|j: int| 0 <= j < t.len() && t[j].0@ == k;
                assert(v[j].0@ == v[v.len() - 1].0@);
            }
        }
    }
}

impl Default for SecretStore {
    /// An empty store.
    fn default() -> (r: Self)
        ensures
            r.wf(),
            r.view() == Map::<Seq<char>, Seq<char>>::empty(),
    {
        SecretStore::new()
    }
}

/// Law: a stored secret reads back as stored, and clearing leaves nothing
/// to read.
pub proof fn law_store_then_get(m: Map<Seq<char>, Seq<char>>, key: Seq<char>, value: Seq<char>)
    ensures
        m.insert(key, value).contains_key(key),
        m.insert(key, value)[key] == value,
        !m.insert(key, value).remove(key).contains_key(key),
{
}

} // verus!
