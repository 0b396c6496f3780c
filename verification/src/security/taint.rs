//! Taint tracking: which data ids are marked as tainted.
//!
//! [`TaintSet`] is the set itself, with its contracts; a [`TaintTracker`] is
//! a handle to one set shared by all of its clones, kept behind a lock.

use vstd::prelude::*;
use vstd::rwlock::{RwLock, RwLockPredicate};
use std::sync::Arc;

verus! {

/// A set of data ids, kept in insertion order without repeats.
pub struct TaintSet {
    ids: Vec<String>,
}

impl TaintSet {
    /// The ids, in insertion order.
    pub closed spec fn ids_view(&self) -> Seq<Seq<char>> {
        self.ids@.map_values(|s: String| s@)
    }

    /// No id occurs twice.
    pub closed spec fn wf(&self) -> bool {
        self.ids_view().no_duplicates()
    }

    /// The set of tainted ids.
    pub closed spec fn view(&self) -> Set<Seq<char>> {
        self.ids_view().to_set()
    }

    /// An empty set.
    pub fn new() -> (r: Self)
        ensures
            r.wf(),
            r.view() == Set::<Seq<char>>::empty(),
    {
        let r = TaintSet { ids: Vec::new() };
        assert(r.ids_view() =~= Seq::<Seq<char>>::empty());
        assert(r.view() =~= Set::<Seq<char>>::empty());
        r
    }

    fn find(&self, id: &str) -> (r: Option<usize>)
        ensures
            match r {
                Some(i) => i < self.ids@.len() && self.ids_view()[i as int] == id@,
                None => !self.ids_view().contains(id@),
            },
    {
        let mut i: usize = 0;
        while i < self.ids.len()
            invariant
                i <= self.ids@.len(),
                forall|j: int| 0 <= j < i ==> self.ids_view()[j] != id@,
            decreases self.ids.len() - i,
        {
            if crate::text::str_eq(self.ids[i].as_str(), id) {
                return Some(i);
            }
            i += 1;
        }
        None
    }

    /// Marks `id` as tainted.
    pub fn insert(&mut self, id: &str)
        requires
            old(self).wf(),
        ensures
            final(self).wf(),
            final(self).view() == old(self).view().insert(id@),
    {
        if self.find(id).is_none() {
            let ghost before = self.ids_view();
            self.ids.push(id.to_string());
            assert(self.ids_view() =~= before.push(id@));
            assert(self.view() =~= before.to_set().insert(id@)) by {
                vstd::seq_lib::lemma_seq_contains_after_push(before, id@, id@);
                assert forall|x: Seq<char>| self.view().contains(x) <==> before.to_set().insert(id@).contains(x) by {
                    if x != id@ {
                        vstd::seq_lib::lemma_seq_contains_after_push(before, id@, x);
                    }
                }
            }
        } else {
            assert(self.view() =~= self.view().insert(id@));
        }
    }

    /// Removes the taint mark of `id`.
    pub fn remove(&mut self, id: &str)
        requires
            old(self).wf(),
        ensures
            final(self).wf(),
            final(self).view() == old(self).view().remove(id@),
    {
        match self.find(id) {
            None => {
                assert(self.view() =~= self.view().remove(id@));
            },
            Some(i) => {
                let ghost before = self.ids_view();
                self.ids.remove(i);
                assert(self.ids_view() =~= before.remove(i as int));
                assert(self.view() =~= before.to_set().remove(id@)) by {
                    assert forall|x: Seq<char>| self.view().contains(x) <==> before.to_set().remove(id@).contains(x) by {
                        let after = before.remove(i as int);
                        if after.contains(x) {
                            let k = choose|k: int| 0 <= k < after.len() && after[k] == x;
                            if k < i { assert(before[k] == x); } else { assert(before[k + 1] == x); }
                        }
                        if before.contains(x) && x != id@ {
                            let k = choose|k: int| 0 <= k < before.len() && before[k] == x;
                            if k < i { assert(after[k] == x); } else { assert(k != i); assert(after[k - 1] == x); }
                        }
                    }
                }
                assert forall|a: int, b: int| 0 <= a < b < self.ids_view().len()
                    implies self.ids_view()[a] != self.ids_view()[b] by {
                    let a2 = if a < i { a } else { a + 1 };
                    let b2 = if b < i { b } else { b + 1 };
                    assert(self.ids_view()[a] == before[a2]);
                    assert(self.ids_view()[b] == before[b2]);
                }
            },
        }
    }

    /// Whether `id` is tainted.
    pub fn contains(&self, id: &str) -> (r: bool)
        ensures
            r == self.view().contains(id@),
    {
        self.find(id).is_some()
    }

    /// The number of tainted ids.
    pub fn len(&self) -> (r: usize)
        requires
            self.wf(),
        ensures
            r == self.view().len(),
    {
        proof {
            self.ids_view().unique_seq_to_set();
        }
        self.ids.len()
    }

    /// Removes every taint mark.
    pub fn clear(&mut self)
        ensures
            final(self).wf(),
            final(self).view() == Set::<Seq<char>>::empty(),
    {
        self.ids = Vec::new();
        assert(self.ids_view() =~= Seq::<Seq<char>>::empty());
        assert(self.view() =~= Set::<Seq<char>>::empty());
    }

    /// The tainted ids, each once.
    pub fn to_vec(&self) -> (r: Vec<String>)
        requires
            self.wf(),
        ensures
            r@.map_values(|s: String| s@).no_duplicates(),
            r@.map_values(|s: String| s@).to_set() == self.view(),
    {
        let mut out: Vec<String> = Vec::new();
        let mut i: usize = 0;
        while i < self.ids.len()
            invariant
                i <= self.ids@.len(),
                out@.map_values(|s: String| s@) =~= self.ids_view().take(i as int),
            decreases self.ids.len() - i,
        {
            out.push(self.ids[i].clone());
            assert(self.ids_view().take(i + 1) =~= self.ids_view().take(i as int).push(self.ids@[i as int]@));
            i += 1;
        }
        assert(self.ids_view().take(self.ids@.len() as int) =~= self.ids_view());
        out
    }
}

/// Lock invariant of a shared taint set: it has no repeats.
pub struct TaintSetWf;

impl RwLockPredicate<TaintSet> for TaintSetWf {
    open spec fn inv(self, s: TaintSet) -> bool {
        s.wf()
    }
}

/// Tracks which data has been marked as tainted. Clones share one set.
#[derive(Clone)]
pub struct TaintTracker {
    tainted_ids: Arc<RwLock<TaintSet, TaintSetWf>>,
}

impl TaintTracker {
    /// The lock holds a well-formed set.
    pub closed spec fn wf(&self) -> bool {
        self.tainted_ids.pred() == TaintSetWf
    }

    /// Creates a tracker with no taint marks.
    pub fn new() -> (r: Self)
        ensures
            r.wf(),
    {
        let set = TaintSet::new();
        TaintTracker { tainted_ids: Arc::new(RwLock::new(set, Ghost(TaintSetWf))) }
    }

    /// Marks data as tainted. The lock cannot be poisoned, so this never fails.
    pub fn taint(&self, id: &str) -> (r: Result<(), String>)
        requires
            self.wf(),
        ensures
            r is Ok,
    {
        let (mut set, handle) = self.tainted_ids.acquire_write();
        set.insert(id);
        handle.release_write(set);
        Ok(())
    }

    /// Removes the taint mark of `id`.
    pub fn untaint(&self, id: &str) -> (r: Result<(), String>)
        requires
            self.wf(),
        ensures
            r is Ok,
    {
        let (mut set, handle) = self.tainted_ids.acquire_write();
        set.remove(id);
        handle.release_write(set);
        Ok(())
    }

    /// Whether `id` is currently tainted.
    pub fn is_tainted(&self, id: &str) -> (r: Result<bool, String>)
        requires
            self.wf(),
        ensures
            r is Ok,
    {
        let handle = self.tainted_ids.acquire_read();
        let found = handle.borrow().contains(id);
        handle.release_read();
        Ok(found)
    }

    /// The number of tainted ids.
    pub fn tainted_count(&self) -> (r: Result<usize, String>)
        requires
            self.wf(),
        ensures
            r is Ok,
    {
        let handle = self.tainted_ids.acquire_read();
        let n = handle.borrow().len();
        handle.release_read();
        Ok(n)
    }

    /// Removes every taint mark.
    pub fn clear(&self) -> (r: Result<(), String>)
        requires
            self.wf(),
        ensures
            r is Ok,
    {
        let (mut set, handle) = self.tainted_ids.acquire_write();
        set.clear();
        handle.release_write(set);
        Ok(())
    }

    /// All tainted ids, each once.
    pub fn get_tainted(&self) -> (r: Result<Vec<String>, String>)
        requires
            self.wf(),
        ensures
            r matches Ok(v) && v@.map_values(|s: String| s@).no_duplicates(),
    {
        let handle = self.tainted_ids.acquire_read();
        let v = handle.borrow().to_vec();
        handle.release_read();
        Ok(v)
    }
}

/// Law: after marking an id it is tainted; after unmarking it is not; other
/// ids keep their marks either way.
pub proof fn law_taint_then_query(s: Set<Seq<char>>, id: Seq<char>, other: Seq<char>)
    requires
        other != id,
    ensures
        s.insert(id).contains(id),
        !s.remove(id).contains(id),
        s.insert(id).contains(other) == s.contains(other),
        s.remove(id).contains(other) == s.contains(other),
{
}

impl Default for TaintTracker {
    /// A tracker with no taint marks.
    fn default() -> (r: Self)
        ensures
            r.wf(),
    {
        TaintTracker::new()
    }
}

} // verus!
