use vstd::prelude::*;
use crate::config::{ClientKey, KeyView};

verus! {

/// Configured clients, one per distinct key, built on first use and kept for
/// the cache's lifetime. Guard it with a lock to share it between threads:
/// holding the lock across `get_or_create` makes two racing callers with the
/// same key build one client between them.
pub struct ClientCache<C> {
    entries: Vec<(ClientKey, C)>,
    model: Ghost<Map<KeyView, C>>,
}

impl<C> ClientCache<C> {
    /// Keys are distinct and the model maps each key to its entry's client.
    pub closed spec fn wf(&self) -> bool {
        &&& forall|i: int, j: int|
            0 <= i < j < self.entries@.len() ==> self.entries@[i].0@ != self.entries@[j].0@
        &&& forall|i: int|
            #![trigger self.entries@[i]]
            0 <= i < self.entries@.len() ==> self.model@.contains_key(self.entries@[i].0@)
                && self.model@[self.entries@[i].0@] == self.entries@[i].1
        &&& forall|k: KeyView|
            #![trigger self.model@.contains_key(k)]
            self.model@.contains_key(k) ==> exists|i: int|
                0 <= i < self.entries@.len() && self.entries@[i].0@ == k
    }

    /// The client cached under each key.
    pub closed spec fn view(&self) -> Map<KeyView, C> {
        self.model@
    }

    /// An empty cache.
    pub fn new() -> (r: Self)
        ensures
            r.wf(),
            r.view() == Map::<KeyView, C>::empty(),
    {
        ClientCache { entries: Vec::new(), model: Ghost(Map::empty()) }
    }

    /// The number of cached clients.
    pub fn len(&self) -> (r: usize)
        requires
            self.wf(),
        ensures
            r == self.view().len(),
    {
        proof {
            self.lemma_len();
        }
        self.entries.len()
    }

    proof fn lemma_len(&self)
        requires
            self.wf(),
        ensures
            self.model@.dom().finite(),
            self.model@.dom().len() == self.entries@.len(),
    {
        let keys = Seq::new(self.entries@.len(), |i: int| self.entries@[i].0@);
        assert(keys.no_duplicates());
        assert forall|k: KeyView| self.model@.dom().contains(k) <==> keys.to_set().contains(k) by {
            if self.model@.contains_key(k) {
                let i = choose|i: int| 0 <= i < self.entries@.len() && self.entries@[i].0@ == k;
                assert(keys[i] == k);
            }
            if keys.contains(k) {
                let i = choose|i: int| 0 <= i < keys.len() && keys[i] == k;
                assert(self.entries@[i].0@ == k);
            }
        }
        assert(self.model@.dom() =~= keys.to_set());
        keys.unique_seq_to_set();
    }

    /// Position of `key` among the entries, if present.
    fn position(&self, key: &ClientKey) -> (r: Option<usize>)
        requires
            self.wf(),
        ensures
            match r {
                Some(i) => i < self.entries@.len() && self.entries@[i as int].0@ == key@,
                None => !self.model@.contains_key(key@),
            },
    {
        let mut i: usize = 0;
        while i < self.entries.len()
            invariant
                i <= self.entries@.len(),
                forall|j: int| 0 <= j < i ==> self.entries@[j].0@ != key@,
            decreases self.entries@.len() - i,
        {
            if self.entries[i].0.same_as(key) {
                return Some(i);
            }
            i = i + 1;
        }
        None
    }

    /// The client cached under `key`, if any.
    pub fn lookup(&self, key: &ClientKey) -> (r: Option<&C>)
        requires
            self.wf(),
        ensures
            match r {
                Some(c) => self.view().contains_key(key@) && *c == self.view()[key@],
                None => !self.view().contains_key(key@),
            },
    {
        match self.position(key) {
            Some(i) => {
                assert(self.entries@[i as int].0@ == key@);
                Some(&self.entries[i].1)
            },
            None => None,
        }
    }

    /// The client cached under `key`; on a miss, `build` is called once and
    /// its client is cached and returned. A failed build caches nothing, so a
    /// later call tries again.
    pub fn get_or_create<E, F: FnOnce() -> Result<C, E>>(&mut self, key: ClientKey, build: F) -> (r:
        Result<&C, E>)
        requires
            old(self).wf(),
            !old(self).view().contains_key(key@) ==> build.requires(()),
        ensures
            final(self).wf(),
            old(self).view().contains_key(key@) ==> (r matches Ok(c) && *c == old(self).view()[key@]
                && final(self).view() == old(self).view()),
            !old(self).view().contains_key(key@) ==> match r {
                Ok(c) => build.ensures((), Ok::<C, E>(*c)) && final(self).view() == old(
                    self,
                ).view().insert(key@, *c),
                Err(e) => build.ensures((), Err::<C, E>(e)) && final(self).view() == old(
                    self,
                ).view(),
            },
    {
        match self.position(&key) {
            Some(i) => {
                assert(self.entries@[i as int].0@ == key@);
                Ok(&self.entries[i].1)
            },
            None => {
                match build() {
                    Ok(c) => {
                        let ghost k = key@;
                        let ghost old_entries = self.entries@;
                        let ghost m = self.model@.insert(k, c);
                        self.entries.push((key, c));
                        self.model = Ghost(m);
                        assert forall|i: int|
                            #![trigger self.entries@[i]]
                            0 <= i < self.entries@.len() implies self.model@.contains_key(
                                self.entries@[i].0@,
                            ) && self.model@[self.entries@[i].0@] == self.entries@[i].1 by {
                            if i < old_entries.len() {
                                assert(self.entries@[i] == old_entries[i]);
                            }
                        }
                        assert forall|kk: KeyView|
                            #![trigger self.model@.contains_key(kk)]
                            self.model@.contains_key(kk) implies exists|i: int|
                                0 <= i < self.entries@.len() && self.entries@[i].0@ == kk by {
                            if kk != k {
                                let i = choose|i: int|
                                    0 <= i < old_entries.len() && old_entries[i].0@ == kk;
                                assert(self.entries@[i] == old_entries[i]);
                            } else {
                                assert(self.entries@[old_entries.len() as int].0@ == kk);
                            }
                        }
                        let n = self.entries.len();
                        Ok(&self.entries[n - 1].1)
                    },
                    Err(e) => Err(e),
                }
            },
        }
    }
}

} // verus!
