//! The terminal output registry: captured process output per mod id,
//! independent of the mods registry and guarded by its own lock in
//! the embedding application.

use vstd::prelude::*;
use vstd::string::StringExecFns;
use crate::assoc::{assoc_map, has_key, index_of_key, lemma_assoc_map_domain,
    lemma_assoc_map_index, lemma_assoc_map_push, lemma_assoc_map_remove, lemma_assoc_map_update,
    unique_keys};

verus! {

struct TermEntry {
    id: String,
    text: String,
}

/// Accumulated process output text, keyed by mod id.
pub struct TerminalOutputState {
    items: Vec<TermEntry>,
}

impl TerminalOutputState {
    /// The entries in order of first appearance.
    pub closed spec fn entries(&self) -> Seq<(Seq<char>, Seq<char>)> {
        Seq::new(self.items@.len(), |i: int| (self.items@[i].id@, self.items@[i].text@))
    }

    /// The mapping from mod id to accumulated output.
    pub open spec fn as_map(&self) -> Map<Seq<char>, Seq<char>> {
        assoc_map(self.entries())
    }

    /// Whether any output is recorded under the id.
    pub open spec fn contains(&self, id: Seq<char>) -> bool {
        has_key(self.entries(), id)
    }

    /// Well-formedness: ids are pairwise distinct.
    pub open spec fn wf(&self) -> bool {
        unique_keys(self.entries())
    }

    /// An empty output registry.
    pub fn new() -> (r: Self)
        ensures
            r.wf(),
            r.entries() == Seq::<(Seq<char>, Seq<char>)>::empty(),
            r.as_map() == Map::<Seq<char>, Seq<char>>::empty(),
    {
        let r = TerminalOutputState { items: Vec::new() };
        proof {
            assert(r.entries() =~= Seq::<(Seq<char>, Seq<char>)>::empty());
            assert(r.as_map() =~= Map::<Seq<char>, Seq<char>>::empty());
        }
        r
    }

    fn find(&self, id: &String) -> (r: Option<usize>)
        ensures
            match r {
                Some(i) => 0 <= i < self.entries().len() && self.entries()[i as int].0 == id@,
                None => !self.contains(id@),
            },
    {
        let mut i: usize = 0;
        while i < self.items.len()
            invariant
                0 <= i <= self.items.len(),
                forall|j: int| 0 <= j < i ==> self.entries()[j].0 != id@,
            decreases self.items.len() - i,
        {
            if self.items[i].id == *id {
                return Some(i);
            }
            i += 1;
        }
        None
    }

    /// Concatenates the chunk to the output recorded under the id,
    /// creating the entry when there is none yet.
    pub fn append(&mut self, id: &String, chunk: &str)
        requires
            old(self).wf(),
        ensures
            final(self).wf(),
            old(self).contains(id@) ==> {
                &&& final(self).entries() == old(self).entries().update(
                    index_of_key(old(self).entries(), id@),
                    (id@, old(self).as_map()[id@] + chunk@),
                )
                &&& final(self).as_map() == old(self).as_map().insert(
                    id@,
                    old(self).as_map()[id@] + chunk@,
                )
            },
            !old(self).contains(id@) ==> {
                &&& final(self).entries() == old(self).entries().push((id@, chunk@))
                &&& final(self).as_map() == old(self).as_map().insert(id@, chunk@)
            },
    {
        match self.find(id) {
            Some(i) => {
                let ghost s0 = self.entries();
                proof {
                    lemma_assoc_map_index(s0, i as int);
                }
                let entry = self.items.remove(i);
                let grown = entry.text.concat(chunk);
                self.items.insert(i, TermEntry { id: entry.id, text: grown });
                proof {
                    let gi = i as int;
                    assert(self.entries() =~= s0.update(gi, (id@, s0[gi].1 + chunk@)));
                    assert(gi == index_of_key(s0, id@)) by {
                        let w = index_of_key(s0, id@);
                        assert(0 <= w < s0.len() && s0[w].0 == id@);
                        if w != gi {
                            assert(false);
                        }
                    }
                    lemma_assoc_map_update(s0, gi, s0[gi].1 + chunk@);
                    assert(unique_keys(self.entries()));
                }
            },
            None => {
                let ghost s0 = self.entries();
                self.items.push(TermEntry { id: id.clone(), text: String::from_str(chunk) });
                proof {
                    assert(self.entries() =~= s0.push((id@, chunk@)));
                    lemma_assoc_map_push(s0, id@, chunk@);
                    assert(unique_keys(self.entries()));
                }
            },
        }
    }

    /// Hands back a snapshot of the output recorded under the id.
    pub fn get(&self, id: &String) -> (r: Option<String>)
        requires
            self.wf(),
        ensures
            r is Some <==> self.contains(id@),
            r matches Some(s) ==> self.as_map().dom().contains(id@) && s@ == self.as_map()[id@],
    {
        proof {
            lemma_assoc_map_domain(self.entries(), id@);
        }
        match self.find(id) {
            Some(i) => {
                proof {
                    lemma_assoc_map_index(self.entries(), i as int);
                }
                Some(self.items[i].text.clone())
            },
            None => None,
        }
    }

    /// Forgets the output recorded under the id, as when a mod's
    /// process session ends; an absent id is left alone.
    pub fn clear(&mut self, id: &String)
        requires
            old(self).wf(),
        ensures
            final(self).wf(),
            old(self).contains(id@) ==> {
                &&& final(self).entries() == old(self).entries().remove(
                    index_of_key(old(self).entries(), id@),
                )
                &&& final(self).as_map() == old(self).as_map().remove(id@)
            },
            !old(self).contains(id@) ==> final(self).entries() == old(self).entries(),
    {
        match self.find(id) {
            Some(i) => {
                let ghost s0 = self.entries();
                let _ = self.items.remove(i);
                proof {
                    let gi = i as int;
                    assert(self.entries() =~= s0.remove(gi));
                    assert(gi == index_of_key(s0, id@)) by {
                        let w = index_of_key(s0, id@);
                        assert(0 <= w < s0.len() && s0[w].0 == id@);
                        if w != gi {
                            assert(false);
                        }
                    }
                    lemma_assoc_map_remove(s0, gi);
                    assert(unique_keys(self.entries()));
                }
            },
            None => {},
        }
    }
}

} // verus!
