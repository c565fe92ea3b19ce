//! The mods registry: the authoritative mapping from mod id to mod
//! record for the lifetime of the running application.
//!
//! The registry is a sequential structure; a caller that shares it
//! between tasks wraps it in one mutual-exclusion lock and performs
//! each operation under a single acquisition, which is what makes
//! `update`'s read-modify-write atomic.

use vstd::prelude::*;
use vstd::string::StringExecFns;
use vstd::multiset::Multiset;
use crate::assoc::{assoc_map, has_key, index_of_key, lemma_assoc_map_domain,
    lemma_assoc_map_index, lemma_assoc_map_push, lemma_assoc_map_remove, lemma_assoc_map_update,
    unique_keys};
use crate::metadata::{ModInfo, ModInfoV};

verus! {

/// Listing order: records with a display order come first, in
/// ascending order; records without one come after all of them; what
/// this order leaves tied keeps its insertion order.
pub open spec fn order_le(a: ModInfoV, b: ModInfoV) -> bool {
    match (a.display_order, b.display_order) {
        (Some(x), Some(y)) => x <= y,
        (Some(x), None) => true,
        (None, Some(y)) => false,
        (None, None) => true,
    }
}

/// True when the listing never orders a later record above an
/// earlier one.
pub open spec fn listing_sorted(s: Seq<ModInfoV>) -> bool {
    forall|i: int, j: int| 0 <= i < j < s.len() ==> order_le(#[trigger] s[i], #[trigger] s[j])
}

/// Stable placement into a sorted listing: the record goes after
/// every record that does not order above it, so records it ties
/// with keep their earlier place.
pub open spec fn place_sorted(x: ModInfoV, s: Seq<ModInfoV>) -> Seq<ModInfoV>
    decreases s.len(),
{
    if s.len() == 0 {
        seq![x]
    } else if order_le(s[0], x) {
        seq![s[0]] + place_sorted(x, s.drop_first())
    } else {
        seq![x] + s
    }
}

/// The listing a record sequence sorts to: each record placed in
/// turn, so ties keep their insertion order.
pub open spec fn sorted_listing(s: Seq<ModInfoV>) -> Seq<ModInfoV>
    decreases s.len(),
{
    if s.len() == 0 {
        Seq::<ModInfoV>::empty()
    } else {
        place_sorted(s.last(), sorted_listing(s.drop_last()))
    }
}

/// Placing at the first index whose record orders above the new one
/// is what `place_sorted` denotes.
proof fn lemma_place_sorted_at_index(x: ModInfoV, s: Seq<ModInfoV>, j: int)
    requires
        0 <= j <= s.len(),
        forall|k: int| 0 <= k < j ==> order_le(#[trigger] s[k], x),
        j < s.len() ==> !order_le(s[j], x),
    ensures
        place_sorted(x, s) == s.subrange(0, j) + seq![x] + s.subrange(j, s.len() as int),
    decreases s.len(),
{
    if s.len() == 0 {
        assert(place_sorted(x, s) =~= s.subrange(0, j) + seq![x] + s.subrange(
            j,
            s.len() as int,
        ));
    } else if j == 0 {
        assert(place_sorted(x, s) =~= s.subrange(0, j) + seq![x] + s.subrange(
            j,
            s.len() as int,
        ));
    } else {
        let d = s.drop_first();
        assert(order_le(s[0], x));
        assert(forall|k: int| 0 <= k < j - 1 ==> order_le(#[trigger] d[k], x));
        lemma_place_sorted_at_index(x, d, j - 1);
        assert(seq![s[0]] + (d.subrange(0, j - 1) + seq![x] + d.subrange(j - 1, d.len() as int))
            =~= s.subrange(0, j) + seq![x] + s.subrange(j, s.len() as int));
    }
}

/// Placing a record into a listing keeps exactly the old records
/// plus the new one.
proof fn lemma_place_sorted_multiset(x: ModInfoV, s: Seq<ModInfoV>)
    ensures
        place_sorted(x, s).to_multiset() == s.to_multiset().insert(x),
    decreases s.len(),
{
    broadcast use vstd::seq_lib::group_to_multiset_ensures;

    if s.len() == 0 {
        assert(place_sorted(x, s) =~= Seq::<ModInfoV>::empty().push(x));
        assert(s.to_multiset() =~= Seq::<ModInfoV>::empty().to_multiset());
    } else if order_le(s[0], x) {
        let d = s.drop_first();
        lemma_place_sorted_multiset(x, d);
        vstd::seq_lib::lemma_multiset_commutative(seq![s[0]], place_sorted(x, d));
        vstd::seq_lib::lemma_multiset_commutative(seq![s[0]], d);
        assert(seq![s[0]] + d =~= s);
        assert(seq![s[0]].to_multiset().add(d.to_multiset().insert(x)) =~= seq![
            s[0],
        ].to_multiset().add(d.to_multiset()).insert(x));
    } else {
        vstd::seq_lib::lemma_multiset_commutative(seq![x], s);
        assert(seq![x] =~= Seq::<ModInfoV>::empty().push(x));
        assert(Seq::<ModInfoV>::empty().to_multiset() =~= Multiset::<ModInfoV>::empty()) by {
            assert(Seq::<ModInfoV>::empty().to_multiset().len() == 0);
        }
        assert(Multiset::<ModInfoV>::empty().insert(x).add(s.to_multiset())
            =~= s.to_multiset().insert(x));
    }
}

/// Law: the sorted listing is a permutation of what the registry
/// holds: every record exactly once, none lost, none invented.
pub proof fn lemma_sorted_listing_permutes(s: Seq<ModInfoV>)
    ensures
        sorted_listing(s).to_multiset() == s.to_multiset(),
    decreases s.len(),
{
    broadcast use vstd::seq_lib::group_to_multiset_ensures;

    if s.len() == 0 {
    } else {
        lemma_sorted_listing_permutes(s.drop_last());
        lemma_place_sorted_multiset(s.last(), sorted_listing(s.drop_last()));
        assert(s.drop_last().push(s.last()) =~= s);
    }
}

/// Failure of a registry lookup: the id names no record.
#[derive(Debug, PartialEq)]
pub enum RegistryError {
    NotFound,
}

impl Clone for RegistryError {
    fn clone(&self) -> (r: Self)
        ensures
            r == *self,
    {
        RegistryError::NotFound
    }
}

impl RegistryError {
    /// A human-readable description of the failure.
    pub fn message(&self) -> (r: String)
        ensures
            r@ == "Mod not found"@,
    {
        String::from_str("Mod not found")
    }
}

struct ModEntry {
    id: String,
    info: ModInfo,
}

/// The in-memory catalog of installed mods, keyed by mod id.
pub struct ModsState {
    items: Vec<ModEntry>,
}

impl ModsState {
    /// The entries in insertion order: each entry's key and the
    /// mathematical image of its record.
    pub closed spec fn entries(&self) -> Seq<(Seq<char>, ModInfoV)> {
        Seq::new(self.items@.len(), |i: int| (self.items@[i].id@, self.items@[i].info.deep_view()))
    }

    /// The mapping from mod id to record that the registry holds.
    pub open spec fn as_map(&self) -> Map<Seq<char>, ModInfoV> {
        assoc_map(self.entries())
    }

    /// Whether a record is registered under the id.
    pub open spec fn contains(&self, id: Seq<char>) -> bool {
        has_key(self.entries(), id)
    }

    /// Well-formedness: ids are pairwise distinct.
    pub open spec fn wf(&self) -> bool {
        unique_keys(self.entries())
    }

    /// An empty registry.
    pub fn new() -> (r: Self)
        ensures
            r.wf(),
            r.entries() == Seq::<(Seq<char>, ModInfoV)>::empty(),
            r.as_map() == Map::<Seq<char>, ModInfoV>::empty(),
    {
        let r = ModsState { items: Vec::new() };
        proof {
            assert(r.entries() =~= Seq::<(Seq<char>, ModInfoV)>::empty());
            assert(r.as_map() =~= Map::<Seq<char>, ModInfoV>::empty());
        }
        r
    }

    /// Index of the entry registered under the id, scanning in
    /// insertion order.
    fn find(&self, id: &String) -> (r: Option<usize>)
        ensures
            match r {
                Some(i) => 0 <= i < self.entries().len() && self.entries()[i as int].0 == id@,
                None => !self.contains(id@),
            },
    {
        let mut i: usize = 0;
        while i < self.items.len()
            invariant
                0 <= i <= self.items.len(),
                forall|j: int| 0 <= j < i ==> self.entries()[j].0 != id@,
            decreases self.items.len() - i,
        {
            if self.items[i].id == *id {
                return Some(i);
            }
            i += 1;
        }
        None
    }

    /// Registers the record under the id. A fresh id is appended at
    /// the end of the insertion order; an id already present keeps
    /// its place and only its record is replaced.
    pub fn insert(&mut self, id: String, record: ModInfo)
        requires
            old(self).wf(),
        ensures
            final(self).wf(),
            final(self).as_map() == old(self).as_map().insert(id@, record.deep_view()),
            !old(self).contains(id@) ==> final(self).entries() == old(self).entries().push(
                (id@, record.deep_view()),
            ),
            old(self).contains(id@) ==> final(self).entries() == old(self).entries().update(
                index_of_key(old(self).entries(), id@),
                (id@, record.deep_view()),
            ),
    {
        let found = self.find(&id);
        match found {
            Some(i) => {
                let ghost s0 = self.entries();
                let _ = self.items.remove(i);
                self.items.insert(i, ModEntry { id, info: record });
                proof {
                    let gi = i as int;
                    assert(self.entries() =~= s0.update(gi, (id@, record.deep_view())));
                    assert(gi == index_of_key(s0, id@)) by {
                        let w = index_of_key(s0, id@);
                        assert(0 <= w < s0.len() && s0[w].0 == id@);
                        if w != gi {
                            assert(false);
                        }
                    }
                    lemma_assoc_map_update(s0, gi, record.deep_view());
                    assert(unique_keys(self.entries()));
                }
            },
            None => {
                let ghost s0 = self.entries();
                self.items.push(ModEntry { id, info: record });
                proof {
                    assert(self.entries() =~= s0.push((id@, record.deep_view())));
                    lemma_assoc_map_push(s0, id@, record.deep_view());
                    assert(unique_keys(self.entries()));
                }
            },
        }
    }

    /// Looks the id up and hands back a copy of the record: callers
    /// never receive a live alias into the registry.
    pub fn get(&self, id: &String) -> (r: Option<ModInfo>)
        requires
            self.wf(),
        ensures
            r is Some <==> self.contains(id@),
            r matches Some(m) ==> self.as_map().dom().contains(id@) && m.deep_view()
                == self.as_map()[id@],
    {
        proof {
            lemma_assoc_map_domain(self.entries(), id@);
        }
        match self.find(id) {
            Some(i) => {
                proof {
                    lemma_assoc_map_index(self.entries(), i as int);
                }
                Some(self.items[i].info.clone())
            },
            None => None,
        }
    }

    /// Deletes the record registered under the id; an absent id is
    /// reported as `NotFound` and leaves the registry unchanged.
    pub fn remove(&mut self, id: &String) -> (r: Result<(), RegistryError>)
        requires
            old(self).wf(),
        ensures
            final(self).wf(),
            old(self).contains(id@) ==> {
                &&& r == Ok::<(), RegistryError>(())
                &&& final(self).entries() == old(self).entries().remove(
                    index_of_key(old(self).entries(), id@),
                )
                &&& final(self).as_map() == old(self).as_map().remove(id@)
            },
            !old(self).contains(id@) ==> r == Err::<(), RegistryError>(RegistryError::NotFound)
                && final(self).entries() == old(self).entries(),
    {
        match self.find(id) {
            Some(i) => {
                let ghost s0 = self.entries();
                let _ = self.items.remove(i);
                proof {
                    let gi = i as int;
                    assert(self.entries() =~= s0.remove(gi));
                    assert(gi == index_of_key(s0, id@)) by {
                        let w = index_of_key(s0, id@);
                        assert(0 <= w < s0.len() && s0[w].0 == id@);
                        if w != gi {
                            assert(false);
                        }
                    }
                    lemma_assoc_map_remove(s0, gi);
                    assert(unique_keys(self.entries()));
                }
                Ok(())
            },
            None => Err(RegistryError::NotFound),
        }
    }

    /// Applies the caller's function to the record registered under
    /// the id, as one read-modify-write; an absent id is reported as
    /// `NotFound` and leaves the registry unchanged.
    pub fn update<F: FnOnce(ModInfo) -> ModInfo>(&mut self, id: &String, f: F) -> (r: Result<
        (),
        RegistryError,
    >)
        requires
            old(self).wf(),
            forall|m: ModInfo| call_requires(f, (m,)),
        ensures
            final(self).wf(),
            old(self).contains(id@) ==> r == Ok::<(), RegistryError>(()) && exists|
                m0: ModInfo,
                v: ModInfo,
            |
                {
                    &&& m0.deep_view() == old(self).as_map()[id@]
                    &&& #[trigger] call_ensures(f, (m0,), v)
                    &&& final(self).entries() == old(self).entries().update(
                        index_of_key(old(self).entries(), id@),
                        (id@, v.deep_view()),
                    )
                    &&& final(self).as_map() == old(self).as_map().insert(id@, v.deep_view())
                },
            !old(self).contains(id@) ==> r == Err::<(), RegistryError>(RegistryError::NotFound)
                && final(self).entries() == old(self).entries(),
    {
        match self.find(id) {
            Some(i) => {
                let ghost s0 = self.entries();
                proof {
                    lemma_assoc_map_index(s0, i as int);
                }
                let entry = self.items.remove(i);
                let updated = f(entry.info);
                let ghost m0 = entry.info;
                let ghost v = updated;
                self.items.insert(i, ModEntry { id: entry.id, info: updated });
                proof {
                    let gi = i as int;
                    assert(self.entries() =~= s0.update(gi, (id@, v.deep_view())));
                    assert(gi == index_of_key(s0, id@)) by {
                        let w = index_of_key(s0, id@);
                        assert(0 <= w < s0.len() && s0[w].0 == id@);
                        if w != gi {
                            assert(false);
                        }
                    }
                    lemma_assoc_map_update(s0, gi, v.deep_view());
                    assert(unique_keys(self.entries()));
                }
                Ok(())
            },
            None => Err(RegistryError::NotFound),
        }
    }

    /// The registered records in insertion order.
    pub open spec fn records(&self) -> Seq<ModInfoV> {
        Seq::new(self.entries().len(), |i: int| self.entries()[i].1)
    }

    /// Copies of all registered records, ordered by display order,
    /// ties broken by insertion order.
    pub fn list(&self) -> (r: Vec<ModInfo>)
        ensures
            r.deep_view() == sorted_listing(self.records()),
            listing_sorted(r.deep_view()),
            r.deep_view().to_multiset() == self.records().to_multiset(),
    {
        proof {
            lemma_sorted_listing_permutes(self.records());
        }
        let ghost all = self.records();
        let mut out: Vec<ModInfo> = Vec::new();
        let mut i: usize = 0;
        while i < self.items.len()
            invariant
                0 <= i <= self.items.len(),
                all == self.records(),
                all.len() == self.items.len(),
                out.deep_view() == sorted_listing(all.subrange(0, i as int)),
                listing_sorted(out.deep_view()),
            decreases self.items.len() - i,
        {
            let rec = self.items[i].info.clone();
            let ghost x = rec.deep_view();
            let ghost s = out.deep_view();
            proof {
                assert(all[i as int] == x);
            }
            let mut j: usize = 0;
            while j < out.len() && order_le_exec(&out[j], &rec)
                invariant
                    0 <= j <= out.len(),
                    out.deep_view() == s,
                    rec.deep_view() == x,
                    forall|k: int| 0 <= k < j ==> order_le(#[trigger] s[k], x),
                decreases out.len() - j,
            {
                j += 1;
            }
            out.insert(j, rec);
            proof {
                let gj = j as int;
                lemma_place_sorted_at_index(x, s, gj);
                let t = s.subrange(0, gj) + seq![x] + s.subrange(gj, s.len() as int);
                assert(out.deep_view() =~= t);
                assert(all.subrange(0, i + 1).drop_last() =~= all.subrange(0, i as int));
                assert(all.subrange(0, i + 1).last() == x);
                assert(out.deep_view() == sorted_listing(all.subrange(0, i + 1)));
                assert(forall|m: ModInfoV| order_le(m, m));
                assert(forall|p: ModInfoV, q: ModInfoV| order_le(p, q) || order_le(q, p));
                assert(forall|p: ModInfoV, q: ModInfoV, w: ModInfoV|
                    order_le(p, q) && order_le(q, w) ==> order_le(p, w));
                assert(forall|k: int| 0 <= k < gj ==> t[k] == s[k]);
                assert(t[gj] == x);
                assert(forall|k: int| gj < k < t.len() ==> t[k] == s[k - 1]);
                assert forall|a: int, b: int| 0 <= a < b < t.len() implies order_le(
                    t[a],
                    t[b],
                ) by {
                    if b == gj {
                        assert(order_le(s[a], x));
                    } else if a == gj {
                        assert(!order_le(s[gj], x));
                        assert(order_le(x, s[gj]));
                        if b - 1 > gj {
                            assert(order_le(s[gj], s[b - 1]));
                        }
                    }
                }
                assert(listing_sorted(out.deep_view()));
            }
            i += 1;
        }
        proof {
            assert(all.subrange(0, i as int) =~= all);
        }
        out
    }
}

/// Exec comparison realizing [`order_le`].
fn order_le_exec(a: &ModInfo, b: &ModInfo) -> (r: bool)
    ensures
        r == order_le(a.deep_view(), b.deep_view()),
{
    match (a.display_order, b.display_order) {
        (Some(x), Some(y)) => x <= y,
        (Some(_), None) => true,
        (None, Some(_)) => false,
        (None, None) => true,
    }
}

/// Law: registering a record and then looking its id up yields that
/// very record, equal in all fields. The premise is what `insert`
/// ensures; the conclusion is what `get` then answers.
pub proof fn lemma_insert_get_round_trip(
    pre: ModsState,
    post: ModsState,
    id: Seq<char>,
    rec: ModInfoV,
)
    requires
        post.as_map() == pre.as_map().insert(id, rec),
    ensures
        post.as_map().dom().contains(id),
        post.as_map()[id] == rec,
{
}

/// Law: once an id is removed, the registry no longer contains it,
/// so removing it again is answered with `NotFound` and changes
/// nothing; removal is safe to repeat. The premise is what `remove`
/// ensures on a present id.
pub proof fn lemma_remove_then_absent(pre: ModsState, post: ModsState, id: Seq<char>)
    requires
        post.as_map() == pre.as_map().remove(id),
    ensures
        !post.as_map().dom().contains(id),
{
}

/// The insertion-order counter that the no-lost-update law counts:
/// a record's display order, read as 0 when unset.
pub open spec fn order_counter(m: ModInfoV) -> int {
    match m.display_order {
        Some(c) => c as int,
        None => 0,
    }
}

/// One counter increment, saturating at the largest representable
/// value.
pub open spec fn bump_order(m: ModInfoV) -> ModInfoV {
    ModInfoV {
        display_order: Some(
            if order_counter(m) < i64::MAX {
                (order_counter(m) + 1) as i64
            } else {
                i64::MAX
            },
        ),
        ..m
    }
}

/// The counter after n increments in a row.
pub open spec fn bump_order_n(m: ModInfoV, n: nat) -> ModInfoV
    decreases n,
{
    if n == 0 {
        m
    } else {
        bump_order(bump_order_n(m, (n - 1) as nat))
    }
}

/// Law: n read-modify-write increments of a record's counter
/// accumulate to exactly n — none is lost. Each `update` call
/// realizes one step, since its contract pins the stored record to
/// the increment of the record it read.
pub proof fn lemma_increments_accumulate(m: ModInfoV, n: nat)
    requires
        order_counter(m) + n <= i64::MAX,
    ensures
        order_counter(bump_order_n(m, n)) == order_counter(m) + n,
    decreases n,
{
    if n > 0 {
        lemma_increments_accumulate(m, (n - 1) as nat);
    }
}

/// One counter increment as a record transformation, fit to hand to
/// `update`.
pub fn increment_display_order(m: ModInfo) -> (r: ModInfo)
    ensures
        r.deep_view() == bump_order(m.deep_view()),
{
    let c: i64 = match m.display_order {
        Some(c) => c,
        None => 0,
    };
    let bumped: i64 = if c < i64::MAX {
        c + 1
    } else {
        i64::MAX
    };
    let r = ModInfo { display_order: Some(bumped), ..m };
    proof {
        assert(r.deep_view() =~= bump_order(m.deep_view()));
    }
    r
}

} // verus!
