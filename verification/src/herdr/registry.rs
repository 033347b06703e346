//! Stable id registries bridging herdr's opaque `String` ids and muxrd's
//! numeric ids.
//!
//! Each registry assigns a stable, monotonic numeric id (starting at 1) to each
//! herdr id the first time it is seen and keeps the mapping for the lifetime of
//! the backend. Entries are never pruned.

use vstd::prelude::*;
use vstd::hash_map::{HashMapWithView, StringHashMap};

verus! {

broadcast use vstd::std_specs::hash::group_hash_axioms;

/// First numeric id handed out by either registry (0 is the proto3 "unset").
pub const FIRST_ID: u32 = 1;

/// One pane's herdr identity, keyed by its assigned `u32`.
pub struct PaneEntry {
    /// herdr opaque `pane_id` (control-plane addressing).
    pub herdr_pane_id: String,
    /// herdr opaque `terminal_id` (wire-relay attach key).
    pub terminal_id: String,
}

/// Bidirectional `u32 <-> herdr pane_id` map that also stores each pane's
/// `terminal_id` for the wire relay.
pub struct HerdrPaneRegistry {
    next_id: u32,
    by_herdr: StringHashMap<u32>,
    by_id: HashMapWithView<u32, PaneEntry>,
}

/// The state of a pane registry: the next id, herdr pane id -> numeric id,
/// and numeric id -> (herdr pane id, terminal id).
pub type PaneModel = (u32, Map<Seq<char>, u32>, Map<u32, (Seq<char>, Seq<char>)>);

/// The state of a tab registry: the next id, herdr tab id -> numeric id, and
/// numeric id -> herdr tab id.
pub type TabModel = (u64, Map<Seq<char>, u64>, Map<u64, Seq<char>>);

/// The two maps of a pane registry are mutually inverse and every id lies
/// in `[1, next)`.
pub open spec fn pane_model_consistent(m: PaneModel) -> bool {
    &&& m.0 >= FIRST_ID
    &&& forall|k: Seq<char>| #[trigger] m.1.contains_key(k) ==> {
        &&& FIRST_ID <= m.1[k] < m.0
        &&& m.2.contains_key(m.1[k])
        &&& m.2[m.1[k]].0 == k
    }
    &&& forall|id: u32| #[trigger] m.2.contains_key(id) ==> {
        &&& m.1.contains_key(m.2[id].0)
        &&& m.1[m.2[id].0] == id
    }
}

/// The two maps of a tab registry are mutually inverse and every id lies in
/// `[1, next)`.
pub open spec fn tab_model_consistent(m: TabModel) -> bool {
    &&& m.0 >= FIRST_ID
    &&& forall|k: Seq<char>| #[trigger] m.1.contains_key(k) ==> {
        &&& FIRST_ID <= m.1[k] < m.0
        &&& m.2.contains_key(m.1[k])
        &&& m.2[m.1[k]] == k
    }
    &&& forall|id: u64| #[trigger] m.2.contains_key(id) ==> {
        &&& m.1.contains_key(m.2[id])
        &&& m.1[m.2[id]] == id
    }
}

/// Every id in `[1, next)` has been handed out (none skipped).
pub open spec fn pane_ids_dense(m: PaneModel) -> bool {
    forall|id: u32| #[trigger] m.2.contains_key(id) <==> FIRST_ID <= id < m.0
}

/// Every id in `[1, next)` has been handed out (none skipped).
pub open spec fn tab_ids_dense(m: TabModel) -> bool {
    forall|id: u64| #[trigger] m.2.contains_key(id) <==> FIRST_ID <= id < m.0
}

/// One `assign_or_get(k, t)` on a pane registry: a known pane keeps its id
/// and has its terminal id refreshed; a new one takes the next id (which
/// then advances, pinned at `u32::MAX`).
pub open spec fn pane_step(m: PaneModel, k: Seq<char>, t: Seq<char>) -> PaneModel {
    if m.1.contains_key(k) {
        (
            m.0,
            m.1,
            if m.2.contains_key(m.1[k]) {
                m.2.insert(m.1[k], (m.2[m.1[k]].0, t))
            } else {
                m.2
            },
        )
    } else {
        (
            if m.0 < u32::MAX {
                (m.0 + 1) as u32
            } else {
                m.0
            },
            m.1.insert(k, m.0),
            m.2.insert(m.0, (k, t)),
        )
    }
}

/// A sequence of `assign_or_get` calls on a pane registry, in order.
pub open spec fn pane_steps(m: PaneModel, s: Seq<(Seq<char>, Seq<char>)>) -> PaneModel
    decreases s.len(),
{
    if s.len() == 0 {
        m
    } else {
        pane_step(pane_steps(m, s.drop_last()), s.last().0, s.last().1)
    }
}

/// One `assign_or_get(k)` on a tab registry.
pub open spec fn tab_step(m: TabModel, k: Seq<char>) -> TabModel {
    if m.1.contains_key(k) {
        m
    } else {
        (
            if m.0 < u64::MAX {
                (m.0 + 1) as u64
            } else {
                m.0
            },
            m.1.insert(k, m.0),
            m.2.insert(m.0, k),
        )
    }
}

/// A sequence of `assign_or_get` calls on a tab registry, in order.
pub open spec fn tab_steps(m: TabModel, s: Seq<Seq<char>>) -> TabModel
    decreases s.len(),
{
    if s.len() == 0 {
        m
    } else {
        tab_step(tab_steps(m, s.drop_last()), s.last())
    }
}

/// A fresh registry's state.
pub open spec fn pane_init() -> PaneModel {
    (FIRST_ID, Map::empty(), Map::empty())
}

/// A fresh registry's state.
pub open spec fn tab_init() -> TabModel {
    (FIRST_ID as u64, Map::empty(), Map::empty())
}

/// Some call in `s` names herdr id `k`.
pub open spec fn seen(s: Seq<(Seq<char>, Seq<char>)>, k: Seq<char>) -> bool {
    exists|i: int| 0 <= i < s.len() && #[trigger] s[i].0 == k
}

/// Some call in `s` names herdr tab id `k`.
pub open spec fn tab_seen(s: Seq<Seq<char>>, k: Seq<char>) -> bool {
    exists|i: int| 0 <= i < s.len() && #[trigger] s[i] == k
}

/// The terminal id of the last call in `s` naming `k`.
pub open spec fn last_term(s: Seq<(Seq<char>, Seq<char>)>, k: Seq<char>) -> Seq<char>
    decreases s.len(),
{
    if s.len() == 0 {
        Seq::empty()
    } else if s.last().0 == k {
        s.last().1
    } else {
        last_term(s.drop_last(), k)
    }
}

impl HerdrPaneRegistry {
    /// The next id that a fresh pane would receive.
    pub closed spec fn next(&self) -> u32 {
        self.next_id
    }

    /// herdr `pane_id` -> assigned numeric id.
    pub closed spec fn ids(&self) -> Map<Seq<char>, u32> {
        self.by_herdr@
    }

    /// numeric id -> (herdr `pane_id`, `terminal_id`).
    pub closed spec fn entries(&self) -> Map<u32, (Seq<char>, Seq<char>)> {
        Map::new(
            |id: u32| self.by_id@.contains_key(id),
            |id: u32| (self.by_id@[id].herdr_pane_id@, self.by_id@[id].terminal_id@),
        )
    }

    /// The registry's state: next id, herdr id -> numeric id, numeric id ->
    /// (herdr id, terminal id).
    pub open spec fn model(&self) -> PaneModel {
        (self.next(), self.ids(), self.entries())
    }

    /// The two maps are mutually inverse and every id lies in `[1, next)`.
    pub open spec fn consistent(&self) -> bool {
        pane_model_consistent(self.model())
    }

    /// Create an empty registry.
    pub fn new() -> (r: Self)
        ensures
            r.next() == FIRST_ID,
            r.ids() == Map::<Seq<char>, u32>::empty(),
            r.entries() == Map::<u32, (Seq<char>, Seq<char>)>::empty(),
            r.model() == pane_init(),
            r.consistent(),
    {
        let r = HerdrPaneRegistry {
            next_id: FIRST_ID,
            by_herdr: StringHashMap::new(),
            by_id: HashMapWithView::new(),
        };
        assert(r.entries() =~= Map::<u32, (Seq<char>, Seq<char>)>::empty());
        r
    }

    /// Return the stable `u32` for a herdr `pane_id`, assigning a fresh one on
    /// first sight. The pane's `terminal_id` is recorded (and refreshed when
    /// herdr reports a new one for a known pane). When the id space is
    /// exhausted the next id stays pinned at `u32::MAX`.
    pub fn assign_or_get(&mut self, herdr_pane_id: &str, terminal_id: &str) -> (id: u32)
        ensures
            final(self).model() == pane_step(old(self).model(), herdr_pane_id@, terminal_id@),
            old(self).ids().contains_key(herdr_pane_id@) ==> {
                &&& id == old(self).ids()[herdr_pane_id@]
                &&& final(self).next() == old(self).next()
                &&& final(self).ids() == old(self).ids()
                &&& final(self).entries() == (if old(self).entries().contains_key(id) {
                    old(self).entries().insert(id, (old(self).entries()[id].0, terminal_id@))
                } else {
                    old(self).entries()
                })
            },
            !old(self).ids().contains_key(herdr_pane_id@) ==> {
                &&& id == old(self).next()
                &&& final(self).next() == (if old(self).next() < u32::MAX {
                    (old(self).next() + 1) as u32
                } else {
                    old(self).next()
                })
                &&& final(self).ids() == old(self).ids().insert(herdr_pane_id@, id)
                &&& final(self).entries() == old(self).entries().insert(
                    id,
                    (herdr_pane_id@, terminal_id@),
                )
            },
            forall|k: Seq<char>| #[trigger] old(self).ids().contains_key(k) ==> {
                &&& final(self).ids().contains_key(k)
                &&& final(self).ids()[k] == old(self).ids()[k]
            },
            old(self).consistent() && (old(self).ids().contains_key(herdr_pane_id@)
                || old(self).next() < u32::MAX) ==> {
                &&& final(self).consistent()
                &&& final(self).entries().contains_key(id)
                &&& final(self).entries()[id] == (herdr_pane_id@, terminal_id@)
            },
    {
        let ghost old_entries = self.entries();
        match self.by_herdr.get(herdr_pane_id) {
            Some(found) => {
                let id = *found;
                match self.by_id.get(&id) {
                    Some(entry) => {
                        let refreshed = PaneEntry {
                            herdr_pane_id: entry.herdr_pane_id.clone(),
                            terminal_id: terminal_id.to_owned(),
                        };
                        self.by_id.insert(id, refreshed);
                        assert(self.entries() =~= old_entries.insert(
                            id,
                            (old_entries[id].0, terminal_id@),
                        ));
                    },
                    None => {},
                }
                id
            },
            None => {
                let id = self.next_id;
                if self.next_id < u32::MAX {
                    self.next_id = self.next_id + 1;
                }
                self.by_herdr.insert(herdr_pane_id.to_owned(), id);
                self.by_id.insert(
                    id,
                    PaneEntry {
                        herdr_pane_id: herdr_pane_id.to_owned(),
                        terminal_id: terminal_id.to_owned(),
                    },
                );
                assert(self.entries() =~= old_entries.insert(id, (herdr_pane_id@, terminal_id@)));
                id
            },
        }
    }

    /// herdr `pane_id` for an assigned `u32`, if known.
    pub fn herdr_pane_id(&self, id: u32) -> (r: Option<String>)
        ensures
            r is Some <==> self.entries().contains_key(id),
            r matches Some(s) ==> s@ == self.entries()[id].0,
    {
        match self.by_id.get(&id) {
            Some(e) => Some(e.herdr_pane_id.clone()),
            None => None,
        }
    }

    /// herdr `terminal_id` (wire-relay attach key) for an assigned `u32`, if known.
    pub fn terminal_id(&self, id: u32) -> (r: Option<String>)
        ensures
            r is Some <==> self.entries().contains_key(id),
            r matches Some(s) ==> s@ == self.entries()[id].1,
    {
        match self.by_id.get(&id) {
            Some(e) => Some(e.terminal_id.clone()),
            None => None,
        }
    }
}

/// Bidirectional `u64 <-> herdr tab_id` map, parallel to [`HerdrPaneRegistry`].
pub struct HerdrTabRegistry {
    next_id: u64,
    by_herdr: StringHashMap<u64>,
    by_id: HashMapWithView<u64, String>,
}

impl HerdrTabRegistry {
    /// The next id that a fresh tab would receive.
    pub closed spec fn next(&self) -> u64 {
        self.next_id
    }

    /// herdr `tab_id` -> assigned numeric id.
    pub closed spec fn ids(&self) -> Map<Seq<char>, u64> {
        self.by_herdr@
    }

    /// numeric id -> herdr `tab_id`.
    pub closed spec fn entries(&self) -> Map<u64, Seq<char>> {
        Map::new(|id: u64| self.by_id@.contains_key(id), |id: u64| self.by_id@[id]@)
    }

    /// The registry's state: next id, herdr id -> numeric id, numeric id ->
    /// herdr id.
    pub open spec fn model(&self) -> TabModel {
        (self.next(), self.ids(), self.entries())
    }

    /// The two maps are mutually inverse and every id lies in `[1, next)`.
    pub open spec fn consistent(&self) -> bool {
        tab_model_consistent(self.model())
    }

    /// Create an empty registry.
    pub fn new() -> (r: Self)
        ensures
            r.next() == FIRST_ID,
            r.ids() == Map::<Seq<char>, u64>::empty(),
            r.entries() == Map::<u64, Seq<char>>::empty(),
            r.model() == tab_init(),
            r.consistent(),
    {
        let r = HerdrTabRegistry {
            next_id: FIRST_ID as u64,
            by_herdr: StringHashMap::new(),
            by_id: HashMapWithView::new(),
        };
        assert(r.entries() =~= Map::<u64, Seq<char>>::empty());
        r
    }

    /// Return the stable `u64` for a herdr `tab_id`, assigning a fresh one on
    /// first sight (the next id stays pinned at `u64::MAX` once exhausted).
    #[verifier::spinoff_prover]
    pub fn assign_or_get(&mut self, herdr_tab_id: &str) -> (id: u64)
        ensures
            final(self).model() == tab_step(old(self).model(), herdr_tab_id@),
            old(self).ids().contains_key(herdr_tab_id@) ==> {
                &&& id == old(self).ids()[herdr_tab_id@]
                &&& final(self).next() == old(self).next()
                &&& final(self).ids() == old(self).ids()
                &&& final(self).entries() == old(self).entries()
            },
            !old(self).ids().contains_key(herdr_tab_id@) ==> {
                &&& id == old(self).next()
                &&& final(self).next() == (if old(self).next() < u64::MAX {
                    (old(self).next() + 1) as u64
                } else {
                    old(self).next()
                })
                &&& final(self).ids() == old(self).ids().insert(herdr_tab_id@, id)
                &&& final(self).entries() == old(self).entries().insert(id, herdr_tab_id@)
            },
            forall|k: Seq<char>| #[trigger] old(self).ids().contains_key(k) ==> {
                &&& final(self).ids().contains_key(k)
                &&& final(self).ids()[k] == old(self).ids()[k]
            },
            old(self).consistent() && (old(self).ids().contains_key(herdr_tab_id@)
                || old(self).next() < u64::MAX) ==> {
                &&& final(self).consistent()
                &&& final(self).entries().contains_key(id)
                &&& final(self).entries()[id] == herdr_tab_id@
            },
    {
        let ghost old_entries = self.entries();
        match self.by_herdr.get(herdr_tab_id) {
            Some(found) => {
                proof {
                    if self.consistent() {
                        assert(self.ids().contains_key(herdr_tab_id@));
                        assert(self.model().1.contains_key(herdr_tab_id@));
                        assert(self.entries().contains_key(*found));
                        assert(self.entries()[*found] == herdr_tab_id@);
                    }
                }
                *found
            },
            None => {
                let id = self.next_id;
                if self.next_id < u64::MAX {
                    self.next_id = self.next_id + 1;
                }
                self.by_herdr.insert(herdr_tab_id.to_owned(), id);
                self.by_id.insert(id, herdr_tab_id.to_owned());
                assert(self.entries() =~= old_entries.insert(id, herdr_tab_id@));
                assert(self.entries().contains_key(id));
                assert(self.entries()[id] == herdr_tab_id@);
                id
            },
        }
    }

    /// herdr `tab_id` for an assigned `u64`, if known.
    pub fn herdr_tab_id(&self, id: u64) -> (r: Option<String>)
        ensures
            r is Some <==> self.entries().contains_key(id),
            r matches Some(s) ==> s@ == self.entries()[id],
    {
        match self.by_id.get(&id) {
            Some(s) => Some(s.clone()),
            None => None,
        }
    }
}

/// One call on a consistent pane registry that does not exhaust the id
/// space keeps it consistent (and dense ids dense), keeps every earlier id,
/// records `(k, t)` under `k`'s id, and leaves every other pane's entry as
/// it was.
pub proof fn lemma_pane_step(m: PaneModel, k: Seq<char>, t: Seq<char>)
    requires
        pane_model_consistent(m),
        m.1.contains_key(k) || m.0 < u32::MAX,
    ensures
        ({
            let n = pane_step(m, k, t);
            &&& pane_model_consistent(n)
            &&& pane_ids_dense(m) ==> pane_ids_dense(n)
            &&& n.0 >= m.0
            &&& forall|o: Seq<char>| #[trigger] m.1.contains_key(o) ==> n.1.contains_key(o) && n.1[o] == m.1[o]
            &&& forall|o: Seq<char>| #[trigger] n.1.contains_key(o) <==> (m.1.contains_key(o) || o == k)
            &&& n.2[n.1[k]] == (k, t)
            &&& forall|o: Seq<char>|
                #[trigger] m.1.contains_key(o) && o != k ==> n.2[m.1[o]] == m.2[m.1[o]]
        }),
{
    let n = pane_step(m, k, t);
    if m.1.contains_key(k) {
        assert(m.2.contains_key(m.1[k]));
        assert forall|o: Seq<char>| #[trigger] m.1.contains_key(o) && o != k implies n.2[m.1[o]]
            == m.2[m.1[o]] by {
            assert(m.2[m.1[o]].0 == o);
            assert(m.2[m.1[k]].0 == k);
        }
        assert forall|id: u32| #[trigger] n.2.contains_key(id) implies n.1.contains_key(n.2[id].0)
            && n.1[n.2[id].0] == id by {
            assert(m.2.contains_key(id));
        }
    } else {
        assert forall|o: Seq<char>| #[trigger] m.1.contains_key(o) && o != k implies n.2[m.1[o]]
            == m.2[m.1[o]] by {
            assert(m.1[o] < m.0);
        }
        assert forall|id: u32| #[trigger] n.2.contains_key(id) implies n.1.contains_key(n.2[id].0)
            && n.1[n.2[id].0] == id by {
            if id != m.0 {
                assert(m.2.contains_key(id));
                assert(m.1.contains_key(m.2[id].0));
            }
        }
        assert forall|o: Seq<char>| #[trigger] n.1.contains_key(o) implies FIRST_ID <= n.1[o] < n.0
            && n.2.contains_key(n.1[o]) && n.2[n.1[o]].0 == o by {
            if o != k {
                assert(m.1.contains_key(o));
                assert(m.1[o] < m.0);
            }
        }
        if pane_ids_dense(m) {
            assert forall|id: u32| #[trigger] n.2.contains_key(id) <==> FIRST_ID <= id < n.0 by {
                if id != m.0 {
                    assert(m.2.contains_key(id) <==> FIRST_ID <= id < m.0);
                }
            }
        }
    }
}

/// Every call of a pane-registry history keeps the ids handed out before
/// it, and the next id never decreases.
pub proof fn lemma_pane_prefix(m: PaneModel, s: Seq<(Seq<char>, Seq<char>)>, n: int)
    requires
        0 <= n <= s.len(),
    ensures
        pane_steps(m, s.take(n)).0 <= pane_steps(m, s).0,
        forall|o: Seq<char>|
            #[trigger] pane_steps(m, s.take(n)).1.contains_key(o) ==> pane_steps(m, s).1.contains_key(o)
                && pane_steps(m, s).1[o] == pane_steps(m, s.take(n)).1[o],
    decreases s.len(),
{
    if n == s.len() {
        assert(s.take(n) =~= s);
    } else {
        assert(s.drop_last().take(n) =~= s.take(n));
        lemma_pane_prefix(m, s.drop_last(), n);
    }
}

/// A history of calls on a consistent pane registry that does not exhaust
/// the id space keeps it consistent (dense ids dense), keeps every earlier
/// id, registers exactly the herdr ids it names, records for each the
/// terminal id of its last call, and leaves other panes' entries alone.
pub proof fn lemma_pane_steps(m: PaneModel, s: Seq<(Seq<char>, Seq<char>)>)
    requires
        pane_model_consistent(m),
        pane_steps(m, s).0 < u32::MAX,
    ensures
        ({
            let f = pane_steps(m, s);
            &&& pane_model_consistent(f)
            &&& pane_ids_dense(m) ==> pane_ids_dense(f)
            &&& f.0 >= m.0
            &&& forall|o: Seq<char>| #[trigger] m.1.contains_key(o) ==> f.1.contains_key(o) && f.1[o] == m.1[o]
            &&& forall|o: Seq<char>| #[trigger] f.1.contains_key(o) <==> (m.1.contains_key(o) || seen(s, o))
            &&& forall|o: Seq<char>| seen(s, o) ==> #[trigger] f.2[f.1[o]] == (o, last_term(s, o))
            &&& forall|o: Seq<char>|
                #[trigger] m.1.contains_key(o) && !seen(s, o) ==> f.2[m.1[o]] == m.2[m.1[o]]
        }),
    decreases s.len(),
{
    if s.len() > 0 {
        let s0 = s.drop_last();
        let p = pane_steps(m, s0);
        let (k, t) = s.last();
        let f = pane_steps(m, s);
        assert(p.0 <= f.0);
        lemma_pane_steps(m, s0);
        lemma_pane_step(p, k, t);
        assert forall|o: Seq<char>| seen(s, o) <==> (seen(s0, o) || o == k) by {
            if seen(s, o) {
                let i = choose|i: int| 0 <= i < s.len() && #[trigger] s[i].0 == o;
                if i < s.len() - 1 {
                    assert(s0[i].0 == o);
                }
            }
            if seen(s0, o) {
                let i = choose|i: int| 0 <= i < s0.len() && #[trigger] s0[i].0 == o;
                assert(s[i].0 == o);
            }
            if o == k {
                assert(s[s.len() - 1].0 == o);
            }
        }
        assert forall|o: Seq<char>| seen(s, o) implies #[trigger] f.2[f.1[o]] == (o, last_term(s, o)) by {
            if o != k {
                assert(seen(s0, o));
                assert(p.1.contains_key(o));
            }
        }
        assert forall|o: Seq<char>|
            #[trigger] m.1.contains_key(o) && !seen(s, o) implies f.2[m.1[o]] == m.2[m.1[o]] by {
            assert(!seen(s0, o));
            assert(o != k);
            assert(p.1.contains_key(o));
        }
    }
}

/// The call that first names a herdr pane id gives it the then-next id.
proof fn lemma_pane_first_seen(m: PaneModel, s: Seq<(Seq<char>, Seq<char>)>, n: int)
    requires
        pane_model_consistent(m),
        pane_steps(m, s).0 < u32::MAX,
        0 <= n < s.len(),
        !seen(s.take(n), s[n].0),
        !m.1.contains_key(s[n].0),
    ensures
        pane_steps(m, s).1[s[n].0] == pane_steps(m, s.take(n)).0,
        pane_steps(m, s.take(n + 1)).0 == pane_steps(m, s.take(n)).0 + 1,
{
    let q = pane_steps(m, s.take(n));
    lemma_pane_prefix(m, s, n + 1);
    lemma_pane_prefix(m, s, n);
    assert(s.take(n + 1).drop_last() =~= s.take(n));
    assert(s.take(n + 1).last() == s[n]);
    lemma_pane_steps(m, s.take(n));
    assert(!q.1.contains_key(s[n].0));
    let q1 = pane_steps(m, s.take(n + 1));
    assert(q1 == pane_step(q, s[n].0, s[n].1));
    assert(q1.1.contains_key(s[n].0));
}

/// The history of a pane registry from `new()`: as long as the id space is
/// not exhausted, ids are handed out consecutively from 1 in order of first
/// appearance, never change once handed out, are never shared and never
/// removed, exactly the ids in `[1, next)` are known (any other id resolves
/// to nothing), and each known id resolves to its herdr pane id and the
/// terminal id of that pane's last call.
pub proof fn law_pane_registry_history(s: Seq<(Seq<char>, Seq<char>)>)
    requires
        pane_steps(pane_init(), s).0 < u32::MAX,
    ensures
        ({
            let f = pane_steps(pane_init(), s);
            &&& pane_model_consistent(f)
            &&& forall|id: u32| #[trigger] f.2.contains_key(id) <==> FIRST_ID <= id < f.0
            &&& forall|o: Seq<char>| #[trigger] f.1.contains_key(o) <==> seen(s, o)
            &&& forall|o: Seq<char>| seen(s, o) ==> #[trigger] f.2[f.1[o]] == (o, last_term(s, o))
            &&& forall|n: int, o: Seq<char>|
                0 <= n <= s.len() && #[trigger] pane_steps(pane_init(), s.take(n)).1.contains_key(o)
                    ==> f.1[o] == pane_steps(pane_init(), s.take(n)).1[o]
            &&& forall|n: int|
                0 <= n < s.len() && !seen(s.take(n), #[trigger] s[n].0) ==> {
                    &&& f.1[s[n].0] == pane_steps(pane_init(), s.take(n)).0
                    &&& pane_steps(pane_init(), s.take(n + 1)).0 == pane_steps(pane_init(), s.take(n)).0 + 1
                }
        }),
{
    let m = pane_init();
    lemma_pane_steps(m, s);
    assert forall|n: int, o: Seq<char>|
        0 <= n <= s.len() && #[trigger] pane_steps(m, s.take(n)).1.contains_key(o) implies pane_steps(m, s).1[o]
            == pane_steps(m, s.take(n)).1[o] by {
        lemma_pane_prefix(m, s, n);
    }
    assert forall|n: int| 0 <= n < s.len() && !seen(s.take(n), #[trigger] s[n].0) implies {
        &&& pane_steps(m, s).1[s[n].0] == pane_steps(m, s.take(n)).0
        &&& pane_steps(m, s.take(n + 1)).0 == pane_steps(m, s.take(n)).0 + 1
    } by {
        lemma_pane_first_seen(m, s, n);
    }
}

/// One call on a consistent tab registry that does not exhaust the id space
/// keeps it consistent (and dense ids dense), keeps every earlier id and
/// records `k` under its id.
pub proof fn lemma_tab_step(m: TabModel, k: Seq<char>)
    requires
        tab_model_consistent(m),
        m.1.contains_key(k) || m.0 < u64::MAX,
    ensures
        ({
            let n = tab_step(m, k);
            &&& tab_model_consistent(n)
            &&& tab_ids_dense(m) ==> tab_ids_dense(n)
            &&& n.0 >= m.0
            &&& forall|o: Seq<char>| #[trigger] m.1.contains_key(o) ==> n.1.contains_key(o) && n.1[o] == m.1[o]
            &&& forall|o: Seq<char>| #[trigger] n.1.contains_key(o) <==> (m.1.contains_key(o) || o == k)
            &&& n.2[n.1[k]] == k
        }),
{
    let n = tab_step(m, k);
    if !m.1.contains_key(k) {
        assert forall|id: u64| #[trigger] n.2.contains_key(id) implies n.1.contains_key(n.2[id])
            && n.1[n.2[id]] == id by {
            if id != m.0 {
                assert(m.2.contains_key(id));
                assert(m.1.contains_key(m.2[id]));
            }
        }
        assert forall|o: Seq<char>| #[trigger] n.1.contains_key(o) implies FIRST_ID <= n.1[o] < n.0
            && n.2.contains_key(n.1[o]) && n.2[n.1[o]] == o by {
            if o != k {
                assert(m.1.contains_key(o));
                assert(m.1[o] < m.0);
            }
        }
        if tab_ids_dense(m) {
            assert forall|id: u64| #[trigger] n.2.contains_key(id) <==> FIRST_ID <= id < n.0 by {
                if id != m.0 {
                    assert(m.2.contains_key(id) <==> FIRST_ID <= id < m.0);
                }
            }
        }
    } else {
        assert(m.2[m.1[k]] == k);
    }
}

/// Every call of a tab-registry history keeps the ids handed out before it,
/// and the next id never decreases.
pub proof fn lemma_tab_prefix(m: TabModel, s: Seq<Seq<char>>, n: int)
    requires
        0 <= n <= s.len(),
    ensures
        tab_steps(m, s.take(n)).0 <= tab_steps(m, s).0,
        forall|o: Seq<char>|
            #[trigger] tab_steps(m, s.take(n)).1.contains_key(o) ==> tab_steps(m, s).1.contains_key(o)
                && tab_steps(m, s).1[o] == tab_steps(m, s.take(n)).1[o],
    decreases s.len(),
{
    if n == s.len() {
        assert(s.take(n) =~= s);
    } else {
        assert(s.drop_last().take(n) =~= s.take(n));
        lemma_tab_prefix(m, s.drop_last(), n);
    }
}

/// A history of calls on a consistent tab registry that does not exhaust
/// the id space keeps it consistent (dense ids dense), keeps every earlier
/// id and registers exactly the herdr tab ids it names, each resolving back.
pub proof fn lemma_tab_steps(m: TabModel, s: Seq<Seq<char>>)
    requires
        tab_model_consistent(m),
        tab_steps(m, s).0 < u64::MAX,
    ensures
        ({
            let f = tab_steps(m, s);
            &&& tab_model_consistent(f)
            &&& tab_ids_dense(m) ==> tab_ids_dense(f)
            &&& f.0 >= m.0
            &&& forall|o: Seq<char>| #[trigger] m.1.contains_key(o) ==> f.1.contains_key(o) && f.1[o] == m.1[o]
            &&& forall|o: Seq<char>| #[trigger] f.1.contains_key(o) <==> (m.1.contains_key(o) || tab_seen(s, o))
            &&& forall|o: Seq<char>| #[trigger] f.1.contains_key(o) ==> f.2[f.1[o]] == o
        }),
    decreases s.len(),
{
    if s.len() > 0 {
        let s0 = s.drop_last();
        let p = tab_steps(m, s0);
        let k = s.last();
        let f = tab_steps(m, s);
        assert(p.0 <= f.0);
        lemma_tab_steps(m, s0);
        lemma_tab_step(p, k);
        assert forall|o: Seq<char>| tab_seen(s, o) <==> (tab_seen(s0, o) || o == k) by {
            if tab_seen(s, o) {
                let i = choose|i: int| 0 <= i < s.len() && #[trigger] s[i] == o;
                if i < s.len() - 1 {
                    assert(s0[i] == o);
                }
            }
            if tab_seen(s0, o) {
                let i = choose|i: int| 0 <= i < s0.len() && #[trigger] s0[i] == o;
                assert(s[i] == o);
            }
            if o == k {
                assert(s[s.len() - 1] == o);
            }
        }
    } else {
        assert forall|o: Seq<char>| #[trigger] m.1.contains_key(o) implies m.2[m.1[o]] == o by {}
    }
}

/// The call that first names a herdr tab id gives it the then-next id.
proof fn lemma_tab_first_seen(m: TabModel, s: Seq<Seq<char>>, n: int)
    requires
        tab_model_consistent(m),
        tab_steps(m, s).0 < u64::MAX,
        0 <= n < s.len(),
        !tab_seen(s.take(n), s[n]),
        !m.1.contains_key(s[n]),
    ensures
        tab_steps(m, s).1[s[n]] == tab_steps(m, s.take(n)).0,
        tab_steps(m, s.take(n + 1)).0 == tab_steps(m, s.take(n)).0 + 1,
{
    let q = tab_steps(m, s.take(n));
    lemma_tab_prefix(m, s, n + 1);
    lemma_tab_prefix(m, s, n);
    assert(s.take(n + 1).drop_last() =~= s.take(n));
    assert(s.take(n + 1).last() == s[n]);
    lemma_tab_steps(m, s.take(n));
    assert(!q.1.contains_key(s[n]));
    let q1 = tab_steps(m, s.take(n + 1));
    assert(q1 == tab_step(q, s[n]));
    assert(q1.1.contains_key(s[n]));
}

/// The history of a tab registry from `new()`: as long as the id space is
/// not exhausted, ids are handed out consecutively from 1 in order of first
/// appearance, never change once handed out, are never shared and never
/// removed, exactly the ids in `[1, next)` are known (any other id resolves
/// to nothing), and each known id resolves to its herdr tab id.
pub proof fn law_tab_registry_history(s: Seq<Seq<char>>)
    requires
        tab_steps(tab_init(), s).0 < u64::MAX,
    ensures
        ({
            let f = tab_steps(tab_init(), s);
            &&& tab_model_consistent(f)
            &&& forall|id: u64| #[trigger] f.2.contains_key(id) <==> FIRST_ID <= id < f.0
            &&& forall|o: Seq<char>| #[trigger] f.1.contains_key(o) <==> tab_seen(s, o)
            &&& forall|o: Seq<char>| #[trigger] f.1.contains_key(o) ==> f.2[f.1[o]] == o
            &&& forall|n: int, o: Seq<char>|
                0 <= n <= s.len() && #[trigger] tab_steps(tab_init(), s.take(n)).1.contains_key(o)
                    ==> f.1[o] == tab_steps(tab_init(), s.take(n)).1[o]
            &&& forall|n: int|
                0 <= n < s.len() && !tab_seen(s.take(n), #[trigger] s[n]) ==> {
                    &&& f.1[s[n]] == tab_steps(tab_init(), s.take(n)).0
                    &&& tab_steps(tab_init(), s.take(n + 1)).0 == tab_steps(tab_init(), s.take(n)).0 + 1
                }
        }),
{
    let m = tab_init();
    lemma_tab_steps(m, s);
    assert forall|n: int, o: Seq<char>|
        0 <= n <= s.len() && #[trigger] tab_steps(m, s.take(n)).1.contains_key(o) implies tab_steps(m, s).1[o]
            == tab_steps(m, s.take(n)).1[o] by {
        lemma_tab_prefix(m, s, n);
    }
    assert forall|n: int| 0 <= n < s.len() && !tab_seen(s.take(n), #[trigger] s[n]) implies {
        &&& tab_steps(m, s).1[s[n]] == tab_steps(m, s.take(n)).0
        &&& tab_steps(m, s.take(n + 1)).0 == tab_steps(m, s.take(n)).0 + 1
    } by {
        lemma_tab_first_seen(m, s, n);
    }
}

/// While the registry is consistent, two different herdr panes never share
/// a numeric id.
pub proof fn law_distinct_panes_distinct_ids(reg: HerdrPaneRegistry, a: Seq<char>, b: Seq<char>)
    requires
        reg.consistent(),
        reg.ids().contains_key(a),
        reg.ids().contains_key(b),
        a != b,
    ensures
        reg.ids()[a] != reg.ids()[b],
{
    assert(reg.model().1.contains_key(a));
    assert(reg.model().1.contains_key(b));
}

/// While the registry is consistent, two different herdr tabs never share a
/// numeric id.
pub proof fn law_distinct_tabs_distinct_ids(reg: HerdrTabRegistry, a: Seq<char>, b: Seq<char>)
    requires
        reg.consistent(),
        reg.ids().contains_key(a),
        reg.ids().contains_key(b),
        a != b,
    ensures
        reg.ids()[a] != reg.ids()[b],
{
    assert(reg.model().1.contains_key(a));
    assert(reg.model().1.contains_key(b));
}

} // verus!
