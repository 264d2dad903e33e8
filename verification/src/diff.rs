//! Path → identity state maps and the diff engine.
//!
//! A `StateMap` binds root-relative paths to content identities. The diff
//! engine compares a local map against the remote one and produces a
//! `SyncPlan`: the paths to upload and the paths to delete remotely. It is a
//! pure function of the two maps; identity strings are compared for equality
//! and nothing else decides.

use vstd::prelude::*;
use vstd::pervasive::VecAdditionalExecFns;

verus! {

/// Abstract contents of a sequence of (path, identity) entries; a later entry
/// overrides an earlier one with the same path.
pub open spec fn map_of(entries: Seq<(String, String)>) -> Map<Seq<char>, Seq<char>>
    decreases entries.len(),
{
    if entries.len() == 0 {
        Map::empty()
    } else {
        map_of(entries.drop_last()).insert(entries.last().0@, entries.last().1@)
    }
}

/// The entry paths are pairwise distinct.
pub open spec fn distinct_entry_keys(entries: Seq<(String, String)>) -> bool {
    forall|i: int, j: int| 0 <= i < j < entries.len() ==> entries[i].0@ != entries[j].0@
}

/// A key is in the abstract map exactly when some entry carries it.
proof fn lemma_map_of_dom(entries: Seq<(String, String)>, k: Seq<char>)
    ensures
        map_of(entries).dom().contains(k) <==> (exists|i: int|
            0 <= i < entries.len() && entries[i].0@ == k),
    decreases entries.len(),
{
    if entries.len() > 0 {
        lemma_map_of_dom(entries.drop_last(), k);
        if entries.last().0@ == k {
            assert(entries[entries.len() - 1].0@ == k);
        } else if map_of(entries).dom().contains(k) {
            let i = choose|i: int| 0 <= i < entries.drop_last().len()
                && entries.drop_last()[i].0@ == k;
            assert(entries[i].0@ == k);
        } else {
            assert(forall|i: int|
                0 <= i < entries.len() - 1 ==> entries.drop_last()[i] == #[trigger] entries[i]);
        }
    }
}

/// With distinct keys, the abstract map sends each entry's path to that
/// entry's identity.
proof fn lemma_map_of_at(entries: Seq<(String, String)>, i: int)
    requires
        distinct_entry_keys(entries),
        0 <= i < entries.len(),
    ensures
        map_of(entries).dom().contains(entries[i].0@),
        map_of(entries)[entries[i].0@] == entries[i].1@,
    decreases entries.len(),
{
    if i == entries.len() - 1 {
    } else {
        assert(forall|j: int|
            0 <= j < entries.len() - 1 ==> entries.drop_last()[j] == #[trigger] entries[j]);
        lemma_map_of_at(entries.drop_last(), i);
        assert(entries.last().0@ != entries[i].0@);
    }
}

/// Appending an entry inserts its binding.
proof fn lemma_map_of_push(entries: Seq<(String, String)>, p: String, v: String)
    ensures
        map_of(entries.push((p, v))) == map_of(entries).insert(p@, v@),
{
    assert(entries.push((p, v)).drop_last() =~= entries);
    assert(entries.push((p, v)).last() == (p, v));
}

/// Overwriting the entry that carries a path replaces that path's binding.
proof fn lemma_map_of_update(entries: Seq<(String, String)>, i: int, p: String, v: String)
    requires
        distinct_entry_keys(entries),
        0 <= i < entries.len(),
        p@ == entries[i].0@,
    ensures
        map_of(entries.update(i, (p, v))) == map_of(entries).insert(p@, v@),
        distinct_entry_keys(entries.update(i, (p, v))),
    decreases entries.len(),
{
    let updated = entries.update(i, (p, v));
    if i == entries.len() - 1 {
        assert(updated.drop_last() =~= entries.drop_last());
        assert(updated.last() == (p, v));
        assert(map_of(updated) =~= map_of(entries).insert(p@, v@));
    } else {
        assert(forall|j: int|
            0 <= j < entries.len() - 1 ==> entries.drop_last()[j] == #[trigger] entries[j]);
        assert(updated.drop_last() =~= entries.drop_last().update(i, (p, v)));
        lemma_map_of_update(entries.drop_last(), i, p, v);
        assert(updated.last() == entries.last());
        assert(entries.last().0@ != p@);
        assert(map_of(updated) =~= map_of(entries).insert(p@, v@));
    }
}

/// A map from root-relative paths to content identities, recomputed fresh for
/// every reconciliation pass.
pub struct StateMap {
    entries: Vec<(String, String)>,
}

impl View for StateMap {
    type V = Map<Seq<char>, Seq<char>>;

    closed spec fn view(&self) -> Map<Seq<char>, Seq<char>> {
        map_of(self.entries@)
    }
}

impl StateMap {
    /// The internal entry list carries each path once.
    pub closed spec fn wf(&self) -> bool {
        distinct_entry_keys(self.entries@)
    }

    /// How many paths the map binds.
    pub closed spec fn spec_len(&self) -> nat {
        self.entries@.len()
    }

    /// An empty state map.
    pub fn new() -> (r: StateMap)
        ensures
            r@ == Map::<Seq<char>, Seq<char>>::empty(),
            r.wf(),
    {
        StateMap { entries: Vec::new() }
    }

    /// Binds `path` to `identity`, replacing any existing binding for `path`.
    pub fn insert(&mut self, path: String, identity: String)
        requires
            old(self).wf(),
        ensures
            final(self)@ == old(self)@.insert(path@, identity@),
            final(self).wf(),
    {
        let n = self.entries.len();
        for i in 0..n
            invariant
                n == self.entries@.len(),
                *self == *old(self),
                distinct_entry_keys(self.entries@),
                forall|j: int| 0 <= j < i ==> self.entries@[j].0@ != path@,
        {
            if self.entries[i].0 == path {
                proof {
                    lemma_map_of_update(self.entries@, i as int, path, identity);
                }
                self.entries.set(i, (path, identity));
                return ;
            }
        }
        proof {
            lemma_map_of_push(self.entries@, path, identity);
            lemma_map_of_dom(self.entries@, path@);
        }
        self.entries.push((path, identity));
    }

    /// Looks `path` up; `Some` exactly when the map binds it, and then the
    /// bound identity.
    pub fn get(&self, path: &String) -> (r: Option<&String>)
        requires
            self.wf(),
        ensures
            match r {
                Some(v) => self@.dom().contains(path@) && v@ == self@[path@],
                None => !self@.dom().contains(path@),
            },
    {
        let n = self.entries.len();
        for i in 0..n
            invariant
                n == self.entries@.len(),
                self.wf(),
                forall|j: int| 0 <= j < i ==> self.entries@[j].0@ != path@,
        {
            if self.entries[i].0 == *path {
                proof {
                    lemma_map_of_at(self.entries@, i as int);
                }
                return Some(&self.entries[i].1);
            }
        }
        proof {
            lemma_map_of_dom(self.entries@, path@);
        }
        None
    }

    /// How many paths the map binds.
    pub fn len(&self) -> (r: usize)
        requires
            self.wf(),
        ensures
            r == self.spec_len(),
            r == self@.dom().len(),
    {
        proof {
            lemma_statemap_len(self.entries@);
        }
        self.entries.len()
    }

    /// Read access for iteration: the entry at `i`.
    pub fn entry_at(&self, i: usize) -> (r: &(String, String))
        requires
            self.wf(),
            i < self.spec_len(),
        ensures
            *r == self.spec_entry(i as int),
            self@.dom().contains(r.0@),
            self@[r.0@] == r.1@,
    {
        proof {
            lemma_map_of_at(self.entries@, i as int);
        }
        &self.entries[i]
    }

    /// The entry at index `i`.
    pub closed spec fn spec_entry(&self, i: int) -> (String, String) {
        self.entries@[i]
    }

    /// Entries at different indices carry different paths.
    pub proof fn lemma_entries_distinct(&self, i: int, j: int)
        requires
            self.wf(),
            0 <= i < j < self.spec_len(),
        ensures
            self.spec_entry(i).0@ != self.spec_entry(j).0@,
    {
    }

    /// Every bound path is carried by some entry.
    pub proof fn lemma_dom_entries(&self, k: Seq<char>)
        ensures
            self@.dom().contains(k) <==> (exists|i: int|
                0 <= i < self.spec_len() && self.spec_entry(i).0@ == k),
    {
        lemma_map_of_dom(self.entries@, k);
        if self@.dom().contains(k) {
            let i = choose|i: int| 0 <= i < self.entries@.len() && self.entries@[i].0@ == k;
            assert(self.spec_entry(i).0@ == k);
        }
        if exists|i: int| 0 <= i < self.spec_len() && self.spec_entry(i).0@ == k {
            let i = choose|i: int| 0 <= i < self.spec_len() && self.spec_entry(i).0@ == k;
            assert(self.entries@[i].0@ == k);
        }
    }
}

/// With distinct keys, the abstract domain has exactly as many paths as there
/// are entries.
proof fn lemma_statemap_len(entries: Seq<(String, String)>)
    requires
        distinct_entry_keys(entries),
    ensures
        map_of(entries).dom().len() == entries.len(),
        map_of(entries).dom().finite(),
    decreases entries.len(),
{
    broadcast use vstd::set::group_set_axioms;

    if entries.len() == 0 {
        assert(map_of(entries).dom() =~= Set::<Seq<char>>::empty());
    } else {
        assert(forall|j: int|
            0 <= j < entries.len() - 1 ==> entries.drop_last()[j] == #[trigger] entries[j]);
        lemma_statemap_len(entries.drop_last());
        lemma_map_of_dom(entries.drop_last(), entries.last().0@);
        assert(!map_of(entries.drop_last()).dom().contains(entries.last().0@));
        assert(map_of(entries).dom() =~= map_of(entries.drop_last()).dom().insert(
            entries.last().0@,
        ));
    }
}

/// The paths that must be uploaded: bound locally, and either absent remotely
/// or bound remotely to a different identity.
pub open spec fn update_spec(
    local: Map<Seq<char>, Seq<char>>,
    remote: Map<Seq<char>, Seq<char>>,
) -> Set<Seq<char>> {
    local.dom().filter(|p: Seq<char>| !remote.dom().contains(p) || remote[p] != local[p])
}

/// The paths that must be deleted remotely: bound remotely, absent locally.
pub open spec fn delete_spec(
    local: Map<Seq<char>, Seq<char>>,
    remote: Map<Seq<char>, Seq<char>>,
) -> Set<Seq<char>> {
    remote.dom().filter(|p: Seq<char>| !local.dom().contains(p))
}

/// Some element of `v` views as `p`.
pub open spec fn contains_path(v: Seq<String>, p: Seq<char>) -> bool {
    exists|i: int| 0 <= i < v.len() && v[i]@ == p
}

/// The elements of `v` view pairwise differently.
pub open spec fn distinct_paths(v: Seq<String>) -> bool {
    forall|i: int, j: int| 0 <= i < j < v.len() ==> v[i]@ != v[j]@
}

/// The result of diffing local state against remote state: the paths to
/// upload or update, and the paths to delete remotely.
pub struct SyncPlan {
    /// Paths that must be uploaded, each once.
    pub update: Vec<String>,
    /// Paths that must be deleted remotely, each once.
    pub delete: Vec<String>,
}

impl SyncPlan {
    /// The plan lists exactly the paths the two abstract sets call for, each
    /// once; it promises no order.
    pub open spec fn matches(
        self,
        local: Map<Seq<char>, Seq<char>>,
        remote: Map<Seq<char>, Seq<char>>,
    ) -> bool {
        &&& distinct_paths(self.update@)
        &&& distinct_paths(self.delete@)
        &&& forall|p: Seq<char>|
            contains_path(self.update@, p) <==> update_spec(local, remote).contains(p)
        &&& forall|p: Seq<char>|
            contains_path(self.delete@, p) <==> delete_spec(local, remote).contains(p)
    }

    /// True when the plan calls for no work at all.
    pub fn is_empty(&self) -> (r: bool)
        ensures
            r == (self.update@.len() == 0 && self.delete@.len() == 0),
    {
        self.update.is_empty() && self.delete.is_empty()
    }
}

/// Diffs the local state against the remote state.
///
/// Equality of identity strings is the sole determinant of "changed": a path
/// bound in both maps to the same identity appears in neither set.
pub fn diff(local: &StateMap, remote: &StateMap) -> (plan: SyncPlan)
    requires
        local.wf(),
        remote.wf(),
    ensures
        plan.matches(local@, remote@),
{
    let mut update: Vec<String> = Vec::new();
    let nl = local.len();
    for i in 0..nl
        invariant
            nl == local.spec_len(),
            local.wf(),
            remote.wf(),
            distinct_paths(update@),
            forall|p: Seq<char>|
                contains_path(update@, p) ==> update_spec(local@, remote@).contains(p),
            forall|p: Seq<char>|
                contains_path(update@, p) ==> (exists|j: int|
                    0 <= j < i && local.spec_entry(j).0@ == p),
            forall|j: int|
                0 <= j < i && update_spec(local@, remote@).contains(
                    #[trigger] local.spec_entry(j).0@,
                ) ==> contains_path(update@, local.spec_entry(j).0@),
    {
        let e = local.entry_at(i);
        let changed = match remote.get(&e.0) {
            Option::None => true,
            Option::Some(v) => !(*v == e.1),
        };
        if changed {
            assert(update_spec(local@, remote@).contains(e.0@));
            assert(!contains_path(update@, e.0@)) by {
                if contains_path(update@, e.0@) {
                    let j = choose|j: int| 0 <= j < i && local.spec_entry(j).0@ == e.0@;
                    local.lemma_entries_distinct(j, i as int);
                }
            }
            let ghost pre = update@;
            update.push(e.0.clone());
            assert(update@.last()@ == e.0@);
            assert forall|p: Seq<char>| #[trigger]
                contains_path(update@, p) implies contains_path(pre, p) || p == e.0@ by {
                let idx = choose|idx: int| 0 <= idx < update@.len() && update@[idx]@ == p;
                if idx < pre.len() {
                    assert(pre[idx]@ == p);
                }
            }
            assert forall|p: Seq<char>| contains_path(pre, p) implies contains_path(
                update@,
                p,
            ) by {
                let idx = choose|idx: int| 0 <= idx < pre.len() && pre[idx]@ == p;
                assert(update@[idx]@ == p);
            }
            assert(distinct_paths(update@));
        } else {
            assert(!update_spec(local@, remote@).contains(e.0@));
        }
        assert forall|p: Seq<char>| contains_path(update@, p) implies (exists|j: int|
            0 <= j < i + 1 && local.spec_entry(j).0@ == p) by {
            if p == e.0@ {
                assert(local.spec_entry(i as int).0@ == p);
            }
        }
    }
    let mut delete: Vec<String> = Vec::new();
    let nr = remote.len();
    for i in 0..nr
        invariant
            nr == remote.spec_len(),
            local.wf(),
            remote.wf(),
            distinct_paths(delete@),
            forall|p: Seq<char>|
                contains_path(delete@, p) ==> delete_spec(local@, remote@).contains(p),
            forall|p: Seq<char>|
                contains_path(delete@, p) ==> (exists|j: int|
                    0 <= j < i && remote.spec_entry(j).0@ == p),
            forall|j: int|
                0 <= j < i && delete_spec(local@, remote@).contains(
                    #[trigger] remote.spec_entry(j).0@,
                ) ==> contains_path(delete@, remote.spec_entry(j).0@),
    {
        let e = remote.entry_at(i);
        let absent = match local.get(&e.0) {
            Option::None => true,
            Option::Some(_) => false,
        };
        if absent {
            assert(delete_spec(local@, remote@).contains(e.0@));
            assert(!contains_path(delete@, e.0@)) by {
                if contains_path(delete@, e.0@) {
                    let j = choose|j: int| 0 <= j < i && remote.spec_entry(j).0@ == e.0@;
                    remote.lemma_entries_distinct(j, i as int);
                }
            }
            let ghost pre = delete@;
            delete.push(e.0.clone());
            assert(delete@.last()@ == e.0@);
            assert forall|p: Seq<char>| #[trigger]
                contains_path(delete@, p) implies contains_path(pre, p) || p == e.0@ by {
                let idx = choose|idx: int| 0 <= idx < delete@.len() && delete@[idx]@ == p;
                if idx < pre.len() {
                    assert(pre[idx]@ == p);
                }
            }
            assert forall|p: Seq<char>| contains_path(pre, p) implies contains_path(
                delete@,
                p,
            ) by {
                let idx = choose|idx: int| 0 <= idx < pre.len() && pre[idx]@ == p;
                assert(delete@[idx]@ == p);
            }
            assert(distinct_paths(delete@));
        } else {
            assert(!delete_spec(local@, remote@).contains(e.0@));
        }
        assert forall|p: Seq<char>| contains_path(delete@, p) implies (exists|j: int|
            0 <= j < i + 1 && remote.spec_entry(j).0@ == p) by {
            if p == e.0@ {
                assert(remote.spec_entry(i as int).0@ == p);
            }
        }
    }
    let plan = SyncPlan { update, delete };
    proof {
        assert forall|p: Seq<char>|
            update_spec(local@, remote@).contains(p) implies contains_path(
            plan.update@,
            p,
        ) by {
            local.lemma_dom_entries(p);
            let j = choose|j: int| 0 <= j < local.spec_len() && local.spec_entry(j).0@ == p;
            assert(update_spec(local@, remote@).contains(local.spec_entry(j).0@));
        }
        assert forall|p: Seq<char>|
            delete_spec(local@, remote@).contains(p) implies contains_path(
            plan.delete@,
            p,
        ) by {
            remote.lemma_dom_entries(p);
            let j = choose|j: int| 0 <= j < remote.spec_len() && remote.spec_entry(j).0@ == p;
            assert(delete_spec(local@, remote@).contains(remote.spec_entry(j).0@));
        }
    }
    plan
}

/// Law: the update set and the delete set of one plan are disjoint, updates
/// are always keys of the local map, and deletions keys of the remote map.
pub proof fn lemma_plan_partition(
    local: Map<Seq<char>, Seq<char>>,
    remote: Map<Seq<char>, Seq<char>>,
)
    ensures
        forall|p: Seq<char>|
            !(update_spec(local, remote).contains(p) && delete_spec(local, remote).contains(p)),
        update_spec(local, remote).subset_of(local.dom()),
        delete_spec(local, remote).subset_of(remote.dom()),
{
}

/// Law: diffing a state against itself calls for no work — both sets are
/// empty.
pub proof fn lemma_diff_identical(m: Map<Seq<char>, Seq<char>>)
    ensures
        update_spec(m, m) =~= Set::<Seq<char>>::empty(),
        delete_spec(m, m) =~= Set::<Seq<char>>::empty(),
{
}

/// Law: when the diff calls for no work at all, the local and remote states
/// already agree — together with the law above, the diff is empty exactly on
/// equal states.
pub proof fn lemma_empty_diff_means_equal(
    local: Map<Seq<char>, Seq<char>>,
    remote: Map<Seq<char>, Seq<char>>,
)
    requires
        update_spec(local, remote) =~= Set::<Seq<char>>::empty(),
        delete_spec(local, remote) =~= Set::<Seq<char>>::empty(),
    ensures
        local == remote,
{
    assert forall|p: Seq<char>| #[trigger]
        local.dom().contains(p) implies remote.dom().contains(p) && remote[p] == local[p] by {
        assert(!update_spec(local, remote).contains(p));
    }
    assert forall|p: Seq<char>| #[trigger] remote.dom().contains(p) implies local.dom().contains(
        p,
    ) by {
        assert(!delete_spec(local, remote).contains(p));
    }
    assert(local =~= remote);
}

/// Law: a plan's lists are both empty exactly when the abstract sets call for
/// no work.
pub proof fn lemma_empty_plan(
    plan: SyncPlan,
    local: Map<Seq<char>, Seq<char>>,
    remote: Map<Seq<char>, Seq<char>>,
)
    requires
        plan.matches(local, remote),
    ensures
        (plan.update@.len() == 0 && plan.delete@.len() == 0) <==> (update_spec(local, remote)
            =~= Set::<Seq<char>>::empty() && delete_spec(local, remote) =~= Set::<
            Seq<char>,
        >::empty()),
{
    if plan.update@.len() > 0 {
        assert(contains_path(plan.update@, plan.update@[0]@));
    }
    if plan.delete@.len() > 0 {
        assert(contains_path(plan.delete@, plan.delete@[0]@));
    }
    if plan.update@.len() == 0 && plan.delete@.len() == 0 {
        assert forall|p: Seq<char>| !update_spec(local, remote).contains(p) by {
            if update_spec(local, remote).contains(p) {
                assert(contains_path(plan.update@, p));
            }
        }
        assert forall|p: Seq<char>| !delete_spec(local, remote).contains(p) by {
            if delete_spec(local, remote).contains(p) {
                assert(contains_path(plan.delete@, p));
            }
        }
        assert(update_spec(local, remote) =~= Set::<Seq<char>>::empty());
        assert(delete_spec(local, remote) =~= Set::<Seq<char>>::empty());
    }
}

} // verus!
