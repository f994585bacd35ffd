//! An in-memory task repository. It realises the abstract repository the
//! handlers are written against: atomic fetch, insert, update, delete and
//! list operations over a sequence of tasks kept newest-first by
//! `created_at`, with unique identifiers.

use vstd::prelude::*;

use crate::models::Task;

verus! {

/// No two tasks in the sequence share an identifier.
pub open spec fn unique_ids(s: Seq<Task>) -> bool {
    forall|i: int, j: int| 0 <= i < j < s.len() ==> s[i].id != s[j].id
}

/// The sequence is ordered newest `created_at` first.
pub open spec fn sorted_newest_first(s: Seq<Task>) -> bool {
    forall|i: int, j: int| 0 <= i < j < s.len() ==> s[i].created_at >= s[j].created_at
}

/// Some task in the sequence carries this identifier.
pub open spec fn contains_id(s: Seq<Task>, id: u128) -> bool {
    exists|i: int| 0 <= i < s.len() && s[i].id == id
}

/// The index of the task carrying this identifier; meaningful when
/// `contains_id(s, id)` holds and identifiers are unique.
pub open spec fn index_of_id(s: Seq<Task>, id: u128) -> int {
    choose|i: int| 0 <= i < s.len() && s[i].id == id
}

/// The task carrying this identifier.
pub open spec fn task_with_id(s: Seq<Task>, id: u128) -> Task {
    s[index_of_id(s, id)]
}

/// The listing position a task belongs at: the first index whose entry was
/// created no later than `t`. A new task goes in front of every entry with
/// the same `created_at`.
pub open spec fn insert_pos(s: Seq<Task>, t: Task) -> int
    decreases s.len(),
{
    if s.len() == 0 {
        0
    } else if s[0].created_at <= t.created_at {
        0
    } else {
        1 + insert_pos(s.drop_first(), t)
    }
}

/// The sequence with `t` inserted at its listing position.
pub open spec fn insert_sorted(s: Seq<Task>, t: Task) -> Seq<Task> {
    s.insert(insert_pos(s, t), t)
}

/// The listing position is in range, every entry before it is strictly
/// newer than `t`, and the entry at it (when there is one) is no newer.
pub proof fn lemma_insert_pos_properties(s: Seq<Task>, t: Task)
    ensures
        0 <= insert_pos(s, t) <= s.len(),
        forall|k: int| 0 <= k < insert_pos(s, t) ==> s[k].created_at > t.created_at,
        insert_pos(s, t) < s.len() ==> s[insert_pos(s, t)].created_at <= t.created_at,
    decreases s.len(),
{
    if s.len() == 0 {
    } else if s[0].created_at <= t.created_at {
    } else {
        lemma_insert_pos_properties(s.drop_first(), t);
        assert forall|k: int| 0 <= k < insert_pos(s, t) implies s[k].created_at > t.created_at by {
            if k > 0 {
                assert(s.drop_first()[k - 1] == s[k]);
            }
        }
        if insert_pos(s, t) < s.len() {
            assert(s.drop_first()[insert_pos(s.drop_first(), t)] == s[insert_pos(s, t)]);
        }
    }
}

/// Any index with the three properties above is the listing position.
pub proof fn lemma_insert_pos_agrees(s: Seq<Task>, t: Task, i: int)
    requires
        0 <= i <= s.len(),
        forall|k: int| 0 <= k < i ==> s[k].created_at > t.created_at,
        i < s.len() ==> s[i].created_at <= t.created_at,
    ensures
        i == insert_pos(s, t),
    decreases s.len(),
{
    if s.len() == 0 {
    } else if s[0].created_at <= t.created_at {
        if i > 0 {
            assert(s[0].created_at > t.created_at);
        }
    } else {
        assert(i >= 1) by {
            if i == 0 {
                assert(s[0].created_at <= t.created_at);
            }
        }
        assert forall|k: int| 0 <= k < i - 1 implies s.drop_first()[k].created_at > t.created_at by {
            assert(s.drop_first()[k] == s[k + 1]);
        }
        if i - 1 < s.drop_first().len() {
            assert(s.drop_first()[i - 1] == s[i]);
        }
        lemma_insert_pos_agrees(s.drop_first(), t, i - 1);
    }
}

/// Inserting at the listing position keeps the newest-first order.
pub proof fn lemma_insert_sorted_ordered(s: Seq<Task>, t: Task)
    requires
        sorted_newest_first(s),
    ensures
        sorted_newest_first(insert_sorted(s, t)),
{
    let pos = insert_pos(s, t);
    lemma_insert_pos_properties(s, t);
    s.insert_ensures(pos, t);
    let r = insert_sorted(s, t);
    assert forall|i: int, j: int| 0 <= i < j < r.len() implies r[i].created_at
        >= r[j].created_at by {
        if j < pos {
        } else if i < pos && j == pos {
            assert(r[i] == s[i]);
        } else if i < pos && j > pos {
            assert(r[i] == s[i]);
            assert(r[j] == s[j - 1]);
        } else if i == pos && j > pos {
            assert(r[j] == s[j - 1]);
            assert(s[pos].created_at <= t.created_at);
            if j - 1 > pos {
                assert(s[pos].created_at >= s[j - 1].created_at);
            }
        } else {
            assert(r[i] == s[i - 1]);
            assert(r[j] == s[j - 1]);
        }
    }
}

/// Inserting a task adds exactly its identifier to those present.
pub proof fn lemma_insert_sorted_ids(s: Seq<Task>, t: Task)
    ensures
        forall|x: u128|
            contains_id(insert_sorted(s, t), x) <==> (contains_id(s, x) || x == t.id),
        unique_ids(s) && !contains_id(s, t.id) ==> unique_ids(insert_sorted(s, t)),
{
    let pos = insert_pos(s, t);
    lemma_insert_pos_properties(s, t);
    s.insert_ensures(pos, t);
    let r = insert_sorted(s, t);
    assert forall|x: u128| contains_id(r, x) implies (contains_id(s, x) || x == t.id) by {
        let i = choose|i: int| 0 <= i < r.len() && r[i].id == x;
        if i < pos {
            assert(s[i].id == x);
        } else if i == pos {
        } else {
            assert(s[i - 1].id == x);
        }
    }
    assert forall|x: u128| (contains_id(s, x) || x == t.id) implies contains_id(r, x) by {
        if x == t.id {
            assert(r[pos].id == x);
        } else {
            let i = choose|i: int| 0 <= i < s.len() && s[i].id == x;
            if i < pos {
                assert(r[i].id == x);
            } else {
                assert(r[i + 1].id == x);
            }
        }
    }
    if unique_ids(s) && !contains_id(s, t.id) {
        assert forall|i: int, j: int| 0 <= i < j < r.len() implies r[i].id != r[j].id by {
            if i < pos && j < pos {
            } else if i < pos && j == pos {
                assert(r[i] == s[i]);
                if r[i].id == t.id {
                    assert(contains_id(s, t.id));
                }
            } else if i < pos && j > pos {
                assert(r[i] == s[i]);
                assert(r[j] == s[j - 1]);
            } else if i == pos {
                assert(r[j] == s[j - 1]);
                if r[j].id == t.id {
                    assert(contains_id(s, t.id));
                }
            } else {
                assert(r[i] == s[i - 1]);
                assert(r[j] == s[j - 1]);
            }
        }
    }
}

/// Inserting at the listing position adds exactly `t` to the stored
/// collection of tasks.
pub proof fn lemma_insert_sorted_multiset(s: Seq<Task>, t: Task)
    ensures
        insert_sorted(s, t).to_multiset() == s.to_multiset().insert(t),
        insert_sorted(s, t).len() == s.len() + 1,
{
    broadcast use vstd::seq_lib::group_to_multiset_ensures;

    let pos = insert_pos(s, t);
    lemma_insert_pos_properties(s, t);
    s.insert_ensures(pos, t);
    let r = insert_sorted(s, t);
    r.remove_ensures(pos);
    assert(r.remove(pos) =~= s);
    assert(r.remove(pos).to_multiset() =~= r.to_multiset().remove(r[pos]));
    assert(r.contains(t)) by {
        assert(r[pos] == t);
    }
    assert(r.to_multiset().count(t) > 0);
    assert(r.to_multiset() =~= s.to_multiset().insert(t)) by {
        assert(s.to_multiset() == r.to_multiset().remove(t));
    }
}

/// The repository of tasks. Viewed as the sequence of stored tasks in
/// listing order (newest `created_at` first).
pub struct TaskStore {
    tasks: Vec<Task>,
}

impl View for TaskStore {
    type V = Seq<Task>;

    closed spec fn view(&self) -> Seq<Task> {
        self.tasks@
    }
}

impl TaskStore {
    /// The repository invariant: identifiers unique, listing order kept.
    pub open spec fn wf(&self) -> bool {
        unique_ids(self@) && sorted_newest_first(self@)
    }

    /// An empty repository.
    pub fn new() -> (s: Self)
        ensures
            s@ =~= Seq::<Task>::empty(),
            s.wf(),
    {
        TaskStore { tasks: Vec::new() }
    }

    /// How many tasks are stored.
    pub fn len(&self) -> (n: usize)
        ensures
            n == self@.len(),
    {
        self.tasks.len()
    }

    /// Whether a task with this identifier is stored.
    pub fn contains(&self, id: u128) -> (r: bool)
        ensures
            r == contains_id(self@, id),
    {
        let n = self.tasks.len();
        let mut i: usize = 0;
        while i < n
            invariant
                0 <= i <= n,
                n == self@.len(),
                self@ == self.tasks@,
                forall|k: int| 0 <= k < i ==> self@[k].id != id,
            decreases n - i,
        {
            if self.tasks[i].id == id {
                assert(contains_id(self@, id));
                return true;
            }
            i = i + 1;
        }
        false
    }

    /// Fetches the stored task with this identifier, or nothing when the
    /// identifier resolves to no record.
    pub fn fetch_by_id(&self, id: u128) -> (r: Option<Task>)
        requires
            self.wf(),
        ensures
            match r {
                Some(t) => contains_id(self@, id) && t == task_with_id(self@, id) && t.id == id,
                None => !contains_id(self@, id),
            },
    {
        let n = self.tasks.len();
        let mut i: usize = 0;
        while i < n
            invariant
                0 <= i <= n,
                n == self@.len(),
                self@ == self.tasks@,
                self.wf(),
                forall|k: int| 0 <= k < i ==> self@[k].id != id,
            decreases n - i,
        {
            if self.tasks[i].id == id {
                proof {
                    assert(contains_id(self@, id));
                    let j = index_of_id(self@, id);
                    assert(0 <= j < self@.len() && self@[j].id == id);
                    if j != i {
                        assert(false);
                    }
                }
                return Some(self.tasks[i].clone());
            }
            i = i + 1;
        }
        None
    }

    /// Stores a new task at its listing position and returns the stored
    /// record. The caller supplies a task whose identifier is not in use.
    pub fn insert(&mut self, t: Task) -> (r: Task)
        requires
            old(self).wf(),
            !contains_id(old(self)@, t.id),
        ensures
            r == t,
            final(self)@ == insert_sorted(old(self)@, t),
            final(self).wf(),
            final(self)@.len() == old(self)@.len() + 1,
            final(self)@.to_multiset() == old(self)@.to_multiset().insert(t),
            forall|x: u128|
                contains_id(final(self)@, x) <==> (contains_id(old(self)@, x) || x == t.id),
    {
        let n = self.tasks.len();
        let mut i: usize = 0;
        while i < n && self.tasks[i].created_at > t.created_at
            invariant
                0 <= i <= n,
                n == self@.len(),
                self@ == self.tasks@,
                self@ == old(self)@,
                forall|k: int| 0 <= k < i ==> self@[k].created_at > t.created_at,
            decreases n - i,
        {
            i = i + 1;
        }
        proof {
            lemma_insert_pos_agrees(old(self)@, t, i as int);
            lemma_insert_sorted_ordered(old(self)@, t);
            lemma_insert_sorted_ids(old(self)@, t);
            lemma_insert_sorted_multiset(old(self)@, t);
        }
        let r = t.clone();
        self.tasks.insert(i, t);
        r
    }

    /// Replaces the mutable fields of the stored task with this identifier
    /// by storing the supplied record in its place; the record keeps the
    /// identifier and the creation time of the stored task. Returns the
    /// stored record, or nothing when the identifier resolves to no record.
    pub fn update_by_id(&mut self, id: u128, t: Task) -> (r: Option<Task>)
        requires
            old(self).wf(),
            t.id == id,
            contains_id(old(self)@, id) ==> t.created_at == task_with_id(
                old(self)@,
                id,
            ).created_at,
        ensures
            match r {
                Some(stored) => contains_id(old(self)@, id) && stored == t && final(self)@
                    == old(self)@.update(index_of_id(old(self)@, id), t) && final(self).wf(),
                None => !contains_id(old(self)@, id) && final(self)@ == old(self)@,
            },
    {
        let n = self.tasks.len();
        let mut i: usize = 0;
        while i < n
            invariant
                0 <= i <= n,
                n == self@.len(),
                self@ == self.tasks@,
                self@ == old(self)@,
                self.wf(),
                t.id == id,
                contains_id(self@, id) ==> t.created_at == task_with_id(self@, id).created_at,
                forall|k: int| 0 <= k < i ==> self@[k].id != id,
            decreases n - i,
        {
            if self.tasks[i].id == id {
                proof {
                    assert(contains_id(old(self)@, id));
                    let j = index_of_id(old(self)@, id);
                    assert(0 <= j < old(self)@.len() && old(self)@[j].id == id);
                    if j != i {
                        assert(false);
                    }
                }
                let r = t.clone();
                let ghost s = self@;
                self.tasks[i] = t;
                proof {
                    assert(self@ == s.update(i as int, t));
                    assert forall|p: int, q: int| 0 <= p < q < self@.len() implies self@[p].id
                        != self@[q].id by {
                        assert(s[p].id == if p == i as int {
                            id
                        } else {
                            self@[p].id
                        });
                        assert(s[q].id == if q == i as int {
                            id
                        } else {
                            self@[q].id
                        });
                    }
                    assert forall|p: int, q: int| 0 <= p < q < self@.len() implies
                        self@[p].created_at >= self@[q].created_at by {
                        assert(s[p].created_at == self@[p].created_at);
                        assert(s[q].created_at == self@[q].created_at);
                    }
                }
                return Some(r);
            }
            i = i + 1;
        }
        None
    }

    /// Deletes the stored task with this identifier. Returns whether a
    /// record was deleted; asking again for the same identifier afterwards
    /// finds nothing.
    pub fn delete_by_id(&mut self, id: u128) -> (r: bool)
        requires
            old(self).wf(),
        ensures
            r == contains_id(old(self)@, id),
            r ==> final(self)@ == old(self)@.remove(index_of_id(old(self)@, id)) && !contains_id(
                final(self)@,
                id,
            ),
            !r ==> final(self)@ == old(self)@,
            final(self).wf(),
            forall|x: u128|
                x != id ==> (contains_id(final(self)@, x) <==> contains_id(old(self)@, x)),
    {
        let n = self.tasks.len();
        let mut i: usize = 0;
        while i < n
            invariant
                0 <= i <= n,
                n == self@.len(),
                self@ == self.tasks@,
                self@ == old(self)@,
                self.wf(),
                forall|k: int| 0 <= k < i ==> self@[k].id != id,
            decreases n - i,
        {
            if self.tasks[i].id == id {
                proof {
                    assert(contains_id(old(self)@, id));
                    let j = index_of_id(old(self)@, id);
                    assert(0 <= j < old(self)@.len() && old(self)@[j].id == id);
                    if j != i {
                        assert(false);
                    }
                    old(self)@.remove_ensures(i as int);
                }
                let ghost s = self@;
                self.tasks.remove(i);
                proof {
                    assert forall|k: int| 0 <= k < self@.len() implies self@[k].id != id by {
                        if k < i {
                            assert(self@[k] == s[k]);
                        } else {
                            assert(self@[k] == s[k + 1]);
                        }
                    }
                    assert forall|p: int, q: int| 0 <= p < q < self@.len() implies self@[p].id
                        != self@[q].id && self@[p].created_at >= self@[q].created_at by {
                        let p0: int = if p < i {
                            p
                        } else {
                            p + 1
                        };
                        let q0: int = if q < i {
                            q
                        } else {
                            q + 1
                        };
                        assert(self@[p] == s[p0]);
                        assert(self@[q] == s[q0]);
                    }
                    assert forall|x: u128|
                        x != id && contains_id(s, x) implies contains_id(self@, x) by {
                        let k = choose|k: int| 0 <= k < s.len() && s[k].id == x;
                        if k < i {
                            assert(self@[k].id == x);
                        } else {
                            assert(self@[k - 1].id == x);
                        }
                    }
                    assert forall|x: u128|
                        x != id && contains_id(self@, x) implies contains_id(s, x) by {
                        let k = choose|k: int| 0 <= k < self@.len() && self@[k].id == x;
                        if k < i {
                            assert(s[k].id == x);
                        } else {
                            assert(s[k + 1].id == x);
                        }
                    }
                }
                return true;
            }
            i = i + 1;
        }
        false
    }

    /// Lists every stored task, newest `created_at` first.
    pub fn list_all(&self) -> (r: Vec<Task>)
        ensures
            r@ == self@,
    {
        let n = self.tasks.len();
        let mut out: Vec<Task> = Vec::new();
        let mut i: usize = 0;
        while i < n
            invariant
                0 <= i <= n,
                n == self@.len(),
                self@ == self.tasks@,
                out@.len() == i,
                forall|k: int| 0 <= k < i ==> out@[k] == self@[k],
            decreases n - i,
        {
            out.push(self.tasks[i].clone());
            i = i + 1;
        }
        proof {
            assert(out@ =~= self@);
        }
        out
    }
}

/// After a task is deleted its identifier resolves to nothing: a fetch
/// finds no record, and a second delete of the same identifier finds no
/// record either.
pub proof fn lemma_delete_then_gone(s: Seq<Task>, id: u128)
    requires
        unique_ids(s),
        contains_id(s, id),
    ensures
        !contains_id(s.remove(index_of_id(s, id)), id),
{
    let i = index_of_id(s, id);
    assert(0 <= i < s.len() && s[i].id == id);
    s.remove_ensures(i);
    let r = s.remove(i);
    assert forall|k: int| 0 <= k < r.len() implies r[k].id != id by {
        if k < i {
            assert(r[k] == s[k]);
        } else {
            assert(r[k] == s[k + 1]);
        }
    }
}

/// The repository contents after a sequence of insertions, one per created
/// task, starting from an empty repository.
pub open spec fn store_after_creates(ts: Seq<Task>) -> Seq<Task>
    decreases ts.len(),
{
    if ts.len() == 0 {
        Seq::empty()
    } else {
        insert_sorted(store_after_creates(ts.drop_last()), ts.last())
    }
}

/// Listing after creating a collection of tasks with fresh identifiers
/// yields exactly those tasks, newest `created_at` first.
pub proof fn lemma_listing_after_creates(ts: Seq<Task>)
    requires
        forall|i: int, j: int| 0 <= i < j < ts.len() ==> ts[i].id != ts[j].id,
    ensures
        store_after_creates(ts).to_multiset() == ts.to_multiset(),
        store_after_creates(ts).len() == ts.len(),
        sorted_newest_first(store_after_creates(ts)),
        unique_ids(store_after_creates(ts)),
        forall|x: u128|
            contains_id(store_after_creates(ts), x) <==> exists|k: int|
                0 <= k < ts.len() && ts[k].id == x,
    decreases ts.len(),
{
    broadcast use vstd::seq_lib::group_to_multiset_ensures;

    if ts.len() == 0 {
        assert(store_after_creates(ts).to_multiset() =~= ts.to_multiset());
    } else {
        let prefix = ts.drop_last();
        let t = ts.last();
        lemma_listing_after_creates(prefix);
        let before = store_after_creates(prefix);
        assert(!contains_id(before, t.id)) by {
            if contains_id(before, t.id) {
                let k = choose|k: int| 0 <= k < prefix.len() && prefix[k].id == t.id;
                assert(ts[k].id == ts[ts.len() - 1].id);
            }
        }
        lemma_insert_sorted_ordered(before, t);
        lemma_insert_sorted_ids(before, t);
        lemma_insert_sorted_multiset(before, t);
        assert(prefix.push(t) =~= ts);
        assert(ts.to_multiset() == prefix.to_multiset().insert(t));
        assert forall|x: u128| contains_id(store_after_creates(ts), x) implies exists|k: int|
            0 <= k < ts.len() && ts[k].id == x by {
            if x == t.id {
                assert(ts[ts.len() - 1].id == x);
            } else {
                assert(contains_id(before, x));
                assert(exists|k: int| 0 <= k < prefix.len() && prefix[k].id == x);
                let k = choose|k: int| 0 <= k < prefix.len() && prefix[k].id == x;
                assert(prefix[k] == ts[k]);
                assert(ts[k].id == x);
            }
        }
        assert forall|x: u128|
            (exists|k: int| 0 <= k < ts.len() && ts[k].id == x) implies contains_id(
            store_after_creates(ts),
            x,
        ) by {
            let k = choose|k: int| 0 <= k < ts.len() && ts[k].id == x;
            if k == ts.len() - 1 {
                assert(x == t.id);
                assert(contains_id(insert_sorted(before, t), x));
            } else {
                assert(prefix[k] == ts[k]);
                assert(exists|m: int| 0 <= m < prefix.len() && prefix[m].id == x);
                assert(contains_id(before, x));
                assert(contains_id(insert_sorted(before, t), x));
            }
        }
    }
}

} // verus!
