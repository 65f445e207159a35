//! The delay queue: a binary min-heap of actions, ordered by due instant.
//!
//! The queue is described by the multiset of its entries. It never merges
//! two entries of one kind by itself: a caller that wants one entry per kind
//! calls `remove_action` before `schedule`.
use vstd::prelude::*;
use vstd::multiset::*;
use super::action::{Action, ActionClass, ActionKind, Entry};

verus! {

/// How long the scheduler sleeps when nothing is queued: one day, in
/// milliseconds.
pub const LONG_1D_SLUMBER: u64 = 86_400_000;

/// `<[T]>::swap` exchanges the elements at the two positions and leaves the
/// others where they are. It panics when a position is out of bounds, which
/// the precondition rules out.
pub assume_specification<T>[ <[T]>::swap ](s: &mut [T], a: usize, b: usize)
    requires
        a < old(s)@.len(),
        b < old(s)@.len(),
    ensures
        final(s)@ == old(s)@.update(a as int, old(s)@[b as int]).update(
            b as int,
            old(s)@[a as int],
        ),
;

/// The entries that a sequence of actions stands for, in the same order.
pub open spec fn entries(s: Seq<Action>) -> Seq<Entry> {
    s.map_values(|a: Action| a@)
}

/// `e` is in `m` and nothing in `m` is due before it.
pub open spec fn is_earliest(m: Multiset<Entry>, e: Entry) -> bool {
    &&& m.contains(e)
    &&& forall|o: Entry| m.contains(o) ==> e.due <= o.due
}

/// The entries of `m` that are of the given kind.
pub open spec fn of_kind(m: Multiset<Entry>, kind: ActionKind) -> Multiset<Entry> {
    m.filter(|e: Entry| e.kind == kind)
}

/// The entries of `m` that are not of the given kind.
pub open spec fn not_of_kind(m: Multiset<Entry>, kind: ActionKind) -> Multiset<Entry> {
    m.filter(|e: Entry| e.kind != kind)
}

/// The entries of `m` that are due at `now` or before.
pub open spec fn due_by(m: Multiset<Entry>, now: u64) -> Multiset<Entry> {
    m.filter(|e: Entry| e.due <= now)
}

/// The entries of `m` that are due after `now`.
pub open spec fn due_after(m: Multiset<Entry>, now: u64) -> Multiset<Entry> {
    m.filter(|e: Entry| e.due > now)
}

/// The sequence is in non-decreasing order of due instant.
pub open spec fn sorted_by_due(s: Seq<Entry>) -> bool {
    forall|i: int, j: int| 0 <= i <= j < s.len() ==> s[i].due <= s[j].due
}

/// What `Queue::pop` does to the entries `before`, given the instant `now`:
/// the result `popped` and the entries `after` the call.
pub open spec fn pop_relation(
    before: Multiset<Entry>,
    now: u64,
    popped: Option<Entry>,
    after: Multiset<Entry>,
) -> bool {
    match popped {
        Some(e) => is_earliest(before, e) && e.due <= now && after == before.remove(e),
        None => after == before && forall|o: Entry| before.contains(o) ==> o.due > now,
    }
}

/// Time left from `now` until `due`, zero when `due` has passed.
pub open spec fn time_until(due: u64, now: u64) -> u64 {
    if due > now {
        (due - now) as u64
    } else {
        0
    }
}

spec fn parent(i: int) -> int {
    (i - 1) / 2
}

/// Every element whose parent sits at position `k` or later is due no
/// earlier than that parent.
spec fn ordered_from(s: Seq<Action>, k: int) -> bool {
    forall|i: int| 0 < i < s.len() && parent(i) >= k ==> s[parent(i)].due <= #[trigger] s[i].due
}

proof fn lemma_update_multiset<A>(s: Seq<A>, i: int, x: A)
    requires
        0 <= i < s.len(),
    ensures
        s.update(i, x).to_multiset() =~= s.to_multiset().remove(s[i]).insert(x),
{
    broadcast use vstd::seq_lib::group_to_multiset_ensures;

    assert(s.update(i, x) =~= s.remove(i).insert(i, x));
    assert(s.remove(i).to_multiset() =~= s.to_multiset().remove(s[i]));
    assert(s.remove(i).insert(i, x).to_multiset() =~= s.remove(i).to_multiset().insert(x));
}

proof fn lemma_swap_multiset<A>(s: Seq<A>, i: int, j: int)
    requires
        0 <= i < s.len(),
        0 <= j < s.len(),
    ensures
        s.update(i, s[j]).update(j, s[i]).to_multiset() =~= s.to_multiset(),
{
    broadcast use vstd::seq_lib::group_to_multiset_ensures;

    let s1 = s.update(i, s[j]);
    lemma_update_multiset(s, i, s[j]);
    lemma_update_multiset(s1, j, s[i]);
    assert(s.to_multiset().count(s[i]) > 0) by {
        assert(s.contains(s[i]));
    }
    assert(s.to_multiset().count(s[j]) > 0) by {
        assert(s.contains(s[j]));
    }
    if i == j {
        assert(s.update(i, s[j]).update(j, s[i]) =~= s);
    }
}

proof fn lemma_swap_entries(s: Seq<Action>, i: int, j: int)
    requires
        0 <= i < s.len(),
        0 <= j < s.len(),
    ensures
        entries(s.update(i, s[j]).update(j, s[i])).to_multiset() =~= entries(s).to_multiset(),
{
    let e = entries(s);
    assert(entries(s.update(i, s[j]).update(j, s[i])) =~= e.update(i, e[j]).update(j, e[i]));
    lemma_swap_multiset(e, i, j);
}

proof fn lemma_no_entries(s: Seq<Action>)
    requires
        s.len() == 0,
    ensures
        entries(s).to_multiset() == Multiset::<Entry>::empty(),
{
    broadcast use vstd::seq_lib::group_to_multiset_ensures;

    assert(entries(s).to_multiset().len() == 0);
    lemma_multiset_empty_len(entries(s).to_multiset());
    assert(entries(s).to_multiset() =~= Multiset::<Entry>::empty());
}

proof fn lemma_push_entry(s: Seq<Action>, a: Action)
    ensures
        entries(s.push(a)).to_multiset() == entries(s).to_multiset().insert(a@),
{
    broadcast use vstd::seq_lib::group_to_multiset_ensures;

    assert(entries(s.push(a)) =~= entries(s).push(a@));
    assert(entries(s).push(a@).to_multiset() =~= entries(s).to_multiset().insert(a@));
}

/// In a heap the root is due no later than any other element.
proof fn lemma_root_is_earliest(s: Seq<Action>, i: int)
    requires
        ordered_from(s, 0),
        0 <= i < s.len(),
    ensures
        s[0].due <= s[i].due,
    decreases i,
{
    if i > 0 {
        lemma_root_is_earliest(s, parent(i));
    }
}

proof fn lemma_contains_entry(s: Seq<Action>, e: Entry)
    ensures
        entries(s).to_multiset().contains(e) <==> exists|i: int|
            0 <= i < s.len() && (#[trigger] s[i])@ == e,
{
    broadcast use vstd::seq_lib::group_to_multiset_ensures;

    let es = entries(s);
    if es.to_multiset().contains(e) {
        assert(es.contains(e));
        let i = choose|i: int| 0 <= i < es.len() && es[i] == e;
        assert(s[i]@ == e);
    }
    if exists|i: int| 0 <= i < s.len() && (#[trigger] s[i])@ == e {
        let i = choose|i: int| 0 <= i < s.len() && (#[trigger] s[i])@ == e;
        assert(es[i] == e);
        assert(es.contains(e));
    }
}

/// Moves the element at `k` down until it is due no later than its children.
fn sift_down(v: &mut Vec<Action>, k: usize)
    requires
        k < old(v)@.len(),
        ordered_from(old(v)@, k + 1),
    ensures
        final(v)@.len() == old(v)@.len(),
        ordered_from(final(v)@, k as int),
        entries(final(v)@).to_multiset() == entries(old(v)@).to_multiset(),
{
    let n = v.len();
    let mut p = k;
    let mut settled = false;
    while !settled && p < n / 2
        invariant
            v@.len() == n,
            n == old(v)@.len(),
            k <= p < n,
            entries(v@).to_multiset() == entries(old(v)@).to_multiset(),
            forall|i: int|
                0 < i < n && parent(i) >= k && parent(i) != p ==> v@[parent(i)].due <= (
                #[trigger] v@[i]).due,
            p > k ==> forall|c: int|
                0 < c < n && parent(c) == p ==> v@[parent(p as int)].due <= (#[trigger] v@[c]).due,
            settled ==> forall|c: int|
                0 < c < n && parent(c) == p ==> v@[p as int].due <= (#[trigger] v@[c]).due,
        decreases n - p, if settled { 0int } else { 1int },
    {
        let left = 2 * p + 1;
        let right = left + 1;
        let mut m = left;
        if right < n && v[right].due < v[left].due {
            m = right;
        }
        assert(forall|c: int| 0 < c < n && parent(c) == p ==> c == left || c == right);
        if v[p].due <= v[m].due {
            settled = true;
        } else {
            proof {
                lemma_swap_entries(v@, p as int, m as int);
            }
            v.swap(p, m);
            p = m;
        }
    }
    assert(forall|c: int| 0 < c < n && parent(c) == p ==> v@[p as int].due <= (#[trigger] v@[c]).due);
}

/// Moves the element at `pos` up until its parent is due no later than it.
fn sift_up(v: &mut Vec<Action>, pos: usize)
    requires
        pos < old(v)@.len(),
        forall|i: int|
            0 < i < old(v)@.len() && i != pos ==> old(v)@[parent(i)].due <= (#[trigger] old(
                v,
            )@[i]).due,
        pos > 0 ==> forall|c: int|
            0 < c < old(v)@.len() && parent(c) == pos ==> old(v)@[parent(pos as int)].due <= (
            #[trigger] old(v)@[c]).due,
    ensures
        final(v)@.len() == old(v)@.len(),
        ordered_from(final(v)@, 0),
        entries(final(v)@).to_multiset() == entries(old(v)@).to_multiset(),
{
    let n = v.len();
    let mut p = pos;
    let mut settled = false;
    while !settled && p > 0
        invariant
            v@.len() == n,
            n == old(v)@.len(),
            p < n,
            entries(v@).to_multiset() == entries(old(v)@).to_multiset(),
            forall|i: int|
                0 < i < n && i != p ==> v@[parent(i)].due <= (#[trigger] v@[i]).due,
            p > 0 ==> forall|c: int|
                0 < c < n && parent(c) == p ==> v@[parent(p as int)].due <= (#[trigger] v@[c]).due,
            settled ==> p > 0 && v@[parent(p as int)].due <= v@[p as int].due,
        decreases p, if settled { 0int } else { 1int },
    {
        let q = (p - 1) / 2;
        if v[q].due <= v[p].due {
            settled = true;
        } else {
            proof {
                lemma_swap_entries(v@, q as int, p as int);
            }
            v.swap(q, p);
            p = q;
        }
    }
}

/// Orders the elements as a heap, in time linear in their number.
fn heapify(v: &mut Vec<Action>)
    ensures
        final(v)@.len() == old(v)@.len(),
        ordered_from(final(v)@, 0),
        entries(final(v)@).to_multiset() == entries(old(v)@).to_multiset(),
{
    let n = v.len();
    let mut k = n / 2;
    while k > 0
        invariant
            v@.len() == n,
            n == old(v)@.len(),
            k <= n / 2,
            ordered_from(v@, k as int),
            entries(v@).to_multiset() == entries(old(v)@).to_multiset(),
        decreases k,
    {
        k -= 1;
        sift_down(v, k);
    }
}

/// A queue of scheduled actions from which the earliest comes out first.
pub struct Queue {
    heap: Vec<Action>,
}

impl Queue {
    #[verifier::type_invariant]
    spec fn heap_ordered(&self) -> bool {
        ordered_from(self.heap@, 0)
    }

    /// The entries of the queue.
    pub closed spec fn view(&self) -> Multiset<Entry> {
        entries(self.heap@).to_multiset()
    }

    /// An empty queue.
    pub fn new() -> (q: Self)
        ensures
            q@ == Multiset::<Entry>::empty(),
    {
        let q = Queue { heap: Vec::new() };
        proof {
            lemma_no_entries(q.heap@);
        }
        q
    }

    /// Number of entries.
    pub fn len(&self) -> (n: usize)
        ensures
            n == self@.len(),
    {
        broadcast use vstd::seq_lib::group_to_multiset_ensures;

        assert(entries(self.heap@).len() == self.heap@.len());
        self.heap.len()
    }

    /// Adds an entry. An entry of the same kind that is already queued
    /// stays.
    pub fn schedule(&mut self, due: u64, event: ActionClass)
        ensures
            final(self)@ == old(self)@.insert(Entry { due, kind: event@ }),
    {
        broadcast use vstd::seq_lib::group_to_multiset_ensures;

        proof {
            use_type_invariant(&*self);
        }
        let mut heap: Vec<Action> = Vec::new();
        core::mem::swap(&mut self.heap, &mut heap);
        let ghost before = heap@;
        let action = Action { due, event };
        proof {
            lemma_push_entry(before, action);
        }
        heap.push(action);
        let pos = heap.len() - 1;
        sift_up(&mut heap, pos);
        core::mem::swap(&mut self.heap, &mut heap);
    }

    /// Removes every entry of the given kind.
    pub fn remove_action(&mut self, event: &ActionClass)
        ensures
            final(self)@ == not_of_kind(old(self)@, event@),
    {
        broadcast use vstd::seq_lib::group_to_multiset_ensures;

        let mut rest: Vec<Action> = Vec::new();
        core::mem::swap(&mut self.heap, &mut rest);
        let ghost all = entries(rest@).to_multiset();
        let mut kept: Vec<Action> = Vec::new();
        proof {
            lemma_no_entries(kept@);
        }
        while rest.len() > 0
            invariant
                entries(kept@).to_multiset().add(not_of_kind(entries(rest@).to_multiset(), event@))
                    =~= not_of_kind(all, event@),
            decreases rest@.len(),
        {
            let ghost rest_before = rest@;
            let ghost kept_before = kept@;
            let a = rest.pop().unwrap();
            proof {
                assert(rest_before =~= rest@.push(a));
                lemma_push_entry(rest@, a);
                lemma_push_entry(kept_before, a);
            }
            if !(a.event == *event) {
                kept.push(a);
            }
        }
        proof {
            lemma_no_entries(rest@);
            assert(entries(kept@).to_multiset() =~= not_of_kind(all, event@));
        }
        heapify(&mut kept);
        core::mem::swap(&mut self.heap, &mut kept);
    }

    /// How long to sleep from `now` until the earliest entry is due: zero
    /// when it is due already, `LONG_1D_SLUMBER` when the queue is empty.
    pub fn wake_up_time(&self, now: u64) -> (wait: u64)
        ensures
            self@.len() == 0 ==> wait == LONG_1D_SLUMBER,
            forall|e: Entry| is_earliest(self@, e) ==> wait == time_until(e.due, now),
            self@.len() > 0 ==> exists|e: Entry| is_earliest(self@, e),
    {
        broadcast use vstd::seq_lib::group_to_multiset_ensures;

        proof {
            use_type_invariant(self);
        }
        if self.heap.len() == 0 {
            LONG_1D_SLUMBER
        } else {
            let due = self.heap[0].due;
            proof {
                self.lemma_root();
            }
            if due > now {
                due - now
            } else {
                0
            }
        }
    }

    /// The root of the heap is an earliest entry, and every earliest entry
    /// is due when the root is.
    proof fn lemma_root(&self)
        requires
            ordered_from(self.heap@, 0),
            self.heap@.len() > 0,
        ensures
            is_earliest(self@, self.heap@[0]@),
            forall|e: Entry| is_earliest(self@, e) ==> e.due == self.heap@[0].due,
    {
        let s = self.heap@;
        lemma_contains_entry(s, s[0]@);
        assert forall|o: Entry| self@.contains(o) implies s[0].due <= o.due by {
            lemma_contains_entry(s, o);
            let i = choose|i: int| 0 <= i < s.len() && (#[trigger] s[i])@ == o;
            lemma_root_is_earliest(s, i);
        }
    }

    /// Takes out the earliest entry if it is due at `now` or before.
    /// Returns nothing, and leaves the queue as it is, when no entry is due.
    pub fn pop(&mut self, now: u64) -> (popped: Option<Action>)
        ensures
            pop_relation(
                old(self)@,
                now,
                match popped {
                    Some(a) => Some(a@),
                    None => None,
                },
                final(self)@,
            ),
    {
        broadcast use vstd::seq_lib::group_to_multiset_ensures;

        proof {
            use_type_invariant(&*self);
        }
        if self.heap.len() == 0 {
            return None;
        }
        proof {
            self.lemma_root();
        }
        if self.heap[0].due > now {
            return None;
        }
        let mut heap: Vec<Action> = Vec::new();
        core::mem::swap(&mut self.heap, &mut heap);
        let ghost before = heap@;
        let last = heap.len() - 1;
        proof {
            lemma_swap_entries(before, 0, last as int);
        }
        heap.swap(0, last);
        let ghost swapped = heap@;
        let a = heap.pop().unwrap();
        proof {
            assert(swapped =~= heap@.push(a));
            lemma_push_entry(heap@, a);
            assert(a == before[0]);
            assert(entries(heap@).to_multiset() =~= entries(before).to_multiset().remove(a@));
        }
        if heap.len() > 0 {
            sift_down(&mut heap, 0);
        }
        core::mem::swap(&mut self.heap, &mut heap);
        Some(a)
    }

    /// Takes out every entry that is due at `now` or before, earliest
    /// first.
    pub fn pop_due(&mut self, now: u64) -> (due: Vec<Action>)
        ensures
            sorted_by_due(entries(due@)),
            entries(due@).to_multiset() == due_by(old(self)@, now),
            final(self)@ == due_after(old(self)@, now),
    {
        broadcast use vstd::seq_lib::group_to_multiset_ensures;

        let mut due: Vec<Action> = Vec::new();
        proof {
            lemma_no_entries(due@);
        }
        let mut more = true;
        while more
            invariant
                sorted_by_due(entries(due@)),
                entries(due@).to_multiset().add(due_by(self@, now)) =~= due_by(old(self)@, now),
                due_after(self@, now) =~= due_after(old(self)@, now),
                forall|i: int, o: Entry|
                    0 <= i < due@.len() && #[trigger] self@.contains(o) ==> (#[trigger] due@[i]).due
                        <= o.due,
                !more ==> forall|o: Entry| self@.contains(o) ==> o.due > now,
            decreases self@.len(), if more { 1int } else { 0int },
        {
            let ghost due_before = due@;
            let ghost queue_before = self@;
            match self.pop(now) {
                Some(a) => {
                    due.push(a);
                    proof {
                        lemma_push_entry(due_before, a);
                        assert(entries(due@) =~= entries(due_before).push(a@));
                        assert(queue_before.count(a@) > 0);
                        assert forall|i: int, o: Entry|
                            0 <= i < due@.len() && #[trigger] self@.contains(o) implies (
                        #[trigger] due@[i]).due <= o.due by {
                            assert(queue_before.contains(o));
                        }
                        assert(self@.len() < queue_before.len());
                        assert forall|i: int, j: int|
                            0 <= i <= j < entries(due@).len() implies entries(due@)[i].due
                            <= entries(due@)[j].due by {
                            if j == due_before.len() && i < j {
                                assert(due_before[i].due <= a@.due);
                            }
                        }
                    }
                },
                None => {
                    more = false;
                },
            }
        }
        proof {
            assert forall|v: Entry| self@.count(v) > 0 implies v.due > now by {
                assert(self@.contains(v));
            }
            assert(due_by(self@, now) =~= Multiset::<Entry>::empty());
            assert(entries(due@).to_multiset() =~= due_by(old(self)@, now));
            assert(self@ =~= due_after(self@, now));
        }
        due
    }

    /// Whether an entry of the given kind is queued.
    pub fn has_action(&self, event: &ActionClass) -> (found: bool)
        ensures
            found == (exists|e: Entry| self@.contains(e) && e.kind == event@),
    {
        let mut i: usize = 0;
        while i < self.heap.len()
            invariant
                i <= self.heap@.len(),
                forall|k: int| 0 <= k < i ==> self.heap@[k].event@ != event@,
            decreases self.heap@.len() - i,
        {
            if self.heap[i].event == *event {
                proof {
                    let e = self.heap@[i as int]@;
                    lemma_contains_entry(self.heap@, e);
                    assert(self@.contains(e) && e.kind == event@);
                }
                return true;
            }
            i += 1;
        }
        proof {
            assert forall|e: Entry| self@.contains(e) implies e.kind != event@ by {
                lemma_contains_entry(self.heap@, e);
            }
        }
        false
    }
}

/// When every entry of a kind has been removed and one entry of that kind
/// is scheduled next, the queue holds exactly one entry of that kind: the
/// one just scheduled.
pub proof fn lemma_remove_then_schedule(before: Multiset<Entry>, due: u64, kind: ActionKind)
    ensures
        of_kind(not_of_kind(before, kind).insert(Entry { due, kind }), kind)
            == Multiset::singleton(Entry { due, kind }),
        of_kind(not_of_kind(before, kind).insert(Entry { due, kind }), kind).len() == 1,
{
    let e = Entry { due, kind };
    let after = not_of_kind(before, kind).insert(e);
    assert(of_kind(after, kind) =~= Multiset::singleton(e));
}

/// Two entries that come out of the queue one after the other, with nothing
/// scheduled in between, come out in non-decreasing order of due instant.
pub proof fn lemma_pop_order(
    before: Multiset<Entry>,
    now_first: u64,
    first: Entry,
    between: Multiset<Entry>,
    now_second: u64,
    second: Entry,
    after: Multiset<Entry>,
)
    requires
        pop_relation(before, now_first, Some(first), between),
        pop_relation(between, now_second, Some(second), after),
    ensures
        first.due <= second.due,
{
    assert(between.contains(second));
    assert(before.contains(second));
}

/// An entry that `pop` hands out was in the queue, and `pop` hands out
/// nothing exactly when no entry is due.
pub proof fn lemma_pop_some_iff_due(
    before: Multiset<Entry>,
    now: u64,
    popped: Option<Entry>,
    after: Multiset<Entry>,
)
    requires
        pop_relation(before, now, popped, after),
    ensures
        popped is Some <==> exists|e: Entry| before.contains(e) && e.due <= now,
{
    if let Some(e) = popped {
        assert(before.contains(e) && e.due <= now);
    }
}

impl Default for Queue {
    fn default() -> (q: Self)
        ensures
            q@ == Multiset::<Entry>::empty(),
    {
        Queue::new()
    }
}

} // verus!
