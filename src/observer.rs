//! Observer pattern: a subject keeps an ordered list of non-owning
//! subscriptions and notifies the live ones, in order, when its state
//! changes.
//!
//! Observers are owned by an [`Observers`] arena, outside any subject, and are
//! named by handles. A subscription is a handle: it carries no ownership, so a
//! subject never keeps an observer alive. When the arena releases an observer,
//! its handle goes dead and the next notification pass prunes it.

use vstd::prelude::*;

verus! {

broadcast use vstd::seq_lib::group_to_multiset_ensures, vstd::multiset::group_multiset_axioms;

/// What an observer holds: the states it has received, oldest first, and the
/// handles it unregisters from the notifying subject each time it is notified.
pub ghost struct ObserverModel {
    pub history: Seq<i32>,
    pub detach: Seq<usize>,
}

/// What a subject holds: its state and its subscriptions in order.
pub ghost struct SubjectModel {
    pub state: i32,
    pub observers: Seq<usize>,
}

/// How often `x` occurs in `s`.
pub open spec fn count(s: Seq<usize>, x: usize) -> nat {
    s.to_multiset().count(x)
}

/// `j` is the position of the first occurrence of `x` in `s`.
pub open spec fn is_first_index(s: Seq<usize>, x: usize, j: int) -> bool {
    &&& 0 <= j < s.len()
    &&& s[j] == x
    &&& forall|m: int| 0 <= m < j ==> s[m] != x
}

/// Position of the first occurrence of `x` in `s`, or -1 where there is none.
pub open spec fn index_of(s: Seq<usize>, x: usize) -> int {
    if exists|j: int| is_first_index(s, x, j) {
        choose|j: int| is_first_index(s, x, j)
    } else {
        -1
    }
}

/// `s` without the first occurrence of `x`; `s` itself where `x` does not occur.
pub open spec fn remove_first(s: Seq<usize>, x: usize) -> Seq<usize> {
    let j = index_of(s, x);
    if j >= 0 {
        s.remove(j)
    } else {
        s
    }
}

/// Applies the unregistrations `reqs`, in order, to the subscriptions `s`
/// during a pass whose next position to visit is `next`. A removal before the
/// cursor moves the cursor back by one, so that no entry is skipped.
pub open spec fn apply_detach(s: Seq<usize>, next: int, reqs: Seq<usize>) -> (Seq<usize>, int)
    decreases reqs.len(),
{
    if reqs.len() == 0 {
        (s, next)
    } else {
        let j = index_of(s, reqs[0]);
        let n2 = if 0 <= j < next {
            next - 1
        } else {
            next
        };
        apply_detach(remove_first(s, reqs[0]), n2, reqs.drop_first())
    }
}

/// One notification pass over `s` from position `i`, given the live
/// observers and the handles each of them unregisters when notified.
/// Returns the subscriptions left afterwards and the handles notified, in
/// the order in which they were notified.
pub open spec fn pass(live: Map<usize, Seq<usize>>, s: Seq<usize>, i: int) -> (Seq<usize>, Seq<usize>)
    decreases s.len() - i,
{
    if 0 <= i < s.len() {
        let id = s[i];
        if live.contains_key(id) {
            let (s2, n2) = apply_detach(s, i + 1, live[id]);
            // always true (lemma_apply_detach_bounds); tested so that the
            // definition visibly terminates
            if 0 <= n2 <= s2.len() && s2.len() - n2 < s.len() - i {
                let (rest, delivered) = pass(live, s2, n2);
                (rest, seq![id] + delivered)
            } else {
                (s, seq![])
            }
        } else {
            pass(live, s.remove(i), i)
        }
    } else {
        (s, seq![])
    }
}

/// The observers of `before` after each entry of `delivered` has received `v`.
pub open spec fn received(
    before: Map<usize, ObserverModel>,
    after: Map<usize, ObserverModel>,
    delivered: Seq<usize>,
    v: i32,
) -> bool {
    &&& after.dom() == before.dom()
    &&& forall|id: usize|
        #[trigger] after.contains_key(id) ==> {
            &&& after[id].detach == before[id].detach
            &&& after[id].history == before[id].history + Seq::new(
                count(delivered, id),
                |k: int| v,
            )
        }
}

/// `index_of` finds the first occurrence, and gives -1 only where there is none.
pub proof fn lemma_index_of(s: Seq<usize>, x: usize)
    ensures
        -1 <= index_of(s, x) < s.len(),
        index_of(s, x) >= 0 ==> is_first_index(s, x, index_of(s, x)),
        index_of(s, x) < 0 ==> !s.contains(x),
{
    if exists|j: int| is_first_index(s, x, j) {
        let j = choose|j: int| is_first_index(s, x, j);
        assert(is_first_index(s, x, j));
    } else {
        assert forall|m: int| 0 <= m < s.len() implies s[m] != x by {
            if s[m] == x {
                assert(exists|j: int| is_first_index(s, x, j)) by {
                    lemma_first_below(s, x, m);
                }
            }
        }
    }
}

proof fn lemma_first_below(s: Seq<usize>, x: usize, m: int)
    requires
        0 <= m < s.len(),
        s[m] == x,
    ensures
        exists|j: int| is_first_index(s, x, j),
    decreases m,
{
    if forall|k: int| 0 <= k < m ==> s[k] != x {
        assert(is_first_index(s, x, m));
    } else {
        let k = choose|k: int| 0 <= k < m && s[k] == x;
        lemma_first_below(s, x, k);
    }
}

/// The cursor stays within the subscriptions, and the part left to visit
/// does not grow.
pub proof fn lemma_apply_detach_bounds(s: Seq<usize>, next: int, reqs: Seq<usize>)
    requires
        0 <= next <= s.len(),
    ensures
        0 <= apply_detach(s, next, reqs).1 <= apply_detach(s, next, reqs).0.len(),
        apply_detach(s, next, reqs).0.len() - apply_detach(s, next, reqs).1 <= s.len() - next,
    decreases reqs.len(),
{
    if reqs.len() > 0 {
        lemma_index_of(s, reqs[0]);
        let j = index_of(s, reqs[0]);
        let n2 = if 0 <= j < next {
            next - 1
        } else {
            next
        };
        lemma_apply_detach_bounds(remove_first(s, reqs[0]), n2, reqs.drop_first());
    }
}

/// The entries of `s` whose observer is live, in order.
pub open spec fn live_only(live: Map<usize, Seq<usize>>, s: Seq<usize>) -> Seq<usize>
    decreases s.len(),
{
    if s.len() == 0 {
        seq![]
    } else {
        (if live.contains_key(s[0]) {
            seq![s[0]]
        } else {
            seq![]
        }) + live_only(live, s.drop_first())
    }
}

proof fn lemma_pass_no_detach(live: Map<usize, Seq<usize>>, s: Seq<usize>, i: int)
    requires
        0 <= i <= s.len(),
        forall|id: usize| #[trigger] live.contains_key(id) ==> live[id].len() == 0,
    ensures
        pass(live, s, i).1 == live_only(live, s.subrange(i, s.len() as int)),
        pass(live, s, i).0 == s.subrange(0, i) + live_only(live, s.subrange(i, s.len() as int)),
    decreases s.len() - i,
{
    let t = s.subrange(i, s.len() as int);
    if i == s.len() {
        assert(t =~= Seq::<usize>::empty());
        assert(s.subrange(0, i) + live_only(live, t) =~= s);
    } else {
        assert(t.drop_first() =~= s.subrange(i + 1, s.len() as int));
        if live.contains_key(s[i]) {
            assert(apply_detach(s, i + 1, live[s[i]]) == (s, i + 1));
            lemma_pass_no_detach(live, s, i + 1);
            assert(s.subrange(0, i + 1) =~= s.subrange(0, i) + seq![s[i]]);
            assert(pass(live, s, i).0 =~= s.subrange(0, i) + live_only(live, t));
            assert(pass(live, s, i).1 =~= live_only(live, t));
        } else {
            let s2 = s.remove(i);
            lemma_pass_no_detach(live, s2, i);
            assert(s2.subrange(0, i) =~= s.subrange(0, i));
            assert(s2.subrange(i, s2.len() as int) =~= s.subrange(i + 1, s.len() as int));
            assert(live_only(live, t) =~= live_only(live, t.drop_first()));
        }
    }
}

/// Where no observer unregisters anything when notified, a pass notifies the
/// live subscriptions exactly, in the order in which they were registered,
/// and keeps them, in that order, while the dead ones are dropped.
pub proof fn lemma_notify_in_registration_order(live: Map<usize, Seq<usize>>, s: Seq<usize>)
    requires
        forall|id: usize| #[trigger] live.contains_key(id) ==> live[id].len() == 0,
    ensures
        pass(live, s, 0).1 == live_only(live, s),
        pass(live, s, 0).0 == live_only(live, s),
{
    lemma_pass_no_detach(live, s, 0);
    assert(s.subrange(0, s.len() as int) =~= s);
    assert(s.subrange(0, 0) + live_only(live, s) =~= live_only(live, s));
}

proof fn lemma_count_push(s: Seq<usize>, a: usize, x: usize)
    ensures
        count(s.push(a), x) == count(s, x) + if x == a {
            1nat
        } else {
            0nat
        },
{
}

proof fn lemma_count_cons(a: usize, s: Seq<usize>, x: usize)
    ensures
        count(seq![a] + s, x) == count(s, x) + if x == a {
            1nat
        } else {
            0nat
        },
{
    vstd::seq_lib::lemma_multiset_commutative(seq![a], s);
    assert(seq![a] =~= Seq::<usize>::empty().push(a));
    assert(!Seq::<usize>::empty().contains(x));
    lemma_count_push(Seq::<usize>::empty(), a, x);
}

proof fn lemma_count_remove(s: Seq<usize>, j: int, x: usize)
    requires
        0 <= j < s.len(),
    ensures
        count(s, s[j]) >= 1,
        count(s.remove(j), x) + (if x == s[j] {
            1nat
        } else {
            0nat
        }) == count(s, x),
{
    assert(s.contains(s[j]));
    assert(s.remove(j).to_multiset() =~= s.to_multiset().remove(s[j]));
}

proof fn lemma_count_empty(x: usize)
    ensures
        count(Seq::<usize>::empty(), x) == 0,
{
    assert(!Seq::<usize>::empty().contains(x));
}

proof fn lemma_apply_detach_counts(s: Seq<usize>, next: int, reqs: Seq<usize>)
    requires
        0 <= next <= s.len(),
    ensures
        forall|x: usize|
            count(apply_detach(s, next, reqs).0.subrange(0, apply_detach(s, next, reqs).1), x)
                <= count(#[trigger] s.subrange(0, next), x),
        forall|x: usize|
            count(
                apply_detach(s, next, reqs).0.subrange(
                    apply_detach(s, next, reqs).1,
                    apply_detach(s, next, reqs).0.len() as int,
                ),
                x,
            ) <= count(#[trigger] s.subrange(next, s.len() as int), x),
    decreases reqs.len(),
{
    if reqs.len() > 0 {
        lemma_index_of(s, reqs[0]);
        let j = index_of(s, reqs[0]);
        let s2 = remove_first(s, reqs[0]);
        let n2 = if 0 <= j < next {
            next - 1
        } else {
            next
        };
        lemma_apply_detach_counts(s2, n2, reqs.drop_first());
        let p = s.subrange(0, next);
        let t = s.subrange(next, s.len() as int);
        if 0 <= j < next {
            assert(s2.subrange(0, n2) =~= p.remove(j));
            assert(s2.subrange(n2, s2.len() as int) =~= t);
        } else if j >= next {
            assert(s2.subrange(0, n2) =~= p);
            assert(s2.subrange(n2, s2.len() as int) =~= t.remove(j - next));
        }
        assert forall|x: usize| count(s2.subrange(0, n2), x) <= count(p, x) && count(
            s2.subrange(n2, s2.len() as int),
            x,
        ) <= count(t, x) by {
            if 0 <= j < next {
                lemma_count_remove(p, j, x);
            } else if j >= next {
                lemma_count_remove(t, j - next, x);
            }
        }
    }
}

proof fn lemma_pass_counts(live: Map<usize, Seq<usize>>, s: Seq<usize>, i: int)
    requires
        0 <= i <= s.len(),
    ensures
        forall|x: usize|
            count(pass(live, s, i).1, x) <= count(#[trigger] s.subrange(i, s.len() as int), x),
        forall|x: usize|
            count(pass(live, s, i).0, x) <= count(#[trigger] s.subrange(0, i), x) + count(
                pass(live, s, i).1,
                x,
            ),
    decreases s.len() - i,
{
    let p = s.subrange(0, i);
    let t = s.subrange(i, s.len() as int);
    if i == s.len() {
        assert(p =~= s);
        assert forall|x: usize| count(pass(live, s, i).1, x) <= count(t, x) by {
            lemma_count_empty(x);
            assert(pass(live, s, i).1 =~= Seq::<usize>::empty());
        }
    } else {
        let id = s[i];
        let t1 = s.subrange(i + 1, s.len() as int);
        assert(p.push(id) =~= s.subrange(0, i + 1));
        assert(t =~= seq![id] + t1);
        if live.contains_key(id) {
            lemma_apply_detach_bounds(s, i + 1, live[id]);
            lemma_apply_detach_counts(s, i + 1, live[id]);
            let (s2, n2) = apply_detach(s, i + 1, live[id]);
            lemma_pass_counts(live, s2, n2);
            let d = pass(live, s2, n2).1;
            assert(pass(live, s, i).1 == seq![id] + d);
            assert(pass(live, s, i).0 == pass(live, s2, n2).0);
            assert forall|x: usize|
                count(pass(live, s, i).1, x) <= count(t, x) && count(pass(live, s, i).0, x)
                    <= count(p, x) + count(pass(live, s, i).1, x) by {
                lemma_count_cons(id, d, x);
                lemma_count_cons(id, t1, x);
                lemma_count_push(p, id, x);
                assert(count(s2.subrange(n2, s2.len() as int), x) <= count(t1, x));
                assert(count(s2.subrange(0, n2), x) <= count(s.subrange(0, i + 1), x));
            }
        } else {
            let s2 = s.remove(i);
            lemma_pass_counts(live, s2, i);
            assert(s2.subrange(0, i) =~= p);
            assert(s2.subrange(i, s2.len() as int) =~= t1);
            assert forall|x: usize| count(pass(live, s, i).1, x) <= count(t, x) by {
                lemma_count_cons(id, t1, x);
                assert(count(pass(live, s2, i).1, x) <= count(s2.subrange(i, s2.len() as int), x));
            }
            assert forall|x: usize|
                count(pass(live, s, i).0, x) <= count(p, x) + count(pass(live, s, i).1, x) by {
                assert(count(pass(live, s2, i).0, x) <= count(s2.subrange(0, i), x) + count(
                    pass(live, s2, i).1,
                    x,
                ));
            }
        }
    }
}

/// A pass notifies no entry twice and skips none: no observer is notified
/// more often than it is subscribed, and every subscription still in place
/// after the pass was notified in it. This holds whatever the observers
/// unregister, themselves or others, while they are notified.
pub proof fn lemma_notify_once_and_none_skipped(live: Map<usize, Seq<usize>>, s: Seq<usize>, x: usize)
    ensures
        count(pass(live, s, 0).1, x) <= count(s, x),
        count(pass(live, s, 0).0, x) <= count(pass(live, s, 0).1, x),
{
    lemma_pass_counts(live, s, 0);
    assert(s.subrange(0, s.len() as int) =~= s);
    assert(s.subrange(0, 0) =~= Seq::<usize>::empty());
    assert(count(s.subrange(0, 0), x) == 0);
}

/// An observer that is not subscribed when a pass begins is not notified in
/// it: registering after a state was set does not deliver that state.
pub proof fn lemma_no_late_delivery(live: Map<usize, Seq<usize>>, s: Seq<usize>, x: usize)
    requires
        !s.contains(x),
    ensures
        !pass(live, s, 0).1.contains(x),
        !pass(live, s, 0).0.contains(x),
{
    lemma_notify_once_and_none_skipped(live, s, x);
}

/// After an observer subscribed once is unregistered, a pass neither
/// notifies it nor subscribes it again, though it is still alive.
pub proof fn lemma_unregistered_not_notified(live: Map<usize, Seq<usize>>, s: Seq<usize>, x: usize)
    requires
        count(s, x) <= 1,
    ensures
        !remove_first(s, x).contains(x),
        !pass(live, remove_first(s, x), 0).1.contains(x),
        !pass(live, remove_first(s, x), 0).0.contains(x),
{
    lemma_index_of(s, x);
    let j = index_of(s, x);
    if j >= 0 {
        lemma_count_remove(s, j, x);
    }
    lemma_no_late_delivery(live, remove_first(s, x), x);
}

proof fn lemma_pass_keeps_live(live: Map<usize, Seq<usize>>, s: Seq<usize>, i: int)
    requires
        0 <= i <= s.len(),
        forall|k: int| 0 <= k < i ==> live.contains_key(#[trigger] s[k]),
    ensures
        forall|k: int|
            0 <= k < pass(live, s, i).0.len() ==> live.contains_key(#[trigger] pass(live, s, i).0[k]),
    decreases s.len() - i,
{
    if i < s.len() {
        let id = s[i];
        if live.contains_key(id) {
            lemma_apply_detach_bounds(s, i + 1, live[id]);
            lemma_apply_detach_counts(s, i + 1, live[id]);
            let (s2, n2) = apply_detach(s, i + 1, live[id]);
            assert forall|k: int| 0 <= k < n2 implies live.contains_key(#[trigger] s2[k]) by {
                let x = s2[k];
                assert(s2.subrange(0, n2)[k] == x);
                assert(s2.subrange(0, n2).contains(x));
                let pre = s.subrange(0, i + 1);
                assert(count(pre, x) > 0);
                assert(pre.contains(x));
                let m = choose|m: int| 0 <= m < pre.len() && #[trigger] pre[m] == x;
                assert(s[m] == x);
            }
            lemma_pass_keeps_live(live, s2, n2);
            assert(pass(live, s, i).0 == pass(live, s2, n2).0);
        } else {
            let s2 = s.remove(i);
            assert forall|k: int| 0 <= k < i implies live.contains_key(#[trigger] s2[k]) by {
                assert(s2[k] == s[k]);
            }
            lemma_pass_keeps_live(live, s2, i);
            assert(pass(live, s, i).0 == pass(live, s2, i).0);
        }
    }
}

/// A pass prunes every dead subscription: all that are left name live
/// observers. Where no observer unregisters anything, exactly the live ones
/// are left, so the count drops by the number of dead entries.
pub proof fn lemma_notify_prunes_dead(live: Map<usize, Seq<usize>>, s: Seq<usize>)
    ensures
        forall|k: int|
            0 <= k < pass(live, s, 0).0.len() ==> live.contains_key(#[trigger] pass(live, s, 0).0[k]),
        (forall|id: usize| #[trigger] live.contains_key(id) ==> live[id].len() == 0) ==> pass(
            live,
            s,
            0,
        ).0 == live_only(live, s),
{
    lemma_pass_keeps_live(live, s, 0);
    if forall|id: usize| #[trigger] live.contains_key(id) ==> live[id].len() == 0 {
        lemma_notify_in_registration_order(live, s);
    }
}

/// An observer that records each state it is notified of. When notified it
/// also unregisters, from the notifying subject, the handles it was built with.
pub struct ExampleObserver {
    history: Vec<i32>,
    detach: Vec<usize>,
}

impl View for ExampleObserver {
    type V = ObserverModel;

    closed spec fn view(&self) -> ObserverModel {
        ObserverModel { history: self.history@, detach: self.detach@ }
    }
}

impl ExampleObserver {
    /// An observer with an empty history that unregisters nothing.
    pub fn new() -> (r: ExampleObserver)
        ensures
            r@.history == Seq::<i32>::empty(),
            r@.detach == Seq::<usize>::empty(),
    {
        ExampleObserver { history: Vec::new(), detach: Vec::new() }
    }

    /// An observer with an empty history that unregisters the handles
    /// `detach`, in order, from the subject each time it is notified.
    pub fn detaching(detach: Vec<usize>) -> (r: ExampleObserver)
        ensures
            r@.history == Seq::<i32>::empty(),
            r@.detach == detach@,
    {
        ExampleObserver { history: Vec::new(), detach }
    }

    /// The states received so far, oldest first.
    pub fn history(&self) -> (r: &Vec<i32>)
        ensures
            r@ == self@.history,
    {
        &self.history
    }

    /// Receives a notification: reads the subject's state through a shared
    /// borrow, records it, and returns the handles to unregister.
    pub fn update(&mut self, subject: &ExampleSubject) -> (reqs: Vec<usize>)
        ensures
            final(self)@.history == old(self)@.history.push(subject@.state),
            final(self)@.detach == old(self)@.detach,
            reqs@ == old(self)@.detach,
    {
        self.history.push(*subject.get_state());
        let mut reqs: Vec<usize> = Vec::new();
        let mut k: usize = 0;
        while k < self.detach.len()
            invariant
                0 <= k <= self.detach.len(),
                reqs@ == self.detach@.subrange(0, k as int),
            decreases self.detach.len() - k,
        {
            reqs.push(self.detach[k]);
            k += 1;
        }
        assert(reqs@ =~= self.detach@);
        reqs
    }
}

/// The owners of the observers. A handle names the slot of one observer; a
/// released slot stays empty, so a handle never names another observer later.
pub struct Observers {
    slots: Vec<Option<ExampleObserver>>,
}

impl View for Observers {
    type V = Map<usize, ObserverModel>;

    /// The live observers by handle.
    closed spec fn view(&self) -> Map<usize, ObserverModel> {
        Map::new(
            |id: usize| (id as int) < self.slots@.len() && self.slots@[id as int] is Some,
            |id: usize| self.slots@[id as int]->Some_0@,
        )
    }
}

impl Observers {
    /// The handles each live observer unregisters when notified.
    pub open spec fn detach_map(self) -> Map<usize, Seq<usize>> {
        self@.map_values(|m: ObserverModel| m.detach)
    }

    /// No observer yet.
    pub fn new() -> (r: Observers)
        ensures
            r@ == Map::<usize, ObserverModel>::empty(),
    {
        let r = Observers { slots: Vec::new() };
        assert(r@ =~= Map::<usize, ObserverModel>::empty());
        r
    }

    /// Takes ownership of `observer` and returns its handle, which no other
    /// observer has had.
    pub fn add(&mut self, observer: ExampleObserver) -> (id: usize)
        ensures
            !old(self)@.contains_key(id),
            final(self)@ == old(self)@.insert(id, observer@),
    {
        let id = self.slots.len();
        let ghost before = self@;
        self.slots.push(Some(observer));
        assert(self@ =~= before.insert(id, observer@));
        id
    }

    /// The last owner lets go of the observer `id`. Its subscriptions are
    /// left in place, dead, until a notification pass prunes them.
    pub fn release(&mut self, id: usize)
        ensures
            final(self)@ == old(self)@.remove(id),
    {
        let ghost before = self@;
        if id < self.slots.len() {
            self.slots.set(id, None);
        }
        assert(self@ =~= before.remove(id));
    }

    /// Whether the observer `id` still exists.
    pub fn is_alive(&self, id: usize) -> (r: bool)
        ensures
            r == self@.contains_key(id),
    {
        if id < self.slots.len() {
            self.slots[id].is_some()
        } else {
            false
        }
    }

    /// The observer `id`, where it still exists.
    pub fn get(&self, id: usize) -> (r: Option<&ExampleObserver>)
        ensures
            r is Some <==> self@.contains_key(id),
            r matches Some(o) ==> o@ == self@[id],
    {
        if id < self.slots.len() {
            match &self.slots[id] {
                Some(o) => Some(o),
                None => None,
            }
        } else {
            None
        }
    }

    /// Notifies the live observer `id` of the state of `subject`, and returns
    /// the handles it unregisters.
    fn deliver(&mut self, id: usize, subject: &ExampleSubject) -> (reqs: Vec<usize>)
        requires
            old(self)@.contains_key(id),
        ensures
            final(self)@ == old(self)@.insert(
                id,
                ObserverModel {
                    history: old(self)@[id].history.push(subject@.state),
                    detach: old(self)@[id].detach,
                },
            ),
            reqs@ == old(self)@[id].detach,
    {
        let ghost before = self@;
        let slot = &mut self.slots[id];
        let reqs = match slot {
            Some(o) => o.update(subject),
            None => Vec::new(),
        };
        assert(self@ =~= before.insert(
            id,
            ObserverModel { history: before[id].history.push(subject@.state), detach: before[id].detach },
        ));
        reqs
    }
}

/// A subject with an `i32` state.
pub struct ExampleSubject {
    observers: Vec<usize>,
    state: i32,
}

impl View for ExampleSubject {
    type V = SubjectModel;

    closed spec fn view(&self) -> SubjectModel {
        SubjectModel { state: self.state, observers: self.observers@ }
    }
}

impl Default for ExampleSubject {
    fn default() -> (r: ExampleSubject)
        ensures
            r@.state == 0,
            r@.observers == Seq::<usize>::empty(),
    {
        ExampleSubject::new()
    }
}

impl ExampleSubject {
    /// State 0, no subscription.
    pub fn new() -> (r: ExampleSubject)
        ensures
            r@.state == 0,
            r@.observers == Seq::<usize>::empty(),
    {
        ExampleSubject { observers: Vec::new(), state: 0 }
    }

    /// The current state.
    pub fn get_state(&self) -> (r: &i32)
        ensures
            *r == self@.state,
    {
        &self.state
    }

    /// The number of subscriptions, dead ones included.
    pub fn observer_count(&self) -> (r: usize)
        ensures
            r == self@.observers.len(),
    {
        self.observers.len()
    }

    /// Appends a subscription for `observer`; a handle already subscribed
    /// gets a second entry.
    pub fn register_observer(&mut self, observer: usize)
        ensures
            final(self)@.state == old(self)@.state,
            final(self)@.observers == old(self)@.observers.push(observer),
    {
        self.observers.push(observer);
    }

    fn find(&self, observer: usize) -> (r: Option<usize>)
        ensures
            r matches Some(j) ==> j == index_of(self@.observers, observer),
            r is None ==> index_of(self@.observers, observer) == -1,
    {
        let mut j: usize = 0;
        while j < self.observers.len()
            invariant
                0 <= j <= self.observers.len(),
                forall|m: int| 0 <= m < j ==> self.observers@[m] != observer,
            decreases self.observers.len() - j,
        {
            if self.observers[j] == observer {
                proof {
                    lemma_index_of(self@.observers, observer);
                    assert(is_first_index(self@.observers, observer, j as int));
                }
                return Some(j);
            }
            j += 1;
        }
        proof {
            lemma_index_of(self@.observers, observer);
        }
        None
    }

    /// Removes the first subscription of `observer`; nothing where there is none.
    pub fn unregister_observer(&mut self, observer: usize)
        ensures
            final(self)@.state == old(self)@.state,
            final(self)@.observers == remove_first(old(self)@.observers, observer),
    {
        if let Some(j) = self.find(observer) {
            self.observers.remove(j);
        }
    }

    /// Replaces the state, then notifies the live observers of the new one.
    pub fn set_state(&mut self, state: i32, world: &mut Observers)
        ensures
            final(self)@.state == state,
            final(self)@.observers == pass(old(world).detach_map(), old(self)@.observers, 0).0,
            received(
                old(world)@,
                final(world)@,
                pass(old(world).detach_map(), old(self)@.observers, 0).1,
                state,
            ),
    {
        self.state = state;
        self.notify_observers(world);
    }

    /// One notification pass. Each subscription is visited once, in order: a
    /// dead one is removed, a live one's observer is notified and may
    /// unregister handles, itself included, from this subject. A removal
    /// before the cursor moves the cursor back, so no entry is skipped or
    /// visited twice.
    pub fn notify_observers(&mut self, world: &mut Observers)
        ensures
            final(self)@.state == old(self)@.state,
            final(self)@.observers == pass(old(world).detach_map(), old(self)@.observers, 0).0,
            received(
                old(world)@,
                final(world)@,
                pass(old(world).detach_map(), old(self)@.observers, 0).1,
                old(self)@.state,
            ),
    {
        let ghost live = world.detach_map();
        let ghost w0 = world@;
        let ghost full = pass(live, self@.observers, 0);
        let ghost mut delivered: Seq<usize> = seq![];
        proof {
            assert(received(w0, world@, delivered, self.state)) by {
                assert forall|id: usize| #[trigger] world@.contains_key(id) implies world@[id].history
                    == w0[id].history + Seq::new(count(delivered, id), |k: int| self.state) by {
                    assert(world@[id].history =~= w0[id].history + Seq::new(
                        count(delivered, id),
                        |k: int| self.state,
                    ));
                }
            }
            assert(full.1 =~= delivered + full.1);
        }
        let mut i: usize = 0;
        while i < self.observers.len()
            invariant
                0 <= i <= self.observers.len(),
                live == world.detach_map(),
                self.state == old(self).state,
                full == pass(old(world).detach_map(), old(self)@.observers, 0),
                full.0 == pass(live, self@.observers, i as int).0,
                full.1 == delivered + pass(live, self@.observers, i as int).1,
                received(w0, world@, delivered, self.state),
            decreases self.observers.len() - i,
        {
            let id = self.observers[i];
            if world.is_alive(id) {
                let ghost s_i = self@.observers;
                let ghost w_i = world@;
                let reqs = world.deliver(id, &*self);
                proof {
                    assert(w_i.map_values(|m: ObserverModel| m.detach) =~= world@.map_values(
                        |m: ObserverModel| m.detach,
                    ));
                    lemma_apply_detach_bounds(s_i, i + 1, reqs@);
                    let d2 = delivered.push(id);
                    assert forall|x: usize| #[trigger] world@.contains_key(x) implies world@[x].history
                        == w0[x].history + Seq::new(count(d2, x), |k: int| self.state) by {
                        assert(count(d2, x) == count(delivered, x) + if x == id {
                            1nat
                        } else {
                            0nat
                        });
                        assert(world@[x].history =~= w0[x].history + Seq::new(
                            count(d2, x),
                            |k: int| self.state,
                        ));
                    }
                    assert(world@.dom() =~= w0.dom());
                    delivered = d2;
                    assert(reqs@.skip(0) =~= reqs@);
                }
                let mut next: usize = i + 1;
                let mut k: usize = 0;
                while k < reqs.len()
                    invariant
                        0 <= k <= reqs.len(),
                        0 <= next <= self.observers.len(),
                        self.observers.len() - next <= s_i.len() - (i + 1),
                        self.state == old(self).state,
                        apply_detach(self@.observers, next as int, reqs@.skip(k as int))
                            == apply_detach(s_i, i + 1, reqs@),
                    decreases reqs.len() - k,
                {
                    let r = reqs[k];
                    let ghost s_k = self@.observers;
                    proof {
                        lemma_index_of(s_k, r);
                        assert(reqs@.skip(k as int).drop_first() =~= reqs@.skip(k + 1));
                    }
                    match self.find(r) {
                        Some(j) => {
                            self.observers.remove(j);
                            if j < next {
                                next = next - 1;
                            }
                        },
                        None => {},
                    }
                    k += 1;
                }
                proof {
                    assert(reqs@.skip(reqs.len() as int) =~= Seq::<usize>::empty());
                    assert(full.1 =~= delivered + pass(live, self@.observers, next as int).1);
                }
                i = next;
            } else {
                self.observers.remove(i);
            }
        }
        proof {
            assert(full.1 =~= delivered);
        }
    }
}

} // verus!
