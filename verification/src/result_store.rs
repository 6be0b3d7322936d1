use vstd::multiset::Multiset;
use vstd::prelude::*;

verus! {

broadcast use vstd::seq_lib::group_to_multiset_ensures, vstd::multiset::group_multiset_axioms;

/// A finished future's output, tagged with the position it was pushed at.
pub struct FutResult<R> {
    /// The position the future was pushed at.
    pub index: i64,
    /// The future's output.
    pub data: R,
}

/// Where finished outputs wait until they are handed out, ordered by push
/// position when ordering is on, otherwise in the order they arrive.
pub enum ResultStore<R> {
    /// Outputs handed out by push position.
    Ordered {
        /// The stored outputs, in the order they were stored.
        heap: Vec<FutResult<R>>,
        /// The push position of the next output to hand out.
        current_pending_index: i64,
    },
    /// Outputs handed out as they come.
    Unordered {
        /// The stored outputs, in the order they were stored.
        buf: Vec<R>,
    },
}

/// Position of the first entry with the smallest index.
pub open spec fn first_min_pos<R>(s: Seq<FutResult<R>>) -> int
    decreases s.len(),
{
    if s.len() <= 1 {
        0
    } else {
        let k = first_min_pos(s.drop_last());
        if s.last().index < s[k].index {
            s.len() - 1
        } else {
            k
        }
    }
}

/// The entries sorted by index, entries with equal indices keeping their order.
pub open spec fn by_index_order<R>(s: Seq<FutResult<R>>) -> Seq<FutResult<R>>
    decreases s.len(),
{
    if s.len() == 0 {
        s
    } else {
        let k = first_min_pos(s);
        if 0 <= k < s.len() {
            seq![s[k]] + by_index_order(s.remove(k))
        } else {
            s
        }
    }
}

/// The outputs carried by the entries, in the same order.
pub open spec fn outputs<R>(s: Seq<FutResult<R>>) -> Seq<R> {
    s.map_values(|e: FutResult<R>| e.data)
}

/// The entries' indices never decrease along the sequence.
pub open spec fn index_sorted<R>(s: Seq<FutResult<R>>) -> bool {
    forall|i: int, j: int| 0 <= i <= j < s.len() ==> s[i].index <= s[j].index
}

/// The first smallest index sits at [`first_min_pos`]: it is in range, no entry has a
/// smaller index, and every entry before it has a larger one.
pub proof fn lemma_first_min_pos<R>(s: Seq<FutResult<R>>)
    requires
        s.len() > 0,
    ensures
        0 <= first_min_pos(s) < s.len(),
        forall|j: int| 0 <= j < s.len() ==> s[first_min_pos(s)].index <= #[trigger] s[j].index,
        forall|j: int| 0 <= j < first_min_pos(s) ==> s[first_min_pos(s)].index < #[trigger] s[j].index,
    decreases s.len(),
{
    if s.len() > 1 {
        lemma_first_min_pos(s.drop_last());
        let k = first_min_pos(s.drop_last());
        assert(s.drop_last()[k] == s[k]);
        assert forall|j: int| 0 <= j < s.len() - 1 implies #[trigger] s[j] == s.drop_last()[j] by {}
    }
}

/// Law: sorting by index yields the entries in nondecreasing index order.
pub proof fn lemma_by_index_order_sorted<R>(s: Seq<FutResult<R>>)
    ensures
        index_sorted(by_index_order(s)),
        by_index_order(s).len() == s.len(),
        forall|x: FutResult<R>| by_index_order(s).contains(x) ==> s.contains(x),
    decreases s.len(),
{
    if s.len() > 0 {
        lemma_first_min_pos(s);
        let k = first_min_pos(s);
        let rest = s.remove(k);
        lemma_by_index_order_sorted(rest);
        let out = by_index_order(s);
        let tail = by_index_order(rest);
        assert(out == seq![s[k]] + tail);
        assert forall|x: FutResult<R>| rest.contains(x) implies s.contains(x) by {
            let j = choose|j: int| 0 <= j < rest.len() && rest[j] == x;
            if j < k {
                assert(s[j] == x);
            } else {
                assert(s[j + 1] == x);
            }
        }
        assert forall|j: int| 0 <= j < tail.len() implies s[k].index <= #[trigger] tail[j].index by {
            assert(tail.contains(tail[j]));
            assert(s.contains(tail[j]));
            let m = choose|m: int| 0 <= m < s.len() && s[m] == tail[j];
            assert(s[k].index <= s[m].index);
        }
        assert forall|a: int, b: int| 0 <= a <= b < out.len() implies out[a].index
            <= out[b].index by {
            if a == 0 {
                if b > 0 {
                    assert(out[b] == tail[b - 1]);
                }
            } else {
                assert(out[a] == tail[a - 1]);
                assert(out[b] == tail[b - 1]);
            }
        }
        assert forall|x: FutResult<R>| out.contains(x) implies s.contains(x) by {
            let i = choose|i: int| 0 <= i < out.len() && out[i] == x;
            if i > 0 {
                assert(out[i] == tail[i - 1]);
                assert(tail.contains(x));
            }
        }
    }
}

/// Law: sorting by index keeps exactly the entries it was given.
pub proof fn lemma_by_index_order_permutes<R>(s: Seq<FutResult<R>>)
    ensures
        by_index_order(s).to_multiset() == s.to_multiset(),
    decreases s.len(),
{
    if s.len() > 0 {
        lemma_first_min_pos(s);
        let k = first_min_pos(s);
        let rest = s.remove(k);
        lemma_by_index_order_permutes(rest);
        vstd::seq_lib::to_multiset_remove(s, k);
        vstd::seq_lib::lemma_multiset_commutative(seq![s[k]], by_index_order(rest));
        assert(seq![s[k]].to_multiset() =~= Multiset::empty().insert(s[k])) by {
            vstd::seq_lib::to_multiset_build(Seq::<FutResult<R>>::empty(), s[k]);
            assert(seq![s[k]] =~= Seq::<FutResult<R>>::empty().push(s[k]));
        }
        assert(s.to_multiset().remove(s[k]).insert(s[k]) =~= s.to_multiset());
    }
}

impl<R> ResultStore<R> {
    /// Whether outputs are handed out by push position.
    pub open spec fn is_ordered(&self) -> bool {
        self is Ordered
    }

    /// The stored, not yet handed out, entries of an ordered store, in storing order.
    pub open spec fn entries(&self) -> Seq<FutResult<R>> {
        match self {
            ResultStore::Ordered { heap, .. } => heap@,
            ResultStore::Unordered { .. } => Seq::empty(),
        }
    }

    /// The stored, not yet handed out, outputs of an unordered store, in storing order.
    pub open spec fn buffered(&self) -> Seq<R> {
        match self {
            ResultStore::Ordered { .. } => Seq::empty(),
            ResultStore::Unordered { buf } => buf@,
        }
    }

    /// The push position an ordered store hands out next.
    pub open spec fn pending_index(&self) -> i64 {
        match self {
            ResultStore::Ordered { current_pending_index, .. } => *current_pending_index,
            ResultStore::Unordered { .. } => 0,
        }
    }

    /// How many outputs are stored.
    pub open spec fn stored_len(&self) -> nat {
        if self.is_ordered() {
            self.entries().len()
        } else {
            self.buffered().len()
        }
    }

    /// An empty store, ordered or not.
    pub fn new(ordered: bool) -> (store: Self)
        ensures
            store.is_ordered() == ordered,
            store.entries() == Seq::<FutResult<R>>::empty(),
            store.buffered() == Seq::<R>::empty(),
            store.pending_index() == 0,
    {
        if ordered {
            ResultStore::Ordered { heap: Vec::new(), current_pending_index: 0 }
        } else {
            ResultStore::Unordered { buf: Vec::new() }
        }
    }

    /// Store a result, ordering (if needed) internally managed.
    pub fn store(&mut self, index: i64, result: R)
        ensures
            final(self).is_ordered() == old(self).is_ordered(),
            final(self).pending_index() == old(self).pending_index(),
            old(self).is_ordered() ==> final(self).entries() == old(self).entries().push(
                FutResult { index, data: result },
            ),
            !old(self).is_ordered() ==> final(self).buffered() == old(self).buffered().push(result),
    {
        match self {
            ResultStore::Ordered { heap, .. } => {
                heap.push(FutResult { index, data: result });
            },
            ResultStore::Unordered { buf } => {
                buf.push(result);
            },
        }
    }

    /// Hand out the next output if it is ready: for an ordered store, the (first
    /// stored) output with the smallest index when that index is the pending one;
    /// for an unordered store, the most recently stored output.
    pub fn next(&mut self) -> (out: Option<R>)
        ensures
            final(self).is_ordered() == old(self).is_ordered(),
            !old(self).is_ordered() ==> {
                &&& old(self).buffered().len() == 0 ==> out is None && final(self).buffered()
                    == old(self).buffered()
                &&& old(self).buffered().len() > 0 ==> out == Some(old(self).buffered().last())
                    && final(self).buffered() == old(self).buffered().drop_last()
            },
            old(self).is_ordered() ==> {
                let s = old(self).entries();
                let k = first_min_pos(s);
                if s.len() > 0 && s[k].index == old(self).pending_index() {
                    &&& out == Some(s[k].data)
                    &&& final(self).entries() == s.remove(k)
                    &&& final(self).pending_index() == if old(self).pending_index() < i64::MAX {
                        old(self).pending_index() + 1
                    } else {
                        old(self).pending_index() as int
                    }
                } else {
                    &&& out is None
                    &&& final(self).entries() == s
                    &&& final(self).pending_index() == old(self).pending_index()
                }
            },
    {
        match self {
            ResultStore::Ordered { heap, current_pending_index } => {
                if heap.len() == 0 {
                    return None;
                }
                let k = first_min_position(heap);
                proof {
                    lemma_first_min_pos(heap@);
                }
                if heap[k].index == *current_pending_index {
                    let entry = heap.remove(k);
                    if *current_pending_index < i64::MAX {
                        *current_pending_index = *current_pending_index + 1;
                    }
                    Some(entry.data)
                } else {
                    None
                }
            },
            ResultStore::Unordered { buf } => buf.pop(),
        }
    }

    /// How many outputs are stored.
    pub fn len(&self) -> (n: usize)
        ensures
            n == self.stored_len(),
    {
        match self {
            ResultStore::Ordered { heap, .. } => heap.len(),
            ResultStore::Unordered { buf } => buf.len(),
        }
    }

    /// Consume the store into a vec of (ordered if applicable) results.
    ///
    /// NOTE: should only be called when you know the store contains everything and the underlying stream is empty.
    pub fn consume(&mut self) -> (all: Vec<R>)
        ensures
            final(self).is_ordered() == old(self).is_ordered(),
            final(self).pending_index() == old(self).pending_index(),
            final(self).entries() == Seq::<FutResult<R>>::empty(),
            final(self).buffered() == Seq::<R>::empty(),
            old(self).is_ordered() ==> all@ == outputs(by_index_order(old(self).entries())),
            !old(self).is_ordered() ==> all@ == old(self).buffered(),
    {
        match self {
            ResultStore::Ordered { heap, .. } => {
                let mut remaining: Vec<FutResult<R>> = Vec::new();
                std::mem::swap(&mut remaining, heap);
                let ghost before_drain = remaining@;
                let mut all: Vec<R> = Vec::new();
                let ghost mut emitted: Seq<FutResult<R>> = Seq::empty();
                while remaining.len() > 0
                    invariant
                        by_index_order(before_drain) == emitted + by_index_order(remaining@),
                        all@ == outputs(emitted),
                    decreases remaining.len(),
                {
                    let k = first_min_position(&remaining);
                    proof {
                        lemma_first_min_pos(remaining@);
                        let rest = remaining@.remove(k as int);
                        assert(by_index_order(remaining@) == seq![remaining@[k as int]]
                            + by_index_order(rest));
                        assert(emitted + by_index_order(remaining@) =~= emitted.push(
                            remaining@[k as int],
                        ) + by_index_order(rest));
                        emitted = emitted.push(remaining@[k as int]);
                    }
                    let entry = remaining.remove(k);
                    all.push(entry.data);
                    assert(all@ =~= outputs(emitted));
                }
                assert(emitted + by_index_order(remaining@) =~= emitted);
                all
            },
            ResultStore::Unordered { buf } => {
                let mut all: Vec<R> = Vec::new();
                std::mem::swap(&mut all, buf);
                all
            },
        }
    }
}

/// Find the position of the first entry with the smallest index.
fn first_min_position<R>(entries: &Vec<FutResult<R>>) -> (k: usize)
    requires
        entries@.len() > 0,
    ensures
        k == first_min_pos(entries@),
{
    let mut best: usize = 0;
    let mut j: usize = 1;
    while j < entries.len()
        invariant
            1 <= j <= entries@.len(),
            best == first_min_pos(entries@.take(j as int)),
            best < j,
        decreases entries@.len() - j,
    {
        proof {
            let t = entries@.take(j as int + 1);
            assert(t.drop_last() =~= entries@.take(j as int));
            assert(t.last() == entries@[j as int]);
            assert(t[best as int] == entries@[best as int]);
        }
        if entries[j].index < entries[best].index {
            best = j;
        }
        j = j + 1;
    }
    assert(entries@.take(entries@.len() as int) =~= entries@);
    best
}

} // verus!
