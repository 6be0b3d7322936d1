use vstd::prelude::*;

verus! {

/// One runner's place in the priority queue: its priority (0 is the highest), the id it
/// was registered under (which also names its waker), and whether it has let go.
#[derive(Clone, Copy, Debug, PartialEq, Eq)]
pub struct PriorityBlock {
    pub priority: u8,
    pub id: u64,
    pub released: bool,
}

/// The blocks still holding their place, in queue order.
pub open spec fn unreleased(q: Seq<PriorityBlock>) -> Seq<PriorityBlock> {
    q.filter(|b: PriorityBlock| !b.released)
}

/// The blocks other than the one registered under `id`.
pub open spec fn without_id(q: Seq<PriorityBlock>, id: u64) -> Seq<PriorityBlock> {
    q.filter(|b: PriorityBlock| b.id != id)
}

/// The queue with the block registered under `id` marked released.
pub open spec fn marked_released(q: Seq<PriorityBlock>, id: u64) -> Seq<PriorityBlock> {
    q.map_values(
        |b: PriorityBlock|
            if b.id == id {
                PriorityBlock { released: true, ..b }
            } else {
                b
            },
    )
}

/// The head of the queue is at `h`: the first block of the lowest priority number.
pub open spec fn is_head_at(q: Seq<PriorityBlock>, h: int) -> bool {
    &&& 0 <= h < q.len()
    &&& forall|j: int| 0 <= j < q.len() ==> q[h].priority <= #[trigger] q[j].priority
    &&& forall|j: int| 0 <= j < h ==> q[h].priority < #[trigger] q[j].priority
}

/// `priority` is at least as high (as low a number) as every block of `q`.
pub open spec fn outranks_all(priority: u8, q: Seq<PriorityBlock>) -> bool {
    forall|i: int| 0 <= i < q.len() ==> priority <= #[trigger] q[i].priority
}

/// Finds the head of the queue, if it is not empty.
fn head_position(q: &Vec<PriorityBlock>) -> (h: Option<usize>)
    ensures
        match h {
            None => q@.len() == 0,
            Some(h) => is_head_at(q@, h as int),
        },
{
    if q.len() == 0 {
        return None;
    }
    let mut best: usize = 0;
    let mut i: usize = 1;
    while i < q.len()
        invariant
            0 < i <= q.len(),
            best < i,
            forall|j: int| 0 <= j < i ==> q@[best as int].priority <= #[trigger] q@[j].priority,
            forall|j: int| 0 <= j < best ==> q@[best as int].priority < #[trigger] q@[j].priority,
        decreases q.len() - i,
    {
        if q[i].priority < q[best].priority {
            best = i;
        }
        i = i + 1;
    }
    Some(best)
}

/// The head is unique.
proof fn lemma_head_unique(q: Seq<PriorityBlock>, h: int, k: int)
    requires
        is_head_at(q, h),
        is_head_at(q, k),
    ensures
        h == k,
{
    if h < k {
        assert(q[k].priority < q[h].priority);
        assert(q[h].priority <= q[k].priority);
    } else if k < h {
        assert(q[h].priority < q[k].priority);
        assert(q[k].priority <= q[h].priority);
    }
}

/// Removing a released block leaves the unreleased ones as they were.
proof fn lemma_remove_released(q: Seq<PriorityBlock>, h: int)
    requires
        0 <= h < q.len(),
        q[h].released,
    ensures
        unreleased(q.remove(h)) == unreleased(q),
{
    let pred = |b: PriorityBlock| !b.released;
    let a = q.take(h);
    let mid = seq![q[h]];
    let c = q.skip(h + 1);
    assert(q =~= a + mid + c);
    assert(q.remove(h) =~= a + c);
    Seq::filter_distributes_over_add(a + mid, c, pred);
    Seq::filter_distributes_over_add(a, mid, pred);
    Seq::filter_distributes_over_add(a, c, pred);
    reveal_with_fuel(Seq::filter, 2);
    assert(mid.drop_last() =~= Seq::<PriorityBlock>::empty());
    assert(mid.filter(pred) =~= Seq::<PriorityBlock>::empty());
}

/// Marking the block registered under `id` released takes exactly it out of the
/// unreleased ones.
proof fn lemma_unreleased_after_mark(q: Seq<PriorityBlock>, id: u64)
    ensures
        unreleased(marked_released(q, id)) == without_id(unreleased(q), id),
    decreases q.len(),
{
    reveal(Seq::filter);
    if q.len() > 0 {
        lemma_unreleased_after_mark(q.drop_last(), id);
        assert(marked_released(q, id).drop_last() =~= marked_released(q.drop_last(), id));
        assert(unreleased(q).len() <= q.len()) by {
            q.lemma_filter_len(|b: PriorityBlock| !b.released);
        }
        if !q.last().released {
            assert(unreleased(q) == unreleased(q.drop_last()).push(q.last()));
            assert(unreleased(q).drop_last() =~= unreleased(q.drop_last()));
        } else {
            assert(unreleased(q) == unreleased(q.drop_last()));
        }
    }
}

/// The queue of runners waiting on a shared fut_runner's limits: the runner of the
/// lowest priority number goes first, and a runner that has let go is dropped once it
/// reaches the head.
pub struct Prioritizer {
    queue: Vec<PriorityBlock>,
    next_id: u64,
}

impl Prioritizer {
    /// The blocks in the queue, in the order they were registered.
    pub closed spec fn blocks(&self) -> Seq<PriorityBlock> {
        self.queue@
    }

    /// The id the next registration will get.
    pub closed spec fn next_id_view(&self) -> u64 {
        self.next_id
    }

    /// Ids grow in registration order and stay below the next one handed out.
    pub open spec fn wf(&self) -> bool {
        &&& forall|i: int| 0 <= i < self.blocks().len() ==> #[trigger] self.blocks()[i].id
            < self.next_id_view()
        &&& forall|i: int, j: int|
            0 <= i < j < self.blocks().len() ==> #[trigger] self.blocks()[i].id
                < #[trigger] self.blocks()[j].id
    }

    /// An empty queue.
    pub fn new() -> (p: Prioritizer)
        ensures
            p.wf(),
            p.blocks() == Seq::<PriorityBlock>::empty(),
            p.next_id_view() == 0,
    {
        Prioritizer { queue: Vec::new(), next_id: 0 }
    }

    /// The id the next registration will get.
    pub fn next_id(&self) -> (id: u64)
        ensures
            id == self.next_id_view(),
    {
        self.next_id
    }

    /// Queue a runner of the given priority; returns the id it is registered under.
    pub fn register(&mut self, priority: u8) -> (id: u64)
        requires
            old(self).wf(),
            old(self).next_id_view() < u64::MAX,
        ensures
            final(self).wf(),
            id == old(self).next_id_view(),
            final(self).next_id_view() == id + 1,
            final(self).blocks() == old(self).blocks().push(
                PriorityBlock { priority, id, released: false },
            ),
    {
        let id = self.next_id;
        let ghost before = self.queue@;
        self.queue.push(PriorityBlock { priority, id, released: false });
        self.next_id = id + 1;
        assert forall|i: int, j: int| 0 <= i < j < self.queue@.len() implies #[trigger] self.queue@[i].id
            < #[trigger] self.queue@[j].id by {
            assert(self.queue@[i] == before[i]);
            assert(old(self).blocks()[i].id < id);
            if j < before.len() {
                assert(self.queue@[j] == before[j]);
                assert(old(self).blocks()[i].id < old(self).blocks()[j].id);
            }
        }
        assert forall|i: int| 0 <= i < self.queue@.len() implies #[trigger] self.queue@[i].id
            < self.next_id by {
            if i < before.len() {
                assert(old(self).blocks()[i].id < id);
            }
        }
        id
    }

    /// Drops released blocks from the head until the head holds its place; returns the
    /// id of that head (the runner to wake), `None` when the queue is empty.
    pub fn pop_released_heads(&mut self) -> (wake: Option<u64>)
        requires
            old(self).wf(),
        ensures
            final(self).wf(),
            final(self).next_id_view() == old(self).next_id_view(),
            unreleased(final(self).blocks()) == unreleased(old(self).blocks()),
            match wake {
                None => final(self).blocks().len() == 0,
                Some(id) => exists|h: int|
                    #![trigger final(self).blocks()[h]]
                    is_head_at(final(self).blocks(), h) && !final(self).blocks()[h].released
                        && final(self).blocks()[h].id == id,
            },
    {
        loop
            invariant
                self.wf(),
                self.next_id_view() == old(self).next_id_view(),
                unreleased(self.blocks()) == unreleased(old(self).blocks()),
            decreases self.queue.len(),
        {
            match head_position(&self.queue) {
                None => {
                    return None;
                },
                Some(h) => {
                    if self.queue[h].released {
                        let ghost before = self.queue@;
                        proof {
                            lemma_remove_released(before, h as int);
                        }
                        self.queue.remove(h);
                        assert forall|i: int|
                            0 <= i < self.queue@.len() implies #[trigger] self.queue@[i] == if i
                            < h {
                            before[i]
                        } else {
                            before[i + 1]
                        } by {}
                    } else {
                        return Some(self.queue[h].id);
                    }
                },
            }
        }
    }

    /// Whether a runner of `priority` may go ahead: after dropping released heads, some
    /// runner still holds a place and none of those outranks `priority`. Also returns the
    /// head to wake, as the drop may have brought a new one to the front.
    pub fn is_highest_priority(&mut self, priority: u8) -> (r: (bool, Option<u64>))
        requires
            old(self).wf(),
        ensures
            final(self).wf(),
            final(self).next_id_view() == old(self).next_id_view(),
            unreleased(final(self).blocks()) == unreleased(old(self).blocks()),
            r.0 <==> unreleased(old(self).blocks()).len() > 0 && outranks_all(
                priority,
                unreleased(old(self).blocks()),
            ),
            r.1 is Some <==> unreleased(old(self).blocks()).len() > 0,
    {
        let wake = self.pop_released_heads();
        let ghost pred = |b: PriorityBlock| !b.released;
        match head_position(&self.queue) {
            None => {
                proof {
                    reveal(Seq::filter);
                    assert(unreleased(self.queue@) =~= Seq::<PriorityBlock>::empty());
                }
                (false, wake)
            },
            Some(h) => {
                let q = Ghost(self.queue@);
                proof {
                    let k = choose|k: int|
                        #![trigger self.queue@[k]]
                        is_head_at(self.queue@, k) && !self.queue@[k].released;
                    lemma_head_unique(q@, h as int, k);
                    q@.lemma_filter_contains(pred, h as int);
                    assert(unreleased(q@).len() > 0);
                    assert forall|i: int| 0 <= i < unreleased(q@).len() implies q@[h as int].priority
                        <= #[trigger] unreleased(q@)[i].priority by {
                        let u = unreleased(q@)[i];
                        assert(unreleased(q@).contains(u));
                        q@.lemma_filter_contains_rev(pred, u);
                    }
                }
                (priority <= self.queue[h].priority, wake)
            },
        }
    }

    /// A runner lets go of its place: marks the block registered under `id` released and
    /// drops released heads; returns the head to wake, `None` when the queue is empty.
    pub fn release(&mut self, id: u64) -> (wake: Option<u64>)
        requires
            old(self).wf(),
        ensures
            final(self).wf(),
            final(self).next_id_view() == old(self).next_id_view(),
            unreleased(final(self).blocks()) == without_id(unreleased(old(self).blocks()), id),
            wake is Some <==> final(self).blocks().len() > 0,
    {
        let ghost before = self.queue@;
        let mut i: usize = 0;
        while i < self.queue.len()
            invariant
                self.wf(),
                self.next_id_view() == old(self).next_id_view(),
                before == old(self).blocks(),
                i <= self.queue@.len(),
                self.queue@.len() == before.len(),
                forall|j: int|
                    0 <= j < i ==> #[trigger] self.queue@[j] == marked_released(before, id)[j],
                forall|j: int| i <= j < before.len() ==> #[trigger] self.queue@[j] == before[j],
            decreases self.queue.len() - i,
        {
            if self.queue[i].id == id {
                let ghost prev = self.queue@;
                assert forall|j: int| 0 <= j < prev.len() implies #[trigger] prev[j].id
                    < self.next_id_view() by {
                    assert(self.blocks()[j].id < self.next_id_view());
                }
                assert forall|j: int, k: int| 0 <= j < k < prev.len() implies #[trigger] prev[j].id
                    < #[trigger] prev[k].id by {
                    assert(self.blocks()[j].id < self.blocks()[k].id);
                }
                let b = self.queue[i];
                self.queue.set(i, PriorityBlock { released: true, ..b });
                assert forall|j: int| 0 <= j < self.queue@.len() implies #[trigger] self.blocks()[j].id
                    == prev[j].id by {}
            }
            i = i + 1;
        }
        proof {
            assert(self.queue@ =~= marked_released(before, id));
            lemma_unreleased_after_mark(before, id);
        }
        self.pop_released_heads()
    }
}

} // verus!
