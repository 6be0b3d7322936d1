use vstd::prelude::*;

verus! {

/// Hands out results in the order of the futures that made them, whatever order they
/// finish in: a result is passed on when it is the next in line, otherwise held back until
/// all before it have been.
pub struct InOrderReleaser<R> {
    /// The index of the next result to pass on.
    next: usize,
    /// The held-back results, slot `i` for index `next + i`.
    window: Vec<Option<R>>,
    /// Every result that arrived, by index.
    arrived: Ghost<Map<int, R>>,
    /// Every result passed on so far, in order.
    released: Ghost<Seq<R>>,
}

impl<R> InOrderReleaser<R> {
    /// The index of the next result to pass on.
    pub closed spec fn next_index(&self) -> nat {
        self.next as nat
    }

    /// Every result that arrived so far, by index.
    pub closed spec fn arrived(&self) -> Map<int, R> {
        self.arrived@
    }

    /// Every result passed on so far, in order.
    pub closed spec fn released(&self) -> Seq<R> {
        self.released@
    }

    /// What was passed on is the results of the indices before the next one, in order; the
    /// held-back slots are exactly the arrivals from the next index on.
    pub closed spec fn wf(&self) -> bool {
        &&& self.released@.len() == self.next
        &&& forall|i: int|
            0 <= i < self.next ==> #[trigger] self.arrived@.contains_key(i)
                && self.released@[i] == self.arrived@[i]
        &&& forall|i: int|
            0 <= i < self.window@.len() ==> (#[trigger] self.window@[i] is Some
                <==> self.arrived@.contains_key(self.next + i))
        &&& forall|i: int|
            0 <= i < self.window@.len() && self.window@[i] is Some ==> self.window@[i]->0
                == self.arrived@[self.next + i]
        &&& forall|k: int| #[trigger]
            self.arrived@.contains_key(k) ==> 0 <= k < self.next + self.window@.len() && k
                < usize::MAX
        &&& self.window@.len() > 0 ==> self.window@[0] is None
    }

    /// A releaser waiting for index 0.
    pub fn new() -> (r: Self)
        ensures
            r.wf(),
            r.next_index() == 0,
            r.arrived() == Map::<int, R>::empty(),
            r.released() == Seq::<R>::empty(),
    {
        InOrderReleaser {
            next: 0,
            window: Vec::new(),
            arrived: Ghost(Map::empty()),
            released: Ghost(Seq::empty()),
        }
    }

    /// The result of the future of `index` has arrived; returns the results that can now
    /// be passed on, in order (none unless it was the next in line).
    pub fn accept(&mut self, index: usize, result: R) -> (out: Vec<R>)
        requires
            old(self).wf(),
            !old(self).arrived().contains_key(index as int),
            index < usize::MAX,
        ensures
            final(self).wf(),
            final(self).arrived() == old(self).arrived().insert(index as int, result),
            final(self).released() == old(self).released() + out@,
            final(self).next_index() == old(self).next_index() + out@.len(),
            index != old(self).next_index() ==> out@.len() == 0,
            index == old(self).next_index() ==> out@.len() > 0,
    {
        proof {
            assert(index >= self.next) by {
                if index < self.next {
                    assert(self.arrived@.contains_key(index as int));
                }
            }
        }
        let offset = index - self.next;
        while self.window.len() <= offset
            invariant
                self.wf(),
                self.arrived@ == old(self).arrived@,
                self.released@ == old(self).released@,
                self.next == old(self).next,
                offset == index - self.next,
                !self.arrived@.contains_key(index as int),
            decreases offset + 1 - self.window.len(),
        {
            self.window.push(None);
        }
        self.window.set(offset, Some(result));
        proof {
            let prior = self.arrived@;
            self.arrived@ = prior.insert(index as int, result);
            assert forall|i: int| 0 <= i < self.next implies #[trigger] self.arrived@.contains_key(i)
                && self.released@[i] == self.arrived@[i] by {
                assert(prior.contains_key(i));
                assert(i != index);
            }
            assert forall|i: int| 0 <= i < self.window@.len() implies (#[trigger] self.window@[i] is Some
                <==> self.arrived@.contains_key(self.next + i)) by {
                if i != offset {
                    assert(self.window@[i] is Some <==> prior.contains_key(self.next + i));
                }
            }
        }
        let mut out: Vec<R> = Vec::new();
        let ghost start_released = self.released@;
        while self.window.len() > 0 && self.window[0].is_some()
            invariant
                self.arrived@ == old(self).arrived@.insert(index as int, result),
                self.released@ == start_released + out@,
                start_released == old(self).released@,
                self.next == old(self).next + out@.len(),
                self.released@.len() == self.next,
                forall|i: int|
                    0 <= i < self.next ==> #[trigger] self.arrived@.contains_key(i)
                        && self.released@[i] == self.arrived@[i],
                forall|i: int|
                    0 <= i < self.window@.len() ==> (#[trigger] self.window@[i] is Some
                        <==> self.arrived@.contains_key(self.next + i)),
                forall|i: int|
                    0 <= i < self.window@.len() && self.window@[i] is Some ==> self.window@[i]->0
                        == self.arrived@[self.next + i],
                forall|k: int| #[trigger]
                    self.arrived@.contains_key(k) ==> 0 <= k < self.next + self.window@.len() && k
                        < usize::MAX,
                index == old(self).next ==> self.window@.len() > 0 || out@.len() > 0,
                index != old(self).next ==> out@.len() == 0 && self.window@.len() > 0
                    && self.window@[0] is None,
            decreases self.window.len(),
        {
            let ghost before = self.window@;
            let value = self.window.remove(0).unwrap();
            proof {
                assert(value == self.arrived@[self.next as int]);
                self.released@ = self.released@.push(value);
                assert forall|i: int| 0 <= i < self.window@.len() implies #[trigger] self.window@[i]
                    == before[i + 1] by {}
            }
            out.push(value);
            self.next = self.next + 1;
            proof {
                assert(self.released@ =~= start_released + out@);
            }
        }
        out
    }
}

} // verus!
