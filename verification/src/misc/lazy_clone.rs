use vstd::prelude::*;

verus! {

/// Efficient way to clone an item for each element of a list.
/// The final element gets the item itself, so no unnecessary clones are made.
pub trait IterWithCloneLazy: Sized {
    /// The type of the list's elements.
    type IterT;

    /// Efficient way to pass an owned clone of an item to each element.
    /// Will pass the final item by value without cloning, so no unnecessary clones are made.
    fn with_clone_lazy<ItemT: Clone>(self, item: ItemT) -> LazyCloneIter<Self::IterT, ItemT>;
}

impl<IterT> IterWithCloneLazy for Vec<IterT> {
    type IterT = IterT;

    fn with_clone_lazy<ItemT: Clone>(self, item: ItemT) -> (iter: LazyCloneIter<IterT, ItemT>)
        ensures
            iter.wf(),
            iter.remaining() == self@,
            iter.item() == Some(item),
    {
        LazyCloneIter::new(self, item)
    }
}

/// Pairs each element of a list with a clone of one item, cloning it only while more
/// elements follow: the last element gets the item itself.
pub struct LazyCloneIter<T, ItemT> {
    /// Will be handed out itself with the last element.
    item: Option<ItemT>,
    /// The elements still to come, last first.
    reversed: Vec<T>,
}

impl<T, ItemT> LazyCloneIter<T, ItemT> {
    /// The elements still to come, in order.
    pub closed spec fn remaining(&self) -> Seq<T> {
        self.reversed@.reverse()
    }

    /// The item, until it has been handed out with the last element.
    pub closed spec fn item(&self) -> Option<ItemT> {
        self.item
    }

    /// While elements remain, the item is still held.
    pub closed spec fn wf(&self) -> bool {
        self.reversed@.len() > 0 ==> self.item is Some
    }

    /// Start pairing `items` with `item`.
    pub fn new(items: Vec<T>, item: ItemT) -> (iter: Self)
        ensures
            iter.wf(),
            iter.remaining() == items@,
            iter.item() == Some(item),
    {
        let ghost all = items@;
        let mut items = items;
        let mut reversed: Vec<T> = Vec::new();
        while items.len() > 0
            invariant
                all == items@ + reversed@.reverse(),
            decreases items.len(),
        {
            let ghost before = reversed@;
            let ghost rest = items@;
            let x = items.pop().unwrap();
            reversed.push(x);
            proof {
                assert(reversed@.reverse() =~= seq![x] + before.reverse());
                assert(rest =~= items@.push(x));
                assert(all =~= items@ + reversed@.reverse());
            }
        }
        assert(all =~= reversed@.reverse());
        LazyCloneIter { item: Some(item), reversed }
    }

    /// The next element with its copy of the item: a clone while more elements follow, the
    /// item itself with the last; `None` once all have been handed out.
    pub fn next(&mut self) -> (next: Option<(ItemT, T)>) where ItemT: Clone
        requires
            old(self).wf(),
        ensures
            final(self).wf(),
            old(self).remaining().len() == 0 ==> next is None && final(self).remaining() == old(
                self,
            ).remaining() && final(self).item() == old(self).item(),
            old(self).remaining().len() > 0 ==> (next matches Some(pair) && pair.1 == old(
                self,
            ).remaining()[0] && final(self).remaining() == old(self).remaining().drop_first()),
            old(self).remaining().len() == 1 ==> (next matches Some(pair) && Some(pair.0) == old(
                self,
            ).item() && final(self).item() is None),
            old(self).remaining().len() > 1 ==> (next matches Some(pair) && cloned(
                old(self).item()->0,
                pair.0,
            ) && final(self).item() == old(self).item()),
    {
        let ghost rev = self.reversed@;
        match self.reversed.pop() {
            None => {
                assert(rev.reverse().len() == 0);
                None
            },
            Some(x) => {
                proof {
                    assert(rev =~= self.reversed@.push(x));
                    assert(rev.reverse() =~= seq![x] + self.reversed@.reverse());
                    assert(rev.reverse().drop_first() =~= self.reversed@.reverse());
                }
                if self.reversed.len() == 0 {
                    let item = self.item.take().unwrap();
                    Some((item, x))
                } else {
                    let item = self.item.as_ref().unwrap().clone();
                    Some((item, x))
                }
            },
        }
    }
}

} // verus!
