use vstd::prelude::*;

verus! {

/// The values a lazy batcher has gathered since its last batch went out.
pub struct BatchBuffer<T> {
    active: Vec<T>,
}

impl<T> BatchBuffer<T> {
    /// The gathered values, in the order they were pushed.
    pub closed spec fn values(&self) -> Seq<T> {
        self.active@
    }

    /// An empty buffer.
    pub fn new() -> (b: Self)
        ensures
            b.values() == Seq::<T>::empty(),
    {
        BatchBuffer { active: Vec::new() }
    }

    /// Adds values; returns whether this starts a new batch (the buffer was empty), in
    /// which case the caller schedules the batch to go out after the batching delay.
    pub fn extend(&mut self, values: Vec<T>) -> (start_new_batch: bool)
        ensures
            start_new_batch <==> old(self).values().len() == 0,
            final(self).values() == old(self).values() + values@,
    {
        let start_new_batch = self.active.len() == 0;
        let mut values = values;
        self.active.append(&mut values);
        start_new_batch
    }

    /// Adds one value; returns whether this starts a new batch.
    pub fn push(&mut self, value: T) -> (start_new_batch: bool)
        ensures
            start_new_batch <==> old(self).values().len() == 0,
            final(self).values() == old(self).values().push(value),
    {
        let start_new_batch = self.active.len() == 0;
        self.active.push(value);
        start_new_batch
    }

    /// Takes the whole batch out, leaving the buffer empty: `None` when nothing was
    /// gathered, so no callback runs.
    pub fn take_batch(&mut self) -> (batch: Option<Vec<T>>)
        ensures
            final(self).values() == Seq::<T>::empty(),
            match batch {
                Some(b) => b@ == old(self).values() && b@.len() > 0,
                None => old(self).values().len() == 0,
            },
    {
        let mut taken: Vec<T> = Vec::new();
        std::mem::swap(&mut taken, &mut self.active);
        if taken.len() == 0 {
            None
        } else {
            Some(taken)
        }
    }
}

} // verus!
