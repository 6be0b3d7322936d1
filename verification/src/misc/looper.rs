use vstd::prelude::*;

verus! {

/// Standardizes pattern for internalised loop that allows mutable callbacks and persistent state.
/// The state is data that's persisted between iterations, and eventually passed out, this should be customisable by the caller.
pub struct Looper<State, Value> {
    pub state: State,
    pub value: Value,
    pub stop_early: bool,
}

impl<State, Value> Looper<State, Value> {
    /// A looper carrying `state` and `value`, not asked to stop early.
    pub fn new(state: State, value: Value) -> (looper: Self)
        ensures
            looper.state == state,
            looper.value == value,
            !looper.stop_early,
    {
        Looper { state, value, stop_early: false }
    }

    /// The state of the looper.
    pub fn state(&self) -> (state: &State)
        ensures
            *state == self.state,
    {
        &self.state
    }

    /// The state of the looper, mutable.
    pub fn state_mut(&mut self) -> (state: &mut State)
        ensures
            *state == old(self).state,
            final(self).state == *final(state),
            final(self).value == old(self).value,
            final(self).stop_early == old(self).stop_early,
    {
        &mut self.state
    }

    /// The value of the looper.
    pub fn value(&self) -> (value: &Value)
        ensures
            *value == self.value,
    {
        &self.value
    }

    /// The value of the looper, mutable.
    pub fn value_mut(&mut self) -> (value: &mut Value)
        ensures
            *value == old(self).value,
            final(self).value == *final(value),
            final(self).state == old(self).state,
            final(self).stop_early == old(self).stop_early,
    {
        &mut self.value
    }

    /// If the function using the looper supports stopping early,
    /// will cause handler to cease further iteration and return early.
    pub fn stop_early(&mut self)
        ensures
            final(self).stop_early,
            final(self).state == old(self).state,
            final(self).value == old(self).value,
    {
        self.stop_early = true;
    }
}

} // verus!
