use vstd::prelude::*;

verus! {

/// Something that answers an input with an output, and may change its own
/// state in doing so.
pub trait Agent {
    type Input;

    type Output;

    /// The agent is in a state from which it can take a step.
    spec fn ready(&self) -> bool;

    /// `output` and the state `after` are what one step on `input` can leave.
    spec fn responds(&self, input: Self::Input, output: Self::Output, after: &Self) -> bool;

    /// One step.
    fn process(&mut self, input: Self::Input) -> (output: Self::Output)
        requires
            old(self).ready(),
        ensures
            final(self).ready(),
            old(self).responds(input, output, final(self)),
    ;
}

/// Something that advances by itself, one step at a time.
pub trait System {
    fn process(&mut self);
}

} // verus!
