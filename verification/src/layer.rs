use vstd::prelude::*;

verus! {

/// A stateless transformation from an input to an output.
pub trait Layer {
    type Input;

    type Output;

    /// The input has the shape that the layer takes.
    spec fn accepts(&self, input: Self::Input) -> bool;

    /// `output` is a value that the layer can return for `input`.
    spec fn maps(&self, input: Self::Input, output: Self::Output) -> bool;

    /// Transforms `input`. The layer itself is not changed.
    fn process(&self, input: Self::Input) -> (output: Self::Output)
        requires
            self.accepts(input),
        ensures
            self.maps(input, output),
    ;
}

/// Lets a value be fed into a layer in postfix position, so that layers chain
/// in the order in which they run.
pub trait Apply<O, L: Layer<Input = Self, Output = O>>: Sized {
    /// The output of `layer` for this value.
    fn apply(self, layer: &L) -> (output: O)
        requires
            layer.accepts(self),
        ensures
            layer.maps(self, output),
    {
        layer.process(self)
    }
}

} // verus!
