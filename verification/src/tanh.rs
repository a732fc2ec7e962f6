use crate::layer::Layer;
use crate::scalar::{is_tanh, tanhs, Scalar};
use crate::vector::Vector;
use core::marker::PhantomData;
use vstd::prelude::*;

verus! {

/// The hyperbolic tangent, applied to every element. It has no parameters;
/// the type parameter only names the scalars it works on.
#[derive(Debug)]
pub struct Tanh<T> {
    scalar: PhantomData<T>,
}

impl<T: Scalar> Tanh<T> {
    pub fn new() -> Self {
        Self { scalar: PhantomData }
    }

    fn process_inplace(vector: &mut Vector<T>)
        ensures
            tanhs(old(vector)@, final(vector)@),
    {
        let mut i: usize = 0;
        while i < vector.data.len()
            invariant
                i <= vector@.len(),
                vector@.len() == old(vector)@.len(),
                forall|k: int| 0 <= k < i ==> is_tanh(old(vector)@[k], #[trigger] vector@[k]),
                forall|k: int| i <= k < vector@.len() ==> vector@[k] == old(vector)@[k],
            decreases vector@.len() - i,
        {
            let squashed = vector.data[i].tanh();
            vector.data.set(i, squashed);
            i += 1;
        }
    }
}

impl<T: Scalar> Layer for Tanh<T> {
    type Input = Vector<T>;

    type Output = Vector<T>;

    open spec fn accepts(&self, input: Vector<T>) -> bool {
        true
    }

    open spec fn maps(&self, input: Vector<T>, output: Vector<T>) -> bool {
        tanhs(input@, output@)
    }

    /// Replaces every element of `input` by its hyperbolic tangent.
    fn process(&self, input: Vector<T>) -> (output: Vector<T>) {
        let mut input = input;
        Self::process_inplace(&mut input);
        input
    }
}

} // verus!
