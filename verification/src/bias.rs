use crate::layer::Layer;
use crate::resize::ResizeAction;
use crate::scalar::{all_zero, is_variance, nudged, sums, Scalar};
use crate::variable::Variable;
use crate::vector::{copy_of, nudge_of, resize_of, resized, sum_of, zeros_of, Vector};
use rand_pcg::Pcg64;
use vstd::prelude::*;

verus! {

/// A bias layer: adds a fixed vector to its input, element by element.
#[derive(Debug)]
pub struct Bias<T> {
    pub data: Vec<T>,
}

impl<T> View for Bias<T> {
    type V = Seq<T>;

    open spec fn view(&self) -> Seq<T> {
        self.data@
    }
}

impl<T: Scalar> Bias<T> {
    /// The bias of the given dimension whose elements are all zero.
    pub fn new(size: usize) -> (bias: Self)
        ensures
            bias@.len() == size,
            all_zero(bias@),
    {
        Self { data: zeros_of(size) }
    }

    /// The dimension.
    pub fn size(&self) -> (size: usize)
        ensures
            size == self@.len(),
    {
        self.data.len()
    }

    /// Grows the bias by one zero at the end, or removes the element at the
    /// index given.
    pub(crate) fn resize(&mut self, action: ResizeAction)
        requires
            action.fits(old(self)@.len()),
        ensures
            resized(old(self)@, action, final(self)@),
    {
        resize_of(&mut self.data, action);
    }
}

impl<T: Scalar> Clone for Bias<T> {
    fn clone(&self) -> (copy: Self)
        ensures
            copy@ == self@,
    {
        Self { data: copy_of(&self.data) }
    }
}

impl<T: Scalar> Layer for Bias<T> {
    type Input = Vector<T>;

    type Output = Vector<T>;

    open spec fn accepts(&self, input: Vector<T>) -> bool {
        input@.len() == self@.len()
    }

    open spec fn maps(&self, input: Vector<T>, output: Vector<T>) -> bool {
        sums(input@, self@, output@)
    }

    /// Adds the bias to `input`: output `i` is input `i` plus bias `i`.
    fn process(&self, input: Vector<T>) -> (output: Vector<T>) {
        Vector::new(sum_of(&input.data, &self.data))
    }
}

impl<T: Scalar> Variable for Bias<T> {
    /// The variance of the draws.
    type Rate = T;

    open spec fn wf(&self) -> bool {
        true
    }

    open spec fn admits(rate: &T) -> bool {
        is_variance(*rate)
    }

    open spec fn dof_spec(&self) -> nat {
        self@.len()
    }

    open spec fn varied(&self, rate: &T, after: &Self) -> bool {
        nudged(*rate, self@, after@)
    }

    /// Adds an independent draw of variance `rate` to every element, from
    /// the first index up.
    fn variate(&mut self, rate: &T, rng: &mut Pcg64) {
        nudge_of(&mut self.data, *rate, rng);
    }

    fn dof(&self) -> (count: usize) {
        self.size()
    }
}

} // verus!
