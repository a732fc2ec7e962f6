use crate::layer::{Apply, Layer};
use crate::resize::ResizeAction;
use crate::scalar::{all_zero, is_nudge, is_sum, is_variance, is_zero, nudged, sums, Scalar};
use crate::variable::Variable;
use rand_pcg::Pcg64;
use vstd::prelude::*;

verus! {

/// An ordered sequence of scalars; its length is its dimension.
#[derive(Debug)]
pub struct Vector<T> {
    pub data: Vec<T>,
}

impl<T> View for Vector<T> {
    type V = Seq<T>;

    open spec fn view(&self) -> Seq<T> {
        self.data@
    }
}

/// `after` is `before` resized by `action`: grown by a zero at the end, or
/// with the element at the given index taken out and the rest in order.
pub open spec fn resized<T: Scalar>(before: Seq<T>, action: ResizeAction, after: Seq<T>) -> bool {
    match action {
        ResizeAction::Add => {
            &&& after.len() == before.len() + 1
            &&& after.drop_last() == before
            &&& is_zero(after.last())
        },
        ResizeAction::Remove(index) => {
            &&& index < before.len()
            &&& after == before.remove(index as int)
        },
    }
}

/// `len` zeros.
pub(crate) fn zeros_of<T: Scalar>(len: usize) -> (data: Vec<T>)
    ensures
        data@.len() == len,
        all_zero(data@),
{
    let mut data: Vec<T> = Vec::new();
    let mut i: usize = 0;
    while i < len
        invariant
            i <= len,
            data@.len() == i,
            all_zero(data@),
        decreases len - i,
    {
        data.push(T::zero());
        i += 1;
    }
    data
}

/// Applies `action` to `data`.
pub(crate) fn resize_of<T: Scalar>(data: &mut Vec<T>, action: ResizeAction)
    requires
        action.fits(old(data)@.len()),
    ensures
        resized(old(data)@, action, final(data)@),
        final(data)@.len() <= usize::MAX,
{
    assert(data.len() == data@.len());
    match action {
        ResizeAction::Add => {
            data.push(T::zero());
            assert(data@.drop_last() =~= old(data)@);
            assert(data.len() == data@.len());
        },
        ResizeAction::Remove(index) => {
            data.remove(index);
        },
    }
}

/// The element-wise sum of `a` and `b`.
pub(crate) fn sum_of<T: Scalar>(a: &Vec<T>, b: &Vec<T>) -> (sum: Vec<T>)
    requires
        a@.len() == b@.len(),
    ensures
        sums(a@, b@, sum@),
{
    let mut sum: Vec<T> = Vec::new();
    let mut i: usize = 0;
    while i < a.len()
        invariant
            a@.len() == b@.len(),
            i <= a@.len(),
            sum@.len() == i,
            forall|k: int| 0 <= k < i ==> is_sum(a@[k], b@[k], #[trigger] sum@[k]),
        decreases a@.len() - i,
    {
        sum.push(a[i].add(b[i]));
        i += 1;
    }
    sum
}

/// Adds an independent draw of the given variance to every element of
/// `data`, from the first index up.
pub(crate) fn nudge_of<T: Scalar>(data: &mut Vec<T>, variance: T, rng: &mut Pcg64)
    requires
        is_variance(variance),
    ensures
        nudged(variance, old(data)@, final(data)@),
{
    let mut i: usize = 0;
    while i < data.len()
        invariant
            is_variance(variance),
            i <= data@.len(),
            data@.len() == old(data)@.len(),
            forall|k: int| 0 <= k < i ==> is_nudge(variance, old(data)@[k], #[trigger] data@[k]),
            forall|k: int| i <= k < data@.len() ==> data@[k] == old(data)@[k],
        decreases data@.len() - i,
    {
        let noise = T::normal(variance, rng);
        let moved = data[i].add(noise);
        data.set(i, moved);
        assert(is_sum(old(data)@[i as int], noise, data@[i as int]));
        i += 1;
    }
}

/// A copy of `data`.
pub(crate) fn copy_of<T: Copy>(data: &Vec<T>) -> (copy: Vec<T>)
    ensures
        copy@ == data@,
{
    let mut copy: Vec<T> = Vec::new();
    let mut i: usize = 0;
    while i < data.len()
        invariant
            i <= data@.len(),
            copy@ == data@.take(i as int),
        decreases data@.len() - i,
    {
        copy.push(data[i]);
        assert(copy@ =~= data@.take(i + 1));
        i += 1;
    }
    assert(data@.take(data@.len() as int) =~= data@);
    copy
}

impl<T: Scalar> Vector<T> {
    /// The vector of the given elements.
    pub fn new(data: Vec<T>) -> (vector: Self)
        ensures
            vector@ == data@,
    {
        Self { data }
    }

    /// The vector of `len` zeros.
    pub fn zeros(len: usize) -> (vector: Self)
        ensures
            vector@.len() == len,
            all_zero(vector@),
    {
        Self { data: zeros_of(len) }
    }

    /// The dimension.
    pub fn len(&self) -> (len: usize)
        ensures
            len == self@.len(),
    {
        self.data.len()
    }

    pub fn is_empty(&self) -> (empty: bool)
        ensures
            empty <==> self@.len() == 0,
    {
        self.len() == 0
    }

    /// Grows the vector by one zero at the end, or removes the element at the
    /// index given. The other elements keep their values and their order.
    pub fn resize(&mut self, action: ResizeAction)
        requires
            action.fits(old(self)@.len()),
        ensures
            resized(old(self)@, action, final(self)@),
            final(self)@.len() <= usize::MAX,
    {
        resize_of(&mut self.data, action);
    }

    /// The element-wise sum of two vectors of one dimension.
    pub fn add(&self, other: &Vector<T>) -> (sum: Self)
        requires
            self@.len() == other@.len(),
        ensures
            sums(self@, other@, sum@),
    {
        Self { data: sum_of(&self.data, &other.data) }
    }
}

impl<T: Scalar> Clone for Vector<T> {
    fn clone(&self) -> (copy: Self)
        ensures
            copy@ == self@,
    {
        Self { data: copy_of(&self.data) }
    }
}

impl<T: Scalar> Variable for Vector<T> {
    /// The variance of the draws.
    type Rate = T;

    open spec fn wf(&self) -> bool {
        true
    }

    open spec fn admits(rate: &T) -> bool {
        is_variance(*rate)
    }

    open spec fn dof_spec(&self) -> nat {
        self@.len()
    }

    open spec fn varied(&self, rate: &T, after: &Self) -> bool {
        nudged(*rate, self@, after@)
    }

    /// Adds an independent draw of variance `rate` to every element, from
    /// the first index up.
    fn variate(&mut self, rate: &T, rng: &mut Pcg64) {
        nudge_of(&mut self.data, *rate, rng);
    }

    fn dof(&self) -> (count: usize) {
        self.data.len()
    }
}

impl<T, O, L: Layer<Input = Self, Output = O>> Apply<O, L> for Vector<T> {
}

/// Resizes a vector: see [`Vector::resize`].
pub fn resize_vector<T: Scalar>(vector: &mut Vector<T>, action: ResizeAction)
    requires
        action.fits(old(vector)@.len()),
    ensures
        resized(old(vector)@, action, final(vector)@),
{
    vector.resize(action);
}

} // verus!
