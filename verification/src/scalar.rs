use rand_pcg::Pcg64;
use vstd::prelude::*;

verus! {

/// The numbers that vectors and layers hold and compute with.
///
/// The library never looks inside a scalar. Everything it proves about values
/// is stated through the relations below, which say no more than "this is what
/// the operation returned on these operands". An implementation may round,
/// saturate or propagate not-a-number as it sees fit.
pub trait Scalar: Copy {
    /// The additive identity; new elements enter every vector and matrix as
    /// this value.
    fn zero() -> Self;

    /// The sum of two scalars.
    fn add(self, rhs: Self) -> Self;

    /// The product of two scalars.
    fn mul(self, rhs: Self) -> Self;

    /// The hyperbolic tangent of a scalar.
    fn tanh(self) -> Self;

    /// Whether the scalar can be the variance of a distribution: it is
    /// finite and not negative.
    fn is_variance(self) -> bool;

    /// One draw from the zero-mean normal distribution of the given
    /// variance, taken from `rng`. It is only ever asked for a variance that
    /// has passed `is_variance`.
    fn normal(variance: Self, rng: &mut Pcg64) -> Self
        requires
            call_ensures(Self::is_variance, (variance,), true),
    ;
}

/// `variance` has passed, or can pass, the test `is_variance`.
pub open spec fn is_variance<T: Scalar>(variance: T) -> bool {
    call_ensures(T::is_variance, (variance,), true)
}

/// `r` is a value that `T::zero()` can return.
pub open spec fn is_zero<T: Scalar>(r: T) -> bool {
    call_ensures(T::zero, (), r)
}

/// `r` is a value that `a.add(b)` can return.
pub open spec fn is_sum<T: Scalar>(a: T, b: T, r: T) -> bool {
    call_ensures(T::add, (a, b), r)
}

/// `r` is a value that `a.mul(b)` can return.
pub open spec fn is_product<T: Scalar>(a: T, b: T, r: T) -> bool {
    call_ensures(T::mul, (a, b), r)
}

/// `r` is a value that `a.tanh()` can return.
pub open spec fn is_tanh<T: Scalar>(a: T, r: T) -> bool {
    call_ensures(T::tanh, (a,), r)
}

/// `n` is a value that `T::normal(variance, ..)` can return from some
/// generator state.
pub open spec fn is_draw<T: Scalar>(variance: T, n: T) -> bool {
    exists|rng: &mut Pcg64| call_ensures(T::normal, (variance, rng), n)
}

/// `r` is `a` with one draw of the given variance added to it.
pub open spec fn is_nudge<T: Scalar>(variance: T, a: T, r: T) -> bool {
    exists|n: T| is_draw(variance, n) && #[trigger] is_sum(a, n, r)
}

/// `r` is `acc` with the product of `w` and `x` added to it: one step of a
/// dot product.
pub open spec fn is_step<T: Scalar>(w: T, x: T, acc: T, r: T) -> bool {
    exists|p: T| is_product(w, x, p) && #[trigger] is_sum(acc, p, r)
}

/// Every element of `s` is a zero.
pub open spec fn all_zero<T: Scalar>(s: Seq<T>) -> bool {
    forall|i: int| 0 <= i < s.len() ==> is_zero(#[trigger] s[i])
}

/// `r` is the element-wise sum of `a` and `b`.
pub open spec fn sums<T: Scalar>(a: Seq<T>, b: Seq<T>, r: Seq<T>) -> bool {
    &&& a.len() == b.len()
    &&& r.len() == a.len()
    &&& forall|i: int| 0 <= i < r.len() ==> is_sum(a[i], b[i], #[trigger] r[i])
}

/// `r` is the element-wise hyperbolic tangent of `a`.
pub open spec fn tanhs<T: Scalar>(a: Seq<T>, r: Seq<T>) -> bool {
    &&& r.len() == a.len()
    &&& forall|i: int| 0 <= i < r.len() ==> is_tanh(a[i], #[trigger] r[i])
}

/// `r` is `a` with an independent draw of the given variance added to every
/// element.
pub open spec fn nudged<T: Scalar>(variance: T, a: Seq<T>, r: Seq<T>) -> bool {
    &&& r.len() == a.len()
    &&& forall|i: int| 0 <= i < r.len() ==> is_nudge(variance, a[i], #[trigger] r[i])
}

/// `acc` holds the partial sums of the dot product of `w` and `x`, taken from
/// the first index up: it starts at a zero, and each further entry adds one
/// product to the one before.
pub open spec fn dot_trace<T: Scalar>(w: Seq<T>, x: Seq<T>, acc: Seq<T>) -> bool {
    &&& w.len() == x.len()
    &&& acc.len() == w.len() + 1
    &&& is_zero(acc[0])
    &&& forall|i: int| 0 <= i < w.len() ==> is_step(w[i], x[i], #[trigger] acc[i], acc[i + 1])
}

/// `r` is the dot product `w[0] * x[0] + w[1] * x[1] + ..`, summed from the
/// first index up and starting from a zero.
pub open spec fn is_dot<T: Scalar>(w: Seq<T>, x: Seq<T>, r: T) -> bool {
    exists|acc: Seq<T>| #[trigger] dot_trace(w, x, acc) && acc.last() == r
}

/// The arithmetic of `T` is a function of its operands: no operation has two
/// different results on the same operands.
pub open spec fn functional<T: Scalar>() -> bool {
    &&& forall|r1: T, r2: T| is_zero(r1) && is_zero(r2) ==> r1 == r2
    &&& forall|a: T, b: T, r1: T, r2: T|
        #[trigger] is_sum(a, b, r1) && #[trigger] is_sum(a, b, r2) ==> r1 == r2
    &&& forall|a: T, b: T, r1: T, r2: T|
        #[trigger] is_product(a, b, r1) && #[trigger] is_product(a, b, r2) ==> r1 == r2
    &&& forall|a: T, r1: T, r2: T|
        #[trigger] is_tanh(a, r1) && #[trigger] is_tanh(a, r2) ==> r1 == r2
}

/// Over functional arithmetic a dot product has one value.
pub proof fn lemma_dot_unique<T: Scalar>(w: Seq<T>, x: Seq<T>, r1: T, r2: T)
    requires
        functional::<T>(),
        is_dot(w, x, r1),
        is_dot(w, x, r2),
    ensures
        r1 == r2,
{
    let acc1 = choose|acc: Seq<T>| #[trigger] dot_trace(w, x, acc) && acc.last() == r1;
    let acc2 = choose|acc: Seq<T>| #[trigger] dot_trace(w, x, acc) && acc.last() == r2;
    lemma_trace_unique(w, x, acc1, acc2, w.len() as int);
}

/// Over functional arithmetic an element-wise sum has one value.
pub proof fn lemma_sums_unique<T: Scalar>(a: Seq<T>, b: Seq<T>, r1: Seq<T>, r2: Seq<T>)
    requires
        functional::<T>(),
        sums(a, b, r1),
        sums(a, b, r2),
    ensures
        r1 == r2,
{
    assert(r1 =~= r2);
}

/// Over functional arithmetic an element-wise hyperbolic tangent has one
/// value.
pub proof fn lemma_tanhs_unique<T: Scalar>(a: Seq<T>, r1: Seq<T>, r2: Seq<T>)
    requires
        functional::<T>(),
        tanhs(a, r1),
        tanhs(a, r2),
    ensures
        r1 == r2,
{
    assert(r1 =~= r2);
}

/// Where a draw of the given variance added to a scalar never changes it,
/// perturbing a sequence leaves it as it was.
pub proof fn lemma_nudged_still<T: Scalar>(variance: T, a: Seq<T>, r: Seq<T>)
    requires
        forall|x: T, y: T| #[trigger] is_nudge(variance, x, y) ==> y == x,
        nudged(variance, a, r),
    ensures
        r == a,
{
    assert(r =~= a);
}

proof fn lemma_trace_unique<T: Scalar>(w: Seq<T>, x: Seq<T>, acc1: Seq<T>, acc2: Seq<T>, k: int)
    requires
        functional::<T>(),
        dot_trace(w, x, acc1),
        dot_trace(w, x, acc2),
        0 <= k <= w.len(),
    ensures
        acc1[k] == acc2[k],
    decreases k,
{
    if k > 0 {
        lemma_trace_unique(w, x, acc1, acc2, k - 1);
        let i = k - 1;
        assert(is_step(w[i], x[i], acc1[i], acc1[i + 1]));
        assert(is_step(w[i], x[i], acc2[i], acc2[i + 1]));
        let p1 = choose|p: T|
            is_product(w[i], x[i], p) && #[trigger] is_sum(acc1[i], p, acc1[i + 1]);
        let p2 = choose|p: T|
            is_product(w[i], x[i], p) && #[trigger] is_sum(acc2[i], p, acc2[i + 1]);
        assert(p1 == p2);
    }
}

} // verus!
