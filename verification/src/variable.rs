use rand_pcg::Pcg64;
use vstd::prelude::*;

verus! {

/// Something that mutation can vary: it can be perturbed at a rate, and it
/// knows how many independently variable scalars it holds.
pub trait Variable {
    /// What governs one variation.
    type Rate;

    /// The value is consistent in itself.
    spec fn wf(&self) -> bool;

    /// The rate is one that a variation can be made at.
    spec fn admits(rate: &Self::Rate) -> bool;

    /// The number of degrees of freedom.
    spec fn dof_spec(&self) -> nat;

    /// `after` is a value that one variation of `self` at `rate` can leave.
    spec fn varied(&self, rate: &Self::Rate, after: &Self) -> bool;

    /// Varies the value in place, drawing what it needs from `rng`.
    fn variate(&mut self, rate: &Self::Rate, rng: &mut Pcg64)
        requires
            old(self).wf(),
            Self::admits(rate),
        ensures
            final(self).wf(),
            old(self).varied(rate, final(self)),
    ;

    /// Number of degrees of freedom.
    fn dof(&self) -> (count: usize)
        requires
            self.wf(),
            self.dof_spec() <= usize::MAX,
        ensures
            count == self.dof_spec(),
    ;
}

} // verus!
