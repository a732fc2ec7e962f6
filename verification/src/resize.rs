use crate::random::{sample_index, sample_ratio};
use rand_pcg::Pcg64;
use vstd::prelude::*;

verus! {

/// A structural change to one dimension: grow it by a new last index, or
/// remove the index given.
#[derive(Clone, Copy, Debug, PartialEq, Eq, Structural)]
pub enum ResizeAction {
    Add,
    Remove(usize),
}

impl ResizeAction {
    /// The action can be applied to a dimension of the given size: an index to
    /// remove has to exist.
    pub open spec fn fits(self, size: nat) -> bool {
        match self {
            ResizeAction::Add => true,
            ResizeAction::Remove(index) => index < size,
        }
    }

    /// The size of a dimension after the action.
    pub open spec fn resize_len(self, size: nat) -> nat {
        match self {
            ResizeAction::Add => size + 1,
            ResizeAction::Remove(_) => (size - 1) as nat,
        }
    }
}

/// How often a mutation changes the structure: the probability
/// `numerator / denominator` that a resize is selected at all.
#[derive(Clone, Copy, Debug)]
pub struct ResizeRate {
    numerator: u32,
    denominator: u32,
}

impl ResizeRate {
    #[verifier::type_invariant]
    spec fn is_probability(self) -> bool {
        0 < self.denominator && self.numerator <= self.denominator
    }

    /// The probability as the pair `(numerator, denominator)`.
    pub closed spec fn odds(self) -> (nat, nat) {
        (self.numerator as nat, self.denominator as nat)
    }

    /// The probability is zero: a resize is never selected.
    pub open spec fn is_never(self) -> bool {
        self.odds().0 == 0
    }

    /// The probability is one: a resize is always selected.
    pub open spec fn is_always(self) -> bool {
        self.odds().0 == self.odds().1
    }

    /// The rate of probability `numerator / denominator`, or `None` where
    /// that is no probability: the denominator is zero, or the quotient
    /// is above one.
    pub fn new(numerator: u32, denominator: u32) -> (rate: Option<ResizeRate>)
        ensures
            rate is Some <==> 0 < denominator && numerator <= denominator,
            rate matches Some(r) ==> r.odds() == (numerator as nat, denominator as nat),
    {
        if denominator == 0 || numerator > denominator {
            None
        } else {
            Some(ResizeRate { numerator, denominator })
        }
    }

    /// The action that three random outcomes select for a dimension of the
    /// given size: none unless `resize` holds; else growth if `grow` holds or
    /// if there is nothing to remove; else the removal of `index`.
    pub open spec fn selection(resize: bool, grow: bool, index: usize, size: usize) -> Option<
        ResizeAction,
    > {
        if !resize {
            None
        } else if grow || size == 0 {
            Some(ResizeAction::Add)
        } else {
            Some(ResizeAction::Remove(index))
        }
    }

    /// Nothing is ever removed from an empty dimension: whatever is drawn, a
    /// selected resize of size zero is growth.
    pub proof fn lemma_empty_only_grows(resize: bool, grow: bool, index: usize)
        ensures
            Self::selection(resize, grow, index, 0) == if resize {
                Some(ResizeAction::Add)
            } else {
                None
            },
    {
    }

    /// Turns three random outcomes into the action for a dimension of the
    /// given size. An empty dimension is never offered a removal.
    pub fn select(resize: bool, grow: bool, index: usize, size: usize) -> (action: Option<
        ResizeAction,
    >)
        requires
            resize && !grow && size > 0 ==> index < size,
        ensures
            action == Self::selection(resize, grow, index, size),
            action matches Some(a) ==> a.fits(size as nat),
    {
        if !resize {
            None
        } else if grow || size == 0 {
            Some(ResizeAction::Add)
        } else {
            Some(ResizeAction::Remove(index))
        }
    }

    /// Draws the structural decision for a dimension of the given size: with
    /// this rate's probability a resize is selected, which is growth or the
    /// removal of a uniformly drawn index with equal odds.
    ///
    /// Whatever the generator yields, a selected action fits the dimension, so
    /// an empty dimension can only grow; a rate of zero selects nothing and a
    /// rate of one always selects.
    pub fn sample(&self, rng: &mut Pcg64, size: usize) -> (action: Option<ResizeAction>)
        ensures
            action matches Some(a) ==> a.fits(size as nat),
            size == 0 ==> action is None || action == Some(ResizeAction::Add),
            self.is_never() ==> action is None,
            self.is_always() ==> action is Some,
    {
        proof {
            use_type_invariant(self);
        }
        let resize: bool = sample_ratio(rng, self.numerator, self.denominator);
        let grow: bool = if resize && size > 0 {
            sample_ratio(rng, 1, 2)
        } else {
            true
        };
        let index: usize = if resize && !grow {
            sample_index(rng, size)
        } else {
            0
        };
        Self::select(resize, grow, index, size)
    }
}

} // verus!
