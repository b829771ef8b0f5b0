//! Traits for splittable pseudo-random generators.
use vstd::prelude::*;

verus! {

/// A generator that can be split into branches.
///
/// Each branch starts from a state that depends on the generator's state at
/// the fork; the branches' streams are uncorrelated with each other.
pub trait SplittableRng: Sized {
    /// The split taken off a generator: an immutable factory of branches.
    type Split: SplitRng<Self>;

    /// The split that `splitn` returns for `self`.
    spec fn spec_splitn(self) -> Self::Split;

    /// Splits this generator into branches, each reached from the result by
    /// an index. The generator is moved in and cannot be used again; the
    /// split may instantiate a branch any number of times.
    fn splitn(self) -> (r: Self::Split)
        ensures
            r == self.spec_splitn(),
    ;

    /// Splits this generator into two: branches 0 and 1 of its split.
    fn split(self) -> (r: (Self, Self))
        ensures
            r.0 == self.spec_splitn().spec_branch(0),
            r.1 == self.spec_splitn().spec_branch(1),
    {
        let splits = self.splitn();
        (splits.branch(0), splits.branch(1))
    }
}

/// A split of a `SplittableRng`: an immutable factory of generators indexed
/// by `usize`.
pub trait SplitRng<R>: Sized {
    /// The generator of branch `i`.
    spec fn spec_branch(&self, i: usize) -> R;

    /// Instantiates branch `i`. Every call with the same `i` gives a
    /// generator in the same state.
    fn branch(&self, i: usize) -> (r: R)
        ensures
            r == self.spec_branch(i),
    ;
}

} // verus!
