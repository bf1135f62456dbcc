use vstd::prelude::*;

verus! {

/// An algebraic domain: it owns a family of elements of type `Child`.
pub trait Structure<'a> {
    type Child;
}

/// A domain that makes its elements from values of type `T`.
pub trait Lifter<'a, T>: Structure<'a> {
    /// Whether `r` is an element that `lift` may return for `val`.
    spec fn lifts_to(&self, val: T, r: Self::Child) -> bool;

    /// The element of this domain that `val` stands for.
    fn lift(&'a self, val: T) -> (r: Self::Child)
        ensures
            self.lifts_to(val, r),
    ;
}

} // verus!
