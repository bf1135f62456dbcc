use vstd::prelude::*;

verus! {

/// A type whose values combine by addition, subtraction and multiplication, in
/// place or into a new value, and compare for equality.
///
/// The in-place forms are methods of this trait rather than supertraits: Verus
/// does not take `AddAssign`, `SubAssign` or `MulAssign` as a bound.
pub trait Ring: core::ops::Add + core::ops::Sub + core::ops::Mul + PartialEq + Sized {
    /// Replaces `self` with `self + other`.
    fn add_in_place(&mut self, other: Self);

    /// Replaces `self` with `self - other`.
    fn sub_in_place(&mut self, other: Self);

    /// Replaces `self` with `self * other`.
    fn mul_in_place(&mut self, other: Self);
}

} // verus!
