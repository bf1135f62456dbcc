use vstd::prelude::*;

verus! {

/// A value that knows the domain that made it.
pub trait Element {
    /// The type of that domain.
    type Parent;

    /// The domain that made this element.
    spec fn owner(&self) -> Self::Parent;

    /// The domain that made this element.
    fn parent(&self) -> (r: &Self::Parent)
        ensures
            *r == self.owner(),
    ;
}

} // verus!
