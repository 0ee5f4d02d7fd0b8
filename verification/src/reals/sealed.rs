use vstd::prelude::*;

verus! {

/// Closes [`crate::Real`]: the collaborator interface is implemented only
/// by the element types of a build that supplies the scalar functions.
pub trait Sealed {

}

} // verus!
