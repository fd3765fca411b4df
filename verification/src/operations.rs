use vstd::prelude::*;

use crate::image::Images;

verus! {

/// A pure filtering operation: a function from one well-formed buffer
/// to a new well-formed buffer, stateless beyond its own parameters.
/// Each implementation's `apply` states exactly which buffer it returns.
pub trait Operation {
    fn apply(&self, old_image: &Images) -> (r: Images)
        requires
            old_image.well_formed(),
        ensures
            r.well_formed(),
    ;
}

/// A geometric transformation of the buffer stored inside the operation
/// value. `valid` says what must hold of that buffer; each
/// implementation's `apply` states exactly which buffer it returns.
pub trait Transformation {
    spec fn valid(&self) -> bool;

    fn apply(&self) -> (r: Images)
        requires
            self.valid(),
        ensures
            r.well_formed(),
    ;
}

} // verus!
