//! Tagging results with a diagnostic message as they flow through the
//! workflow.  Emitting a message is an I/O concern that lives outside
//! this crate; what is pinned down here is that tagging never changes
//! the tagged result.

use vstd::prelude::*;

verus! {

/// Attaches a diagnostic message (as an error, or as a warning) to a
/// result on its way through; the result itself passes unchanged.
pub trait Logit: Sized {
    fn logit(self, msg: &str) -> (r: Self)
        ensures
            r == self,
    ;

    fn logit_warn(self, msg: &str) -> (r: Self)
        ensures
            r == self,
    ;
}

impl<T, E> Logit for Result<T, E> {
    fn logit(self, _msg: &str) -> (r: Self) {
        self
    }

    fn logit_warn(self, _msg: &str) -> (r: Self) {
        self
    }
}

} // verus!
