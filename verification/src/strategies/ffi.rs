//! The strategy that drives the INDIGO C library.
use vstd::prelude::*;

verus! {

/// FFI-based client strategy; its operations are not implemented yet and
/// answer `NotSupported`.
pub struct FfiClientStrategy {}

impl FfiClientStrategy {
    /// Creates a new FFI client strategy.
    pub fn new() -> (r: FfiClientStrategy) {
        FfiClientStrategy {}
    }
}

} // verus!
