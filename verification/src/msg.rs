//! Messages of the INDIGO protocol version 2.
use vstd::prelude::*;

verus! {

/// A token that grants access to a device.
#[derive(Debug, Clone)]
pub struct AccessToken {
    tok: u64,
}

} // verus!
