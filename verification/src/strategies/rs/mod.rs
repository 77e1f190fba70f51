//! The pure Rust strategy: the INDIGO XML protocol and its negotiation.
use vstd::prelude::*;

pub mod protocol;
pub mod protocol_negotiation;
pub mod roundtrip;
pub mod xml;
pub mod numtext;
pub mod parse;
pub mod write;

verus! {

/// Pure Rust client strategy; its operations are not implemented yet and
/// answer `NotSupported`.
pub struct RsClientStrategy {}

impl RsClientStrategy {
    /// Creates a new pure Rust client strategy.
    pub fn new() -> (r: RsClientStrategy) {
        RsClientStrategy {}
    }
}

} // verus!
