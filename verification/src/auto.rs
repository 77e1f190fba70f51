//! Automatic discovery of INDIGO services.
use vstd::prelude::*;

verus! {

/// A discovery of the INDIGO services announced on a port.
#[derive(Debug)]
pub struct AutoDiscovery {
    name: String,
    port: u64,
}

impl AutoDiscovery {
    pub closed spec fn spec_name(&self) -> Seq<char> {
        self.name@
    }

    /// The name that identifies the discovery.
    pub fn name(&self) -> (r: &str)
        ensures
            r@ == self.spec_name(),
    {
        self.name.as_str()
    }
}

} // verus!
