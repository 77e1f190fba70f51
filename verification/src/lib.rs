//! libindigo: the core types, number formats and protocol of INDIGO astronomy
//! clients and devices.
use vstd::prelude::*;

pub mod auto;
pub mod client;
pub mod device;
pub mod discovery;
pub mod error;
pub mod keyed;
pub mod logging;
pub mod model2;
pub mod msg;
pub mod name;
pub mod property;
pub mod number;
pub mod text;
pub mod strategies;
pub mod types;

verus! {

} // verus!
