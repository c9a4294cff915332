//! Configuration and trust classification of the addresses that a load
//! balancer daemon sees on its host.
use vstd::prelude::*;

pub mod address;
pub mod inventory;
pub mod config;
pub mod laws;

verus! {

} // verus!
