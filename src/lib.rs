//! Transaction injection node: peer-connection scheduling, the broadcast
//! endpoint and the lifecycle of the two services.
use vstd::prelude::*;

pub mod configs;
pub mod endpoints;
pub mod registry;
pub mod result;
pub mod scheduler;
pub mod service;
pub mod web3;

verus! {

} // verus!
