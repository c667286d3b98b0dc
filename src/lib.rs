//! Aggregation of async-runtime instrumentation events into live task,
//! resource and async-operation state for console clients.
use vstd::prelude::*;

pub mod aggregator;
pub mod channel;
pub mod histogram;
pub mod id_data;
pub mod ingress;
pub mod poll;
pub mod records;
pub mod stats;

verus! {

} // verus!
