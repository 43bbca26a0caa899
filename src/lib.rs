//! Job orchestration for a single-node container manager: classifying the
//! runtime state of a job's instances, deciding the per-instance fan-out of
//! its lifecycle operations, and shaping its merged log and wait streams.
use vstd::prelude::*;

pub mod context;
pub mod fanout;
pub mod instance;
pub mod label;
pub mod metric;
pub mod resource;
pub mod stream;
pub mod text;

verus! {

} // verus!
