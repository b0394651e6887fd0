//! Orchestration core for training and validating an image classifier:
//! run configuration, batch and output shape checks, and the epoch-driven
//! fit loop expressed as a state machine that a driver feeds with events.
use vstd::prelude::*;

pub mod artifacts;
pub mod batching;
pub mod config;
pub mod evaluate;
pub mod fit;

verus! {

} // verus!
