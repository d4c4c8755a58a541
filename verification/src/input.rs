//! Input pipeline: platform-neutral key and button codes, event types, and
//! the verified planning side of input simulation.

pub mod simulator;
pub mod types;
