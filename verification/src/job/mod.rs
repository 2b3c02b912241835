//! Jobs: their stages, the registry that clients poll, and the pipeline
//! that drives one job from submission to its end.

pub mod status;
pub mod api;
pub mod registry;
pub mod pipeline;
pub mod history;
