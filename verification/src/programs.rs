//! Ready-made programs for common jobs.

pub mod planing;

pub use planing::planing;
pub use planing::PlaningMeasurements;
