//! cnccoder compiles high-level cutting instructions into machine-control
//! code for 3-axis CNC machines.
//!
//! Rather than deriving cuts from 3D models, the caller declares each
//! material-removal operation — a plane, a pocket, a frame, a drill, an arc
//! or a freeform path — bound to a physical cutting tool, and the crate
//! compiles the program into an ordered, deduplicated motion-instruction
//! stream, batching operations by tool and validating the machine-safety
//! heights.  Every compilation step carries a contract pinning the
//! instructions it produces.
//!
//! Geometry is declared with fixed-point coordinates: every coordinate,
//! length and rate is an `i64` holding ten-thousandths of the active unit
//! (millimeters or inches), so `25000` is `2.5` units.  Emitted G-code rounds
//! every number to three decimals, exactly like the text the machine reads.

pub mod text;
pub mod types;
pub mod instructions;
mod trig;
pub mod errors;
pub mod tools;
pub mod cuts;
pub mod program;
mod host;
pub mod camotics;
pub mod programs;
pub mod prelude;
pub mod laws;
