//! One import for projects using this crate.

pub use crate::camotics::Camotics;
pub use crate::camotics::CamoticsTool;
pub use crate::camotics::CamoticsToolShape;
pub use crate::camotics::ResolutionMode;
pub use crate::camotics::Workpiece;
pub use crate::cuts::Arc;
pub use crate::cuts::Arc2D;
pub use crate::cuts::Area;
pub use crate::cuts::Circle;
pub use crate::cuts::Cut;
pub use crate::cuts::Frame;
pub use crate::cuts::Line;
pub use crate::cuts::Line2D;
pub use crate::cuts::Path;
pub use crate::cuts::Segment;
pub use crate::errors::CncError;
pub use crate::instructions::Comment;
pub use crate::instructions::Empty;
pub use crate::instructions::Instruction;
pub use crate::instructions::Message;
pub use crate::program::InnerContext;
pub use crate::program::Operation;
pub use crate::program::Program;
pub use crate::programs::planing;
pub use crate::programs::PlaningMeasurements;
pub use crate::tools::Ballnose;
pub use crate::tools::Conical;
pub use crate::tools::Cylindrical;
pub use crate::tools::Tool;
pub use crate::tools::ToolOrdering;
pub use crate::types::Axis;
pub use crate::types::Bounds;
pub use crate::types::Direction;
pub use crate::types::ToolPathCompensation;
pub use crate::types::Units;
pub use crate::types::Vector2;
pub use crate::types::Vector3;
