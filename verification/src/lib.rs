//! A small service logger: it renders one timestamped, leveled record for the
//! console and for a delimited log file, and decides how the file is appended.
//!
//! The crate computes; the host performs. Every entry point returns what has
//! to be printed, written or ended, and the host carries that out.

pub mod entity;
pub mod filejob;
pub mod laws;
pub mod level;
pub mod logger;
pub mod markup;
pub mod stamp;
pub mod text;

pub use crate::entity::{Console, LogEntity};
pub use crate::filejob::{Action, FileJob, Stage};
pub use crate::level::LogLevel;
pub use crate::logger::{Dispatch, Log};
pub use crate::markup::{Color, Palette};
pub use crate::stamp::Timestamp;
