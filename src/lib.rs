//! Orchestration logic for an embedded build/upload command-line toolchain:
//! progress inference from build output, compile/upload sequencing, core and
//! board registry parsing, and the records handed to a user interface.

pub mod environment;
pub mod error;
pub mod json;
pub mod operation;
pub mod progress;
pub mod project;
pub mod registry;
pub mod serial;
