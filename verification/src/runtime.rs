//! The vocabulary of the runtime: access flags, shader stages, semantics
//! and formats.

pub use crate::access::{AccessFlags, ShaderStage};
pub use crate::format::Format;
pub use crate::semantic::Semantic;
