//! Render-graph compiler: builds a graph of GPU passes and their resource
//! accesses, orders the passes, assigns aliasing slots to transient resources
//! and synthesizes the state transitions between them.

pub mod access;
pub mod alias;
pub mod analyze;
pub mod barrier;
pub mod compile;
pub mod device;
pub mod diag;
pub mod format;
pub mod graph;
pub mod import;
pub mod model;
pub mod order_laws;
pub mod result;
pub mod runtime;
pub mod schedule;
pub mod schedule_laws;
pub mod semantic;
pub mod slot_laws;
pub mod transition_laws;

pub use crate::device::{Device, DeviceBuilder};
pub use crate::result::Error;
