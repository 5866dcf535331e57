//! Buffers: regions of memory that the device reads and writes.

pub mod usage;
pub mod alignment;
pub mod queue_families;
pub mod sys;
pub mod traits;

pub use crate::buffer::usage::BufferUsage;
