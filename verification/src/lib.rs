//! The resource-safety and submission-ordering core of a safe layer over a
//! Vulkan-style graphics driver.
//!
//! The driver itself is never called from here. Every operation that needs it
//! is cut at the call: one function decides what is to be asked of the driver,
//! and another takes the driver's answer as a plain value and decides what
//! follows from it. All of these decisions are verified.

pub mod vk;
pub mod error;
pub mod device;
pub mod memory;
pub mod sync;
pub mod buffer;
pub mod pipeline;
pub mod descriptor;
pub mod command_buffer;
pub mod swapchain;

use vstd::prelude::*;

pub use crate::error::check_errors;
pub use crate::error::Error;
pub use crate::error::OomError;
pub use crate::error::Success;

verus! {

/// Implemented by a value that stands for one object of the driver.
pub trait VulkanObject {
    /// The type of the driver's handle to the object.
    type Object;

    /// The driver's handle to the object.
    spec fn handle(&self) -> Self::Object;

    /// The driver's handle to the object.
    fn internal_object(&self) -> (h: Self::Object)
        ensures
            h == self.handle(),
    ;
}

} // verus!
