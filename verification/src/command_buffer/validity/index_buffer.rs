//! The check on binding a buffer as the source of the indices of a draw.

use vstd::prelude::*;
use crate::buffer::sys::PendingBufferView;
use crate::buffer::sys::UnsafeBufferView;
use crate::buffer::traits::BufferAccess;
use crate::buffer::traits::TypedBufferAccess;
use crate::buffer::usage::BufferUsage;
use crate::device::Device;
use crate::device::DeviceOwned;
use crate::pipeline::input_assembly::Index;
use crate::vk;
use crate::VulkanObject;

verus! {

/// Information returned if `check_index_buffer` succeeds.
#[derive(Clone, Copy, Debug, PartialEq, Eq, Structural)]
pub struct CheckIndexBuffer {
    /// Number of indices in the index buffer.
    pub num_indices: usize,
}

/// Why a buffer cannot be bound as an index buffer.
///
/// Only a missing usage is looked for. The other two reasons are kept for
/// callers that check the alignment in memory or the index type themselves:
/// [`check_index_buffer`] never gives them.
#[derive(Clone, Copy, Debug, PartialEq, Eq, Structural)]
pub enum CheckIndexBufferError {
    /// The index buffer usage must be enabled on the index buffer.
    BufferMissingUsage,
    /// The sum of offset and the address of the range of device memory that
    /// is backing the buffer must be a multiple of the size of the index type.
    WrongAlignment,
    /// The type of the indices is not supported by the device.
    UnsupportIndexType,
}

impl CheckIndexBufferError {
    /// A sentence that describes the error.
    pub fn description(&self) -> (s: &'static str)
        ensures
            *self is BufferMissingUsage ==> s@
                == "The index buffer usage must be enabled on the index buffer"@,
            *self is WrongAlignment ==> s@
                == "the sum of offset and the address of the range of VkDeviceMemory object that is backing buffer, must be a multiple of the type indicated by indexType"@,
            *self is UnsupportIndexType ==> s@
                == "the type of the indices is not supported by the device"@,
    {
        match self {
            CheckIndexBufferError::BufferMissingUsage => {
                "The index buffer usage must be enabled on the index buffer"
            },
            CheckIndexBufferError::WrongAlignment => {
                "the sum of offset and the address of the range of VkDeviceMemory object that is backing buffer, must be a multiple of the type indicated by indexType"
            },
            CheckIndexBufferError::UnsupportIndexType => {
                "the type of the indices is not supported by the device"
            },
        }
    }
}

/// Whether `buffer` was created through `device`.
pub open spec fn created_through(buffer: UnsafeBufferView, device: Device) -> bool {
    buffer.device.handle() == device.handle()
}

/// The verdict on binding as an index buffer a buffer that holds `len`
/// indices: refused where the buffer was not created for that use, else
/// granted with the number of indices.
pub open spec fn index_buffer_verdict(buffer: UnsafeBufferView, len: usize) -> Result<
    CheckIndexBuffer,
    CheckIndexBufferError,
> {
    if !buffer.usage.index_buffer {
        Err(CheckIndexBufferError::BufferMissingUsage)
    } else {
        Ok(CheckIndexBuffer { num_indices: len })
    }
}

/// Whether `buffer` was created through `device`, as [`check_index_buffer`]
/// demands of its arguments.
pub fn is_created_through<B>(device: &Device, buffer: &B) -> (b: bool) where
    B: ?Sized + BufferAccess,

    ensures
        b == created_through(buffer.raw(), *device),
{
    buffer.inner().buffer.device().internal_object() == device.internal_object()
}

/// Checks whether an index buffer can be bound.
///
/// A buffer that was not created with `device` is a fault of the caller,
/// which is to rule it out.
pub fn check_index_buffer<B, I>(device: &Device, buffer: &B) -> (r: Result<
    CheckIndexBuffer,
    CheckIndexBufferError,
>) where B: ?Sized + BufferAccess + TypedBufferAccess<Content = [I]>, I: Index
    requires
        created_through(buffer.raw(), *device),
    ensures
        r == index_buffer_verdict(buffer.raw(), buffer.count()),
{
    if !buffer.inner().buffer.usage_index_buffer() {
        return Err(CheckIndexBufferError::BufferMissingUsage);
    }
    Ok(CheckIndexBuffer { num_indices: buffer.len() })
}

/// A buffer that was created for vertices only is refused as an index
/// buffer, and one that was created for indices is granted, with the number
/// of indices that it holds.
pub proof fn lemma_verdict_follows_usage(
    pending: PendingBufferView,
    code: i32,
    handle: u64,
    reported: vk::MemoryRequirements,
    len: usize,
)
    requires
        pending.outcome(code, handle, reported) is Ok,
    ensures
        ({
            let buffer = pending.outcome(code, handle, reported)->Ok_0.0;
            &&& pending.usage == (BufferUsage { vertex_buffer: true, ..BufferUsage::none_spec() })
                ==> index_buffer_verdict(buffer, len) == Err::<CheckIndexBuffer, _>(
                CheckIndexBufferError::BufferMissingUsage,
            )
            &&& pending.usage.index_buffer ==> index_buffer_verdict(buffer, len) == Ok::<
                _,
                CheckIndexBufferError,
            >(CheckIndexBuffer { num_indices: len })
        }),
{
}

/// A buffer of one device fails what [`check_index_buffer`] demands against
/// any other device.
pub proof fn lemma_other_device_is_refused(buffer: UnsafeBufferView, a: Device, b: Device)
    requires
        buffer.device == a,
        a.handle() != b.handle(),
    ensures
        !created_through(buffer, b),
{
}

} // verus!
