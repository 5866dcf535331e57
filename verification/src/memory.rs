//! Device memory, and what a resource needs of the memory it is bound to.

use vstd::prelude::*;
use std::sync::Arc;
use crate::device::Device;
use crate::device::DeviceOwned;
use crate::vk;
use crate::VulkanObject;

verus! {

/// What a resource needs of the memory it is bound to. It is computed once,
/// when the resource is created.
#[derive(Clone, Copy, Debug, PartialEq, Eq, Structural)]
pub struct MemoryRequirements {
    /// The least number of bytes.
    pub size: usize,
    /// The offset in the memory object must be a multiple of this.
    pub alignment: usize,
    /// Bit `i` is set where memory of type `i` will do.
    pub memory_type_bits: u32,
}

impl From<vk::MemoryRequirements> for MemoryRequirements {
    fn from(reqs: vk::MemoryRequirements) -> (r: MemoryRequirements) {
        MemoryRequirements {
            size: #[verifier::truncate] (reqs.size as usize),
            alignment: #[verifier::truncate] (reqs.alignment as usize),
            memory_type_bits: reqs.memory_type_bits,
        }
    }
}

impl vstd::std_specs::convert::FromSpecImpl<vk::MemoryRequirements> for MemoryRequirements {
    open spec fn obeys_from_spec() -> bool {
        true
    }

    open spec fn from_spec(reqs: vk::MemoryRequirements) -> MemoryRequirements {
        MemoryRequirements {
            size: reqs.size as usize,
            alignment: reqs.alignment as usize,
            memory_type_bits: reqs.memory_type_bits,
        }
    }
}

/// One of the kinds of memory that a device offers.
#[derive(Clone, Copy, Debug, PartialEq, Eq, Structural)]
pub struct MemoryType {
    id: u32,
}

impl MemoryType {
    /// The index of this kind among those of its device.
    pub closed spec fn index(&self) -> u32 {
        self.id
    }

    /// The index of this kind among those of its device.
    pub fn id(&self) -> (i: u32)
        ensures
            i == self.index(),
    {
        self.id
    }
}

/// What the contracts say of a memory object.
pub struct DeviceMemoryView {
    pub handle: u64,
    pub device: Device,
    pub size: usize,
    pub memory_type: u32,
}

/// A block of memory that the driver has allocated on a device.
#[derive(Debug)]
pub struct DeviceMemory {
    memory: u64,
    device: Arc<Device>,
    size: usize,
    memory_type_index: u32,
}

impl View for DeviceMemory {
    type V = DeviceMemoryView;

    closed spec fn view(&self) -> DeviceMemoryView {
        DeviceMemoryView {
            handle: self.memory,
            device: *self.device,
            size: self.size,
            memory_type: self.memory_type_index,
        }
    }
}

impl DeviceMemory {
    /// Describes a block of `size` bytes of the memory type with index
    /// `memory_type_index`, which the driver has allocated on `device` under
    /// the handle `memory`.
    pub fn new(device: Arc<Device>, memory: u64, size: usize, memory_type_index: u32) -> (m:
        DeviceMemory)
        ensures
            m@ == (DeviceMemoryView {
                handle: memory,
                device: *device,
                size,
                memory_type: memory_type_index,
            }),
    {
        DeviceMemory { memory, device, size, memory_type_index }
    }

    /// The size of the block in bytes.
    pub fn size(&self) -> (s: usize)
        ensures
            s == self@.size,
    {
        self.size
    }

    /// The kind of memory that the block was allocated from.
    pub fn memory_type(&self) -> (t: MemoryType)
        ensures
            t.index() == self@.memory_type,
    {
        MemoryType { id: self.memory_type_index }
    }
}

impl VulkanObject for DeviceMemory {
    type Object = u64;

    open spec fn handle(&self) -> u64 {
        self@.handle
    }

    fn internal_object(&self) -> (h: u64) {
        self.memory
    }
}

impl DeviceOwned for DeviceMemory {
    open spec fn owner(&self) -> Device {
        self@.device
    }

    fn device(&self) -> (d: &Arc<Device>) {
        &self.device
    }
}

} // verus!
