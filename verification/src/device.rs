//! The logical device that every resource is created through: what it has
//! enabled and what its hardware demands.

use vstd::prelude::*;
use std::sync::Arc;
use crate::VulkanObject;

verus! {

/// Optional capabilities of a device. A resource may only ask for one that
/// was enabled when the device was made.
#[derive(Clone, Copy, Debug, PartialEq, Eq, Structural)]
pub struct Features {
    pub sparse_binding: bool,
    pub sparse_residency_buffer: bool,
    pub sparse_residency_aliased: bool,
}

impl Features {
    /// No capability enabled.
    pub fn none() -> (f: Features)
        ensures
            f == (Features {
                sparse_binding: false,
                sparse_residency_buffer: false,
                sparse_residency_aliased: false,
            }),
    {
        Features {
            sparse_binding: false,
            sparse_residency_buffer: false,
            sparse_residency_aliased: false,
        }
    }

    /// Every capability enabled.
    pub fn all() -> (f: Features)
        ensures
            f == (Features {
                sparse_binding: true,
                sparse_residency_buffer: true,
                sparse_residency_aliased: true,
            }),
    {
        Features {
            sparse_binding: true,
            sparse_residency_buffer: true,
            sparse_residency_aliased: true,
        }
    }
}

/// Limits of the hardware behind a device: the least alignment, in bytes, of
/// the offset at which a buffer of each kind may be bound.
#[derive(Clone, Copy, Debug, PartialEq, Eq, Structural)]
pub struct Limits {
    pub min_texel_buffer_offset_alignment: u64,
    pub min_uniform_buffer_offset_alignment: u64,
    pub min_storage_buffer_offset_alignment: u64,
}

/// One logical connection to a physical accelerator.
#[derive(Debug)]
pub struct Device {
    device: usize,
    features: Features,
    limits: Limits,
}

impl Device {
    /// The features that were enabled on this device.
    pub closed spec fn features(&self) -> Features {
        self.features
    }

    /// The limits of the hardware behind this device.
    pub closed spec fn hardware_limits(&self) -> Limits {
        self.limits
    }

    /// Describes a device that the driver has made under the handle
    /// `device`, with `features` enabled, on hardware with `limits`.
    pub fn new(device: usize, features: Features, limits: Limits) -> (d: Device)
        ensures
            d.handle() == device,
            d.features() == features,
            d.hardware_limits() == limits,
    {
        Device { device, features, limits }
    }

    /// The features that were enabled on this device.
    pub fn enabled_features(&self) -> (f: &Features)
        ensures
            *f == self.features(),
    {
        &self.features
    }

    /// The limits of the hardware behind this device.
    pub fn limits(&self) -> (l: &Limits)
        ensures
            *l == self.hardware_limits(),
    {
        &self.limits
    }
}

impl VulkanObject for Device {
    type Object = usize;

    closed spec fn handle(&self) -> usize {
        self.device
    }

    fn internal_object(&self) -> (h: usize) {
        self.device
    }
}

/// Implemented by whatever was created through a device, and keeps that
/// device alive.
pub trait DeviceOwned {
    /// The device that the object was created through.
    spec fn owner(&self) -> Device;

    /// The device that the object was created through.
    fn device(&self) -> (d: &Arc<Device>)
        ensures
            **d == self.owner(),
    ;
}

} // verus!
