//! The driver's numeric result codes, as values that say what happened.

use vstd::prelude::*;
use vstd::pervasive::unreached;
use crate::vk;

verus! {

/// A result code that reports no failure.
#[derive(Clone, Copy, Debug, PartialEq, Eq, Structural)]
pub enum Success {
    Success,
    NotReady,
    Timeout,
    EventSet,
    EventReset,
    Incomplete,
    Suboptimal,
}

/// A result code that reports a failure.
#[derive(Clone, Copy, Debug, PartialEq, Eq, Structural)]
pub enum Error {
    OutOfHostMemory,
    OutOfDeviceMemory,
    InitializationFailed,
    DeviceLost,
    MemoryMapFailed,
    LayerNotPresent,
    ExtensionNotPresent,
    FeatureNotPresent,
    IncompatibleDriver,
    TooManyObjects,
    FormatNotSupported,
    SurfaceLost,
    NativeWindowInUse,
    OutOfDate,
    IncompatibleDisplay,
    ValidationFailed,
    OutOfPoolMemory,
    FullscreenExclusiveLost,
}

/// The driver ran out of memory, on the host or on the device.
#[derive(Clone, Copy, Debug, PartialEq, Eq, Structural)]
pub enum OomError {
    OutOfHostMemory,
    OutOfDeviceMemory,
}

/// The meaning of a result code, or `None` for a number that is no result
/// code of the driver.
pub open spec fn meaning(code: i32) -> Option<Result<Success, Error>> {
    if code == vk::SUCCESS {
        Some(Ok(Success::Success))
    } else if code == vk::NOT_READY {
        Some(Ok(Success::NotReady))
    } else if code == vk::TIMEOUT {
        Some(Ok(Success::Timeout))
    } else if code == vk::EVENT_SET {
        Some(Ok(Success::EventSet))
    } else if code == vk::EVENT_RESET {
        Some(Ok(Success::EventReset))
    } else if code == vk::INCOMPLETE {
        Some(Ok(Success::Incomplete))
    } else if code == vk::SUBOPTIMAL_KHR {
        Some(Ok(Success::Suboptimal))
    } else if code == vk::ERROR_OUT_OF_HOST_MEMORY {
        Some(Err(Error::OutOfHostMemory))
    } else if code == vk::ERROR_OUT_OF_DEVICE_MEMORY {
        Some(Err(Error::OutOfDeviceMemory))
    } else if code == vk::ERROR_INITIALIZATION_FAILED {
        Some(Err(Error::InitializationFailed))
    } else if code == vk::ERROR_DEVICE_LOST {
        Some(Err(Error::DeviceLost))
    } else if code == vk::ERROR_MEMORY_MAP_FAILED {
        Some(Err(Error::MemoryMapFailed))
    } else if code == vk::ERROR_LAYER_NOT_PRESENT {
        Some(Err(Error::LayerNotPresent))
    } else if code == vk::ERROR_EXTENSION_NOT_PRESENT {
        Some(Err(Error::ExtensionNotPresent))
    } else if code == vk::ERROR_FEATURE_NOT_PRESENT {
        Some(Err(Error::FeatureNotPresent))
    } else if code == vk::ERROR_INCOMPATIBLE_DRIVER {
        Some(Err(Error::IncompatibleDriver))
    } else if code == vk::ERROR_TOO_MANY_OBJECTS {
        Some(Err(Error::TooManyObjects))
    } else if code == vk::ERROR_FORMAT_NOT_SUPPORTED {
        Some(Err(Error::FormatNotSupported))
    } else if code == vk::ERROR_SURFACE_LOST_KHR {
        Some(Err(Error::SurfaceLost))
    } else if code == vk::ERROR_NATIVE_WINDOW_IN_USE_KHR {
        Some(Err(Error::NativeWindowInUse))
    } else if code == vk::ERROR_OUT_OF_DATE_KHR {
        Some(Err(Error::OutOfDate))
    } else if code == vk::ERROR_INCOMPATIBLE_DISPLAY_KHR {
        Some(Err(Error::IncompatibleDisplay))
    } else if code == vk::ERROR_VALIDATION_FAILED_EXT {
        Some(Err(Error::ValidationFailed))
    } else if code == vk::ERROR_OUT_OF_POOL_MEMORY_KHR {
        Some(Err(Error::OutOfPoolMemory))
    } else if code == vk::ERROR_FULL_SCREEN_EXCLUSIVE_MODE_LOST_EXT {
        Some(Err(Error::FullscreenExclusiveLost))
    } else {
        None
    }
}

/// Reads a result code, if the number is one.
pub fn read_result(code: i32) -> (r: Option<Result<Success, Error>>)
    ensures
        r == meaning(code),
{
    match code {
        vk::SUCCESS => Some(Ok(Success::Success)),
        vk::NOT_READY => Some(Ok(Success::NotReady)),
        vk::TIMEOUT => Some(Ok(Success::Timeout)),
        vk::EVENT_SET => Some(Ok(Success::EventSet)),
        vk::EVENT_RESET => Some(Ok(Success::EventReset)),
        vk::INCOMPLETE => Some(Ok(Success::Incomplete)),
        vk::SUBOPTIMAL_KHR => Some(Ok(Success::Suboptimal)),
        vk::ERROR_OUT_OF_HOST_MEMORY => Some(Err(Error::OutOfHostMemory)),
        vk::ERROR_OUT_OF_DEVICE_MEMORY => Some(Err(Error::OutOfDeviceMemory)),
        vk::ERROR_INITIALIZATION_FAILED => Some(Err(Error::InitializationFailed)),
        vk::ERROR_DEVICE_LOST => Some(Err(Error::DeviceLost)),
        vk::ERROR_MEMORY_MAP_FAILED => Some(Err(Error::MemoryMapFailed)),
        vk::ERROR_LAYER_NOT_PRESENT => Some(Err(Error::LayerNotPresent)),
        vk::ERROR_EXTENSION_NOT_PRESENT => Some(Err(Error::ExtensionNotPresent)),
        vk::ERROR_FEATURE_NOT_PRESENT => Some(Err(Error::FeatureNotPresent)),
        vk::ERROR_INCOMPATIBLE_DRIVER => Some(Err(Error::IncompatibleDriver)),
        vk::ERROR_TOO_MANY_OBJECTS => Some(Err(Error::TooManyObjects)),
        vk::ERROR_FORMAT_NOT_SUPPORTED => Some(Err(Error::FormatNotSupported)),
        vk::ERROR_SURFACE_LOST_KHR => Some(Err(Error::SurfaceLost)),
        vk::ERROR_NATIVE_WINDOW_IN_USE_KHR => Some(Err(Error::NativeWindowInUse)),
        vk::ERROR_OUT_OF_DATE_KHR => Some(Err(Error::OutOfDate)),
        vk::ERROR_INCOMPATIBLE_DISPLAY_KHR => Some(Err(Error::IncompatibleDisplay)),
        vk::ERROR_VALIDATION_FAILED_EXT => Some(Err(Error::ValidationFailed)),
        vk::ERROR_OUT_OF_POOL_MEMORY_KHR => Some(Err(Error::OutOfPoolMemory)),
        vk::ERROR_FULL_SCREEN_EXCLUSIVE_MODE_LOST_EXT => Some(Err(Error::FullscreenExclusiveLost)),
        _ => None,
    }
}

/// Reads a result code of the driver.
///
/// A number that is no result code is a fault of the driver, and is left to
/// the caller to rule out.
pub fn check_errors(code: i32) -> (r: Result<Success, Error>)
    requires
        meaning(code) is Some,
    ensures
        meaning(code) == Some(r),
{
    match read_result(code) {
        Some(r) => r,
        None => unreached(),
    }
}

impl OomError {
    /// Whether `err` reports that memory ran out.
    pub open spec fn covers(err: Error) -> bool {
        err == Error::OutOfHostMemory || err == Error::OutOfDeviceMemory
    }

    /// The memory fault that `err` reports, where it reports one.
    pub open spec fn of(err: Error) -> OomError {
        if err == Error::OutOfHostMemory {
            OomError::OutOfHostMemory
        } else {
            OomError::OutOfDeviceMemory
        }
    }

    /// Whether `err` reports that memory ran out.
    pub fn is_oom(err: Error) -> (b: bool)
        ensures
            b == Self::covers(err),
    {
        match err {
            Error::OutOfHostMemory => true,
            Error::OutOfDeviceMemory => true,
            _ => false,
        }
    }

    /// Narrows a failure to a memory fault. Any other failure is unexpected
    /// where this is called, and is left to the caller to rule out.
    pub fn from_error(err: Error) -> (r: OomError)
        requires
            Self::covers(err),
        ensures
            r == Self::of(err),
    {
        match err {
            Error::OutOfHostMemory => OomError::OutOfHostMemory,
            _ => OomError::OutOfDeviceMemory,
        }
    }

    /// A sentence that describes the fault.
    pub fn description(&self) -> (s: &'static str)
        ensures
            *self == OomError::OutOfHostMemory ==> s@ == "no memory available on the host"@,
            *self == OomError::OutOfDeviceMemory ==> s@
                == "no memory available on the graphical device"@,
    {
        match self {
            OomError::OutOfHostMemory => "no memory available on the host",
            OomError::OutOfDeviceMemory => "no memory available on the graphical device",
        }
    }
}

} // verus!
