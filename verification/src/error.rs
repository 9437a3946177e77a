//! Vulkan result codes and the errors of surface creation and queries.

use vstd::prelude::*;

use crate::raw::ERROR_DEVICE_LOST;
use crate::raw::ERROR_EXTENSION_NOT_PRESENT;
use crate::raw::ERROR_FEATURE_NOT_PRESENT;
use crate::raw::ERROR_FORMAT_NOT_SUPPORTED;
use crate::raw::ERROR_INCOMPATIBLE_DISPLAY_KHR;
use crate::raw::ERROR_INCOMPATIBLE_DRIVER;
use crate::raw::ERROR_INITIALIZATION_FAILED;
use crate::raw::ERROR_LAYER_NOT_PRESENT;
use crate::raw::ERROR_MEMORY_MAP_FAILED;
use crate::raw::ERROR_NATIVE_WINDOW_IN_USE_KHR;
use crate::raw::ERROR_OUT_OF_DATE_KHR;
use crate::raw::ERROR_OUT_OF_DEVICE_MEMORY;
use crate::raw::ERROR_OUT_OF_HOST_MEMORY;
use crate::raw::ERROR_SURFACE_LOST_KHR;
use crate::raw::ERROR_TOO_MANY_OBJECTS;
use crate::raw::ERROR_VALIDATION_FAILED_EXT;
use crate::raw::EVENT_RESET;
use crate::raw::EVENT_SET;
use crate::raw::INCOMPLETE;
use crate::raw::NOT_READY;
use crate::raw::SUBOPTIMAL_KHR;
use crate::raw::SUCCESS;
use crate::raw::TIMEOUT;

verus! {

/// The successful outcomes that a Vulkan call can report.
#[derive(Copy, Clone, Debug, PartialEq, Eq, Structural)]
pub enum Success {
    Success,
    NotReady,
    Timeout,
    EventSet,
    EventReset,
    Incomplete,
    Suboptimal,
}

/// The errors that a Vulkan call can report.
#[derive(Copy, Clone, Debug, PartialEq, Eq, Structural)]
pub enum Error {
    OutOfHostMemory,
    OutOfDeviceMemory,
    InitializationFailed,
    DeviceLost,
    MemoryMapFailed,
    LayerNotPresent,
    ExtensionNotPresent,
    FeatureNotPresent,
    IncompatibleDriver,
    TooManyObjects,
    FormatNotSupported,
    SurfaceLost,
    NativeWindowInUse,
    OutOfDate,
    IncompatibleDisplay,
    ValidationFailed,
}

/// Error type returned when running out of memory.
#[derive(Copy, Clone, Debug, PartialEq, Eq, Structural)]
pub enum OomError {
    /// There is no memory available on the host (ie. the CPU, RAM, etc.).
    OutOfHostMemory,
    /// There is no memory available on the device (ie. video memory).
    OutOfDeviceMemory,
}

/// What a Vulkan result code stands for, or `None` for a code that Vulkan does not define.
pub open spec fn code_outcome(code: i32) -> Option<Result<Success, Error>> {
    if code == SUCCESS {
        Some(Ok(Success::Success))
    } else if code == NOT_READY {
        Some(Ok(Success::NotReady))
    } else if code == TIMEOUT {
        Some(Ok(Success::Timeout))
    } else if code == EVENT_SET {
        Some(Ok(Success::EventSet))
    } else if code == EVENT_RESET {
        Some(Ok(Success::EventReset))
    } else if code == INCOMPLETE {
        Some(Ok(Success::Incomplete))
    } else if code == SUBOPTIMAL_KHR {
        Some(Ok(Success::Suboptimal))
    } else if code == ERROR_OUT_OF_HOST_MEMORY {
        Some(Err(Error::OutOfHostMemory))
    } else if code == ERROR_OUT_OF_DEVICE_MEMORY {
        Some(Err(Error::OutOfDeviceMemory))
    } else if code == ERROR_INITIALIZATION_FAILED {
        Some(Err(Error::InitializationFailed))
    } else if code == ERROR_DEVICE_LOST {
        Some(Err(Error::DeviceLost))
    } else if code == ERROR_MEMORY_MAP_FAILED {
        Some(Err(Error::MemoryMapFailed))
    } else if code == ERROR_LAYER_NOT_PRESENT {
        Some(Err(Error::LayerNotPresent))
    } else if code == ERROR_EXTENSION_NOT_PRESENT {
        Some(Err(Error::ExtensionNotPresent))
    } else if code == ERROR_FEATURE_NOT_PRESENT {
        Some(Err(Error::FeatureNotPresent))
    } else if code == ERROR_INCOMPATIBLE_DRIVER {
        Some(Err(Error::IncompatibleDriver))
    } else if code == ERROR_TOO_MANY_OBJECTS {
        Some(Err(Error::TooManyObjects))
    } else if code == ERROR_FORMAT_NOT_SUPPORTED {
        Some(Err(Error::FormatNotSupported))
    } else if code == ERROR_SURFACE_LOST_KHR {
        Some(Err(Error::SurfaceLost))
    } else if code == ERROR_NATIVE_WINDOW_IN_USE_KHR {
        Some(Err(Error::NativeWindowInUse))
    } else if code == ERROR_OUT_OF_DATE_KHR {
        Some(Err(Error::OutOfDate))
    } else if code == ERROR_INCOMPATIBLE_DISPLAY_KHR {
        Some(Err(Error::IncompatibleDisplay))
    } else if code == ERROR_VALIDATION_FAILED_EXT {
        Some(Err(Error::ValidationFailed))
    } else {
        None
    }
}

/// Whether `code` reports success.
pub open spec fn code_is_success(code: i32) -> bool {
    code_outcome(code) matches Some(Ok(_))
}

/// The out-of-memory error that `code` reports, if it reports one.
pub open spec fn code_oom(code: i32) -> Option<OomError> {
    match code_outcome(code) {
        Some(Err(e)) => e.oom(),
        _ => None,
    }
}

/// Whether `code` reports success or running out of memory: the outcomes that the surface
/// calls are prepared to meet.
pub open spec fn code_is_success_or_oom(code: i32) -> bool {
    code_is_success(code) || code_oom(code) is Some
}

/// Returns what a Vulkan result code stands for, or `None` for a code that Vulkan does not
/// define.
pub fn code_outcome_of(code: i32) -> (r: Option<Result<Success, Error>>)
    ensures
        r == code_outcome(code),
{
    if code == SUCCESS {
        Some(Ok(Success::Success))
    } else if code == NOT_READY {
        Some(Ok(Success::NotReady))
    } else if code == TIMEOUT {
        Some(Ok(Success::Timeout))
    } else if code == EVENT_SET {
        Some(Ok(Success::EventSet))
    } else if code == EVENT_RESET {
        Some(Ok(Success::EventReset))
    } else if code == INCOMPLETE {
        Some(Ok(Success::Incomplete))
    } else if code == SUBOPTIMAL_KHR {
        Some(Ok(Success::Suboptimal))
    } else if code == ERROR_OUT_OF_HOST_MEMORY {
        Some(Err(Error::OutOfHostMemory))
    } else if code == ERROR_OUT_OF_DEVICE_MEMORY {
        Some(Err(Error::OutOfDeviceMemory))
    } else if code == ERROR_INITIALIZATION_FAILED {
        Some(Err(Error::InitializationFailed))
    } else if code == ERROR_DEVICE_LOST {
        Some(Err(Error::DeviceLost))
    } else if code == ERROR_MEMORY_MAP_FAILED {
        Some(Err(Error::MemoryMapFailed))
    } else if code == ERROR_LAYER_NOT_PRESENT {
        Some(Err(Error::LayerNotPresent))
    } else if code == ERROR_EXTENSION_NOT_PRESENT {
        Some(Err(Error::ExtensionNotPresent))
    } else if code == ERROR_FEATURE_NOT_PRESENT {
        Some(Err(Error::FeatureNotPresent))
    } else if code == ERROR_INCOMPATIBLE_DRIVER {
        Some(Err(Error::IncompatibleDriver))
    } else if code == ERROR_TOO_MANY_OBJECTS {
        Some(Err(Error::TooManyObjects))
    } else if code == ERROR_FORMAT_NOT_SUPPORTED {
        Some(Err(Error::FormatNotSupported))
    } else if code == ERROR_SURFACE_LOST_KHR {
        Some(Err(Error::SurfaceLost))
    } else if code == ERROR_NATIVE_WINDOW_IN_USE_KHR {
        Some(Err(Error::NativeWindowInUse))
    } else if code == ERROR_OUT_OF_DATE_KHR {
        Some(Err(Error::OutOfDate))
    } else if code == ERROR_INCOMPATIBLE_DISPLAY_KHR {
        Some(Err(Error::IncompatibleDisplay))
    } else if code == ERROR_VALIDATION_FAILED_EXT {
        Some(Err(Error::ValidationFailed))
    } else {
        None
    }
}


/// Turns a Vulkan result code into a `Result`. The code must be one that Vulkan defines.
pub fn check_errors(code: i32) -> (r: Result<Success, Error>)
    requires
        code_outcome(code) is Some,
    ensures
        Some(r) == code_outcome(code),
{
    match code_outcome_of(code) {
        Some(r) => r,
        None => Err(Error::ValidationFailed),
    }
}

impl Error {
    /// The out-of-memory error that this error is, if it is one.
    pub open spec fn oom(self) -> Option<OomError> {
        match self {
            Error::OutOfHostMemory => Some(OomError::OutOfHostMemory),
            Error::OutOfDeviceMemory => Some(OomError::OutOfDeviceMemory),
            _ => None,
        }
    }
}

impl OomError {
    /// Converts an error that reports running out of memory. Any other error is unexpected.
    pub fn from_error(err: Error) -> (r: OomError)
        requires
            err.oom() is Some,
        ensures
            Some(r) == err.oom(),
    {
        match err {
            Error::OutOfHostMemory => OomError::OutOfHostMemory,
            _ => OomError::OutOfDeviceMemory,
        }
    }
}

/// Error that can happen when creating a surface.
#[derive(Copy, Clone, Debug, PartialEq, Eq)]
pub enum SurfaceCreationError {
    /// Not enough memory.
    OomError(OomError),
    /// The extension required for this function was not enabled.
    MissingExtension { name: &'static str },
}

impl SurfaceCreationError {
    /// The lower-level error that caused this one, if there is one.
    pub open spec fn underlying(self) -> Option<OomError> {
        match self {
            SurfaceCreationError::OomError(e) => Some(e),
            SurfaceCreationError::MissingExtension { .. } => None,
        }
    }

    /// A short description of the error.
    pub fn description(&self) -> (r: &'static str)
        ensures
            self is OomError ==> r@ == "not enough memory available"@,
            self is MissingExtension ==> r@ == "the extension required for this function was not enabled"@,
    {
        match *self {
            SurfaceCreationError::OomError(_) => "not enough memory available",
            SurfaceCreationError::MissingExtension { .. } =>
                "the extension required for this function was not enabled",
        }
    }

    /// The lower-level error that caused this one, if there is one.
    pub fn cause(&self) -> (r: Option<OomError>)
        ensures
            r == self.underlying(),
    {
        match *self {
            SurfaceCreationError::OomError(e) => Some(e),
            SurfaceCreationError::MissingExtension { .. } => None,
        }
    }

    /// Converts an error that reports running out of memory. Any other error is unexpected.
    pub fn from_error(err: Error) -> (r: SurfaceCreationError)
        requires
            err.oom() is Some,
        ensures
            r == SurfaceCreationError::OomError(err.oom().unwrap()),
    {
        SurfaceCreationError::OomError(OomError::from_error(err))
    }
}

impl From<OomError> for SurfaceCreationError {
    fn from(err: OomError) -> (r: SurfaceCreationError) {
        SurfaceCreationError::OomError(err)
    }
}

impl vstd::std_specs::convert::FromSpecImpl<OomError> for SurfaceCreationError {
    open spec fn obeys_from_spec() -> bool {
        true
    }

    open spec fn from_spec(v: OomError) -> SurfaceCreationError {
        SurfaceCreationError::OomError(v)
    }
}

/// An error made from an out-of-memory error reports that error as its cause; a missing
/// extension has no cause.
pub proof fn lemma_oom_is_cause(e: OomError, name: &'static str)
    ensures
        <SurfaceCreationError as vstd::std_specs::convert::FromSpec<OomError>>::from_spec(e).underlying()
            == Some(e),
        (SurfaceCreationError::MissingExtension { name }).underlying() is None,
{
}

} // verus!
