//! Presentation surfaces: the values a surface reports (present modes, transforms,
//! composite alpha, image usage, capabilities), the errors of surface creation, and the
//! decisions taken around the driver calls that create and query a surface.

pub mod capabilities;
pub mod error;
pub mod present;
pub mod raw;
pub mod surface;
pub mod transform;
pub mod usage;

pub use capabilities::{Capabilities, RawSurfaceCapabilities, RawSurfaceFormat};
pub use error::{check_errors, Error, OomError, Success, SurfaceCreationError};
pub use present::{PresentMode, SupportedPresentModes, SupportedPresentModesIter};
pub use surface::{
    CapabilitiesQuery, Instance, InstanceExtensions, PlatformWindow, Surface, SurfaceCreateInfo,
};
pub use transform::{ColorSpace, CompositeAlpha, SurfaceTransform};
pub use usage::ImageUsage;
