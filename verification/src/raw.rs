//! Numeric values of the Vulkan enumerations and flag bits that surfaces deal with.

use vstd::prelude::*;

verus! {

pub const PRESENT_MODE_IMMEDIATE_KHR: u32 = 0;
pub const PRESENT_MODE_MAILBOX_KHR: u32 = 1;
pub const PRESENT_MODE_FIFO_KHR: u32 = 2;
pub const PRESENT_MODE_FIFO_RELAXED_KHR: u32 = 3;

pub const SURFACE_TRANSFORM_IDENTITY_BIT_KHR: u32 = 0x0000_0001;
pub const SURFACE_TRANSFORM_ROTATE_90_BIT_KHR: u32 = 0x0000_0002;
pub const SURFACE_TRANSFORM_ROTATE_180_BIT_KHR: u32 = 0x0000_0004;
pub const SURFACE_TRANSFORM_ROTATE_270_BIT_KHR: u32 = 0x0000_0008;
pub const SURFACE_TRANSFORM_HORIZONTAL_MIRROR_BIT_KHR: u32 = 0x0000_0010;
pub const SURFACE_TRANSFORM_HORIZONTAL_MIRROR_ROTATE_90_BIT_KHR: u32 = 0x0000_0020;
pub const SURFACE_TRANSFORM_HORIZONTAL_MIRROR_ROTATE_180_BIT_KHR: u32 = 0x0000_0040;
pub const SURFACE_TRANSFORM_HORIZONTAL_MIRROR_ROTATE_270_BIT_KHR: u32 = 0x0000_0080;
pub const SURFACE_TRANSFORM_INHERIT_BIT_KHR: u32 = 0x0000_0100;

pub const COMPOSITE_ALPHA_OPAQUE_BIT_KHR: u32 = 0x0000_0001;
pub const COMPOSITE_ALPHA_PRE_MULTIPLIED_BIT_KHR: u32 = 0x0000_0002;
pub const COMPOSITE_ALPHA_POST_MULTIPLIED_BIT_KHR: u32 = 0x0000_0004;
pub const COMPOSITE_ALPHA_INHERIT_BIT_KHR: u32 = 0x0000_0008;

pub const COLORSPACE_SRGB_NONLINEAR_KHR: u32 = 0;

pub const IMAGE_USAGE_TRANSFER_SRC_BIT: u32 = 0x0000_0001;
pub const IMAGE_USAGE_TRANSFER_DST_BIT: u32 = 0x0000_0002;
pub const IMAGE_USAGE_SAMPLED_BIT: u32 = 0x0000_0004;
pub const IMAGE_USAGE_STORAGE_BIT: u32 = 0x0000_0008;
pub const IMAGE_USAGE_COLOR_ATTACHMENT_BIT: u32 = 0x0000_0010;
pub const IMAGE_USAGE_DEPTH_STENCIL_ATTACHMENT_BIT: u32 = 0x0000_0020;
pub const IMAGE_USAGE_TRANSIENT_ATTACHMENT_BIT: u32 = 0x0000_0040;
pub const IMAGE_USAGE_INPUT_ATTACHMENT_BIT: u32 = 0x0000_0080;

pub const SUCCESS: i32 = 0;
pub const NOT_READY: i32 = 1;
pub const TIMEOUT: i32 = 2;
pub const EVENT_SET: i32 = 3;
pub const EVENT_RESET: i32 = 4;
pub const INCOMPLETE: i32 = 5;
pub const ERROR_OUT_OF_HOST_MEMORY: i32 = -1;
pub const ERROR_OUT_OF_DEVICE_MEMORY: i32 = -2;
pub const ERROR_INITIALIZATION_FAILED: i32 = -3;
pub const ERROR_DEVICE_LOST: i32 = -4;
pub const ERROR_MEMORY_MAP_FAILED: i32 = -5;
pub const ERROR_LAYER_NOT_PRESENT: i32 = -6;
pub const ERROR_EXTENSION_NOT_PRESENT: i32 = -7;
pub const ERROR_FEATURE_NOT_PRESENT: i32 = -8;
pub const ERROR_INCOMPATIBLE_DRIVER: i32 = -9;
pub const ERROR_TOO_MANY_OBJECTS: i32 = -10;
pub const ERROR_FORMAT_NOT_SUPPORTED: i32 = -11;
pub const ERROR_SURFACE_LOST_KHR: i32 = -1_000_000_000;
pub const ERROR_NATIVE_WINDOW_IN_USE_KHR: i32 = -1_000_000_001;
pub const SUBOPTIMAL_KHR: i32 = 1_000_001_003;
pub const ERROR_OUT_OF_DATE_KHR: i32 = -1_000_001_004;
pub const ERROR_INCOMPATIBLE_DISPLAY_KHR: i32 = -1_000_003_001;
pub const ERROR_VALIDATION_FAILED_EXT: i32 = -1_000_011_001;

} // verus!
