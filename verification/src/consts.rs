//! The numbers by which the device knows the formats, layouts, flags and
//! result codes that the core names.

use vstd::prelude::*;

verus! {

/// Result code: the call succeeded.
pub const SUCCESS: i32 = 0;

/// Result code: nothing is ready yet; the call may be repeated.
pub const NOT_READY: i32 = 1;

/// Result code: the wait ran out of time.
pub const TIMEOUT: i32 = 2;

/// Result code: the swapchain no longer matches the surface.
pub const ERROR_OUT_OF_DATE: i32 = -1_000_001_004;

/// One second in nanoseconds: the bound of every blocking wait.
pub const WAIT_TIMEOUT_NS: u64 = 1_000_000_000;

/// Format: four 8-bit channels, blue first, unsigned normalised.
pub const FORMAT_B8G8R8A8_UNORM: i32 = 44;

/// Format: four 16-bit float channels.
pub const FORMAT_R16G16B16A16_SFLOAT: i32 = 97;

/// Colour space: non-linear sRGB.
pub const COLOR_SPACE_SRGB_NONLINEAR: i32 = 0;

/// Present mode: newest image wins, never blocks.
pub const PRESENT_MODE_MAILBOX: i32 = 1;

/// Present mode: queue of images, blocks when full; always available.
pub const PRESENT_MODE_FIFO: i32 = 2;

/// Sharing mode: one queue family at a time.
pub const SHARING_EXCLUSIVE: i32 = 0;

/// Sharing mode: several queue families at once.
pub const SHARING_CONCURRENT: i32 = 1;

/// Image and view type: two-dimensional.
pub const IMAGE_TYPE_2D: i32 = 1;

/// Image tiling: whatever the device likes best.
pub const IMAGE_TILING_OPTIMAL: i32 = 0;

/// Sample count flag: one sample per pixel.
pub const SAMPLE_COUNT_1: u32 = 0x1;

pub const BUFFER_USAGE_TRANSFER_SRC: u32 = 0x1;

pub const BUFFER_USAGE_TRANSFER_DST: u32 = 0x2;

pub const BUFFER_USAGE_STORAGE_BUFFER: u32 = 0x20;

pub const IMAGE_USAGE_TRANSFER_SRC: u32 = 0x1;

pub const IMAGE_USAGE_TRANSFER_DST: u32 = 0x2;

pub const IMAGE_USAGE_SAMPLED: u32 = 0x4;

pub const IMAGE_USAGE_STORAGE: u32 = 0x8;

pub const IMAGE_USAGE_COLOR_ATTACHMENT: u32 = 0x10;

pub const IMAGE_ASPECT_COLOR: u32 = 0x1;

pub const IMAGE_ASPECT_DEPTH: u32 = 0x2;

pub const LAYOUT_UNDEFINED: i32 = 0;

pub const LAYOUT_GENERAL: i32 = 1;

pub const LAYOUT_DEPTH_STENCIL_ATTACHMENT_OPTIMAL: i32 = 3;

pub const LAYOUT_TRANSFER_SRC_OPTIMAL: i32 = 6;

pub const LAYOUT_TRANSFER_DST_OPTIMAL: i32 = 7;

pub const LAYOUT_PRESENT_SRC: i32 = 1_000_001_002;

/// Every mip level, or every array layer, from the base onwards.
pub const REMAINING: u32 = 0xffff_ffff;

pub const DESCRIPTOR_TYPE_STORAGE_IMAGE: i32 = 3;

pub const SHADER_STAGE_COMPUTE: u32 = 0x20;

/// Command pool flag: its command buffers can be reset one by one.
pub const COMMAND_POOL_RESET_COMMAND_BUFFER: u32 = 0x2;

/// Descriptor pool flag: its sets can be freed one by one.
pub const DESCRIPTOR_POOL_FREE_DESCRIPTOR_SET: u32 = 0x1;

pub const STAGE_COLOR_ATTACHMENT_OUTPUT: u64 = 0x400;

pub const STAGE_ALL_GRAPHICS: u64 = 0x8000;

pub const STAGE_ALL_COMMANDS: u64 = 0x1_0000;

pub const ACCESS_MEMORY_READ: u64 = 0x8000;

pub const ACCESS_MEMORY_WRITE: u64 = 0x1_0000;

/// Surface transform: none.
pub const SURFACE_TRANSFORM_IDENTITY: u32 = 0x1;

/// Composite alpha: the window is opaque.
pub const COMPOSITE_ALPHA_OPAQUE: u32 = 0x1;

pub const DEVICE_TYPE_OTHER: i32 = 0;

pub const DEVICE_TYPE_INTEGRATED_GPU: i32 = 1;

pub const DEVICE_TYPE_DISCRETE_GPU: i32 = 2;

pub const DEVICE_TYPE_VIRTUAL_GPU: i32 = 3;

pub const DEVICE_TYPE_CPU: i32 = 4;

pub const QUEUE_GRAPHICS: u32 = 0x1;

pub const QUEUE_COMPUTE: u32 = 0x2;

pub const QUEUE_TRANSFER: u32 = 0x4;

pub const SEVERITY_VERBOSE: u32 = 0x1;

pub const SEVERITY_INFO: u32 = 0x10;

pub const SEVERITY_WARNING: u32 = 0x100;

pub const SEVERITY_ERROR: u32 = 0x1000;

} // verus!
