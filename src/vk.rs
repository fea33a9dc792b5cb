//! Raw values of the driver API (version 1.0 semantics) that the requests of
//! this crate carry.
use vstd::prelude::*;

verus! {

pub const ERROR_OUT_OF_HOST_MEMORY: i32 = -1;
pub const ERROR_OUT_OF_DEVICE_MEMORY: i32 = -2;
pub const ERROR_INITIALIZATION_FAILED: i32 = -3;
pub const ERROR_EXTENSION_NOT_PRESENT: i32 = -7;
pub const ERROR_INCOMPATIBLE_DRIVER: i32 = -9;
pub const ERROR_INVALID_EXTERNAL_HANDLE: i32 = -1000072003;

/// Version 1.0 of the API, as `variant << 29 | major << 22 | minor << 12 | patch`.
pub const API_VERSION_1_0: u32 = 4194304;

pub const QUEUE_GRAPHICS_BIT: u32 = 1;

pub const FORMAT_R8G8B8A8_UNORM: i32 = 37;

pub const IMAGE_TYPE_2D: i32 = 1;
pub const IMAGE_VIEW_TYPE_2D: i32 = 1;
pub const IMAGE_TILING_LINEAR: i32 = 1;
pub const IMAGE_USAGE_COLOR_ATTACHMENT_BIT: u32 = 16;
pub const SHARING_MODE_EXCLUSIVE: i32 = 0;
pub const SAMPLE_COUNT_1_BIT: u32 = 1;
pub const IMAGE_ASPECT_COLOR_BIT: u32 = 1;

pub const IMAGE_LAYOUT_UNDEFINED: i32 = 0;
pub const IMAGE_LAYOUT_GENERAL: i32 = 1;
pub const IMAGE_LAYOUT_COLOR_ATTACHMENT_OPTIMAL: i32 = 2;

pub const ATTACHMENT_LOAD_OP_DONT_CARE: i32 = 2;
pub const ATTACHMENT_STORE_OP_STORE: i32 = 0;
pub const ATTACHMENT_STORE_OP_DONT_CARE: i32 = 1;

pub const PIPELINE_BIND_POINT_GRAPHICS: i32 = 0;

pub const COMMAND_BUFFER_LEVEL_PRIMARY: i32 = 0;
pub const COMMAND_POOL_CREATE_RESET_COMMAND_BUFFER_BIT: u32 = 2;

pub const SHADER_STAGE_VERTEX_BIT: u32 = 1;
pub const SHADER_STAGE_FRAGMENT_BIT: u32 = 16;

pub const PRIMITIVE_TOPOLOGY_TRIANGLE_LIST: i32 = 3;
pub const POLYGON_MODE_FILL: i32 = 0;
pub const CULL_MODE_BACK_BIT: u32 = 2;
pub const FRONT_FACE_CLOCKWISE: i32 = 1;

/// The R, G, B and A bits of a color write mask together.
pub const COLOR_COMPONENT_RGBA: u32 = 15;

} // verus!
