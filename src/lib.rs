//! A small rendering hardware interface over an explicit graphics driver.
//!
//! The crate holds the decisions of the device and resource lifecycle: which
//! queue family and memory type are chosen, what each creation request hands
//! the driver, how native result codes collapse into [`GMResult`], which
//! handles are torn down when a creation sequence fails part-way, and the
//! state machine of command recording. The driver calls themselves are made
//! by the caller, who feeds their outcomes back into these types.
use vstd::prelude::*;

pub mod vk;
pub mod result;
pub mod instance;
pub mod queue;
pub mod gpu;
pub mod shader;
pub mod image;
pub mod render_pass;
pub mod pipeline;
pub mod gallium;
pub mod swapchain;

pub use gpu::GPU;
pub use instance::InstanceDesc;
pub use queue::{GPUQueueInfo, Queue, QueueFamily, QueueRequest};
pub use image::{Image, ImageView};
pub use gallium::{Command, Gallium, RecorderState};
pub use pipeline::Pipeline;
pub use render_pass::{FrameBuffer, RenderPass, SubPass};
pub use shader::{Shader, ShaderKind, Spirv};
pub use result::{error_for, map_error, CallSite, Release, Resource};

verus! {

/// Result value returned when a gallium instruction is executed.
///
/// * `IncompatibleDriver` - Unsupported driver is used.
/// * `InitializationError` - Initialization failed for some reason.
/// * `InvalidValue` - Invalid value passed.
/// * `OutOfMemory` - Out of memory.
/// * `UnknownError` - Unknown error.
/// * `VkExtensionNotPresent` - A required driver extension is missing.
#[derive(Clone, Copy, Debug, PartialEq, Eq, Structural)]
pub enum GMResult {
    Success,
    IncompatibleDriver,
    InitializationError,
    InvalidValue,
    OutOfMemory,
    UnknownError,
    VkExtensionNotPresent,
}

} // verus!
