//! How native result codes collapse into [`GMResult`], and what a creation
//! sequence that failed part-way leaves for the caller to release.
use vstd::prelude::*;

use crate::vk;
use crate::GMResult;

verus! {

/// The driver call whose result code is being translated. Each call has its
/// own fixed table.
#[derive(Clone, Copy, Debug, PartialEq, Eq, Structural)]
pub enum CallSite {
    CreateInstance,
    EnumerateSurfaceExtensions,
    EnumerateGpus,
    CreateDevice,
    CreateCommandPool,
    AllocateCommandBuffers,
    CreateImage,
    AllocateMemory,
    BindImageMemory,
    CreateImageView,
    CreateFrameBuffer,
    CreateRenderPass,
    CreateShaderModule,
    CreatePipelineLayout,
    CreateGraphicsPipelines,
    CreateSurface,
    CreateSwapchain,
    GetSwapchainImages,
    RecordCommands,
    CreateFence,
    AcquireNextImage,
    QueueSubmit,
    QueuePresent,
    MapMemory,
}

pub open spec fn is_out_of_memory(code: i32) -> bool {
    code == vk::ERROR_OUT_OF_HOST_MEMORY || code == vk::ERROR_OUT_OF_DEVICE_MEMORY
}

/// Table of the calls that create top-level driver objects: memory
/// exhaustion, initialization failure and a missing driver are told apart.
pub open spec fn creation_error(code: i32) -> GMResult {
    if is_out_of_memory(code) {
        GMResult::OutOfMemory
    } else if code == vk::ERROR_INITIALIZATION_FAILED {
        GMResult::InitializationError
    } else if code == vk::ERROR_INCOMPATIBLE_DRIVER {
        GMResult::IncompatibleDriver
    } else {
        GMResult::UnknownError
    }
}

/// Table of the calls that only allocate: memory exhaustion or nothing known.
pub open spec fn allocation_error(code: i32) -> GMResult {
    if is_out_of_memory(code) {
        GMResult::OutOfMemory
    } else {
        GMResult::UnknownError
    }
}

/// The error that a failed call at `site` with native code `code` reports.
pub open spec fn error_for(site: CallSite, code: i32) -> GMResult {
    match site {
        CallSite::CreateInstance | CallSite::CreateDevice | CallSite::CreatePipelineLayout
        | CallSite::CreateGraphicsPipelines => creation_error(code),
        CallSite::EnumerateSurfaceExtensions => if code == vk::ERROR_EXTENSION_NOT_PRESENT {
            GMResult::VkExtensionNotPresent
        } else {
            GMResult::UnknownError
        },
        CallSite::AllocateMemory => if code == vk::ERROR_INVALID_EXTERNAL_HANDLE {
            GMResult::InvalidValue
        } else {
            allocation_error(code)
        },
        CallSite::EnumerateGpus | CallSite::CreateImageView | CallSite::CreateFrameBuffer
        | CallSite::CreateRenderPass => GMResult::UnknownError,
        _ => allocation_error(code),
    }
}

fn out_of_memory(code: i32) -> (r: bool)
    ensures
        r == is_out_of_memory(code),
{
    code == vk::ERROR_OUT_OF_HOST_MEMORY || code == vk::ERROR_OUT_OF_DEVICE_MEMORY
}

/// Translates the native result code of a failed call at `site`.
pub fn map_error(site: CallSite, code: i32) -> (r: GMResult)
    ensures
        r == error_for(site, code),
{
    match site {
        CallSite::CreateInstance | CallSite::CreateDevice | CallSite::CreatePipelineLayout
        | CallSite::CreateGraphicsPipelines => {
            if out_of_memory(code) {
                GMResult::OutOfMemory
            } else if code == vk::ERROR_INITIALIZATION_FAILED {
                GMResult::InitializationError
            } else if code == vk::ERROR_INCOMPATIBLE_DRIVER {
                GMResult::IncompatibleDriver
            } else {
                GMResult::UnknownError
            }
        },
        CallSite::EnumerateSurfaceExtensions => {
            if code == vk::ERROR_EXTENSION_NOT_PRESENT {
                GMResult::VkExtensionNotPresent
            } else {
                GMResult::UnknownError
            }
        },
        CallSite::AllocateMemory => {
            if code == vk::ERROR_INVALID_EXTERNAL_HANDLE {
                GMResult::InvalidValue
            } else if out_of_memory(code) {
                GMResult::OutOfMemory
            } else {
                GMResult::UnknownError
            }
        },
        CallSite::EnumerateGpus | CallSite::CreateImageView | CallSite::CreateFrameBuffer
        | CallSite::CreateRenderPass => GMResult::UnknownError,
        _ => {
            if out_of_memory(code) {
                GMResult::OutOfMemory
            } else {
                GMResult::UnknownError
            }
        },
    }
}

/// A driver object that the caller created and must destroy, by its raw
/// handle.
#[derive(Clone, Copy, Debug, PartialEq, Eq, Structural)]
pub enum Resource {
    Image(u64),
    Memory(u64),
    ImageView(u64),
    CommandPool(u64),
    PipelineLayout(u64),
    Pipeline(u64),
}

/// The outcome of a creation sequence that failed after some of its objects
/// were created: the error to report, and the objects to destroy first, in
/// the order given (children before the objects they depend on).
#[derive(Debug)]
pub struct Release {
    pub error: GMResult,
    pub resources: Vec<Resource>,
}

} // verus!
