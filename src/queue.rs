//! Queue families, the queue request a device is created with, and queues.
use vstd::prelude::*;

use crate::vk;

verus! {

/// A graphics-capable queue family of a GPU: its index and its queue count.
#[derive(Clone, Copy, Debug, PartialEq, Eq, Structural)]
pub struct GPUQueueInfo {
    pub index: u32,
    pub count: u32,
}

impl GPUQueueInfo {
    pub fn new(index: u32, count: u32) -> (r: GPUQueueInfo)
        ensures
            r.index == index,
            r.count == count,
    {
        GPUQueueInfo { index, count }
    }
}

impl Default for GPUQueueInfo {
    fn default() -> (r: GPUQueueInfo)
        ensures
            r.index == 0,
            r.count == 0,
    {
        GPUQueueInfo { index: 0, count: 0 }
    }
}

/// What a GPU reports of one of its queue families: its capability flags
/// and how many queues it has.
#[derive(Clone, Copy, Debug, PartialEq, Eq, Structural)]
pub struct QueueFamily {
    pub flags: u32,
    pub count: u32,
}

impl QueueFamily {
    pub open spec fn spec_supports_graphics(self) -> bool {
        self.flags & vk::QUEUE_GRAPHICS_BIT != 0
    }

    pub fn supports_graphics(&self) -> (r: bool)
        ensures
            r == self.spec_supports_graphics(),
    {
        self.flags & vk::QUEUE_GRAPHICS_BIT != 0
    }
}

/// The queues a logical device is created with: `queue_count` queues of the
/// family `family_index`, each with the highest priority.
#[derive(Clone, Copy, Debug, PartialEq, Eq, Structural)]
pub struct QueueRequest {
    pub family_index: u32,
    pub queue_count: u32,
}

impl QueueRequest {
    /// The index, within the requested family, of the queue a device hands
    /// out: the first one.
    pub fn queue_index(&self) -> (r: u32)
        ensures
            r == 0,
    {
        0
    }

    /// The queue `handle` that the driver returned for queue 0 of the
    /// requested family, described by that family and its requested count.
    pub fn queue(&self, handle: u64) -> (r: Queue)
        ensures
            r.spec_handle() == handle,
            r.spec_info() == (GPUQueueInfo { index: self.family_index, count: self.queue_count }),
    {
        Queue { handle, info: GPUQueueInfo { index: self.family_index, count: self.queue_count } }
    }
}

/// A handle to one hardware queue of a device.
#[derive(Clone, Copy, Debug, PartialEq, Eq, Structural)]
pub struct Queue {
    handle: u64,
    info: GPUQueueInfo,
}

impl Queue {
    pub closed spec fn spec_handle(self) -> u64 {
        self.handle
    }

    pub closed spec fn spec_info(self) -> GPUQueueInfo {
        self.info
    }

    /// The queue of index 0 of the family `info.index`, which the driver
    /// handed back as `handle`.
    pub fn new(handle: u64, info: GPUQueueInfo) -> (r: Queue)
        ensures
            r.spec_handle() == handle,
            r.spec_info() == info,
    {
        Queue { handle, info }
    }

    pub fn handle(&self) -> (r: u64)
        ensures
            r == self.spec_handle(),
    {
        self.handle
    }

    pub fn info(&self) -> (r: GPUQueueInfo)
        ensures
            r == self.spec_info(),
    {
        self.info
    }
}

} // verus!
