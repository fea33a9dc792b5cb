//! The command recorder: a command pool with one primary command buffer,
//! and the state machine of recording into it.
use vstd::prelude::*;

use crate::pipeline::Pipeline;
use crate::queue::Queue;
use crate::render_pass::{FrameBuffer, RenderPass};
use crate::image::Rect;
use crate::result::{error_for, map_error, CallSite, Release, Resource};
use crate::vk;
use crate::GMResult;

verus! {

/// Where the command buffer of a recorder stands.
#[derive(Clone, Copy, Debug, PartialEq, Eq, Structural)]
pub enum RecorderState {
    Initial,
    Recording,
    RenderPassActive,
    Ended,
}

/// A recording operation.
#[derive(Clone, Copy, Debug, PartialEq, Eq, Structural)]
pub enum RecordOp {
    Reset,
    Begin,
    BeginRenderPass,
    BindPipeline,
    Draw,
    EndRenderPass,
    End,
    Submit,
}

/// The state after `op` in state `s`, or `None` where `op` is not allowed.
/// A reset is allowed in every state; a submission leaves the buffer ended.
pub open spec fn next_state(s: RecorderState, op: RecordOp) -> Option<RecorderState> {
    match (s, op) {
        (_, RecordOp::Reset) => Some(RecorderState::Initial),
        (RecorderState::Initial, RecordOp::Begin) => Some(RecorderState::Recording),
        (RecorderState::Recording, RecordOp::BeginRenderPass) => Some(
            RecorderState::RenderPassActive,
        ),
        (RecorderState::RenderPassActive, RecordOp::BindPipeline) => Some(
            RecorderState::RenderPassActive,
        ),
        (RecorderState::RenderPassActive, RecordOp::Draw) => Some(RecorderState::RenderPassActive),
        (RecorderState::RenderPassActive, RecordOp::EndRenderPass) => Some(
            RecorderState::Recording,
        ),
        (RecorderState::Recording, RecordOp::End) => Some(RecorderState::Ended),
        (RecorderState::Ended, RecordOp::Submit) => Some(RecorderState::Ended),
        _ => None,
    }
}

/// A command to record into the recorder's command buffer.
#[derive(Clone, Copy, Debug, PartialEq, Eq, Structural)]
pub enum Command {
    /// Reset the buffer, with no flags.
    Reset,
    /// Begin the buffer, with no flags.
    Begin,
    /// Begin `render_pass` on `frame_buffer` over `area`, with no clear
    /// values and the subpass contents inline.
    BeginRenderPass { render_pass: u64, frame_buffer: u64, area: Rect },
    /// Bind `pipeline` at the graphics bind point.
    BindPipeline { pipeline: u64 },
    Draw { vertex_count: u32, instance_count: u32, first_vertex: u32, first_instance: u32 },
    EndRenderPass,
    End,
}

/// A command pool with one primary command buffer.
#[derive(Debug)]
pub struct Gallium {
    command_pool: u64,
    command_buffer: u64,
    state: RecorderState,
}

impl Gallium {
    pub closed spec fn spec_pool(&self) -> u64 {
        self.command_pool
    }

    pub closed spec fn spec_buffer(&self) -> u64 {
        self.command_buffer
    }

    pub closed spec fn spec_state(&self) -> RecorderState {
        self.state
    }

    pub fn command_pool(&self) -> (r: u64)
        ensures
            r == self.spec_pool(),
    {
        self.command_pool
    }

    pub fn command_buffer(&self) -> (r: u64)
        ensures
            r == self.spec_buffer(),
    {
        self.command_buffer
    }

    pub fn state(&self) -> (r: RecorderState)
        ensures
            r == self.spec_state(),
    {
        self.state
    }

    /// Moves to the state after `op`, or refuses with `InvalidValue` and
    /// stays where it is.
    fn step(&mut self, op: RecordOp, cmd: Command) -> (r: Result<Command, GMResult>)
        ensures
            final(self).spec_pool() == old(self).spec_pool(),
            final(self).spec_buffer() == old(self).spec_buffer(),
            match next_state(old(self).spec_state(), op) {
                Some(s) => r == Ok::<Command, GMResult>(cmd) && final(self).spec_state() == s,
                None => r == Err::<Command, GMResult>(GMResult::InvalidValue)
                    && final(self).spec_state() == old(self).spec_state(),
            },
    {
        let next = match (self.state, op) {
            (_, RecordOp::Reset) => Some(RecorderState::Initial),
            (RecorderState::Initial, RecordOp::Begin) => Some(RecorderState::Recording),
            (RecorderState::Recording, RecordOp::BeginRenderPass) => Some(
                RecorderState::RenderPassActive,
            ),
            (RecorderState::RenderPassActive, RecordOp::BindPipeline) => Some(
                RecorderState::RenderPassActive,
            ),
            (RecorderState::RenderPassActive, RecordOp::Draw) => Some(
                RecorderState::RenderPassActive,
            ),
            (RecorderState::RenderPassActive, RecordOp::EndRenderPass) => Some(
                RecorderState::Recording,
            ),
            (RecorderState::Recording, RecordOp::End) => Some(RecorderState::Ended),
            (RecorderState::Ended, RecordOp::Submit) => Some(RecorderState::Ended),
            _ => None,
        };
        match next {
            Some(s) => {
                self.state = s;
                Ok(cmd)
            },
            None => Err(GMResult::InvalidValue),
        }
    }

    /// Returns the buffer to its initial state, from any state; the buffer
    /// must not be pending on a queue.
    pub fn reset(&mut self) -> (r: Command)
        ensures
            r == Command::Reset,
            final(self).spec_state() == RecorderState::Initial,
            final(self).spec_pool() == old(self).spec_pool(),
            final(self).spec_buffer() == old(self).spec_buffer(),
    {
        self.state = RecorderState::Initial;
        Command::Reset
    }

    /// Starts recording: Initial to Recording.
    pub fn begin_draw(&mut self) -> (r: Result<Command, GMResult>)
        ensures
            final(self).spec_pool() == old(self).spec_pool(),
            final(self).spec_buffer() == old(self).spec_buffer(),
            match next_state(old(self).spec_state(), RecordOp::Begin) {
                Some(s) => r == Ok::<Command, GMResult>(Command::Begin) && final(self).spec_state()
                    == s,
                None => r == Err::<Command, GMResult>(GMResult::InvalidValue)
                    && final(self).spec_state() == old(self).spec_state(),
            },
    {
        self.step(RecordOp::Begin, Command::Begin)
    }

    /// Begins `render_pass` on `frame_buffer` over the area from the origin
    /// to `width` by `height`, clearing nothing: Recording to
    /// RenderPassActive.
    pub fn begin_render_pass(
        &mut self,
        frame_buffer: &FrameBuffer,
        render_pass: &RenderPass,
        width: u32,
        height: u32,
    ) -> (r: Result<Command, GMResult>)
        ensures
            final(self).spec_pool() == old(self).spec_pool(),
            final(self).spec_buffer() == old(self).spec_buffer(),
            match next_state(old(self).spec_state(), RecordOp::BeginRenderPass) {
                Some(s) => r == Ok::<Command, GMResult>(
                    Command::BeginRenderPass {
                        render_pass: render_pass.handle,
                        frame_buffer: frame_buffer.handle,
                        area: Rect { x: 0, y: 0, width, height },
                    },
                ) && final(self).spec_state() == s,
                None => r == Err::<Command, GMResult>(GMResult::InvalidValue)
                    && final(self).spec_state() == old(self).spec_state(),
            },
    {
        let cmd = Command::BeginRenderPass {
            render_pass: render_pass.handle,
            frame_buffer: frame_buffer.handle,
            area: Rect { x: 0, y: 0, width, height },
        };
        self.step(RecordOp::BeginRenderPass, cmd)
    }

    /// Binds `pipeline` inside the active render pass.
    pub fn bind_pipeline(&mut self, pipeline: &Pipeline) -> (r: Result<Command, GMResult>)
        ensures
            final(self).spec_pool() == old(self).spec_pool(),
            final(self).spec_buffer() == old(self).spec_buffer(),
            match next_state(old(self).spec_state(), RecordOp::BindPipeline) {
                Some(s) => r == Ok::<Command, GMResult>(
                    Command::BindPipeline { pipeline: pipeline.spec_handle() },
                ) && final(self).spec_state() == s,
                None => r == Err::<Command, GMResult>(GMResult::InvalidValue)
                    && final(self).spec_state() == old(self).spec_state(),
            },
    {
        let cmd = Command::BindPipeline { pipeline: pipeline.handle() };
        self.step(RecordOp::BindPipeline, cmd)
    }

    /// Draws inside the active render pass.
    pub fn draw(
        &mut self,
        vertex_count: u32,
        instance_count: u32,
        first_vertex: u32,
        first_instance: u32,
    ) -> (r: Result<Command, GMResult>)
        ensures
            final(self).spec_pool() == old(self).spec_pool(),
            final(self).spec_buffer() == old(self).spec_buffer(),
            match next_state(old(self).spec_state(), RecordOp::Draw) {
                Some(s) => r == Ok::<Command, GMResult>(
                    Command::Draw { vertex_count, instance_count, first_vertex, first_instance },
                ) && final(self).spec_state() == s,
                None => r == Err::<Command, GMResult>(GMResult::InvalidValue)
                    && final(self).spec_state() == old(self).spec_state(),
            },
    {
        let cmd = Command::Draw { vertex_count, instance_count, first_vertex, first_instance };
        self.step(RecordOp::Draw, cmd)
    }

    /// Ends the active render pass: RenderPassActive to Recording.
    pub fn end_render_pass(&mut self) -> (r: Result<Command, GMResult>)
        ensures
            final(self).spec_pool() == old(self).spec_pool(),
            final(self).spec_buffer() == old(self).spec_buffer(),
            match next_state(old(self).spec_state(), RecordOp::EndRenderPass) {
                Some(s) => r == Ok::<Command, GMResult>(Command::EndRenderPass)
                    && final(self).spec_state() == s,
                None => r == Err::<Command, GMResult>(GMResult::InvalidValue)
                    && final(self).spec_state() == old(self).spec_state(),
            },
    {
        self.step(RecordOp::EndRenderPass, Command::EndRenderPass)
    }

    /// Ends recording: Recording to Ended.
    pub fn end_draw(&mut self) -> (r: Result<Command, GMResult>)
        ensures
            final(self).spec_pool() == old(self).spec_pool(),
            final(self).spec_buffer() == old(self).spec_buffer(),
            match next_state(old(self).spec_state(), RecordOp::End) {
                Some(s) => r == Ok::<Command, GMResult>(Command::End) && final(self).spec_state()
                    == s,
                None => r == Err::<Command, GMResult>(GMResult::InvalidValue)
                    && final(self).spec_state() == old(self).spec_state(),
            },
    {
        self.step(RecordOp::End, Command::End)
    }

    /// The command buffer to submit, which must have ended recording;
    /// otherwise `InvalidValue`. Submission does not wait for the work to
    /// complete: the caller synchronizes before the next reset.
    pub fn submission(&self) -> (r: Result<u64, GMResult>)
        ensures
            r == (if next_state(self.spec_state(), RecordOp::Submit) is Some {
                Ok::<u64, GMResult>(self.spec_buffer())
            } else {
                Err(GMResult::InvalidValue)
            }),
    {
        match self.state {
            RecorderState::Ended => Ok(self.command_buffer),
            _ => Err(GMResult::InvalidValue),
        }
    }

    /// The objects to destroy when the recorder is no longer used:
    /// destroying the pool frees its buffer.
    pub fn release(self) -> (r: Vec<Resource>)
        ensures
            r@ == seq![Resource::CommandPool(self.spec_pool())],
    {
        let mut resources: Vec<Resource> = Vec::new();
        resources.push(Resource::CommandPool(self.command_pool));
        resources
    }
}

/// The command pool to create for a recorder: scoped to a queue's family,
/// and letting its buffer be reset on its own, which a reset of the recorder
/// from any state needs.
#[derive(Clone, Copy, Debug, PartialEq, Eq, Structural)]
pub struct CommandPoolRequest {
    pub queue_family_index: u32,
    pub flags: u32,
}

impl CommandPoolRequest {
    pub fn new(queue: &Queue) -> (r: CommandPoolRequest)
        ensures
            r.queue_family_index == queue.spec_info().index,
            r.flags == vk::COMMAND_POOL_CREATE_RESET_COMMAND_BUFFER_BIT,
    {
        CommandPoolRequest {
            queue_family_index: queue.info().index,
            flags: vk::COMMAND_POOL_CREATE_RESET_COMMAND_BUFFER_BIT,
        }
    }

    /// Takes the outcome of the pool creation call. Nothing was created on
    /// failure.
    pub fn created(&self, created: Result<u64, i32>) -> (r: Result<CommandBufferRequest, GMResult>)
        ensures
            match created {
                Ok(p) => r == Ok::<CommandBufferRequest, GMResult>(
                    CommandBufferRequest {
                        command_pool: p,
                        level: vk::COMMAND_BUFFER_LEVEL_PRIMARY,
                        count: 1,
                    },
                ),
                Err(code) => r == Err::<CommandBufferRequest, GMResult>(
                    error_for(CallSite::CreateCommandPool, code),
                ),
            },
    {
        match created {
            Ok(command_pool) => Ok(
                CommandBufferRequest {
                    command_pool,
                    level: vk::COMMAND_BUFFER_LEVEL_PRIMARY,
                    count: 1,
                },
            ),
            Err(code) => Err(map_error(CallSite::CreateCommandPool, code)),
        }
    }
}

/// The command buffers to allocate from a new pool: one primary buffer.
#[derive(Clone, Copy, Debug, PartialEq, Eq, Structural)]
pub struct CommandBufferRequest {
    pub command_pool: u64,
    pub level: i32,
    pub count: u32,
}

impl CommandBufferRequest {
    /// Takes the outcome of the allocation: the allocated buffers, or the
    /// native error code. The recorder starts in the initial state. On
    /// failure, or when the driver hands back another number of buffers
    /// than the one asked for, the pool is handed back for destruction, so
    /// that it does not leak.
    pub fn allocated(&self, allocated: Result<Vec<u64>, i32>) -> (r: Result<Gallium, Release>)
        ensures
            match allocated {
                Ok(bs) => if bs@.len() == 1 {
                    r matches Ok(g) && g.spec_pool() == self.command_pool && g.spec_buffer()
                        == bs@[0] && g.spec_state() == RecorderState::Initial
                } else {
                    r matches Err(rel) && rel.error == GMResult::UnknownError && rel.resources@
                        == seq![Resource::CommandPool(self.command_pool)]
                },
                Err(code) => r matches Err(rel) && rel.error == error_for(
                    CallSite::AllocateCommandBuffers,
                    code,
                ) && rel.resources@ == seq![Resource::CommandPool(self.command_pool)],
            },
    {
        let error = match &allocated {
            Ok(buffers) => {
                if buffers.len() == 1 {
                    return Ok(
                        Gallium {
                            command_pool: self.command_pool,
                            command_buffer: buffers[0],
                            state: RecorderState::Initial,
                        },
                    );
                }
                GMResult::UnknownError
            },
            Err(code) => map_error(CallSite::AllocateCommandBuffers, *code),
        };
        let mut resources: Vec<Resource> = Vec::new();
        resources.push(Resource::CommandPool(self.command_pool));
        Err(Release { error, resources })
    }
}

} // verus!
