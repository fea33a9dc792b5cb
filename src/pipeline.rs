//! Graphics pipelines: the fixed-function state, the shader stages, and the
//! two-step creation of layout and pipeline.
use vstd::prelude::*;

use crate::image::{Image, Rect, Viewport};
use crate::render_pass::RenderPass;
use crate::result::{error_for, map_error, CallSite, Release, Resource};
use crate::shader::{stage_flag, Shader};
use crate::vk;
use crate::GMResult;

verus! {

/// One shader stage of a pipeline: a module bound to a stage flag, entered
/// at `main`.
#[derive(Clone, Copy, Debug, PartialEq, Eq, Structural)]
pub struct ShaderStage {
    pub module: u64,
    pub stage: u32,
}

pub open spec fn stage_of(s: Shader) -> ShaderStage {
    ShaderStage { module: s.spec_handle(), stage: stage_flag(s.spec_kind()) }
}

/// One stage per shader, in order, each keyed by its shader's kind.
pub open spec fn stages_of(shaders: Seq<Shader>) -> Seq<ShaderStage> {
    shaders.map_values(|s: Shader| stage_of(s))
}

/// The fixed-function state of every pipeline.
#[derive(Clone, Copy, Debug, PartialEq, Eq, Structural)]
pub struct FixedFunctionState {
    pub vertex_binding_count: u32,
    pub vertex_attribute_count: u32,
    pub topology: i32,
    pub primitive_restart_enable: bool,
    pub depth_clamp_enable: bool,
    pub rasterizer_discard_enable: bool,
    pub polygon_mode: i32,
    pub cull_mode: u32,
    pub front_face: i32,
    pub depth_bias_enable: bool,
    pub depth_test_enable: bool,
    pub sample_shading_enable: bool,
    pub rasterization_samples: u32,
    pub blend_enable: bool,
    pub color_write_mask: u32,
    pub logic_op_enable: bool,
    pub subpass: u32,
}

/// No vertex input, triangle lists, filled polygons with back faces culled
/// and clockwise front faces, no depth test, one sample, blending off with
/// all four color channels written, subpass 0.
pub open spec fn fixed_function_state() -> FixedFunctionState {
    FixedFunctionState {
        vertex_binding_count: 0,
        vertex_attribute_count: 0,
        topology: vk::PRIMITIVE_TOPOLOGY_TRIANGLE_LIST,
        primitive_restart_enable: false,
        depth_clamp_enable: false,
        rasterizer_discard_enable: false,
        polygon_mode: vk::POLYGON_MODE_FILL,
        cull_mode: vk::CULL_MODE_BACK_BIT,
        front_face: vk::FRONT_FACE_CLOCKWISE,
        depth_bias_enable: false,
        depth_test_enable: false,
        sample_shading_enable: false,
        rasterization_samples: vk::SAMPLE_COUNT_1_BIT,
        blend_enable: false,
        color_write_mask: vk::COLOR_COMPONENT_RGBA,
        logic_op_enable: false,
        subpass: 0,
    }
}

fn new_fixed_function_state() -> (r: FixedFunctionState)
    ensures
        r == fixed_function_state(),
{
    FixedFunctionState {
        vertex_binding_count: 0,
        vertex_attribute_count: 0,
        topology: vk::PRIMITIVE_TOPOLOGY_TRIANGLE_LIST,
        primitive_restart_enable: false,
        depth_clamp_enable: false,
        rasterizer_discard_enable: false,
        polygon_mode: vk::POLYGON_MODE_FILL,
        cull_mode: vk::CULL_MODE_BACK_BIT,
        front_face: vk::FRONT_FACE_CLOCKWISE,
        depth_bias_enable: false,
        depth_test_enable: false,
        sample_shading_enable: false,
        rasterization_samples: vk::SAMPLE_COUNT_1_BIT,
        blend_enable: false,
        color_write_mask: vk::COLOR_COMPONENT_RGBA,
        logic_op_enable: false,
        subpass: 0,
    }
}

impl RenderPass {
    /// Starts the creation of a pipeline for this render pass that draws
    /// into `image` with `shaders`. An empty shader list fails with
    /// `InvalidValue` before anything is asked of the driver; otherwise the
    /// result is the layout to create first, which binds no descriptor set.
    pub fn create_pipeline(&self, image: &Image, shaders: &[Shader]) -> (r: Result<
        PipelineLayoutRequest,
        GMResult,
    >)
        ensures
            shaders@.len() == 0 <==> r == Err::<PipelineLayoutRequest, GMResult>(
                GMResult::InvalidValue,
            ),
            shaders@.len() > 0 ==> (r matches Ok(req) && {
                &&& req.spec_render_pass() == self.handle
                &&& req.spec_stages() == stages_of(shaders@)
                &&& req.spec_viewport() == image.viewport_model()
                &&& req.spec_scissor() == image.scissor_model()
            }),
    {
        if shaders.len() == 0 {
            return Err(GMResult::InvalidValue);
        }
        let mut stages: Vec<ShaderStage> = Vec::new();
        let mut i: usize = 0;
        while i < shaders.len()
            invariant
                i <= shaders@.len(),
                stages@ =~= stages_of(shaders@).subrange(0, i as int),
            decreases shaders@.len() - i,
        {
            let s = &shaders[i];
            stages.push(ShaderStage { module: s.handle(), stage: s.kind().stage_flag() });
            i = i + 1;
        }
        Ok(
            PipelineLayoutRequest {
                render_pass: self.handle,
                stages,
                viewport: image.viewport(),
                scissor: image.scissor(),
            },
        )
    }
}

impl Image {
    pub open spec fn viewport_model(&self) -> Viewport {
        Viewport {
            x: 0,
            y: 0,
            width: self.spec_width(),
            height: self.spec_height(),
            min_depth: 0,
            max_depth: 1,
        }
    }

    pub open spec fn scissor_model(&self) -> Rect {
        Rect { x: 0, y: 0, width: self.spec_width(), height: self.spec_height() }
    }
}

/// The pipeline layout to create before a pipeline: it has no descriptor
/// set layouts. It carries what the pipeline will be built from.
#[derive(Debug)]
pub struct PipelineLayoutRequest {
    render_pass: u64,
    stages: Vec<ShaderStage>,
    viewport: Viewport,
    scissor: Rect,
}

impl PipelineLayoutRequest {
    pub closed spec fn spec_render_pass(&self) -> u64 {
        self.render_pass
    }

    pub closed spec fn spec_stages(&self) -> Seq<ShaderStage> {
        self.stages@
    }

    pub closed spec fn spec_viewport(&self) -> Viewport {
        self.viewport
    }

    pub closed spec fn spec_scissor(&self) -> Rect {
        self.scissor
    }

    /// The number of descriptor set layouts of the layout.
    pub fn set_layout_count(&self) -> (r: u32)
        ensures
            r == 0,
    {
        0
    }

    /// Takes the outcome of the layout creation call. Nothing was created on
    /// failure.
    pub fn created(self, created: Result<u64, i32>) -> (r: Result<PipelineRequest, GMResult>)
        ensures
            match created {
                Ok(l) => r matches Ok(req) && req.spec_layout() == l && req.spec_render_pass()
                    == self.spec_render_pass() && req.spec_stages() == self.spec_stages()
                    && req.spec_viewport() == self.spec_viewport() && req.spec_scissor()
                    == self.spec_scissor() && req.spec_fixed() == fixed_function_state(),
                Err(code) => r == Err::<PipelineRequest, GMResult>(
                    error_for(CallSite::CreatePipelineLayout, code),
                ),
            },
    {
        match created {
            Ok(layout) => Ok(
                PipelineRequest {
                    render_pass: self.render_pass,
                    layout,
                    stages: self.stages,
                    viewport: self.viewport,
                    scissor: self.scissor,
                    fixed: new_fixed_function_state(),
                },
            ),
            Err(code) => Err(map_error(CallSite::CreatePipelineLayout, code)),
        }
    }
}

/// Everything the graphics pipeline creation call is handed, for one
/// pipeline.
#[derive(Debug)]
pub struct PipelineRequest {
    render_pass: u64,
    layout: u64,
    stages: Vec<ShaderStage>,
    viewport: Viewport,
    scissor: Rect,
    fixed: FixedFunctionState,
}

impl PipelineRequest {
    pub closed spec fn spec_render_pass(&self) -> u64 {
        self.render_pass
    }

    pub closed spec fn spec_layout(&self) -> u64 {
        self.layout
    }

    pub closed spec fn spec_stages(&self) -> Seq<ShaderStage> {
        self.stages@
    }

    pub closed spec fn spec_viewport(&self) -> Viewport {
        self.viewport
    }

    pub closed spec fn spec_scissor(&self) -> Rect {
        self.scissor
    }

    pub closed spec fn spec_fixed(&self) -> FixedFunctionState {
        self.fixed
    }

    pub fn render_pass(&self) -> (r: u64)
        ensures
            r == self.spec_render_pass(),
    {
        self.render_pass
    }

    pub fn layout(&self) -> (r: u64)
        ensures
            r == self.spec_layout(),
    {
        self.layout
    }

    pub fn stages(&self) -> (r: &Vec<ShaderStage>)
        ensures
            r@ == self.spec_stages(),
    {
        &self.stages
    }

    pub fn viewport(&self) -> (r: Viewport)
        ensures
            r == self.spec_viewport(),
    {
        self.viewport
    }

    pub fn scissor(&self) -> (r: Rect)
        ensures
            r == self.spec_scissor(),
    {
        self.scissor
    }

    pub fn fixed_function(&self) -> (r: FixedFunctionState)
        ensures
            r == self.spec_fixed(),
    {
        self.fixed
    }

    /// The number of pipelines asked for in one creation call.
    pub fn pipeline_count(&self) -> (r: u32)
        ensures
            r == 1,
    {
        1
    }

    /// Takes the outcome of the pipeline creation call: the created
    /// pipelines' handles, or the native error code. One pipeline is asked
    /// for; exactly one is returned, owning the layout. On failure, or when
    /// the driver hands back another number of pipelines, what was created
    /// is handed back for destruction, pipelines before the layout.
    pub fn created(self, created: Result<Vec<u64>, i32>) -> (r: Result<Vec<Pipeline>, Release>)
        ensures
            match created {
                Ok(hs) => if hs@.len() == 1 {
                    r matches Ok(ps) && ps@.len() == 1 && ps@[0].spec_handle() == hs@[0]
                        && ps@[0].spec_layout() == self.spec_layout()
                } else {
                    r matches Err(rel) && rel.error == GMResult::UnknownError && rel.resources@
                        == hs@.map_values(|h: u64| Resource::Pipeline(h)).push(
                        Resource::PipelineLayout(self.spec_layout()),
                    )
                },
                Err(code) => r matches Err(rel) && rel.error == error_for(
                    CallSite::CreateGraphicsPipelines,
                    code,
                ) && rel.resources@ == seq![Resource::PipelineLayout(self.spec_layout())],
            },
    {
        match created {
            Ok(handles) => {
                if handles.len() == 1 {
                    let mut pipelines: Vec<Pipeline> = Vec::new();
                    pipelines.push(Pipeline { handle: handles[0], layout: self.layout });
                    Ok(pipelines)
                } else {
                    let mut resources: Vec<Resource> = Vec::new();
                    let mut i: usize = 0;
                    while i < handles.len()
                        invariant
                            i <= handles@.len(),
                            resources@ =~= handles@.subrange(0, i as int).map_values(
                                |h: u64| Resource::Pipeline(h),
                            ),
                        decreases handles@.len() - i,
                    {
                        resources.push(Resource::Pipeline(handles[i]));
                        i = i + 1;
                    }
                    assert(handles@.subrange(0, i as int) =~= handles@);
                    resources.push(Resource::PipelineLayout(self.layout));
                    Err(Release { error: GMResult::UnknownError, resources })
                }
            },
            Err(code) => {
                let mut resources: Vec<Resource> = Vec::new();
                resources.push(Resource::PipelineLayout(self.layout));
                Err(Release { error: map_error(CallSite::CreateGraphicsPipelines, code), resources })
            },
        }
    }
}

/// A graphics pipeline state object, with the layout it owns.
#[derive(Debug)]
pub struct Pipeline {
    handle: u64,
    layout: u64,
}

impl Pipeline {
    pub closed spec fn spec_handle(&self) -> u64 {
        self.handle
    }

    pub closed spec fn spec_layout(&self) -> u64 {
        self.layout
    }

    pub fn handle(&self) -> (r: u64)
        ensures
            r == self.spec_handle(),
    {
        self.handle
    }

    pub fn layout(&self) -> (r: u64)
        ensures
            r == self.spec_layout(),
    {
        self.layout
    }

    /// The objects to destroy when the pipeline is no longer used: the
    /// pipeline, then its layout.
    pub fn release(self) -> (r: Vec<Resource>)
        ensures
            r@ == seq![Resource::Pipeline(self.spec_handle()), Resource::PipelineLayout(self.spec_layout())],
    {
        let mut resources: Vec<Resource> = Vec::new();
        resources.push(Resource::Pipeline(self.handle));
        resources.push(Resource::PipelineLayout(self.layout));
        resources
    }
}

} // verus!
