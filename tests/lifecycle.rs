use gallium::gallium::{CommandBufferRequest, CommandPoolRequest, RecorderState};
use gallium::image::{choose_memory_type, ImageRequest, MemoryRequirements};
use gallium::pipeline::PipelineLayoutRequest;
use gallium::render_pass::{AttachmentRef, RenderPassRequest};
use gallium::swapchain::{SurfaceCapabilities, SurfaceFormat, SwapchainRequest, SwapchainViews};
use gallium::vk;
use gallium::{
    map_error, CallSite, Command, GMResult, GPUQueueInfo, Gallium, Image, Queue, QueueFamily,
    RenderPass, Resource, Shader, ShaderKind, Spirv, SubPass, GPU,
};

fn spirv_bytes(words: &[u32]) -> Vec<u8> {
    let mut out = Vec::new();
    for w in words {
        out.extend_from_slice(&w.to_le_bytes());
    }
    out
}

fn make_image(width: u32, height: u32) -> Image {
    let req = ImageRequest::new(width, height).unwrap();
    let unbound = req.created(Ok(11)).unwrap();
    let mem = unbound
        .plan_memory(MemoryRequirements { size: (width as u64) * (height as u64) * 4, memory_type_bits: 0b0110 }, 4)
        .unwrap();
    let bind = mem.allocated(Ok(22)).unwrap();
    bind.bound(Ok(())).unwrap()
}

fn make_recorder() -> Gallium {
    let queue = Queue::new(5, GPUQueueInfo::new(0, 1));
    let buffers = CommandPoolRequest::new(&queue).created(Ok(7)).unwrap();
    buffers.allocated(Ok(vec![8])).unwrap()
}

fn make_shader(kind: ShaderKind, handle: u64) -> Shader {
    Shader::created(kind, Ok(handle)).unwrap()
}

#[test]
fn graphics_query_is_repeatable() {
    let families = vec![
        QueueFamily { flags: 0b100, count: 2 },
        QueueFamily { flags: 0b011, count: 16 },
        QueueFamily { flags: 0b001, count: 1 },
    ];
    let gpu = GPU::new(1, "adapter".to_owned(), families);
    let first = gpu.is_support_graphics();
    let second = gpu.is_support_graphics();
    assert_eq!(first, Some(GPUQueueInfo::new(1, 16)));
    assert_eq!(first, second);
}

#[test]
fn graphics_query_without_graphics_family() {
    let gpu = GPU::new(1, "compute only".to_owned(), vec![QueueFamily { flags: 0b10, count: 4 }]);
    assert_eq!(gpu.is_support_graphics(), None);
    let empty = GPU::new(2, "none".to_owned(), vec![]);
    assert_eq!(empty.is_support_graphics(), None);
}

#[test]
fn gpu_name_is_kept() {
    let gpu = GPU::new(3, "Example GPU".to_owned(), vec![]);
    assert_eq!(gpu.name(), "Example GPU");
    assert_eq!(gpu.handle(), 3);
}

#[test]
fn queue_of_created_device_has_requested_family() {
    let gpu = GPU::new(1, "adapter".to_owned(), vec![
        QueueFamily { flags: 0b10, count: 1 },
        QueueFamily { flags: 0b01, count: 3 },
    ]);
    let info = gpu.is_support_graphics().unwrap();
    let request = gpu.queue_request(info).unwrap();
    assert_eq!(request.family_index, 1);
    assert_eq!(request.queue_count, 3);
    assert_eq!(request.queue_index(), 0);
    let queue = request.queue(99);
    assert_eq!(queue.info(), info);
    assert_eq!(queue.handle(), 99);
}

#[test]
fn queue_request_refuses_unfit_info() {
    let gpu = GPU::new(1, "adapter".to_owned(), vec![
        QueueFamily { flags: 0b10, count: 1 },
        QueueFamily { flags: 0b01, count: 3 },
    ]);
    assert_eq!(gpu.queue_request(GPUQueueInfo::new(0, 1)), Err(GMResult::InvalidValue));
    assert_eq!(gpu.queue_request(GPUQueueInfo::new(1, 4)), Err(GMResult::InvalidValue));
    assert_eq!(gpu.queue_request(GPUQueueInfo::new(2, 1)), Err(GMResult::InvalidValue));
    assert_eq!(gpu.queue_request(GPUQueueInfo::default()), Err(GMResult::InvalidValue));
}

#[test]
fn queue_info_default_is_zero() {
    let info = GPUQueueInfo::default();
    assert_eq!(info.index, 0);
    assert_eq!(info.count, 0);
}

#[test]
fn error_tables_per_call_site() {
    assert_eq!(map_error(CallSite::CreateInstance, vk::ERROR_OUT_OF_HOST_MEMORY), GMResult::OutOfMemory);
    assert_eq!(map_error(CallSite::CreateInstance, vk::ERROR_OUT_OF_DEVICE_MEMORY), GMResult::OutOfMemory);
    assert_eq!(map_error(CallSite::CreateInstance, vk::ERROR_INITIALIZATION_FAILED), GMResult::InitializationError);
    assert_eq!(map_error(CallSite::CreateInstance, vk::ERROR_INCOMPATIBLE_DRIVER), GMResult::IncompatibleDriver);
    assert_eq!(map_error(CallSite::CreateInstance, -4), GMResult::UnknownError);
    assert_eq!(map_error(CallSite::CreateCommandPool, vk::ERROR_INITIALIZATION_FAILED), GMResult::UnknownError);
    assert_eq!(map_error(CallSite::CreateCommandPool, vk::ERROR_OUT_OF_DEVICE_MEMORY), GMResult::OutOfMemory);
    assert_eq!(map_error(CallSite::AllocateMemory, vk::ERROR_INVALID_EXTERNAL_HANDLE), GMResult::InvalidValue);
    assert_eq!(map_error(CallSite::CreateImage, vk::ERROR_INVALID_EXTERNAL_HANDLE), GMResult::UnknownError);
    assert_eq!(map_error(CallSite::CreateRenderPass, vk::ERROR_OUT_OF_HOST_MEMORY), GMResult::UnknownError);
    assert_eq!(map_error(CallSite::EnumerateGpus, vk::ERROR_OUT_OF_HOST_MEMORY), GMResult::UnknownError);
    assert_eq!(map_error(CallSite::EnumerateSurfaceExtensions, vk::ERROR_EXTENSION_NOT_PRESENT), GMResult::VkExtensionNotPresent);
    assert_eq!(map_error(CallSite::CreatePipelineLayout, vk::ERROR_INCOMPATIBLE_DRIVER), GMResult::IncompatibleDriver);
    assert_eq!(map_error(CallSite::CreateDevice, vk::ERROR_INITIALIZATION_FAILED), GMResult::InitializationError);
}

#[test]
fn memory_type_last_match_wins() {
    assert_eq!(choose_memory_type(0b1011, 4), Some(3));
    assert_eq!(choose_memory_type(0b1011, 3), Some(1));
    assert_eq!(choose_memory_type(0b0001, 32), Some(0));
    assert_eq!(choose_memory_type(0x8000_0000, 32), Some(31));
    assert_eq!(choose_memory_type(0b1000, 3), None);
    assert_eq!(choose_memory_type(0, 32), None);
    assert_eq!(choose_memory_type(u32::MAX, 0), None);
}

#[test]
fn image_request_is_rgba8_color_attachment() {
    let req = ImageRequest::new(640, 480).unwrap();
    assert_eq!(req.width, 640);
    assert_eq!(req.height, 480);
    assert_eq!(req.depth, 1);
    assert_eq!(req.mip_levels, 1);
    assert_eq!(req.array_layers, 1);
    assert_eq!(req.format, vk::FORMAT_R8G8B8A8_UNORM);
    assert_eq!(req.tiling, vk::IMAGE_TILING_LINEAR);
    assert_eq!(req.usage, vk::IMAGE_USAGE_COLOR_ATTACHMENT_BIT);
    assert_eq!(ImageRequest::new(0, 480), Err(GMResult::InvalidValue));
    assert_eq!(ImageRequest::new(640, 0), Err(GMResult::InvalidValue));
}

#[test]
fn image_creation_binds_last_fitting_memory_type() {
    let image = make_image(640, 480);
    assert_eq!(image.handle(), 11);
    assert_eq!(image.memory(), 22);
    assert_eq!(image.memory_type_index(), 2);
    let vp = image.viewport();
    assert_eq!((vp.x, vp.y, vp.width, vp.height, vp.min_depth, vp.max_depth), (0, 0, 640, 480, 0, 1));
    let sc = image.scissor();
    assert_eq!((sc.x, sc.y, sc.width, sc.height), (0, 0, 640, 480));
    assert_eq!(image.release(), vec![Resource::Image(11), Resource::Memory(22)]);
}

#[test]
fn image_creation_failures_release_what_exists() {
    let req = ImageRequest::new(4, 4).unwrap();
    assert_eq!(req.created(Err(vk::ERROR_OUT_OF_DEVICE_MEMORY)).unwrap_err(), GMResult::OutOfMemory);

    let unbound = req.created(Ok(1)).unwrap();
    let rel = unbound.plan_memory(MemoryRequirements { size: 64, memory_type_bits: 0b1000 }, 2).unwrap_err();
    assert_eq!(rel.error, GMResult::UnknownError);
    assert_eq!(rel.resources, vec![Resource::Image(1)]);

    let unbound = req.created(Ok(1)).unwrap();
    let mem = unbound.plan_memory(MemoryRequirements { size: 64, memory_type_bits: 0b1 }, 2).unwrap();
    assert_eq!(mem.allocation_size(), 64);
    assert_eq!(mem.memory_type_index(), 0);
    let rel = mem.allocated(Err(vk::ERROR_INVALID_EXTERNAL_HANDLE)).unwrap_err();
    assert_eq!(rel.error, GMResult::InvalidValue);
    assert_eq!(rel.resources, vec![Resource::Image(1)]);

    let unbound = req.created(Ok(1)).unwrap();
    let mem = unbound.plan_memory(MemoryRequirements { size: 64, memory_type_bits: 0b1 }, 2).unwrap();
    let bind = mem.allocated(Ok(2)).unwrap();
    assert_eq!(bind.offset(), 0);
    let rel = bind.bound(Err(vk::ERROR_OUT_OF_HOST_MEMORY)).unwrap_err();
    assert_eq!(rel.error, GMResult::OutOfMemory);
    assert_eq!(rel.resources, vec![Resource::Image(1), Resource::Memory(2)]);
}

#[test]
fn mapped_image_of_64_by_64_holds_16384_bytes() {
    let image = make_image(64, 64);
    assert_eq!(image.pixel_bytes(), 64 * 64 * 4);
    assert_eq!(image.mapped_size(), 16384);
    assert_eq!(image.map_range(), 16384);
}

#[test]
fn map_range_is_cut_to_allocation() {
    let req = ImageRequest::new(64, 64).unwrap();
    let small = req
        .created(Ok(1))
        .unwrap()
        .plan_memory(MemoryRequirements { size: 1000, memory_type_bits: 1 }, 1)
        .unwrap()
        .allocated(Ok(2))
        .unwrap()
        .bound(Ok(()))
        .unwrap();
    assert_eq!(small.map_range(), 1000);
    let large = req
        .created(Ok(1))
        .unwrap()
        .plan_memory(MemoryRequirements { size: 20000, memory_type_bits: 1 }, 1)
        .unwrap()
        .allocated(Ok(2))
        .unwrap()
        .bound(Ok(()))
        .unwrap();
    assert_eq!(large.map_range(), 16384);
}

#[test]
fn image_view_and_frame_buffer_fit_render_pass() {
    let image = make_image(64, 32);
    let view_req = image.create_image_view();
    assert_eq!(view_req.image, 11);
    assert_eq!(view_req.format, vk::FORMAT_R8G8B8A8_UNORM);
    assert_eq!((view_req.level_count, view_req.layer_count), (1, 1));
    let view = view_req.created(Ok(33)).unwrap();
    let rp_req = RenderPassRequest::new(&[SubPass::new()]).unwrap();
    let rp = rp_req.created(Ok(44)).unwrap();
    assert_eq!(rp.format, view.format);
    let fb_req = view.create_frame_buffer(&rp, 64, 32);
    assert_eq!((fb_req.render_pass, fb_req.attachment, fb_req.width, fb_req.height, fb_req.layers), (44, 33, 64, 32, 1));
    let fb = fb_req.created(Ok(55)).unwrap();
    assert_eq!((fb.handle, fb.width, fb.height), (55, 64, 32));
    assert_eq!(fb_req.created(Err(vk::ERROR_OUT_OF_HOST_MEMORY)).unwrap_err(), GMResult::UnknownError);
    assert_eq!(view_req.created(Err(-1)).unwrap_err(), GMResult::UnknownError);
}

#[test]
fn render_pass_request_checks_subpasses() {
    let req = RenderPassRequest::new(&[SubPass::new()]).unwrap();
    let a = req.attachment();
    assert_eq!(a.format, vk::FORMAT_R8G8B8A8_UNORM);
    assert_eq!(a.load_op, vk::ATTACHMENT_LOAD_OP_DONT_CARE);
    assert_eq!(a.store_op, vk::ATTACHMENT_STORE_OP_STORE);
    assert_eq!(a.initial_layout, vk::IMAGE_LAYOUT_UNDEFINED);
    assert_eq!(a.final_layout, vk::IMAGE_LAYOUT_GENERAL);
    assert_eq!(req.subpasses().len(), 1);
    assert_eq!(
        req.subpasses()[0].color_attachments(),
        &vec![AttachmentRef { attachment: 0, layout: vk::IMAGE_LAYOUT_COLOR_ATTACHMENT_OPTIMAL }]
    );
    assert!(RenderPassRequest::new(&[]).is_err());
    let two = RenderPassRequest::new(&[SubPass::new(), SubPass::default()]).unwrap();
    assert_eq!(two.subpasses().len(), 2);
    assert!(two.subpasses()[1].color_attachments().is_empty());
    assert_eq!(req.created(Err(vk::ERROR_OUT_OF_HOST_MEMORY)).unwrap_err(), GMResult::UnknownError);
}

#[test]
fn pipeline_without_shaders_is_invalid() {
    let image = make_image(16, 16);
    let rp = RenderPass { handle: 4, format: vk::FORMAT_R8G8B8A8_UNORM };
    assert_eq!(rp.create_pipeline(&image, &[]).unwrap_err(), GMResult::InvalidValue);
}

#[test]
fn one_render_pass_two_shaders_one_pipeline() {
    let image = make_image(640, 480);
    let rp = RenderPassRequest::new(&[SubPass::new()]).unwrap().created(Ok(4)).unwrap();
    let shaders = [make_shader(ShaderKind::Vertex, 70), make_shader(ShaderKind::Fragment, 71)];
    let layout_req: PipelineLayoutRequest = rp.create_pipeline(&image, &shaders).unwrap();
    assert_eq!(layout_req.set_layout_count(), 0);
    let req = layout_req.created(Ok(9)).unwrap();
    assert_eq!(req.render_pass(), 4);
    assert_eq!(req.layout(), 9);
    assert_eq!(req.pipeline_count(), 1);
    let stages = req.stages();
    assert_eq!((stages[0].module, stages[0].stage), (70, vk::SHADER_STAGE_VERTEX_BIT));
    assert_eq!((stages[1].module, stages[1].stage), (71, vk::SHADER_STAGE_FRAGMENT_BIT));
    assert_eq!(req.viewport().width, 640);
    assert_eq!(req.scissor().height, 480);
    let fixed = req.fixed_function();
    assert_eq!(fixed.topology, vk::PRIMITIVE_TOPOLOGY_TRIANGLE_LIST);
    assert_eq!(fixed.cull_mode, vk::CULL_MODE_BACK_BIT);
    assert_eq!(fixed.front_face, vk::FRONT_FACE_CLOCKWISE);
    assert_eq!(fixed.color_write_mask, vk::COLOR_COMPONENT_RGBA);
    assert!(!fixed.blend_enable && !fixed.depth_test_enable);
    let pipelines = req.created(Ok(vec![100])).unwrap();
    assert_eq!(pipelines.len(), 1);
    assert_eq!(pipelines[0].handle(), 100);
    assert_eq!(pipelines[0].layout(), 9);
}

#[test]
fn pipeline_failures_release_layout() {
    let image = make_image(8, 8);
    let rp = RenderPass { handle: 4, format: vk::FORMAT_R8G8B8A8_UNORM };
    let shaders = [make_shader(ShaderKind::Vertex, 70)];
    let layout_req = rp.create_pipeline(&image, &shaders).unwrap();
    assert_eq!(layout_req.created(Err(vk::ERROR_INITIALIZATION_FAILED)).unwrap_err(), GMResult::InitializationError);
    let req = rp.create_pipeline(&image, &shaders).unwrap().created(Ok(9)).unwrap();
    let rel = req.created(Err(vk::ERROR_OUT_OF_DEVICE_MEMORY)).unwrap_err();
    assert_eq!(rel.error, GMResult::OutOfMemory);
    assert_eq!(rel.resources, vec![Resource::PipelineLayout(9)]);
    let req = rp.create_pipeline(&image, &shaders).unwrap().created(Ok(9)).unwrap();
    let rel = req.created(Ok(vec![1, 2])).unwrap_err();
    assert_eq!(rel.error, GMResult::UnknownError);
    assert_eq!(rel.resources, vec![Resource::Pipeline(1), Resource::Pipeline(2), Resource::PipelineLayout(9)]);
}

#[test]
fn recorder_setup_releases_pool_on_failure() {
    let queue = Queue::new(5, GPUQueueInfo::new(2, 1));
    let pool_req = CommandPoolRequest::new(&queue);
    assert_eq!(pool_req.queue_family_index, 2);
    assert_eq!(pool_req.flags, vk::COMMAND_POOL_CREATE_RESET_COMMAND_BUFFER_BIT);
    assert_eq!(pool_req.created(Err(vk::ERROR_OUT_OF_HOST_MEMORY)), Err(GMResult::OutOfMemory));
    let buf_req: CommandBufferRequest = pool_req.created(Ok(7)).unwrap();
    assert_eq!((buf_req.command_pool, buf_req.count, buf_req.level), (7, 1, vk::COMMAND_BUFFER_LEVEL_PRIMARY));
    let rel = buf_req.allocated(Err(-13)).unwrap_err();
    assert_eq!(rel.error, GMResult::UnknownError);
    assert_eq!(rel.resources, vec![Resource::CommandPool(7)]);
    let g = buf_req.allocated(Ok(vec![8])).unwrap();
    assert_eq!((g.command_pool(), g.command_buffer(), g.state()), (7, 8, RecorderState::Initial));
    assert_eq!(g.release(), vec![Resource::CommandPool(7)]);
}

#[test]
fn frame_recording_follows_state_machine() {
    let mut g = make_recorder();
    let rp = RenderPass { handle: 4, format: vk::FORMAT_R8G8B8A8_UNORM };
    let fb = gallium::FrameBuffer { handle: 6, width: 640, height: 480 };
    assert_eq!(g.reset(), Command::Reset);
    assert_eq!(g.begin_draw(), Ok(Command::Begin));
    assert_eq!(g.state(), RecorderState::Recording);
    let begin = g.begin_render_pass(&fb, &rp, 640, 480).unwrap();
    match begin {
        Command::BeginRenderPass { render_pass, frame_buffer, area } => {
            assert_eq!((render_pass, frame_buffer), (4, 6));
            assert_eq!((area.x, area.y, area.width, area.height), (0, 0, 640, 480));
        }
        _ => panic!("unexpected command"),
    }
    assert_eq!(g.draw(3, 1, 0, 0), Ok(Command::Draw { vertex_count: 3, instance_count: 1, first_vertex: 0, first_instance: 0 }));
    assert_eq!(g.submission(), Err(GMResult::InvalidValue));
    assert_eq!(g.end_render_pass(), Ok(Command::EndRenderPass));
    assert_eq!(g.end_draw(), Ok(Command::End));
    assert_eq!(g.state(), RecorderState::Ended);
    assert_eq!(g.submission(), Ok(8));
}

#[test]
fn recording_out_of_order_is_refused() {
    let mut g = make_recorder();
    assert_eq!(g.draw(3, 1, 0, 0), Err(GMResult::InvalidValue));
    assert_eq!(g.end_draw(), Err(GMResult::InvalidValue));
    assert_eq!(g.end_render_pass(), Err(GMResult::InvalidValue));
    assert_eq!(g.state(), RecorderState::Initial);
    g.begin_draw().unwrap();
    assert_eq!(g.begin_draw(), Err(GMResult::InvalidValue));
    assert_eq!(g.draw(3, 1, 0, 0), Err(GMResult::InvalidValue));
    assert_eq!(g.state(), RecorderState::Recording);
}

#[test]
fn reset_while_recording_returns_to_initial() {
    let mut g = make_recorder();
    g.begin_draw().unwrap();
    assert_eq!(g.state(), RecorderState::Recording);
    assert_eq!(g.reset(), Command::Reset);
    assert_eq!(g.state(), RecorderState::Initial);
    assert_eq!(g.begin_draw(), Ok(Command::Begin));
}

#[test]
fn spirv_loads_one_word_per_four_bytes() {
    let words = [0x0723_0203u32, 0x0001_0000, 7, 0xdead_beef];
    let spirv = Spirv::new(&spirv_bytes(&words)).unwrap();
    assert_eq!(spirv.word_count(), 4);
    assert_eq!(spirv.words(), &words.to_vec());
    assert_eq!(spirv.code_size(), 16);
}

#[test]
fn spirv_loads_big_endian_files() {
    let words = [0x0723_0203u32, 0x0102_0304];
    let mut bytes = Vec::new();
    for w in &words {
        bytes.extend_from_slice(&w.to_be_bytes());
    }
    let spirv = Spirv::new(&bytes).unwrap();
    assert_eq!(spirv.words(), &words.to_vec());
}

#[test]
fn spirv_refuses_malformed_input() {
    let mut bytes = spirv_bytes(&[0x0723_0203, 1]);
    bytes.push(0);
    assert_eq!(Spirv::new(&bytes).unwrap_err(), GMResult::InvalidValue);
    assert_eq!(Spirv::new(&[]).unwrap_err(), GMResult::InvalidValue);
    assert_eq!(Spirv::new(&spirv_bytes(&[1, 2])).unwrap_err(), GMResult::InvalidValue);
}

#[test]
fn shader_module_outcomes() {
    let s = make_shader(ShaderKind::Fragment, 12);
    assert_eq!((s.handle(), s.kind()), (12, ShaderKind::Fragment));
    assert_eq!(Shader::created(ShaderKind::Vertex, Err(vk::ERROR_OUT_OF_HOST_MEMORY)).unwrap_err(), GMResult::OutOfMemory);
}

#[test]
fn instance_desc_names() {
    let desc = gallium::InstanceDesc::new("Test".to_owned());
    assert_eq!(desc.api_version, vk::API_VERSION_1_0);
    assert_eq!(desc.application_name(), Ok(b"Test\0".to_vec()));
    let bad = gallium::InstanceDesc::new("Te\0st".to_owned());
    assert_eq!(bad.application_name(), Err(GMResult::InvalidValue));
}

#[test]
fn swapchain_negotiation_and_views() {
    let caps = SurfaceCapabilities { min_image_count: 2, max_image_count: 8, current_width: 640, current_height: 480 };
    assert_eq!(SwapchainRequest::negotiate(&[], caps), Err(GMResult::InitializationError));
    let formats = [SurfaceFormat { format: 44, color_space: 0 }, SurfaceFormat { format: 37, color_space: 0 }];
    let req = SwapchainRequest::negotiate(&formats, caps).unwrap();
    assert_eq!((req.min_image_count, req.format.format, req.width, req.height), (2, 44, 640, 480));

    let views = SwapchainViews::new(44);
    assert_eq!(views.request(3).format, 44);
    let views = views.add(Ok(30)).unwrap().add(Ok(31)).unwrap();
    let rel = views.add(Err(vk::ERROR_OUT_OF_HOST_MEMORY)).unwrap_err();
    assert_eq!(rel.error, GMResult::UnknownError);
    assert_eq!(rel.resources, vec![Resource::ImageView(30), Resource::ImageView(31)]);
    let done = SwapchainViews::new(44).add(Ok(30)).unwrap().finish();
    assert_eq!(done.len(), 1);
    assert_eq!((done[0].handle, done[0].format), (30, 44));
}
