use ash::vk;
use vulkan_renderer::context::{DrawCommands, DrawError, SetupError, SetupPhase, VertexBuffer, VulkanInstance, FENCE_CREATE_SIGNALED};
use vulkan_renderer::frame::{FrameAction, FrameEvent, FramePhase};
use vulkan_renderer::device::{DeviceError, DeviceProfile, QueueFamily};
use vulkan_renderer::frame::MAX_FRAMES_IN_FLIGHT;
use vulkan_renderer::pipeline::{
    attribute_descriptions, binding_description, fixed_function_state, render_pass_description, VertexAttribute,
    ACCESS_COLOR_ATTACHMENT_READ, ACCESS_COLOR_ATTACHMENT_WRITE, COLOR_COMPONENTS_RGBA, CULL_MODE_BACK,
    FORMAT_D32_SFLOAT, FORMAT_R32G32B32_SFLOAT, FRONT_FACE_CLOCKWISE, INPUT_RATE_VERTEX, LAYOUT_PRESENT_SRC,
    LOAD_OP_CLEAR, POLYGON_MODE_FILL, SAMPLE_COUNT_1, STAGE_COLOR_ATTACHMENT_OUTPUT, STORE_OP_DONT_CARE,
    STORE_OP_STORE, SUBPASS_EXTERNAL, TOPOLOGY_TRIANGLE_LIST,
};
use vulkan_renderer::resources::{GraphicsPipeline, VulkanResources};
use vulkan_renderer::surface::Extent2D;
use vulkan_renderer::swapchain::{Swapchain, SwapchainError};

fn gpu() -> DeviceProfile {
    DeviceProfile {
        device_type: vk::PhysicalDeviceType::DISCRETE_GPU.as_raw(),
        geometry_shader: true,
        queue_families: vec![QueueFamily { queue_flags: vk::QueueFlags::GRAPHICS.as_raw(), presentation: Some(true) }],
    }
}

fn swapchain(images: usize) -> Swapchain {
    let handles: Vec<u64> = (0..images as u64).map(|i| 100 + i).collect();
    let views: Vec<u64> = (0..images as u64).map(|i| 200 + i).collect();
    Swapchain::new(9, vk::Format::B8G8R8A8_SRGB.as_raw(), Extent2D { width: 800, height: 600 }, handles, views).unwrap()
}

fn ready_to_frame() -> VulkanInstance {
    let mut inst = VulkanInstance::new();
    inst.create_surface(1).unwrap();
    inst.configure_hardware(&vec![gpu()], false).unwrap();
    inst.create_logical_device(2, 3).unwrap();
    inst.create_swapchain(swapchain(3)).unwrap();
    inst.create_render_pass(4).unwrap();
    inst.create_framebuffers(vec![Some(300), Some(301), Some(302)]).unwrap();
    inst.allocate_resources(5, 10).unwrap();
    inst.create_command_pool(6).unwrap();
    inst.allocate_command_buffers(vec![400, 401, 402]).unwrap();
    inst
}

#[test]
fn pipeline_raw_values_match_the_api() {
    assert_eq!(FORMAT_R32G32B32_SFLOAT, vk::Format::R32G32B32_SFLOAT.as_raw());
    assert_eq!(FORMAT_D32_SFLOAT, vk::Format::D32_SFLOAT.as_raw());
    assert_eq!(SAMPLE_COUNT_1, vk::SampleCountFlags::TYPE_1.as_raw());
    assert_eq!(LOAD_OP_CLEAR, vk::AttachmentLoadOp::CLEAR.as_raw());
    assert_eq!(STORE_OP_STORE, vk::AttachmentStoreOp::STORE.as_raw());
    assert_eq!(STORE_OP_DONT_CARE, vk::AttachmentStoreOp::DONT_CARE.as_raw());
    assert_eq!(LAYOUT_PRESENT_SRC, vk::ImageLayout::PRESENT_SRC_KHR.as_raw());
    assert_eq!(SUBPASS_EXTERNAL, vk::SUBPASS_EXTERNAL);
    assert_eq!(STAGE_COLOR_ATTACHMENT_OUTPUT, vk::PipelineStageFlags::COLOR_ATTACHMENT_OUTPUT.as_raw());
    assert_eq!(ACCESS_COLOR_ATTACHMENT_READ, vk::AccessFlags::COLOR_ATTACHMENT_READ.as_raw());
    assert_eq!(ACCESS_COLOR_ATTACHMENT_WRITE, vk::AccessFlags::COLOR_ATTACHMENT_WRITE.as_raw());
    assert_eq!(TOPOLOGY_TRIANGLE_LIST, vk::PrimitiveTopology::TRIANGLE_LIST.as_raw());
    assert_eq!(POLYGON_MODE_FILL, vk::PolygonMode::FILL.as_raw());
    assert_eq!(CULL_MODE_BACK, vk::CullModeFlags::BACK.as_raw());
    assert_eq!(FRONT_FACE_CLOCKWISE, vk::FrontFace::CLOCKWISE.as_raw());
    assert_eq!(COLOR_COMPONENTS_RGBA, vk::ColorComponentFlags::RGBA.as_raw());
    assert_eq!(INPUT_RATE_VERTEX, vk::VertexInputRate::VERTEX.as_raw());
}

#[test]
fn render_pass_with_and_without_depth() {
    let color = vk::Format::B8G8R8A8_SRGB.as_raw();
    let plain = render_pass_description(color, false);
    assert_eq!(plain.attachments.len(), 1);
    assert_eq!(plain.attachments[0].format, color);
    assert_eq!(plain.attachments[0].final_layout, LAYOUT_PRESENT_SRC);
    assert!(plain.depth_reference.is_none());
    assert_eq!(plain.dependency.src_subpass, SUBPASS_EXTERNAL);
    assert_eq!(plain.dependency.dst_subpass, 0);
    let depth = render_pass_description(color, true);
    assert_eq!(depth.attachments.len(), 2);
    assert_eq!(depth.attachments[1].format, FORMAT_D32_SFLOAT);
    assert_eq!(depth.attachments[1].store_op, STORE_OP_DONT_CARE);
    assert_eq!(depth.depth_reference.unwrap().attachment, 1);
}

#[test]
fn vertex_input_and_fixed_state() {
    let binding = binding_description();
    assert_eq!(binding.stride, 24);
    assert_eq!(binding.binding, 0);
    assert_eq!(
        attribute_descriptions(),
        vec![
            VertexAttribute { location: 0, binding: 0, format: FORMAT_R32G32B32_SFLOAT, offset: 0 },
            VertexAttribute { location: 1, binding: 0, format: FORMAT_R32G32B32_SFLOAT, offset: 12 },
        ]
    );
    let state = fixed_function_state(Extent2D { width: 800, height: 600 });
    assert_eq!(state.extent, Extent2D { width: 800, height: 600 });
    assert_eq!(state.cull_mode, CULL_MODE_BACK);
    assert!(!state.blend_enable);
}

#[test]
fn setup_steps_in_order() {
    let mut inst = ready_to_frame();
    assert_eq!(inst.phase(), SetupPhase::CommandBuffersReady);
    assert_eq!(inst.graphics_queue_family_index(), Some(0));
    assert_eq!(inst.render_pass(), Some(4));
    assert_eq!(inst.command_buffer_count(), Some(3));
    let sc = inst.swapchain().unwrap();
    assert_eq!(sc.image_count(), 3);
    assert_eq!(sc.framebuffer(2), Some(302));
    assert_eq!(sc.image_view(1), 201);
    assert_eq!(inst.frame_objects(0), None);
    inst.create_synchronization_objects(vec![10, 11], vec![20, 21], vec![30, 31]).unwrap();
    assert_eq!(inst.phase(), SetupPhase::FrameLoopReady);
    assert_eq!(inst.frame_objects(1), Some((11, 21, 31)));
    assert_eq!(inst.frame_objects(MAX_FRAMES_IN_FLIGHT), None);
}

#[test]
fn frame_sync_built_for_the_swapchain() {
    let mut inst = ready_to_frame();
    assert!(inst.frame_sync().is_none());
    inst.create_synchronization_objects(vec![10, 11], vec![20, 21], vec![30, 31]).unwrap();
    let mut sync = inst.frame_sync().unwrap();
    assert_eq!(sync.phase(), FramePhase::Idle);
    assert_eq!(sync.current_frame(), 0);
    assert_eq!(sync.get_image_in_flight(2), None);
    assert_eq!(sync.step(FrameEvent::BeginFrame), Ok(FrameAction::AcquireImage { frame: 0 }));
    assert_eq!(FENCE_CREATE_SIGNALED, vk::FenceCreateFlags::SIGNALED.as_raw());
}

#[test]
fn out_of_order_step_refused() {
    let mut inst = VulkanInstance::new();
    assert_eq!(inst.create_logical_device(2, 3), Err(SetupError::OutOfOrder));
    assert_eq!(inst.create_render_pass(4), Err(SetupError::OutOfOrder));
    inst.create_surface(1).unwrap();
    assert_eq!(inst.create_surface(1), Err(SetupError::OutOfOrder));
    assert_eq!(inst.phase(), SetupPhase::SurfaceBound);
    assert_eq!(inst.graphics_queue_family_index(), None);
}

#[test]
fn no_compatible_device_is_fatal() {
    let mut inst = VulkanInstance::new();
    inst.create_surface(1).unwrap();
    let mut weak = gpu();
    weak.geometry_shader = false;
    assert_eq!(
        inst.configure_hardware(&vec![weak], false),
        Err(SetupError::Device(DeviceError::NoCompatibleDevice))
    );
    let mut no_present = gpu();
    no_present.queue_families[0].presentation = Some(false);
    assert_eq!(
        inst.configure_hardware(&vec![no_present], false),
        Err(SetupError::Device(DeviceError::NoSuitableQueueFamilies))
    );
    assert_eq!(inst.phase(), SetupPhase::SurfaceBound);
}

#[test]
fn framebuffers_all_or_nothing() {
    let mut sc = swapchain(3);
    assert_eq!(sc.create_framebuffers(vec![Some(1), Some(2)]), Err(SwapchainError::CountMismatch));
    assert_eq!(
        sc.create_framebuffers(vec![Some(1), None, None]),
        Err(SwapchainError::FramebufferCreationFailed { index: 1 })
    );
    assert_eq!(sc.framebuffer(0), None);
    assert_eq!(sc.create_framebuffers(vec![Some(1), Some(2), Some(3)]), Ok(()));
    assert_eq!(sc.framebuffer(0), Some(1));
}

#[test]
fn views_images_framebuffers_counts_agree() {
    let inst = ready_to_frame();
    let sc = inst.swapchain().unwrap();
    assert_eq!(sc.image_count(), inst.command_buffer_count().unwrap());
    assert!(Swapchain::new(1, 0, Extent2D { width: 1, height: 1 }, vec![1, 2], vec![3]).is_err());
    let mut partial = VulkanInstance::new();
    partial.create_surface(1).unwrap();
    partial.configure_hardware(&vec![gpu()], false).unwrap();
    partial.create_logical_device(2, 3).unwrap();
    partial.create_swapchain(swapchain(2)).unwrap();
    partial.create_render_pass(4).unwrap();
    assert_eq!(
        partial.create_framebuffers(vec![Some(1), None]),
        Err(SetupError::Swapchain(SwapchainError::FramebufferCreationFailed { index: 1 }))
    );
    assert_eq!(partial.phase(), SetupPhase::RenderPassReady);
    assert_eq!(partial.allocate_resources(5, 1), Err(SetupError::OutOfOrder));
}

#[test]
fn command_buffer_count_must_match_images() {
    let mut inst = VulkanInstance::new();
    inst.create_surface(1).unwrap();
    inst.configure_hardware(&vec![gpu()], false).unwrap();
    inst.create_logical_device(2, 3).unwrap();
    inst.create_swapchain(swapchain(2)).unwrap();
    inst.create_render_pass(4).unwrap();
    inst.create_framebuffers(vec![Some(1), Some(2)]).unwrap();
    inst.allocate_resources(5, 1).unwrap();
    inst.create_command_pool(6).unwrap();
    assert_eq!(inst.allocate_command_buffers(vec![1]), Err(SetupError::CountMismatch));
    inst.allocate_command_buffers(vec![1, 2]).unwrap();
    assert_eq!(inst.create_synchronization_objects(vec![1], vec![2], vec![3]), Err(SetupError::CountMismatch));
}

#[test]
fn draw_commands_planned_for_image() {
    let inst = ready_to_frame();
    let mut res = VulkanResources::new(5, 10);
    let vb = VertexBuffer { buffer: 500, memory: 501, vertex_count: 3 };
    assert_eq!(inst.record_command_buffer(&res, "PRIMARY", 1, vb), Err(DrawError::UnknownPipeline));
    res.create_graphics_pipeline("PRIMARY", GraphicsPipeline { pipeline: 600, pipeline_layout: 601, shader_modules: vec![] });
    assert_eq!(
        inst.record_command_buffer(&res, "PRIMARY", 1, vb),
        Ok(DrawCommands {
            command_buffer: 401,
            render_pass: 4,
            framebuffer: 301,
            extent: Extent2D { width: 800, height: 600 },
            pipeline: 600,
            vertex_buffer: 500,
            vertex_offset: 0,
            vertex_count: 3,
            instance_count: 1,
        })
    );
    assert_eq!(inst.record_command_buffer(&res, "PRIMARY", 3, vb), Err(DrawError::ImageOutOfRange));
    assert_eq!(VulkanInstance::new().record_command_buffer(&res, "PRIMARY", 0, vb), Err(DrawError::NotReady));
}
