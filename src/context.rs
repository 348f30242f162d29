//! The bring-up sequence as an explicit phase progression. Each step takes
//! what the device handed back for it and is refused, with nothing changed,
//! unless every step before it has been taken.
use vstd::prelude::*;
use crate::device::{DeviceError, DeviceProfile, compatible, queue_indices_spec, select_physical_device, identify_required_queue_family_indices};
use crate::frame::{FrameSync, FramePhase, MAX_FRAMES_IN_FLIGHT};
use crate::resources::VulkanResources;
use crate::surface::Extent2D;
use crate::swapchain::{Swapchain, SwapchainError};

verus! {

/// Raw `VK_FENCE_CREATE_SIGNALED_BIT`: the in-flight fences are created
/// signaled, so that the first wait on each completes before its first reset.
pub const FENCE_CREATE_SIGNALED: u32 = 0x1;

/// How far bring-up has come.
#[derive(Clone, Copy, Debug, PartialEq, Eq, Structural)]
pub enum SetupPhase {
    InstanceReady,
    SurfaceBound,
    HardwareConfigured,
    DeviceReady,
    SwapchainReady,
    RenderPassReady,
    FramebuffersReady,
    ResourcesReady,
    CommandPoolReady,
    CommandBuffersReady,
    FrameLoopReady,
}

/// Why a bring-up step was refused; nothing changed.
#[derive(Clone, Copy, Debug, PartialEq, Eq, Structural)]
pub enum SetupError {
    /// The step does not follow the steps taken so far.
    OutOfOrder,
    /// Device or queue selection failed.
    Device(DeviceError),
    /// The swapchain's framebuffers were refused.
    Swapchain(SwapchainError),
    /// A list of objects does not have the length the step needs.
    CountMismatch,
}

/// The physical device and queue families chosen.
#[derive(Clone, Copy, Debug, PartialEq, Eq, Structural)]
pub struct HardwareChoice {
    pub physical_device: usize,
    pub graphics_family: u32,
    pub present_family: u32,
}

/// A vertex buffer and the memory bound to it.
#[derive(Clone, Copy, Debug, PartialEq, Eq, Structural)]
pub struct VertexBuffer {
    pub buffer: u64,
    pub memory: u64,
    pub vertex_count: u32,
}

/// The commands recorded for one swapchain image: begin the render pass on
/// the image's framebuffer over the whole extent, bind the pipeline, bind
/// the vertex buffer at `vertex_offset`, draw, end the render pass.
#[derive(Clone, Copy, Debug, PartialEq, Eq, Structural)]
pub struct DrawCommands {
    pub command_buffer: u64,
    pub render_pass: u64,
    pub framebuffer: u64,
    pub extent: Extent2D,
    pub pipeline: u64,
    pub vertex_buffer: u64,
    pub vertex_offset: u64,
    pub vertex_count: u32,
    pub instance_count: u32,
}

/// Why no commands could be planned.
#[derive(Clone, Copy, Debug, PartialEq, Eq, Structural)]
pub enum DrawError {
    /// Command buffers have not been allocated yet.
    NotReady,
    /// The image index is not one of the swapchain's.
    ImageOutOfRange,
    /// No pipeline is registered under the identifier.
    UnknownPipeline,
}

/// The position of a phase in the progression.
pub open spec fn rank(p: SetupPhase) -> int {
    match p {
        SetupPhase::InstanceReady => 0,
        SetupPhase::SurfaceBound => 1,
        SetupPhase::HardwareConfigured => 2,
        SetupPhase::DeviceReady => 3,
        SetupPhase::SwapchainReady => 4,
        SetupPhase::RenderPassReady => 5,
        SetupPhase::FramebuffersReady => 6,
        SetupPhase::ResourcesReady => 7,
        SetupPhase::CommandPoolReady => 8,
        SetupPhase::CommandBuffersReady => 9,
        SetupPhase::FrameLoopReady => 10,
    }
}

/// The abstract state of bring-up.
pub struct InstanceView {
    pub phase: SetupPhase,
    pub surface: u64,
    pub hardware: HardwareChoice,
    pub device: u64,
    pub graphics_queue: u64,
    pub swapchain: Option<Swapchain>,
    pub render_pass: u64,
    pub descriptor_pool: u64,
    pub max_sets: u32,
    pub command_pool: u64,
    pub command_buffers: Seq<u64>,
    pub image_available: Seq<u64>,
    pub render_complete: Seq<u64>,
    pub in_flight_fences: Seq<u64>,
}

/// The plain-value state of the renderer's bring-up: every handle that the
/// device handed back, and the phase reached.
pub struct VulkanInstance {
    phase: SetupPhase,
    surface: u64,
    hardware: HardwareChoice,
    device: u64,
    graphics_queue: u64,
    swapchain: Option<Swapchain>,
    render_pass: u64,
    descriptor_pool: u64,
    max_sets: u32,
    command_pool: u64,
    command_buffers: Vec<u64>,
    image_available: Vec<u64>,
    render_complete: Vec<u64>,
    in_flight_fences: Vec<u64>,
}

impl View for VulkanInstance {
    type V = InstanceView;

    closed spec fn view(&self) -> InstanceView {
        InstanceView {
            phase: self.phase,
            surface: self.surface,
            hardware: self.hardware,
            device: self.device,
            graphics_queue: self.graphics_queue,
            swapchain: self.swapchain,
            render_pass: self.render_pass,
            descriptor_pool: self.descriptor_pool,
            max_sets: self.max_sets,
            command_pool: self.command_pool,
            command_buffers: self.command_buffers@,
            image_available: self.image_available@,
            render_complete: self.render_complete@,
            in_flight_fences: self.in_flight_fences@,
        }
    }
}

impl InstanceView {
    /// Each phase has what its steps produced: a swapchain from its phase
    /// on, a framebuffer per image from theirs on, a command buffer per image
    /// and a full set of synchronization objects once those are made.
    pub open spec fn wf(self) -> bool {
        &&& (rank(self.phase) >= 4 <==> self.swapchain is Some)
        &&& (self.swapchain matches Some(s) ==> s.wf())
        &&& (rank(self.phase) >= 6 ==> self.swapchain.unwrap().complete())
        &&& (rank(self.phase) >= 9 ==> self.command_buffers.len() == self.swapchain.unwrap().spec_images().len())
        &&& (rank(self.phase) >= 10 ==> {
            &&& self.image_available.len() == MAX_FRAMES_IN_FLIGHT
            &&& self.render_complete.len() == MAX_FRAMES_IN_FLIGHT
            &&& self.in_flight_fences.len() == MAX_FRAMES_IN_FLIGHT
        })
    }
}

/// Once the framebuffers are built, and in every later phase, the swapchain
/// has as many views and as many framebuffers as images.
pub proof fn lemma_counts_agree(v: InstanceView)
    requires
        v.wf(),
        rank(v.phase) >= rank(SetupPhase::FramebuffersReady),
    ensures
        v.swapchain.unwrap().spec_image_views().len() == v.swapchain.unwrap().spec_images().len(),
        v.swapchain.unwrap().spec_framebuffers().len() == v.swapchain.unwrap().spec_images().len(),
{
}

impl VulkanInstance {
    pub open spec fn wf(&self) -> bool {
        self@.wf()
    }

    /// Bring-up state for a freshly created instance.
    pub fn new() -> (r: VulkanInstance)
        ensures
            r.wf(),
            r@.phase == SetupPhase::InstanceReady,
            r@.swapchain is None,
            r@.command_buffers == Seq::<u64>::empty(),
            r@.image_available == Seq::<u64>::empty(),
            r@.render_complete == Seq::<u64>::empty(),
            r@.in_flight_fences == Seq::<u64>::empty(),
    {
        VulkanInstance {
            phase: SetupPhase::InstanceReady,
            surface: 0,
            hardware: HardwareChoice { physical_device: 0, graphics_family: 0, present_family: 0 },
            device: 0,
            graphics_queue: 0,
            swapchain: None,
            render_pass: 0,
            descriptor_pool: 0,
            max_sets: 0,
            command_pool: 0,
            command_buffers: Vec::new(),
            image_available: Vec::new(),
            render_complete: Vec::new(),
            in_flight_fences: Vec::new(),
        }
    }

    /// The phase reached.
    pub fn phase(&self) -> (r: SetupPhase)
        ensures
            r == self@.phase,
    {
        self.phase
    }

    /// Binds the presentation surface.
    pub fn create_surface(&mut self, surface: u64) -> (r: Result<(), SetupError>)
        requires
            old(self).wf(),
        ensures
            final(self).wf(),
            r is Ok <==> old(self)@.phase == SetupPhase::InstanceReady,
            r is Ok ==> final(self)@ == (InstanceView { phase: SetupPhase::SurfaceBound, surface, ..old(self)@ }),
            r is Err ==> final(self)@ == old(self)@ && r == Err::<(), SetupError>(SetupError::OutOfOrder),
    {
        if self.phase != SetupPhase::InstanceReady {
            return Err(SetupError::OutOfOrder);
        }
        self.phase = SetupPhase::SurfaceBound;
        self.surface = surface;
        Ok(())
    }

    /// Selects the first compatible physical device and its graphics and
    /// presentation queue families.
    pub fn configure_hardware(&mut self, devices: &Vec<DeviceProfile>, require_discrete: bool) -> (r: Result<HardwareChoice, SetupError>)
        requires
            old(self).wf(),
            forall|i: int| 0 <= i < devices@.len() ==> (#[trigger] devices@[i]).queue_families@.len() <= u32::MAX,
        ensures
            final(self).wf(),
            old(self)@.phase != SetupPhase::SurfaceBound ==> r == Err::<HardwareChoice, SetupError>(SetupError::OutOfOrder),
            old(self)@.phase == SetupPhase::SurfaceBound ==> {
                &&& (r == Err::<HardwareChoice, SetupError>(SetupError::Device(DeviceError::NoCompatibleDevice))
                    <==> forall|j: int| 0 <= j < devices@.len() ==> !compatible(#[trigger] devices@[j], require_discrete))
                &&& r matches Ok(c) ==> {
                    &&& c.physical_device < devices@.len()
                    &&& compatible(devices@[c.physical_device as int], require_discrete)
                    &&& forall|j: int| 0 <= j < c.physical_device ==> !compatible(#[trigger] devices@[j], require_discrete)
                    &&& queue_indices_spec(devices@[c.physical_device as int].queue_families@)
                        == Some((c.graphics_family, c.present_family))
                }
                &&& r == Err::<HardwareChoice, SetupError>(SetupError::Device(DeviceError::NoSuitableQueueFamilies))
                    ==> exists|i: int| 0 <= i < devices@.len() && compatible(devices@[i], require_discrete)
                        && (forall|j: int| 0 <= j < i ==> !compatible(#[trigger] devices@[j], require_discrete))
                        && queue_indices_spec(devices@[i].queue_families@) is None
                &&& r is Ok || r == Err::<HardwareChoice, SetupError>(SetupError::Device(DeviceError::NoCompatibleDevice))
                    || r == Err::<HardwareChoice, SetupError>(SetupError::Device(DeviceError::NoSuitableQueueFamilies))
            },
            r matches Ok(c) ==> final(self)@ == (InstanceView { phase: SetupPhase::HardwareConfigured, hardware: c, ..old(self)@ }),
            r is Err ==> final(self)@ == old(self)@,
    {
        if self.phase != SetupPhase::SurfaceBound {
            return Err(SetupError::OutOfOrder);
        }
        let index = match select_physical_device(devices, require_discrete) {
            Ok(i) => i,
            Err(e) => return Err(SetupError::Device(e)),
        };
        match identify_required_queue_family_indices(&devices[index].queue_families) {
            Some((graphics_family, present_family)) => {
                let choice = HardwareChoice { physical_device: index, graphics_family, present_family };
                self.phase = SetupPhase::HardwareConfigured;
                self.hardware = choice;
                Ok(choice)
            },
            None => Err(SetupError::Device(DeviceError::NoSuitableQueueFamilies)),
        }
    }

    /// The queue family the logical device's single queue comes from.
    pub fn graphics_queue_family_index(&self) -> (r: Option<u32>)
        ensures
            r is Some <==> rank(self@.phase) >= 2,
            r matches Some(i) ==> i == self@.hardware.graphics_family,
    {
        if self.phase == SetupPhase::InstanceReady || self.phase == SetupPhase::SurfaceBound {
            None
        } else {
            Some(self.hardware.graphics_family)
        }
    }

    /// Records the logical device and its graphics queue.
    pub fn create_logical_device(&mut self, device: u64, graphics_queue: u64) -> (r: Result<(), SetupError>)
        requires
            old(self).wf(),
        ensures
            final(self).wf(),
            r is Ok <==> old(self)@.phase == SetupPhase::HardwareConfigured,
            r is Ok ==> final(self)@ == (InstanceView { phase: SetupPhase::DeviceReady, device, graphics_queue, ..old(self)@ }),
            r is Err ==> final(self)@ == old(self)@ && r == Err::<(), SetupError>(SetupError::OutOfOrder),
    {
        if self.phase != SetupPhase::HardwareConfigured {
            return Err(SetupError::OutOfOrder);
        }
        self.phase = SetupPhase::DeviceReady;
        self.device = device;
        self.graphics_queue = graphics_queue;
        Ok(())
    }

    /// Records the swapchain with its images and views.
    pub fn create_swapchain(&mut self, swapchain: Swapchain) -> (r: Result<(), SetupError>)
        requires
            old(self).wf(),
            swapchain.wf(),
        ensures
            final(self).wf(),
            r is Ok <==> old(self)@.phase == SetupPhase::DeviceReady,
            r is Ok ==> final(self)@ == (InstanceView { phase: SetupPhase::SwapchainReady, swapchain: Some(swapchain), ..old(self)@ }),
            r is Err ==> final(self)@ == old(self)@ && r == Err::<(), SetupError>(SetupError::OutOfOrder),
    {
        if self.phase != SetupPhase::DeviceReady {
            return Err(SetupError::OutOfOrder);
        }
        self.phase = SetupPhase::SwapchainReady;
        self.swapchain = Some(swapchain);
        Ok(())
    }

    /// The swapchain, once created.
    pub fn swapchain(&self) -> (r: Option<&Swapchain>)
        ensures
            r matches Some(s) ==> self@.swapchain == Some(*s),
            r is None ==> self@.swapchain is None,
    {
        match &self.swapchain {
            Some(s) => Some(s),
            None => None,
        }
    }

    /// Records the render pass.
    pub fn create_render_pass(&mut self, render_pass: u64) -> (r: Result<(), SetupError>)
        requires
            old(self).wf(),
        ensures
            final(self).wf(),
            r is Ok <==> old(self)@.phase == SetupPhase::SwapchainReady,
            r is Ok ==> final(self)@ == (InstanceView { phase: SetupPhase::RenderPassReady, render_pass, ..old(self)@ }),
            r is Err ==> final(self)@ == old(self)@ && r == Err::<(), SetupError>(SetupError::OutOfOrder),
    {
        if self.phase != SetupPhase::SwapchainReady {
            return Err(SetupError::OutOfOrder);
        }
        self.phase = SetupPhase::RenderPassReady;
        self.render_pass = render_pass;
        Ok(())
    }

    /// The render pass, once created.
    pub fn render_pass(&self) -> (r: Option<u64>)
        ensures
            r is Some <==> rank(self@.phase) >= 5,
            r matches Some(h) ==> h == self@.render_pass,
    {
        match self.phase {
            SetupPhase::InstanceReady | SetupPhase::SurfaceBound | SetupPhase::HardwareConfigured
            | SetupPhase::DeviceReady | SetupPhase::SwapchainReady => None,
            _ => Some(self.render_pass),
        }
    }

    /// Takes the framebuffers made for the swapchain's views: one per image,
    /// or the step is refused.
    pub fn create_framebuffers(&mut self, framebuffers: Vec<Option<u64>>) -> (r: Result<(), SetupError>)
        requires
            old(self).wf(),
        ensures
            final(self).wf(),
            old(self)@.phase != SetupPhase::RenderPassReady ==> r == Err::<(), SetupError>(SetupError::OutOfOrder),
            old(self)@.phase == SetupPhase::RenderPassReady ==> (r is Ok <==> {
                &&& framebuffers@.len() == old(self)@.swapchain.unwrap().spec_images().len()
                &&& forall|i: int| 0 <= i < framebuffers@.len() ==> #[trigger] framebuffers@[i] is Some
            }),
            r is Ok ==> {
                let s = final(self)@.swapchain.unwrap();
                &&& final(self)@ == (InstanceView { phase: SetupPhase::FramebuffersReady, swapchain: Some(s), ..old(self)@ })
                &&& s.complete()
                &&& s.spec_images() == old(self)@.swapchain.unwrap().spec_images()
                &&& s.spec_image_views() == old(self)@.swapchain.unwrap().spec_image_views()
                &&& forall|i: int| 0 <= i < framebuffers@.len() ==> framebuffers@[i] == Some(#[trigger] s.spec_framebuffers()[i])
            },
            r is Err ==> final(self)@ == old(self)@,
    {
        if self.phase != SetupPhase::RenderPassReady {
            return Err(SetupError::OutOfOrder);
        }
        let mut swapchain = self.swapchain.take().unwrap();
        let result = swapchain.create_framebuffers(framebuffers);
        match result {
            Ok(()) => {
                self.swapchain = Some(swapchain);
                self.phase = SetupPhase::FramebuffersReady;
                Ok(())
            },
            Err(e) => {
                self.swapchain = Some(swapchain);
                Err(SetupError::Swapchain(e))
            },
        }
    }

    /// Records the shared descriptor pool made for `max_sets` sets.
    pub fn allocate_resources(&mut self, descriptor_pool: u64, max_sets: u32) -> (r: Result<(), SetupError>)
        requires
            old(self).wf(),
        ensures
            final(self).wf(),
            r is Ok <==> old(self)@.phase == SetupPhase::FramebuffersReady,
            r is Ok ==> final(self)@ == (InstanceView { phase: SetupPhase::ResourcesReady, descriptor_pool, max_sets, ..old(self)@ }),
            r is Err ==> final(self)@ == old(self)@ && r == Err::<(), SetupError>(SetupError::OutOfOrder),
    {
        if self.phase != SetupPhase::FramebuffersReady {
            return Err(SetupError::OutOfOrder);
        }
        self.phase = SetupPhase::ResourcesReady;
        self.descriptor_pool = descriptor_pool;
        self.max_sets = max_sets;
        Ok(())
    }

    /// Records the command pool.
    pub fn create_command_pool(&mut self, command_pool: u64) -> (r: Result<(), SetupError>)
        requires
            old(self).wf(),
        ensures
            final(self).wf(),
            r is Ok <==> old(self)@.phase == SetupPhase::ResourcesReady,
            r is Ok ==> final(self)@ == (InstanceView { phase: SetupPhase::CommandPoolReady, command_pool, ..old(self)@ }),
            r is Err ==> final(self)@ == old(self)@ && r == Err::<(), SetupError>(SetupError::OutOfOrder),
    {
        if self.phase != SetupPhase::ResourcesReady {
            return Err(SetupError::OutOfOrder);
        }
        self.phase = SetupPhase::CommandPoolReady;
        self.command_pool = command_pool;
        Ok(())
    }

    /// The number of command buffers to allocate: one per swapchain image.
    pub fn command_buffer_count(&self) -> (r: Option<usize>)
        requires
            self.wf(),
        ensures
            r is Some <==> self@.swapchain is Some,
            r matches Some(n) ==> n == self@.swapchain.unwrap().spec_images().len(),
    {
        match &self.swapchain {
            Some(s) => Some(s.image_count()),
            None => None,
        }
    }

    /// Records the command buffers, one per swapchain image.
    pub fn allocate_command_buffers(&mut self, command_buffers: Vec<u64>) -> (r: Result<(), SetupError>)
        requires
            old(self).wf(),
        ensures
            final(self).wf(),
            old(self)@.phase != SetupPhase::CommandPoolReady ==> r == Err::<(), SetupError>(SetupError::OutOfOrder),
            old(self)@.phase == SetupPhase::CommandPoolReady
                && command_buffers@.len() != old(self)@.swapchain.unwrap().spec_images().len()
                ==> r == Err::<(), SetupError>(SetupError::CountMismatch),
            r is Ok <==> old(self)@.phase == SetupPhase::CommandPoolReady
                && command_buffers@.len() == old(self)@.swapchain.unwrap().spec_images().len(),
            r is Ok ==> final(self)@ == (InstanceView {
                phase: SetupPhase::CommandBuffersReady,
                command_buffers: command_buffers@,
                ..old(self)@
            }),
            r is Err ==> final(self)@ == old(self)@,
    {
        if self.phase != SetupPhase::CommandPoolReady {
            return Err(SetupError::OutOfOrder);
        }
        let count = match &self.swapchain {
            Some(s) => s.image_count(),
            None => return Err(SetupError::OutOfOrder),
        };
        if command_buffers.len() != count {
            return Err(SetupError::CountMismatch);
        }
        self.phase = SetupPhase::CommandBuffersReady;
        self.command_buffers = command_buffers;
        Ok(())
    }

    /// Records one image-available semaphore, one render-complete semaphore
    /// and one fence per frame slot.
    pub fn create_synchronization_objects(&mut self, image_available: Vec<u64>, render_complete: Vec<u64>, in_flight_fences: Vec<u64>) -> (r: Result<(), SetupError>)
        requires
            old(self).wf(),
        ensures
            final(self).wf(),
            old(self)@.phase != SetupPhase::CommandBuffersReady ==> r == Err::<(), SetupError>(SetupError::OutOfOrder),
            r is Ok <==> old(self)@.phase == SetupPhase::CommandBuffersReady
                && image_available@.len() == MAX_FRAMES_IN_FLIGHT
                && render_complete@.len() == MAX_FRAMES_IN_FLIGHT
                && in_flight_fences@.len() == MAX_FRAMES_IN_FLIGHT,
            old(self)@.phase == SetupPhase::CommandBuffersReady && r is Err
                ==> r == Err::<(), SetupError>(SetupError::CountMismatch),
            r is Ok ==> final(self)@ == (InstanceView {
                phase: SetupPhase::FrameLoopReady,
                image_available: image_available@,
                render_complete: render_complete@,
                in_flight_fences: in_flight_fences@,
                ..old(self)@
            }),
            r is Err ==> final(self)@ == old(self)@,
    {
        if self.phase != SetupPhase::CommandBuffersReady {
            return Err(SetupError::OutOfOrder);
        }
        if image_available.len() != MAX_FRAMES_IN_FLIGHT || render_complete.len() != MAX_FRAMES_IN_FLIGHT
            || in_flight_fences.len() != MAX_FRAMES_IN_FLIGHT {
            return Err(SetupError::CountMismatch);
        }
        self.phase = SetupPhase::FrameLoopReady;
        self.image_available = image_available;
        self.render_complete = render_complete;
        self.in_flight_fences = in_flight_fences;
        Ok(())
    }
}

impl VulkanInstance {
    /// The semaphores and fence of frame slot `frame`: image available,
    /// render complete, in flight.
    pub fn frame_objects(&self, frame: usize) -> (r: Option<(u64, u64, u64)>)
        requires
            self.wf(),
        ensures
            r is Some <==> self@.phase == SetupPhase::FrameLoopReady && frame < MAX_FRAMES_IN_FLIGHT,
            r matches Some((a, c, f)) ==> a == self@.image_available[frame as int]
                && c == self@.render_complete[frame as int] && f == self@.in_flight_fences[frame as int],
    {
        if self.phase != SetupPhase::FrameLoopReady || frame >= MAX_FRAMES_IN_FLIGHT {
            return None;
        }
        Some((self.image_available[frame], self.render_complete[frame], self.in_flight_fences[frame]))
    }

    /// The frame synchronizer for the recorded swapchain: one slot per set
    /// of synchronization objects, one guard entry per swapchain image, every
    /// fence signaled (as created), slot 0 first.
    pub fn frame_sync(&self) -> (r: Option<FrameSync>)
        requires
            self.wf(),
        ensures
            r is Some <==> self@.phase == SetupPhase::FrameLoopReady,
            r matches Some(f) ==> {
                &&& f.wf()
                &&& f@.frames == MAX_FRAMES_IN_FLIGHT
                &&& f@.frames == self@.in_flight_fences.len()
                &&& f@.current_frame == 0
                &&& f@.fence_pending == Seq::new(MAX_FRAMES_IN_FLIGHT as nat, |i: int| false)
                &&& f@.images_in_flight.len() == self@.swapchain.unwrap().spec_images().len()
                &&& f@.images_in_flight == Seq::new(f@.images_in_flight.len(), |i: int| None::<usize>)
                &&& f@.phase == FramePhase::Idle
                &&& !f@.rebuild_requested
            },
    {
        if self.phase != SetupPhase::FrameLoopReady {
            return None;
        }
        match &self.swapchain {
            Some(s) => Some(FrameSync::new(MAX_FRAMES_IN_FLIGHT, s.image_count())),
            None => None,
        }
    }

    /// Plans the commands for swapchain image `image`: its command buffer and
    /// framebuffer, the render pass over the swap extent, the pipeline
    /// registered under `pipeline_id`, and one instance of every vertex of the
    /// buffer from offset 0.
    pub fn record_command_buffer(&self, resources: &VulkanResources, pipeline_id: &str, image: usize, vertices: VertexBuffer) -> (r: Result<DrawCommands, DrawError>)
        requires
            self.wf(),
            resources.wf(),
        ensures
            r == Err::<DrawCommands, DrawError>(DrawError::NotReady) <==> rank(self@.phase) < 9,
            r == Err::<DrawCommands, DrawError>(DrawError::ImageOutOfRange) <==> rank(self@.phase) >= 9
                && image >= self@.swapchain.unwrap().spec_images().len(),
            r == Err::<DrawCommands, DrawError>(DrawError::UnknownPipeline) <==> rank(self@.phase) >= 9
                && image < self@.swapchain.unwrap().spec_images().len()
                && !resources.pipeline_map().contains_key(pipeline_id@),
            r matches Ok(c) ==> c == (DrawCommands {
                command_buffer: self@.command_buffers[image as int],
                render_pass: self@.render_pass,
                framebuffer: self@.swapchain.unwrap().spec_framebuffers()[image as int],
                extent: self@.swapchain.unwrap().spec_extent(),
                pipeline: resources.pipeline_map()[pipeline_id@].pipeline,
                vertex_buffer: vertices.buffer,
                vertex_offset: 0,
                vertex_count: vertices.vertex_count,
                instance_count: 1,
            }),
    {
        match self.phase {
            SetupPhase::CommandBuffersReady | SetupPhase::FrameLoopReady => {},
            _ => return Err(DrawError::NotReady),
        }
        let swapchain = match &self.swapchain {
            Some(s) => s,
            None => return Err(DrawError::NotReady),
        };
        if image >= swapchain.image_count() {
            return Err(DrawError::ImageOutOfRange);
        }
        let framebuffer = match swapchain.framebuffer(image) {
            Some(h) => h,
            None => return Err(DrawError::ImageOutOfRange),
        };
        let pipeline = match resources.get_graphics_pipeline(pipeline_id) {
            Ok(h) => h,
            Err(_) => return Err(DrawError::UnknownPipeline),
        };
        Ok(DrawCommands {
            command_buffer: self.command_buffers[image],
            render_pass: self.render_pass,
            framebuffer,
            extent: swapchain.extent(),
            pipeline,
            vertex_buffer: vertices.buffer,
            vertex_offset: 0,
            vertex_count: vertices.vertex_count,
            instance_count: 1,
        })
    }
}

} // verus!
