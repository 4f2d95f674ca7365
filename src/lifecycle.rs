use vstd::prelude::*;
use crate::swapchain::{Extent2D, ImageSize, SharingMode, SurfaceCapabilities, SurfaceFormat, SwapchainPlan, clamp_spec, extent_choice, format_choice, image_count_choice, plan_swapchain, present_mode_choice};

verus! {

/// Whether the swapchain and what depends on it can be used.
#[derive(Clone, Copy, PartialEq, Eq, Structural, Debug)]
pub enum LifecycleState {
    Active,
    Rebuilding,
}

/// Why a rebuild was asked for.
#[derive(Clone, Copy, PartialEq, Eq, Structural, Debug)]
pub enum RebuildTrigger {
    AcquireOutOfDate,
    PresentOutOfDate,
    PresentSuboptimal,
    Resized,
}

/// The objects that depend on the swapchain's extent or images.
#[derive(Clone, Copy, PartialEq, Eq, Structural, Debug)]
pub enum SwapchainResource {
    DepthBuffer,
    ColorBuffer,
    CommandBuffers,
    Framebuffers,
    Pipeline,
    PipelineLayout,
    RenderPass,
    ImageViews,
    Swapchain,
}

/// How many of each per-image object exist.
#[derive(Clone, Copy, PartialEq, Eq, Structural, Debug)]
pub struct PerImageCounts {
    pub framebuffers: usize,
    pub command_buffers: usize,
    pub descriptor_sets: usize,
    pub uniform_buffers: usize,
}

/// A step of the lifecycle taken out of order, or resources that do not match the images.
#[derive(Clone, Copy, PartialEq, Eq, Structural, Debug)]
pub enum LifecycleError {
    NotRebuilding,
    AlreadyTornDown,
    NotTornDown,
    CountMismatch,
}

/// The swapchain lifecycle: which state it is in, the extent and image count
/// of the live swapchain, and how many per-image objects exist.
#[derive(Clone, Copy, PartialEq, Eq, Structural, Debug)]
pub struct SwapchainLifecycle {
    pub state: LifecycleState,
    pub extent: Extent2D,
    pub image_count: usize,
    pub counts: PerImageCounts,
    pub live_swapchains: usize,
}

impl PerImageCounts {
    pub open spec fn all_equal(self, n: usize) -> bool {
        &&& self.framebuffers == n
        &&& self.command_buffers == n
        &&& self.descriptor_sets == n
        &&& self.uniform_buffers == n
    }
}

impl SwapchainLifecycle {
    /// At most one swapchain is alive; while active there is exactly one and
    /// one of each per-image object per image; once torn down, no framebuffer
    /// or command buffer is left.
    pub open spec fn wf(self) -> bool {
        &&& self.live_swapchains <= 1
        &&& self.state == LifecycleState::Active ==> self.live_swapchains == 1 && self.counts.all_equal(self.image_count)
        &&& self.live_swapchains == 0 ==> self.counts.framebuffers == 0 && self.counts.command_buffers == 0
    }
}

pub open spec fn created_spec(extent: Extent2D, image_count: usize, counts: PerImageCounts) -> Result<SwapchainLifecycle, LifecycleError> {
    if counts.all_equal(image_count) {
        Ok(SwapchainLifecycle { state: LifecycleState::Active, extent, image_count, counts, live_swapchains: 1 })
    } else {
        Err(LifecycleError::CountMismatch)
    }
}

/// A rebuild starts only from the active state; a second request while one
/// is under way changes nothing. The flag says whether the caller must now
/// wait for the device to be idle and tear down.
pub open spec fn request_spec(s: SwapchainLifecycle, trigger: RebuildTrigger) -> (SwapchainLifecycle, bool) {
    if s.state == LifecycleState::Active {
        (SwapchainLifecycle { state: LifecycleState::Rebuilding, ..s }, true)
    } else {
        (s, false)
    }
}

/// Tearing down destroys the swapchain, its framebuffers and its command
/// buffers; descriptor sets and uniform buffers stay.
pub open spec fn teardown_spec(s: SwapchainLifecycle) -> Result<SwapchainLifecycle, LifecycleError> {
    if s.state != LifecycleState::Rebuilding {
        Err(LifecycleError::NotRebuilding)
    } else if s.live_swapchains == 0 {
        Err(LifecycleError::AlreadyTornDown)
    } else {
        Ok(SwapchainLifecycle {
            live_swapchains: 0,
            counts: PerImageCounts { framebuffers: 0, command_buffers: 0, ..s.counts },
            ..s
        })
    }
}

pub open spec fn finish_spec(s: SwapchainLifecycle, extent: Extent2D, image_count: usize, counts: PerImageCounts) -> Result<SwapchainLifecycle, LifecycleError> {
    if s.state != LifecycleState::Rebuilding {
        Err(LifecycleError::NotRebuilding)
    } else if s.live_swapchains != 0 {
        Err(LifecycleError::NotTornDown)
    } else if !counts.all_equal(image_count) {
        Err(LifecycleError::CountMismatch)
    } else {
        Ok(SwapchainLifecycle { state: LifecycleState::Active, extent, image_count, counts, live_swapchains: 1 })
    }
}

/// The order in which a rebuild destroys what depends on the swapchain:
/// users before what they use.
pub open spec fn teardown_sequence() -> Seq<SwapchainResource> {
    seq![
        SwapchainResource::DepthBuffer,
        SwapchainResource::ColorBuffer,
        SwapchainResource::CommandBuffers,
        SwapchainResource::Framebuffers,
        SwapchainResource::Pipeline,
        SwapchainResource::PipelineLayout,
        SwapchainResource::RenderPass,
        SwapchainResource::ImageViews,
        SwapchainResource::Swapchain,
    ]
}

/// The order in which a rebuild creates them again: what is used before its users.
pub open spec fn creation_sequence() -> Seq<SwapchainResource> {
    seq![
        SwapchainResource::Swapchain,
        SwapchainResource::ImageViews,
        SwapchainResource::RenderPass,
        SwapchainResource::PipelineLayout,
        SwapchainResource::Pipeline,
        SwapchainResource::ColorBuffer,
        SwapchainResource::DepthBuffer,
        SwapchainResource::Framebuffers,
        SwapchainResource::CommandBuffers,
    ]
}

/// The order of destruction during a rebuild.
pub fn teardown_order() -> (r: Vec<SwapchainResource>)
    ensures
        r@ == teardown_sequence(),
{
    let r = vec![
        SwapchainResource::DepthBuffer,
        SwapchainResource::ColorBuffer,
        SwapchainResource::CommandBuffers,
        SwapchainResource::Framebuffers,
        SwapchainResource::Pipeline,
        SwapchainResource::PipelineLayout,
        SwapchainResource::RenderPass,
        SwapchainResource::ImageViews,
        SwapchainResource::Swapchain,
    ];
    assert(r@ =~= teardown_sequence());
    r
}

/// The order of creation, at start-up and during a rebuild.
pub fn creation_order() -> (r: Vec<SwapchainResource>)
    ensures
        r@ == creation_sequence(),
{
    let r = vec![
        SwapchainResource::Swapchain,
        SwapchainResource::ImageViews,
        SwapchainResource::RenderPass,
        SwapchainResource::PipelineLayout,
        SwapchainResource::Pipeline,
        SwapchainResource::ColorBuffer,
        SwapchainResource::DepthBuffer,
        SwapchainResource::Framebuffers,
        SwapchainResource::CommandBuffers,
    ];
    assert(r@ =~= creation_sequence());
    r
}

impl SwapchainLifecycle {
    /// Records the swapchain made at start-up with its per-image objects;
    /// refused when their counts differ from the image count.
    pub fn created(extent: Extent2D, image_count: usize, counts: PerImageCounts) -> (r: Result<SwapchainLifecycle, LifecycleError>)
        ensures
            r == created_spec(extent, image_count, counts),
            r matches Ok(s) ==> s.wf(),
    {
        if counts.framebuffers == image_count && counts.command_buffers == image_count
            && counts.descriptor_sets == image_count && counts.uniform_buffers == image_count {
            Ok(SwapchainLifecycle { state: LifecycleState::Active, extent, image_count, counts, live_swapchains: 1 })
        } else {
            Err(LifecycleError::CountMismatch)
        }
    }

    /// Asks for a rebuild. Returns true when one starts: the caller must then
    /// wait for the device to be idle before destroying anything.
    pub fn request_rebuild(&mut self, trigger: RebuildTrigger) -> (r: bool)
        requires
            old(self).wf(),
        ensures
            (*final(self), r) == request_spec(*old(self), trigger),
            final(self).wf(),
    {
        if self.state == LifecycleState::Active {
            self.state = LifecycleState::Rebuilding;
            true
        } else {
            false
        }
    }

    /// Records that every object of `teardown_order` was destroyed.
    pub fn torn_down(&mut self) -> (r: Result<(), LifecycleError>)
        requires
            old(self).wf(),
        ensures
            match teardown_spec(*old(self)) {
                Ok(n) => r is Ok && *final(self) == n,
                Err(e) => r == Err::<(), LifecycleError>(e) && *final(self) == *old(self),
            },
            final(self).wf(),
    {
        if self.state != LifecycleState::Rebuilding {
            return Err(LifecycleError::NotRebuilding);
        }
        if self.live_swapchains == 0 {
            return Err(LifecycleError::AlreadyTornDown);
        }
        self.live_swapchains = 0;
        self.counts.framebuffers = 0;
        self.counts.command_buffers = 0;
        Ok(())
    }

    /// Decides the new swapchain once the old one is gone, from what the
    /// surface now offers and the window's current size.
    pub fn plan_rebuild(
        &self,
        capabilities: &SurfaceCapabilities,
        formats: &Vec<SurfaceFormat>,
        present_modes: &Vec<i32>,
        window_size: &ImageSize,
        graphics_family: u32,
        present_family: u32,
    ) -> (r: Result<SwapchainPlan, LifecycleError>)
        requires
            capabilities.wf(),
            formats@.len() > 0,
        ensures
            self.state != LifecycleState::Rebuilding ==> r == Err::<SwapchainPlan, LifecycleError>(LifecycleError::NotRebuilding),
            self.state == LifecycleState::Rebuilding && self.live_swapchains != 0 ==> r == Err::<SwapchainPlan, LifecycleError>(LifecycleError::NotTornDown),
            self.state == LifecycleState::Rebuilding && self.live_swapchains == 0 ==> (r matches Ok(p)
                && p.extent == extent_choice(*capabilities, *window_size)
                && p.format == format_choice(formats@)
                && p.present_mode == present_mode_choice(present_modes@)
                && p.image_count == image_count_choice(*capabilities)
                && (graphics_family == present_family ==> p.sharing_mode == SharingMode::Exclusive && p.queue_family_indices@ == Seq::<u32>::empty())
                && (graphics_family != present_family ==> p.sharing_mode == SharingMode::Concurrent
                    && p.queue_family_indices@ == seq![graphics_family, present_family])),
    {
        if self.state != LifecycleState::Rebuilding {
            return Err(LifecycleError::NotRebuilding);
        }
        if self.live_swapchains != 0 {
            return Err(LifecycleError::NotTornDown);
        }
        Ok(plan_swapchain(capabilities, formats, present_modes, window_size, graphics_family, present_family))
    }

    /// Records the new swapchain and its per-image objects, and returns to the
    /// active state; refused when the old swapchain is still there or the
    /// counts differ from the new image count.
    pub fn finish_rebuild(&mut self, extent: Extent2D, image_count: usize, counts: PerImageCounts) -> (r: Result<(), LifecycleError>)
        requires
            old(self).wf(),
        ensures
            match finish_spec(*old(self), extent, image_count, counts) {
                Ok(n) => r is Ok && *final(self) == n,
                Err(e) => r == Err::<(), LifecycleError>(e) && *final(self) == *old(self),
            },
            final(self).wf(),
    {
        if self.state != LifecycleState::Rebuilding {
            return Err(LifecycleError::NotRebuilding);
        }
        if self.live_swapchains != 0 {
            return Err(LifecycleError::NotTornDown);
        }
        if !(counts.framebuffers == image_count && counts.command_buffers == image_count
            && counts.descriptor_sets == image_count && counts.uniform_buffers == image_count) {
            return Err(LifecycleError::CountMismatch);
        }
        *self = SwapchainLifecycle { state: LifecycleState::Active, extent, image_count, counts, live_swapchains: 1 };
        Ok(())
    }

    /// The descriptor sets and uniform buffers kept through the rebuild no
    /// longer match the new image count and must be made again.
    pub fn descriptor_sets_stale(&self, new_image_count: usize) -> (r: bool)
        ensures
            r == (self.counts.descriptor_sets != new_image_count || self.counts.uniform_buffers != new_image_count),
    {
        self.counts.descriptor_sets != new_image_count || self.counts.uniform_buffers != new_image_count
    }
}

/// Every step of the lifecycle keeps it well formed, so in the active state
/// the number of framebuffers, command buffers, descriptor sets and uniform
/// buffers equals the image count, after start-up and after every rebuild.
pub proof fn lemma_per_image_counts(
    s: SwapchainLifecycle,
    trigger: RebuildTrigger,
    extent: Extent2D,
    image_count: usize,
    counts: PerImageCounts,
)
    requires
        s.wf(),
    ensures
        created_spec(extent, image_count, counts) matches Ok(c) ==> c.wf() && c.counts.all_equal(c.image_count),
        request_spec(s, trigger).0.wf(),
        teardown_spec(s) matches Ok(t) ==> t.wf(),
        finish_spec(s, extent, image_count, counts) matches Ok(f) ==> f.wf() && f.counts.all_equal(f.image_count),
        s.state == LifecycleState::Active ==> s.counts.all_equal(s.image_count),
{
}

/// A full rebuild: the request, the teardown and the completion with the new
/// swapchain's extent, image count and per-image objects.
pub open spec fn rebuild_spec(
    s: SwapchainLifecycle,
    trigger: RebuildTrigger,
    extent: Extent2D,
    image_count: usize,
    counts: PerImageCounts,
) -> Result<SwapchainLifecycle, LifecycleError> {
    match teardown_spec(request_spec(s, trigger).0) {
        Ok(t) => finish_spec(t, extent, image_count, counts),
        Err(e) => Err(e),
    }
}

/// Two full rebuilds, one after the other.
pub open spec fn rebuild_twice_spec(
    s: SwapchainLifecycle,
    t1: RebuildTrigger,
    extent1: Extent2D,
    n1: usize,
    counts1: PerImageCounts,
    t2: RebuildTrigger,
    extent2: Extent2D,
    n2: usize,
    counts2: PerImageCounts,
) -> Result<SwapchainLifecycle, LifecycleError> {
    match rebuild_spec(s, t1, extent1, n1, counts1) {
        Ok(a) => rebuild_spec(a, t2, extent2, n2, counts2),
        Err(e) => Err(e),
    }
}

/// The window size clamped into the surface's extent bounds.
pub open spec fn clamped_extent(capabilities: SurfaceCapabilities, window_size: ImageSize) -> Extent2D {
    Extent2D {
        width: clamp_spec(window_size.width, capabilities.min_image_extent.width, capabilities.max_image_extent.width),
        height: clamp_spec(window_size.height, capabilities.min_image_extent.height, capabilities.max_image_extent.height),
    }
}

/// A resize while active starts a rebuild that waits for the device to be
/// idle; once the rebuild completes with the planned swapchain, its extent is
/// the window size clamped into the surface's bounds (when the surface leaves
/// the size to the swapchain).
pub proof fn lemma_resize_rebuild_extent(
    s: SwapchainLifecycle,
    capabilities: SurfaceCapabilities,
    window_size: ImageSize,
    plan: SwapchainPlan,
    image_count: usize,
    counts: PerImageCounts,
)
    requires
        s.wf(),
        s.state == LifecycleState::Active,
        capabilities.wf(),
        capabilities.current_extent.width == u32::MAX,
        plan.extent == extent_choice(capabilities, window_size),
        counts.all_equal(image_count),
    ensures
        request_spec(s, RebuildTrigger::Resized).0.state == LifecycleState::Rebuilding,
        request_spec(s, RebuildTrigger::Resized).1,
        rebuild_spec(s, RebuildTrigger::Resized, plan.extent, image_count, counts) is Ok,
        rebuild_spec(s, RebuildTrigger::Resized, plan.extent, image_count, counts)->Ok_0.state == LifecycleState::Active,
        rebuild_spec(s, RebuildTrigger::Resized, plan.extent, image_count, counts)->Ok_0.extent == clamped_extent(capabilities, window_size),
{
}

/// Two rebuilds in a row end in the active state with exactly one live
/// swapchain and one of each per-image object per image of the last one; two
/// requests before one rebuild start it only once.
pub proof fn lemma_rebuild_twice(
    s: SwapchainLifecycle,
    t1: RebuildTrigger,
    extent1: Extent2D,
    n1: usize,
    counts1: PerImageCounts,
    t2: RebuildTrigger,
    extent2: Extent2D,
    n2: usize,
    counts2: PerImageCounts,
)
    requires
        s.wf(),
        s.state == LifecycleState::Active,
        counts1.all_equal(n1),
        counts2.all_equal(n2),
    ensures
        request_spec(request_spec(s, t1).0, t2).0 == request_spec(s, t1).0,
        !request_spec(request_spec(s, t1).0, t2).1,
        rebuild_twice_spec(s, t1, extent1, n1, counts1, t2, extent2, n2, counts2) is Ok,
        rebuild_twice_spec(s, t1, extent1, n1, counts1, t2, extent2, n2, counts2)->Ok_0.state == LifecycleState::Active,
        rebuild_twice_spec(s, t1, extent1, n1, counts1, t2, extent2, n2, counts2)->Ok_0.live_swapchains == 1,
        rebuild_twice_spec(s, t1, extent1, n1, counts1, t2, extent2, n2, counts2)->Ok_0.image_count == n2,
        rebuild_twice_spec(s, t1, extent1, n1, counts1, t2, extent2, n2, counts2)->Ok_0.counts.all_equal(n2),
        rebuild_twice_spec(s, t1, extent1, n1, counts1, t2, extent2, n2, counts2)->Ok_0.wf(),
{
}

/// One step of shutting the renderer down.
#[derive(Clone, Copy, PartialEq, Eq, Structural, Debug)]
pub enum ShutdownStep {
    /// Block until the device has no work in flight.
    WaitDeviceIdle,
    /// The semaphores and fences of the frame-in-flight ring.
    SyncObjects,
    /// Everything of `teardown_order`.
    SwapchainObjects,
    DescriptorPool,
    UniformBuffers,
    IndexBuffer,
    VertexBuffer,
    Sampler,
    Texture,
    DescriptorSetLayout,
    CommandPool,
    Device,
    Surface,
    DebugMessenger,
    Instance,
}

pub open spec fn shutdown_sequence() -> Seq<ShutdownStep> {
    seq![
        ShutdownStep::WaitDeviceIdle,
        ShutdownStep::SyncObjects,
        ShutdownStep::SwapchainObjects,
        ShutdownStep::DescriptorPool,
        ShutdownStep::UniformBuffers,
        ShutdownStep::IndexBuffer,
        ShutdownStep::VertexBuffer,
        ShutdownStep::Sampler,
        ShutdownStep::Texture,
        ShutdownStep::DescriptorSetLayout,
        ShutdownStep::CommandPool,
        ShutdownStep::Device,
        ShutdownStep::Surface,
        ShutdownStep::DebugMessenger,
        ShutdownStep::Instance,
    ]
}

/// The order of shutdown: the wait for an idle device first, then what
/// the device owns, then the device, and the instance last.
pub fn shutdown_order() -> (r: Vec<ShutdownStep>)
    ensures
        r@ == shutdown_sequence(),
{
    let r = vec![
        ShutdownStep::WaitDeviceIdle,
        ShutdownStep::SyncObjects,
        ShutdownStep::SwapchainObjects,
        ShutdownStep::DescriptorPool,
        ShutdownStep::UniformBuffers,
        ShutdownStep::IndexBuffer,
        ShutdownStep::VertexBuffer,
        ShutdownStep::Sampler,
        ShutdownStep::Texture,
        ShutdownStep::DescriptorSetLayout,
        ShutdownStep::CommandPool,
        ShutdownStep::Device,
        ShutdownStep::Surface,
        ShutdownStep::DebugMessenger,
        ShutdownStep::Instance,
    ];
    assert(r@ =~= shutdown_sequence());
    r
}

/// Shutdown waits for the device to be idle before it destroys anything,
/// destroys each object once, and destroys the device only after everything
/// it owns and before the instance.
pub proof fn lemma_shutdown_waits_for_idle()
    ensures
        shutdown_sequence()[0] == ShutdownStep::WaitDeviceIdle,
        forall|k: int| 0 < k < shutdown_sequence().len() ==> shutdown_sequence()[k] != ShutdownStep::WaitDeviceIdle,
        forall|a: int, b: int| 0 <= a < b < shutdown_sequence().len() ==> shutdown_sequence()[a] != shutdown_sequence()[b],
        shutdown_sequence()[11] == ShutdownStep::Device,
        shutdown_sequence()[14] == ShutdownStep::Instance,
        shutdown_sequence().len() == 15,
{
}

} // verus!
