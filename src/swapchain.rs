use vstd::prelude::*;

verus! {

/// `VK_FORMAT_B8G8R8A8_SRGB`.
pub const FORMAT_B8G8R8A8_SRGB: i32 = 50;

/// `VK_COLOR_SPACE_SRGB_NONLINEAR_KHR`.
pub const COLOR_SPACE_SRGB_NONLINEAR: i32 = 0;

/// `VK_PRESENT_MODE_MAILBOX_KHR`.
pub const PRESENT_MODE_MAILBOX: i32 = 1;

/// `VK_PRESENT_MODE_FIFO_KHR`, which every surface supports.
pub const PRESENT_MODE_FIFO: i32 = 2;

/// A size in pixels.
#[derive(Clone, Copy, PartialEq, Eq, Structural, Debug)]
pub struct Extent2D {
    pub width: u32,
    pub height: u32,
}

/// The client-area size of the window.
#[derive(Clone, Copy, PartialEq, Eq, Structural, Debug)]
pub struct ImageSize {
    pub width: u32,
    pub height: u32,
}

/// A pixel format and colour space that a surface can present.
#[derive(Clone, Copy, PartialEq, Eq, Structural, Debug)]
pub struct SurfaceFormat {
    pub format: i32,
    pub color_space: i32,
}

/// What a surface reports of the swapchains it accepts.
#[derive(Clone, Copy, PartialEq, Eq, Structural, Debug)]
pub struct SurfaceCapabilities {
    /// The surface's current size; a width of `u32::MAX` means the swapchain decides.
    pub current_extent: Extent2D,
    pub min_image_extent: Extent2D,
    pub max_image_extent: Extent2D,
    pub min_image_count: u32,
    /// Zero means no upper bound.
    pub max_image_count: u32,
}

/// How the swapchain images are shared between the graphics and present queues.
#[derive(Clone, Copy, PartialEq, Eq, Structural, Debug)]
pub enum SharingMode {
    Exclusive,
    Concurrent,
}

/// Everything the swapchain is created with, decided from what the surface offers.
#[derive(Clone, PartialEq, Eq, Debug)]
pub struct SwapchainPlan {
    pub format: SurfaceFormat,
    pub present_mode: i32,
    pub extent: Extent2D,
    pub image_count: u32,
    pub sharing_mode: SharingMode,
    /// The queue families named when sharing is concurrent; empty otherwise.
    pub queue_family_indices: Vec<u32>,
}

impl SurfaceCapabilities {
    /// The bounds are ordered and the minimum image count leaves room for one more image.
    pub open spec fn wf(&self) -> bool {
        &&& self.min_image_extent.width <= self.max_image_extent.width
        &&& self.min_image_extent.height <= self.max_image_extent.height
        &&& self.min_image_count < u32::MAX
    }
}

pub open spec fn clamp_spec(v: u32, lo: u32, hi: u32) -> u32 {
    if v < lo {
        lo
    } else if v > hi {
        hi
    } else {
        v
    }
}

/// Relies on `num::clamp`: `lo` below `lo`, `hi` above `hi`, the input otherwise.
/// It asserts `lo <= hi` in debug builds.
#[verifier::external_body]
fn clamp_u32(v: u32, lo: u32, hi: u32) -> (r: u32)
    requires
        lo <= hi,
    ensures
        r == clamp_spec(v, lo, hi),
{
    num::clamp(v, lo, hi)
}

pub open spec fn is_preferred_format(f: SurfaceFormat) -> bool {
    f.format == FORMAT_B8G8R8A8_SRGB && f.color_space == COLOR_SPACE_SRGB_NONLINEAR
}

pub open spec fn preferred_format() -> SurfaceFormat {
    SurfaceFormat { format: FORMAT_B8G8R8A8_SRGB, color_space: COLOR_SPACE_SRGB_NONLINEAR }
}

/// The format the swapchain uses: 8-bit BGRA in sRGB when offered, else the first one offered.
pub open spec fn format_choice(available: Seq<SurfaceFormat>) -> SurfaceFormat {
    if exists|i: int| 0 <= i < available.len() && is_preferred_format(available[i]) {
        preferred_format()
    } else {
        available[0]
    }
}

/// Mailbox when offered, else FIFO.
pub open spec fn present_mode_choice(available: Seq<i32>) -> i32 {
    if available.contains(PRESENT_MODE_MAILBOX) {
        PRESENT_MODE_MAILBOX
    } else {
        PRESENT_MODE_FIFO
    }
}

/// The surface's own size when it has one, else the window size clamped into the surface's bounds.
pub open spec fn extent_choice(caps: SurfaceCapabilities, size: ImageSize) -> Extent2D {
    if caps.current_extent.width != u32::MAX {
        caps.current_extent
    } else {
        Extent2D {
            width: clamp_spec(size.width, caps.min_image_extent.width, caps.max_image_extent.width),
            height: clamp_spec(size.height, caps.min_image_extent.height, caps.max_image_extent.height),
        }
    }
}

/// One image more than the minimum, capped by the maximum when there is one.
pub open spec fn image_count_choice(caps: SurfaceCapabilities) -> u32 {
    if caps.max_image_count > 0 && caps.min_image_count + 1 > caps.max_image_count {
        caps.max_image_count
    } else {
        (caps.min_image_count + 1) as u32
    }
}

/// Picks the surface format of the swapchain.
pub fn choose_swapchain_format(available_formats: &Vec<SurfaceFormat>) -> (r: SurfaceFormat)
    requires
        available_formats@.len() > 0,
    ensures
        r == format_choice(available_formats@),
{
    let mut i: usize = 0;
    while i < available_formats.len()
        invariant
            i <= available_formats@.len(),
            forall|j: int| 0 <= j < i ==> !is_preferred_format(#[trigger] available_formats@[j]),
        decreases available_formats@.len() - i,
    {
        let f = available_formats[i];
        if f.format == FORMAT_B8G8R8A8_SRGB && f.color_space == COLOR_SPACE_SRGB_NONLINEAR {
            return f;
        }
        i += 1;
    }
    available_formats[0]
}

/// Picks the present mode of the swapchain.
pub fn choose_swapchain_present_mode(available_present_modes: &Vec<i32>) -> (r: i32)
    ensures
        r == present_mode_choice(available_present_modes@),
{
    let mut i: usize = 0;
    while i < available_present_modes.len()
        invariant
            i <= available_present_modes@.len(),
            forall|j: int| 0 <= j < i ==> available_present_modes@[j] != PRESENT_MODE_MAILBOX,
        decreases available_present_modes@.len() - i,
    {
        if available_present_modes[i] == PRESENT_MODE_MAILBOX {
            return PRESENT_MODE_MAILBOX;
        }
        i += 1;
    }
    PRESENT_MODE_FIFO
}

/// Picks the size of the swapchain images.
pub fn choose_swapchain_extent(capabilities: &SurfaceCapabilities, image_size: &ImageSize) -> (r: Extent2D)
    requires
        capabilities.wf(),
    ensures
        r == extent_choice(*capabilities, *image_size),
{
    if capabilities.current_extent.width != u32::MAX {
        capabilities.current_extent
    } else {
        Extent2D {
            width: clamp_u32(
                image_size.width,
                capabilities.min_image_extent.width,
                capabilities.max_image_extent.width,
            ),
            height: clamp_u32(
                image_size.height,
                capabilities.min_image_extent.height,
                capabilities.max_image_extent.height,
            ),
        }
    }
}

/// Picks how many images the swapchain asks for.
pub fn choose_image_count(capabilities: &SurfaceCapabilities) -> (r: u32)
    requires
        capabilities.wf(),
    ensures
        r == image_count_choice(*capabilities),
{
    let wanted = capabilities.min_image_count + 1;
    if capabilities.max_image_count > 0 && wanted > capabilities.max_image_count {
        capabilities.max_image_count
    } else {
        wanted
    }
}

/// Exclusive sharing when one queue family both draws and presents, else
/// concurrent sharing between the two families.
pub fn choose_sharing_mode(graphics_family: u32, present_family: u32) -> (r: (SharingMode, Vec<u32>))
    ensures
        graphics_family == present_family ==> r.0 == SharingMode::Exclusive && r.1@ == Seq::<u32>::empty(),
        graphics_family != present_family ==> r.0 == SharingMode::Concurrent && r.1@ == seq![graphics_family, present_family],
{
    if graphics_family != present_family {
        (SharingMode::Concurrent, vec![graphics_family, present_family])
    } else {
        (SharingMode::Exclusive, Vec::new())
    }
}

/// Decides every parameter of a new swapchain from what the surface offers,
/// the window size and the two queue families.
pub fn plan_swapchain(
    capabilities: &SurfaceCapabilities,
    formats: &Vec<SurfaceFormat>,
    present_modes: &Vec<i32>,
    window_size: &ImageSize,
    graphics_family: u32,
    present_family: u32,
) -> (r: SwapchainPlan)
    requires
        capabilities.wf(),
        formats@.len() > 0,
    ensures
        r.format == format_choice(formats@),
        r.present_mode == present_mode_choice(present_modes@),
        r.extent == extent_choice(*capabilities, *window_size),
        r.image_count == image_count_choice(*capabilities),
        graphics_family == present_family ==> r.sharing_mode == SharingMode::Exclusive && r.queue_family_indices@ == Seq::<u32>::empty(),
        graphics_family != present_family ==> r.sharing_mode == SharingMode::Concurrent && r.queue_family_indices@ == seq![graphics_family, present_family],
{
    let (sharing_mode, queue_family_indices) = choose_sharing_mode(graphics_family, present_family);
    SwapchainPlan {
        format: choose_swapchain_format(formats),
        present_mode: choose_swapchain_present_mode(present_modes),
        extent: choose_swapchain_extent(capabilities, window_size),
        image_count: choose_image_count(capabilities),
        sharing_mode,
        queue_family_indices,
    }
}

} // verus!
