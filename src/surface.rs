//! Surface and presentation negotiation: surface format, presentation mode,
//! swap extent and swapchain image count.
use vstd::prelude::*;

verus! {

/// Raw value of `VK_FORMAT_UNDEFINED`.
pub const FORMAT_UNDEFINED: i32 = 0;

/// Raw value of `VK_FORMAT_B8G8R8A8_SRGB`.
pub const FORMAT_B8G8R8A8_SRGB: i32 = 50;

/// Raw value of `VK_COLOR_SPACE_SRGB_NONLINEAR_KHR`.
pub const COLOR_SPACE_SRGB_NONLINEAR: i32 = 0;

/// Raw value of `VK_PRESENT_MODE_IMMEDIATE_KHR`.
pub const PRESENT_MODE_IMMEDIATE: i32 = 0;

/// Raw value of `VK_PRESENT_MODE_MAILBOX_KHR`.
pub const PRESENT_MODE_MAILBOX: i32 = 1;

/// Raw value of `VK_PRESENT_MODE_FIFO_KHR`, the one mode every device offers.
pub const PRESENT_MODE_FIFO: i32 = 2;

/// Raw `VK_IMAGE_USAGE_COLOR_ATTACHMENT_BIT`.
pub const IMAGE_USAGE_COLOR_ATTACHMENT: u32 = 0x10;

/// Raw `VK_COMPOSITE_ALPHA_OPAQUE_BIT_KHR`.
pub const COMPOSITE_ALPHA_OPAQUE: u32 = 0x1;

/// Width or height that marks `current_extent` as "decided by the swapchain".
pub const EXTENT_UNDEFINED: u32 = 0xffff_ffff;

/// A width and height in pixels.
#[derive(Clone, Copy, Debug, PartialEq, Eq, Structural)]
pub struct Extent2D {
    pub width: u32,
    pub height: u32,
}

/// A color format paired with a color space, both as raw API values.
#[derive(Clone, Copy, Debug, PartialEq, Eq, Structural)]
pub struct SurfaceFormat {
    pub format: i32,
    pub color_space: i32,
}

/// A point-in-time snapshot of what a surface supports.
#[derive(Clone, Copy, Debug, PartialEq, Eq, Structural)]
pub struct SurfaceCapabilities {
    pub min_image_count: u32,
    /// Zero means that the surface sets no upper bound.
    pub max_image_count: u32,
    pub current_extent: Extent2D,
    pub min_image_extent: Extent2D,
    pub max_image_extent: Extent2D,
    /// Raw `VkSurfaceTransformFlagBitsKHR` currently applied by the surface.
    pub current_transform: u32,
}

impl SurfaceCapabilities {
    /// A report that a conforming device can give: the extent bounds are
    /// ordered, and so are the image counts where an upper one is given.
    pub open spec fn supported(&self) -> bool {
        &&& self.min_image_extent.width <= self.max_image_extent.width
        &&& self.min_image_extent.height <= self.max_image_extent.height
        &&& (self.max_image_count == 0 || self.min_image_count <= self.max_image_count)
    }
}

/// The format this renderer prefers: 8-bit BGRA in the sRGB nonlinear space.
pub open spec fn preferred_format() -> SurfaceFormat {
    SurfaceFormat { format: FORMAT_B8G8R8A8_SRGB, color_space: COLOR_SPACE_SRGB_NONLINEAR }
}

/// The format to use among those a surface reports, or `None` when it
/// reports none.
pub open spec fn chosen_surface_format(formats: Seq<SurfaceFormat>) -> Option<SurfaceFormat> {
    if formats.len() == 1 && formats[0].format == FORMAT_UNDEFINED {
        Some(preferred_format())
    } else if formats.contains(preferred_format()) {
        Some(preferred_format())
    } else if formats.len() > 0 {
        Some(formats[0])
    } else {
        None
    }
}

/// The presentation mode to use among those a surface reports.
pub open spec fn chosen_present_mode(modes: Seq<i32>) -> i32 {
    if modes.contains(PRESENT_MODE_MAILBOX) {
        PRESENT_MODE_MAILBOX
    } else if modes.contains(PRESENT_MODE_IMMEDIATE) {
        PRESENT_MODE_IMMEDIATE
    } else {
        PRESENT_MODE_FIFO
    }
}

/// `v` limited to `[lo, hi]`.
pub open spec fn clamp_spec(v: u32, lo: u32, hi: u32) -> u32 {
    if v < lo {
        lo
    } else if v > hi {
        hi
    } else {
        v
    }
}

/// The swap extent for a window of the given pixel size.
pub open spec fn swap_extent_spec(caps: SurfaceCapabilities, window: Extent2D) -> Extent2D {
    if caps.current_extent.width != EXTENT_UNDEFINED {
        caps.current_extent
    } else {
        Extent2D {
            width: clamp_spec(window.width, caps.min_image_extent.width, caps.max_image_extent.width),
            height: clamp_spec(window.height, caps.min_image_extent.height, caps.max_image_extent.height),
        }
    }
}

/// One image more than the minimum, so that the renderer never waits on the
/// driver for an image, but no more than the surface allows.
pub open spec fn image_count_spec(caps: SurfaceCapabilities) -> int {
    let cap: int = if caps.max_image_count == 0 { u32::MAX as int } else { caps.max_image_count as int };
    if caps.min_image_count + 1 > cap { cap } else { caps.min_image_count + 1 }
}

/// Picks the surface format: the preferred format where the surface reports
/// it or leaves the choice open (a single `UNDEFINED` entry), otherwise the
/// first one reported.
pub fn choose_surface_format(formats: &Vec<SurfaceFormat>) -> (r: Option<SurfaceFormat>)
    ensures
        r == chosen_surface_format(formats@),
{
    let preferred = SurfaceFormat { format: FORMAT_B8G8R8A8_SRGB, color_space: COLOR_SPACE_SRGB_NONLINEAR };
    if formats.len() == 1 && formats[0].format == FORMAT_UNDEFINED {
        return Some(preferred);
    }
    let mut i: usize = 0;
    while i < formats.len()
        invariant
            i <= formats@.len(),
            !(formats@.len() == 1 && formats@[0].format == FORMAT_UNDEFINED),
            preferred == preferred_format(),
            forall|j: int| 0 <= j < i ==> formats@[j] != preferred_format(),
        decreases formats@.len() - i,
    {
        let candidate = formats[i];
        if candidate.format == FORMAT_B8G8R8A8_SRGB && candidate.color_space == COLOR_SPACE_SRGB_NONLINEAR {
            proof {
                assert(formats@.contains(preferred_format())) by {
                    assert(formats@[i as int] == preferred_format());
                }
            }
            return Some(preferred);
        }
        i = i + 1;
    }
    if formats.len() > 0 {
        Some(formats[0])
    } else {
        None
    }
}

/// Picks the presentation mode: mailbox where offered, else immediate where
/// offered, else FIFO.
pub fn choose_presentation_mode(modes: &Vec<i32>) -> (r: i32)
    ensures
        r == chosen_present_mode(modes@),
{
    let mut optimal: i32 = PRESENT_MODE_FIFO;
    let mut i: usize = 0;
    while i < modes.len()
        invariant
            i <= modes@.len(),
            forall|j: int| 0 <= j < i ==> modes@[j] != PRESENT_MODE_MAILBOX,
            optimal == (if modes@.subrange(0, i as int).contains(PRESENT_MODE_IMMEDIATE) {
                PRESENT_MODE_IMMEDIATE
            } else {
                PRESENT_MODE_FIFO
            }),
        decreases modes@.len() - i,
    {
        let mode = modes[i];
        if mode == PRESENT_MODE_MAILBOX {
            assert(modes@[i as int] == PRESENT_MODE_MAILBOX);
            return PRESENT_MODE_MAILBOX;
        } else if mode == PRESENT_MODE_IMMEDIATE {
            optimal = PRESENT_MODE_IMMEDIATE;
        }
        proof {
            let next = modes@.subrange(0, i + 1);
            assert(next =~= modes@.subrange(0, i as int).push(mode));
            if modes@.subrange(0, i as int).contains(PRESENT_MODE_IMMEDIATE) {
                let k = choose|k: int| 0 <= k < i && modes@.subrange(0, i as int)[k] == PRESENT_MODE_IMMEDIATE;
                assert(next[k] == PRESENT_MODE_IMMEDIATE);
            }
            if mode == PRESENT_MODE_IMMEDIATE {
                assert(next[i as int] == PRESENT_MODE_IMMEDIATE);
            }
        }
        i = i + 1;
    }
    proof {
        assert(modes@.subrange(0, modes@.len() as int) =~= modes@);
    }
    optimal
}

fn clamp(v: u32, lo: u32, hi: u32) -> (r: u32)
    ensures
        r == clamp_spec(v, lo, hi),
{
    if v < lo {
        lo
    } else if v > hi {
        hi
    } else {
        v
    }
}

/// Derives the swap extent: the surface's current extent when it gives one,
/// otherwise the window's pixel size clamped into the supported bounds.
pub fn compute_swap_extent(caps: &SurfaceCapabilities, window: Extent2D) -> (r: Extent2D)
    requires
        caps.supported(),
    ensures
        r == swap_extent_spec(*caps, window),
        caps.current_extent.width != EXTENT_UNDEFINED ==> r == caps.current_extent,
        caps.current_extent.width == EXTENT_UNDEFINED ==> {
            &&& caps.min_image_extent.width <= r.width <= caps.max_image_extent.width
            &&& caps.min_image_extent.height <= r.height <= caps.max_image_extent.height
        },
{
    if caps.current_extent.width != EXTENT_UNDEFINED {
        caps.current_extent
    } else {
        Extent2D {
            width: clamp(window.width, caps.min_image_extent.width, caps.max_image_extent.width),
            height: clamp(window.height, caps.min_image_extent.height, caps.max_image_extent.height),
        }
    }
}

/// The number of swapchain images to request: `min_image_count + 1`,
/// clamped to `max_image_count` where the surface sets one.
pub fn swapchain_image_count(caps: &SurfaceCapabilities) -> (r: u32)
    ensures
        r == image_count_spec(*caps),
{
    let cap: u32 = if caps.max_image_count == 0 { u32::MAX } else { caps.max_image_count };
    if caps.min_image_count >= cap {
        cap
    } else {
        caps.min_image_count + 1
    }
}

/// Why no swapchain configuration could be negotiated.
#[derive(Clone, Copy, Debug, PartialEq, Eq, Structural)]
pub enum SurfaceError {
    /// The surface reports no format at all.
    FormatNotSupported,
}

/// Everything the swapchain is created with that negotiation decides.
#[derive(Clone, Copy, Debug, PartialEq, Eq, Structural)]
pub struct SwapchainPlan {
    pub image_count: u32,
    pub format: SurfaceFormat,
    pub present_mode: i32,
    pub extent: Extent2D,
    /// Raw transform flags, the surface's current transform.
    pub pre_transform: u32,
    /// Layers per image: one.
    pub array_layers: u32,
    /// Raw image usage flags: color attachment only.
    pub image_usage: u32,
    /// Raw composite alpha flags: opaque.
    pub composite_alpha: u32,
    /// Whether pixels hidden by other windows may be discarded: yes.
    pub clipped: bool,
}

/// Negotiates the swapchain configuration from a surface's capabilities,
/// formats and presentation modes and the window's pixel size.
pub fn plan_swapchain(caps: &SurfaceCapabilities, formats: &Vec<SurfaceFormat>, modes: &Vec<i32>, window: Extent2D) -> (r: Result<SwapchainPlan, SurfaceError>)
    requires
        caps.supported(),
    ensures
        r is Err <==> formats@.len() == 0,
        r is Err ==> r == Err::<SwapchainPlan, SurfaceError>(SurfaceError::FormatNotSupported),
        r matches Ok(plan) ==> {
            &&& Some(plan.format) == chosen_surface_format(formats@)
            &&& plan.present_mode == chosen_present_mode(modes@)
            &&& plan.extent == swap_extent_spec(*caps, window)
            &&& plan.image_count == image_count_spec(*caps)
            &&& plan.pre_transform == caps.current_transform
            &&& plan.array_layers == 1
            &&& plan.image_usage == IMAGE_USAGE_COLOR_ATTACHMENT
            &&& plan.composite_alpha == COMPOSITE_ALPHA_OPAQUE
            &&& plan.clipped
        },
{
    let format = match choose_surface_format(formats) {
        Some(f) => f,
        None => return Err(SurfaceError::FormatNotSupported),
    };
    Ok(SwapchainPlan {
        image_count: swapchain_image_count(caps),
        format,
        present_mode: choose_presentation_mode(modes),
        extent: compute_swap_extent(caps, window),
        pre_transform: caps.current_transform,
        array_layers: 1,
        image_usage: IMAGE_USAGE_COLOR_ATTACHMENT,
        composite_alpha: COMPOSITE_ALPHA_OPAQUE,
        clipped: true,
    })
}

} // verus!
