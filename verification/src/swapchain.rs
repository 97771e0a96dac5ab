//! Choosing the settings of the swap chain from what the surface supports.

use vstd::prelude::*;
use crate::queue::QueueFamilyIndices;
use crate::vulkan::{
    COLOR_SPACE_SRGB_NONLINEAR, COMPOSITE_ALPHA_OPAQUE, FORMAT_B8G8R8A8_SRGB,
    IMAGE_USAGE_COLOR_ATTACHMENT, PRESENT_MODE_FIFO, PRESENT_MODE_MAILBOX,
    SHARING_MODE_CONCURRENT, SHARING_MODE_EXCLUSIVE,
};

verus! {

/// A pixel format with its color space, as raw `VkFormat` and
/// `VkColorSpaceKHR` values.
#[derive(Clone, Copy)]
pub struct SurfaceFormat {
    pub format: i32,
    pub color_space: i32,
}

/// A width and a height in pixels.
#[derive(Clone, Copy)]
pub struct Extent2D {
    pub width: u32,
    pub height: u32,
}

/// The parts of `VkSurfaceCapabilitiesKHR` the swap chain settings depend on.
#[derive(Clone, Copy)]
pub struct SurfaceCapabilities {
    pub min_image_count: u32,
    /// 0 means that there is no limit.
    pub max_image_count: u32,
    /// A width of `u32::MAX` means that the window decides the size.
    pub current_extent: Extent2D,
    pub min_image_extent: Extent2D,
    pub max_image_extent: Extent2D,
    /// Raw `VkSurfaceTransformFlagBitsKHR`.
    pub current_transform: u32,
}

/// What a surface supports on a device.
pub struct SwapChainSupportDetails {
    pub capabilities: SurfaceCapabilities,
    pub formats: Vec<SurfaceFormat>,
    /// Raw `VkPresentModeKHR` values.
    pub present_modes: Vec<i32>,
}

/// The settings a swap chain is created with.
pub struct SwapchainPlan {
    pub format: SurfaceFormat,
    pub present_mode: i32,
    pub extent: Extent2D,
    pub min_image_count: u32,
    pub image_array_layers: u32,
    pub image_usage: u32,
    /// Raw `VkSharingMode`.
    pub sharing_mode: i32,
    pub queue_family_indices: Vec<u32>,
    pub pre_transform: u32,
    pub composite_alpha: u32,
    pub clipped: bool,
}

/// The format this program prefers: 8-bit BGRA in sRGB.
pub open spec fn is_preferred_format(f: SurfaceFormat) -> bool {
    f.format == FORMAT_B8G8R8A8_SRGB && f.color_space == COLOR_SPACE_SRGB_NONLINEAR
}

/// `f` is the format chosen from `formats`: the first preferred one, or the
/// first one when none is preferred.
pub open spec fn is_chosen_format(formats: Seq<SurfaceFormat>, f: SurfaceFormat) -> bool {
    ||| exists|i: int|
        0 <= i < formats.len() && is_preferred_format(#[trigger] formats[i]) && f == formats[i]
            && forall|j: int| 0 <= j < i ==> !is_preferred_format(#[trigger] formats[j])
    ||| (forall|j: int| 0 <= j < formats.len() ==> !is_preferred_format(#[trigger] formats[j]))
        && f == formats[0]
}

/// Mailbox when the surface offers it, FIFO (which every surface offers)
/// otherwise.
pub open spec fn chosen_present_mode(modes: Seq<i32>) -> i32 {
    if modes.contains(PRESENT_MODE_MAILBOX) { PRESENT_MODE_MAILBOX } else { PRESENT_MODE_FIFO }
}

/// `value` brought into `[lo, hi]`.
pub open spec fn clamped(value: u32, lo: u32, hi: u32) -> u32 {
    if value < lo { lo } else if value > hi { hi } else { value }
}

/// The surface fixes the extent, unless its width is `u32::MAX`.
pub open spec fn extent_is_fixed(caps: SurfaceCapabilities) -> bool {
    caps.current_extent.width != u32::MAX
}

/// The limits of the extent are in order wherever they are used.
pub open spec fn extent_limits_ordered(caps: SurfaceCapabilities) -> bool {
    !extent_is_fixed(caps) ==> {
        &&& caps.min_image_extent.width <= caps.max_image_extent.width
        &&& caps.min_image_extent.height <= caps.max_image_extent.height
    }
}

/// The surface's fixed extent, or else the window's size within the
/// surface's limits.
pub open spec fn chosen_extent(caps: SurfaceCapabilities, window: Extent2D) -> Extent2D {
    if extent_is_fixed(caps) {
        caps.current_extent
    } else {
        Extent2D {
            width: clamped(window.width, caps.min_image_extent.width, caps.max_image_extent.width),
            height: clamped(window.height, caps.min_image_extent.height, caps.max_image_extent.height),
        }
    }
}

/// One image more than the minimum, held to the maximum when there is one.
pub open spec fn chosen_image_count(caps: SurfaceCapabilities) -> int {
    let wanted = caps.min_image_count + 1;
    if caps.max_image_count > 0 && caps.max_image_count < wanted {
        caps.max_image_count as int
    } else {
        wanted
    }
}


/// The chosen format is one the surface offers, and a preferred one is
/// chosen whenever the surface offers one.
pub proof fn law_chosen_format_is_offered(formats: Seq<SurfaceFormat>, f: SurfaceFormat)
    requires
        formats.len() > 0,
        is_chosen_format(formats, f),
    ensures
        formats.contains(f),
        (exists|i: int| 0 <= i < formats.len() && is_preferred_format(#[trigger] formats[i])) ==> is_preferred_format(f),
{
    if exists|i: int|
        0 <= i < formats.len() && is_preferred_format(#[trigger] formats[i]) && f == formats[i]
            && forall|j: int| 0 <= j < i ==> !is_preferred_format(#[trigger] formats[j]) {
        let i = choose|i: int|
            0 <= i < formats.len() && is_preferred_format(#[trigger] formats[i]) && f == formats[i]
                && forall|j: int| 0 <= j < i ==> !is_preferred_format(#[trigger] formats[j]);
        assert(formats[i] == f);
    } else {
        assert(formats[0] == f);
    }
}

/// The present mode is always mailbox or FIFO, and mailbox exactly when the
/// surface offers it.
pub proof fn law_present_mode_choice(modes: Seq<i32>)
    ensures
        chosen_present_mode(modes) == PRESENT_MODE_MAILBOX || chosen_present_mode(modes) == PRESENT_MODE_FIFO,
        chosen_present_mode(modes) == PRESENT_MODE_MAILBOX <==> modes.contains(PRESENT_MODE_MAILBOX),
{
}

/// Where the window decides the size, the extent lies within the surface's
/// limits, and equals the window's size when that size is within them;
/// otherwise it is the surface's own extent.
pub proof fn law_extent_within_limits(caps: SurfaceCapabilities, window: Extent2D)
    requires
        extent_limits_ordered(caps),
    ensures
        extent_is_fixed(caps) ==> chosen_extent(caps, window) == caps.current_extent,
        !extent_is_fixed(caps) ==> {
            let e = chosen_extent(caps, window);
            &&& caps.min_image_extent.width <= e.width <= caps.max_image_extent.width
            &&& caps.min_image_extent.height <= e.height <= caps.max_image_extent.height
            &&& (caps.min_image_extent.width <= window.width <= caps.max_image_extent.width ==> e.width == window.width)
            &&& (caps.min_image_extent.height <= window.height <= caps.max_image_extent.height ==> e.height == window.height)
        },
{
}

/// The image count is one more than the surface's minimum, unless the
/// surface's maximum is lower; it never exceeds a maximum.
pub proof fn law_image_count_bounds(caps: SurfaceCapabilities)
    ensures
        caps.max_image_count > 0 ==> chosen_image_count(caps) <= caps.max_image_count,
        (caps.max_image_count == 0 || caps.max_image_count > caps.min_image_count)
            ==> chosen_image_count(caps) == caps.min_image_count + 1,
{
}

/// Picks the surface format: the first 8-bit BGRA sRGB one, or else the
/// first one offered.
pub fn choose_swap_surface_format(formats: &Vec<SurfaceFormat>) -> (chosen: SurfaceFormat)
    requires
        formats.len() > 0,
    ensures
        is_chosen_format(formats@, chosen),
{
    let mut i: usize = 0;
    while i < formats.len()
        invariant
            i <= formats.len(),
            formats.len() > 0,
            forall|j: int| 0 <= j < i ==> !is_preferred_format(#[trigger] formats@[j]),
        decreases formats.len() - i,
    {
        let f = formats[i];
        if f.format == FORMAT_B8G8R8A8_SRGB && f.color_space == COLOR_SPACE_SRGB_NONLINEAR {
            assert(is_preferred_format(formats@[i as int]));
            return f;
        }
        i = i + 1;
    }
    formats[0]
}

/// Picks the present mode: mailbox when offered, FIFO otherwise.
pub fn choose_swap_present_mode(modes: &Vec<i32>) -> (mode: i32)
    ensures
        mode == chosen_present_mode(modes@),
{
    let mut i: usize = 0;
    while i < modes.len()
        invariant
            i <= modes.len(),
            forall|j: int| 0 <= j < i ==> modes@[j] != PRESENT_MODE_MAILBOX,
        decreases modes.len() - i,
    {
        if modes[i] == PRESENT_MODE_MAILBOX {
            assert(modes@[i as int] == PRESENT_MODE_MAILBOX);
            return PRESENT_MODE_MAILBOX;
        }
        i = i + 1;
    }
    PRESENT_MODE_FIFO
}

/// `value` brought into `[lo, hi]`.
fn clamp_u32(value: u32, lo: u32, hi: u32) -> (r: u32)
    requires
        lo <= hi,
    ensures
        r == clamped(value, lo, hi),
{
    if value < lo {
        lo
    } else if value > hi {
        hi
    } else {
        value
    }
}

/// Picks the size of the swap chain's images from the surface and from the
/// window's size in pixels.
pub fn choose_swap_extent(capabilities: &SurfaceCapabilities, window_size: Extent2D) -> (extent: Extent2D)
    requires
        extent_limits_ordered(*capabilities),
    ensures
        extent == chosen_extent(*capabilities, window_size),
{
    if capabilities.current_extent.width != u32::MAX {
        return capabilities.current_extent;
    }
    Extent2D {
        width: clamp_u32(
            window_size.width,
            capabilities.min_image_extent.width,
            capabilities.max_image_extent.width,
        ),
        height: clamp_u32(
            window_size.height,
            capabilities.min_image_extent.height,
            capabilities.max_image_extent.height,
        ),
    }
}

/// The number of images to ask for.
pub fn choose_image_count(capabilities: &SurfaceCapabilities) -> (count: u32)
    requires
        capabilities.min_image_count < u32::MAX,
    ensures
        count == chosen_image_count(*capabilities),
{
    let mut count = capabilities.min_image_count + 1;
    if capabilities.max_image_count > 0 && capabilities.max_image_count < count {
        count = capabilities.max_image_count;
    }
    count
}

/// How the swap chain's images are shared: concurrently between the two
/// families when they differ, exclusively otherwise.
pub fn choose_sharing(indices: &QueueFamilyIndices) -> (sharing: (i32, Vec<u32>))
    requires
        indices.complete(),
    ensures
        indices.graphic_family != indices.present_family ==> {
            &&& sharing.0 == SHARING_MODE_CONCURRENT
            &&& sharing.1@ == seq![indices.graphic_family->0, indices.present_family->0]
        },
        indices.graphic_family == indices.present_family ==> {
            &&& sharing.0 == SHARING_MODE_EXCLUSIVE
            &&& sharing.1@ == Seq::<u32>::empty()
        },
{
    let graphics = indices.graphic_family.unwrap();
    let present = indices.present_family.unwrap();
    if graphics != present {
        let mut families: Vec<u32> = Vec::new();
        families.push(graphics);
        families.push(present);
        assert(families@ =~= seq![graphics, present]);
        (SHARING_MODE_CONCURRENT, families)
    } else {
        let families: Vec<u32> = Vec::new();
        (SHARING_MODE_EXCLUSIVE, families)
    }
}

/// All the settings of the swap chain, from what the surface supports, the
/// window's size and the queue families in use.
pub fn swap_chain_plan(
    support: &SwapChainSupportDetails,
    window_size: Extent2D,
    indices: &QueueFamilyIndices,
) -> (plan: SwapchainPlan)
    requires
        support.formats.len() > 0,
        extent_limits_ordered(support.capabilities),
        support.capabilities.min_image_count < u32::MAX,
        indices.complete(),
    ensures
        is_chosen_format(support.formats@, plan.format),
        plan.present_mode == chosen_present_mode(support.present_modes@),
        plan.extent == chosen_extent(support.capabilities, window_size),
        plan.min_image_count == chosen_image_count(support.capabilities),
        plan.image_array_layers == 1,
        plan.image_usage == IMAGE_USAGE_COLOR_ATTACHMENT,
        indices.graphic_family != indices.present_family ==> {
            &&& plan.sharing_mode == SHARING_MODE_CONCURRENT
            &&& plan.queue_family_indices@ == seq![indices.graphic_family->0, indices.present_family->0]
        },
        indices.graphic_family == indices.present_family ==> {
            &&& plan.sharing_mode == SHARING_MODE_EXCLUSIVE
            &&& plan.queue_family_indices@ == Seq::<u32>::empty()
        },
        plan.pre_transform == support.capabilities.current_transform,
        plan.composite_alpha == COMPOSITE_ALPHA_OPAQUE,
        plan.clipped,
{
    let format = choose_swap_surface_format(&support.formats);
    let present_mode = choose_swap_present_mode(&support.present_modes);
    let extent = choose_swap_extent(&support.capabilities, window_size);
    let min_image_count = choose_image_count(&support.capabilities);
    let (sharing_mode, queue_family_indices) = choose_sharing(indices);
    SwapchainPlan {
        format,
        present_mode,
        extent,
        min_image_count,
        image_array_layers: 1,
        image_usage: IMAGE_USAGE_COLOR_ATTACHMENT,
        sharing_mode,
        queue_family_indices,
        pre_transform: support.capabilities.current_transform,
        composite_alpha: COMPOSITE_ALPHA_OPAQUE,
        clipped: true,
    }
}

} // verus!
