//! Choosing the configuration of a swapchain from what the surface reports.
use vstd::prelude::*;

verus! {

/// `VK_FORMAT_B8G8R8A8_SRGB`, the preferred presentation format.
pub const FORMAT_B8G8R8A8_SRGB: i32 = 50;

/// `VK_COLOR_SPACE_SRGB_NONLINEAR_KHR`, the preferred colour space.
pub const COLOR_SPACE_SRGB_NONLINEAR: i32 = 0;

/// `VK_PRESENT_MODE_MAILBOX_KHR`, the preferred present mode.
pub const PRESENT_MODE_MAILBOX: i32 = 1;

/// `VK_PRESENT_MODE_FIFO_KHR`, which every implementation supports.
pub const PRESENT_MODE_FIFO: i32 = 2;

/// A surface's width written here means "any extent is accepted".
pub const ANY_EXTENT: u32 = 0xFFFF_FFFF;

/// A pixel format together with its colour space.
#[derive(Clone, Copy, Debug, PartialEq, Eq, Structural)]
pub struct SurfaceFormat {
    pub format: i32,
    pub color_space: i32,
}

/// A two-dimensional size in pixels.
#[derive(Clone, Copy, Debug, PartialEq, Eq, Structural)]
pub struct Extent2D {
    pub width: u32,
    pub height: u32,
}

/// What a surface reports about the swapchains it accepts.
#[derive(Clone, Copy, Debug, PartialEq, Eq, Structural)]
pub struct SurfaceCapabilities {
    pub min_image_count: u32,
    /// Zero means that there is no maximum.
    pub max_image_count: u32,
    pub current_extent: Extent2D,
    pub min_image_extent: Extent2D,
    pub max_image_extent: Extent2D,
}

/// Everything a surface reports for one physical device.
#[derive(Clone, Debug)]
pub struct SwapchainSupport {
    pub capabilities: SurfaceCapabilities,
    pub formats: Vec<SurfaceFormat>,
    pub present_modes: Vec<i32>,
}

/// The parameters a swapchain is built with.
#[derive(Clone, Copy, Debug, PartialEq, Eq, Structural)]
pub struct SwapchainConfig {
    pub format: SurfaceFormat,
    pub present_mode: i32,
    pub extent: Extent2D,
    pub image_count: u32,
}

pub open spec fn is_preferred_format(f: SurfaceFormat) -> bool {
    f.format == FORMAT_B8G8R8A8_SRGB && f.color_space == COLOR_SPACE_SRGB_NONLINEAR
}

/// The surface format picked from a non-empty list: the first preferred
/// pair if there is one, else the first entry.
pub open spec fn chosen_format(formats: Seq<SurfaceFormat>) -> SurfaceFormat
    recommends
        formats.len() > 0,
{
    if exists|i: int| 0 <= i < formats.len() && is_preferred_format(#[trigger] formats[i]) {
        formats[first_preferred(formats)]
    } else {
        formats[0]
    }
}

/// Index of the first preferred format.
pub open spec fn first_preferred(formats: Seq<SurfaceFormat>) -> int {
    choose|i: int|
        0 <= i < formats.len() && is_preferred_format(formats[i]) && forall|j: int|
            0 <= j < i ==> !is_preferred_format(#[trigger] formats[j])
}

pub open spec fn chosen_present_mode(modes: Seq<i32>) -> i32 {
    if modes.contains(PRESENT_MODE_MAILBOX) {
        PRESENT_MODE_MAILBOX
    } else {
        PRESENT_MODE_FIFO
    }
}

pub open spec fn clamp(x: u32, lo: u32, hi: u32) -> u32 {
    if x > hi {
        if hi < lo { lo } else { hi }
    } else if x < lo {
        lo
    } else {
        x
    }
}

pub open spec fn chosen_extent(caps: SurfaceCapabilities, window: Extent2D) -> Extent2D {
    if caps.current_extent.width != ANY_EXTENT {
        caps.current_extent
    } else {
        Extent2D {
            width: clamp(window.width, caps.min_image_extent.width, caps.max_image_extent.width),
            height: clamp(window.height, caps.min_image_extent.height, caps.max_image_extent.height),
        }
    }
}

/// One image more than the minimum, capped by the maximum when there is one
/// (and by the largest `u32`).
pub open spec fn chosen_image_count(caps: SurfaceCapabilities) -> u32 {
    if caps.max_image_count != 0 && caps.min_image_count >= caps.max_image_count {
        caps.max_image_count
    } else if caps.min_image_count == u32::MAX {
        u32::MAX
    } else {
        (caps.min_image_count + 1) as u32
    }
}

pub open spec fn chosen_config(
    caps: SurfaceCapabilities,
    formats: Seq<SurfaceFormat>,
    modes: Seq<i32>,
    window: Extent2D,
) -> SwapchainConfig {
    SwapchainConfig {
        format: chosen_format(formats),
        present_mode: chosen_present_mode(modes),
        extent: chosen_extent(caps, window),
        image_count: chosen_image_count(caps),
    }
}

proof fn lemma_first_preferred(formats: Seq<SurfaceFormat>, i: int)
    requires
        0 <= i < formats.len(),
        is_preferred_format(formats[i]),
        forall|j: int| 0 <= j < i ==> !is_preferred_format(#[trigger] formats[j]),
    ensures
        first_preferred(formats) == i,
{
    let k = first_preferred(formats);
    assert(0 <= k < formats.len() && is_preferred_format(formats[k]));
    if k < i {
        assert(!is_preferred_format(formats[k]));
    } else if k > i {
        assert(!is_preferred_format(formats[i]));
    }
}

/// Picks the surface format: the first entry with the sRGB BGRA format in
/// the non-linear sRGB colour space, else the first entry; `None` when the
/// list is empty.
pub fn choose_surface_format(formats: &Vec<SurfaceFormat>) -> (r: Option<SurfaceFormat>)
    ensures
        formats@.len() == 0 ==> r is None,
        formats@.len() > 0 ==> r == Some(chosen_format(formats@)),
{
    let mut i: usize = 0;
    while i < formats.len()
        invariant
            0 <= i <= formats@.len(),
            forall|j: int| 0 <= j < i ==> !is_preferred_format(#[trigger] formats@[j]),
        decreases formats@.len() - i,
    {
        let f = formats[i];
        if f.format == FORMAT_B8G8R8A8_SRGB && f.color_space == COLOR_SPACE_SRGB_NONLINEAR {
            proof {
                lemma_first_preferred(formats@, i as int);
            }
            return Some(f);
        }
        i += 1;
    }
    if formats.len() == 0 {
        None
    } else {
        Some(formats[0])
    }
}

/// Picks mailbox presentation when the surface offers it, else FIFO.
pub fn choose_present_mode(modes: &Vec<i32>) -> (r: i32)
    ensures
        r == chosen_present_mode(modes@),
{
    let mut i: usize = 0;
    while i < modes.len()
        invariant
            0 <= i <= modes@.len(),
            forall|j: int| 0 <= j < i ==> modes@[j] != PRESENT_MODE_MAILBOX,
        decreases modes@.len() - i,
    {
        if modes[i] == PRESENT_MODE_MAILBOX {
            return PRESENT_MODE_MAILBOX;
        }
        i += 1;
    }
    PRESENT_MODE_FIFO
}

fn clamp_u32(x: u32, lo: u32, hi: u32) -> (r: u32)
    ensures
        r == clamp(x, lo, hi),
{
    if x > hi {
        if hi < lo { lo } else { hi }
    } else if x < lo {
        lo
    } else {
        x
    }
}

/// The surface's current extent, or, where the surface accepts any extent,
/// the window's size in pixels clamped to the surface's bounds.
pub fn choose_extent(caps: &SurfaceCapabilities, window: Extent2D) -> (r: Extent2D)
    ensures
        r == chosen_extent(*caps, window),
{
    if caps.current_extent.width != ANY_EXTENT {
        caps.current_extent
    } else {
        Extent2D {
            width: clamp_u32(window.width, caps.min_image_extent.width, caps.max_image_extent.width),
            height: clamp_u32(
                window.height,
                caps.min_image_extent.height,
                caps.max_image_extent.height,
            ),
        }
    }
}

/// The number of images to ask for: one more than the minimum, capped at the
/// maximum when the surface reports one.
pub fn choose_image_count(caps: &SurfaceCapabilities) -> (r: u32)
    ensures
        r == chosen_image_count(*caps),
{
    if caps.max_image_count != 0 && caps.min_image_count >= caps.max_image_count {
        caps.max_image_count
    } else {
        caps.min_image_count.saturating_add(1)
    }
}

/// The whole swapchain configuration; `None` when the surface offers no
/// format at all.
pub fn choose_swapchain_config(support: &SwapchainSupport, window: Extent2D) -> (r: Option<
    SwapchainConfig,
>)
    ensures
        support.formats@.len() == 0 ==> r is None,
        support.formats@.len() > 0 ==> r == Some(
            chosen_config(support.capabilities, support.formats@, support.present_modes@, window),
        ),
{
    match choose_surface_format(&support.formats) {
        None => None,
        Some(format) => Some(
            SwapchainConfig {
                format,
                present_mode: choose_present_mode(&support.present_modes),
                extent: choose_extent(&support.capabilities, window),
                image_count: choose_image_count(&support.capabilities),
            },
        ),
    }
}

/// Rebuilding is idempotent under a resize to the same size: with unchanged
/// surface capabilities, building again for the extent that was chosen gives
/// the same extent, format, present mode and image count, and so does any
/// repeated build for the same window size.
pub proof fn lemma_rebuild_idempotent(support: SwapchainSupport, window: Extent2D)
    requires
        support.formats@.len() > 0,
    ensures
        ({
            let c = chosen_config(
                support.capabilities,
                support.formats@,
                support.present_modes@,
                window,
            );
            chosen_config(support.capabilities, support.formats@, support.present_modes@, c.extent)
                == c
        }),
{
}

} // verus!
