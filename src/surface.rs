//! Presentation surface configuration: extent, image count, present mode and format.

use vstd::prelude::*;

verus! {

/// The value of `current_extent.width` meaning that the swapchain decides the extent.
pub const UNDEFINED_EXTENT: u32 = 0xFFFF_FFFF;

/// A size in pixels.
#[derive(Clone, Copy, Debug, PartialEq, Eq, Structural)]
pub struct Extent2D {
    pub width: u32,
    pub height: u32,
}

impl Extent2D {
    /// A surface with no pixels: the window is minimized.
    pub open spec fn zero_sized(self) -> bool {
        self.width == 0 || self.height == 0
    }

    pub fn is_zero(&self) -> (r: bool)
        ensures
            r == self.zero_sized(),
    {
        self.width == 0 || self.height == 0
    }
}

/// What the device reports about a surface.
#[derive(Clone, Copy, Debug, PartialEq, Eq, Structural)]
pub struct SurfaceCapabilities {
    pub min_image_count: u32,
    /// Zero means that there is no upper limit.
    pub max_image_count: u32,
    pub current_extent: Extent2D,
    pub min_image_extent: Extent2D,
    pub max_image_extent: Extent2D,
}

#[derive(Clone, Copy, Debug, PartialEq, Eq, Structural)]
pub enum PresentMode {
    Immediate,
    Mailbox,
    Fifo,
    FifoRelaxed,
}

/// A pixel format with its color space, as raw API codes.
#[derive(Clone, Copy, Debug, PartialEq, Eq, Structural)]
pub struct SurfaceFormat {
    pub format: i32,
    pub color_space: i32,
}

/// Everything a swapchain is created from.
#[derive(Clone, Copy, Debug, PartialEq, Eq, Structural)]
pub struct SurfaceConfig {
    pub format: SurfaceFormat,
    pub extent: Extent2D,
    pub present_mode: PresentMode,
    pub min_image_count: u32,
}

#[derive(Clone, Copy, Debug, PartialEq, Eq, Structural)]
pub enum SurfaceError {
    /// The requested or the surface's extent has a zero side: skip, do not recreate.
    Minimized,
    /// The surface offers no format.
    NoFormat,
}

pub open spec fn clamp_spec(v: u32, lo: u32, hi: u32) -> u32 {
    if v < lo {
        lo
    } else if v > hi {
        hi
    } else {
        v
    }
}

/// One image more than the minimum, held to the maximum where there is one.
pub open spec fn image_count_spec(caps: SurfaceCapabilities) -> u32 {
    let wanted = caps.min_image_count as int + 1;
    if caps.max_image_count != 0 && wanted > caps.max_image_count {
        caps.max_image_count
    } else if wanted > u32::MAX {
        u32::MAX
    } else {
        wanted as u32
    }
}

/// The surface's own extent, or the requested one held to the allowed range.
pub open spec fn extent_spec(caps: SurfaceCapabilities, requested: Extent2D) -> Extent2D {
    if caps.current_extent.width != UNDEFINED_EXTENT {
        caps.current_extent
    } else {
        Extent2D {
            width: clamp_spec(
                requested.width,
                caps.min_image_extent.width,
                caps.max_image_extent.width,
            ),
            height: clamp_spec(
                requested.height,
                caps.min_image_extent.height,
                caps.max_image_extent.height,
            ),
        }
    }
}

/// Non-blocking modes first; FIFO is the one every device has.
pub open spec fn present_mode_spec(modes: Seq<PresentMode>) -> PresentMode {
    if modes.contains(PresentMode::Mailbox) {
        PresentMode::Mailbox
    } else if modes.contains(PresentMode::Immediate) {
        PresentMode::Immediate
    } else {
        PresentMode::Fifo
    }
}

pub open spec fn configure_spec(
    caps: SurfaceCapabilities,
    formats: Seq<SurfaceFormat>,
    modes: Seq<PresentMode>,
    requested: Extent2D,
) -> Result<SurfaceConfig, SurfaceError> {
    let extent = extent_spec(caps, requested);
    if requested.zero_sized() || extent.zero_sized() {
        Err(SurfaceError::Minimized)
    } else if formats.len() == 0 {
        Err(SurfaceError::NoFormat)
    } else {
        Ok(
            SurfaceConfig {
                format: formats[0],
                extent,
                present_mode: present_mode_spec(modes),
                min_image_count: image_count_spec(caps),
            },
        )
    }
}

/// Holds `v` to `lo..=hi`; where `lo > hi`, values below `lo` give `lo`.
pub fn clamp(v: u32, lo: u32, hi: u32) -> (r: u32)
    ensures
        r == clamp_spec(v, lo, hi),
{
    if v < lo {
        lo
    } else if v > hi {
        hi
    } else {
        v
    }
}

pub fn choose_image_count(caps: &SurfaceCapabilities) -> (r: u32)
    ensures
        r == image_count_spec(*caps),
{
    let wanted: u32 = if caps.min_image_count < u32::MAX {
        caps.min_image_count + 1
    } else {
        u32::MAX
    };
    if caps.max_image_count != 0 && caps.min_image_count >= caps.max_image_count {
        caps.max_image_count
    } else {
        wanted
    }
}

pub fn choose_extent(caps: &SurfaceCapabilities, requested: Extent2D) -> (r: Extent2D)
    ensures
        r == extent_spec(*caps, requested),
{
    if caps.current_extent.width != UNDEFINED_EXTENT {
        caps.current_extent
    } else {
        Extent2D {
            width: clamp(
                requested.width,
                caps.min_image_extent.width,
                caps.max_image_extent.width,
            ),
            height: clamp(
                requested.height,
                caps.min_image_extent.height,
                caps.max_image_extent.height,
            ),
        }
    }
}

fn offers(modes: &Vec<PresentMode>, mode: PresentMode) -> (r: bool)
    ensures
        r == modes@.contains(mode),
{
    let mut i: usize = 0;
    while i < modes.len()
        invariant
            i <= modes@.len(),
            forall|j: int| 0 <= j < i ==> modes@[j] != mode,
        decreases modes@.len() - i,
    {
        if modes[i] == mode {
            return true;
        }
        i = i + 1;
    }
    false
}

pub fn choose_present_mode(modes: &Vec<PresentMode>) -> (r: PresentMode)
    ensures
        r == present_mode_spec(modes@),
{
    if offers(modes, PresentMode::Mailbox) {
        PresentMode::Mailbox
    } else if offers(modes, PresentMode::Immediate) {
        PresentMode::Immediate
    } else {
        PresentMode::Fifo
    }
}

/// Picks what the next swapchain is created from. The first format the surface
/// lists is taken.
pub fn configure(
    caps: &SurfaceCapabilities,
    formats: &Vec<SurfaceFormat>,
    modes: &Vec<PresentMode>,
    requested: Extent2D,
) -> (r: Result<SurfaceConfig, SurfaceError>)
    ensures
        r == configure_spec(*caps, formats@, modes@, requested),
{
    let extent = choose_extent(caps, requested);
    if requested.is_zero() || extent.is_zero() {
        Err(SurfaceError::Minimized)
    } else if formats.len() == 0 {
        Err(SurfaceError::NoFormat)
    } else {
        Ok(
            SurfaceConfig {
                format: formats[0],
                extent,
                present_mode: choose_present_mode(modes),
                min_image_count: choose_image_count(caps),
            },
        )
    }
}

} // verus!
