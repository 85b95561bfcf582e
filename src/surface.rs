//! Surface formats and the surface configuration.
use vstd::prelude::*;

verus! {

/// A pixel format reported by a surface. The two 8-bit sRGB layouts are told
/// apart; any other format is carried as a code chosen by the caller (for
/// instance its position in the list that the surface reported).
#[derive(Clone, Copy, Debug, PartialEq, Eq, Structural)]
pub enum PixelFormat {
    Bgra8UnormSrgb,
    Rgba8UnormSrgb,
    Other(u32),
}

/// How finished frames are handed to the display.
#[derive(Clone, Copy, Debug, PartialEq, Eq, Structural)]
pub enum PresentMode {
    /// Frames are shown in submission order, one per display refresh.
    Fifo,
}

/// The frame latency that every configuration asks for.
pub const FRAME_LATENCY: u32 = 2;

impl PixelFormat {
    pub open spec fn is_srgb8_spec(self) -> bool {
        self is Bgra8UnormSrgb || self is Rgba8UnormSrgb
    }

    /// Whether this is one of the 8-bit sRGB layouts.
    pub fn is_srgb8(&self) -> (r: bool)
        ensures
            r == self.is_srgb8_spec(),
    {
        match self {
            PixelFormat::Bgra8UnormSrgb => true,
            PixelFormat::Rgba8UnormSrgb => true,
            PixelFormat::Other(_) => false,
        }
    }
}

/// The format to configure a surface with, given the formats it reports: the
/// first 8-bit sRGB one, else the first one; none when the list is empty.
pub open spec fn preferred_format(formats: Seq<PixelFormat>) -> Option<PixelFormat> {
    if formats.len() == 0 {
        None
    } else if exists|i: int| 0 <= i < formats.len() && formats[i].is_srgb8_spec() {
        let i = choose|i: int|
            0 <= i < formats.len() && formats[i].is_srgb8_spec() && forall|j: int|
                0 <= j < i ==> !formats[j].is_srgb8_spec();
        Some(formats[i])
    } else {
        Some(formats[0])
    }
}

/// Picks the surface format as `preferred_format` describes.
pub fn choose_format(formats: &Vec<PixelFormat>) -> (r: Option<PixelFormat>)
    ensures
        r == preferred_format(formats@),
{
    let n = formats.len();
    let mut i: usize = 0;
    while i < n
        invariant
            n == formats@.len(),
            0 <= i <= n,
            forall|j: int| 0 <= j < i ==> !formats@[j].is_srgb8_spec(),
        decreases n - i,
    {
        if formats[i].is_srgb8() {
            proof {
                let k = i as int;
                assert(0 <= k < formats@.len() && formats@[k].is_srgb8_spec() && forall|j: int|
                    0 <= j < k ==> !formats@[j].is_srgb8_spec());
                let c = choose|c: int|
                    0 <= c < formats@.len() && formats@[c].is_srgb8_spec() && forall|j: int|
                        0 <= j < c ==> !formats@[j].is_srgb8_spec();
                if c < k {
                    assert(!formats@[c].is_srgb8_spec());
                } else if c > k {
                    assert(!formats@[k].is_srgb8_spec());
                }
            }
            return Some(formats[i]);
        }
        i += 1;
    }
    if n == 0 {
        None
    } else {
        Some(formats[0])
    }
}

/// The configuration of a presentable surface.
pub struct SurfaceConfig {
    pub format: PixelFormat,
    pub width: u32,
    pub height: u32,
    pub present_mode: PresentMode,
    pub frame_latency: u32,
}

impl SurfaceConfig {
    /// Width and height are never zero; presentation is FIFO with the fixed
    /// frame latency.
    pub open spec fn wf(&self) -> bool {
        &&& self.width >= 1
        &&& self.height >= 1
        &&& self.present_mode == PresentMode::Fifo
        &&& self.frame_latency == FRAME_LATENCY
    }

    /// A configuration for a surface of the given size, with zero dimensions
    /// raised to one.
    pub fn new(format: PixelFormat, width: u32, height: u32) -> (r: SurfaceConfig)
        ensures
            r.wf(),
            r.format == format,
            r.width == if width == 0 { 1 } else { width },
            r.height == if height == 0 { 1 } else { height },
    {
        SurfaceConfig {
            format,
            width: if width == 0 { 1 } else { width },
            height: if height == 0 { 1 } else { height },
            present_mode: PresentMode::Fifo,
            frame_latency: FRAME_LATENCY,
        }
    }

    /// Takes the new size when both dimensions are non-zero; otherwise leaves
    /// the configuration as it was. Returns whether the size was taken.
    pub fn resize(&mut self, width: u32, height: u32) -> (changed: bool)
        requires
            old(self).wf(),
        ensures
            final(self).wf(),
            changed == (width > 0 && height > 0),
            final(self).format == old(self).format,
            changed ==> final(self).width == width && final(self).height == height,
            !changed ==> *final(self) == *old(self),
    {
        if width > 0 && height > 0 {
            self.width = width;
            self.height = height;
            true
        } else {
            false
        }
    }
}

} // verus!
