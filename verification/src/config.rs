//! The surface configuration and how it is chosen from the capabilities the
//! surface/adapter pair reports.

use vstd::prelude::*;

verus! {

/// What the configuration choice reads out of the capabilities reported for a
/// surface/adapter pair: for each supported pixel format, in the backend's
/// preference order, whether it is an sRGB (gamma-correct) format; and how
/// many present modes and alpha modes the surface supports, again in the
/// backend's preference order.
#[derive(Debug, Clone)]
pub struct SurfaceCaps {
    pub format_is_srgb: Vec<bool>,
    pub present_mode_count: usize,
    pub alpha_mode_count: usize,
}

/// The negotiated surface configuration: the pixel format, present mode and
/// alpha mode are kept as indices into the capability lists they were chosen
/// from, beside the current size in physical pixels. The usage is always
/// render-attachment and is fixed by the embedder when the configuration is
/// applied to the surface.
#[derive(Debug, Clone, Copy, PartialEq, Eq, Structural)]
pub struct SurfaceConfig {
    pub format_index: usize,
    pub width: u32,
    pub height: u32,
    pub present_mode_index: usize,
    pub alpha_mode_index: usize,
}

impl SurfaceConfig {
    /// A configured surface always has positive dimensions.
    pub open spec fn wf(self) -> bool {
        self.width > 0 && self.height > 0
    }
}

/// Whether any supported format is an sRGB format.
pub open spec fn has_srgb(format_is_srgb: Seq<bool>) -> bool {
    exists|i: int| 0 <= i < format_is_srgb.len() && format_is_srgb[i]
}

/// Whether `idx` is the pixel format the canvas renders into: the first
/// format that supports gamma-correct (sRGB) output, or the first format of
/// all when none does.
pub open spec fn is_chosen_format(format_is_srgb: Seq<bool>, idx: int) -> bool {
    if has_srgb(format_is_srgb) {
        &&& 0 <= idx < format_is_srgb.len()
        &&& format_is_srgb[idx]
        &&& forall|j: int| 0 <= j < idx ==> !format_is_srgb[j]
    } else {
        idx == 0
    }
}

/// Pick the pixel format to render into: the first sRGB format, falling back
/// to the first format of all when no sRGB format is supported.
pub fn choose_format_index(format_is_srgb: &Vec<bool>) -> (idx: usize)
    requires
        format_is_srgb.len() > 0,
    ensures
        idx < format_is_srgb.len(),
        is_chosen_format(format_is_srgb@, idx as int),
{
    let n = format_is_srgb.len();
    let mut i: usize = 0;
    while i < n
        invariant
            n == format_is_srgb.len(),
            0 <= i <= n,
            forall|j: int| 0 <= j < i ==> !format_is_srgb@[j],
        decreases n - i,
    {
        if format_is_srgb[i] {
            return i;
        }
        i += 1;
    }
    0
}

/// Build the initial surface configuration for a freshly created surface of
/// the given physical size: the first sRGB format (or the first format of
/// all), the backend's preferred present mode and alpha mode, and the given
/// dimensions. The capability lists of a compatible adapter are never empty;
/// the configured size must be positive.
pub fn initial_config(caps: &SurfaceCaps, width: u32, height: u32) -> (config: SurfaceConfig)
    requires
        caps.format_is_srgb.len() > 0,
        caps.present_mode_count > 0,
        caps.alpha_mode_count > 0,
        width > 0,
        height > 0,
    ensures
        config.wf(),
        config.width == width,
        config.height == height,
        config.present_mode_index == 0,
        config.alpha_mode_index == 0,
        is_chosen_format(caps.format_is_srgb@, config.format_index as int),
{
    let format_index = choose_format_index(&caps.format_is_srgb);
    SurfaceConfig {
        format_index,
        width,
        height,
        present_mode_index: 0,
        alpha_mode_index: 0,
    }
}

} // verus!
