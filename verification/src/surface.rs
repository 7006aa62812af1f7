use vstd::prelude::*;

verus! {

/// A presentable texture format as the graphics backend reports it: an
/// opaque identifying code together with whether the format is sRGB-encoded,
/// which is the one property the selection policy reads.
#[derive(Clone, Copy, PartialEq, Eq, Structural, Debug)]
pub struct TextureFormat {
    pub code: u32,
    pub srgb: bool,
}

/// The capabilities of one adapter/surface pair: the formats, present modes
/// and alpha-compositing modes it supports, in the backend's reported order.
/// Present and alpha modes are carried as opaque codes; the policy only ever
/// picks the first of each list.
#[derive(Clone, Debug)]
pub struct SurfaceCaps {
    pub formats: Vec<TextureFormat>,
    pub present_modes: Vec<u32>,
    pub alpha_modes: Vec<u32>,
}

impl SurfaceCaps {
    /// A capability snapshot is usable when each list is non-empty, which a
    /// backend guarantees for a surface it agreed to present to.
    pub open spec fn wf(&self) -> bool {
        &&& self.formats@.len() > 0
        &&& self.present_modes@.len() > 0
        &&& self.alpha_modes@.len() > 0
    }
}

/// The mutable value describing how the surface is currently set up to
/// present images.
#[derive(Clone, Copy, PartialEq, Eq, Structural, Debug)]
pub struct SurfaceConfig {
    pub format: TextureFormat,
    pub width: u32,
    pub height: u32,
    pub present_mode: u32,
    pub alpha_mode: u32,
}

impl SurfaceConfig {
    /// A configuration may only ever be applied with strictly positive
    /// dimensions; a zero-sized one is rejected, never applied.
    pub open spec fn wf(&self) -> bool {
        self.width > 0 && self.height > 0
    }
}

/// Whether some format of the list is sRGB-encoded.
pub open spec fn has_srgb(formats: Seq<TextureFormat>) -> bool {
    exists|i: int| 0 <= i < formats.len() && formats[i].srgb
}

/// Whether index `i` holds the first sRGB-encoded format of the list.
pub open spec fn is_first_srgb(formats: Seq<TextureFormat>, i: int) -> bool {
    &&& 0 <= i < formats.len()
    &&& formats[i].srgb
    &&& forall|j: int| 0 <= j < i ==> !formats[j].srgb
}

/// The format-selection policy: the first sRGB-encoded format when one
/// exists, else the first format the backend listed.
pub open spec fn is_chosen_format(formats: Seq<TextureFormat>, f: TextureFormat) -> bool {
    if has_srgb(formats) {
        exists|i: int| is_first_srgb(formats, i) && f == formats[i]
    } else {
        formats.len() > 0 && f == formats[0]
    }
}

/// Selects the output format from the reported capabilities, preferring the
/// first sRGB-encoded entry and falling back to the first entry otherwise.
pub fn choose_format(caps: &SurfaceCaps) -> (r: TextureFormat)
    requires
        caps.formats@.len() > 0,
    ensures
        is_chosen_format(caps.formats@, r),
{
    let n = caps.formats.len();
    let mut k: usize = 0;
    while k < n
        invariant
            n == caps.formats@.len(),
            k <= n,
            forall|j: int| 0 <= j < k ==> !caps.formats@[j].srgb,
        decreases n - k,
    {
        if caps.formats[k].srgb {
            assert(is_first_srgb(caps.formats@, k as int));
            return caps.formats[k];
        }
        k += 1;
    }
    assert(!has_srgb(caps.formats@));
    caps.formats[0]
}

} // verus!
