//! Surface format choice and the viewport that follows the configured extent.

use vstd::prelude::*;

use crate::hal::{channel_is_srgb, srgb_channel};
use gfx_hal::format::Format;
use gfx_hal::pso::Rect;
use gfx_hal::window::Extent2D;

verus! {

/// A format usable for the surface: sRGB-encoded when the channel type says so.
pub open spec fn is_srgb(f: Format) -> bool {
    !(f is __NumFormats) && srgb_channel(f)
}

/// The format used when the surface reports no supported formats.
pub open spec fn default_format() -> Format {
    Format::Rgba8Srgb
}

/// The format chosen from a list: the first sRGB one, else the first one,
/// else the default.
pub open spec fn chosen_format(formats: Option<Seq<Format>>) -> Format {
    match formats {
        None => default_format(),
        Some(s) => if exists|i: int| 0 <= i < s.len() && is_srgb(#[trigger] s[i]) {
            s[first_srgb(s)]
        } else if s.len() > 0 {
            s[0]
        } else {
            default_format()
        },
    }
}

/// Index of the first sRGB format of `s`, where there is one.
pub open spec fn first_srgb(s: Seq<Format>) -> int
    recommends
        exists|i: int| 0 <= i < s.len() && is_srgb(#[trigger] s[i]),
{
    choose|i: int|
        0 <= i < s.len() && is_srgb(s[i]) && forall|j: int| 0 <= j < i ==> !is_srgb(#[trigger] s[j])
}

/// The view of an optional format list.
pub open spec fn formats_view(formats: Option<Vec<Format>>) -> Option<Seq<Format>> {
    match formats {
        None => None,
        Some(v) => Some(v@),
    }
}

/// The viewport rectangle that covers an extent from the origin.
pub open spec fn rect_of(e: Extent2D) -> Rect {
    Rect { x: 0, y: 0, w: e.width as i16, h: e.height as i16 }
}

fn format_is_srgb(f: Format) -> (r: bool)
    ensures
        r == is_srgb(f),
{
    if matches!(f, Format::__NumFormats) {
        false
    } else {
        channel_is_srgb(f)
    }
}

/// Picks the surface format: the first sRGB one offered, else the first
/// offered, else `Rgba8Srgb`.
pub fn select_format(formats: &Option<Vec<Format>>) -> (r: Format)
    ensures
        r == chosen_format(formats_view(*formats)),
{
    match formats {
        None => Format::Rgba8Srgb,
        Some(v) => {
            let mut i: usize = 0;
            while i < v.len()
                invariant
                    i <= v.len(),
                    formats_view(*formats) == Some(v@),
                    forall|j: int| 0 <= j < i ==> !is_srgb(#[trigger] v@[j]),
                decreases v.len() - i,
            {
                if format_is_srgb(v[i]) {
                    proof {
                        let w = i as int;
                        assert(0 <= w < v@.len() && is_srgb(v@[w]) && forall|j: int|
                            0 <= j < w ==> !is_srgb(#[trigger] v@[j]));
                        assert(exists|m: int|
                            0 <= m < v@.len() && is_srgb(v@[m]) && forall|j: int|
                                0 <= j < m ==> !is_srgb(#[trigger] v@[j]));
                        let k = first_srgb(v@);
                        assert(0 <= k < v@.len() && is_srgb(v@[k]));
                        if (k as int) < i {
                            assert(!is_srgb(v@[k]));
                        }
                        if (k as int) > i {
                            assert(!is_srgb(v@[i as int]));
                        }
                    }
                    return v[i];
                }
                i = i + 1;
            }
            if v.len() > 0 {
                v[0]
            } else {
                Format::Rgba8Srgb
            }
        },
    }
}

/// The presentation configuration of a surface: chosen format, requested
/// extent, and the viewport of the last applied configuration.
pub struct Swapchain {
    pub format: Format,
    pub dims: Extent2D,
    pub viewport: Rect,
}

impl Swapchain {
    /// The swapchain for a surface offering `formats`, sized for `dims`, whose
    /// viewport covers `configured`, the extent of the first configuration.
    pub fn new(formats: &Option<Vec<Format>>, dims: Extent2D, configured: Extent2D) -> (r: Swapchain)
        ensures
            r.format == chosen_format(formats_view(*formats)),
            r.dims == dims,
            r.viewport == rect_of(configured),
    {
        let format = select_format(formats);
        let mut swapchain = Swapchain {
            format,
            dims,
            viewport: Rect { x: 0, y: 0, w: 0, h: 0 },
        };
        swapchain.recreate(configured);
        swapchain
    }

    /// Records that the surface was reconfigured with extent `extent`: the
    /// viewport now covers it; format and requested extent stay.
    pub fn recreate(&mut self, extent: Extent2D)
        ensures
            *final(self) == recreated(*old(self), extent),
    {
        self.viewport = Rect { x: 0, y: 0, w: extent.width as i16, h: extent.height as i16 };
    }
}

/// The swapchain after reconfiguration with `extent`: the viewport covers the
/// extent, all else stays.
pub open spec fn recreated(s: Swapchain, extent: Extent2D) -> Swapchain {
    Swapchain { viewport: rect_of(extent), ..s }
}

/// Reconfiguring twice with the same extent yields the same swapchain, and
/// so the same viewport, as reconfiguring once.
pub proof fn lemma_recreate_idempotent(s: Swapchain, extent: Extent2D)
    ensures
        recreated(recreated(s, extent), extent) == recreated(s, extent),
        recreated(recreated(s, extent), extent).viewport == rect_of(extent),
{
}

} // verus!
