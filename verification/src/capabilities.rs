//! The capabilities of a surface when used by a physical device, decoded from what the driver
//! reports.

use vstd::prelude::*;

use crate::present::modes_from_raw_list;
use crate::present::PresentMode;
use crate::present::SupportedPresentModes;
use crate::raw::COLORSPACE_SRGB_NONLINEAR_KHR;
use crate::raw::PRESENT_MODE_FIFO_KHR;
use crate::transform::alphas_in;
use crate::transform::transforms_in;
use crate::transform::ColorSpace;
use crate::transform::CompositeAlpha;
use crate::transform::SurfaceTransform;
use crate::usage::usage_from_bits;
use crate::usage::ImageUsage;

verus! {

/// The surface capabilities exactly as the driver reports them.
#[derive(Copy, Clone, Debug, PartialEq, Eq)]
pub struct RawSurfaceCapabilities {
    pub min_image_count: u32,
    pub max_image_count: u32,
    /// Width and height; both `0xffffffff` when the swapchain decides the dimensions.
    pub current_extent: [u32; 2],
    pub min_image_extent: [u32; 2],
    pub max_image_extent: [u32; 2],
    pub max_image_array_layers: u32,
    /// Flag word of the supported transforms.
    pub supported_transforms: u32,
    /// Flag bit of the current transform.
    pub current_transform: u32,
    /// Flag word of the supported composite alpha modes.
    pub supported_composite_alpha: u32,
    /// Flag word of the supported image usages.
    pub supported_usage_flags: u32,
}

/// A format and color space pair exactly as the driver reports it.
#[derive(Copy, Clone, Debug, PartialEq, Eq, Structural)]
pub struct RawSurfaceFormat {
    /// The Vulkan number of the format.
    pub format: u32,
    /// The Vulkan number of the color space.
    pub color_space: u32,
}

/// The capabilities of a surface when used by a physical device.
///
/// You have to match these capabilities when you create a swapchain.
#[derive(Debug)]
pub struct Capabilities {
    /// Range of the number of images that can be created. Please remember that the end is out of
    /// the range.
    pub image_count: core::ops::Range<u32>,
    /// The current dimensions of the surface. `None` means that the surface's dimensions will
    /// depend on the dimensions of the swapchain that you are going to create.
    pub current_extent: Option<[u32; 2]>,
    pub min_image_extent: [u32; 2],
    pub max_image_extent: [u32; 2],
    pub max_image_array_layers: u32,
    pub supported_transforms: Vec<SurfaceTransform>,
    pub current_transform: SurfaceTransform,
    pub supported_composite_alpha: Vec<CompositeAlpha>,
    pub supported_usage_flags: ImageUsage,
    /// The supported formats, each by its Vulkan number, with their color space.
    pub supported_formats: Vec<(u32, ColorSpace)>,
    /// List of present modes that are supported. `Fifo` is always guaranteed to be supported.
    pub present_modes: SupportedPresentModes,
}

/// The extent value that stands for "decided by the swapchain".
pub open spec fn undefined_extent() -> u32 {
    0xffff_ffff
}

/// What a driver may report: the image count bound leaves room for the exclusive end, at
/// least one known transform is supported, color attachment usage is supported (as the
/// Vulkan specification says it must be), every color space is sRGB non-linear, every present
/// mode is a known one and `Fifo` is among them (as the Vulkan specification says it must be).
pub open spec fn raw_capabilities_valid(
    caps: RawSurfaceCapabilities,
    formats: Seq<RawSurfaceFormat>,
    modes: Seq<u32>,
) -> bool {
    &&& caps.max_image_count < u32::MAX
    &&& transforms_in(caps.supported_transforms).len() > 0
    &&& usage_from_bits(caps.supported_usage_flags).color_attachment
    &&& forall|i: int| 0 <= i < formats.len() ==> (#[trigger] formats[i]).color_space == COLORSPACE_SRGB_NONLINEAR_KHR
    &&& forall|i: int| 0 <= i < modes.len() ==> (#[trigger] PresentMode::from_raw_value(modes[i])) is Some
    &&& modes.contains(PRESENT_MODE_FIFO_KHR)
}

/// The format list of the capabilities: each reported format with its color space.
pub open spec fn formats_of(formats: Seq<RawSurfaceFormat>) -> Seq<(u32, ColorSpace)> {
    formats.map_values(|f: RawSurfaceFormat| (f.format, ColorSpace::SrgbNonLinear))
}

impl Clone for Capabilities {
    fn clone(&self) -> (r: Capabilities)
        ensures
            r.image_count == self.image_count,
            r.current_extent == self.current_extent,
            r.min_image_extent == self.min_image_extent,
            r.max_image_extent == self.max_image_extent,
            r.max_image_array_layers == self.max_image_array_layers,
            r.supported_transforms@ == self.supported_transforms@,
            r.current_transform == self.current_transform,
            r.supported_composite_alpha@ == self.supported_composite_alpha@,
            r.supported_usage_flags == self.supported_usage_flags,
            r.supported_formats@ == self.supported_formats@,
            r.present_modes == self.present_modes,
    {
        let mut formats: Vec<(u32, ColorSpace)> = Vec::with_capacity(self.supported_formats.len());
        let mut i: usize = 0;
        while i < self.supported_formats.len()
            invariant
                0 <= i <= self.supported_formats@.len(),
                formats@ == self.supported_formats@.take(i as int),
            decreases self.supported_formats@.len() - i,
        {
            formats.push(self.supported_formats[i]);
            assert(self.supported_formats@.take(i + 1) =~= self.supported_formats@.take(i as int).push(
                self.supported_formats@[i as int],
            ));
            i = i + 1;
        }
        assert(self.supported_formats@.take(self.supported_formats@.len() as int)
            =~= self.supported_formats@);
        Capabilities {
            image_count: self.image_count.start..self.image_count.end,
            current_extent: self.current_extent,
            min_image_extent: self.min_image_extent,
            max_image_extent: self.max_image_extent,
            max_image_array_layers: self.max_image_array_layers,
            supported_transforms: self.supported_transforms.clone(),
            current_transform: self.current_transform,
            supported_composite_alpha: self.supported_composite_alpha.clone(),
            supported_usage_flags: self.supported_usage_flags,
            supported_formats: formats,
            present_modes: self.present_modes,
        }
    }
}

impl Capabilities {
    /// Whether these capabilities are the decoding of what the driver reported.
    pub open spec fn describes(
        self,
        caps: RawSurfaceCapabilities,
        formats: Seq<RawSurfaceFormat>,
        modes: Seq<u32>,
    ) -> bool {
        &&& self.image_count.start == caps.min_image_count
        &&& self.image_count.end == caps.max_image_count + 1
        &&& self.current_extent == (if caps.current_extent[0] == undefined_extent()
            && caps.current_extent[1] == undefined_extent() {
            None
        } else {
            Some(caps.current_extent)
        })
        &&& self.min_image_extent == caps.min_image_extent
        &&& self.max_image_extent == caps.max_image_extent
        &&& self.max_image_array_layers == caps.max_image_array_layers
        &&& self.supported_transforms@ == transforms_in(caps.supported_transforms)
        &&& self.current_transform == transforms_in(caps.supported_transforms)[0]
        &&& self.supported_composite_alpha@ == alphas_in(caps.supported_composite_alpha)
        &&& self.supported_usage_flags == usage_from_bits(caps.supported_usage_flags)
        &&& self.supported_formats@ == formats_of(formats)
        &&& self.present_modes == modes_from_raw_list(modes)
    }

    /// Decodes the capabilities that the driver reported: the surface capabilities, the list of
    /// supported formats and the list of supported present modes.
    ///
    /// The current transform is the first supported transform.
    pub fn from_raw(caps: &RawSurfaceCapabilities, formats: &[RawSurfaceFormat], modes: &[u32]) -> (r:
        Capabilities)
        requires
            raw_capabilities_valid(*caps, formats@, modes@),
        ensures
            r.describes(*caps, formats@, modes@),
            r.image_count.start == caps.min_image_count,
            r.image_count.end == caps.max_image_count + 1,
            r.min_image_extent[0] == caps.min_image_extent[0],
            r.min_image_extent[1] == caps.min_image_extent[1],
            r.max_image_extent[0] == caps.max_image_extent[0],
            r.max_image_extent[1] == caps.max_image_extent[1],
            r.max_image_array_layers == caps.max_image_array_layers,
            (caps.current_extent[0] == 0xffff_ffffu32 && caps.current_extent[1] == 0xffff_ffffu32)
                ==> r.current_extent is None,
            !(caps.current_extent[0] == 0xffff_ffffu32 && caps.current_extent[1] == 0xffff_ffffu32)
                ==> (r.current_extent matches Some(e) && e[0] == caps.current_extent[0] && e[1]
                == caps.current_extent[1]),
    {
        let current_extent = if caps.current_extent[0] == 0xffff_ffff && caps.current_extent[1]
            == 0xffff_ffff {
            None
        } else {
            Some(caps.current_extent)
        };
        let supported_transforms = SurfaceTransform::from_bits(caps.supported_transforms);
        let current_transform = supported_transforms[0];
        let usage = ImageUsage::from_bits(caps.supported_usage_flags);
        let mut supported_formats: Vec<(u32, ColorSpace)> = Vec::with_capacity(formats.len());
        let mut i: usize = 0;
        while i < formats.len()
            invariant
                0 <= i <= formats@.len(),
                forall|j: int|
                    0 <= j < formats@.len() ==> (#[trigger] formats@[j]).color_space
                        == COLORSPACE_SRGB_NONLINEAR_KHR,
                supported_formats@ == formats_of(formats@.take(i as int)),
            decreases formats@.len() - i,
        {
            let f = formats[i];
            assert(formats@[i as int].color_space == COLORSPACE_SRGB_NONLINEAR_KHR);
            supported_formats.push((f.format, ColorSpace::from_num(f.color_space)));
            assert(formats@.take(i + 1) =~= formats@.take(i as int).push(f));
            assert(formats_of(formats@.take(i + 1)) =~= formats_of(formats@.take(i as int)).push(
                (f.format, ColorSpace::SrgbNonLinear),
            ));
            i = i + 1;
        }
        assert(formats@.take(formats@.len() as int) =~= formats@);
        Capabilities {
            image_count: caps.min_image_count..caps.max_image_count + 1,
            current_extent,
            min_image_extent: caps.min_image_extent,
            max_image_extent: caps.max_image_extent,
            max_image_array_layers: caps.max_image_array_layers,
            supported_transforms,
            current_transform,
            supported_composite_alpha: CompositeAlpha::from_bits(caps.supported_composite_alpha),
            supported_usage_flags: usage,
            supported_formats,
            present_modes: SupportedPresentModes::from_list(modes),
        }
    }
}

/// Decoded capabilities always support the `Fifo` present mode and color attachment usage,
/// and their current transform is one of the supported transforms.
pub proof fn lemma_capabilities_guarantees(
    c: Capabilities,
    caps: RawSurfaceCapabilities,
    formats: Seq<RawSurfaceFormat>,
    modes: Seq<u32>,
)
    requires
        raw_capabilities_valid(caps, formats, modes),
        c.describes(caps, formats, modes),
    ensures
        c.present_modes.fifo,
        c.present_modes.has(PresentMode::Fifo),
        c.supported_usage_flags.color_attachment,
        c.supported_transforms@.contains(c.current_transform),
{
    assert(c.supported_transforms@[0] == c.current_transform);
}

/// Decoded capabilities keep the image count bounds, the array layer limit and every extent as
/// the driver reported them, width first and height second.
pub proof fn lemma_capabilities_as_reported(
    c: Capabilities,
    caps: RawSurfaceCapabilities,
    formats: Seq<RawSurfaceFormat>,
    modes: Seq<u32>,
)
    requires
        c.describes(caps, formats, modes),
    ensures
        c.image_count.start == caps.min_image_count,
        c.image_count.end == caps.max_image_count + 1,
        c.min_image_extent[0] == caps.min_image_extent[0],
        c.min_image_extent[1] == caps.min_image_extent[1],
        c.max_image_extent[0] == caps.max_image_extent[0],
        c.max_image_extent[1] == caps.max_image_extent[1],
        c.max_image_array_layers == caps.max_image_array_layers,
        (caps.current_extent[0] == 0xffff_ffffu32 && caps.current_extent[1] == 0xffff_ffffu32)
            ==> c.current_extent is None,
        !(caps.current_extent[0] == 0xffff_ffffu32 && caps.current_extent[1] == 0xffff_ffffu32)
            ==> (c.current_extent matches Some(e) && e[0] == caps.current_extent[0] && e[1]
            == caps.current_extent[1]),
{
}

} // verus!
