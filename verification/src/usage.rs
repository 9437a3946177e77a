//! The ways in which the images of a surface may be used.

use vstd::prelude::*;

use crate::raw::IMAGE_USAGE_COLOR_ATTACHMENT_BIT;
use crate::raw::IMAGE_USAGE_DEPTH_STENCIL_ATTACHMENT_BIT;
use crate::raw::IMAGE_USAGE_INPUT_ATTACHMENT_BIT;
use crate::raw::IMAGE_USAGE_SAMPLED_BIT;
use crate::raw::IMAGE_USAGE_STORAGE_BIT;
use crate::raw::IMAGE_USAGE_TRANSFER_DST_BIT;
use crate::raw::IMAGE_USAGE_TRANSFER_SRC_BIT;
use crate::raw::IMAGE_USAGE_TRANSIENT_ATTACHMENT_BIT;

verus! {

/// Describes how an image is going to be used.
#[derive(Copy, Clone, Debug, PartialEq, Eq, Structural)]
pub struct ImageUsage {
    pub transfer_source: bool,
    pub transfer_dest: bool,
    pub sampled: bool,
    pub storage: bool,
    pub color_attachment: bool,
    pub depth_stencil_attachment: bool,
    pub transient_attachment: bool,
    pub input_attachment: bool,
}

/// The usage that the flag word `val` describes: each field is set when its bit is.
pub open spec fn usage_from_bits(val: u32) -> ImageUsage {
    ImageUsage {
        transfer_source: val & IMAGE_USAGE_TRANSFER_SRC_BIT != 0,
        transfer_dest: val & IMAGE_USAGE_TRANSFER_DST_BIT != 0,
        sampled: val & IMAGE_USAGE_SAMPLED_BIT != 0,
        storage: val & IMAGE_USAGE_STORAGE_BIT != 0,
        color_attachment: val & IMAGE_USAGE_COLOR_ATTACHMENT_BIT != 0,
        depth_stencil_attachment: val & IMAGE_USAGE_DEPTH_STENCIL_ATTACHMENT_BIT != 0,
        transient_attachment: val & IMAGE_USAGE_TRANSIENT_ATTACHMENT_BIT != 0,
        input_attachment: val & IMAGE_USAGE_INPUT_ATTACHMENT_BIT != 0,
    }
}

impl ImageUsage {
    /// Decodes a Vulkan image usage flag word. Bits that name no usage are ignored.
    pub fn from_bits(val: u32) -> (r: ImageUsage)
        ensures
            r == usage_from_bits(val),
            r.transfer_source == ((val & IMAGE_USAGE_TRANSFER_SRC_BIT) != 0),
            r.transfer_dest == ((val & IMAGE_USAGE_TRANSFER_DST_BIT) != 0),
            r.sampled == ((val & IMAGE_USAGE_SAMPLED_BIT) != 0),
            r.storage == ((val & IMAGE_USAGE_STORAGE_BIT) != 0),
            r.color_attachment == ((val & IMAGE_USAGE_COLOR_ATTACHMENT_BIT) != 0),
            r.depth_stencil_attachment == ((val & IMAGE_USAGE_DEPTH_STENCIL_ATTACHMENT_BIT) != 0),
            r.transient_attachment == ((val & IMAGE_USAGE_TRANSIENT_ATTACHMENT_BIT) != 0),
            r.input_attachment == ((val & IMAGE_USAGE_INPUT_ATTACHMENT_BIT) != 0),
    {
        ImageUsage {
            transfer_source: (val & IMAGE_USAGE_TRANSFER_SRC_BIT) != 0,
            transfer_dest: (val & IMAGE_USAGE_TRANSFER_DST_BIT) != 0,
            sampled: (val & IMAGE_USAGE_SAMPLED_BIT) != 0,
            storage: (val & IMAGE_USAGE_STORAGE_BIT) != 0,
            color_attachment: (val & IMAGE_USAGE_COLOR_ATTACHMENT_BIT) != 0,
            depth_stencil_attachment: (val & IMAGE_USAGE_DEPTH_STENCIL_ATTACHMENT_BIT) != 0,
            transient_attachment: (val & IMAGE_USAGE_TRANSIENT_ATTACHMENT_BIT) != 0,
            input_attachment: (val & IMAGE_USAGE_INPUT_ATTACHMENT_BIT) != 0,
        }
    }
}

/// Each usage is decoded from its own Vulkan bit, whatever the other bits.
pub proof fn lemma_usage_fields_follow_bits(val: u32)
    ensures
        usage_from_bits(val).transfer_source <==> (val & IMAGE_USAGE_TRANSFER_SRC_BIT) != 0,
        usage_from_bits(val).transfer_dest <==> (val & IMAGE_USAGE_TRANSFER_DST_BIT) != 0,
        usage_from_bits(val).sampled <==> (val & IMAGE_USAGE_SAMPLED_BIT) != 0,
        usage_from_bits(val).storage <==> (val & IMAGE_USAGE_STORAGE_BIT) != 0,
        usage_from_bits(val).color_attachment <==> (val & IMAGE_USAGE_COLOR_ATTACHMENT_BIT) != 0,
        usage_from_bits(val).depth_stencil_attachment <==> (val & IMAGE_USAGE_DEPTH_STENCIL_ATTACHMENT_BIT) != 0,
        usage_from_bits(val).transient_attachment <==> (val & IMAGE_USAGE_TRANSIENT_ATTACHMENT_BIT) != 0,
        usage_from_bits(val).input_attachment <==> (val & IMAGE_USAGE_INPUT_ATTACHMENT_BIT) != 0,
{
}

/// Decoding the bit of one usage alone gives that usage and no other.
pub proof fn lemma_usage_single_bits()
    ensures
        usage_from_bits(IMAGE_USAGE_TRANSFER_SRC_BIT) == (ImageUsage { transfer_source: true, transfer_dest: false, sampled: false, storage: false, color_attachment: false, depth_stencil_attachment: false, transient_attachment: false, input_attachment: false }),
        usage_from_bits(IMAGE_USAGE_TRANSFER_DST_BIT) == (ImageUsage { transfer_source: false, transfer_dest: true, sampled: false, storage: false, color_attachment: false, depth_stencil_attachment: false, transient_attachment: false, input_attachment: false }),
        usage_from_bits(IMAGE_USAGE_SAMPLED_BIT) == (ImageUsage { transfer_source: false, transfer_dest: false, sampled: true, storage: false, color_attachment: false, depth_stencil_attachment: false, transient_attachment: false, input_attachment: false }),
        usage_from_bits(IMAGE_USAGE_STORAGE_BIT) == (ImageUsage { transfer_source: false, transfer_dest: false, sampled: false, storage: true, color_attachment: false, depth_stencil_attachment: false, transient_attachment: false, input_attachment: false }),
        usage_from_bits(IMAGE_USAGE_COLOR_ATTACHMENT_BIT) == (ImageUsage { transfer_source: false, transfer_dest: false, sampled: false, storage: false, color_attachment: true, depth_stencil_attachment: false, transient_attachment: false, input_attachment: false }),
        usage_from_bits(IMAGE_USAGE_DEPTH_STENCIL_ATTACHMENT_BIT) == (ImageUsage { transfer_source: false, transfer_dest: false, sampled: false, storage: false, color_attachment: false, depth_stencil_attachment: true, transient_attachment: false, input_attachment: false }),
        usage_from_bits(IMAGE_USAGE_TRANSIENT_ATTACHMENT_BIT) == (ImageUsage { transfer_source: false, transfer_dest: false, sampled: false, storage: false, color_attachment: false, depth_stencil_attachment: false, transient_attachment: true, input_attachment: false }),
        usage_from_bits(IMAGE_USAGE_INPUT_ATTACHMENT_BIT) == (ImageUsage { transfer_source: false, transfer_dest: false, sampled: false, storage: false, color_attachment: false, depth_stencil_attachment: false, transient_attachment: false, input_attachment: true }),
{
    assert(1u32 == 1u32 << 0u32 && 2u32 == 1u32 << 1u32 && 4u32 == 1u32 << 2u32 && 8u32 == 1u32 << 3u32
        && 16u32 == 1u32 << 4u32 && 32u32 == 1u32 << 5u32 && 64u32 == 1u32 << 6u32 && 128u32 == 1u32 << 7u32)
        by (bit_vector);
    assert(forall|i: u32, j: u32|
        #![trigger (1u32 << i), (1u32 << j)]
        i < 8 && j < 8 ==> ((((1u32 << i) & (1u32 << j)) != 0) <==> i == j)) by (bit_vector);
}

} // verus!
