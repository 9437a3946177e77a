//! Surface transforms, composite alpha modes and color spaces, and how they are decoded from
//! the flag words that a driver reports.

use vstd::prelude::*;

use crate::raw::COLORSPACE_SRGB_NONLINEAR_KHR;
use crate::raw::COMPOSITE_ALPHA_INHERIT_BIT_KHR;
use crate::raw::COMPOSITE_ALPHA_OPAQUE_BIT_KHR;
use crate::raw::COMPOSITE_ALPHA_POST_MULTIPLIED_BIT_KHR;
use crate::raw::COMPOSITE_ALPHA_PRE_MULTIPLIED_BIT_KHR;
use crate::raw::SURFACE_TRANSFORM_HORIZONTAL_MIRROR_BIT_KHR;
use crate::raw::SURFACE_TRANSFORM_HORIZONTAL_MIRROR_ROTATE_180_BIT_KHR;
use crate::raw::SURFACE_TRANSFORM_HORIZONTAL_MIRROR_ROTATE_270_BIT_KHR;
use crate::raw::SURFACE_TRANSFORM_HORIZONTAL_MIRROR_ROTATE_90_BIT_KHR;
use crate::raw::SURFACE_TRANSFORM_IDENTITY_BIT_KHR;
use crate::raw::SURFACE_TRANSFORM_INHERIT_BIT_KHR;
use crate::raw::SURFACE_TRANSFORM_ROTATE_180_BIT_KHR;
use crate::raw::SURFACE_TRANSFORM_ROTATE_270_BIT_KHR;
use crate::raw::SURFACE_TRANSFORM_ROTATE_90_BIT_KHR;

verus! {

/// A transformation to apply to the image before showing it on the screen.
#[derive(Copy, Clone, Debug, PartialEq, Eq, Structural)]
pub enum SurfaceTransform {
    Identity,
    Rotate90,
    Rotate180,
    Rotate270,
    HorizontalMirror,
    HorizontalMirrorRotate90,
    HorizontalMirrorRotate180,
    HorizontalMirrorRotate270,
    Inherit,
}

/// `s` followed by `t` when `val` has the flag bit of `t`; `s` otherwise.
pub open spec fn push_transform_if_set(s: Seq<SurfaceTransform>, val: u32, t: SurfaceTransform) -> Seq<
    SurfaceTransform,
> {
    if val & t.bit() != 0 {
        s.push(t)
    } else {
        s
    }
}

/// The transforms whose flag bits are set in `val`, in the order of their bits.
pub open spec fn transforms_in(val: u32) -> Seq<SurfaceTransform> {
    let s1 = push_transform_if_set(Seq::empty(), val, SurfaceTransform::Identity);
    let s2 = push_transform_if_set(s1, val, SurfaceTransform::Rotate90);
    let s3 = push_transform_if_set(s2, val, SurfaceTransform::Rotate180);
    let s4 = push_transform_if_set(s3, val, SurfaceTransform::Rotate270);
    let s5 = push_transform_if_set(s4, val, SurfaceTransform::HorizontalMirror);
    let s6 = push_transform_if_set(s5, val, SurfaceTransform::HorizontalMirrorRotate90);
    let s7 = push_transform_if_set(s6, val, SurfaceTransform::HorizontalMirrorRotate180);
    let s8 = push_transform_if_set(s7, val, SurfaceTransform::HorizontalMirrorRotate270);
    push_transform_if_set(s8, val, SurfaceTransform::Inherit)
}

/// All the transform flag bits.
pub open spec fn all_transform_bits() -> u32 {
    0x1ff
}

impl SurfaceTransform {
    /// The Vulkan flag bit of this transform.
    pub open spec fn bit(self) -> u32 {
        match self {
            SurfaceTransform::Identity => SURFACE_TRANSFORM_IDENTITY_BIT_KHR,
            SurfaceTransform::Rotate90 => SURFACE_TRANSFORM_ROTATE_90_BIT_KHR,
            SurfaceTransform::Rotate180 => SURFACE_TRANSFORM_ROTATE_180_BIT_KHR,
            SurfaceTransform::Rotate270 => SURFACE_TRANSFORM_ROTATE_270_BIT_KHR,
            SurfaceTransform::HorizontalMirror => SURFACE_TRANSFORM_HORIZONTAL_MIRROR_BIT_KHR,
            SurfaceTransform::HorizontalMirrorRotate90 => SURFACE_TRANSFORM_HORIZONTAL_MIRROR_ROTATE_90_BIT_KHR,
            SurfaceTransform::HorizontalMirrorRotate180 => SURFACE_TRANSFORM_HORIZONTAL_MIRROR_ROTATE_180_BIT_KHR,
            SurfaceTransform::HorizontalMirrorRotate270 => SURFACE_TRANSFORM_HORIZONTAL_MIRROR_ROTATE_270_BIT_KHR,
            SurfaceTransform::Inherit => SURFACE_TRANSFORM_INHERIT_BIT_KHR,
        }
    }

    /// Returns the Vulkan flag bit of this transform.
    pub fn to_raw(self) -> (r: u32)
        ensures
            r == self.bit(),
            self == SurfaceTransform::Identity ==> r == SURFACE_TRANSFORM_IDENTITY_BIT_KHR,
            self == SurfaceTransform::Rotate90 ==> r == SURFACE_TRANSFORM_ROTATE_90_BIT_KHR,
            self == SurfaceTransform::Rotate180 ==> r == SURFACE_TRANSFORM_ROTATE_180_BIT_KHR,
            self == SurfaceTransform::Rotate270 ==> r == SURFACE_TRANSFORM_ROTATE_270_BIT_KHR,
            self == SurfaceTransform::HorizontalMirror ==> r == SURFACE_TRANSFORM_HORIZONTAL_MIRROR_BIT_KHR,
            self == SurfaceTransform::HorizontalMirrorRotate90 ==> r == SURFACE_TRANSFORM_HORIZONTAL_MIRROR_ROTATE_90_BIT_KHR,
            self == SurfaceTransform::HorizontalMirrorRotate180 ==> r == SURFACE_TRANSFORM_HORIZONTAL_MIRROR_ROTATE_180_BIT_KHR,
            self == SurfaceTransform::HorizontalMirrorRotate270 ==> r == SURFACE_TRANSFORM_HORIZONTAL_MIRROR_ROTATE_270_BIT_KHR,
            self == SurfaceTransform::Inherit ==> r == SURFACE_TRANSFORM_INHERIT_BIT_KHR,
    {
        match self {
            SurfaceTransform::Identity => SURFACE_TRANSFORM_IDENTITY_BIT_KHR,
            SurfaceTransform::Rotate90 => SURFACE_TRANSFORM_ROTATE_90_BIT_KHR,
            SurfaceTransform::Rotate180 => SURFACE_TRANSFORM_ROTATE_180_BIT_KHR,
            SurfaceTransform::Rotate270 => SURFACE_TRANSFORM_ROTATE_270_BIT_KHR,
            SurfaceTransform::HorizontalMirror => SURFACE_TRANSFORM_HORIZONTAL_MIRROR_BIT_KHR,
            SurfaceTransform::HorizontalMirrorRotate90 => SURFACE_TRANSFORM_HORIZONTAL_MIRROR_ROTATE_90_BIT_KHR,
            SurfaceTransform::HorizontalMirrorRotate180 => SURFACE_TRANSFORM_HORIZONTAL_MIRROR_ROTATE_180_BIT_KHR,
            SurfaceTransform::HorizontalMirrorRotate270 => SURFACE_TRANSFORM_HORIZONTAL_MIRROR_ROTATE_270_BIT_KHR,
            SurfaceTransform::Inherit => SURFACE_TRANSFORM_INHERIT_BIT_KHR,
        }
    }

    /// Returns the transforms whose flag bits are set in `val`, in the order of their bits.
    /// Bits that name no transform are ignored.
    pub fn from_bits(val: u32) -> (r: Vec<SurfaceTransform>)
        ensures
            r@ == transforms_in(val),
            r@.contains(SurfaceTransform::Identity) <==> (val & SURFACE_TRANSFORM_IDENTITY_BIT_KHR) != 0,
            r@.contains(SurfaceTransform::Rotate90) <==> (val & SURFACE_TRANSFORM_ROTATE_90_BIT_KHR) != 0,
            r@.contains(SurfaceTransform::Rotate180) <==> (val & SURFACE_TRANSFORM_ROTATE_180_BIT_KHR) != 0,
            r@.contains(SurfaceTransform::Rotate270) <==> (val & SURFACE_TRANSFORM_ROTATE_270_BIT_KHR) != 0,
            r@.contains(SurfaceTransform::HorizontalMirror) <==> (val & SURFACE_TRANSFORM_HORIZONTAL_MIRROR_BIT_KHR) != 0,
            r@.contains(SurfaceTransform::HorizontalMirrorRotate90) <==> (val & SURFACE_TRANSFORM_HORIZONTAL_MIRROR_ROTATE_90_BIT_KHR) != 0,
            r@.contains(SurfaceTransform::HorizontalMirrorRotate180) <==> (val & SURFACE_TRANSFORM_HORIZONTAL_MIRROR_ROTATE_180_BIT_KHR) != 0,
            r@.contains(SurfaceTransform::HorizontalMirrorRotate270) <==> (val & SURFACE_TRANSFORM_HORIZONTAL_MIRROR_ROTATE_270_BIT_KHR) != 0,
            r@.contains(SurfaceTransform::Inherit) <==> (val & SURFACE_TRANSFORM_INHERIT_BIT_KHR) != 0,
            r@.no_duplicates(),
    {
        let mut result: Vec<SurfaceTransform> = Vec::with_capacity(9);
        if (val & SURFACE_TRANSFORM_IDENTITY_BIT_KHR) != 0 {
            result.push(SurfaceTransform::Identity);
        }
        assert(result@ =~= push_transform_if_set(Seq::empty(), val, SurfaceTransform::Identity));
        let ghost s1 = result@;
        if (val & SURFACE_TRANSFORM_ROTATE_90_BIT_KHR) != 0 {
            result.push(SurfaceTransform::Rotate90);
        }
        assert(result@ == push_transform_if_set(s1, val, SurfaceTransform::Rotate90));
        let ghost s2 = result@;
        if (val & SURFACE_TRANSFORM_ROTATE_180_BIT_KHR) != 0 {
            result.push(SurfaceTransform::Rotate180);
        }
        assert(result@ == push_transform_if_set(s2, val, SurfaceTransform::Rotate180));
        let ghost s3 = result@;
        if (val & SURFACE_TRANSFORM_ROTATE_270_BIT_KHR) != 0 {
            result.push(SurfaceTransform::Rotate270);
        }
        assert(result@ == push_transform_if_set(s3, val, SurfaceTransform::Rotate270));
        let ghost s4 = result@;
        if (val & SURFACE_TRANSFORM_HORIZONTAL_MIRROR_BIT_KHR) != 0 {
            result.push(SurfaceTransform::HorizontalMirror);
        }
        assert(result@ == push_transform_if_set(s4, val, SurfaceTransform::HorizontalMirror));
        let ghost s5 = result@;
        if (val & SURFACE_TRANSFORM_HORIZONTAL_MIRROR_ROTATE_90_BIT_KHR) != 0 {
            result.push(SurfaceTransform::HorizontalMirrorRotate90);
        }
        assert(result@ == push_transform_if_set(s5, val, SurfaceTransform::HorizontalMirrorRotate90));
        let ghost s6 = result@;
        if (val & SURFACE_TRANSFORM_HORIZONTAL_MIRROR_ROTATE_180_BIT_KHR) != 0 {
            result.push(SurfaceTransform::HorizontalMirrorRotate180);
        }
        assert(result@ == push_transform_if_set(s6, val, SurfaceTransform::HorizontalMirrorRotate180));
        let ghost s7 = result@;
        if (val & SURFACE_TRANSFORM_HORIZONTAL_MIRROR_ROTATE_270_BIT_KHR) != 0 {
            result.push(SurfaceTransform::HorizontalMirrorRotate270);
        }
        assert(result@ == push_transform_if_set(s7, val, SurfaceTransform::HorizontalMirrorRotate270));
        let ghost s8 = result@;
        if (val & SURFACE_TRANSFORM_INHERIT_BIT_KHR) != 0 {
            result.push(SurfaceTransform::Inherit);
        }
        assert(result@ == push_transform_if_set(s8, val, SurfaceTransform::Inherit));
        proof {
            lemma_transforms_in_constants(val);
            lemma_transforms_in_no_duplicates(val);
        }
        result
    }
}

impl Default for SurfaceTransform {
    fn default() -> (r: SurfaceTransform)
        ensures
            r == SurfaceTransform::Identity,
    {
        SurfaceTransform::Identity
    }
}

/// How the alpha values of the pixels of the window are treated.
#[derive(Copy, Clone, Debug, PartialEq, Eq, Structural)]
pub enum CompositeAlpha {
    /// The alpha channel of the image is ignored. All the pixels are considered as if they have a
    /// value of 1.0.
    Opaque,
    /// The alpha channel of the image is respected. The color channels are expected to have
    /// already been multiplied by the alpha value.
    PreMultiplied,
    /// The alpha channel of the image is respected. The color channels will be multiplied by the
    /// alpha value by the compositor before being added to what is behind.
    PostMultiplied,
    /// Platform-specific behavior.
    Inherit,
}

/// `s` followed by `a` when `val` has the flag bit of `a`; `s` otherwise.
pub open spec fn push_alpha_if_set(s: Seq<CompositeAlpha>, val: u32, a: CompositeAlpha) -> Seq<CompositeAlpha> {
    if val & a.bit() != 0 {
        s.push(a)
    } else {
        s
    }
}

/// The composite alpha modes whose flag bits are set in `val`, in the order of their bits.
pub open spec fn alphas_in(val: u32) -> Seq<CompositeAlpha> {
    let s1 = push_alpha_if_set(Seq::empty(), val, CompositeAlpha::Opaque);
    let s2 = push_alpha_if_set(s1, val, CompositeAlpha::PreMultiplied);
    let s3 = push_alpha_if_set(s2, val, CompositeAlpha::PostMultiplied);
    push_alpha_if_set(s3, val, CompositeAlpha::Inherit)
}

/// All the composite alpha flag bits.
pub open spec fn all_alpha_bits() -> u32 {
    0xf
}

impl CompositeAlpha {
    /// The Vulkan flag bit of this mode.
    pub open spec fn bit(self) -> u32 {
        match self {
            CompositeAlpha::Opaque => COMPOSITE_ALPHA_OPAQUE_BIT_KHR,
            CompositeAlpha::PreMultiplied => COMPOSITE_ALPHA_PRE_MULTIPLIED_BIT_KHR,
            CompositeAlpha::PostMultiplied => COMPOSITE_ALPHA_POST_MULTIPLIED_BIT_KHR,
            CompositeAlpha::Inherit => COMPOSITE_ALPHA_INHERIT_BIT_KHR,
        }
    }

    /// Returns the Vulkan flag bit of this mode.
    pub fn to_raw(self) -> (r: u32)
        ensures
            r == self.bit(),
            self == CompositeAlpha::Opaque ==> r == COMPOSITE_ALPHA_OPAQUE_BIT_KHR,
            self == CompositeAlpha::PreMultiplied ==> r == COMPOSITE_ALPHA_PRE_MULTIPLIED_BIT_KHR,
            self == CompositeAlpha::PostMultiplied ==> r == COMPOSITE_ALPHA_POST_MULTIPLIED_BIT_KHR,
            self == CompositeAlpha::Inherit ==> r == COMPOSITE_ALPHA_INHERIT_BIT_KHR,
    {
        match self {
            CompositeAlpha::Opaque => COMPOSITE_ALPHA_OPAQUE_BIT_KHR,
            CompositeAlpha::PreMultiplied => COMPOSITE_ALPHA_PRE_MULTIPLIED_BIT_KHR,
            CompositeAlpha::PostMultiplied => COMPOSITE_ALPHA_POST_MULTIPLIED_BIT_KHR,
            CompositeAlpha::Inherit => COMPOSITE_ALPHA_INHERIT_BIT_KHR,
        }
    }

    /// Returns the modes whose flag bits are set in `val`, in the order of their bits.
    /// Bits that name no mode are ignored.
    pub fn from_bits(val: u32) -> (r: Vec<CompositeAlpha>)
        ensures
            r@ == alphas_in(val),
            r@.contains(CompositeAlpha::Opaque) <==> (val & COMPOSITE_ALPHA_OPAQUE_BIT_KHR) != 0,
            r@.contains(CompositeAlpha::PreMultiplied) <==> (val & COMPOSITE_ALPHA_PRE_MULTIPLIED_BIT_KHR) != 0,
            r@.contains(CompositeAlpha::PostMultiplied) <==> (val & COMPOSITE_ALPHA_POST_MULTIPLIED_BIT_KHR) != 0,
            r@.contains(CompositeAlpha::Inherit) <==> (val & COMPOSITE_ALPHA_INHERIT_BIT_KHR) != 0,
            r@.no_duplicates(),
    {
        let mut result: Vec<CompositeAlpha> = Vec::with_capacity(4);
        if (val & COMPOSITE_ALPHA_OPAQUE_BIT_KHR) != 0 {
            result.push(CompositeAlpha::Opaque);
        }
        assert(result@ =~= push_alpha_if_set(Seq::empty(), val, CompositeAlpha::Opaque));
        let ghost s1 = result@;
        if (val & COMPOSITE_ALPHA_PRE_MULTIPLIED_BIT_KHR) != 0 {
            result.push(CompositeAlpha::PreMultiplied);
        }
        assert(result@ == push_alpha_if_set(s1, val, CompositeAlpha::PreMultiplied));
        let ghost s2 = result@;
        if (val & COMPOSITE_ALPHA_POST_MULTIPLIED_BIT_KHR) != 0 {
            result.push(CompositeAlpha::PostMultiplied);
        }
        assert(result@ == push_alpha_if_set(s2, val, CompositeAlpha::PostMultiplied));
        let ghost s3 = result@;
        if (val & COMPOSITE_ALPHA_INHERIT_BIT_KHR) != 0 {
            result.push(CompositeAlpha::Inherit);
        }
        assert(result@ == push_alpha_if_set(s3, val, CompositeAlpha::Inherit));
        proof {
            lemma_alphas_in_constants(val);
        }
        result
    }
}

/// The color space of the images of a surface.
#[derive(Copy, Clone, Debug, PartialEq, Eq, Structural)]
pub enum ColorSpace {
    SrgbNonLinear,
}

impl ColorSpace {
    /// Returns the color space whose Vulkan number is `val`; the only one known is
    /// sRGB non-linear.
    pub fn from_num(val: u32) -> (r: ColorSpace)
        requires
            val == COLORSPACE_SRGB_NONLINEAR_KHR,
        ensures
            r == ColorSpace::SrgbNonLinear,
    {
        ColorSpace::SrgbNonLinear
    }
}

/// The position of a transform's flag bit.
spec fn transform_index(t: SurfaceTransform) -> u32 {
    match t {
        SurfaceTransform::Identity => 0,
        SurfaceTransform::Rotate90 => 1,
        SurfaceTransform::Rotate180 => 2,
        SurfaceTransform::Rotate270 => 3,
        SurfaceTransform::HorizontalMirror => 4,
        SurfaceTransform::HorizontalMirrorRotate90 => 5,
        SurfaceTransform::HorizontalMirrorRotate180 => 6,
        SurfaceTransform::HorizontalMirrorRotate270 => 7,
        SurfaceTransform::Inherit => 8,
    }
}

/// Each transform has its own single flag bit, inside `all_transform_bits()`.
proof fn lemma_transform_bit_facts(t: SurfaceTransform, u: SurfaceTransform)
    ensures
        (t.bit() & u.bit() != 0) <==> t == u,
        t.bit() & all_transform_bits() == t.bit(),
{
    assert(1u32 == 1u32 << 0u32 && 2u32 == 1u32 << 1u32 && 4u32 == 1u32 << 2u32 && 8u32 == 1u32
        << 3u32 && 16u32 == 1u32 << 4u32 && 32u32 == 1u32 << 5u32 && 64u32 == 1u32 << 6u32 && 128u32
        == 1u32 << 7u32 && 256u32 == 1u32 << 8u32) by (bit_vector);
    assert(forall|i: u32, j: u32|
        #![trigger (1u32 << i), (1u32 << j)]
        i < 9 && j < 9 ==> ((((1u32 << i) & (1u32 << j)) != 0) <==> i == j)) by (bit_vector);
    assert(forall|i: u32| #![trigger (1u32 << i)] i < 9 ==> ((1u32 << i) & 0x1ffu32) == (1u32 << i))
        by (bit_vector);
    assert(t.bit() == 1u32 << transform_index(t));
    assert(u.bit() == 1u32 << transform_index(u));
}

/// The decoded transforms are exactly those whose flag bit is set in `val`.
pub proof fn lemma_transforms_in_contains(val: u32, t: SurfaceTransform)
    ensures
        transforms_in(val).contains(t) <==> (val & t.bit() != 0),
{
    let s1 = push_transform_if_set(Seq::empty(), val, SurfaceTransform::Identity);
    let s2 = push_transform_if_set(s1, val, SurfaceTransform::Rotate90);
    let s3 = push_transform_if_set(s2, val, SurfaceTransform::Rotate180);
    let s4 = push_transform_if_set(s3, val, SurfaceTransform::Rotate270);
    let s5 = push_transform_if_set(s4, val, SurfaceTransform::HorizontalMirror);
    let s6 = push_transform_if_set(s5, val, SurfaceTransform::HorizontalMirrorRotate90);
    let s7 = push_transform_if_set(s6, val, SurfaceTransform::HorizontalMirrorRotate180);
    let s8 = push_transform_if_set(s7, val, SurfaceTransform::HorizontalMirrorRotate270);
    lemma_push_transform_contains(Seq::empty(), val, SurfaceTransform::Identity, t);
    lemma_push_transform_contains(s1, val, SurfaceTransform::Rotate90, t);
    lemma_push_transform_contains(s2, val, SurfaceTransform::Rotate180, t);
    lemma_push_transform_contains(s3, val, SurfaceTransform::Rotate270, t);
    lemma_push_transform_contains(s4, val, SurfaceTransform::HorizontalMirror, t);
    lemma_push_transform_contains(s5, val, SurfaceTransform::HorizontalMirrorRotate90, t);
    lemma_push_transform_contains(s6, val, SurfaceTransform::HorizontalMirrorRotate180, t);
    lemma_push_transform_contains(s7, val, SurfaceTransform::HorizontalMirrorRotate270, t);
    lemma_push_transform_contains(s8, val, SurfaceTransform::Inherit, t);
}

proof fn lemma_push_transform_contains(s: Seq<SurfaceTransform>, val: u32, u: SurfaceTransform, t: SurfaceTransform)
    ensures
        push_transform_if_set(s, val, u).contains(t) <==> (s.contains(t) || (u == t && val & t.bit() != 0)),
{
    if val & u.bit() != 0 {
        assert(s.push(u)[s.len() as int] == u);
        if s.contains(t) {
            let k = choose|k: int| 0 <= k < s.len() && s[k] == t;
            assert(s.push(u)[k] == t);
        }
    }
}

/// No transform is decoded twice.
pub proof fn lemma_transforms_in_no_duplicates(val: u32)
    ensures
        transforms_in(val).no_duplicates(),
{
}

/// Decoding the flag bit of one transform gives back that transform alone.
pub proof fn lemma_transform_bit_roundtrip(t: SurfaceTransform)
    ensures
        transforms_in(t.bit()) == seq![t],
{
    lemma_transform_bit_facts(t, SurfaceTransform::Identity);
    lemma_transform_bit_facts(t, SurfaceTransform::Rotate90);
    lemma_transform_bit_facts(t, SurfaceTransform::Rotate180);
    lemma_transform_bit_facts(t, SurfaceTransform::Rotate270);
    lemma_transform_bit_facts(t, SurfaceTransform::HorizontalMirror);
    lemma_transform_bit_facts(t, SurfaceTransform::HorizontalMirrorRotate90);
    lemma_transform_bit_facts(t, SurfaceTransform::HorizontalMirrorRotate180);
    lemma_transform_bit_facts(t, SurfaceTransform::HorizontalMirrorRotate270);
    lemma_transform_bit_facts(t, SurfaceTransform::Inherit);
    assert(transforms_in(t.bit()) =~= seq![t]);
}

/// The transforms of the union of two flag words are those of either word.
pub proof fn lemma_transforms_in_union(a: u32, b: u32, t: SurfaceTransform)
    ensures
        transforms_in(a | b).contains(t) <==> (transforms_in(a).contains(t) || transforms_in(b).contains(t)),
{
    assert(forall|x: u32, y: u32, k: u32| (((x | y) & k) != 0) == (((x & k) != 0) || ((y & k) != 0)))
        by (bit_vector);
    lemma_transforms_in_contains(a | b, t);
    lemma_transforms_in_contains(a, t);
    lemma_transforms_in_contains(b, t);
}

/// Bits that name no transform do not change what is decoded.
pub proof fn lemma_transforms_in_ignores_unknown_bits(val: u32)
    ensures
        transforms_in(val & all_transform_bits()) == transforms_in(val),
{
    assert(forall|x: u32, k: u32| (k & 0x1ffu32) == k ==> ((x & 0x1ffu32) & k) == (x & k)) by (bit_vector);
    lemma_transform_bit_facts(SurfaceTransform::Identity, SurfaceTransform::Identity);
    lemma_transform_bit_facts(SurfaceTransform::Rotate90, SurfaceTransform::Rotate90);
    lemma_transform_bit_facts(SurfaceTransform::Rotate180, SurfaceTransform::Rotate180);
    lemma_transform_bit_facts(SurfaceTransform::Rotate270, SurfaceTransform::Rotate270);
    lemma_transform_bit_facts(SurfaceTransform::HorizontalMirror, SurfaceTransform::HorizontalMirror);
    lemma_transform_bit_facts(SurfaceTransform::HorizontalMirrorRotate90, SurfaceTransform::HorizontalMirrorRotate90);
    lemma_transform_bit_facts(SurfaceTransform::HorizontalMirrorRotate180, SurfaceTransform::HorizontalMirrorRotate180);
    lemma_transform_bit_facts(SurfaceTransform::HorizontalMirrorRotate270, SurfaceTransform::HorizontalMirrorRotate270);
    lemma_transform_bit_facts(SurfaceTransform::Inherit, SurfaceTransform::Inherit);
}

/// The position of a composite alpha mode's flag bit.
spec fn alpha_index(a: CompositeAlpha) -> u32 {
    match a {
        CompositeAlpha::Opaque => 0,
        CompositeAlpha::PreMultiplied => 1,
        CompositeAlpha::PostMultiplied => 2,
        CompositeAlpha::Inherit => 3,
    }
}

/// Each composite alpha mode has its own single flag bit, inside `all_alpha_bits()`.
proof fn lemma_alpha_bit_facts(a: CompositeAlpha, b: CompositeAlpha)
    ensures
        (a.bit() & b.bit() != 0) <==> a == b,
        a.bit() & all_alpha_bits() == a.bit(),
{
    assert(1u32 == 1u32 << 0u32 && 2u32 == 1u32 << 1u32 && 4u32 == 1u32 << 2u32 && 8u32 == 1u32
        << 3u32) by (bit_vector);
    assert(forall|i: u32, j: u32|
        #![trigger (1u32 << i), (1u32 << j)]
        i < 4 && j < 4 ==> ((((1u32 << i) & (1u32 << j)) != 0) <==> i == j)) by (bit_vector);
    assert(forall|i: u32| #![trigger (1u32 << i)] i < 4 ==> ((1u32 << i) & 0xfu32) == (1u32 << i))
        by (bit_vector);
    assert(a.bit() == 1u32 << alpha_index(a));
    assert(b.bit() == 1u32 << alpha_index(b));
}

proof fn lemma_push_alpha_contains(s: Seq<CompositeAlpha>, val: u32, b: CompositeAlpha, a: CompositeAlpha)
    ensures
        push_alpha_if_set(s, val, b).contains(a) <==> (s.contains(a) || (b == a && val & a.bit() != 0)),
{
    if val & b.bit() != 0 {
        assert(s.push(b)[s.len() as int] == b);
        if s.contains(a) {
            let k = choose|k: int| 0 <= k < s.len() && s[k] == a;
            assert(s.push(b)[k] == a);
        }
    }
}

/// The decoded composite alpha modes are exactly those whose flag bit is set in `val`,
/// each once.
pub proof fn lemma_alphas_in_contains(val: u32, a: CompositeAlpha)
    ensures
        alphas_in(val).contains(a) <==> (val & a.bit() != 0),
        alphas_in(val).no_duplicates(),
{
    let s1 = push_alpha_if_set(Seq::empty(), val, CompositeAlpha::Opaque);
    let s2 = push_alpha_if_set(s1, val, CompositeAlpha::PreMultiplied);
    let s3 = push_alpha_if_set(s2, val, CompositeAlpha::PostMultiplied);
    lemma_push_alpha_contains(Seq::empty(), val, CompositeAlpha::Opaque, a);
    lemma_push_alpha_contains(s1, val, CompositeAlpha::PreMultiplied, a);
    lemma_push_alpha_contains(s2, val, CompositeAlpha::PostMultiplied, a);
    lemma_push_alpha_contains(s3, val, CompositeAlpha::Inherit, a);
}

/// Decoding the flag bit of one composite alpha mode gives back that mode alone.
pub proof fn lemma_alpha_bit_roundtrip(a: CompositeAlpha)
    ensures
        alphas_in(a.bit()) == seq![a],
{
    lemma_alpha_bit_facts(a, CompositeAlpha::Opaque);
    lemma_alpha_bit_facts(a, CompositeAlpha::PreMultiplied);
    lemma_alpha_bit_facts(a, CompositeAlpha::PostMultiplied);
    lemma_alpha_bit_facts(a, CompositeAlpha::Inherit);
    assert(alphas_in(a.bit()) =~= seq![a]);
}

/// Bits that name no composite alpha mode do not change what is decoded.
pub proof fn lemma_alphas_in_ignores_unknown_bits(val: u32)
    ensures
        alphas_in(val & all_alpha_bits()) == alphas_in(val),
{
    assert(forall|x: u32, k: u32| (k & 0xfu32) == k ==> ((x & 0xfu32) & k) == (x & k)) by (bit_vector);
    lemma_alpha_bit_facts(CompositeAlpha::Opaque, CompositeAlpha::Opaque);
    lemma_alpha_bit_facts(CompositeAlpha::PreMultiplied, CompositeAlpha::PreMultiplied);
    lemma_alpha_bit_facts(CompositeAlpha::PostMultiplied, CompositeAlpha::PostMultiplied);
    lemma_alpha_bit_facts(CompositeAlpha::Inherit, CompositeAlpha::Inherit);
}

/// Each transform is decoded from its own Vulkan flag bit, whatever the other bits.
pub proof fn lemma_transforms_in_constants(val: u32)
    ensures
        transforms_in(val).contains(SurfaceTransform::Identity) <==> (val & SURFACE_TRANSFORM_IDENTITY_BIT_KHR) != 0,
        transforms_in(val).contains(SurfaceTransform::Rotate90) <==> (val & SURFACE_TRANSFORM_ROTATE_90_BIT_KHR) != 0,
        transforms_in(val).contains(SurfaceTransform::Rotate180) <==> (val & SURFACE_TRANSFORM_ROTATE_180_BIT_KHR) != 0,
        transforms_in(val).contains(SurfaceTransform::Rotate270) <==> (val & SURFACE_TRANSFORM_ROTATE_270_BIT_KHR) != 0,
        transforms_in(val).contains(SurfaceTransform::HorizontalMirror) <==> (val & SURFACE_TRANSFORM_HORIZONTAL_MIRROR_BIT_KHR) != 0,
        transforms_in(val).contains(SurfaceTransform::HorizontalMirrorRotate90) <==> (val & SURFACE_TRANSFORM_HORIZONTAL_MIRROR_ROTATE_90_BIT_KHR) != 0,
        transforms_in(val).contains(SurfaceTransform::HorizontalMirrorRotate180) <==> (val & SURFACE_TRANSFORM_HORIZONTAL_MIRROR_ROTATE_180_BIT_KHR) != 0,
        transforms_in(val).contains(SurfaceTransform::HorizontalMirrorRotate270) <==> (val & SURFACE_TRANSFORM_HORIZONTAL_MIRROR_ROTATE_270_BIT_KHR) != 0,
        transforms_in(val).contains(SurfaceTransform::Inherit) <==> (val & SURFACE_TRANSFORM_INHERIT_BIT_KHR) != 0,
{
    lemma_transforms_in_contains(val, SurfaceTransform::Identity);
    lemma_transforms_in_contains(val, SurfaceTransform::Rotate90);
    lemma_transforms_in_contains(val, SurfaceTransform::Rotate180);
    lemma_transforms_in_contains(val, SurfaceTransform::Rotate270);
    lemma_transforms_in_contains(val, SurfaceTransform::HorizontalMirror);
    lemma_transforms_in_contains(val, SurfaceTransform::HorizontalMirrorRotate90);
    lemma_transforms_in_contains(val, SurfaceTransform::HorizontalMirrorRotate180);
    lemma_transforms_in_contains(val, SurfaceTransform::HorizontalMirrorRotate270);
    lemma_transforms_in_contains(val, SurfaceTransform::Inherit);
}

/// Decoding the Vulkan flag bit of one transform gives that transform alone.
pub proof fn lemma_transform_constants_decode()
    ensures
        transforms_in(SURFACE_TRANSFORM_IDENTITY_BIT_KHR) == seq![SurfaceTransform::Identity],
        transforms_in(SURFACE_TRANSFORM_ROTATE_90_BIT_KHR) == seq![SurfaceTransform::Rotate90],
        transforms_in(SURFACE_TRANSFORM_ROTATE_180_BIT_KHR) == seq![SurfaceTransform::Rotate180],
        transforms_in(SURFACE_TRANSFORM_ROTATE_270_BIT_KHR) == seq![SurfaceTransform::Rotate270],
        transforms_in(SURFACE_TRANSFORM_HORIZONTAL_MIRROR_BIT_KHR) == seq![SurfaceTransform::HorizontalMirror],
        transforms_in(SURFACE_TRANSFORM_HORIZONTAL_MIRROR_ROTATE_90_BIT_KHR) == seq![SurfaceTransform::HorizontalMirrorRotate90],
        transforms_in(SURFACE_TRANSFORM_HORIZONTAL_MIRROR_ROTATE_180_BIT_KHR) == seq![SurfaceTransform::HorizontalMirrorRotate180],
        transforms_in(SURFACE_TRANSFORM_HORIZONTAL_MIRROR_ROTATE_270_BIT_KHR) == seq![SurfaceTransform::HorizontalMirrorRotate270],
        transforms_in(SURFACE_TRANSFORM_INHERIT_BIT_KHR) == seq![SurfaceTransform::Inherit],
{
    lemma_transform_bit_roundtrip(SurfaceTransform::Identity);
    lemma_transform_bit_roundtrip(SurfaceTransform::Rotate90);
    lemma_transform_bit_roundtrip(SurfaceTransform::Rotate180);
    lemma_transform_bit_roundtrip(SurfaceTransform::Rotate270);
    lemma_transform_bit_roundtrip(SurfaceTransform::HorizontalMirror);
    lemma_transform_bit_roundtrip(SurfaceTransform::HorizontalMirrorRotate90);
    lemma_transform_bit_roundtrip(SurfaceTransform::HorizontalMirrorRotate180);
    lemma_transform_bit_roundtrip(SurfaceTransform::HorizontalMirrorRotate270);
    lemma_transform_bit_roundtrip(SurfaceTransform::Inherit);
}

/// Each composite alpha mode is decoded from its own Vulkan flag bit, whatever the other bits.
pub proof fn lemma_alphas_in_constants(val: u32)
    ensures
        alphas_in(val).contains(CompositeAlpha::Opaque) <==> (val & COMPOSITE_ALPHA_OPAQUE_BIT_KHR) != 0,
        alphas_in(val).contains(CompositeAlpha::PreMultiplied) <==> (val & COMPOSITE_ALPHA_PRE_MULTIPLIED_BIT_KHR) != 0,
        alphas_in(val).contains(CompositeAlpha::PostMultiplied) <==> (val & COMPOSITE_ALPHA_POST_MULTIPLIED_BIT_KHR) != 0,
        alphas_in(val).contains(CompositeAlpha::Inherit) <==> (val & COMPOSITE_ALPHA_INHERIT_BIT_KHR) != 0,
        alphas_in(val).no_duplicates(),
{
    lemma_alphas_in_contains(val, CompositeAlpha::Opaque);
    lemma_alphas_in_contains(val, CompositeAlpha::PreMultiplied);
    lemma_alphas_in_contains(val, CompositeAlpha::PostMultiplied);
    lemma_alphas_in_contains(val, CompositeAlpha::Inherit);
}

/// Decoding the Vulkan flag bit of one composite alpha mode gives that mode alone.
pub proof fn lemma_alpha_constants_decode()
    ensures
        alphas_in(COMPOSITE_ALPHA_OPAQUE_BIT_KHR) == seq![CompositeAlpha::Opaque],
        alphas_in(COMPOSITE_ALPHA_PRE_MULTIPLIED_BIT_KHR) == seq![CompositeAlpha::PreMultiplied],
        alphas_in(COMPOSITE_ALPHA_POST_MULTIPLIED_BIT_KHR) == seq![CompositeAlpha::PostMultiplied],
        alphas_in(COMPOSITE_ALPHA_INHERIT_BIT_KHR) == seq![CompositeAlpha::Inherit],
{
    lemma_alpha_bit_roundtrip(CompositeAlpha::Opaque);
    lemma_alpha_bit_roundtrip(CompositeAlpha::PreMultiplied);
    lemma_alpha_bit_roundtrip(CompositeAlpha::PostMultiplied);
    lemma_alpha_bit_roundtrip(CompositeAlpha::Inherit);
}

} // verus!
