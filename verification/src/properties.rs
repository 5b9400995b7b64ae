//! The feature-property resolver: the set of usages the device allows for a
//! native format, degrading through the capability record's support tiers.
//!
//! Every format starts from a baseline — optimal tiling supports sampling and
//! blits, buffer features are unrestricted, linear tiling grants nothing —
//! and per-format rules add capability-gated features on top. Tiers only
//! ever remove features relative to the tier above them, which makes the
//! resolver monotonic in the capability record (see
//! [`crate::lemma_format_properties_monotonic`]). The rule table is split
//! into three sub-tables by format kind: small (8/16-bit and packed 16-bit)
//! color formats, wide and packed-float color formats, and block-compressed
//! plus depth/stencil formats.

use vstd::prelude::*;

use crate::caps::PrivateCapabilities;
use crate::format::NativeFormat as Nf;
use crate::format::NativeFormat;

verus! {

/// Image-usage feature flags for one tiling mode of one format.
#[derive(Clone, Copy, PartialEq, Eq, Structural, Debug)]
pub struct ImageFeatures {
    /// May be sampled in a shader.
    pub sampled: bool,
    /// May be sampled with linear filtering.
    pub sampled_linear: bool,
    /// Usable as a storage image.
    pub storage: bool,
    /// Usable as a color attachment.
    pub color_attachment: bool,
    /// Usable as a blended color attachment.
    pub color_attachment_blend: bool,
    /// Usable as a blit source.
    pub blit_src: bool,
    /// Usable as a blit destination.
    pub blit_dst: bool,
}

impl ImageFeatures {
    /// Pointwise inclusion: every feature `self` grants, `other` grants too.
    pub open spec fn le(self, other: Self) -> bool {
        &&& (self.sampled ==> other.sampled)
        &&& (self.sampled_linear ==> other.sampled_linear)
        &&& (self.storage ==> other.storage)
        &&& (self.color_attachment ==> other.color_attachment)
        &&& (self.color_attachment_blend ==> other.color_attachment_blend)
        &&& (self.blit_src ==> other.blit_src)
        &&& (self.blit_dst ==> other.blit_dst)
    }
}

/// Buffer-usage feature flags of a format.
#[derive(Clone, Copy, PartialEq, Eq, Structural, Debug)]
pub struct BufferFeatures {
    /// Usable as a uniform texel buffer.
    pub uniform_texel: bool,
    /// Usable as a storage texel buffer.
    pub storage_texel: bool,
    /// Usable as a storage texel buffer with atomics.
    pub storage_texel_atomic: bool,
    /// Usable as a vertex buffer.
    pub vertex: bool,
}

/// The three feature bitmasks describing the allowed usages of a format:
/// one per tiling mode, plus the buffer features.
#[derive(Clone, Copy, PartialEq, Eq, Structural, Debug)]
pub struct Properties {
    pub linear_tiling: ImageFeatures,
    pub optimal_tiling: ImageFeatures,
    pub buffer_features: BufferFeatures,
}

/// An optimal-tiling feature tier: sampling and both blit directions — the
/// baseline of every format — plus the four gated features.
pub open spec fn feature_tier(sl: bool, st: bool, ca: bool, cab: bool) -> ImageFeatures {
    ImageFeatures {
        sampled: true,
        sampled_linear: sl,
        storage: st,
        color_attachment: ca,
        color_attachment_blend: cab,
        blit_src: true,
        blit_dst: true,
    }
}

/// No image features at all: the empty mask, used for linear tiling and for
/// the stencil-only and unfilterable depth tiers.
pub open spec fn no_features() -> ImageFeatures {
    ImageFeatures {
        sampled: false,
        sampled_linear: false,
        storage: false,
        color_attachment: false,
        color_attachment_blend: false,
        blit_src: false,
        blit_dst: false,
    }
}

/// Buffer features default to "all" for every format.
pub open spec fn all_buffer_features() -> BufferFeatures {
    BufferFeatures {
        uniform_texel: true,
        storage_texel: true,
        storage_texel_atomic: true,
        vertex: true,
    }
}

/// Optimal-tiling rules of the 8-bit, 16-bit and packed 16-bit color
/// formats; the baseline tier for any other format.
pub open spec fn small_color_features(caps: PrivateCapabilities, format: NativeFormat) -> ImageFeatures {
    match format {
        Nf::A8Unorm => feature_tier(true, false, false, false),
        Nf::R8Unorm => feature_tier(true, false, false, false),
        Nf::R8UnormSrgb => if caps.format_r8unorm_srgb_all {
            feature_tier(true, true, true, true)
        } else if caps.format_r8unorm_srgb_no_write {
            feature_tier(true, false, true, true)
        } else {
            feature_tier(false, false, false, false)
        },
        Nf::R8Snorm => if caps.format_r8snorm_all {
            feature_tier(true, true, true, true)
        } else {
            feature_tier(false, false, false, false)
        },
        Nf::R8Uint => feature_tier(false, true, true, false),
        Nf::R8Sint => feature_tier(false, true, true, false),
        Nf::R16Unorm => if caps.format_r16_norm_all {
            feature_tier(true, true, true, true)
        } else {
            feature_tier(false, false, false, false)
        },
        Nf::R16Snorm => if caps.format_r16_norm_all {
            feature_tier(true, true, true, true)
        } else {
            feature_tier(false, false, false, false)
        },
        Nf::R16Uint => feature_tier(false, true, true, false),
        Nf::R16Sint => feature_tier(false, true, true, false),
        Nf::R16Float => feature_tier(true, true, true, true),
        Nf::Rg8Unorm => feature_tier(true, true, true, true),
        Nf::Rg8UnormSrgb => if caps.format_rg8unorm_srgb_all {
            feature_tier(true, true, true, true)
        } else if caps.format_rg8unorm_srgb_no_write {
            feature_tier(true, false, true, true)
        } else {
            feature_tier(false, false, false, false)
        },
        Nf::Rg8Snorm => if caps.format_rg8snorm_all {
            feature_tier(true, true, true, true)
        } else {
            feature_tier(false, false, false, false)
        },
        Nf::Rg8Uint => feature_tier(true, false, true, false),
        Nf::Rg8Sint => feature_tier(true, false, true, false),
        Nf::B5g6r5Unorm | Nf::A1bgr5Unorm | Nf::Abgr4Unorm | Nf::Bgr5a1Unorm => if caps.format_b5 {
            feature_tier(true, false, true, true)
        } else {
            feature_tier(false, false, false, false)
        },
        Nf::Rg16Unorm => feature_tier(true, true, true, true),
        Nf::Rg16Snorm => feature_tier(true, true, true, true),
        Nf::Rg16Float => feature_tier(true, true, true, true),
        Nf::Rgba8Unorm => feature_tier(true, true, true, true),
        Nf::Rgba8UnormSrgb | Nf::Bgra8UnormSrgb => if caps.format_rgba8_srgb_no_write {
            feature_tier(true, false, true, true)
        } else if caps.format_rgba8_srgb_all {
            feature_tier(true, true, true, true)
        } else {
            feature_tier(false, false, false, false)
        },
        Nf::Rgba8Snorm => feature_tier(true, true, true, true),
        Nf::Rgba8Uint => feature_tier(false, true, true, false),
        Nf::Rgba8Sint => feature_tier(false, true, true, false),
        Nf::Bgra8Unorm => feature_tier(true, true, true, true),
        Nf::Rgba16Unorm => feature_tier(true, true, true, true),
        Nf::Rgba16Snorm => feature_tier(true, true, true, true),
        Nf::Rgba16Uint => feature_tier(false, true, true, false),
        Nf::Rgba16Sint => feature_tier(false, true, true, false),
        Nf::Rgba16Float => feature_tier(true, true, true, true),
        _ => feature_tier(false, false, false, false),
    }
}

/// Optimal-tiling rules of the 32-bit and packed wide color formats; the
/// baseline tier for any other format.
pub open spec fn wide_color_features(caps: PrivateCapabilities, format: NativeFormat) -> ImageFeatures {
    match format {
        Nf::R32Uint | Nf::R32Sint => if caps.format_r32_all {
            feature_tier(false, true, true, false)
        } else if caps.format_r32_no_write {
            feature_tier(false, false, true, false)
        } else {
            feature_tier(false, false, false, false)
        },
        Nf::R32Float => if caps.format_r32float_no_write_no_filter {
            feature_tier(false, false, true, true)
        } else if caps.format_r32float_no_filter {
            feature_tier(true, false, true, true)
        } else if caps.format_r32float_all {
            feature_tier(true, true, true, true)
        } else {
            feature_tier(false, false, false, false)
        },
        Nf::Rgb10a2Unorm => if caps.format_rgb10a2_unorm_all {
            feature_tier(true, true, true, true)
        } else if caps.format_rgb10a2_unorm_no_write {
            feature_tier(true, false, true, true)
        } else {
            feature_tier(false, false, false, false)
        },
        Nf::Rgb10a2Uint => if caps.format_rgb10a2_uint_color {
            feature_tier(false, false, true, false)
        } else if caps.format_rgb10a2_uint_color_write {
            feature_tier(false, true, true, false)
        } else {
            feature_tier(false, false, false, false)
        },
        Nf::Rg11b10Float => if caps.format_rg11b10_all {
            feature_tier(true, true, true, true)
        } else if caps.format_rg11b10_no_write {
            feature_tier(true, false, true, true)
        } else {
            feature_tier(false, false, false, false)
        },
        Nf::Rgb9e5Float => if caps.format_rgb9e5_all {
            feature_tier(true, true, true, true)
        } else if caps.format_rgb9e5_filter_only {
            feature_tier(true, false, false, false)
        } else if caps.format_rgb9e5_no_write {
            feature_tier(true, false, true, true)
        } else {
            feature_tier(false, false, false, false)
        },
        Nf::Rg32Uint | Nf::Rg32Sint => if caps.format_rg32_color {
            feature_tier(false, false, true, false)
        } else if caps.format_rg32_color_write {
            feature_tier(false, true, true, false)
        } else {
            feature_tier(false, false, false, false)
        },
        Nf::Rg32Float => if caps.format_rg32float_all {
            feature_tier(true, true, true, true)
        } else if caps.format_rg32float_color_blend {
            feature_tier(false, false, true, true)
        } else if caps.format_rg32float_no_filter {
            feature_tier(false, true, true, true)
        } else {
            feature_tier(false, false, false, false)
        },
        Nf::Rgba32Uint | Nf::Rgba32Sint => if caps.format_rgba32int_color {
            feature_tier(false, false, true, false)
        } else if caps.format_rgba32int_color_write {
            feature_tier(false, true, true, false)
        } else {
            feature_tier(false, false, false, false)
        },
        Nf::Rgba32Float => if caps.format_rgba32float_all {
            feature_tier(true, true, true, true)
        } else if caps.format_rgba32float_color {
            feature_tier(false, false, true, false)
        } else if caps.format_rgba32float_color_write {
            feature_tier(false, true, true, false)
        } else {
            feature_tier(false, false, false, false)
        },
        Nf::Bgr10a2Unorm => if caps.format_bgr10a2_all {
            feature_tier(true, true, true, true)
        } else if caps.format_bgr10a2_no_write {
            feature_tier(true, false, true, true)
        } else {
            feature_tier(false, false, false, false)
        },
        _ => feature_tier(false, false, false, false),
    }
}

/// Whether `format` belongs to one of the block-compressed families.
pub open spec fn is_compressed_block(format: NativeFormat) -> bool {
    match format {
        Nf::Bc1Rgba | Nf::Bc1RgbaSrgb | Nf::Bc2Rgba | Nf::Bc2RgbaSrgb | Nf::Bc3Rgba
        | Nf::Bc3RgbaSrgb | Nf::Bc4RUnorm | Nf::Bc4RSnorm | Nf::Bc5RgUnorm | Nf::Bc5RgSnorm
        | Nf::Bc6hRgbUfloat | Nf::Bc6hRgbFloat | Nf::Bc7RgbaUnorm | Nf::Bc7RgbaUnormSrgb
        | Nf::EacR11Unorm | Nf::EacR11Snorm | Nf::EacRg11Unorm | Nf::EacRg11Snorm | Nf::Etc2Rgb8
        | Nf::Etc2Rgb8Srgb | Nf::Etc2Rgb8a1 | Nf::Etc2Rgb8a1Srgb | Nf::Astc4x4Ldr
        | Nf::Astc4x4Srgb | Nf::Astc5x4Ldr | Nf::Astc5x4Srgb | Nf::Astc5x5Ldr | Nf::Astc5x5Srgb
        | Nf::Astc6x5Ldr | Nf::Astc6x5Srgb | Nf::Astc6x6Ldr | Nf::Astc6x6Srgb | Nf::Astc8x5Ldr
        | Nf::Astc8x5Srgb | Nf::Astc8x6Ldr | Nf::Astc8x6Srgb | Nf::Astc8x8Ldr | Nf::Astc8x8Srgb
        | Nf::Astc10x5Ldr | Nf::Astc10x5Srgb | Nf::Astc10x6Ldr | Nf::Astc10x6Srgb
        | Nf::Astc10x8Ldr | Nf::Astc10x8Srgb | Nf::Astc10x10Ldr | Nf::Astc10x10Srgb
        | Nf::Astc12x10Ldr | Nf::Astc12x10Srgb | Nf::Astc12x12Ldr | Nf::Astc12x12Srgb => true,
        _ => false,
    }
}

/// Optimal-tiling rules of the block-compressed and depth/stencil formats;
/// the baseline tier for any other format. Compressed families only ever
/// gain linear sampling; stencil-only and unfilterable depth tiers drop to
/// the empty mask.
pub open spec fn block_depth_features(caps: PrivateCapabilities, format: NativeFormat) -> ImageFeatures {
    match format {
        Nf::EacR11Unorm | Nf::EacR11Snorm | Nf::EacRg11Unorm | Nf::EacRg11Snorm | Nf::Etc2Rgb8
        | Nf::Etc2Rgb8Srgb | Nf::Etc2Rgb8a1 | Nf::Etc2Rgb8a1Srgb => if caps.format_eac_etc {
            feature_tier(true, false, false, false)
        } else {
            feature_tier(false, false, false, false)
        },
        Nf::Astc4x4Ldr | Nf::Astc4x4Srgb | Nf::Astc5x4Ldr | Nf::Astc5x4Srgb | Nf::Astc5x5Ldr
        | Nf::Astc5x5Srgb | Nf::Astc6x5Ldr | Nf::Astc6x5Srgb | Nf::Astc6x6Ldr | Nf::Astc6x6Srgb
        | Nf::Astc8x5Ldr | Nf::Astc8x5Srgb | Nf::Astc8x6Ldr | Nf::Astc8x6Srgb | Nf::Astc8x8Ldr
        | Nf::Astc8x8Srgb | Nf::Astc10x5Ldr | Nf::Astc10x5Srgb | Nf::Astc10x6Ldr
        | Nf::Astc10x6Srgb | Nf::Astc10x8Ldr | Nf::Astc10x8Srgb | Nf::Astc10x10Ldr
        | Nf::Astc10x10Srgb | Nf::Astc12x10Ldr | Nf::Astc12x10Srgb | Nf::Astc12x12Ldr
        | Nf::Astc12x12Srgb => if caps.format_astc {
            feature_tier(true, false, false, false)
        } else {
            feature_tier(false, false, false, false)
        },
        Nf::Bc1Rgba | Nf::Bc1RgbaSrgb | Nf::Bc2Rgba | Nf::Bc2RgbaSrgb | Nf::Bc3Rgba
        | Nf::Bc3RgbaSrgb | Nf::Bc4RUnorm | Nf::Bc4RSnorm | Nf::Bc5RgUnorm | Nf::Bc5RgSnorm
        | Nf::Bc6hRgbUfloat | Nf::Bc6hRgbFloat | Nf::Bc7RgbaUnorm
        | Nf::Bc7RgbaUnormSrgb => if caps.format_bc {
            feature_tier(true, false, false, false)
        } else {
            feature_tier(false, false, false, false)
        },
        Nf::Depth16Unorm => if caps.format_depth16unorm {
            feature_tier(true, false, false, false)
        } else {
            feature_tier(false, false, false, false)
        },
        Nf::Depth32Float => if caps.format_depth32float_filter {
            feature_tier(true, false, false, false)
        } else if caps.format_depth32float_none {
            no_features()
        } else {
            feature_tier(false, false, false, false)
        },
        Nf::Stencil8 => no_features(),
        Nf::Depth24UnormStencil8 => if caps.format_depth24_stencil8 {
            feature_tier(true, false, false, false)
        } else {
            feature_tier(false, false, false, false)
        },
        Nf::Depth32FloatStencil8 => if caps.format_depth32_stencil8_filter {
            feature_tier(true, false, false, false)
        } else if caps.format_depth32_stencil8_none {
            no_features()
        } else {
            feature_tier(false, false, false, false)
        },
        _ => feature_tier(false, false, false, false),
    }
}

/// The optimal-tiling features of `format` under `caps`: the per-format rule
/// table, first matching tier wins, baseline sampling-and-blit otherwise.
pub open spec fn optimal_features_spec(caps: PrivateCapabilities, format: NativeFormat) -> ImageFeatures {
    match format {
        Nf::A8Unorm | Nf::R8Unorm | Nf::R8UnormSrgb | Nf::R8Snorm | Nf::R8Uint | Nf::R8Sint
        | Nf::Rg8Unorm | Nf::Rg8UnormSrgb | Nf::Rg8Snorm | Nf::Rg8Uint | Nf::Rg8Sint
        | Nf::B5g6r5Unorm | Nf::A1bgr5Unorm | Nf::Abgr4Unorm | Nf::Bgr5a1Unorm | Nf::Rgba8Unorm
        | Nf::Rgba8UnormSrgb | Nf::Rgba8Snorm | Nf::Rgba8Uint | Nf::Rgba8Sint | Nf::Bgra8Unorm
        | Nf::Bgra8UnormSrgb | Nf::R16Unorm | Nf::R16Snorm | Nf::R16Uint | Nf::R16Sint
        | Nf::R16Float | Nf::Rg16Unorm | Nf::Rg16Snorm | Nf::Rg16Uint | Nf::Rg16Sint
        | Nf::Rg16Float | Nf::Rgba16Unorm | Nf::Rgba16Snorm | Nf::Rgba16Uint | Nf::Rgba16Sint
        | Nf::Rgba16Float => small_color_features(caps, format),
        Nf::Rgb10a2Unorm | Nf::Rgb10a2Uint | Nf::Bgr10a2Unorm | Nf::Rg11b10Float
        | Nf::Rgb9e5Float | Nf::R32Uint | Nf::R32Sint | Nf::R32Float | Nf::Rg32Uint
        | Nf::Rg32Sint | Nf::Rg32Float | Nf::Rgba32Uint | Nf::Rgba32Sint
        | Nf::Rgba32Float => wide_color_features(caps, format),
        Nf::Depth16Unorm | Nf::Depth32Float | Nf::Stencil8 | Nf::Depth24UnormStencil8
        | Nf::Depth32FloatStencil8 | Nf::Bc1Rgba | Nf::Bc1RgbaSrgb | Nf::Bc2Rgba
        | Nf::Bc2RgbaSrgb | Nf::Bc3Rgba | Nf::Bc3RgbaSrgb | Nf::Bc4RUnorm | Nf::Bc4RSnorm
        | Nf::Bc5RgUnorm | Nf::Bc5RgSnorm | Nf::Bc6hRgbUfloat | Nf::Bc6hRgbFloat
        | Nf::Bc7RgbaUnorm | Nf::Bc7RgbaUnormSrgb | Nf::EacR11Unorm | Nf::EacR11Snorm
        | Nf::EacRg11Unorm | Nf::EacRg11Snorm | Nf::Etc2Rgb8 | Nf::Etc2Rgb8Srgb | Nf::Etc2Rgb8a1
        | Nf::Etc2Rgb8a1Srgb | Nf::Astc4x4Ldr | Nf::Astc4x4Srgb | Nf::Astc5x4Ldr
        | Nf::Astc5x4Srgb | Nf::Astc5x5Ldr | Nf::Astc5x5Srgb | Nf::Astc6x5Ldr | Nf::Astc6x5Srgb
        | Nf::Astc6x6Ldr | Nf::Astc6x6Srgb | Nf::Astc8x5Ldr | Nf::Astc8x5Srgb | Nf::Astc8x6Ldr
        | Nf::Astc8x6Srgb | Nf::Astc8x8Ldr | Nf::Astc8x8Srgb | Nf::Astc10x5Ldr
        | Nf::Astc10x5Srgb | Nf::Astc10x6Ldr | Nf::Astc10x6Srgb | Nf::Astc10x8Ldr
        | Nf::Astc10x8Srgb | Nf::Astc10x10Ldr | Nf::Astc10x10Srgb | Nf::Astc12x10Ldr
        | Nf::Astc12x10Srgb | Nf::Astc12x12Ldr | Nf::Astc12x12Srgb => block_depth_features(
            caps,
            format,
        ),
    }
}

/// The full property set of `format` under `caps`: linear tiling grants
/// nothing, buffer features are unrestricted, and the optimal-tiling mask is
/// the per-format tier of [`optimal_features_spec`].
pub open spec fn format_properties_spec(caps: PrivateCapabilities, format: NativeFormat) -> Properties {
    Properties {
        linear_tiling: no_features(),
        optimal_tiling: optimal_features_spec(caps, format),
        buffer_features: all_buffer_features(),
    }
}

/// Build one optimal-tiling tier: the baseline plus the four gated features.
fn feature_set(sl: bool, st: bool, ca: bool, cab: bool) -> (r: ImageFeatures)
    ensures
        r == feature_tier(sl, st, ca, cab),
{
    ImageFeatures {
        sampled: true,
        sampled_linear: sl,
        storage: st,
        color_attachment: ca,
        color_attachment_blend: cab,
        blit_src: true,
        blit_dst: true,
    }
}

/// Build the empty feature mask.
fn no_feature_set() -> (r: ImageFeatures)
    ensures
        r == no_features(),
{
    ImageFeatures {
        sampled: false,
        sampled_linear: false,
        storage: false,
        color_attachment: false,
        color_attachment_blend: false,
        blit_src: false,
        blit_dst: false,
    }
}

impl PrivateCapabilities {
    /// The 8-bit, 16-bit and packed 16-bit color rows of the rule table.
    #[verifier::rlimit(100)]
    fn small_color_set(&self, format: NativeFormat) -> (r: ImageFeatures)
        ensures
            r == small_color_features(*self, format),
    {
        match format {
            Nf::A8Unorm => feature_set(true, false, false, false),
            Nf::R8Unorm => feature_set(true, false, false, false),
            Nf::R8UnormSrgb => if self.format_r8unorm_srgb_all {
                feature_set(true, true, true, true)
            } else if self.format_r8unorm_srgb_no_write {
                feature_set(true, false, true, true)
            } else {
                feature_set(false, false, false, false)
            },
            Nf::R8Snorm => if self.format_r8snorm_all {
                feature_set(true, true, true, true)
            } else {
                feature_set(false, false, false, false)
            },
            Nf::R8Uint => feature_set(false, true, true, false),
            Nf::R8Sint => feature_set(false, true, true, false),
            Nf::R16Unorm => if self.format_r16_norm_all {
                feature_set(true, true, true, true)
            } else {
                feature_set(false, false, false, false)
            },
            Nf::R16Snorm => if self.format_r16_norm_all {
                feature_set(true, true, true, true)
            } else {
                feature_set(false, false, false, false)
            },
            Nf::R16Uint => feature_set(false, true, true, false),
            Nf::R16Sint => feature_set(false, true, true, false),
            Nf::R16Float => feature_set(true, true, true, true),
            Nf::Rg8Unorm => feature_set(true, true, true, true),
            Nf::Rg8UnormSrgb => if self.format_rg8unorm_srgb_all {
                feature_set(true, true, true, true)
            } else if self.format_rg8unorm_srgb_no_write {
                feature_set(true, false, true, true)
            } else {
                feature_set(false, false, false, false)
            },
            Nf::Rg8Snorm => if self.format_rg8snorm_all {
                feature_set(true, true, true, true)
            } else {
                feature_set(false, false, false, false)
            },
            Nf::Rg8Uint => feature_set(true, false, true, false),
            Nf::Rg8Sint => feature_set(true, false, true, false),
            Nf::B5g6r5Unorm | Nf::A1bgr5Unorm | Nf::Abgr4Unorm | Nf::Bgr5a1Unorm => if self.format_b5 {
                feature_set(true, false, true, true)
            } else {
                feature_set(false, false, false, false)
            },
            Nf::Rg16Unorm => feature_set(true, true, true, true),
            Nf::Rg16Snorm => feature_set(true, true, true, true),
            Nf::Rg16Float => feature_set(true, true, true, true),
            Nf::Rgba8Unorm => feature_set(true, true, true, true),
            Nf::Rgba8UnormSrgb | Nf::Bgra8UnormSrgb => if self.format_rgba8_srgb_no_write {
                feature_set(true, false, true, true)
            } else if self.format_rgba8_srgb_all {
                feature_set(true, true, true, true)
            } else {
                feature_set(false, false, false, false)
            },
            Nf::Rgba8Snorm => feature_set(true, true, true, true),
            Nf::Rgba8Uint => feature_set(false, true, true, false),
            Nf::Rgba8Sint => feature_set(false, true, true, false),
            Nf::Bgra8Unorm => feature_set(true, true, true, true),
            Nf::Rgba16Unorm => feature_set(true, true, true, true),
            Nf::Rgba16Snorm => feature_set(true, true, true, true),
            Nf::Rgba16Uint => feature_set(false, true, true, false),
            Nf::Rgba16Sint => feature_set(false, true, true, false),
            Nf::Rgba16Float => feature_set(true, true, true, true),
            _ => feature_set(false, false, false, false),
        }
    }

    /// The 32-bit and packed wide color rows of the rule table.
    #[verifier::rlimit(100)]
    fn wide_color_set(&self, format: NativeFormat) -> (r: ImageFeatures)
        ensures
            r == wide_color_features(*self, format),
    {
        match format {
            Nf::R32Uint | Nf::R32Sint => if self.format_r32_all {
                feature_set(false, true, true, false)
            } else if self.format_r32_no_write {
                feature_set(false, false, true, false)
            } else {
                feature_set(false, false, false, false)
            },
            Nf::R32Float => if self.format_r32float_no_write_no_filter {
                feature_set(false, false, true, true)
            } else if self.format_r32float_no_filter {
                feature_set(true, false, true, true)
            } else if self.format_r32float_all {
                feature_set(true, true, true, true)
            } else {
                feature_set(false, false, false, false)
            },
            Nf::Rgb10a2Unorm => if self.format_rgb10a2_unorm_all {
                feature_set(true, true, true, true)
            } else if self.format_rgb10a2_unorm_no_write {
                feature_set(true, false, true, true)
            } else {
                feature_set(false, false, false, false)
            },
            Nf::Rgb10a2Uint => if self.format_rgb10a2_uint_color {
                feature_set(false, false, true, false)
            } else if self.format_rgb10a2_uint_color_write {
                feature_set(false, true, true, false)
            } else {
                feature_set(false, false, false, false)
            },
            Nf::Rg11b10Float => if self.format_rg11b10_all {
                feature_set(true, true, true, true)
            } else if self.format_rg11b10_no_write {
                feature_set(true, false, true, true)
            } else {
                feature_set(false, false, false, false)
            },
            Nf::Rgb9e5Float => if self.format_rgb9e5_all {
                feature_set(true, true, true, true)
            } else if self.format_rgb9e5_filter_only {
                feature_set(true, false, false, false)
            } else if self.format_rgb9e5_no_write {
                feature_set(true, false, true, true)
            } else {
                feature_set(false, false, false, false)
            },
            Nf::Rg32Uint | Nf::Rg32Sint => if self.format_rg32_color {
                feature_set(false, false, true, false)
            } else if self.format_rg32_color_write {
                feature_set(false, true, true, false)
            } else {
                feature_set(false, false, false, false)
            },
            Nf::Rg32Float => if self.format_rg32float_all {
                feature_set(true, true, true, true)
            } else if self.format_rg32float_color_blend {
                feature_set(false, false, true, true)
            } else if self.format_rg32float_no_filter {
                feature_set(false, true, true, true)
            } else {
                feature_set(false, false, false, false)
            },
            Nf::Rgba32Uint | Nf::Rgba32Sint => if self.format_rgba32int_color {
                feature_set(false, false, true, false)
            } else if self.format_rgba32int_color_write {
                feature_set(false, true, true, false)
            } else {
                feature_set(false, false, false, false)
            },
            Nf::Rgba32Float => if self.format_rgba32float_all {
                feature_set(true, true, true, true)
            } else if self.format_rgba32float_color {
                feature_set(false, false, true, false)
            } else if self.format_rgba32float_color_write {
                feature_set(false, true, true, false)
            } else {
                feature_set(false, false, false, false)
            },
            Nf::Bgr10a2Unorm => if self.format_bgr10a2_all {
                feature_set(true, true, true, true)
            } else if self.format_bgr10a2_no_write {
                feature_set(true, false, true, true)
            } else {
                feature_set(false, false, false, false)
            },
            _ => feature_set(false, false, false, false),
        }
    }

    /// The block-compressed and depth/stencil rows of the rule table.
    #[verifier::rlimit(100)]
    fn block_depth_set(&self, format: NativeFormat) -> (r: ImageFeatures)
        ensures
            r == block_depth_features(*self, format),
    {
        match format {
            Nf::EacR11Unorm | Nf::EacR11Snorm | Nf::EacRg11Unorm | Nf::EacRg11Snorm | Nf::Etc2Rgb8
            | Nf::Etc2Rgb8Srgb | Nf::Etc2Rgb8a1 | Nf::Etc2Rgb8a1Srgb => if self.format_eac_etc {
                feature_set(true, false, false, false)
            } else {
                feature_set(false, false, false, false)
            },
            Nf::Astc4x4Ldr | Nf::Astc4x4Srgb | Nf::Astc5x4Ldr | Nf::Astc5x4Srgb | Nf::Astc5x5Ldr
            | Nf::Astc5x5Srgb | Nf::Astc6x5Ldr | Nf::Astc6x5Srgb | Nf::Astc6x6Ldr
            | Nf::Astc6x6Srgb | Nf::Astc8x5Ldr | Nf::Astc8x5Srgb | Nf::Astc8x6Ldr
            | Nf::Astc8x6Srgb | Nf::Astc8x8Ldr | Nf::Astc8x8Srgb | Nf::Astc10x5Ldr
            | Nf::Astc10x5Srgb | Nf::Astc10x6Ldr | Nf::Astc10x6Srgb | Nf::Astc10x8Ldr
            | Nf::Astc10x8Srgb | Nf::Astc10x10Ldr | Nf::Astc10x10Srgb | Nf::Astc12x10Ldr
            | Nf::Astc12x10Srgb | Nf::Astc12x12Ldr | Nf::Astc12x12Srgb => if self.format_astc {
                feature_set(true, false, false, false)
            } else {
                feature_set(false, false, false, false)
            },
            Nf::Bc1Rgba | Nf::Bc1RgbaSrgb | Nf::Bc2Rgba | Nf::Bc2RgbaSrgb | Nf::Bc3Rgba
            | Nf::Bc3RgbaSrgb | Nf::Bc4RUnorm | Nf::Bc4RSnorm | Nf::Bc5RgUnorm | Nf::Bc5RgSnorm
            | Nf::Bc6hRgbUfloat | Nf::Bc6hRgbFloat | Nf::Bc7RgbaUnorm
            | Nf::Bc7RgbaUnormSrgb => if self.format_bc {
                feature_set(true, false, false, false)
            } else {
                feature_set(false, false, false, false)
            },
            Nf::Depth16Unorm => if self.format_depth16unorm {
                feature_set(true, false, false, false)
            } else {
                feature_set(false, false, false, false)
            },
            Nf::Depth32Float => if self.format_depth32float_filter {
                feature_set(true, false, false, false)
            } else if self.format_depth32float_none {
                no_feature_set()
            } else {
                feature_set(false, false, false, false)
            },
            Nf::Stencil8 => no_feature_set(),
            Nf::Depth24UnormStencil8 => if self.format_depth24_stencil8 {
                feature_set(true, false, false, false)
            } else {
                feature_set(false, false, false, false)
            },
            Nf::Depth32FloatStencil8 => if self.format_depth32_stencil8_filter {
                feature_set(true, false, false, false)
            } else if self.format_depth32_stencil8_none {
                no_feature_set()
            } else {
                feature_set(false, false, false, false)
            },
            _ => feature_set(false, false, false, false),
        }
    }

    /// Compute the usages the device allows for `format` under this record.
    ///
    /// Total over every native format: a format without a listed rule gets
    /// the baseline (sampling and blits under optimal tiling), and a listed
    /// format whose tier guards all fail degrades to the same baseline.
    #[verifier::rlimit(100)]
    pub fn map_format_properties(&self, format: NativeFormat) -> (r: Properties)
        ensures
            r == format_properties_spec(*self, format),
    {
        let optimal: ImageFeatures = match format {
            Nf::A8Unorm | Nf::R8Unorm | Nf::R8UnormSrgb | Nf::R8Snorm | Nf::R8Uint | Nf::R8Sint
            | Nf::Rg8Unorm | Nf::Rg8UnormSrgb | Nf::Rg8Snorm | Nf::Rg8Uint | Nf::Rg8Sint
            | Nf::B5g6r5Unorm | Nf::A1bgr5Unorm | Nf::Abgr4Unorm | Nf::Bgr5a1Unorm
            | Nf::Rgba8Unorm | Nf::Rgba8UnormSrgb | Nf::Rgba8Snorm | Nf::Rgba8Uint
            | Nf::Rgba8Sint | Nf::Bgra8Unorm | Nf::Bgra8UnormSrgb | Nf::R16Unorm | Nf::R16Snorm
            | Nf::R16Uint | Nf::R16Sint | Nf::R16Float | Nf::Rg16Unorm | Nf::Rg16Snorm
            | Nf::Rg16Uint | Nf::Rg16Sint | Nf::Rg16Float | Nf::Rgba16Unorm | Nf::Rgba16Snorm
            | Nf::Rgba16Uint | Nf::Rgba16Sint | Nf::Rgba16Float => self.small_color_set(format),
            Nf::Rgb10a2Unorm | Nf::Rgb10a2Uint | Nf::Bgr10a2Unorm | Nf::Rg11b10Float
            | Nf::Rgb9e5Float | Nf::R32Uint | Nf::R32Sint | Nf::R32Float | Nf::Rg32Uint
            | Nf::Rg32Sint | Nf::Rg32Float | Nf::Rgba32Uint | Nf::Rgba32Sint
            | Nf::Rgba32Float => self.wide_color_set(format),
            _ => self.block_depth_set(format),
        };
        Properties {
            linear_tiling: no_feature_set(),
            optimal_tiling: optimal,
            buffer_features: BufferFeatures {
                uniform_texel: true,
                storage_texel: true,
                storage_texel_atomic: true,
                vertex: true,
            },
        }
    }
}

} // verus!
