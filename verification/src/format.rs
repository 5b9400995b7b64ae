//! The portable pixel-format descriptors, the native driver's format tokens,
//! and the per-channel swizzle descriptor.

use vstd::prelude::*;

verus! {

/// A portable, driver-independent pixel/texel format: channel count and
/// order, bit width, numeric representation, block-compressed families and
/// combined depth/stencil layouts.
///
/// The set is closed. Variants in the group at the end of the list — packed
/// extended-range color spaces, packed luma/chroma pairs, stencil-only and
/// mixed 16-bit-depth/stencil layouts, and the low-bit-depth PVRTC-style
/// compressed family — have no native equivalent on this backend under any
/// capability state and always resolve to `None`.
#[derive(Clone, Copy, PartialEq, Eq, Structural, Debug)]
pub enum AbstractFormat {
    R8Unorm,
    R8Inorm,
    R8Srgb,
    R8Uint,
    R8Int,
    Rg8Unorm,
    Rg8Inorm,
    Rg8Srgb,
    Rg8Uint,
    Rg8Int,
    Rgb8Unorm,
    Rgb8Inorm,
    Rgb8Uint,
    Rgb8Int,
    Rgba8Unorm,
    Rgba8Inorm,
    Rgba8Srgb,
    Rgba8Uint,
    Rgba8Int,
    Bgra8Unorm,
    Bgra8Srgb,
    B5g6r5Unorm,
    B5g5r5a1Unorm,
    R16Unorm,
    R16Inorm,
    R16Uint,
    R16Int,
    R16Float,
    Rg16Unorm,
    Rg16Inorm,
    Rg16Uint,
    Rg16Int,
    Rg16Float,
    Rgb16Unorm,
    Rgb16Inorm,
    Rgb16Uint,
    Rgb16Int,
    Rgb16Float,
    Rgba16Unorm,
    Rgba16Inorm,
    Rgba16Uint,
    Rgba16Int,
    Rgba16Float,
    A2r10g10b10Unorm,
    A2r10g10b10Uint,
    B10g11r11Ufloat,
    E5b9g9r9Ufloat,
    R32Uint,
    R32Int,
    R32Float,
    Rg32Uint,
    Rg32Int,
    Rg32Float,
    Rgb32Uint,
    Rgb32Int,
    Rgb32Float,
    Rgba32Uint,
    Rgba32Int,
    Rgba32Float,
    D16Unorm,
    D32Float,
    D24UnormS8Uint,
    D32FloatS8Uint,
    Bc1RgbUnorm,
    Bc1RgbSrgb,
    Bc2Unorm,
    Bc2Srgb,
    Bc3Unorm,
    Bc3Srgb,
    Bc4Unorm,
    Bc4Inorm,
    Bc5Unorm,
    Bc5Inorm,
    Bc6hUfloat,
    Bc6hFloat,
    Bc7Unorm,
    Bc7Srgb,
    EacR11Unorm,
    EacR11Inorm,
    EacR11g11Unorm,
    EacR11g11Inorm,
    Etc2R8g8b8Unorm,
    Etc2R8g8b8Srgb,
    Etc2R8g8b8a1Unorm,
    Etc2R8g8b8a1Srgb,
    Astc4x4Unorm,
    Astc4x4Srgb,
    Astc5x4Unorm,
    Astc5x4Srgb,
    Astc5x5Unorm,
    Astc5x5Srgb,
    Astc6x5Unorm,
    Astc6x5Srgb,
    Astc6x6Unorm,
    Astc6x6Srgb,
    Astc8x5Unorm,
    Astc8x5Srgb,
    Astc8x6Unorm,
    Astc8x6Srgb,
    Astc8x8Unorm,
    Astc8x8Srgb,
    Astc10x5Unorm,
    Astc10x5Srgb,
    Astc10x6Unorm,
    Astc10x6Srgb,
    Astc10x8Unorm,
    Astc10x8Srgb,
    Astc10x10Unorm,
    Astc10x10Srgb,
    Astc12x10Unorm,
    Astc12x10Srgb,
    Astc12x12Unorm,
    Astc12x12Srgb,
    // Formats below have no native equivalent under any capability state.
    Etc2R8g8b8a8Unorm,
    Etc2R8g8b8a8Srgb,
    S8Uint,
    D16UnormS8Uint,
    Bgra10Xr,
    Bgra10XrSrgb,
    Bgr10Xr,
    Bgr10XrSrgb,
    G8b8g8r8422Unorm,
    B8g8r8g8422Unorm,
    Pvrtc2bppRgbUnorm,
    Pvrtc2bppRgbSrgb,
    Pvrtc4bppRgbUnorm,
    Pvrtc4bppRgbSrgb,
    Pvrtc2bppRgbaUnorm,
    Pvrtc2bppRgbaSrgb,
    Pvrtc4bppRgbaUnorm,
    Pvrtc4bppRgbaSrgb,
}

/// A format token of the native driver. One-way target of translation:
/// several portable formats may collapse onto one native token, so there is
/// no general inverse.
#[derive(Clone, Copy, PartialEq, Eq, Structural, Debug)]
pub enum NativeFormat {
    A8Unorm,
    R8Unorm,
    R8UnormSrgb,
    R8Snorm,
    R8Uint,
    R8Sint,
    Rg8Unorm,
    Rg8UnormSrgb,
    Rg8Snorm,
    Rg8Uint,
    Rg8Sint,
    B5g6r5Unorm,
    A1bgr5Unorm,
    Abgr4Unorm,
    Bgr5a1Unorm,
    Rgba8Unorm,
    Rgba8UnormSrgb,
    Rgba8Snorm,
    Rgba8Uint,
    Rgba8Sint,
    Bgra8Unorm,
    Bgra8UnormSrgb,
    R16Unorm,
    R16Snorm,
    R16Uint,
    R16Sint,
    R16Float,
    Rg16Unorm,
    Rg16Snorm,
    Rg16Uint,
    Rg16Sint,
    Rg16Float,
    Rgba16Unorm,
    Rgba16Snorm,
    Rgba16Uint,
    Rgba16Sint,
    Rgba16Float,
    Rgb10a2Unorm,
    Rgb10a2Uint,
    Bgr10a2Unorm,
    Rg11b10Float,
    Rgb9e5Float,
    R32Uint,
    R32Sint,
    R32Float,
    Rg32Uint,
    Rg32Sint,
    Rg32Float,
    Rgba32Uint,
    Rgba32Sint,
    Rgba32Float,
    Depth16Unorm,
    Depth32Float,
    Stencil8,
    Depth24UnormStencil8,
    Depth32FloatStencil8,
    Bc1Rgba,
    Bc1RgbaSrgb,
    Bc2Rgba,
    Bc2RgbaSrgb,
    Bc3Rgba,
    Bc3RgbaSrgb,
    Bc4RUnorm,
    Bc4RSnorm,
    Bc5RgUnorm,
    Bc5RgSnorm,
    Bc6hRgbUfloat,
    Bc6hRgbFloat,
    Bc7RgbaUnorm,
    Bc7RgbaUnormSrgb,
    EacR11Unorm,
    EacR11Snorm,
    EacRg11Unorm,
    EacRg11Snorm,
    Etc2Rgb8,
    Etc2Rgb8Srgb,
    Etc2Rgb8a1,
    Etc2Rgb8a1Srgb,
    Astc4x4Ldr,
    Astc4x4Srgb,
    Astc5x4Ldr,
    Astc5x4Srgb,
    Astc5x5Ldr,
    Astc5x5Srgb,
    Astc6x5Ldr,
    Astc6x5Srgb,
    Astc6x6Ldr,
    Astc6x6Srgb,
    Astc8x5Ldr,
    Astc8x5Srgb,
    Astc8x6Ldr,
    Astc8x6Srgb,
    Astc8x8Ldr,
    Astc8x8Srgb,
    Astc10x5Ldr,
    Astc10x5Srgb,
    Astc10x6Ldr,
    Astc10x6Srgb,
    Astc10x8Ldr,
    Astc10x8Srgb,
    Astc10x10Ldr,
    Astc10x10Srgb,
    Astc12x10Ldr,
    Astc12x10Srgb,
    Astc12x12Ldr,
    Astc12x12Srgb,
}

/// One channel selector of a swizzle: take a source channel, or force a
/// constant zero or one.
#[derive(Clone, Copy, PartialEq, Eq, Structural, Debug)]
pub enum Component {
    Zero,
    One,
    R,
    G,
    B,
    A,
}

/// A per-channel remap applied when reading a format's texel, one selector
/// per destination channel in red, green, blue, alpha order.
#[derive(Clone, Copy, PartialEq, Eq, Structural, Debug)]
pub struct Swizzle(pub Component, pub Component, pub Component, pub Component);

} // verus!
