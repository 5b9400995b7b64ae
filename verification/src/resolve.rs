//! The format resolver: maps a portable format, and optionally a swizzle, to
//! a native format token under a capability record.
//!
//! The resolver is a priority-ordered rule table. Each rule pairs a format
//! with an optional capability guard; a guarded rule fires only when its
//! guard holds of the record, and a format whose guard fails resolves to
//! `None` rather than forcing the mapping. The table is split into two spec
//! functions: [`format_guard`] gives each format's capability condition
//! (`true` for the unconditional rules) and [`native_equivalent`] gives the
//! target token, so a rule's soundness can be stated rule by rule.

use vstd::prelude::*;

use crate::caps::PrivateCapabilities;
use crate::format::AbstractFormat as Af;
use crate::format::NativeFormat as Nf;
use crate::format::{AbstractFormat, Component, NativeFormat, Swizzle};

verus! {

/// The capability condition guarding `format`'s resolution rule; `true` for
/// formats whose rule is unconditional (including the formats that never
/// resolve: their rule exists and unconditionally yields no target).
pub open spec fn format_guard(caps: PrivateCapabilities, format: AbstractFormat) -> bool {
    match format {
        Af::B5g6r5Unorm | Af::B5g5r5a1Unorm => caps.format_b5,
        Af::R8Srgb => caps.format_min_srgb_channels <= 1,
        Af::Rg8Srgb => caps.format_min_srgb_channels <= 2,
        Af::Rgba8Srgb | Af::Bgra8Srgb => caps.format_min_srgb_channels <= 4,
        Af::D24UnormS8Uint => caps.format_depth24_stencil8,
        Af::D32FloatS8Uint => caps.format_depth32_stencil8_filter
            || caps.format_depth32_stencil8_none,
        Af::Bc1RgbUnorm | Af::Bc1RgbSrgb | Af::Bc2Unorm | Af::Bc2Srgb | Af::Bc3Unorm
        | Af::Bc3Srgb | Af::Bc4Unorm | Af::Bc4Inorm | Af::Bc5Unorm | Af::Bc5Inorm
        | Af::Bc6hUfloat | Af::Bc6hFloat | Af::Bc7Unorm | Af::Bc7Srgb => caps.format_bc,
        Af::EacR11Unorm | Af::EacR11Inorm | Af::EacR11g11Unorm | Af::EacR11g11Inorm
        | Af::Etc2R8g8b8Unorm | Af::Etc2R8g8b8Srgb | Af::Etc2R8g8b8a1Unorm
        | Af::Etc2R8g8b8a1Srgb => caps.format_eac_etc,
        Af::Astc4x4Unorm | Af::Astc4x4Srgb | Af::Astc5x4Unorm | Af::Astc5x4Srgb
        | Af::Astc5x5Unorm | Af::Astc5x5Srgb | Af::Astc6x5Unorm | Af::Astc6x5Srgb
        | Af::Astc6x6Unorm | Af::Astc6x6Srgb | Af::Astc8x5Unorm | Af::Astc8x5Srgb
        | Af::Astc8x6Unorm | Af::Astc8x6Srgb | Af::Astc8x8Unorm | Af::Astc8x8Srgb
        | Af::Astc10x5Unorm | Af::Astc10x5Srgb | Af::Astc10x6Unorm | Af::Astc10x6Srgb
        | Af::Astc10x8Unorm | Af::Astc10x8Srgb | Af::Astc10x10Unorm | Af::Astc10x10Srgb
        | Af::Astc12x10Unorm | Af::Astc12x10Srgb | Af::Astc12x12Unorm
        | Af::Astc12x12Srgb => caps.format_astc,
        _ => true,
    }
}

/// The native token that `format`'s rule targets when its guard holds, and
/// `None` for the formats that have no native equivalent on this backend
/// under any capability state.
pub open spec fn native_equivalent(format: AbstractFormat) -> Option<NativeFormat> {
    match format {
        Af::B5g6r5Unorm => Some(Nf::B5g6r5Unorm),
        Af::B5g5r5a1Unorm => Some(Nf::Bgr5a1Unorm),
        Af::R8Srgb => Some(Nf::R8UnormSrgb),
        Af::Rg8Srgb => Some(Nf::Rg8UnormSrgb),
        Af::Rgba8Srgb => Some(Nf::Rgba8UnormSrgb),
        Af::Bgra8Srgb => Some(Nf::Bgra8UnormSrgb),
        Af::D24UnormS8Uint => Some(Nf::Depth24UnormStencil8),
        Af::D32FloatS8Uint => Some(Nf::Depth32FloatStencil8),
        Af::R8Unorm => Some(Nf::R8Unorm),
        Af::R8Inorm => Some(Nf::R8Snorm),
        Af::R8Uint => Some(Nf::R8Uint),
        Af::R8Int => Some(Nf::R8Sint),
        Af::Rg8Unorm => Some(Nf::Rg8Unorm),
        Af::Rg8Inorm => Some(Nf::Rg8Snorm),
        Af::Rg8Uint => Some(Nf::Rg8Uint),
        Af::Rg8Int => Some(Nf::Rg8Sint),
        Af::Rgba8Unorm => Some(Nf::Rgba8Unorm),
        Af::Rgba8Inorm => Some(Nf::Rgba8Snorm),
        Af::Rgba8Uint => Some(Nf::Rgba8Uint),
        Af::Rgba8Int => Some(Nf::Rgba8Sint),
        Af::Bgra8Unorm => Some(Nf::Bgra8Unorm),
        Af::R16Unorm => Some(Nf::R16Unorm),
        Af::R16Inorm => Some(Nf::R16Snorm),
        Af::R16Uint => Some(Nf::R16Uint),
        Af::R16Int => Some(Nf::R16Sint),
        Af::R16Float => Some(Nf::R16Float),
        Af::Rg16Unorm => Some(Nf::Rg16Unorm),
        Af::Rg16Inorm => Some(Nf::Rg16Snorm),
        Af::Rg16Uint => Some(Nf::Rg16Uint),
        Af::Rg16Int => Some(Nf::Rg16Sint),
        Af::Rg16Float => Some(Nf::Rg16Float),
        Af::Rgba16Unorm => Some(Nf::Rgba16Unorm),
        Af::Rgba16Inorm => Some(Nf::Rgba16Snorm),
        Af::Rgba16Uint => Some(Nf::Rgba16Uint),
        Af::Rgba16Int => Some(Nf::Rgba16Sint),
        Af::Rgba16Float => Some(Nf::Rgba16Float),
        Af::A2r10g10b10Unorm => Some(Nf::Rgb10a2Unorm),
        Af::A2r10g10b10Uint => Some(Nf::Rgb10a2Uint),
        Af::B10g11r11Ufloat => Some(Nf::Rg11b10Float),
        Af::E5b9g9r9Ufloat => Some(Nf::Rgb9e5Float),
        Af::R32Uint => Some(Nf::R32Uint),
        Af::R32Int => Some(Nf::R32Sint),
        Af::R32Float => Some(Nf::R32Float),
        Af::Rg32Uint => Some(Nf::Rg32Uint),
        Af::Rg32Int => Some(Nf::Rg32Sint),
        Af::Rg32Float => Some(Nf::Rg32Float),
        Af::Rgba32Uint => Some(Nf::Rgba32Uint),
        Af::Rgba32Int => Some(Nf::Rgba32Sint),
        Af::Rgba32Float => Some(Nf::Rgba32Float),
        Af::D16Unorm => Some(Nf::Depth16Unorm),
        Af::D32Float => Some(Nf::Depth32Float),
        Af::Bc1RgbUnorm => Some(Nf::Bc1Rgba),
        Af::Bc1RgbSrgb => Some(Nf::Bc1RgbaSrgb),
        Af::Bc2Unorm => Some(Nf::Bc2Rgba),
        Af::Bc2Srgb => Some(Nf::Bc2RgbaSrgb),
        Af::Bc3Unorm => Some(Nf::Bc3Rgba),
        Af::Bc3Srgb => Some(Nf::Bc3RgbaSrgb),
        Af::Bc4Unorm => Some(Nf::Bc4RUnorm),
        Af::Bc4Inorm => Some(Nf::Bc4RSnorm),
        Af::Bc5Unorm => Some(Nf::Bc5RgUnorm),
        Af::Bc5Inorm => Some(Nf::Bc5RgSnorm),
        Af::Bc6hUfloat => Some(Nf::Bc6hRgbUfloat),
        Af::Bc6hFloat => Some(Nf::Bc6hRgbFloat),
        Af::Bc7Unorm => Some(Nf::Bc7RgbaUnorm),
        Af::Bc7Srgb => Some(Nf::Bc7RgbaUnormSrgb),
        Af::EacR11Unorm => Some(Nf::EacR11Unorm),
        Af::EacR11Inorm => Some(Nf::EacR11Snorm),
        Af::EacR11g11Unorm => Some(Nf::EacRg11Unorm),
        Af::EacR11g11Inorm => Some(Nf::EacRg11Snorm),
        Af::Etc2R8g8b8Unorm => Some(Nf::Etc2Rgb8),
        Af::Etc2R8g8b8Srgb => Some(Nf::Etc2Rgb8Srgb),
        Af::Etc2R8g8b8a1Unorm => Some(Nf::Etc2Rgb8a1),
        Af::Etc2R8g8b8a1Srgb => Some(Nf::Etc2Rgb8a1Srgb),
        Af::Astc4x4Unorm => Some(Nf::Astc4x4Ldr),
        Af::Astc4x4Srgb => Some(Nf::Astc4x4Srgb),
        Af::Astc5x4Unorm => Some(Nf::Astc5x4Ldr),
        Af::Astc5x4Srgb => Some(Nf::Astc5x4Srgb),
        Af::Astc5x5Unorm => Some(Nf::Astc5x5Ldr),
        Af::Astc5x5Srgb => Some(Nf::Astc5x5Srgb),
        Af::Astc6x5Unorm => Some(Nf::Astc6x5Ldr),
        Af::Astc6x5Srgb => Some(Nf::Astc6x5Srgb),
        Af::Astc6x6Unorm => Some(Nf::Astc6x6Ldr),
        Af::Astc6x6Srgb => Some(Nf::Astc6x6Srgb),
        Af::Astc8x5Unorm => Some(Nf::Astc8x5Ldr),
        Af::Astc8x5Srgb => Some(Nf::Astc8x5Srgb),
        Af::Astc8x6Unorm => Some(Nf::Astc8x6Ldr),
        Af::Astc8x6Srgb => Some(Nf::Astc8x6Srgb),
        Af::Astc8x8Unorm => Some(Nf::Astc8x8Ldr),
        Af::Astc8x8Srgb => Some(Nf::Astc8x8Srgb),
        Af::Astc10x5Unorm => Some(Nf::Astc10x5Ldr),
        Af::Astc10x5Srgb => Some(Nf::Astc10x5Srgb),
        Af::Astc10x6Unorm => Some(Nf::Astc10x6Ldr),
        Af::Astc10x6Srgb => Some(Nf::Astc10x6Srgb),
        Af::Astc10x8Unorm => Some(Nf::Astc10x8Ldr),
        Af::Astc10x8Srgb => Some(Nf::Astc10x8Srgb),
        Af::Astc10x10Unorm => Some(Nf::Astc10x10Ldr),
        Af::Astc10x10Srgb => Some(Nf::Astc10x10Srgb),
        Af::Astc12x10Unorm => Some(Nf::Astc12x10Ldr),
        Af::Astc12x10Srgb => Some(Nf::Astc12x10Srgb),
        Af::Astc12x12Unorm => Some(Nf::Astc12x12Ldr),
        Af::Astc12x12Srgb => Some(Nf::Astc12x12Srgb),
        _ => None,
    }
}

/// What format resolution returns: the rule's target when the rule's guard
/// holds of the record, and `None` otherwise.
pub open spec fn map_format_spec(caps: PrivateCapabilities, format: AbstractFormat) -> Option<
    NativeFormat,
> {
    if format_guard(caps, format) {
        native_equivalent(format)
    } else {
        None
    }
}

/// The fixed allow-list of (format, swizzle) pairs for which the native API
/// has a dedicated format performing exactly that remap.
pub open spec fn swizzle_native_equivalent(format: AbstractFormat, swizzle: Swizzle) -> Option<
    NativeFormat,
> {
    match (format, swizzle) {
        (Af::R8Unorm, Swizzle(Component::Zero, Component::Zero, Component::Zero, Component::R)) => Some(
            Nf::A8Unorm,
        ),
        (Af::Rgba8Unorm, Swizzle(Component::B, Component::G, Component::R, Component::A)) => Some(
            Nf::Bgra8Unorm,
        ),
        (Af::Bgra8Unorm, Swizzle(Component::B, Component::G, Component::R, Component::A)) => Some(
            Nf::Rgba8Unorm,
        ),
        (Af::Bgra8Srgb, Swizzle(Component::B, Component::G, Component::R, Component::A)) => Some(
            Nf::Rgba8UnormSrgb,
        ),
        _ => None,
    }
}

/// The swizzle that leaves every channel in place.
pub open spec fn identity_swizzle() -> Swizzle {
    Swizzle(Component::R, Component::G, Component::B, Component::A)
}

/// What swizzle-aware resolution returns: the dedicated native format on an
/// allow-list hit, and otherwise the plain resolution of `format`, the
/// requested swizzle ignored.
pub open spec fn map_format_with_swizzle_spec(
    caps: PrivateCapabilities,
    format: AbstractFormat,
    swizzle: Swizzle,
) -> Option<NativeFormat> {
    match swizzle_native_equivalent(format, swizzle) {
        Some(native) => Some(native),
        None => map_format_spec(caps, format),
    }
}

/// Whether the native API has a dedicated format performing exactly this
/// (format, swizzle) remap. When this returns `false` for a non-identity
/// swizzle, [`PrivateCapabilities::map_format_with_swizzle`] ignores the
/// swizzle and falls back to plain resolution — a deliberate lossy
/// degradation — so a caller that relies on the remap for correctness must
/// test the pair here first.
pub fn swizzle_has_native_equivalent(format: AbstractFormat, swizzle: Swizzle) -> (r: bool)
    ensures
        r == (swizzle_native_equivalent(format, swizzle) is Some),
{
    match (format, swizzle) {
        (
            Af::R8Unorm,
            Swizzle(Component::Zero, Component::Zero, Component::Zero, Component::R),
        ) => true,
        (Af::Rgba8Unorm, Swizzle(Component::B, Component::G, Component::R, Component::A)) => true,
        (Af::Bgra8Unorm, Swizzle(Component::B, Component::G, Component::R, Component::A)) => true,
        (Af::Bgra8Srgb, Swizzle(Component::B, Component::G, Component::R, Component::A)) => true,
        _ => false,
    }
}

impl PrivateCapabilities {
    /// Resolve a portable format to a native token under this record.
    ///
    /// `None` means the format cannot be used on this device: either its
    /// rule's capability guard fails, or the format has no native equivalent
    /// at all. Callers handle it as a capability-query failure, never as a
    /// crash.
    pub fn map_format(&self, format: AbstractFormat) -> (r: Option<NativeFormat>)
        ensures
            r == map_format_spec(*self, format),
    {
        match format {
            Af::B5g6r5Unorm => if self.format_b5 {
                Some(Nf::B5g6r5Unorm)
            } else {
                None
            },
            Af::B5g5r5a1Unorm => if self.format_b5 {
                Some(Nf::Bgr5a1Unorm)
            } else {
                None
            },
            Af::R8Srgb => if self.format_min_srgb_channels <= 1 {
                Some(Nf::R8UnormSrgb)
            } else {
                None
            },
            Af::Rg8Srgb => if self.format_min_srgb_channels <= 2 {
                Some(Nf::Rg8UnormSrgb)
            } else {
                None
            },
            Af::Rgba8Srgb => if self.format_min_srgb_channels <= 4 {
                Some(Nf::Rgba8UnormSrgb)
            } else {
                None
            },
            Af::Bgra8Srgb => if self.format_min_srgb_channels <= 4 {
                Some(Nf::Bgra8UnormSrgb)
            } else {
                None
            },
            Af::D24UnormS8Uint => if self.format_depth24_stencil8 {
                Some(Nf::Depth24UnormStencil8)
            } else {
                None
            },
            Af::D32FloatS8Uint => if self.format_depth32_stencil8_filter
                || self.format_depth32_stencil8_none {
                Some(Nf::Depth32FloatStencil8)
            } else {
                None
            },
            Af::R8Unorm => Some(Nf::R8Unorm),
            Af::R8Inorm => Some(Nf::R8Snorm),
            Af::R8Uint => Some(Nf::R8Uint),
            Af::R8Int => Some(Nf::R8Sint),
            Af::Rg8Unorm => Some(Nf::Rg8Unorm),
            Af::Rg8Inorm => Some(Nf::Rg8Snorm),
            Af::Rg8Uint => Some(Nf::Rg8Uint),
            Af::Rg8Int => Some(Nf::Rg8Sint),
            Af::Rgba8Unorm => Some(Nf::Rgba8Unorm),
            Af::Rgba8Inorm => Some(Nf::Rgba8Snorm),
            Af::Rgba8Uint => Some(Nf::Rgba8Uint),
            Af::Rgba8Int => Some(Nf::Rgba8Sint),
            Af::Bgra8Unorm => Some(Nf::Bgra8Unorm),
            Af::R16Unorm => Some(Nf::R16Unorm),
            Af::R16Inorm => Some(Nf::R16Snorm),
            Af::R16Uint => Some(Nf::R16Uint),
            Af::R16Int => Some(Nf::R16Sint),
            Af::R16Float => Some(Nf::R16Float),
            Af::Rg16Unorm => Some(Nf::Rg16Unorm),
            Af::Rg16Inorm => Some(Nf::Rg16Snorm),
            Af::Rg16Uint => Some(Nf::Rg16Uint),
            Af::Rg16Int => Some(Nf::Rg16Sint),
            Af::Rg16Float => Some(Nf::Rg16Float),
            Af::Rgba16Unorm => Some(Nf::Rgba16Unorm),
            Af::Rgba16Inorm => Some(Nf::Rgba16Snorm),
            Af::Rgba16Uint => Some(Nf::Rgba16Uint),
            Af::Rgba16Int => Some(Nf::Rgba16Sint),
            Af::Rgba16Float => Some(Nf::Rgba16Float),
            Af::A2r10g10b10Unorm => Some(Nf::Rgb10a2Unorm),
            Af::A2r10g10b10Uint => Some(Nf::Rgb10a2Uint),
            Af::B10g11r11Ufloat => Some(Nf::Rg11b10Float),
            Af::E5b9g9r9Ufloat => Some(Nf::Rgb9e5Float),
            Af::R32Uint => Some(Nf::R32Uint),
            Af::R32Int => Some(Nf::R32Sint),
            Af::R32Float => Some(Nf::R32Float),
            Af::Rg32Uint => Some(Nf::Rg32Uint),
            Af::Rg32Int => Some(Nf::Rg32Sint),
            Af::Rg32Float => Some(Nf::Rg32Float),
            Af::Rgba32Uint => Some(Nf::Rgba32Uint),
            Af::Rgba32Int => Some(Nf::Rgba32Sint),
            Af::Rgba32Float => Some(Nf::Rgba32Float),
            Af::D16Unorm => Some(Nf::Depth16Unorm),
            Af::D32Float => Some(Nf::Depth32Float),
            Af::Bc1RgbUnorm => if self.format_bc {
                Some(Nf::Bc1Rgba)
            } else {
                None
            },
            Af::Bc1RgbSrgb => if self.format_bc {
                Some(Nf::Bc1RgbaSrgb)
            } else {
                None
            },
            Af::Bc2Unorm => if self.format_bc {
                Some(Nf::Bc2Rgba)
            } else {
                None
            },
            Af::Bc2Srgb => if self.format_bc {
                Some(Nf::Bc2RgbaSrgb)
            } else {
                None
            },
            Af::Bc3Unorm => if self.format_bc {
                Some(Nf::Bc3Rgba)
            } else {
                None
            },
            Af::Bc3Srgb => if self.format_bc {
                Some(Nf::Bc3RgbaSrgb)
            } else {
                None
            },
            Af::Bc4Unorm => if self.format_bc {
                Some(Nf::Bc4RUnorm)
            } else {
                None
            },
            Af::Bc4Inorm => if self.format_bc {
                Some(Nf::Bc4RSnorm)
            } else {
                None
            },
            Af::Bc5Unorm => if self.format_bc {
                Some(Nf::Bc5RgUnorm)
            } else {
                None
            },
            Af::Bc5Inorm => if self.format_bc {
                Some(Nf::Bc5RgSnorm)
            } else {
                None
            },
            Af::Bc6hUfloat => if self.format_bc {
                Some(Nf::Bc6hRgbUfloat)
            } else {
                None
            },
            Af::Bc6hFloat => if self.format_bc {
                Some(Nf::Bc6hRgbFloat)
            } else {
                None
            },
            Af::Bc7Unorm => if self.format_bc {
                Some(Nf::Bc7RgbaUnorm)
            } else {
                None
            },
            Af::Bc7Srgb => if self.format_bc {
                Some(Nf::Bc7RgbaUnormSrgb)
            } else {
                None
            },
            Af::EacR11Unorm => if self.format_eac_etc {
                Some(Nf::EacR11Unorm)
            } else {
                None
            },
            Af::EacR11Inorm => if self.format_eac_etc {
                Some(Nf::EacR11Snorm)
            } else {
                None
            },
            Af::EacR11g11Unorm => if self.format_eac_etc {
                Some(Nf::EacRg11Unorm)
            } else {
                None
            },
            Af::EacR11g11Inorm => if self.format_eac_etc {
                Some(Nf::EacRg11Snorm)
            } else {
                None
            },
            Af::Etc2R8g8b8Unorm => if self.format_eac_etc {
                Some(Nf::Etc2Rgb8)
            } else {
                None
            },
            Af::Etc2R8g8b8Srgb => if self.format_eac_etc {
                Some(Nf::Etc2Rgb8Srgb)
            } else {
                None
            },
            Af::Etc2R8g8b8a1Unorm => if self.format_eac_etc {
                Some(Nf::Etc2Rgb8a1)
            } else {
                None
            },
            Af::Etc2R8g8b8a1Srgb => if self.format_eac_etc {
                Some(Nf::Etc2Rgb8a1Srgb)
            } else {
                None
            },
            Af::Astc4x4Unorm => if self.format_astc {
                Some(Nf::Astc4x4Ldr)
            } else {
                None
            },
            Af::Astc4x4Srgb => if self.format_astc {
                Some(Nf::Astc4x4Srgb)
            } else {
                None
            },
            Af::Astc5x4Unorm => if self.format_astc {
                Some(Nf::Astc5x4Ldr)
            } else {
                None
            },
            Af::Astc5x4Srgb => if self.format_astc {
                Some(Nf::Astc5x4Srgb)
            } else {
                None
            },
            Af::Astc5x5Unorm => if self.format_astc {
                Some(Nf::Astc5x5Ldr)
            } else {
                None
            },
            Af::Astc5x5Srgb => if self.format_astc {
                Some(Nf::Astc5x5Srgb)
            } else {
                None
            },
            Af::Astc6x5Unorm => if self.format_astc {
                Some(Nf::Astc6x5Ldr)
            } else {
                None
            },
            Af::Astc6x5Srgb => if self.format_astc {
                Some(Nf::Astc6x5Srgb)
            } else {
                None
            },
            Af::Astc6x6Unorm => if self.format_astc {
                Some(Nf::Astc6x6Ldr)
            } else {
                None
            },
            Af::Astc6x6Srgb => if self.format_astc {
                Some(Nf::Astc6x6Srgb)
            } else {
                None
            },
            Af::Astc8x5Unorm => if self.format_astc {
                Some(Nf::Astc8x5Ldr)
            } else {
                None
            },
            Af::Astc8x5Srgb => if self.format_astc {
                Some(Nf::Astc8x5Srgb)
            } else {
                None
            },
            Af::Astc8x6Unorm => if self.format_astc {
                Some(Nf::Astc8x6Ldr)
            } else {
                None
            },
            Af::Astc8x6Srgb => if self.format_astc {
                Some(Nf::Astc8x6Srgb)
            } else {
                None
            },
            Af::Astc8x8Unorm => if self.format_astc {
                Some(Nf::Astc8x8Ldr)
            } else {
                None
            },
            Af::Astc8x8Srgb => if self.format_astc {
                Some(Nf::Astc8x8Srgb)
            } else {
                None
            },
            Af::Astc10x5Unorm => if self.format_astc {
                Some(Nf::Astc10x5Ldr)
            } else {
                None
            },
            Af::Astc10x5Srgb => if self.format_astc {
                Some(Nf::Astc10x5Srgb)
            } else {
                None
            },
            Af::Astc10x6Unorm => if self.format_astc {
                Some(Nf::Astc10x6Ldr)
            } else {
                None
            },
            Af::Astc10x6Srgb => if self.format_astc {
                Some(Nf::Astc10x6Srgb)
            } else {
                None
            },
            Af::Astc10x8Unorm => if self.format_astc {
                Some(Nf::Astc10x8Ldr)
            } else {
                None
            },
            Af::Astc10x8Srgb => if self.format_astc {
                Some(Nf::Astc10x8Srgb)
            } else {
                None
            },
            Af::Astc10x10Unorm => if self.format_astc {
                Some(Nf::Astc10x10Ldr)
            } else {
                None
            },
            Af::Astc10x10Srgb => if self.format_astc {
                Some(Nf::Astc10x10Srgb)
            } else {
                None
            },
            Af::Astc12x10Unorm => if self.format_astc {
                Some(Nf::Astc12x10Ldr)
            } else {
                None
            },
            Af::Astc12x10Srgb => if self.format_astc {
                Some(Nf::Astc12x10Srgb)
            } else {
                None
            },
            Af::Astc12x12Unorm => if self.format_astc {
                Some(Nf::Astc12x12Ldr)
            } else {
                None
            },
            Af::Astc12x12Srgb => if self.format_astc {
                Some(Nf::Astc12x12Srgb)
            } else {
                None
            },
            _ => None,
        }
    }

    /// Resolve a portable format together with a requested swizzle.
    ///
    /// A hit on the fixed allow-list returns the dedicated native format
    /// that performs the remap. Any other pair defers to [`Self::map_format`]
    /// with the swizzle ignored — a deliberate lossy fallback; a caller that
    /// relies on a non-identity swizzle for correctness detects the
    /// degradation with [`swizzle_has_native_equivalent`].
    pub fn map_format_with_swizzle(&self, format: AbstractFormat, swizzle: Swizzle) -> (r: Option<
        NativeFormat,
    >)
        ensures
            r == map_format_with_swizzle_spec(*self, format, swizzle),
    {
        match (format, swizzle) {
            (
                Af::R8Unorm,
                Swizzle(Component::Zero, Component::Zero, Component::Zero, Component::R),
            ) => Some(Nf::A8Unorm),
            (
                Af::Rgba8Unorm,
                Swizzle(Component::B, Component::G, Component::R, Component::A),
            ) => Some(Nf::Bgra8Unorm),
            (
                Af::Bgra8Unorm,
                Swizzle(Component::B, Component::G, Component::R, Component::A),
            ) => Some(Nf::Rgba8Unorm),
            (
                Af::Bgra8Srgb,
                Swizzle(Component::B, Component::G, Component::R, Component::A),
            ) => Some(Nf::Rgba8UnormSrgb),
            _ => self.map_format(format),
        }
    }
}

} // verus!
