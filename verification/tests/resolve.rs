use metal_conversions::{
    swizzle_has_native_equivalent, AbstractFormat, Component, NativeFormat, PrivateCapabilities,
    Swizzle,
};

/// A record with every family flag off and the sRGB channel floor at its
/// most restrictive, so every guarded rule fails.
fn bare_caps() -> PrivateCapabilities {
    PrivateCapabilities {
        format_min_srgb_channels: 8,
        format_b5: false,
        format_bc: false,
        format_eac_etc: false,
        format_astc: false,
        format_depth24_stencil8: false,
        format_depth32_stencil8_filter: false,
        format_depth32_stencil8_none: false,
        format_depth16unorm: false,
        format_depth32float_filter: false,
        format_depth32float_none: false,
        format_r8unorm_srgb_all: false,
        format_r8unorm_srgb_no_write: false,
        format_r8snorm_all: false,
        format_r16_norm_all: false,
        format_rg8unorm_srgb_all: false,
        format_rg8unorm_srgb_no_write: false,
        format_rg8snorm_all: false,
        format_r32_all: false,
        format_r32_no_write: false,
        format_r32float_no_write_no_filter: false,
        format_r32float_no_filter: false,
        format_r32float_all: false,
        format_rgba8_srgb_all: false,
        format_rgba8_srgb_no_write: false,
        format_rgb10a2_unorm_all: false,
        format_rgb10a2_unorm_no_write: false,
        format_rgb10a2_uint_color: false,
        format_rgb10a2_uint_color_write: false,
        format_rg11b10_all: false,
        format_rg11b10_no_write: false,
        format_rgb9e5_all: false,
        format_rgb9e5_filter_only: false,
        format_rgb9e5_no_write: false,
        format_rg32_color: false,
        format_rg32_color_write: false,
        format_rg32float_all: false,
        format_rg32float_color_blend: false,
        format_rg32float_no_filter: false,
        format_rgba32int_color: false,
        format_rgba32int_color_write: false,
        format_rgba32float_all: false,
        format_rgba32float_color: false,
        format_rgba32float_color_write: false,
        format_bgr10a2_all: false,
        format_bgr10a2_no_write: false,
    }
}

fn identity() -> Swizzle {
    Swizzle(Component::R, Component::G, Component::B, Component::A)
}

#[test]
fn unconditional_rule_resolves_under_any_caps() {
    let bare = bare_caps();
    let rich = PrivateCapabilities { format_bc: true, format_astc: true, ..bare_caps() };
    assert_eq!(bare.map_format(AbstractFormat::R8Unorm), Some(NativeFormat::R8Unorm));
    assert_eq!(rich.map_format(AbstractFormat::R8Unorm), Some(NativeFormat::R8Unorm));
    assert_eq!(bare.map_format(AbstractFormat::Rgba16Float), Some(NativeFormat::Rgba16Float));
    assert_eq!(bare.map_format(AbstractFormat::D32Float), Some(NativeFormat::Depth32Float));
}

#[test]
fn repeated_calls_return_identical_results() {
    let caps = PrivateCapabilities { format_min_srgb_channels: 1, ..bare_caps() };
    for format in [
        AbstractFormat::R8Unorm,
        AbstractFormat::R8Srgb,
        AbstractFormat::Bc3Unorm,
        AbstractFormat::Bgra10Xr,
    ] {
        assert_eq!(caps.map_format(format), caps.map_format(format));
    }
}

#[test]
fn srgb_guard_fails_with_high_channel_floor() {
    let caps = PrivateCapabilities { format_min_srgb_channels: 2, ..bare_caps() };
    assert_eq!(caps.map_format(AbstractFormat::R8Srgb), None);
    assert_eq!(caps.map_format(AbstractFormat::Rg8Srgb), Some(NativeFormat::Rg8UnormSrgb));
    assert_eq!(caps.map_format(AbstractFormat::Rgba8Srgb), Some(NativeFormat::Rgba8UnormSrgb));
}

#[test]
fn srgb_guard_passes_with_single_channel_floor() {
    let caps = PrivateCapabilities { format_min_srgb_channels: 1, ..bare_caps() };
    assert_eq!(caps.map_format(AbstractFormat::R8Srgb), Some(NativeFormat::R8UnormSrgb));
    assert_eq!(caps.map_format(AbstractFormat::Bgra8Srgb), Some(NativeFormat::Bgra8UnormSrgb));
}

#[test]
fn packed_16_bit_guard() {
    let without = bare_caps();
    let with = PrivateCapabilities { format_b5: true, ..bare_caps() };
    assert_eq!(without.map_format(AbstractFormat::B5g6r5Unorm), None);
    assert_eq!(without.map_format(AbstractFormat::B5g5r5a1Unorm), None);
    assert_eq!(with.map_format(AbstractFormat::B5g6r5Unorm), Some(NativeFormat::B5g6r5Unorm));
    assert_eq!(with.map_format(AbstractFormat::B5g5r5a1Unorm), Some(NativeFormat::Bgr5a1Unorm));
}

#[test]
fn combined_depth24_stencil8_guard() {
    let without = bare_caps();
    let with = PrivateCapabilities { format_depth24_stencil8: true, ..bare_caps() };
    assert_eq!(without.map_format(AbstractFormat::D24UnormS8Uint), None);
    assert_eq!(
        with.map_format(AbstractFormat::D24UnormS8Uint),
        Some(NativeFormat::Depth24UnormStencil8)
    );
}

#[test]
fn combined_depth32_stencil8_resolves_on_either_tier() {
    let filter = PrivateCapabilities { format_depth32_stencil8_filter: true, ..bare_caps() };
    let none = PrivateCapabilities { format_depth32_stencil8_none: true, ..bare_caps() };
    let neither = bare_caps();
    assert_eq!(
        filter.map_format(AbstractFormat::D32FloatS8Uint),
        Some(NativeFormat::Depth32FloatStencil8)
    );
    assert_eq!(
        none.map_format(AbstractFormat::D32FloatS8Uint),
        Some(NativeFormat::Depth32FloatStencil8)
    );
    assert_eq!(neither.map_format(AbstractFormat::D32FloatS8Uint), None);
}

#[test]
fn compressed_family_guards() {
    let bare = bare_caps();
    let bc = PrivateCapabilities { format_bc: true, ..bare_caps() };
    let etc = PrivateCapabilities { format_eac_etc: true, ..bare_caps() };
    let astc = PrivateCapabilities { format_astc: true, ..bare_caps() };
    assert_eq!(bare.map_format(AbstractFormat::Bc1RgbUnorm), None);
    assert_eq!(bc.map_format(AbstractFormat::Bc1RgbUnorm), Some(NativeFormat::Bc1Rgba));
    assert_eq!(bc.map_format(AbstractFormat::Bc7Srgb), Some(NativeFormat::Bc7RgbaUnormSrgb));
    assert_eq!(bare.map_format(AbstractFormat::EacR11Unorm), None);
    assert_eq!(etc.map_format(AbstractFormat::EacR11Unorm), Some(NativeFormat::EacR11Unorm));
    assert_eq!(etc.map_format(AbstractFormat::Etc2R8g8b8Srgb), Some(NativeFormat::Etc2Rgb8Srgb));
    assert_eq!(bare.map_format(AbstractFormat::Astc4x4Unorm), None);
    assert_eq!(astc.map_format(AbstractFormat::Astc4x4Unorm), Some(NativeFormat::Astc4x4Ldr));
    assert_eq!(astc.map_format(AbstractFormat::Astc12x12Srgb), Some(NativeFormat::Astc12x12Srgb));
}

#[test]
fn formats_without_native_equivalent_never_resolve() {
    let rich = PrivateCapabilities {
        format_min_srgb_channels: 1,
        format_b5: true,
        format_bc: true,
        format_eac_etc: true,
        format_astc: true,
        format_depth24_stencil8: true,
        format_depth32_stencil8_filter: true,
        ..bare_caps()
    };
    for format in [
        AbstractFormat::Bgra10Xr,
        AbstractFormat::Bgra10XrSrgb,
        AbstractFormat::Bgr10Xr,
        AbstractFormat::Bgr10XrSrgb,
        AbstractFormat::G8b8g8r8422Unorm,
        AbstractFormat::B8g8r8g8422Unorm,
        AbstractFormat::S8Uint,
        AbstractFormat::D16UnormS8Uint,
        AbstractFormat::Pvrtc2bppRgbUnorm,
        AbstractFormat::Pvrtc4bppRgbaSrgb,
        AbstractFormat::Etc2R8g8b8a8Unorm,
        AbstractFormat::Etc2R8g8b8a8Srgb,
    ] {
        assert_eq!(rich.map_format(format), None);
    }
}

#[test]
fn three_channel_formats_have_no_pixel_equivalent() {
    let caps = bare_caps();
    assert_eq!(caps.map_format(AbstractFormat::Rgb8Unorm), None);
    assert_eq!(caps.map_format(AbstractFormat::Rgb16Float), None);
    assert_eq!(caps.map_format(AbstractFormat::Rgb32Float), None);
}

#[test]
fn swizzle_allow_list_hits() {
    let caps = bare_caps();
    let broadcast_alpha = Swizzle(Component::Zero, Component::Zero, Component::Zero, Component::R);
    let swap_rb = Swizzle(Component::B, Component::G, Component::R, Component::A);
    assert_eq!(
        caps.map_format_with_swizzle(AbstractFormat::R8Unorm, broadcast_alpha),
        Some(NativeFormat::A8Unorm)
    );
    assert_eq!(
        caps.map_format_with_swizzle(AbstractFormat::Rgba8Unorm, swap_rb),
        Some(NativeFormat::Bgra8Unorm)
    );
    assert_eq!(
        caps.map_format_with_swizzle(AbstractFormat::Bgra8Unorm, swap_rb),
        Some(NativeFormat::Rgba8Unorm)
    );
    let srgb = PrivateCapabilities { format_min_srgb_channels: 4, ..bare_caps() };
    assert_eq!(
        srgb.map_format_with_swizzle(AbstractFormat::Bgra8Srgb, swap_rb),
        Some(NativeFormat::Rgba8UnormSrgb)
    );
}

#[test]
fn identity_swizzle_defers_to_plain_resolution() {
    let caps = PrivateCapabilities { format_min_srgb_channels: 2, format_bc: true, ..bare_caps() };
    for format in [
        AbstractFormat::R8Unorm,
        AbstractFormat::R8Srgb,
        AbstractFormat::Bc2Unorm,
        AbstractFormat::Bgra10Xr,
        AbstractFormat::Rgba8Unorm,
    ] {
        assert_eq!(
            caps.map_format_with_swizzle(format, identity()),
            caps.map_format(format)
        );
    }
}

#[test]
fn lossy_fallback_is_detectable() {
    let broadcast_alpha = Swizzle(Component::Zero, Component::Zero, Component::Zero, Component::R);
    let swap_rb = Swizzle(Component::B, Component::G, Component::R, Component::A);
    // The four allow-listed pairs are honored.
    assert!(swizzle_has_native_equivalent(AbstractFormat::R8Unorm, broadcast_alpha));
    assert!(swizzle_has_native_equivalent(AbstractFormat::Rgba8Unorm, swap_rb));
    assert!(swizzle_has_native_equivalent(AbstractFormat::Bgra8Unorm, swap_rb));
    assert!(swizzle_has_native_equivalent(AbstractFormat::Bgra8Srgb, swap_rb));
    // Any other pair is resolved with the swizzle ignored.
    assert!(!swizzle_has_native_equivalent(AbstractFormat::Rg8Unorm, broadcast_alpha));
    assert!(!swizzle_has_native_equivalent(AbstractFormat::Rgba8Unorm, broadcast_alpha));
    assert!(!swizzle_has_native_equivalent(AbstractFormat::R8Unorm, swap_rb));
    assert!(!swizzle_has_native_equivalent(AbstractFormat::R8Unorm, identity()));
}

#[test]
fn unsupported_swizzle_falls_back_to_plain_resolution() {
    let caps = bare_caps();
    let broadcast_alpha = Swizzle(Component::Zero, Component::Zero, Component::Zero, Component::R);
    let swap_rb = Swizzle(Component::B, Component::G, Component::R, Component::A);
    // Not on the allow-list: the swizzle is ignored and the plain rule applies.
    assert_eq!(
        caps.map_format_with_swizzle(AbstractFormat::Rg8Unorm, broadcast_alpha),
        Some(NativeFormat::Rg8Unorm)
    );
    assert_eq!(
        caps.map_format_with_swizzle(AbstractFormat::R16Float, swap_rb),
        Some(NativeFormat::R16Float)
    );
    // The fallback can still fail the plain rule's guard.
    assert_eq!(caps.map_format_with_swizzle(AbstractFormat::B5g6r5Unorm, swap_rb), None);
}
