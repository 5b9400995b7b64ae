use metal_conversions::{ImageFeatures, NativeFormat, PrivateCapabilities};

fn bare_caps() -> PrivateCapabilities {
    PrivateCapabilities {
        format_min_srgb_channels: 8,
        format_b5: false,
        format_bc: false,
        format_eac_etc: false,
        format_astc: false,
        format_depth24_stencil8: false,
        format_depth32_stencil8_filter: false,
        format_depth32_stencil8_none: false,
        format_depth16unorm: false,
        format_depth32float_filter: false,
        format_depth32float_none: false,
        format_r8unorm_srgb_all: false,
        format_r8unorm_srgb_no_write: false,
        format_r8snorm_all: false,
        format_r16_norm_all: false,
        format_rg8unorm_srgb_all: false,
        format_rg8unorm_srgb_no_write: false,
        format_rg8snorm_all: false,
        format_r32_all: false,
        format_r32_no_write: false,
        format_r32float_no_write_no_filter: false,
        format_r32float_no_filter: false,
        format_r32float_all: false,
        format_rgba8_srgb_all: false,
        format_rgba8_srgb_no_write: false,
        format_rgb10a2_unorm_all: false,
        format_rgb10a2_unorm_no_write: false,
        format_rgb10a2_uint_color: false,
        format_rgb10a2_uint_color_write: false,
        format_rg11b10_all: false,
        format_rg11b10_no_write: false,
        format_rgb9e5_all: false,
        format_rgb9e5_filter_only: false,
        format_rgb9e5_no_write: false,
        format_rg32_color: false,
        format_rg32_color_write: false,
        format_rg32float_all: false,
        format_rg32float_color_blend: false,
        format_rg32float_no_filter: false,
        format_rgba32int_color: false,
        format_rgba32int_color_write: false,
        format_rgba32float_all: false,
        format_rgba32float_color: false,
        format_rgba32float_color_write: false,
        format_bgr10a2_all: false,
        format_bgr10a2_no_write: false,
    }
}

/// The optimal-tiling tier with the four gated features as given, on top of
/// the sampling-and-blit baseline.
fn tier(sl: bool, st: bool, ca: bool, cab: bool) -> ImageFeatures {
    ImageFeatures {
        sampled: true,
        sampled_linear: sl,
        storage: st,
        color_attachment: ca,
        color_attachment_blend: cab,
        blit_src: true,
        blit_dst: true,
    }
}

fn empty() -> ImageFeatures {
    ImageFeatures {
        sampled: false,
        sampled_linear: false,
        storage: false,
        color_attachment: false,
        color_attachment_blend: false,
        blit_src: false,
        blit_dst: false,
    }
}

fn subset(a: &ImageFeatures, b: &ImageFeatures) -> bool {
    (!a.sampled || b.sampled)
        && (!a.sampled_linear || b.sampled_linear)
        && (!a.storage || b.storage)
        && (!a.color_attachment || b.color_attachment)
        && (!a.color_attachment_blend || b.color_attachment_blend)
        && (!a.blit_src || b.blit_src)
        && (!a.blit_dst || b.blit_dst)
}

#[test]
fn linear_tiling_and_buffer_features_are_fixed() {
    let caps = bare_caps();
    for format in [NativeFormat::R8Unorm, NativeFormat::Stencil8, NativeFormat::Bc1Rgba] {
        let p = caps.map_format_properties(format);
        assert_eq!(p.linear_tiling, empty());
        assert!(p.buffer_features.uniform_texel);
        assert!(p.buffer_features.storage_texel);
        assert!(p.buffer_features.storage_texel_atomic);
        assert!(p.buffer_features.vertex);
    }
}

#[test]
fn alpha_only_format_gains_linear_sampling() {
    let p = bare_caps().map_format_properties(NativeFormat::A8Unorm);
    assert_eq!(p.optimal_tiling, tier(true, false, false, false));
}

#[test]
fn r8unorm_baseline_gains_linear_sampling_only() {
    let p = bare_caps().map_format_properties(NativeFormat::R8Unorm);
    assert_eq!(p.optimal_tiling, tier(true, false, false, false));
    let rich = PrivateCapabilities { format_r8snorm_all: true, format_bc: true, ..bare_caps() };
    assert_eq!(
        rich.map_format_properties(NativeFormat::R8Unorm).optimal_tiling,
        tier(true, false, false, false)
    );
}

#[test]
fn unlisted_format_gets_the_baseline() {
    let p = bare_caps().map_format_properties(NativeFormat::Rg16Uint);
    assert_eq!(p.optimal_tiling, tier(false, false, false, false));
}

#[test]
fn r8unorm_srgb_tiers_degrade() {
    let all = PrivateCapabilities { format_r8unorm_srgb_all: true, ..bare_caps() };
    let no_write = PrivateCapabilities { format_r8unorm_srgb_no_write: true, ..bare_caps() };
    let neither = bare_caps();
    assert_eq!(
        all.map_format_properties(NativeFormat::R8UnormSrgb).optimal_tiling,
        tier(true, true, true, true)
    );
    assert_eq!(
        no_write.map_format_properties(NativeFormat::R8UnormSrgb).optimal_tiling,
        tier(true, false, true, true)
    );
    assert_eq!(
        neither.map_format_properties(NativeFormat::R8UnormSrgb).optimal_tiling,
        tier(false, false, false, false)
    );
}

#[test]
fn r32float_tiers_degrade() {
    let all = PrivateCapabilities { format_r32float_all: true, ..bare_caps() };
    let no_filter = PrivateCapabilities { format_r32float_no_filter: true, ..bare_caps() };
    let least =
        PrivateCapabilities { format_r32float_no_write_no_filter: true, ..bare_caps() };
    assert_eq!(
        all.map_format_properties(NativeFormat::R32Float).optimal_tiling,
        tier(true, true, true, true)
    );
    assert_eq!(
        no_filter.map_format_properties(NativeFormat::R32Float).optimal_tiling,
        tier(true, false, true, true)
    );
    assert_eq!(
        least.map_format_properties(NativeFormat::R32Float).optimal_tiling,
        tier(false, false, true, true)
    );
}

#[test]
fn rgb9e5_tiers_degrade() {
    let all = PrivateCapabilities { format_rgb9e5_all: true, ..bare_caps() };
    let no_write = PrivateCapabilities { format_rgb9e5_no_write: true, ..bare_caps() };
    let filter_only = PrivateCapabilities { format_rgb9e5_filter_only: true, ..bare_caps() };
    assert_eq!(
        all.map_format_properties(NativeFormat::Rgb9e5Float).optimal_tiling,
        tier(true, true, true, true)
    );
    assert_eq!(
        no_write.map_format_properties(NativeFormat::Rgb9e5Float).optimal_tiling,
        tier(true, false, true, true)
    );
    assert_eq!(
        filter_only.map_format_properties(NativeFormat::Rgb9e5Float).optimal_tiling,
        tier(true, false, false, false)
    );
}

#[test]
fn compressed_formats_only_gain_linear_sampling() {
    let bc = PrivateCapabilities { format_bc: true, ..bare_caps() };
    let p = bc.map_format_properties(NativeFormat::Bc5RgSnorm);
    assert_eq!(p.optimal_tiling, tier(true, false, false, false));
    let without = bare_caps().map_format_properties(NativeFormat::Bc5RgSnorm);
    assert_eq!(without.optimal_tiling, tier(false, false, false, false));
    let astc = PrivateCapabilities { format_astc: true, ..bare_caps() };
    assert_eq!(
        astc.map_format_properties(NativeFormat::Astc8x8Srgb).optimal_tiling,
        tier(true, false, false, false)
    );
    let etc = PrivateCapabilities { format_eac_etc: true, ..bare_caps() };
    assert_eq!(
        etc.map_format_properties(NativeFormat::EacRg11Unorm).optimal_tiling,
        tier(true, false, false, false)
    );
}

#[test]
fn stencil_only_format_has_no_optimal_features() {
    let rich = PrivateCapabilities { format_depth32float_filter: true, ..bare_caps() };
    assert_eq!(rich.map_format_properties(NativeFormat::Stencil8).optimal_tiling, empty());
    assert_eq!(bare_caps().map_format_properties(NativeFormat::Stencil8).optimal_tiling, empty());
}

#[test]
fn depth32float_tiers() {
    let filter = PrivateCapabilities { format_depth32float_filter: true, ..bare_caps() };
    let none = PrivateCapabilities { format_depth32float_none: true, ..bare_caps() };
    assert_eq!(
        filter.map_format_properties(NativeFormat::Depth32Float).optimal_tiling,
        tier(true, false, false, false)
    );
    assert_eq!(none.map_format_properties(NativeFormat::Depth32Float).optimal_tiling, empty());
}

#[test]
fn depth32_stencil8_tiers() {
    let filter = PrivateCapabilities { format_depth32_stencil8_filter: true, ..bare_caps() };
    let none = PrivateCapabilities { format_depth32_stencil8_none: true, ..bare_caps() };
    assert_eq!(
        filter.map_format_properties(NativeFormat::Depth32FloatStencil8).optimal_tiling,
        tier(true, false, false, false)
    );
    assert_eq!(
        none.map_format_properties(NativeFormat::Depth32FloatStencil8).optimal_tiling,
        empty()
    );
}

#[test]
fn higher_tier_is_feature_superset() {
    // One graded family at a time: the more permissive record's mask
    // includes the less permissive record's mask for the family's formats.
    let cases: Vec<(PrivateCapabilities, PrivateCapabilities, NativeFormat)> = vec![
        (
            PrivateCapabilities { format_rgb9e5_all: true, format_depth32float_filter: true, format_depth32_stencil8_filter: true, ..bare_caps() },
            PrivateCapabilities { format_rgb9e5_no_write: true, format_depth32float_filter: true, format_depth32_stencil8_filter: true, ..bare_caps() },
            NativeFormat::Rgb9e5Float,
        ),
        (
            PrivateCapabilities { format_rgb9e5_no_write: true, format_depth32float_filter: true, format_depth32_stencil8_filter: true, ..bare_caps() },
            PrivateCapabilities { format_rgb9e5_filter_only: true, format_depth32float_filter: true, format_depth32_stencil8_filter: true, ..bare_caps() },
            NativeFormat::Rgb9e5Float,
        ),
        (
            PrivateCapabilities { format_r32float_all: true, format_depth32float_filter: true, format_depth32_stencil8_filter: true, ..bare_caps() },
            PrivateCapabilities { format_r32float_no_write_no_filter: true, format_depth32float_filter: true, format_depth32_stencil8_filter: true, ..bare_caps() },
            NativeFormat::R32Float,
        ),
        (
            PrivateCapabilities { format_depth32float_filter: true, format_depth32_stencil8_filter: true, ..bare_caps() },
            PrivateCapabilities { format_depth32float_none: true, format_depth32_stencil8_none: true, ..bare_caps() },
            NativeFormat::Depth32Float,
        ),
    ];
    for (more, less, format) in cases {
        let upper = more.map_format_properties(format).optimal_tiling;
        let lower = less.map_format_properties(format).optimal_tiling;
        assert!(subset(&lower, &upper));
    }
}
