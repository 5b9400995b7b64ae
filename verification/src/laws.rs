//! The laws this layer is built around, each stated over the resolvers'
//! spec functions and proved once for all inputs.

use vstd::prelude::*;

use crate::caps::PrivateCapabilities;
use crate::format::{AbstractFormat, NativeFormat};
use crate::properties::{
    block_depth_features, format_properties_spec, is_compressed_block, no_features,
    optimal_features_spec, small_color_features, wide_color_features,
};
use crate::format::NativeFormat as Nf;
use crate::resolve::{
    format_guard, identity_swizzle, map_format_spec, map_format_with_swizzle_spec,
    native_equivalent,
};

verus! {

/// Determinism: resolution is a pure function of the format and the record.
/// Any two results that both satisfy `map_format`'s contract on the same
/// inputs are the same value, so repeated calls return identical results.
pub proof fn lemma_map_format_deterministic(
    caps: PrivateCapabilities,
    format: AbstractFormat,
    r1: Option<NativeFormat>,
    r2: Option<NativeFormat>,
)
    requires
        r1 == map_format_spec(caps, format),
        r2 == map_format_spec(caps, format),
    ensures
        r1 == r2,
{
}

/// Guarded-mapping soundness: a resolution rule fires only when its
/// capability guard holds of the supplied record. With the guard false the
/// format resolves to nothing, and with the guard true the result is exactly
/// the rule's target.
pub proof fn lemma_guarded_mapping_soundness(caps: PrivateCapabilities, format: AbstractFormat)
    ensures
        map_format_spec(caps, format) is Some ==> format_guard(caps, format),
        !format_guard(caps, format) ==> map_format_spec(caps, format) is None,
        format_guard(caps, format) ==> map_format_spec(caps, format) == native_equivalent(format),
{
}

/// Swizzle fallback: the identity swizzle never hits the remap allow-list,
/// so swizzle-aware resolution with it agrees with plain resolution on every
/// format and every record.
pub proof fn lemma_identity_swizzle_fallback(caps: PrivateCapabilities, format: AbstractFormat)
    ensures
        map_format_with_swizzle_spec(caps, format, identity_swizzle()) == map_format_spec(
            caps,
            format,
        ),
{
}

/// Compressed-block formats only ever gain sampling with linear filtering:
/// under no capability record does one acquire storage or attachment use.
#[verifier::rlimit(100)]
pub proof fn lemma_compressed_formats_never_writable(
    caps: PrivateCapabilities,
    format: NativeFormat,
)
    requires
        is_compressed_block(format),
    ensures
        !optimal_features_spec(caps, format).storage,
        !optimal_features_spec(caps, format).color_attachment,
        !optimal_features_spec(caps, format).color_attachment_blend,
{
}

/// The stencil-only format never gains optimal-tiling features, whatever
/// the capability record says.
pub proof fn lemma_stencil_only_format_inert(caps: PrivateCapabilities)
    ensures
        optimal_features_spec(caps, NativeFormat::Stencil8) == no_features(),
{
}

/// Monotonicity of the small-color rows of the property table.
#[verifier::rlimit(100)]
proof fn lemma_small_color_monotonic(
    a: PrivateCapabilities,
    b: PrivateCapabilities,
    format: NativeFormat,
)
    requires
        a.wf(),
        b.wf(),
        b.le(a),
    ensures
        small_color_features(b, format).le(small_color_features(a, format)),
{
}

/// Monotonicity of the wide-color rows of the property table.
#[verifier::rlimit(100)]
proof fn lemma_wide_color_monotonic(
    a: PrivateCapabilities,
    b: PrivateCapabilities,
    format: NativeFormat,
)
    requires
        a.wf(),
        b.wf(),
        b.le(a),
    ensures
        wide_color_features(b, format).le(wide_color_features(a, format)),
{
}

/// Monotonicity of the block-compressed and depth/stencil rows of the
/// property table.
#[verifier::rlimit(100)]
proof fn lemma_block_depth_monotonic(
    a: PrivateCapabilities,
    b: PrivateCapabilities,
    format: NativeFormat,
)
    requires
        a.wf(),
        b.wf(),
        b.le(a),
    ensures
        block_depth_features(b, format).le(block_depth_features(a, format)),
{
}

/// Capability monotonicity: for two well-formed records where `a` is at
/// least as permissive as `b` in every format family, the properties
/// resolved under `a` include, feature by feature and for every native
/// format, the properties resolved under `b`.
pub proof fn lemma_format_properties_monotonic(
    a: PrivateCapabilities,
    b: PrivateCapabilities,
    format: NativeFormat,
)
    requires
        a.wf(),
        b.wf(),
        b.le(a),
    ensures
        format_properties_spec(b, format).optimal_tiling.le(
            format_properties_spec(a, format).optimal_tiling,
        ),
        format_properties_spec(b, format).linear_tiling.le(
            format_properties_spec(a, format).linear_tiling,
        ),
        format_properties_spec(b, format).buffer_features == format_properties_spec(
            a,
            format,
        ).buffer_features,
{
    match format {
        Nf::A8Unorm | Nf::R8Unorm | Nf::R8UnormSrgb | Nf::R8Snorm | Nf::R8Uint | Nf::R8Sint
        | Nf::Rg8Unorm | Nf::Rg8UnormSrgb | Nf::Rg8Snorm | Nf::Rg8Uint | Nf::Rg8Sint
        | Nf::B5g6r5Unorm | Nf::A1bgr5Unorm | Nf::Abgr4Unorm | Nf::Bgr5a1Unorm | Nf::Rgba8Unorm
        | Nf::Rgba8UnormSrgb | Nf::Rgba8Snorm | Nf::Rgba8Uint | Nf::Rgba8Sint | Nf::Bgra8Unorm
        | Nf::Bgra8UnormSrgb | Nf::R16Unorm | Nf::R16Snorm | Nf::R16Uint | Nf::R16Sint
        | Nf::R16Float | Nf::Rg16Unorm | Nf::Rg16Snorm | Nf::Rg16Uint | Nf::Rg16Sint
        | Nf::Rg16Float | Nf::Rgba16Unorm | Nf::Rgba16Snorm | Nf::Rgba16Uint | Nf::Rgba16Sint
        | Nf::Rgba16Float => lemma_small_color_monotonic(a, b, format),
        Nf::Rgb10a2Unorm | Nf::Rgb10a2Uint | Nf::Bgr10a2Unorm | Nf::Rg11b10Float
        | Nf::Rgb9e5Float | Nf::R32Uint | Nf::R32Sint | Nf::R32Float | Nf::Rg32Uint
        | Nf::Rg32Sint | Nf::Rg32Float | Nf::Rgba32Uint | Nf::Rgba32Sint
        | Nf::Rgba32Float => lemma_wide_color_monotonic(a, b, format),
        _ => lemma_block_depth_monotonic(a, b, format),
    }
}

} // verus!
