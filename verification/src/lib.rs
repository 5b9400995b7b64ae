//! Capability-gated translation of portable pixel-format and fixed-function
//! pipeline descriptors into the tokens of one native graphics driver.
//!
//! The library is a set of pure decision tables. Its single input besides the
//! descriptors is an immutable [`PrivateCapabilities`] record, produced once
//! per device by a capability-detection step outside this crate. A resolver
//! never claims a translation that the record does not guarantee: formats
//! without a native equivalent on the active capability tier resolve to
//! `None`, a normal outcome that callers handle as a capability-query failure.

mod caps;
mod format;
mod laws;
mod properties;
mod resolve;
mod states;

pub use caps::PrivateCapabilities;
pub use format::{AbstractFormat, Component, NativeFormat, Swizzle};
pub use laws::{
    lemma_compressed_formats_never_writable, lemma_format_properties_monotonic,
    lemma_guarded_mapping_soundness, lemma_identity_swizzle_fallback,
    lemma_map_format_deterministic, lemma_stencil_only_format_inert,
};
pub use properties::{
    all_buffer_features, block_depth_features, feature_tier, format_properties_spec,
    is_compressed_block, no_features, optimal_features_spec, small_color_features, wide_color_features, BufferFeatures,
    ImageFeatures, Properties,
};
pub use resolve::{
    format_guard, identity_swizzle, map_format_spec, map_format_with_swizzle_spec,
    native_equivalent, swizzle_has_native_equivalent, swizzle_native_equivalent,
};
pub use states::{
    blend_op_spec, cache_mode_bits, compare_function_spec, cull_mode_spec, extent_spec,
    factor_spec, filter_spec, index_type_spec, load_action_spec, map_blend_op,
    map_compare_function, map_cull_face, map_extent, map_filter, map_load_operation, map_offset,
    map_stencil_op, map_store_operation, map_texture_type, map_texture_usage, map_vertex_format,
    map_winding, map_wrap_mode, map_write_mask, offset_spec, resource_options_from_storage_and_cache,
    resource_options_spec, stencil_op_spec, storage_mode_bits, store_action_spec,
    texture_type_spec, texture_usage_spec, vertex_format_spec, winding_spec, wrap_mode_spec,
    write_mask_spec, _map_index_type, AttachmentLoadOp, AttachmentStoreOp, BlendFactor, BlendOp,
    BlendOperation, ColorMask, CompareFunction, Comparison, CpuCacheMode, CullMode, Extent, Face,
    Factor, Filter, FrontFace, IndexType, LoadAction, NativeExtent, NativeIndexType, NativeOrigin,
    Offset, SamplerAddressMode, SamplerMinMagFilter, StencilOp, StencilOperation, StorageMode,
    StoreAction, TextureType, Tiling, Usage, VertexFormat, ViewKind, Winding, WrapMode,
};
