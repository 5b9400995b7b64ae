use metal_conversions::{
    map_blend_op, map_compare_function, map_cull_face, map_extent, map_filter, map_load_operation,
    map_offset, map_stencil_op, map_store_operation, map_texture_type, map_texture_usage,
    map_vertex_format, map_winding, map_wrap_mode, map_write_mask,
    resource_options_from_storage_and_cache, AbstractFormat, AttachmentLoadOp, AttachmentStoreOp,
    BlendFactor, BlendOp, BlendOperation, ColorMask, CompareFunction, Comparison, CpuCacheMode,
    CullMode, Extent, Face, Factor, Filter, FrontFace, IndexType, LoadAction, NativeIndexType,
    Offset, SamplerAddressMode, SamplerMinMagFilter, StencilOp, StencilOperation, StorageMode,
    StoreAction, TextureType, Tiling, Usage, VertexFormat, ViewKind, Winding, WrapMode,
    _map_index_type,
};

fn no_usage() -> Usage {
    Usage {
        transfer_src: false,
        transfer_dst: false,
        sampled: false,
        storage: false,
        color_attachment: false,
        depth_stencil_attachment: false,
    }
}

#[test]
fn load_operations() {
    assert_eq!(map_load_operation(AttachmentLoadOp::Load), LoadAction::Load);
    assert_eq!(map_load_operation(AttachmentLoadOp::Clear), LoadAction::Clear);
    assert_eq!(map_load_operation(AttachmentLoadOp::DontCare), LoadAction::DontCare);
}

#[test]
fn store_operations() {
    assert_eq!(map_store_operation(AttachmentStoreOp::Store), StoreAction::Store);
    assert_eq!(map_store_operation(AttachmentStoreOp::DontCare), StoreAction::DontCare);
}

#[test]
fn write_mask_bits() {
    let none = ColorMask { red: false, green: false, blue: false, alpha: false };
    let red = ColorMask { red: true, ..none };
    let green = ColorMask { green: true, ..none };
    let blue = ColorMask { blue: true, ..none };
    let alpha = ColorMask { alpha: true, ..none };
    let all = ColorMask { red: true, green: true, blue: true, alpha: true };
    assert_eq!(map_write_mask(none), 0x0);
    assert_eq!(map_write_mask(red), 0x8);
    assert_eq!(map_write_mask(green), 0x4);
    assert_eq!(map_write_mask(blue), 0x2);
    assert_eq!(map_write_mask(alpha), 0x1);
    assert_eq!(map_write_mask(all), 0xf);
    assert_eq!(map_write_mask(ColorMask { red: true, blue: true, ..none }), 0xa);
}

#[test]
fn blend_add_keeps_its_factors() {
    let (op, src, dst) =
        map_blend_op(&BlendOp::Add { src: Factor::SrcAlpha, dst: Factor::OneMinusSrcAlpha });
    assert_eq!(op, BlendOperation::Add);
    assert_eq!(src, BlendFactor::SourceAlpha);
    assert_eq!(dst, BlendFactor::OneMinusSourceAlpha);
    let (op, src, dst) =
        map_blend_op(&BlendOp::Sub { src: Factor::ConstColor, dst: Factor::Src1Alpha });
    assert_eq!(op, BlendOperation::Subtract);
    assert_eq!(src, BlendFactor::BlendColor);
    assert_eq!(dst, BlendFactor::Source1Alpha);
    let (op, src, dst) =
        map_blend_op(&BlendOp::RevSub { src: Factor::DstColor, dst: Factor::SrcAlphaSaturate });
    assert_eq!(op, BlendOperation::ReverseSubtract);
    assert_eq!(src, BlendFactor::DestinationColor);
    assert_eq!(dst, BlendFactor::SourceAlphaSaturated);
}

#[test]
fn blend_min_max_force_zero_factors() {
    let (op, src, dst) = map_blend_op(&BlendOp::Min);
    assert_eq!(op, BlendOperation::Min);
    assert_eq!(src, BlendFactor::Zero);
    assert_eq!(dst, BlendFactor::Zero);
    let (op, src, dst) = map_blend_op(&BlendOp::Max);
    assert_eq!(op, BlendOperation::Max);
    assert_eq!(src, BlendFactor::Zero);
    assert_eq!(dst, BlendFactor::Zero);
}

#[test]
fn vertex_formats_structural_match() {
    assert_eq!(map_vertex_format(AbstractFormat::R8Unorm), Some(VertexFormat::UCharNormalized));
    assert_eq!(map_vertex_format(AbstractFormat::Rgb8Uint), Some(VertexFormat::UChar3));
    assert_eq!(
        map_vertex_format(AbstractFormat::Bgra8Unorm),
        Some(VertexFormat::UChar4NormalizedBgra)
    );
    assert_eq!(map_vertex_format(AbstractFormat::R16Float), Some(VertexFormat::Half));
    assert_eq!(map_vertex_format(AbstractFormat::Rgb16Inorm), Some(VertexFormat::Short3Normalized));
    assert_eq!(map_vertex_format(AbstractFormat::Rg32Uint), Some(VertexFormat::UInt2));
    assert_eq!(map_vertex_format(AbstractFormat::Rgba32Float), Some(VertexFormat::Float4));
}

#[test]
fn vertex_formats_reject_non_numeric_layouts() {
    assert_eq!(map_vertex_format(AbstractFormat::R8Srgb), None);
    assert_eq!(map_vertex_format(AbstractFormat::B5g6r5Unorm), None);
    assert_eq!(map_vertex_format(AbstractFormat::Bc1RgbUnorm), None);
    assert_eq!(map_vertex_format(AbstractFormat::D32Float), None);
    assert_eq!(map_vertex_format(AbstractFormat::E5b9g9r9Ufloat), None);
}

#[test]
fn resource_options_pack_storage_and_cache() {
    assert_eq!(
        resource_options_from_storage_and_cache(StorageMode::Shared, CpuCacheMode::DefaultCache),
        0x00
    );
    assert_eq!(
        resource_options_from_storage_and_cache(StorageMode::Shared, CpuCacheMode::WriteCombined),
        0x01
    );
    assert_eq!(
        resource_options_from_storage_and_cache(StorageMode::Managed, CpuCacheMode::DefaultCache),
        0x10
    );
    assert_eq!(
        resource_options_from_storage_and_cache(StorageMode::Private, CpuCacheMode::DefaultCache),
        0x20
    );
    assert_eq!(
        resource_options_from_storage_and_cache(StorageMode::Private, CpuCacheMode::WriteCombined),
        0x21
    );
    assert_eq!(
        resource_options_from_storage_and_cache(
            StorageMode::Memoryless,
            CpuCacheMode::DefaultCache
        ),
        0x30
    );
}

#[test]
fn texture_usage_base_bits() {
    assert_eq!(map_texture_usage(no_usage(), Tiling::Linear), 0x10);
    assert_eq!(map_texture_usage(Usage { sampled: true, ..no_usage() }, Tiling::Linear), 0x11);
    assert_eq!(map_texture_usage(Usage { storage: true, ..no_usage() }, Tiling::Linear), 0x13);
    assert_eq!(
        map_texture_usage(Usage { color_attachment: true, ..no_usage() }, Tiling::Linear),
        0x14
    );
    assert_eq!(
        map_texture_usage(Usage { depth_stencil_attachment: true, ..no_usage() }, Tiling::Linear),
        0x14
    );
}

#[test]
fn optimal_tiling_escalates_transfer_usage() {
    // Transfers run through rendering under optimal tiling, so a pure
    // transfer destination still gets the render-target bit.
    let dst = Usage { transfer_dst: true, ..no_usage() };
    let src = Usage { transfer_src: true, ..no_usage() };
    assert_eq!(map_texture_usage(dst, Tiling::Optimal), 0x14);
    assert_eq!(map_texture_usage(dst, Tiling::Linear), 0x10);
    assert_eq!(map_texture_usage(src, Tiling::Optimal), 0x11);
    assert_eq!(map_texture_usage(src, Tiling::Linear), 0x10);
    let both = Usage { transfer_src: true, transfer_dst: true, sampled: true, ..no_usage() };
    assert_eq!(map_texture_usage(both, Tiling::Optimal), 0x15);
}

#[test]
fn texture_types() {
    assert_eq!(map_texture_type(ViewKind::D1), TextureType::D1);
    assert_eq!(map_texture_type(ViewKind::D1Array), TextureType::D1Array);
    assert_eq!(map_texture_type(ViewKind::D2), TextureType::D2);
    assert_eq!(map_texture_type(ViewKind::D2Array), TextureType::D2Array);
    assert_eq!(map_texture_type(ViewKind::D3), TextureType::D3);
    assert_eq!(map_texture_type(ViewKind::Cube), TextureType::Cube);
    assert_eq!(map_texture_type(ViewKind::CubeArray), TextureType::CubeArray);
}

#[test]
fn index_types() {
    assert_eq!(_map_index_type(IndexType::U16), NativeIndexType::UInt16);
    assert_eq!(_map_index_type(IndexType::U32), NativeIndexType::UInt32);
}

#[test]
fn compare_functions() {
    assert_eq!(map_compare_function(Comparison::Never), CompareFunction::Never);
    assert_eq!(map_compare_function(Comparison::Less), CompareFunction::Less);
    assert_eq!(map_compare_function(Comparison::LessEqual), CompareFunction::LessEqual);
    assert_eq!(map_compare_function(Comparison::Equal), CompareFunction::Equal);
    assert_eq!(map_compare_function(Comparison::GreaterEqual), CompareFunction::GreaterEqual);
    assert_eq!(map_compare_function(Comparison::Greater), CompareFunction::Greater);
    assert_eq!(map_compare_function(Comparison::NotEqual), CompareFunction::NotEqual);
    assert_eq!(map_compare_function(Comparison::Always), CompareFunction::Always);
}

#[test]
fn filters_and_wrap_modes() {
    assert_eq!(map_filter(Filter::Nearest), SamplerMinMagFilter::Nearest);
    assert_eq!(map_filter(Filter::Linear), SamplerMinMagFilter::Linear);
    assert_eq!(map_wrap_mode(WrapMode::Tile), SamplerAddressMode::Repeat);
    assert_eq!(map_wrap_mode(WrapMode::Mirror), SamplerAddressMode::MirrorRepeat);
    assert_eq!(map_wrap_mode(WrapMode::Clamp), SamplerAddressMode::ClampToEdge);
    assert_eq!(map_wrap_mode(WrapMode::Border), SamplerAddressMode::ClampToBorderColor);
}

#[test]
fn extents_widen() {
    let e = map_extent(Extent { width: 1920, height: 1080, depth: 1 });
    assert_eq!(e.width, 1920);
    assert_eq!(e.height, 1080);
    assert_eq!(e.depth, 1);
    let max = map_extent(Extent { width: u32::MAX, height: 0, depth: 7 });
    assert_eq!(max.width, u32::MAX as u64);
    assert_eq!(max.height, 0);
    assert_eq!(max.depth, 7);
}

#[test]
fn offsets_cast_raw() {
    let o = map_offset(Offset { x: 16, y: 32, z: 0 });
    assert_eq!(o.x, 16);
    assert_eq!(o.y, 32);
    assert_eq!(o.z, 0);
    let negative = map_offset(Offset { x: -1, y: 5, z: -2 });
    assert_eq!(negative.x, u64::MAX);
    assert_eq!(negative.y, 5);
    assert_eq!(negative.z, u64::MAX - 1);
}

#[test]
fn stencil_operations() {
    assert_eq!(map_stencil_op(StencilOp::Keep), StencilOperation::Keep);
    assert_eq!(map_stencil_op(StencilOp::Zero), StencilOperation::Zero);
    assert_eq!(map_stencil_op(StencilOp::Replace), StencilOperation::Replace);
    assert_eq!(map_stencil_op(StencilOp::IncrementClamp), StencilOperation::IncrementClamp);
    assert_eq!(map_stencil_op(StencilOp::IncrementWrap), StencilOperation::IncrementWrap);
    assert_eq!(map_stencil_op(StencilOp::DecrementClamp), StencilOperation::DecrementClamp);
    assert_eq!(map_stencil_op(StencilOp::DecrementWrap), StencilOperation::DecrementWrap);
    assert_eq!(map_stencil_op(StencilOp::Invert), StencilOperation::Invert);
}

#[test]
fn windings() {
    assert_eq!(map_winding(FrontFace::Clockwise), Winding::Clockwise);
    assert_eq!(map_winding(FrontFace::CounterClockwise), Winding::CounterClockwise);
}

#[test]
fn cull_faces() {
    assert_eq!(
        map_cull_face(Face { front: false, back: false }),
        Some(CullMode::NoCulling)
    );
    assert_eq!(map_cull_face(Face { front: true, back: false }), Some(CullMode::Front));
    assert_eq!(map_cull_face(Face { front: false, back: true }), Some(CullMode::Back));
    assert_eq!(map_cull_face(Face { front: true, back: true }), None);
}
