//! The fixed-function state tables: small, total, capability-independent
//! pure functions from one portable pipeline descriptor to its native
//! equivalent.
//!
//! Every table is an exhaustive match over a closed input domain, so none of
//! these functions can fail; the two documented exceptions return `None` —
//! a vertex format with no plain numeric native layout, and the cull-face
//! value meaning "cull both faces", which has no native single-mode
//! representation.

use vstd::prelude::*;

use crate::format::AbstractFormat as Af;
use crate::format::AbstractFormat;

verus! {

/// What happens to an attachment's contents at the start of a render pass.
#[derive(Clone, Copy, PartialEq, Eq, Structural, Debug)]
pub enum AttachmentLoadOp {
    Load,
    Clear,
    DontCare,
}

/// The native load action of an attachment.
#[derive(Clone, Copy, PartialEq, Eq, Structural, Debug)]
pub enum LoadAction {
    Load,
    Clear,
    DontCare,
}

/// What happens to an attachment's contents at the end of a render pass.
#[derive(Clone, Copy, PartialEq, Eq, Structural, Debug)]
pub enum AttachmentStoreOp {
    Store,
    DontCare,
}

/// The native store action of an attachment.
#[derive(Clone, Copy, PartialEq, Eq, Structural, Debug)]
pub enum StoreAction {
    Store,
    DontCare,
}

/// Which color channels a pipeline writes, one independent enable per
/// channel.
#[derive(Clone, Copy, PartialEq, Eq, Structural, Debug)]
pub struct ColorMask {
    pub red: bool,
    pub green: bool,
    pub blue: bool,
    pub alpha: bool,
}

/// A portable blend factor.
#[derive(Clone, Copy, PartialEq, Eq, Structural, Debug)]
pub enum Factor {
    Zero,
    One,
    SrcColor,
    OneMinusSrcColor,
    DstColor,
    OneMinusDstColor,
    SrcAlpha,
    OneMinusSrcAlpha,
    DstAlpha,
    OneMinusDstAlpha,
    ConstColor,
    OneMinusConstColor,
    ConstAlpha,
    OneMinusConstAlpha,
    SrcAlphaSaturate,
    Src1Color,
    OneMinusSrc1Color,
    Src1Alpha,
    OneMinusSrc1Alpha,
}

/// The native blend factor.
#[derive(Clone, Copy, PartialEq, Eq, Structural, Debug)]
pub enum BlendFactor {
    Zero,
    One,
    SourceColor,
    OneMinusSourceColor,
    DestinationColor,
    OneMinusDestinationColor,
    SourceAlpha,
    OneMinusSourceAlpha,
    DestinationAlpha,
    OneMinusDestinationAlpha,
    BlendColor,
    OneMinusBlendColor,
    BlendAlpha,
    OneMinusBlendAlpha,
    SourceAlphaSaturated,
    Source1Color,
    OneMinusSource1Color,
    Source1Alpha,
    OneMinusSource1Alpha,
}

/// A portable blend equation: an operation with its two factors, or a
/// min/max operation, which uses no factors.
#[derive(Clone, Copy, PartialEq, Eq, Structural, Debug)]
pub enum BlendOp {
    Add { src: Factor, dst: Factor },
    Sub { src: Factor, dst: Factor },
    RevSub { src: Factor, dst: Factor },
    Min,
    Max,
}

/// The native blend operation.
#[derive(Clone, Copy, PartialEq, Eq, Structural, Debug)]
pub enum BlendOperation {
    Add,
    Subtract,
    ReverseSubtract,
    Min,
    Max,
}

/// The native vertex attribute format tokens this backend emits.
#[derive(Clone, Copy, PartialEq, Eq, Structural, Debug)]
pub enum VertexFormat {
    UChar,
    UChar2,
    UChar3,
    UChar4,
    Char,
    Char2,
    Char3,
    Char4,
    UCharNormalized,
    UChar2Normalized,
    UChar3Normalized,
    UChar4Normalized,
    CharNormalized,
    Char2Normalized,
    Char3Normalized,
    Char4Normalized,
    UChar4NormalizedBgra,
    UShort,
    UShort2,
    UShort3,
    UShort4,
    Short,
    Short2,
    Short3,
    Short4,
    UShortNormalized,
    UShort2Normalized,
    UShort3Normalized,
    UShort4Normalized,
    ShortNormalized,
    Short2Normalized,
    Short3Normalized,
    Short4Normalized,
    Half,
    Half2,
    Half3,
    Half4,
    UInt,
    UInt2,
    UInt3,
    UInt4,
    Int,
    Int2,
    Int3,
    Int4,
    Float,
    Float2,
    Float3,
    Float4,
}

/// Where a resource lives and how it migrates.
#[derive(Clone, Copy, PartialEq, Eq, Structural, Debug)]
pub enum StorageMode {
    Shared,
    Managed,
    Private,
    Memoryless,
}

/// How the CPU's cache treats a shared resource.
#[derive(Clone, Copy, PartialEq, Eq, Structural, Debug)]
pub enum CpuCacheMode {
    DefaultCache,
    WriteCombined,
}

/// Portable image-usage request flags.
#[derive(Clone, Copy, PartialEq, Eq, Structural, Debug)]
pub struct Usage {
    pub transfer_src: bool,
    pub transfer_dst: bool,
    pub sampled: bool,
    pub storage: bool,
    pub color_attachment: bool,
    pub depth_stencil_attachment: bool,
}

/// The tiling mode an image was requested with.
#[derive(Clone, Copy, PartialEq, Eq, Structural, Debug)]
pub enum Tiling {
    Optimal,
    Linear,
}

/// Portable image view dimensionality.
#[derive(Clone, Copy, PartialEq, Eq, Structural, Debug)]
pub enum ViewKind {
    D1,
    D1Array,
    D2,
    D2Array,
    D3,
    Cube,
    CubeArray,
}

/// The native texture type.
#[derive(Clone, Copy, PartialEq, Eq, Structural, Debug)]
pub enum TextureType {
    D1,
    D1Array,
    D2,
    D2Array,
    D3,
    Cube,
    CubeArray,
}

/// Portable index buffer element width.
#[derive(Clone, Copy, PartialEq, Eq, Structural, Debug)]
pub enum IndexType {
    U16,
    U32,
}

/// The native index element type.
#[derive(Clone, Copy, PartialEq, Eq, Structural, Debug)]
pub enum NativeIndexType {
    UInt16,
    UInt32,
}

/// Portable depth/stencil comparison function.
#[derive(Clone, Copy, PartialEq, Eq, Structural, Debug)]
pub enum Comparison {
    Never,
    Less,
    LessEqual,
    Equal,
    GreaterEqual,
    Greater,
    NotEqual,
    Always,
}

/// The native comparison function.
#[derive(Clone, Copy, PartialEq, Eq, Structural, Debug)]
pub enum CompareFunction {
    Never,
    Less,
    LessEqual,
    Equal,
    GreaterEqual,
    Greater,
    NotEqual,
    Always,
}

/// Portable minification/magnification filter.
#[derive(Clone, Copy, PartialEq, Eq, Structural, Debug)]
pub enum Filter {
    Nearest,
    Linear,
}

/// The native sampler filter.
#[derive(Clone, Copy, PartialEq, Eq, Structural, Debug)]
pub enum SamplerMinMagFilter {
    Nearest,
    Linear,
}

/// Portable texture address/wrap mode.
#[derive(Clone, Copy, PartialEq, Eq, Structural, Debug)]
pub enum WrapMode {
    Tile,
    Mirror,
    Clamp,
    Border,
}

/// The native sampler address mode.
#[derive(Clone, Copy, PartialEq, Eq, Structural, Debug)]
pub enum SamplerAddressMode {
    Repeat,
    MirrorRepeat,
    ClampToEdge,
    ClampToBorderColor,
}

/// A portable 3D extent in texels.
#[derive(Clone, Copy, PartialEq, Eq, Structural, Debug)]
pub struct Extent {
    pub width: u32,
    pub height: u32,
    pub depth: u32,
}

/// The native size struct, with the driver's wider coordinate type.
#[derive(Clone, Copy, PartialEq, Eq, Structural, Debug)]
pub struct NativeExtent {
    pub width: u64,
    pub height: u64,
    pub depth: u64,
}

/// A portable 3D offset in texels.
#[derive(Clone, Copy, PartialEq, Eq, Structural, Debug)]
pub struct Offset {
    pub x: i32,
    pub y: i32,
    pub z: i32,
}

/// The native origin struct. Its coordinates are unsigned: a negative
/// portable offset wraps, as the raw cast does.
#[derive(Clone, Copy, PartialEq, Eq, Structural, Debug)]
pub struct NativeOrigin {
    pub x: u64,
    pub y: u64,
    pub z: u64,
}

/// Portable stencil operation.
#[derive(Clone, Copy, PartialEq, Eq, Structural, Debug)]
pub enum StencilOp {
    Keep,
    Zero,
    Replace,
    IncrementClamp,
    IncrementWrap,
    DecrementClamp,
    DecrementWrap,
    Invert,
}

/// The native stencil operation.
#[derive(Clone, Copy, PartialEq, Eq, Structural, Debug)]
pub enum StencilOperation {
    Keep,
    Zero,
    Replace,
    IncrementClamp,
    IncrementWrap,
    DecrementClamp,
    DecrementWrap,
    Invert,
}

/// Which winding makes a triangle front-facing.
#[derive(Clone, Copy, PartialEq, Eq, Structural, Debug)]
pub enum FrontFace {
    Clockwise,
    CounterClockwise,
}

/// The native winding order.
#[derive(Clone, Copy, PartialEq, Eq, Structural, Debug)]
pub enum Winding {
    Clockwise,
    CounterClockwise,
}

/// Which faces a pipeline culls, one independent flag per face.
#[derive(Clone, Copy, PartialEq, Eq, Structural, Debug)]
pub struct Face {
    pub front: bool,
    pub back: bool,
}

/// The native cull mode. The native API has no single mode that culls both
/// faces, so that portable request has no variant here.
#[derive(Clone, Copy, PartialEq, Eq, Structural, Debug)]
pub enum CullMode {
    NoCulling,
    Front,
    Back,
}

/// The native load action of a portable load operation.
pub open spec fn load_action_spec(operation: AttachmentLoadOp) -> LoadAction {
    match operation {
        AttachmentLoadOp::Load => LoadAction::Load,
        AttachmentLoadOp::Clear => LoadAction::Clear,
        AttachmentLoadOp::DontCare => LoadAction::DontCare,
    }
}

/// Translate an attachment load operation.
pub fn map_load_operation(operation: AttachmentLoadOp) -> (r: LoadAction)
    ensures
        r == load_action_spec(operation),
{
    match operation {
        AttachmentLoadOp::Load => LoadAction::Load,
        AttachmentLoadOp::Clear => LoadAction::Clear,
        AttachmentLoadOp::DontCare => LoadAction::DontCare,
    }
}

/// The native store action of a portable store operation.
pub open spec fn store_action_spec(operation: AttachmentStoreOp) -> StoreAction {
    match operation {
        AttachmentStoreOp::Store => StoreAction::Store,
        AttachmentStoreOp::DontCare => StoreAction::DontCare,
    }
}

/// Translate an attachment store operation.
pub fn map_store_operation(operation: AttachmentStoreOp) -> (r: StoreAction)
    ensures
        r == store_action_spec(operation),
{
    match operation {
        AttachmentStoreOp::Store => StoreAction::Store,
        AttachmentStoreOp::DontCare => StoreAction::DontCare,
    }
}

/// The native color-write bitmask: one fixed bit per enabled channel
/// (red 0x8, green 0x4, blue 0x2, alpha 0x1).
pub open spec fn write_mask_spec(mask: ColorMask) -> u64 {
    (if mask.red {
        0x8u64
    } else {
        0u64
    }) | (if mask.green {
        0x4u64
    } else {
        0u64
    }) | (if mask.blue {
        0x2u64
    } else {
        0u64
    }) | (if mask.alpha {
        0x1u64
    } else {
        0u64
    })
}

/// Translate a color write mask into the native bitmask.
pub fn map_write_mask(mask: ColorMask) -> (r: u64)
    ensures
        r == write_mask_spec(mask),
{
    (if mask.red {
        0x8u64
    } else {
        0u64
    }) | (if mask.green {
        0x4u64
    } else {
        0u64
    }) | (if mask.blue {
        0x2u64
    } else {
        0u64
    }) | (if mask.alpha {
        0x1u64
    } else {
        0u64
    })
}

/// The native blend factor of a portable factor.
pub open spec fn factor_spec(factor: Factor) -> BlendFactor {
    match factor {
        Factor::Zero => BlendFactor::Zero,
        Factor::One => BlendFactor::One,
        Factor::SrcColor => BlendFactor::SourceColor,
        Factor::OneMinusSrcColor => BlendFactor::OneMinusSourceColor,
        Factor::DstColor => BlendFactor::DestinationColor,
        Factor::OneMinusDstColor => BlendFactor::OneMinusDestinationColor,
        Factor::SrcAlpha => BlendFactor::SourceAlpha,
        Factor::OneMinusSrcAlpha => BlendFactor::OneMinusSourceAlpha,
        Factor::DstAlpha => BlendFactor::DestinationAlpha,
        Factor::OneMinusDstAlpha => BlendFactor::OneMinusDestinationAlpha,
        Factor::ConstColor => BlendFactor::BlendColor,
        Factor::OneMinusConstColor => BlendFactor::OneMinusBlendColor,
        Factor::ConstAlpha => BlendFactor::BlendAlpha,
        Factor::OneMinusConstAlpha => BlendFactor::OneMinusBlendAlpha,
        Factor::SrcAlphaSaturate => BlendFactor::SourceAlphaSaturated,
        Factor::Src1Color => BlendFactor::Source1Color,
        Factor::OneMinusSrc1Color => BlendFactor::OneMinusSource1Color,
        Factor::Src1Alpha => BlendFactor::Source1Alpha,
        Factor::OneMinusSrc1Alpha => BlendFactor::OneMinusSource1Alpha,
    }
}

/// Translate one blend factor.
fn map_factor(factor: Factor) -> (r: BlendFactor)
    ensures
        r == factor_spec(factor),
{
    match factor {
        Factor::Zero => BlendFactor::Zero,
        Factor::One => BlendFactor::One,
        Factor::SrcColor => BlendFactor::SourceColor,
        Factor::OneMinusSrcColor => BlendFactor::OneMinusSourceColor,
        Factor::DstColor => BlendFactor::DestinationColor,
        Factor::OneMinusDstColor => BlendFactor::OneMinusDestinationColor,
        Factor::SrcAlpha => BlendFactor::SourceAlpha,
        Factor::OneMinusSrcAlpha => BlendFactor::OneMinusSourceAlpha,
        Factor::DstAlpha => BlendFactor::DestinationAlpha,
        Factor::OneMinusDstAlpha => BlendFactor::OneMinusDestinationAlpha,
        Factor::ConstColor => BlendFactor::BlendColor,
        Factor::OneMinusConstColor => BlendFactor::OneMinusBlendColor,
        Factor::ConstAlpha => BlendFactor::BlendAlpha,
        Factor::OneMinusConstAlpha => BlendFactor::OneMinusBlendAlpha,
        Factor::SrcAlphaSaturate => BlendFactor::SourceAlphaSaturated,
        Factor::Src1Color => BlendFactor::Source1Color,
        Factor::OneMinusSrc1Color => BlendFactor::OneMinusSource1Color,
        Factor::Src1Alpha => BlendFactor::Source1Alpha,
        Factor::OneMinusSrc1Alpha => BlendFactor::OneMinusSource1Alpha,
    }
}

/// The native blend operation and its two resolved factors. The min and max
/// operations ignore factors, so both are forced to the neutral zero factor
/// whatever the portable descriptor supplied.
pub open spec fn blend_op_spec(operation: BlendOp) -> (BlendOperation, BlendFactor, BlendFactor) {
    match operation {
        BlendOp::Add { src, dst } => (BlendOperation::Add, factor_spec(src), factor_spec(dst)),
        BlendOp::Sub { src, dst } => (BlendOperation::Subtract, factor_spec(src), factor_spec(dst)),
        BlendOp::RevSub { src, dst } => (
            BlendOperation::ReverseSubtract,
            factor_spec(src),
            factor_spec(dst),
        ),
        BlendOp::Min => (BlendOperation::Min, BlendFactor::Zero, BlendFactor::Zero),
        BlendOp::Max => (BlendOperation::Max, BlendFactor::Zero, BlendFactor::Zero),
    }
}

/// Translate a blend equation into the native operation and factors.
pub fn map_blend_op(operation: &BlendOp) -> (r: (BlendOperation, BlendFactor, BlendFactor))
    ensures
        r == blend_op_spec(*operation),
{
    match *operation {
        BlendOp::Add { src, dst } => (BlendOperation::Add, map_factor(src), map_factor(dst)),
        BlendOp::Sub { src, dst } => (BlendOperation::Subtract, map_factor(src), map_factor(dst)),
        BlendOp::RevSub { src, dst } => (
            BlendOperation::ReverseSubtract,
            map_factor(src),
            map_factor(dst),
        ),
        BlendOp::Min => (BlendOperation::Min, BlendFactor::Zero, BlendFactor::Zero),
        BlendOp::Max => (BlendOperation::Max, BlendFactor::Zero, BlendFactor::Zero),
    }
}

/// The native vertex attribute format of a portable format: a structural
/// match on channel count, width and representation. Narrower than pixel
/// format resolution — only plain numeric, non-compressed, non-sRGB layouts
/// have a vertex equivalent; every other format yields `None`.
pub open spec fn vertex_format_spec(format: AbstractFormat) -> Option<VertexFormat> {
    match format {
        Af::R8Unorm => Some(VertexFormat::UCharNormalized),
        Af::R8Inorm => Some(VertexFormat::CharNormalized),
        Af::R8Uint => Some(VertexFormat::UChar),
        Af::R8Int => Some(VertexFormat::Char),
        Af::Rg8Unorm => Some(VertexFormat::UChar2Normalized),
        Af::Rg8Inorm => Some(VertexFormat::Char2Normalized),
        Af::Rg8Uint => Some(VertexFormat::UChar2),
        Af::Rg8Int => Some(VertexFormat::Char2),
        Af::Rgb8Unorm => Some(VertexFormat::UChar3Normalized),
        Af::Rgb8Inorm => Some(VertexFormat::Char3Normalized),
        Af::Rgb8Uint => Some(VertexFormat::UChar3),
        Af::Rgb8Int => Some(VertexFormat::Char3),
        Af::Rgba8Unorm => Some(VertexFormat::UChar4Normalized),
        Af::Rgba8Inorm => Some(VertexFormat::Char4Normalized),
        Af::Rgba8Uint => Some(VertexFormat::UChar4),
        Af::Rgba8Int => Some(VertexFormat::Char4),
        Af::Bgra8Unorm => Some(VertexFormat::UChar4NormalizedBgra),
        Af::R16Unorm => Some(VertexFormat::UShortNormalized),
        Af::R16Inorm => Some(VertexFormat::ShortNormalized),
        Af::R16Uint => Some(VertexFormat::UShort),
        Af::R16Int => Some(VertexFormat::Short),
        Af::R16Float => Some(VertexFormat::Half),
        Af::Rg16Unorm => Some(VertexFormat::UShort2Normalized),
        Af::Rg16Inorm => Some(VertexFormat::Short2Normalized),
        Af::Rg16Uint => Some(VertexFormat::UShort2),
        Af::Rg16Int => Some(VertexFormat::Short2),
        Af::Rg16Float => Some(VertexFormat::Half2),
        Af::Rgb16Unorm => Some(VertexFormat::UShort3Normalized),
        Af::Rgb16Inorm => Some(VertexFormat::Short3Normalized),
        Af::Rgb16Uint => Some(VertexFormat::UShort3),
        Af::Rgb16Int => Some(VertexFormat::Short3),
        Af::Rgb16Float => Some(VertexFormat::Half3),
        Af::Rgba16Unorm => Some(VertexFormat::UShort4Normalized),
        Af::Rgba16Inorm => Some(VertexFormat::Short4Normalized),
        Af::Rgba16Uint => Some(VertexFormat::UShort4),
        Af::Rgba16Int => Some(VertexFormat::Short4),
        Af::Rgba16Float => Some(VertexFormat::Half4),
        Af::R32Uint => Some(VertexFormat::UInt),
        Af::R32Int => Some(VertexFormat::Int),
        Af::R32Float => Some(VertexFormat::Float),
        Af::Rg32Uint => Some(VertexFormat::UInt2),
        Af::Rg32Int => Some(VertexFormat::Int2),
        Af::Rg32Float => Some(VertexFormat::Float2),
        Af::Rgb32Uint => Some(VertexFormat::UInt3),
        Af::Rgb32Int => Some(VertexFormat::Int3),
        Af::Rgb32Float => Some(VertexFormat::Float3),
        Af::Rgba32Uint => Some(VertexFormat::UInt4),
        Af::Rgba32Int => Some(VertexFormat::Int4),
        Af::Rgba32Float => Some(VertexFormat::Float4),
        _ => None,
    }
}

/// Translate a portable format into a native vertex attribute format.
pub fn map_vertex_format(format: AbstractFormat) -> (r: Option<VertexFormat>)
    ensures
        r == vertex_format_spec(format),
{
    match format {
        Af::R8Unorm => Some(VertexFormat::UCharNormalized),
        Af::R8Inorm => Some(VertexFormat::CharNormalized),
        Af::R8Uint => Some(VertexFormat::UChar),
        Af::R8Int => Some(VertexFormat::Char),
        Af::Rg8Unorm => Some(VertexFormat::UChar2Normalized),
        Af::Rg8Inorm => Some(VertexFormat::Char2Normalized),
        Af::Rg8Uint => Some(VertexFormat::UChar2),
        Af::Rg8Int => Some(VertexFormat::Char2),
        Af::Rgb8Unorm => Some(VertexFormat::UChar3Normalized),
        Af::Rgb8Inorm => Some(VertexFormat::Char3Normalized),
        Af::Rgb8Uint => Some(VertexFormat::UChar3),
        Af::Rgb8Int => Some(VertexFormat::Char3),
        Af::Rgba8Unorm => Some(VertexFormat::UChar4Normalized),
        Af::Rgba8Inorm => Some(VertexFormat::Char4Normalized),
        Af::Rgba8Uint => Some(VertexFormat::UChar4),
        Af::Rgba8Int => Some(VertexFormat::Char4),
        Af::Bgra8Unorm => Some(VertexFormat::UChar4NormalizedBgra),
        Af::R16Unorm => Some(VertexFormat::UShortNormalized),
        Af::R16Inorm => Some(VertexFormat::ShortNormalized),
        Af::R16Uint => Some(VertexFormat::UShort),
        Af::R16Int => Some(VertexFormat::Short),
        Af::R16Float => Some(VertexFormat::Half),
        Af::Rg16Unorm => Some(VertexFormat::UShort2Normalized),
        Af::Rg16Inorm => Some(VertexFormat::Short2Normalized),
        Af::Rg16Uint => Some(VertexFormat::UShort2),
        Af::Rg16Int => Some(VertexFormat::Short2),
        Af::Rg16Float => Some(VertexFormat::Half2),
        Af::Rgb16Unorm => Some(VertexFormat::UShort3Normalized),
        Af::Rgb16Inorm => Some(VertexFormat::Short3Normalized),
        Af::Rgb16Uint => Some(VertexFormat::UShort3),
        Af::Rgb16Int => Some(VertexFormat::Short3),
        Af::Rgb16Float => Some(VertexFormat::Half3),
        Af::Rgba16Unorm => Some(VertexFormat::UShort4Normalized),
        Af::Rgba16Inorm => Some(VertexFormat::Short4Normalized),
        Af::Rgba16Uint => Some(VertexFormat::UShort4),
        Af::Rgba16Int => Some(VertexFormat::Short4),
        Af::Rgba16Float => Some(VertexFormat::Half4),
        Af::R32Uint => Some(VertexFormat::UInt),
        Af::R32Int => Some(VertexFormat::Int),
        Af::R32Float => Some(VertexFormat::Float),
        Af::Rg32Uint => Some(VertexFormat::UInt2),
        Af::Rg32Int => Some(VertexFormat::Int2),
        Af::Rg32Float => Some(VertexFormat::Float2),
        Af::Rgb32Uint => Some(VertexFormat::UInt3),
        Af::Rgb32Int => Some(VertexFormat::Int3),
        Af::Rgb32Float => Some(VertexFormat::Float3),
        Af::Rgba32Uint => Some(VertexFormat::UInt4),
        Af::Rgba32Int => Some(VertexFormat::Int4),
        Af::Rgba32Float => Some(VertexFormat::Float4),
        _ => None,
    }
}

/// The field value of a storage mode in the packed resource-options word.
pub open spec fn storage_mode_bits(storage: StorageMode) -> u64 {
    match storage {
        StorageMode::Shared => 0,
        StorageMode::Managed => 1,
        StorageMode::Private => 2,
        StorageMode::Memoryless => 3,
    }
}

/// The field value of a CPU cache mode in the packed resource-options word.
pub open spec fn cache_mode_bits(cache: CpuCacheMode) -> u64 {
    match cache {
        CpuCacheMode::DefaultCache => 0,
        CpuCacheMode::WriteCombined => 1,
    }
}

/// The packed native resource-options word: the storage-mode field at bit
/// offset four, the cache-mode field at bit offset zero.
pub open spec fn resource_options_spec(storage: StorageMode, cache: CpuCacheMode) -> int {
    16 * storage_mode_bits(storage) + cache_mode_bits(cache)
}

/// Pack a storage mode and a CPU cache mode into the native resource-options
/// bitfield. The bit layout lives here and nowhere else.
pub fn resource_options_from_storage_and_cache(storage: StorageMode, cache: CpuCacheMode) -> (r:
    u64)
    ensures
        r == resource_options_spec(storage, cache),
{
    let s: u64 = match storage {
        StorageMode::Shared => 0,
        StorageMode::Managed => 1,
        StorageMode::Private => 2,
        StorageMode::Memoryless => 3,
    };
    let c: u64 = match cache {
        CpuCacheMode::DefaultCache => 0,
        CpuCacheMode::WriteCombined => 1,
    };
    let r: u64 = (s << 4u64) | c;
    proof {
        assert((s << 4u64) | c == 16 * s + c) by (bit_vector)
            requires
                s <= 3 && c <= 1,
        ;
    }
    r
}

/// The native texture-usage bitmask of a portable usage request: the
/// format-view bit 0x10 always, render-target 0x4 for attachment use,
/// shader-read 0x1 for sampling, shader-read and shader-write 0x3 for
/// storage. Under optimal tiling, transfers are carried out by rendering
/// rather than a dedicated copy engine, so transfer-destination use also
/// implies render-target and transfer-source use implies shader-read.
pub open spec fn texture_usage_spec(usage: Usage, tiling: Tiling) -> u64 {
    0x10u64 | (if usage.color_attachment || usage.depth_stencil_attachment {
        0x4u64
    } else {
        0u64
    }) | (if usage.sampled {
        0x1u64
    } else {
        0u64
    }) | (if usage.storage {
        0x3u64
    } else {
        0u64
    }) | (if tiling is Optimal && usage.transfer_dst {
        0x4u64
    } else {
        0u64
    }) | (if tiling is Optimal && usage.transfer_src {
        0x1u64
    } else {
        0u64
    })
}

/// Translate a portable usage request and tiling mode into the native
/// texture-usage bitmask.
pub fn map_texture_usage(usage: Usage, tiling: Tiling) -> (r: u64)
    ensures
        r == texture_usage_spec(usage, tiling),
{
    let optimal: bool = match tiling {
        Tiling::Optimal => true,
        Tiling::Linear => false,
    };
    0x10u64 | (if usage.color_attachment || usage.depth_stencil_attachment {
        0x4u64
    } else {
        0u64
    }) | (if usage.sampled {
        0x1u64
    } else {
        0u64
    }) | (if usage.storage {
        0x3u64
    } else {
        0u64
    }) | (if optimal && usage.transfer_dst {
        0x4u64
    } else {
        0u64
    }) | (if optimal && usage.transfer_src {
        0x1u64
    } else {
        0u64
    })
}

/// The native texture type of a portable view kind.
pub open spec fn texture_type_spec(view_kind: ViewKind) -> TextureType {
    match view_kind {
        ViewKind::D1 => TextureType::D1,
        ViewKind::D1Array => TextureType::D1Array,
        ViewKind::D2 => TextureType::D2,
        ViewKind::D2Array => TextureType::D2Array,
        ViewKind::D3 => TextureType::D3,
        ViewKind::Cube => TextureType::Cube,
        ViewKind::CubeArray => TextureType::CubeArray,
    }
}

/// Translate an image view kind into the native texture type.
pub fn map_texture_type(view_kind: ViewKind) -> (r: TextureType)
    ensures
        r == texture_type_spec(view_kind),
{
    match view_kind {
        ViewKind::D1 => TextureType::D1,
        ViewKind::D1Array => TextureType::D1Array,
        ViewKind::D2 => TextureType::D2,
        ViewKind::D2Array => TextureType::D2Array,
        ViewKind::D3 => TextureType::D3,
        ViewKind::Cube => TextureType::Cube,
        ViewKind::CubeArray => TextureType::CubeArray,
    }
}

/// The native index element type of a portable index width.
pub open spec fn index_type_spec(index_type: IndexType) -> NativeIndexType {
    match index_type {
        IndexType::U16 => NativeIndexType::UInt16,
        IndexType::U32 => NativeIndexType::UInt32,
    }
}

/// Translate an index buffer element width.
pub fn _map_index_type(index_type: IndexType) -> (r: NativeIndexType)
    ensures
        r == index_type_spec(index_type),
{
    match index_type {
        IndexType::U16 => NativeIndexType::UInt16,
        IndexType::U32 => NativeIndexType::UInt32,
    }
}

/// The native comparison function of a portable comparison.
pub open spec fn compare_function_spec(fun: Comparison) -> CompareFunction {
    match fun {
        Comparison::Never => CompareFunction::Never,
        Comparison::Less => CompareFunction::Less,
        Comparison::LessEqual => CompareFunction::LessEqual,
        Comparison::Equal => CompareFunction::Equal,
        Comparison::GreaterEqual => CompareFunction::GreaterEqual,
        Comparison::Greater => CompareFunction::Greater,
        Comparison::NotEqual => CompareFunction::NotEqual,
        Comparison::Always => CompareFunction::Always,
    }
}

/// Translate a depth/stencil comparison function.
pub fn map_compare_function(fun: Comparison) -> (r: CompareFunction)
    ensures
        r == compare_function_spec(fun),
{
    match fun {
        Comparison::Never => CompareFunction::Never,
        Comparison::Less => CompareFunction::Less,
        Comparison::LessEqual => CompareFunction::LessEqual,
        Comparison::Equal => CompareFunction::Equal,
        Comparison::GreaterEqual => CompareFunction::GreaterEqual,
        Comparison::Greater => CompareFunction::Greater,
        Comparison::NotEqual => CompareFunction::NotEqual,
        Comparison::Always => CompareFunction::Always,
    }
}

/// The native sampler filter of a portable filter.
pub open spec fn filter_spec(filter: Filter) -> SamplerMinMagFilter {
    match filter {
        Filter::Nearest => SamplerMinMagFilter::Nearest,
        Filter::Linear => SamplerMinMagFilter::Linear,
    }
}

/// Translate a minification/magnification filter.
pub fn map_filter(filter: Filter) -> (r: SamplerMinMagFilter)
    ensures
        r == filter_spec(filter),
{
    match filter {
        Filter::Nearest => SamplerMinMagFilter::Nearest,
        Filter::Linear => SamplerMinMagFilter::Linear,
    }
}

/// The native address mode of a portable wrap mode.
pub open spec fn wrap_mode_spec(wrap: WrapMode) -> SamplerAddressMode {
    match wrap {
        WrapMode::Tile => SamplerAddressMode::Repeat,
        WrapMode::Mirror => SamplerAddressMode::MirrorRepeat,
        WrapMode::Clamp => SamplerAddressMode::ClampToEdge,
        WrapMode::Border => SamplerAddressMode::ClampToBorderColor,
    }
}

/// Translate a texture address/wrap mode.
pub fn map_wrap_mode(wrap: WrapMode) -> (r: SamplerAddressMode)
    ensures
        r == wrap_mode_spec(wrap),
{
    match wrap {
        WrapMode::Tile => SamplerAddressMode::Repeat,
        WrapMode::Mirror => SamplerAddressMode::MirrorRepeat,
        WrapMode::Clamp => SamplerAddressMode::ClampToEdge,
        WrapMode::Border => SamplerAddressMode::ClampToBorderColor,
    }
}

/// The native size of a portable extent: the same coordinates, widened.
pub open spec fn extent_spec(extent: Extent) -> NativeExtent {
    NativeExtent {
        width: extent.width as u64,
        height: extent.height as u64,
        depth: extent.depth as u64,
    }
}

/// Translate a 3D extent into the native size struct.
pub fn map_extent(extent: Extent) -> (r: NativeExtent)
    ensures
        r == extent_spec(extent),
        r.width == extent.width && r.height == extent.height && r.depth == extent.depth,
{
    NativeExtent {
        width: extent.width as u64,
        height: extent.height as u64,
        depth: extent.depth as u64,
    }
}

/// The native origin of a portable offset: the raw cast of each signed
/// coordinate to the driver's unsigned coordinate type, so a negative
/// coordinate wraps.
pub open spec fn offset_spec(offset: Offset) -> NativeOrigin {
    NativeOrigin { x: offset.x as u64, y: offset.y as u64, z: offset.z as u64 }
}

/// Translate a 3D offset into the native origin struct.
pub fn map_offset(offset: Offset) -> (r: NativeOrigin)
    ensures
        r == offset_spec(offset),
        offset.x >= 0 ==> r.x == offset.x,
        offset.y >= 0 ==> r.y == offset.y,
        offset.z >= 0 ==> r.z == offset.z,
{
    NativeOrigin {
        x: #[verifier::truncate] (offset.x as u64),
        y: #[verifier::truncate] (offset.y as u64),
        z: #[verifier::truncate] (offset.z as u64),
    }
}

/// The native stencil operation of a portable stencil operation.
pub open spec fn stencil_op_spec(op: StencilOp) -> StencilOperation {
    match op {
        StencilOp::Keep => StencilOperation::Keep,
        StencilOp::Zero => StencilOperation::Zero,
        StencilOp::Replace => StencilOperation::Replace,
        StencilOp::IncrementClamp => StencilOperation::IncrementClamp,
        StencilOp::IncrementWrap => StencilOperation::IncrementWrap,
        StencilOp::DecrementClamp => StencilOperation::DecrementClamp,
        StencilOp::DecrementWrap => StencilOperation::DecrementWrap,
        StencilOp::Invert => StencilOperation::Invert,
    }
}

/// Translate a stencil operation.
pub fn map_stencil_op(op: StencilOp) -> (r: StencilOperation)
    ensures
        r == stencil_op_spec(op),
{
    match op {
        StencilOp::Keep => StencilOperation::Keep,
        StencilOp::Zero => StencilOperation::Zero,
        StencilOp::Replace => StencilOperation::Replace,
        StencilOp::IncrementClamp => StencilOperation::IncrementClamp,
        StencilOp::IncrementWrap => StencilOperation::IncrementWrap,
        StencilOp::DecrementClamp => StencilOperation::DecrementClamp,
        StencilOp::DecrementWrap => StencilOperation::DecrementWrap,
        StencilOp::Invert => StencilOperation::Invert,
    }
}

/// The native winding of a portable front-face orientation.
pub open spec fn winding_spec(face: FrontFace) -> Winding {
    match face {
        FrontFace::Clockwise => Winding::Clockwise,
        FrontFace::CounterClockwise => Winding::CounterClockwise,
    }
}

/// Translate the front-face winding order.
pub fn map_winding(face: FrontFace) -> (r: Winding)
    ensures
        r == winding_spec(face),
{
    match face {
        FrontFace::Clockwise => Winding::Clockwise,
        FrontFace::CounterClockwise => Winding::CounterClockwise,
    }
}

/// The native cull mode of a portable face selection. Culling both faces
/// has no native single-mode representation and yields `None`, the
/// documented "unsupported combination" outcome.
pub open spec fn cull_mode_spec(face: Face) -> Option<CullMode> {
    if !face.front && !face.back {
        Some(CullMode::NoCulling)
    } else if face.front && !face.back {
        Some(CullMode::Front)
    } else if !face.front && face.back {
        Some(CullMode::Back)
    } else {
        None
    }
}

/// Translate a cull-face selection into the native cull mode.
pub fn map_cull_face(face: Face) -> (r: Option<CullMode>)
    ensures
        r == cull_mode_spec(face),
{
    if !face.front && !face.back {
        Some(CullMode::NoCulling)
    } else if face.front && !face.back {
        Some(CullMode::Front)
    } else if !face.front && face.back {
        Some(CullMode::Back)
    } else {
        None
    }
}

} // verus!
