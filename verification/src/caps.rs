//! The immutable per-device capability record that conditions every
//! format-resolution decision.
//!
//! The record is filled once, at device initialization, by a detection step
//! outside this crate, and is read-only afterwards. Most fields are boolean
//! family flags; the graded format families carry one flag per support tier,
//! of which at most one is active at a time (see [`PrivateCapabilities::wf`]).

use vstd::prelude::*;

verus! {

/// Device capability flags and support tiers, one record per physical device.
///
/// Each `format_*` group of fields describes how far the device supports one
/// format family. For a graded family (for example `format_r32float_*`) the
/// detection step sets at most one of the group's flags; the flag names the
/// active tier, and tiers only ever remove features relative to the tier
/// above them.
#[derive(Clone, Copy, PartialEq, Eq, Structural, Debug)]
pub struct PrivateCapabilities {
    /// Smallest channel count for which the device offers dedicated sRGB
    /// formats; an sRGB format with fewer channels has no native equivalent.
    pub format_min_srgb_channels: u8,
    /// Packed 16-bit color formats (5/6-bit channels) exist natively.
    pub format_b5: bool,
    /// Block-compressed (BC1-7) family is available.
    pub format_bc: bool,
    /// ETC2/EAC compressed family is available.
    pub format_eac_etc: bool,
    /// ASTC compressed family is available.
    pub format_astc: bool,
    /// The combined 24-bit-depth/8-bit-stencil format exists natively.
    pub format_depth24_stencil8: bool,
    /// Tier of the combined 32-bit-float-depth/8-bit-stencil format:
    /// filterable, or present without filtering. Exactly one of the two
    /// flags is set per device.
    pub format_depth32_stencil8_filter: bool,
    pub format_depth32_stencil8_none: bool,
    /// 16-bit depth format is filterable.
    pub format_depth16unorm: bool,
    /// Tier of the 32-bit-float depth format: filterable, or present without
    /// filtering. Exactly one of the two flags is set per device.
    pub format_depth32float_filter: bool,
    pub format_depth32float_none: bool,
    /// Tier of the single-channel 8-bit sRGB format.
    pub format_r8unorm_srgb_all: bool,
    pub format_r8unorm_srgb_no_write: bool,
    /// Single-channel 8-bit signed-normalized format has full support.
    pub format_r8snorm_all: bool,
    /// 16-bit normalized single-channel formats have full support.
    pub format_r16_norm_all: bool,
    /// Tier of the two-channel 8-bit sRGB format.
    pub format_rg8unorm_srgb_all: bool,
    pub format_rg8unorm_srgb_no_write: bool,
    /// Two-channel 8-bit signed-normalized format has full support.
    pub format_rg8snorm_all: bool,
    /// Tier of the 32-bit single-channel integer formats.
    pub format_r32_all: bool,
    pub format_r32_no_write: bool,
    /// Tier of the 32-bit single-channel float format.
    pub format_r32float_no_write_no_filter: bool,
    pub format_r32float_no_filter: bool,
    pub format_r32float_all: bool,
    /// Tier of the four-channel 8-bit sRGB formats.
    pub format_rgba8_srgb_all: bool,
    pub format_rgba8_srgb_no_write: bool,
    /// Tier of the 10-10-10-2 unsigned-normalized format.
    pub format_rgb10a2_unorm_all: bool,
    pub format_rgb10a2_unorm_no_write: bool,
    /// Tier of the 10-10-10-2 unsigned-integer format.
    pub format_rgb10a2_uint_color: bool,
    pub format_rgb10a2_uint_color_write: bool,
    /// Tier of the 11-11-10 float format.
    pub format_rg11b10_all: bool,
    pub format_rg11b10_no_write: bool,
    /// Tier of the shared-exponent 9-9-9-5 float format.
    pub format_rgb9e5_all: bool,
    pub format_rgb9e5_filter_only: bool,
    pub format_rgb9e5_no_write: bool,
    /// Tier of the two-channel 32-bit integer formats.
    pub format_rg32_color: bool,
    pub format_rg32_color_write: bool,
    /// Tier of the two-channel 32-bit float format.
    pub format_rg32float_all: bool,
    pub format_rg32float_color_blend: bool,
    pub format_rg32float_no_filter: bool,
    /// Tier of the four-channel 32-bit integer formats.
    pub format_rgba32int_color: bool,
    pub format_rgba32int_color_write: bool,
    /// Tier of the four-channel 32-bit float format.
    pub format_rgba32float_all: bool,
    pub format_rgba32float_color: bool,
    pub format_rgba32float_color_write: bool,
    /// Tier of the 10-10-10-2 format with blue stored first.
    pub format_bgr10a2_all: bool,
    pub format_bgr10a2_no_write: bool,
}

impl PrivateCapabilities {
    /// The record invariant the detection step establishes: within every
    /// graded format family at most one tier flag is active, and the two
    /// depth families always name their tier explicitly.
    pub open spec fn wf(self) -> bool {
        &&& !(self.format_r8unorm_srgb_all && self.format_r8unorm_srgb_no_write)
        &&& !(self.format_rg8unorm_srgb_all && self.format_rg8unorm_srgb_no_write)
        &&& !(self.format_rgba8_srgb_all && self.format_rgba8_srgb_no_write)
        &&& !(self.format_r32_all && self.format_r32_no_write)
        &&& !(self.format_r32float_all && self.format_r32float_no_filter)
        &&& !(self.format_r32float_all && self.format_r32float_no_write_no_filter)
        &&& !(self.format_r32float_no_filter && self.format_r32float_no_write_no_filter)
        &&& !(self.format_rgb10a2_unorm_all && self.format_rgb10a2_unorm_no_write)
        &&& !(self.format_rgb10a2_uint_color && self.format_rgb10a2_uint_color_write)
        &&& !(self.format_rg11b10_all && self.format_rg11b10_no_write)
        &&& !(self.format_rgb9e5_all && self.format_rgb9e5_filter_only)
        &&& !(self.format_rgb9e5_all && self.format_rgb9e5_no_write)
        &&& !(self.format_rgb9e5_filter_only && self.format_rgb9e5_no_write)
        &&& !(self.format_rg32_color && self.format_rg32_color_write)
        &&& !(self.format_rg32float_all && self.format_rg32float_color_blend)
        &&& !(self.format_rg32float_all && self.format_rg32float_no_filter)
        &&& !(self.format_rg32float_color_blend && self.format_rg32float_no_filter)
        &&& !(self.format_rgba32int_color && self.format_rgba32int_color_write)
        &&& !(self.format_rgba32float_all && self.format_rgba32float_color)
        &&& !(self.format_rgba32float_all && self.format_rgba32float_color_write)
        &&& !(self.format_rgba32float_color && self.format_rgba32float_color_write)
        &&& !(self.format_bgr10a2_all && self.format_bgr10a2_no_write)
        &&& self.format_depth32float_filter != self.format_depth32float_none
        &&& self.format_depth32_stencil8_filter != self.format_depth32_stencil8_none
    }

    /// Rank of the active tier of the single-channel 8-bit sRGB family,
    /// higher tiers granting supersets of features.
    pub open spec fn r8unorm_srgb_rank(self) -> int {
        if self.format_r8unorm_srgb_all {
            2
        } else if self.format_r8unorm_srgb_no_write {
            1
        } else {
            0
        }
    }

    /// Rank of the active tier of the two-channel 8-bit sRGB family.
    pub open spec fn rg8unorm_srgb_rank(self) -> int {
        if self.format_rg8unorm_srgb_all {
            2
        } else if self.format_rg8unorm_srgb_no_write {
            1
        } else {
            0
        }
    }

    /// Rank of the active tier of the four-channel 8-bit sRGB family.
    pub open spec fn rgba8_srgb_rank(self) -> int {
        if self.format_rgba8_srgb_all {
            2
        } else if self.format_rgba8_srgb_no_write {
            1
        } else {
            0
        }
    }

    /// Rank of the active tier of the 32-bit single-channel integer family.
    pub open spec fn r32_rank(self) -> int {
        if self.format_r32_all {
            2
        } else if self.format_r32_no_write {
            1
        } else {
            0
        }
    }

    /// Rank of the active tier of the 32-bit single-channel float family.
    pub open spec fn r32float_rank(self) -> int {
        if self.format_r32float_all {
            3
        } else if self.format_r32float_no_filter {
            2
        } else if self.format_r32float_no_write_no_filter {
            1
        } else {
            0
        }
    }

    /// Rank of the active tier of the 10-10-10-2 unsigned-normalized family.
    pub open spec fn rgb10a2_unorm_rank(self) -> int {
        if self.format_rgb10a2_unorm_all {
            2
        } else if self.format_rgb10a2_unorm_no_write {
            1
        } else {
            0
        }
    }

    /// Rank of the active tier of the 10-10-10-2 unsigned-integer family.
    pub open spec fn rgb10a2_uint_rank(self) -> int {
        if self.format_rgb10a2_uint_color_write {
            2
        } else if self.format_rgb10a2_uint_color {
            1
        } else {
            0
        }
    }

    /// Rank of the active tier of the 11-11-10 float family.
    pub open spec fn rg11b10_rank(self) -> int {
        if self.format_rg11b10_all {
            2
        } else if self.format_rg11b10_no_write {
            1
        } else {
            0
        }
    }

    /// Rank of the active tier of the shared-exponent 9-9-9-5 float family.
    pub open spec fn rgb9e5_rank(self) -> int {
        if self.format_rgb9e5_all {
            3
        } else if self.format_rgb9e5_no_write {
            2
        } else if self.format_rgb9e5_filter_only {
            1
        } else {
            0
        }
    }

    /// Rank of the active tier of the two-channel 32-bit integer family.
    pub open spec fn rg32_rank(self) -> int {
        if self.format_rg32_color_write {
            2
        } else if self.format_rg32_color {
            1
        } else {
            0
        }
    }

    /// Rank of the active tier of the two-channel 32-bit float family.
    pub open spec fn rg32float_rank(self) -> int {
        if self.format_rg32float_all {
            3
        } else if self.format_rg32float_no_filter {
            2
        } else if self.format_rg32float_color_blend {
            1
        } else {
            0
        }
    }

    /// Rank of the active tier of the four-channel 32-bit integer family.
    pub open spec fn rgba32int_rank(self) -> int {
        if self.format_rgba32int_color_write {
            2
        } else if self.format_rgba32int_color {
            1
        } else {
            0
        }
    }

    /// Rank of the active tier of the four-channel 32-bit float family.
    pub open spec fn rgba32float_rank(self) -> int {
        if self.format_rgba32float_all {
            3
        } else if self.format_rgba32float_color_write {
            2
        } else if self.format_rgba32float_color {
            1
        } else {
            0
        }
    }

    /// Rank of the active tier of the blue-first 10-10-10-2 family.
    pub open spec fn bgr10a2_rank(self) -> int {
        if self.format_bgr10a2_all {
            2
        } else if self.format_bgr10a2_no_write {
            1
        } else {
            0
        }
    }

    /// Rank of the active tier of the 32-bit-float depth family.
    pub open spec fn depth32float_rank(self) -> int {
        if self.format_depth32float_filter {
            2
        } else if self.format_depth32float_none {
            1
        } else {
            0
        }
    }

    /// Rank of the active tier of the combined 32-bit-float-depth/stencil
    /// family.
    pub open spec fn depth32_stencil8_rank(self) -> int {
        if self.format_depth32_stencil8_filter {
            2
        } else if self.format_depth32_stencil8_none {
            1
        } else {
            0
        }
    }

    /// `self` is at most as permissive as `other`: family by family, every
    /// capability `self` grants, `other` grants too, and `other`'s active
    /// tier is at least as high as `self`'s.
    pub open spec fn le(self, other: Self) -> bool {
        &&& other.format_min_srgb_channels <= self.format_min_srgb_channels
        &&& (self.format_b5 ==> other.format_b5)
        &&& (self.format_bc ==> other.format_bc)
        &&& (self.format_eac_etc ==> other.format_eac_etc)
        &&& (self.format_astc ==> other.format_astc)
        &&& (self.format_depth24_stencil8 ==> other.format_depth24_stencil8)
        &&& (self.format_depth16unorm ==> other.format_depth16unorm)
        &&& (self.format_r8snorm_all ==> other.format_r8snorm_all)
        &&& (self.format_r16_norm_all ==> other.format_r16_norm_all)
        &&& (self.format_rg8snorm_all ==> other.format_rg8snorm_all)
        &&& self.r8unorm_srgb_rank() <= other.r8unorm_srgb_rank()
        &&& self.rg8unorm_srgb_rank() <= other.rg8unorm_srgb_rank()
        &&& self.rgba8_srgb_rank() <= other.rgba8_srgb_rank()
        &&& self.r32_rank() <= other.r32_rank()
        &&& self.r32float_rank() <= other.r32float_rank()
        &&& self.rgb10a2_unorm_rank() <= other.rgb10a2_unorm_rank()
        &&& self.rgb10a2_uint_rank() <= other.rgb10a2_uint_rank()
        &&& self.rg11b10_rank() <= other.rg11b10_rank()
        &&& self.rgb9e5_rank() <= other.rgb9e5_rank()
        &&& self.rg32_rank() <= other.rg32_rank()
        &&& self.rg32float_rank() <= other.rg32float_rank()
        &&& self.rgba32int_rank() <= other.rgba32int_rank()
        &&& self.rgba32float_rank() <= other.rgba32float_rank()
        &&& self.bgr10a2_rank() <= other.bgr10a2_rank()
        &&& self.depth32float_rank() <= other.depth32float_rank()
        &&& self.depth32_stencil8_rank() <= other.depth32_stencil8_rank()
    }
}

} // verus!
