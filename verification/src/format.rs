//! Classification of pixel formats, over the raw device enumeration
//! values.

use vstd::prelude::*;

verus! {

/// Format with undefined contents.
pub const FORMAT_UNDEFINED: i32 = 0;
/// One 8-bit sRGB channel.
pub const FORMAT_R8_SRGB: i32 = 15;
/// Two 8-bit sRGB channels.
pub const FORMAT_R8G8_SRGB: i32 = 22;
/// Three 8-bit sRGB channels.
pub const FORMAT_R8G8B8_SRGB: i32 = 29;
/// Three 8-bit sRGB channels, blue first.
pub const FORMAT_B8G8R8_SRGB: i32 = 36;
/// Four 8-bit sRGB channels.
pub const FORMAT_R8G8B8A8_SRGB: i32 = 43;
/// Four 8-bit sRGB channels, blue first.
pub const FORMAT_B8G8R8A8_SRGB: i32 = 50;
/// Four 8-bit sRGB channels packed into 32 bits.
pub const FORMAT_A8B8G8R8_SRGB_PACK32: i32 = 57;
/// 16-bit depth.
pub const FORMAT_D16_UNORM: i32 = 124;
/// 24-bit depth packed with 8 unused bits.
pub const FORMAT_X8_D24_UNORM_PACK32: i32 = 125;
/// 32-bit floating-point depth.
pub const FORMAT_D32_SFLOAT: i32 = 126;
/// 8-bit stencil.
pub const FORMAT_S8_UINT: i32 = 127;
/// 16-bit depth with 8-bit stencil.
pub const FORMAT_D16_UNORM_S8_UINT: i32 = 128;
/// 24-bit depth with 8-bit stencil.
pub const FORMAT_D24_UNORM_S8_UINT: i32 = 129;
/// 32-bit floating-point depth with 8-bit stencil.
pub const FORMAT_D32_SFLOAT_S8_UINT: i32 = 130;

/// Whether a format encodes its color channels in sRGB.
pub open spec fn spec_format_is_srgb(format: i32) -> bool {
    ||| format == FORMAT_A8B8G8R8_SRGB_PACK32
    ||| format == FORMAT_R8G8B8A8_SRGB
    ||| format == FORMAT_B8G8R8A8_SRGB
    ||| format == FORMAT_R8_SRGB
    ||| format == FORMAT_R8G8_SRGB
    ||| format == FORMAT_R8G8B8_SRGB
    ||| format == FORMAT_B8G8R8_SRGB
}

/// Whether a format has a depth aspect.
pub open spec fn spec_format_has_depth_aspect(format: i32) -> bool {
    ||| format == FORMAT_D16_UNORM
    ||| format == FORMAT_D16_UNORM_S8_UINT
    ||| format == FORMAT_D24_UNORM_S8_UINT
    ||| format == FORMAT_D32_SFLOAT
    ||| format == FORMAT_X8_D24_UNORM_PACK32
    ||| format == FORMAT_D32_SFLOAT_S8_UINT
}

/// Whether a format has a stencil aspect.
pub open spec fn spec_format_has_stencil_aspect(format: i32) -> bool {
    ||| format == FORMAT_D16_UNORM_S8_UINT
    ||| format == FORMAT_D24_UNORM_S8_UINT
    ||| format == FORMAT_D32_SFLOAT_S8_UINT
    ||| format == FORMAT_S8_UINT
}

/// Get whether a format is SRGB or not.
pub fn format_is_srgb(format: i32) -> (r: bool)
    ensures
        r == spec_format_is_srgb(format),
{
    format == FORMAT_A8B8G8R8_SRGB_PACK32 || format == FORMAT_R8G8B8A8_SRGB || format
        == FORMAT_B8G8R8A8_SRGB || format == FORMAT_R8_SRGB || format == FORMAT_R8G8_SRGB || format
        == FORMAT_R8G8B8_SRGB || format == FORMAT_B8G8R8_SRGB
}

/// Get whether a format has a depth aspect.
pub fn format_has_depth_aspect(format: i32) -> (r: bool)
    ensures
        r == spec_format_has_depth_aspect(format),
{
    format == FORMAT_D16_UNORM || format == FORMAT_D16_UNORM_S8_UINT || format
        == FORMAT_D24_UNORM_S8_UINT || format == FORMAT_D32_SFLOAT || format
        == FORMAT_X8_D24_UNORM_PACK32 || format == FORMAT_D32_SFLOAT_S8_UINT
}

/// Get whether a format has a stencil aspect.
pub fn format_has_stencil_aspect(format: i32) -> (r: bool)
    ensures
        r == spec_format_has_stencil_aspect(format),
{
    format == FORMAT_D16_UNORM_S8_UINT || format == FORMAT_D24_UNORM_S8_UINT || format
        == FORMAT_D32_SFLOAT_S8_UINT || format == FORMAT_S8_UINT
}

/// Get whether a format has a depth or stencil aspect.
pub fn format_has_depth_or_stencil_aspect(format: i32) -> (r: bool)
    ensures
        r == (spec_format_has_depth_aspect(format) || spec_format_has_stencil_aspect(format)),
{
    format_has_depth_aspect(format) || format_has_stencil_aspect(format)
}

} // verus!
