//! Pixel formats and what the scheduler needs to know of each.

use vstd::prelude::*;

verus! {

/// Supported formats.
#[derive(Debug, Clone, Copy, PartialEq, Eq, Structural)]
pub enum Format {
    /// Unknown format.
    Unknown,
    /// 4-channel RGBA format with each channel being a typeless 32-bit value.
    R32G32B32A32Typeless,
    /// 4-channel RGBA format with each channel being a 32-bit IEEE 754 floating point value.
    R32G32B32A32Float,
    /// 4-channel RGBA format with each channel being a 32-bit unsigned integer.
    R32G32B32A32Uint,
    /// 4-channel RGBA format with each channel being a 32-bit signed integer.
    R32G32B32A32Sint,
    /// 3-channel RGB format with each channel being a typeless 32-bit value.
    R32G32B32Typeless,
    /// 3-channel RGB format with each channel being a 32-bit IEEE 754 floating point value.
    R32G32B32Float,
    /// 3-channel RGB format with each channel being a 32-bit unsigned integer.
    R32G32B32Uint,
    /// 3-channel RGB format with each channel being a 32-bit signed integer.
    R32G32B32Sint,
    /// 4-channel RGBA format with each channel being a typeless 16-bit value.
    R16G16B16A16Typeless,
    /// 4-channel RGBA format with each channel being a 16-bit floating point value.
    R16G16B16A16Float,
    /// 4-channel RGBA format with each channel being a normalized, 16-bit unsigned integer.
    R16G16B16A16Unorm,
    /// 4-channel RGBA format with each channel being a 16-bit unsigned integer.
    R16G16B16A16Uint,
    /// 4-channel RGBA format with each channel being a normalized, 16-bit signed integer.
    R16G16B16A16Snorm,
    /// 4-channel RGBA format with each channel being a 16-bit signed integer.
    R16G16B16A16Sint,
    /// 2-channel RG format with each channel being a typeless 32-bit value.
    R32G32Typeless,
    /// 2-channel RG format with each channel being a 32-bit IEEE 754 floating point value.
    R32G32Float,
    /// 2-channel RG format with each channel being a 32-bit unsigned integer.
    R32G32Uint,
    /// 2-channel RG format with each channel being a 32-bit signed integer.
    R32G32Sint,
    /// 2-channel RG format with the first channel being a typeless 32-bit value, the second channel a typeless 8-bit
    /// value and 24 unused bits at the end.
    R32G8X24Typeless,
    /// 2-channel RG format with the first channel being a 32-bit depth value, the second one a 8-bit unsigned integer
    /// value and 24 unused bits at the end.
    D32FloatS8X24Uint,
    /// Single channel R format with the channel being a typeless 32-bit IEEE 754 floating point value and additional
    /// sets of 8 and 24 unused bits afterwards.
    R32FloatX8X24Typeless,
    /// Single channel R format with 32 unused bits, the channel being an 8-bit unsigned integer value and 24 unused
    /// bits at the end.
    X32TypelessG8X24Uint,
    /// 4-channel RGBA format with the RGB channels being typeless 10-bit values and the A channel being a typeless
    /// 2-bit value.
    R10G10B10A2Typeless,
    /// 4-channel RGBA format with the RGB channels being 10-bit normalized, unsigned integer values and the A channel
    /// being a 2-bit normalized, unsigned integer value.
    R10G10B10A2Unorm,
    /// 4-channel RGBA format with the RGB channels being 10-bit unsigned integer values and the A channel being a 2-bit
    /// unsigned integer value.
    R10G10B10A2Uint,
    /// 3-channel RGB format with the RG channels being 11-bit floating point values and the B channel being a 10-bit
    /// floating point value.
    R11G11B10Float,
    /// 4-channel RGBA format with all channels being typeless 8-bit values.
    R8G8B8A8Typeless,
    /// 4-channel RGBA format with all channels being normalized 8-bit unsigned integers.
    R8G8B8A8Unorm,
    /// 4-channel RGBA format with all channels being normalized 8-bit unsigned integer SRGB values.
    R8G8B8A8UnormSrgb,
    /// 4-channel RGBA format with all channels being 8-bit unsigned integers.
    R8G8B8A8Uint,
    /// 4-channel RGBA format with all channels being normalized, 8-bit signed integers.
    R8G8B8A8Snorm,
    /// 4-channel RGBA format with all channels being 8-bit signed integers.
    R8G8B8A8Sint,
    /// 2-channel RG format with each channel being a typeless 16-bit value.
    R16G16Typeless,
    /// 2-channel RG format with each channel being a 16-bit IEEE 754 floating point value.
    R16G16Float,
    /// 2-channel RG format with each channel being a normalized, 16-bit unsigned integer.
    R16G16Unorm,
    /// 2-channel RG format with each channel being a 16-bit unsigned integer.
    R16G16Uint,
    /// 2-channel RG format with each channel being a normalized, 16-bit signed integer value.
    R16G16Snorm,
    /// 2-channel RG format with each channel being a 16-bit signed integer.
    R16G16Sint,
    /// Single channel R format with the channel being a typeless 32-bit value.
    R32Typeless,
    /// Single channel R format with the channel being a 32-bit IEEE 754 floating point depth value.
    D32Float,
    /// Single channel R format with the channel being a 32-bit IEEE 754 floating point value.
    R32Float,
    /// Single channel R format with the channel being a 32-bit unsigned integer.
    R32Uint,
    /// Single channel R format with the channel being a 32-bit signed integer.
    R32Sint,
    /// 2-channel RG format with the first channel being a typeless 24-bit value and the second one a typeless 8-bit
    /// value.
    R24G8Typeless,
    /// 2-channel RG format with the first channel being a normalized, 24-bit unsigned integer depth value and the
    /// second one an 8-bit unsigned integer stencil value.
    D24UnormS8Uint,
    /// 2-channel RG format with the first channel being a normalized, 24-bit unsigned integer value and the second one
    /// a typeless 8-bit value.
    R24UnormX8Typeless,
    /// Single channel R format with 24 unused bits with the channel being an 8-bit unsigned integer.
    X24TypelessG8Uint,
    /// 2-channel RG format with each channel being a typeless 8-bit value.
    R8G8Typeless,
    /// 2-channel RG format with each channel being a normalized, 8-bit unsigned integer.
    R8G8Unorm,
    /// 2-channel RG format with each channel being a 8-bit unsigned integer.
    R8G8Uint,
    /// 2-channel RG format with each channel being a normalized, 8-bit signed integer.
    R8G8Snorm,
    /// 2-channel RG format with each channel being a 8-bit signed integer.
    R8G8Sint,
    /// Single channel R format with the channel being a typeless 16-bit value.
    R16Typeless,
    /// Single channel R format with the channel being a 16-bit IEEE 754 floating point value.
    R16Float,
    /// Single channel R format with the channel being a 16-bit IEEE 754 floating point depth value.
    D16Unorm,
    /// Single channel R format with the channel being a 16-bit unsigned integer.
    R16Unorm,
    /// Single channel R format with the channel being a 16-bit signed integer.
    R16Uint,
    /// Single channel R format with the channel being a normalized, 16-bit signed integer.
    R16Snorm,
    /// Single channel R format with the channel being a 16-bit signed integer.
    R16Sint,
    /// Single channel R format with the channel being a typeless 8-bit value.
    R8Typeless,
    /// Single channel R format with the channel being a normalized, 8-bit unsigned integer.
    R8Unorm,
    /// Single channel R format with the channel being a 8-bit signed integer.
    R8Uint,
    /// Single channel R format with the channel being a normalized, 8-bit signed integer.
    R8Snorm,
    /// Single channel R format with the channel being a 8-bit signed integer.
    R8Sint,
    /// Single channel A format with the channel being a normalized, 8-bit unsigned integer.
    A8Unorm,
    /// Single channel R format with the channel being a 1-bit unsigned integer.
    R1Unorm,
    /// 4-channel RGB format with the first three channels being a 9-bit mantissa. Together with the 5-bit exponent that
    /// is shared for all three channels they form three 9-bit mantissa + 5-bit exponent floating point value.
    R9G9B9E5Sharedexp,
    /// 4-channel RGB format with each channel being a normalized, 8-bit unsigned integer. Each block of 32 bits
    /// describes the RGB values for a pair of pixels that always share one R and B value but have separate G values.
    R8G8B8G8Unorm,
    /// 4-channel RGB format with each channel being a normalized, 8-bit unsigned integer. Each block of 32 bits
    /// describes the RGB values for a pair of pixels that always share one R and B value but have separate G values.
    G8R8G8B8Unorm,
    /// 4-channel block compressed format with the first channel being a typeless 5-bit value, the second one a
    /// typeless, 6-bit value, the third one a typeless, 5-bit value and the last one a typeless, 0-bit or 1-bit value.
    BC1Typeless,
    /// 4-channel block compressed format with the first channel being a normalized, 5-bit unsigned integer, the second
    /// one a normalized, 6-bit unsigned integer, the third one a normalized, 5-bit unsigned integer and the last one a
    /// normalized, 0-bit or 1-bit unsigned integer.
    BC1Unorm,
    /// 4-channel block compressed format with the first channel being a normalized, 5-bit unsigned integer SRGB value,
    /// the second one a normalized, 6-bit unsigned integer SRGB value, the third one a normalized, 5-bit unsigned
    /// integer SRGB valu eand the last one a normalized, 0-bit or 1-bit unsigned integer SRGB value.
    BC1UnormSrgb,
    /// 4-channel block compressed format with the first channel being a typeless 5-bit value, the second one a
    /// typeless, 6-bit value, the third one a typeless, 5-bit value and the last one a typeless, 4-bit value.
    BC2Typeless,
    /// 4-channel block compressed format with the first channel being a normalized, 5-bit unsigned integer, the second
    /// one a normalized, 6-bit unsigned integer, the third one a normalized, 5-bit unsigned integer and the last one a
    /// normalized, 4-bit unsigned integer.
    BC2Unorm,
    /// 4-channel block compressed format with the first channel being a normalized, 5-bit unsigned integer SRGB value,
    /// the second one a normalized, 6-bit unsigned integer SRGB value, the third one a normalized, 5-bit unsigned
    /// integer SRGB value and the last one a normalized, 4-bit unsigned integer SRGB value.
    BC2UnormSrgb,
    /// 4-channel block compressed format with the first channel being a typeless 5-bit value, the second one a
    /// typeless, 6-bit value, the third one a typeless, 5-bit value and the last one a typeless, 8-bit value.
    BC3Typeless,
    /// 4-channel block compressed format with the first channel being a normalized, 5-bit unsigned integer, the second
    /// one a normalized, 6-bit unsigned integer, the third one a normalized, 5-bit unsigned integer and the last one a
    /// normalized, 8-bit unsigned integer.
    BC3Unorm,
    /// 4-channel block compressed format with the first channel being a normalized, 5-bit unsigned integer SRGB value,
    /// the second one a normalized, 6-bit unsigned integer SRGB value, the third one a normalized, 5-bit unsigned
    /// integer SRGB value and the last one a normalized, 0-bit or 1-bit unsigned integer SRGB value.
    BC3UnormSrgb,
    /// Single channel block compressed format with the channel being a typeless 8-bit value.
    BC4Typeless,
    /// Single channel block compressed format with the channel being a normalized, 8-bit signed integer value.
    BC4Unorm,
    /// Single channel block compressed format with the channel being a normalized, 8-bit signed integer value.
    BC4Snorm,
    /// 2-channel block compressed format with each channel being a typeless 8-bit value.
    BC5Typeless,
    /// 2-channel block compressed format with each channel being a normalized, 8-bit unsigned integer value.
    BC5Unorm,
    /// 2-channel block compressed format with each channel being a normalized, 8-bit signed integer value.
    BC5Snorm,
    /// 3-channel BGR format with the first channel being a normalized, 5-bit unsigned integer, the second one a
    /// normalized, 6-bit unsigned integer and the third one a normalized, 5-bit unsigned integer.
    B5G6R5Unorm,
    /// 4-channel BGRA format with the first three channels being a normalized, 5-bit unsigned integer and the last one
    /// a normalized, 1-bit unsigned integer.
    B5G5R5A1Unorm,
    /// 4-channel BGRA format with each channel being a normalized, 8-bit unsigned integer.
    B8G8R8A8Unorm,
    /// 3-channel BGR format with each channel being a normalized, 8-bit unsigned integer value and 8 unused bits at the
    /// end.
    B8G8R8X8Unorm,
    /// 4-channel RGB 2.8-biased fixed-point format with the first three channels being a normalized, 10-bit
    /// unsigned integer and the last one a normalized 2-bit unsigned integer.
    R10G10B10XrBiasA2Unorm,
    /// 4-channel BGRA format with each channel being a typeless 8-bit value.
    B8G8R8A8Typeless,
    /// 4-channel BGRA format with each channel being a normalized, 8-bit unsigned integer SRGB value.
    B8G8R8A8UnormSrgb,
    /// 3-channel BGR format with each channel being a typeless 8-bit value and 8 unused bits at the end.
    B8G8R8X8Typeless,
    /// 3-channel BGR format with each channel being a normalized, 8-bit unsigned integer and 8 unused bits a the end.
    B8G8R8X8UnormSrgb,
    /// 3-channel block compressed HDR format with each channel being a typeless 16-bit value.
    BC6HTypeless,
    /// 3-channel block compressed HDR format with each channel being a 16-bit unsigned "half" floating point value.
    BC6HUF16,
    /// 3-channel block compressed HDR format with each channel being a 16-bit signed "half" floating point value.
    BC6HSF16,
    /// 3-channel or 4-channel block compressed format with the first three channels being a typeless, 4-7-bit value and
    /// the last one an optional, typeless 0-8-bit value.
    BC7Typeless,
    /// 3-channel or 4-channel block compressed format with the first three channels being an normalized, 4-7-bit
    /// unsigned integer and the last one an optional, normalized, 0-8-bit unsigned integer.
    BC7Unorm,
    /// 3-channel or 4-channel block compressed format with the first three channels being an normalized, 4-7-bit
    /// unsigned integer and the last one an optional, normalized, 0-8-bit unsigned integer .
    BC7UnormSrgb,
    /// 4-channel video resource format with each channel being a 8-bit value.
    AYUV,
    /// 4-channel video resource format with each of the first three channels being a
    /// 10-bit value and the last one a 2-bit value.
    Y410,
    /// 4-channel video resource format with each channel being a 16-bit value.
    Y416,
    /// 2-channel video resource format with each channel being a 8-bit value.
    NV12,
    /// 2-channel video resource format with each channel being a 16-bit value.
    P010,
    /// 2-channel video resource format with each channel being a 8-bit value.
    P016,
    /// Video resource format with opaque layout.
    Opaque420,
    /// 4-channel video resource format with each channel being a 8-bit value.
    YUY2,
    /// 4-channel video resource format with each channel being a 16-bit value.
    Y210,
    /// 4-channel video resource format with each channel being a 16-bit value.
    Y216,
    /// 2-channel video resource format with each channel being a 8-bit value.
    NV11,
    /// 4-bit palletized video resource format.
    AI44,
    /// 4-bit palletized video resource format.
    IA44,
    /// RGB video resource format with 8-bit palletization.
    P8,
    /// RGB video resource format with 8-bit palletization.
    A8P8,
    /// 4-channels BGRA format with each channel being a normalized 4-bit unsigned integer.
    B4G4R4A4Unorm,
}

/// Number of formats available.
pub const FORMAT_COUNT: u32 = 116;

/// Whether the format is block compressed.
pub open spec fn format_is_block_compressed(f: Format) -> bool {
    match f {
        Format::BC1Typeless
        | Format::BC1Unorm
        | Format::BC1UnormSrgb
        | Format::BC2Typeless
        | Format::BC2Unorm
        | Format::BC2UnormSrgb
        | Format::BC3Typeless
        | Format::BC3Unorm
        | Format::BC3UnormSrgb
        | Format::BC4Typeless
        | Format::BC4Unorm
        | Format::BC4Snorm
        | Format::BC5Typeless
        | Format::BC5Unorm
        | Format::BC5Snorm
        | Format::BC6HTypeless
        | Format::BC6HUF16
        | Format::BC6HSF16
        | Format::BC7Typeless
        | Format::BC7Unorm
        | Format::BC7UnormSrgb => true,
        _ => false,
    }
}

/// Whether the format has a depth component.
pub open spec fn format_has_depth(f: Format) -> bool {
    match f {
        Format::D32FloatS8X24Uint
        | Format::D32Float
        | Format::D24UnormS8Uint
        | Format::D16Unorm => true,
        _ => false,
    }
}

/// Whether the format has a stencil component.
pub open spec fn format_has_stencil(f: Format) -> bool {
    match f {
        Format::D32FloatS8X24Uint
        | Format::D24UnormS8Uint => true,
        _ => false,
    }
}

/// The size in bytes of one element of the format: of one pixel, for a block
/// compressed format of one block, and 0 where the format cannot be used
/// element by element.
pub open spec fn format_element_bytes(f: Format) -> u32 {
    match f {
        Format::R32G32B32A32Typeless
        | Format::R32G32B32A32Float
        | Format::R32G32B32A32Uint
        | Format::R32G32B32A32Sint
        | Format::BC2Typeless
        | Format::BC2Unorm
        | Format::BC2UnormSrgb
        | Format::BC3Typeless
        | Format::BC3Unorm
        | Format::BC3UnormSrgb
        | Format::BC5Typeless
        | Format::BC5Unorm
        | Format::BC5Snorm
        | Format::BC6HTypeless
        | Format::BC6HUF16
        | Format::BC6HSF16
        | Format::BC7Typeless
        | Format::BC7Unorm
        | Format::BC7UnormSrgb => 16,
        Format::R32G32B32Typeless
        | Format::R32G32B32Float
        | Format::R32G32B32Uint
        | Format::R32G32B32Sint => 12,
        Format::R16G16B16A16Typeless
        | Format::R16G16B16A16Float
        | Format::R16G16B16A16Unorm
        | Format::R16G16B16A16Uint
        | Format::R16G16B16A16Snorm
        | Format::R16G16B16A16Sint
        | Format::R32G32Typeless
        | Format::R32G32Float
        | Format::R32G32Uint
        | Format::R32G32Sint
        | Format::R32G8X24Typeless
        | Format::D32FloatS8X24Uint
        | Format::R32FloatX8X24Typeless
        | Format::X32TypelessG8X24Uint
        | Format::BC1Typeless
        | Format::BC1Unorm
        | Format::BC1UnormSrgb
        | Format::BC4Typeless
        | Format::BC4Unorm
        | Format::BC4Snorm
        | Format::Y416
        | Format::Y210
        | Format::Y216 => 8,
        Format::R10G10B10A2Typeless
        | Format::R10G10B10A2Unorm
        | Format::R10G10B10A2Uint
        | Format::R11G11B10Float
        | Format::R8G8B8A8Typeless
        | Format::R8G8B8A8Unorm
        | Format::R8G8B8A8UnormSrgb
        | Format::R8G8B8A8Uint
        | Format::R8G8B8A8Snorm
        | Format::R8G8B8A8Sint
        | Format::R16G16Typeless
        | Format::R16G16Float
        | Format::R16G16Unorm
        | Format::R16G16Uint
        | Format::R16G16Snorm
        | Format::R16G16Sint
        | Format::R32Typeless
        | Format::D32Float
        | Format::R32Float
        | Format::R32Uint
        | Format::R32Sint
        | Format::R24G8Typeless
        | Format::D24UnormS8Uint
        | Format::R24UnormX8Typeless
        | Format::X24TypelessG8Uint
        | Format::R9G9B9E5Sharedexp
        | Format::R8G8B8G8Unorm
        | Format::G8R8G8B8Unorm
        | Format::B8G8R8A8Unorm
        | Format::B8G8R8X8Unorm
        | Format::R10G10B10XrBiasA2Unorm
        | Format::B8G8R8A8Typeless
        | Format::B8G8R8A8UnormSrgb
        | Format::B8G8R8X8Typeless
        | Format::B8G8R8X8UnormSrgb
        | Format::AYUV
        | Format::Y410
        | Format::YUY2 => 4,
        Format::R8G8Typeless
        | Format::R8G8Unorm
        | Format::R8G8Uint
        | Format::R8G8Snorm
        | Format::R8G8Sint
        | Format::R16Typeless
        | Format::R16Float
        | Format::D16Unorm
        | Format::R16Unorm
        | Format::R16Uint
        | Format::R16Snorm
        | Format::R16Sint
        | Format::B5G6R5Unorm
        | Format::B5G5R5A1Unorm
        | Format::A8P8
        | Format::B4G4R4A4Unorm => 2,
        Format::R8Typeless
        | Format::R8Unorm
        | Format::R8Uint
        | Format::R8Snorm
        | Format::R8Sint
        | Format::A8Unorm
        | Format::AI44
        | Format::IA44
        | Format::P8 => 1,
        _ => 0,
    }
}

/// The position of the format in the list of formats.
pub open spec fn format_index(f: Format) -> u32 {
    match f {
        Format::Unknown => 0,
        Format::R32G32B32A32Typeless => 1,
        Format::R32G32B32A32Float => 2,
        Format::R32G32B32A32Uint => 3,
        Format::R32G32B32A32Sint => 4,
        Format::R32G32B32Typeless => 5,
        Format::R32G32B32Float => 6,
        Format::R32G32B32Uint => 7,
        Format::R32G32B32Sint => 8,
        Format::R16G16B16A16Typeless => 9,
        Format::R16G16B16A16Float => 10,
        Format::R16G16B16A16Unorm => 11,
        Format::R16G16B16A16Uint => 12,
        Format::R16G16B16A16Snorm => 13,
        Format::R16G16B16A16Sint => 14,
        Format::R32G32Typeless => 15,
        Format::R32G32Float => 16,
        Format::R32G32Uint => 17,
        Format::R32G32Sint => 18,
        Format::R32G8X24Typeless => 19,
        Format::D32FloatS8X24Uint => 20,
        Format::R32FloatX8X24Typeless => 21,
        Format::X32TypelessG8X24Uint => 22,
        Format::R10G10B10A2Typeless => 23,
        Format::R10G10B10A2Unorm => 24,
        Format::R10G10B10A2Uint => 25,
        Format::R11G11B10Float => 26,
        Format::R8G8B8A8Typeless => 27,
        Format::R8G8B8A8Unorm => 28,
        Format::R8G8B8A8UnormSrgb => 29,
        Format::R8G8B8A8Uint => 30,
        Format::R8G8B8A8Snorm => 31,
        Format::R8G8B8A8Sint => 32,
        Format::R16G16Typeless => 33,
        Format::R16G16Float => 34,
        Format::R16G16Unorm => 35,
        Format::R16G16Uint => 36,
        Format::R16G16Snorm => 37,
        Format::R16G16Sint => 38,
        Format::R32Typeless => 39,
        Format::D32Float => 40,
        Format::R32Float => 41,
        Format::R32Uint => 42,
        Format::R32Sint => 43,
        Format::R24G8Typeless => 44,
        Format::D24UnormS8Uint => 45,
        Format::R24UnormX8Typeless => 46,
        Format::X24TypelessG8Uint => 47,
        Format::R8G8Typeless => 48,
        Format::R8G8Unorm => 49,
        Format::R8G8Uint => 50,
        Format::R8G8Snorm => 51,
        Format::R8G8Sint => 52,
        Format::R16Typeless => 53,
        Format::R16Float => 54,
        Format::D16Unorm => 55,
        Format::R16Unorm => 56,
        Format::R16Uint => 57,
        Format::R16Snorm => 58,
        Format::R16Sint => 59,
        Format::R8Typeless => 60,
        Format::R8Unorm => 61,
        Format::R8Uint => 62,
        Format::R8Snorm => 63,
        Format::R8Sint => 64,
        Format::A8Unorm => 65,
        Format::R1Unorm => 66,
        Format::R9G9B9E5Sharedexp => 67,
        Format::R8G8B8G8Unorm => 68,
        Format::G8R8G8B8Unorm => 69,
        Format::BC1Typeless => 70,
        Format::BC1Unorm => 71,
        Format::BC1UnormSrgb => 72,
        Format::BC2Typeless => 73,
        Format::BC2Unorm => 74,
        Format::BC2UnormSrgb => 75,
        Format::BC3Typeless => 76,
        Format::BC3Unorm => 77,
        Format::BC3UnormSrgb => 78,
        Format::BC4Typeless => 79,
        Format::BC4Unorm => 80,
        Format::BC4Snorm => 81,
        Format::BC5Typeless => 82,
        Format::BC5Unorm => 83,
        Format::BC5Snorm => 84,
        Format::B5G6R5Unorm => 85,
        Format::B5G5R5A1Unorm => 86,
        Format::B8G8R8A8Unorm => 87,
        Format::B8G8R8X8Unorm => 88,
        Format::R10G10B10XrBiasA2Unorm => 89,
        Format::B8G8R8A8Typeless => 90,
        Format::B8G8R8A8UnormSrgb => 91,
        Format::B8G8R8X8Typeless => 92,
        Format::B8G8R8X8UnormSrgb => 93,
        Format::BC6HTypeless => 94,
        Format::BC6HUF16 => 95,
        Format::BC6HSF16 => 96,
        Format::BC7Typeless => 97,
        Format::BC7Unorm => 98,
        Format::BC7UnormSrgb => 99,
        Format::AYUV => 100,
        Format::Y410 => 101,
        Format::Y416 => 102,
        Format::NV12 => 103,
        Format::P010 => 104,
        Format::P016 => 105,
        Format::Opaque420 => 106,
        Format::YUY2 => 107,
        Format::Y210 => 108,
        Format::Y216 => 109,
        Format::NV11 => 110,
        Format::AI44 => 111,
        Format::IA44 => 112,
        Format::P8 => 113,
        Format::A8P8 => 114,
        Format::B4G4R4A4Unorm => 115,
    }
}

/// The name of the format.
pub open spec fn format_name(f: Format) -> Seq<char> {
    match f {
        Format::Unknown => "UNKNOWN"@,
        Format::R32G32B32A32Typeless => "R32G32B32A32_TYPELESS"@,
        Format::R32G32B32A32Float => "R32G32B32A32_FLOAT"@,
        Format::R32G32B32A32Uint => "R32G32B32A32_UINT"@,
        Format::R32G32B32A32Sint => "R32G32B32A32_SINT"@,
        Format::R32G32B32Typeless => "R32G32B32_TYPELESS"@,
        Format::R32G32B32Float => "R32G32B32_FLOAT"@,
        Format::R32G32B32Uint => "R32G32B32_UINT"@,
        Format::R32G32B32Sint => "R32G32B32_SINT"@,
        Format::R16G16B16A16Typeless => "R16G16B16A16_TYPELESS"@,
        Format::R16G16B16A16Float => "R16G16B16A16_FLOAT"@,
        Format::R16G16B16A16Unorm => "R16G16B16A16_UNORM"@,
        Format::R16G16B16A16Uint => "R16G16B16A16_UINT"@,
        Format::R16G16B16A16Snorm => "R16G16B16A16_SNORM"@,
        Format::R16G16B16A16Sint => "R16G16B16A16_SINT"@,
        Format::R32G32Typeless => "R32G32_TYPELESS"@,
        Format::R32G32Float => "R32G32_FLOAT"@,
        Format::R32G32Uint => "R32G32_UINT"@,
        Format::R32G32Sint => "R32G32_SINT"@,
        Format::R32G8X24Typeless => "R32G8X24_TYPELESS"@,
        Format::D32FloatS8X24Uint => "D32_FLOAT_S8X24_UINT"@,
        Format::R32FloatX8X24Typeless => "R32_FLOAT_X8X24_TYPELESS"@,
        Format::X32TypelessG8X24Uint => "X32_TYPELESS_G8X24_UINT"@,
        Format::R10G10B10A2Typeless => "R10G10B10A2_TYPELESS"@,
        Format::R10G10B10A2Unorm => "R10G10B10A2_UNORM"@,
        Format::R10G10B10A2Uint => "R10G10B10A2_UINT"@,
        Format::R11G11B10Float => "R11G11B10_FLOAT"@,
        Format::R8G8B8A8Typeless => "R8G8B8A8_TYPELESS"@,
        Format::R8G8B8A8Unorm => "R8G8B8A8_UNORM"@,
        Format::R8G8B8A8UnormSrgb => "R8G8B8A8_UNORM_SRGB"@,
        Format::R8G8B8A8Uint => "R8G8B8A8_UINT"@,
        Format::R8G8B8A8Snorm => "R8G8B8A8_SNORM"@,
        Format::R8G8B8A8Sint => "R8G8B8A8_SINT"@,
        Format::R16G16Typeless => "R16G16_TYPELESS"@,
        Format::R16G16Float => "R16G16_FLOAT"@,
        Format::R16G16Unorm => "R16G16_UNORM"@,
        Format::R16G16Uint => "R16G16_UINT"@,
        Format::R16G16Snorm => "R16G16_SNORM"@,
        Format::R16G16Sint => "R16G16_SINT"@,
        Format::R32Typeless => "R32_TYPELESS"@,
        Format::D32Float => "D32_FLOAT"@,
        Format::R32Float => "R32_FLOAT"@,
        Format::R32Uint => "R32_UINT"@,
        Format::R32Sint => "R32_SINT"@,
        Format::R24G8Typeless => "R24G8_TYPELESS"@,
        Format::D24UnormS8Uint => "D24_UNORM_S8_UINT"@,
        Format::R24UnormX8Typeless => "R24_UNORM_X8_TYPELESS"@,
        Format::X24TypelessG8Uint => "X24_TYPELESS_G8_UINT"@,
        Format::R8G8Typeless => "R8G8_TYPELESS"@,
        Format::R8G8Unorm => "R8G8_UNORM"@,
        Format::R8G8Uint => "R8G8_UINT"@,
        Format::R8G8Snorm => "R8G8_SNORM"@,
        Format::R8G8Sint => "R8G8_SINT"@,
        Format::R16Typeless => "R16_TYPELESS"@,
        Format::R16Float => "R16_FLOAT"@,
        Format::D16Unorm => "D16_UNORM"@,
        Format::R16Unorm => "R16_UNORM"@,
        Format::R16Uint => "R16_UINT"@,
        Format::R16Snorm => "R16_SNORM"@,
        Format::R16Sint => "R16_SINT"@,
        Format::R8Typeless => "R8_TYPELESS"@,
        Format::R8Unorm => "R8_UNORM"@,
        Format::R8Uint => "R8_UINT"@,
        Format::R8Snorm => "R8_SNORM"@,
        Format::R8Sint => "R8_SINT"@,
        Format::A8Unorm => "A8_UNORM"@,
        Format::R1Unorm => "R1_UNORM"@,
        Format::R9G9B9E5Sharedexp => "R9G9B9E5_SHAREDEXP"@,
        Format::R8G8B8G8Unorm => "R8G8_B8G8_UNORM"@,
        Format::G8R8G8B8Unorm => "G8R8_G8B8_UNORM"@,
        Format::BC1Typeless => "BC1_TYPELESS"@,
        Format::BC1Unorm => "BC1_UNORM"@,
        Format::BC1UnormSrgb => "BC1_UNORM_SRGB"@,
        Format::BC2Typeless => "BC2_TYPELESS"@,
        Format::BC2Unorm => "BC2_UNORM"@,
        Format::BC2UnormSrgb => "BC2_UNORM_SRGB"@,
        Format::BC3Typeless => "BC3_TYPELESS"@,
        Format::BC3Unorm => "BC3_UNORM"@,
        Format::BC3UnormSrgb => "BC3_UNORM_SRGB"@,
        Format::BC4Typeless => "BC4_TYPELESS"@,
        Format::BC4Unorm => "BC4_UNORM"@,
        Format::BC4Snorm => "BC4_SNORM"@,
        Format::BC5Typeless => "BC5_TYPELESS"@,
        Format::BC5Unorm => "BC5_UNORM"@,
        Format::BC5Snorm => "BC5_SNORM"@,
        Format::B5G6R5Unorm => "B5G6R5_UNORM"@,
        Format::B5G5R5A1Unorm => "B5G5R5A1_UNORM"@,
        Format::B8G8R8A8Unorm => "B8G8R8A8_UNORM"@,
        Format::B8G8R8X8Unorm => "B8G8R8X8_UNORM"@,
        Format::R10G10B10XrBiasA2Unorm => "R10G10B10_XR_BIAS_A2_UNORM"@,
        Format::B8G8R8A8Typeless => "B8G8R8A8_TYPELESS"@,
        Format::B8G8R8A8UnormSrgb => "B8G8R8A8_UNORM_SRGB"@,
        Format::B8G8R8X8Typeless => "B8G8R8X8_TYPELESS"@,
        Format::B8G8R8X8UnormSrgb => "B8G8R8X8_UNORM_SRGB"@,
        Format::BC6HTypeless => "BC6H_TYPELESS"@,
        Format::BC6HUF16 => "BC6H_UF16"@,
        Format::BC6HSF16 => "BC6H_SF16"@,
        Format::BC7Typeless => "BC7_TYPELESS"@,
        Format::BC7Unorm => "BC7_UNORM"@,
        Format::BC7UnormSrgb => "BC7_UNORM_SRGB"@,
        Format::AYUV => "AYUV"@,
        Format::Y410 => "Y410"@,
        Format::Y416 => "Y416"@,
        Format::NV12 => "NV12"@,
        Format::P010 => "P010"@,
        Format::P016 => "P016"@,
        Format::Opaque420 => "420_OPAQUE"@,
        Format::YUY2 => "YUY2"@,
        Format::Y210 => "Y210"@,
        Format::Y216 => "Y216"@,
        Format::NV11 => "NV11"@,
        Format::AI44 => "AI44"@,
        Format::IA44 => "IA44"@,
        Format::P8 => "P8"@,
        Format::A8P8 => "A8P8"@,
        Format::B4G4R4A4Unorm => "B4G4R4A4_UNORM"@,
    }
}

impl Format {
    /// Returns whether a format is block compressed.
    pub fn is_block_compressed(self) -> (r: bool)
        ensures
            r == format_is_block_compressed(self),
    {
        match self {
            Format::BC1Typeless
            | Format::BC1Unorm
            | Format::BC1UnormSrgb
            | Format::BC2Typeless
            | Format::BC2Unorm
            | Format::BC2UnormSrgb
            | Format::BC3Typeless
            | Format::BC3Unorm
            | Format::BC3UnormSrgb
            | Format::BC4Typeless
            | Format::BC4Unorm
            | Format::BC4Snorm
            | Format::BC5Typeless
            | Format::BC5Unorm
            | Format::BC5Snorm
            | Format::BC6HTypeless
            | Format::BC6HUF16
            | Format::BC6HSF16
            | Format::BC7Typeless
            | Format::BC7Unorm
            | Format::BC7UnormSrgb => true,
            _ => false,
        }
    }

    /// Returns whether a format has a depth or a stencil component.
    pub fn has_depth_stencil(self) -> (r: bool)
        ensures
            r == (format_has_depth(self) || format_has_stencil(self)),
    {
        self.has_depth() || self.has_stencil()
    }

    /// Returns whether a format has a depth component.
    pub fn has_depth(self) -> (r: bool)
        ensures
            r == format_has_depth(self),
    {
        match self {
            Format::D32FloatS8X24Uint
            | Format::D32Float
            | Format::D24UnormS8Uint
            | Format::D16Unorm => true,
            _ => false,
        }
    }

    /// Returns whether a format has a stencil component.
    pub fn has_stencil(self) -> (r: bool)
        ensures
            r == format_has_stencil(self),
    {
        match self {
            Format::D32FloatS8X24Uint
            | Format::D24UnormS8Uint => true,
            _ => false,
        }
    }

    /// Returns whether a format has only a depth component and no stencil component.
    pub fn is_depth_only(self) -> (r: bool)
        ensures
            r == (format_has_depth(self) && !format_has_stencil(self)),
    {
        self.has_depth() && !self.has_stencil()
    }

    /// Returns the single element byte size for a format.
    /// 
    /// For most formats one element is one pixel. For a block compressed format
    /// the byte size of one block is returned instead, and 0 if the format does
    /// not support element wise usage.
    pub fn element_bytes(self) -> (r: u32)
        ensures
            r == format_element_bytes(self),
    {
        match self {
            Format::R32G32B32A32Typeless
            | Format::R32G32B32A32Float
            | Format::R32G32B32A32Uint
            | Format::R32G32B32A32Sint
            | Format::BC2Typeless
            | Format::BC2Unorm
            | Format::BC2UnormSrgb
            | Format::BC3Typeless
            | Format::BC3Unorm
            | Format::BC3UnormSrgb
            | Format::BC5Typeless
            | Format::BC5Unorm
            | Format::BC5Snorm
            | Format::BC6HTypeless
            | Format::BC6HUF16
            | Format::BC6HSF16
            | Format::BC7Typeless
            | Format::BC7Unorm
            | Format::BC7UnormSrgb => 16,
            Format::R32G32B32Typeless
            | Format::R32G32B32Float
            | Format::R32G32B32Uint
            | Format::R32G32B32Sint => 12,
            Format::R16G16B16A16Typeless
            | Format::R16G16B16A16Float
            | Format::R16G16B16A16Unorm
            | Format::R16G16B16A16Uint
            | Format::R16G16B16A16Snorm
            | Format::R16G16B16A16Sint
            | Format::R32G32Typeless
            | Format::R32G32Float
            | Format::R32G32Uint
            | Format::R32G32Sint
            | Format::R32G8X24Typeless
            | Format::D32FloatS8X24Uint
            | Format::R32FloatX8X24Typeless
            | Format::X32TypelessG8X24Uint
            | Format::BC1Typeless
            | Format::BC1Unorm
            | Format::BC1UnormSrgb
            | Format::BC4Typeless
            | Format::BC4Unorm
            | Format::BC4Snorm
            | Format::Y416
            | Format::Y210
            | Format::Y216 => 8,
            Format::R10G10B10A2Typeless
            | Format::R10G10B10A2Unorm
            | Format::R10G10B10A2Uint
            | Format::R11G11B10Float
            | Format::R8G8B8A8Typeless
            | Format::R8G8B8A8Unorm
            | Format::R8G8B8A8UnormSrgb
            | Format::R8G8B8A8Uint
            | Format::R8G8B8A8Snorm
            | Format::R8G8B8A8Sint
            | Format::R16G16Typeless
            | Format::R16G16Float
            | Format::R16G16Unorm
            | Format::R16G16Uint
            | Format::R16G16Snorm
            | Format::R16G16Sint
            | Format::R32Typeless
            | Format::D32Float
            | Format::R32Float
            | Format::R32Uint
            | Format::R32Sint
            | Format::R24G8Typeless
            | Format::D24UnormS8Uint
            | Format::R24UnormX8Typeless
            | Format::X24TypelessG8Uint
            | Format::R9G9B9E5Sharedexp
            | Format::R8G8B8G8Unorm
            | Format::G8R8G8B8Unorm
            | Format::B8G8R8A8Unorm
            | Format::B8G8R8X8Unorm
            | Format::R10G10B10XrBiasA2Unorm
            | Format::B8G8R8A8Typeless
            | Format::B8G8R8A8UnormSrgb
            | Format::B8G8R8X8Typeless
            | Format::B8G8R8X8UnormSrgb
            | Format::AYUV
            | Format::Y410
            | Format::YUY2 => 4,
            Format::R8G8Typeless
            | Format::R8G8Unorm
            | Format::R8G8Uint
            | Format::R8G8Snorm
            | Format::R8G8Sint
            | Format::R16Typeless
            | Format::R16Float
            | Format::D16Unorm
            | Format::R16Unorm
            | Format::R16Uint
            | Format::R16Snorm
            | Format::R16Sint
            | Format::B5G6R5Unorm
            | Format::B5G5R5A1Unorm
            | Format::A8P8
            | Format::B4G4R4A4Unorm => 2,
            Format::R8Typeless
            | Format::R8Unorm
            | Format::R8Uint
            | Format::R8Snorm
            | Format::R8Sint
            | Format::A8Unorm
            | Format::AI44
            | Format::IA44
            | Format::P8 => 1,
            _ => 0,
        }
    }

    /// The position of the format in the list of formats.
    pub fn index(self) -> (r: u32)
        ensures
            r == format_index(self),
            r < FORMAT_COUNT,
    {
        match self {
            Format::Unknown => 0,
            Format::R32G32B32A32Typeless => 1,
            Format::R32G32B32A32Float => 2,
            Format::R32G32B32A32Uint => 3,
            Format::R32G32B32A32Sint => 4,
            Format::R32G32B32Typeless => 5,
            Format::R32G32B32Float => 6,
            Format::R32G32B32Uint => 7,
            Format::R32G32B32Sint => 8,
            Format::R16G16B16A16Typeless => 9,
            Format::R16G16B16A16Float => 10,
            Format::R16G16B16A16Unorm => 11,
            Format::R16G16B16A16Uint => 12,
            Format::R16G16B16A16Snorm => 13,
            Format::R16G16B16A16Sint => 14,
            Format::R32G32Typeless => 15,
            Format::R32G32Float => 16,
            Format::R32G32Uint => 17,
            Format::R32G32Sint => 18,
            Format::R32G8X24Typeless => 19,
            Format::D32FloatS8X24Uint => 20,
            Format::R32FloatX8X24Typeless => 21,
            Format::X32TypelessG8X24Uint => 22,
            Format::R10G10B10A2Typeless => 23,
            Format::R10G10B10A2Unorm => 24,
            Format::R10G10B10A2Uint => 25,
            Format::R11G11B10Float => 26,
            Format::R8G8B8A8Typeless => 27,
            Format::R8G8B8A8Unorm => 28,
            Format::R8G8B8A8UnormSrgb => 29,
            Format::R8G8B8A8Uint => 30,
            Format::R8G8B8A8Snorm => 31,
            Format::R8G8B8A8Sint => 32,
            Format::R16G16Typeless => 33,
            Format::R16G16Float => 34,
            Format::R16G16Unorm => 35,
            Format::R16G16Uint => 36,
            Format::R16G16Snorm => 37,
            Format::R16G16Sint => 38,
            Format::R32Typeless => 39,
            Format::D32Float => 40,
            Format::R32Float => 41,
            Format::R32Uint => 42,
            Format::R32Sint => 43,
            Format::R24G8Typeless => 44,
            Format::D24UnormS8Uint => 45,
            Format::R24UnormX8Typeless => 46,
            Format::X24TypelessG8Uint => 47,
            Format::R8G8Typeless => 48,
            Format::R8G8Unorm => 49,
            Format::R8G8Uint => 50,
            Format::R8G8Snorm => 51,
            Format::R8G8Sint => 52,
            Format::R16Typeless => 53,
            Format::R16Float => 54,
            Format::D16Unorm => 55,
            Format::R16Unorm => 56,
            Format::R16Uint => 57,
            Format::R16Snorm => 58,
            Format::R16Sint => 59,
            Format::R8Typeless => 60,
            Format::R8Unorm => 61,
            Format::R8Uint => 62,
            Format::R8Snorm => 63,
            Format::R8Sint => 64,
            Format::A8Unorm => 65,
            Format::R1Unorm => 66,
            Format::R9G9B9E5Sharedexp => 67,
            Format::R8G8B8G8Unorm => 68,
            Format::G8R8G8B8Unorm => 69,
            Format::BC1Typeless => 70,
            Format::BC1Unorm => 71,
            Format::BC1UnormSrgb => 72,
            Format::BC2Typeless => 73,
            Format::BC2Unorm => 74,
            Format::BC2UnormSrgb => 75,
            Format::BC3Typeless => 76,
            Format::BC3Unorm => 77,
            Format::BC3UnormSrgb => 78,
            Format::BC4Typeless => 79,
            Format::BC4Unorm => 80,
            Format::BC4Snorm => 81,
            Format::BC5Typeless => 82,
            Format::BC5Unorm => 83,
            Format::BC5Snorm => 84,
            Format::B5G6R5Unorm => 85,
            Format::B5G5R5A1Unorm => 86,
            Format::B8G8R8A8Unorm => 87,
            Format::B8G8R8X8Unorm => 88,
            Format::R10G10B10XrBiasA2Unorm => 89,
            Format::B8G8R8A8Typeless => 90,
            Format::B8G8R8A8UnormSrgb => 91,
            Format::B8G8R8X8Typeless => 92,
            Format::B8G8R8X8UnormSrgb => 93,
            Format::BC6HTypeless => 94,
            Format::BC6HUF16 => 95,
            Format::BC6HSF16 => 96,
            Format::BC7Typeless => 97,
            Format::BC7Unorm => 98,
            Format::BC7UnormSrgb => 99,
            Format::AYUV => 100,
            Format::Y410 => 101,
            Format::Y416 => 102,
            Format::NV12 => 103,
            Format::P010 => 104,
            Format::P016 => 105,
            Format::Opaque420 => 106,
            Format::YUY2 => 107,
            Format::Y210 => 108,
            Format::Y216 => 109,
            Format::NV11 => 110,
            Format::AI44 => 111,
            Format::IA44 => 112,
            Format::P8 => 113,
            Format::A8P8 => 114,
            Format::B4G4R4A4Unorm => 115,
        }
    }

    /// The format at the given position of the list; an unknown position
    /// yields the unknown format.
    pub fn from_index(index: u32) -> (r: Format)
        ensures
            index < FORMAT_COUNT ==> format_index(r) == index,
            index >= FORMAT_COUNT ==> r == Format::Unknown,
    {
        match index {
            0 => Format::Unknown,
            1 => Format::R32G32B32A32Typeless,
            2 => Format::R32G32B32A32Float,
            3 => Format::R32G32B32A32Uint,
            4 => Format::R32G32B32A32Sint,
            5 => Format::R32G32B32Typeless,
            6 => Format::R32G32B32Float,
            7 => Format::R32G32B32Uint,
            8 => Format::R32G32B32Sint,
            9 => Format::R16G16B16A16Typeless,
            10 => Format::R16G16B16A16Float,
            11 => Format::R16G16B16A16Unorm,
            12 => Format::R16G16B16A16Uint,
            13 => Format::R16G16B16A16Snorm,
            14 => Format::R16G16B16A16Sint,
            15 => Format::R32G32Typeless,
            16 => Format::R32G32Float,
            17 => Format::R32G32Uint,
            18 => Format::R32G32Sint,
            19 => Format::R32G8X24Typeless,
            20 => Format::D32FloatS8X24Uint,
            21 => Format::R32FloatX8X24Typeless,
            22 => Format::X32TypelessG8X24Uint,
            23 => Format::R10G10B10A2Typeless,
            24 => Format::R10G10B10A2Unorm,
            25 => Format::R10G10B10A2Uint,
            26 => Format::R11G11B10Float,
            27 => Format::R8G8B8A8Typeless,
            28 => Format::R8G8B8A8Unorm,
            29 => Format::R8G8B8A8UnormSrgb,
            30 => Format::R8G8B8A8Uint,
            31 => Format::R8G8B8A8Snorm,
            32 => Format::R8G8B8A8Sint,
            33 => Format::R16G16Typeless,
            34 => Format::R16G16Float,
            35 => Format::R16G16Unorm,
            36 => Format::R16G16Uint,
            37 => Format::R16G16Snorm,
            38 => Format::R16G16Sint,
            39 => Format::R32Typeless,
            40 => Format::D32Float,
            41 => Format::R32Float,
            42 => Format::R32Uint,
            43 => Format::R32Sint,
            44 => Format::R24G8Typeless,
            45 => Format::D24UnormS8Uint,
            46 => Format::R24UnormX8Typeless,
            47 => Format::X24TypelessG8Uint,
            48 => Format::R8G8Typeless,
            49 => Format::R8G8Unorm,
            50 => Format::R8G8Uint,
            51 => Format::R8G8Snorm,
            52 => Format::R8G8Sint,
            53 => Format::R16Typeless,
            54 => Format::R16Float,
            55 => Format::D16Unorm,
            56 => Format::R16Unorm,
            57 => Format::R16Uint,
            58 => Format::R16Snorm,
            59 => Format::R16Sint,
            60 => Format::R8Typeless,
            61 => Format::R8Unorm,
            62 => Format::R8Uint,
            63 => Format::R8Snorm,
            64 => Format::R8Sint,
            65 => Format::A8Unorm,
            66 => Format::R1Unorm,
            67 => Format::R9G9B9E5Sharedexp,
            68 => Format::R8G8B8G8Unorm,
            69 => Format::G8R8G8B8Unorm,
            70 => Format::BC1Typeless,
            71 => Format::BC1Unorm,
            72 => Format::BC1UnormSrgb,
            73 => Format::BC2Typeless,
            74 => Format::BC2Unorm,
            75 => Format::BC2UnormSrgb,
            76 => Format::BC3Typeless,
            77 => Format::BC3Unorm,
            78 => Format::BC3UnormSrgb,
            79 => Format::BC4Typeless,
            80 => Format::BC4Unorm,
            81 => Format::BC4Snorm,
            82 => Format::BC5Typeless,
            83 => Format::BC5Unorm,
            84 => Format::BC5Snorm,
            85 => Format::B5G6R5Unorm,
            86 => Format::B5G5R5A1Unorm,
            87 => Format::B8G8R8A8Unorm,
            88 => Format::B8G8R8X8Unorm,
            89 => Format::R10G10B10XrBiasA2Unorm,
            90 => Format::B8G8R8A8Typeless,
            91 => Format::B8G8R8A8UnormSrgb,
            92 => Format::B8G8R8X8Typeless,
            93 => Format::B8G8R8X8UnormSrgb,
            94 => Format::BC6HTypeless,
            95 => Format::BC6HUF16,
            96 => Format::BC6HSF16,
            97 => Format::BC7Typeless,
            98 => Format::BC7Unorm,
            99 => Format::BC7UnormSrgb,
            100 => Format::AYUV,
            101 => Format::Y410,
            102 => Format::Y416,
            103 => Format::NV12,
            104 => Format::P010,
            105 => Format::P016,
            106 => Format::Opaque420,
            107 => Format::YUY2,
            108 => Format::Y210,
            109 => Format::Y216,
            110 => Format::NV11,
            111 => Format::AI44,
            112 => Format::IA44,
            113 => Format::P8,
            114 => Format::A8P8,
            115 => Format::B4G4R4A4Unorm,
            _ => Format::Unknown,
        }
    }

    /// The name of the format.
    pub fn name(self) -> (r: &'static str)
        ensures
            r@ == format_name(self),
    {
        match self {
            Format::Unknown => "UNKNOWN",
            Format::R32G32B32A32Typeless => "R32G32B32A32_TYPELESS",
            Format::R32G32B32A32Float => "R32G32B32A32_FLOAT",
            Format::R32G32B32A32Uint => "R32G32B32A32_UINT",
            Format::R32G32B32A32Sint => "R32G32B32A32_SINT",
            Format::R32G32B32Typeless => "R32G32B32_TYPELESS",
            Format::R32G32B32Float => "R32G32B32_FLOAT",
            Format::R32G32B32Uint => "R32G32B32_UINT",
            Format::R32G32B32Sint => "R32G32B32_SINT",
            Format::R16G16B16A16Typeless => "R16G16B16A16_TYPELESS",
            Format::R16G16B16A16Float => "R16G16B16A16_FLOAT",
            Format::R16G16B16A16Unorm => "R16G16B16A16_UNORM",
            Format::R16G16B16A16Uint => "R16G16B16A16_UINT",
            Format::R16G16B16A16Snorm => "R16G16B16A16_SNORM",
            Format::R16G16B16A16Sint => "R16G16B16A16_SINT",
            Format::R32G32Typeless => "R32G32_TYPELESS",
            Format::R32G32Float => "R32G32_FLOAT",
            Format::R32G32Uint => "R32G32_UINT",
            Format::R32G32Sint => "R32G32_SINT",
            Format::R32G8X24Typeless => "R32G8X24_TYPELESS",
            Format::D32FloatS8X24Uint => "D32_FLOAT_S8X24_UINT",
            Format::R32FloatX8X24Typeless => "R32_FLOAT_X8X24_TYPELESS",
            Format::X32TypelessG8X24Uint => "X32_TYPELESS_G8X24_UINT",
            Format::R10G10B10A2Typeless => "R10G10B10A2_TYPELESS",
            Format::R10G10B10A2Unorm => "R10G10B10A2_UNORM",
            Format::R10G10B10A2Uint => "R10G10B10A2_UINT",
            Format::R11G11B10Float => "R11G11B10_FLOAT",
            Format::R8G8B8A8Typeless => "R8G8B8A8_TYPELESS",
            Format::R8G8B8A8Unorm => "R8G8B8A8_UNORM",
            Format::R8G8B8A8UnormSrgb => "R8G8B8A8_UNORM_SRGB",
            Format::R8G8B8A8Uint => "R8G8B8A8_UINT",
            Format::R8G8B8A8Snorm => "R8G8B8A8_SNORM",
            Format::R8G8B8A8Sint => "R8G8B8A8_SINT",
            Format::R16G16Typeless => "R16G16_TYPELESS",
            Format::R16G16Float => "R16G16_FLOAT",
            Format::R16G16Unorm => "R16G16_UNORM",
            Format::R16G16Uint => "R16G16_UINT",
            Format::R16G16Snorm => "R16G16_SNORM",
            Format::R16G16Sint => "R16G16_SINT",
            Format::R32Typeless => "R32_TYPELESS",
            Format::D32Float => "D32_FLOAT",
            Format::R32Float => "R32_FLOAT",
            Format::R32Uint => "R32_UINT",
            Format::R32Sint => "R32_SINT",
            Format::R24G8Typeless => "R24G8_TYPELESS",
            Format::D24UnormS8Uint => "D24_UNORM_S8_UINT",
            Format::R24UnormX8Typeless => "R24_UNORM_X8_TYPELESS",
            Format::X24TypelessG8Uint => "X24_TYPELESS_G8_UINT",
            Format::R8G8Typeless => "R8G8_TYPELESS",
            Format::R8G8Unorm => "R8G8_UNORM",
            Format::R8G8Uint => "R8G8_UINT",
            Format::R8G8Snorm => "R8G8_SNORM",
            Format::R8G8Sint => "R8G8_SINT",
            Format::R16Typeless => "R16_TYPELESS",
            Format::R16Float => "R16_FLOAT",
            Format::D16Unorm => "D16_UNORM",
            Format::R16Unorm => "R16_UNORM",
            Format::R16Uint => "R16_UINT",
            Format::R16Snorm => "R16_SNORM",
            Format::R16Sint => "R16_SINT",
            Format::R8Typeless => "R8_TYPELESS",
            Format::R8Unorm => "R8_UNORM",
            Format::R8Uint => "R8_UINT",
            Format::R8Snorm => "R8_SNORM",
            Format::R8Sint => "R8_SINT",
            Format::A8Unorm => "A8_UNORM",
            Format::R1Unorm => "R1_UNORM",
            Format::R9G9B9E5Sharedexp => "R9G9B9E5_SHAREDEXP",
            Format::R8G8B8G8Unorm => "R8G8_B8G8_UNORM",
            Format::G8R8G8B8Unorm => "G8R8_G8B8_UNORM",
            Format::BC1Typeless => "BC1_TYPELESS",
            Format::BC1Unorm => "BC1_UNORM",
            Format::BC1UnormSrgb => "BC1_UNORM_SRGB",
            Format::BC2Typeless => "BC2_TYPELESS",
            Format::BC2Unorm => "BC2_UNORM",
            Format::BC2UnormSrgb => "BC2_UNORM_SRGB",
            Format::BC3Typeless => "BC3_TYPELESS",
            Format::BC3Unorm => "BC3_UNORM",
            Format::BC3UnormSrgb => "BC3_UNORM_SRGB",
            Format::BC4Typeless => "BC4_TYPELESS",
            Format::BC4Unorm => "BC4_UNORM",
            Format::BC4Snorm => "BC4_SNORM",
            Format::BC5Typeless => "BC5_TYPELESS",
            Format::BC5Unorm => "BC5_UNORM",
            Format::BC5Snorm => "BC5_SNORM",
            Format::B5G6R5Unorm => "B5G6R5_UNORM",
            Format::B5G5R5A1Unorm => "B5G5R5A1_UNORM",
            Format::B8G8R8A8Unorm => "B8G8R8A8_UNORM",
            Format::B8G8R8X8Unorm => "B8G8R8X8_UNORM",
            Format::R10G10B10XrBiasA2Unorm => "R10G10B10_XR_BIAS_A2_UNORM",
            Format::B8G8R8A8Typeless => "B8G8R8A8_TYPELESS",
            Format::B8G8R8A8UnormSrgb => "B8G8R8A8_UNORM_SRGB",
            Format::B8G8R8X8Typeless => "B8G8R8X8_TYPELESS",
            Format::B8G8R8X8UnormSrgb => "B8G8R8X8_UNORM_SRGB",
            Format::BC6HTypeless => "BC6H_TYPELESS",
            Format::BC6HUF16 => "BC6H_UF16",
            Format::BC6HSF16 => "BC6H_SF16",
            Format::BC7Typeless => "BC7_TYPELESS",
            Format::BC7Unorm => "BC7_UNORM",
            Format::BC7UnormSrgb => "BC7_UNORM_SRGB",
            Format::AYUV => "AYUV",
            Format::Y410 => "Y410",
            Format::Y416 => "Y416",
            Format::NV12 => "NV12",
            Format::P010 => "P010",
            Format::P016 => "P016",
            Format::Opaque420 => "420_OPAQUE",
            Format::YUY2 => "YUY2",
            Format::Y210 => "Y210",
            Format::Y216 => "Y216",
            Format::NV11 => "NV11",
            Format::AI44 => "AI44",
            Format::IA44 => "IA44",
            Format::P8 => "P8",
            Format::A8P8 => "A8P8",
            Format::B4G4R4A4Unorm => "B4G4R4A4_UNORM",
        }
    }
}

/// A format that is only depth has no stencil, a format with depth or
/// stencil is not block compressed, and the unknown format has no property
/// at all.
pub proof fn lemma_format_table(f: Format)
    ensures
        format_has_stencil(f) ==> format_has_depth(f),
        format_has_depth(f) ==> !format_is_block_compressed(f),
        format_is_block_compressed(f) ==> format_element_bytes(f) == 8 || format_element_bytes(f) == 16,
        format_element_bytes(f) <= 16,
        f == Format::Unknown ==> format_element_bytes(f) == 0 && !format_is_block_compressed(f)
            && !format_has_depth(f) && !format_has_stencil(f),
{
}

} // verus!
