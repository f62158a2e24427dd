use vstd::prelude::*;

verus! {

/// Pixel formats a host texture descriptor can carry. Only a small subset can
/// be decoded into the planar color model; the rest are recognised so that
/// sizing questions can still be answered for them, or rejected outright.
#[derive(Clone, Copy, Debug, PartialEq, Eq, Structural)]
pub enum PixelFormat {
    BGRA8Fixed,
    RGBA8Fixed,
    RGBA16Fixed,
    RGBA16Float,
    RGBA32Float,
    RG8Fixed,
    RG16Fixed,
    RG16Float,
    RG32Float,
    A8Fixed,
    A16Fixed,
    A16Float,
    A32Float,
    RGB10A2Fixed,
    RGB11Float,
    Mono8Fixed,
    Mono16Fixed,
    Mono16Float,
    Mono32Float,
    Invalid,
}

/// Bytes occupied by one pixel of the format, for the formats whose layout
/// the library knows; `None` for the rest.
pub open spec fn spec_pixel_size_bytes(format: PixelFormat) -> Option<u8> {
    match format {
        PixelFormat::BGRA8Fixed => Some(4u8),
        PixelFormat::RGBA8Fixed => Some(4u8),
        PixelFormat::RGBA16Fixed => Some(8u8),
        PixelFormat::RGBA16Float => Some(8u8),
        PixelFormat::RGBA32Float => Some(16u8),
        PixelFormat::RG8Fixed => Some(2u8),
        PixelFormat::RG16Fixed => Some(4u8),
        PixelFormat::RG16Float => Some(4u8),
        PixelFormat::RG32Float => Some(8u8),
        PixelFormat::A8Fixed => Some(1u8),
        PixelFormat::A16Fixed => Some(2u8),
        PixelFormat::A16Float => Some(2u8),
        PixelFormat::A32Float => Some(4u8),
        PixelFormat::RGB10A2Fixed => Some(4u8),
        PixelFormat::RGB11Float => Some(4u8),
        _ => None,
    }
}

/// Per-pixel byte size used when allocating an upload buffer for `format`.
pub fn get_pixel_size_bytes(format: &PixelFormat) -> (r: Option<u8>)
    ensures
        r == spec_pixel_size_bytes(*format),
{
    match format {
        PixelFormat::BGRA8Fixed => Some(4),
        PixelFormat::RGBA8Fixed => Some(4),
        PixelFormat::RGBA16Fixed => Some(8),
        PixelFormat::RGBA16Float => Some(8),
        PixelFormat::RGBA32Float => Some(16),
        PixelFormat::RG8Fixed => Some(2),
        PixelFormat::RG16Fixed => Some(4),
        PixelFormat::RG16Float => Some(4),
        PixelFormat::RG32Float => Some(8),
        PixelFormat::A8Fixed => Some(1),
        PixelFormat::A16Fixed => Some(2),
        PixelFormat::A16Float => Some(2),
        PixelFormat::A32Float => Some(4),
        PixelFormat::RGB10A2Fixed => Some(4),
        PixelFormat::RGB11Float => Some(4),
        _ => None,
    }
}

/// How to read one pixel of a decodable format: the width in bytes of each of
/// the four components, and whether the red and blue components are stored
/// swapped. A format without a strategy cannot be decoded.
#[derive(Clone, Copy, Debug, PartialEq, Eq, Structural)]
pub struct DecodeStrategy {
    pub component_bytes: usize,
    pub swap_red_blue: bool,
}

/// The registry of decodable formats: four-component formats with fixed 8- or
/// 16-bit or 32-bit components. Everything else is unsupported and decodes to
/// nothing.
pub open spec fn spec_decode_strategy(format: PixelFormat) -> Option<DecodeStrategy> {
    match format {
        PixelFormat::RGBA8Fixed => Some(DecodeStrategy { component_bytes: 1usize, swap_red_blue: false }),
        PixelFormat::BGRA8Fixed => Some(DecodeStrategy { component_bytes: 1usize, swap_red_blue: true }),
        PixelFormat::RGBA16Fixed => Some(DecodeStrategy { component_bytes: 2usize, swap_red_blue: false }),
        PixelFormat::RGBA32Float => Some(DecodeStrategy { component_bytes: 4usize, swap_red_blue: false }),
        _ => None,
    }
}

/// Look up the decode strategy for `format`; `None` marks an unsupported format.
pub fn decode_strategy(format: &PixelFormat) -> (r: Option<DecodeStrategy>)
    ensures
        r == spec_decode_strategy(*format),
{
    match format {
        PixelFormat::RGBA8Fixed => Some(DecodeStrategy { component_bytes: 1, swap_red_blue: false }),
        PixelFormat::BGRA8Fixed => Some(DecodeStrategy { component_bytes: 1, swap_red_blue: true }),
        PixelFormat::RGBA16Fixed => Some(DecodeStrategy { component_bytes: 2, swap_red_blue: false }),
        PixelFormat::RGBA32Float => Some(DecodeStrategy { component_bytes: 4, swap_red_blue: false }),
        _ => None,
    }
}

/// A host-owned raw pixel buffer, downloaded once per cook and consumed by the
/// decoder. `row_stride` is in bytes and may exceed `width` times the pixel
/// size when the host pads its rows.
#[derive(Clone, Debug)]
pub struct PixelBuffer {
    pub data: Vec<u8>,
    pub width: usize,
    pub height: usize,
    pub row_stride: usize,
    pub format: PixelFormat,
}

} // verus!
