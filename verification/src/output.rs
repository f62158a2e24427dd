use vstd::prelude::*;
use crate::encode::{rgb_words_to_bytes, RgbBuffer};

verus! {

/// RGBA bytes of a row-major interleaved RGB byte image: each pixel keeps its
/// three channels and gains an opaque alpha of 255.
pub open spec fn spec_rgba_of(rgb: Seq<u8>) -> Seq<u8> {
    Seq::new(
        rgb.len() / 3 * 4,
        |i: int|
            if i % 4 == 3 {
                255u8
            } else {
                rgb[i / 4 * 3 + i % 4]
            },
    )
}

/// The byte each sample word quantizes to.
pub open spec fn spec_word_bytes(words: Seq<u32>) -> Seq<u8> {
    words.map_values(|w: u32| w as u8)
}

/// Relies on image's `DynamicImage::into_rgba8` on an 8-bit RGB image: the
/// conversion keeps each pixel's three channels and appends an opaque alpha
/// of 255 (the channel type's maximum).
#[verifier::external_body]
fn expand_rgb_image(data: Vec<u8>, width: u32, height: u32) -> (r: Vec<u8>)
    requires
        data@.len() == 3 * width * height,
    ensures
        r@ == spec_rgba_of(data@),
{
    let img = image::RgbImage::from_raw(width, height, data).expect("buffer sized for dimensions");
    image::DynamicImage::ImageRgb8(img).into_rgba8().into_raw()
}

/// Quantize an encoded image to interleaved RGBA bytes, the layout the host
/// uploads. Succeeds exactly when every sample word already fits one byte and
/// the dimensions fit the image container's limits.
pub fn to_rgba_bytes(rgb: &RgbBuffer) -> (r: Option<Vec<u8>>)
    requires
        rgb.wf(),
    ensures
        match r {
            Some(bytes) => {
                &&& forall|i: int| 0 <= i < rgb.data@.len() ==> #[trigger] rgb.data@[i] <= 255
                &&& rgb.width <= u32::MAX
                &&& rgb.height <= u32::MAX
                &&& bytes@ == spec_rgba_of(spec_word_bytes(rgb.data@))
            },
            None => (exists|i: int| 0 <= i < rgb.data@.len() && #[trigger] rgb.data@[i] > 255)
                || rgb.width > u32::MAX || rgb.height > u32::MAX,
        },
{
    if rgb.width > u32::MAX as usize || rgb.height > u32::MAX as usize {
        return None;
    }
    let bytes = match rgb_words_to_bytes(rgb) {
        Some(b) => b,
        None => {
            return None;
        },
    };
    proof {
        assert(bytes@ =~= spec_word_bytes(rgb.data@));
    }
    Some(expand_rgb_image(bytes, rgb.width as u32, rgb.height as u32))
}

} // verus!
