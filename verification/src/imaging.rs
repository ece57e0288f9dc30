//! Decoding, scaling and encoding of pictures, done by the `image` crate.
//!
//! A decoded picture is a value of `image::DynamicImage`, which the
//! contracts cannot look into. What the crate computes from it bit for bit
//! is named here, so that the contracts of this library can say which
//! picture went where.

use vstd::prelude::*;

verus! {

/// `image::DynamicImage`, a decoded picture of any pixel format.
#[verifier::external_type_specification]
#[verifier::external_body]
pub struct ExDynamicImage(image::DynamicImage);

/// `image::ImageError`, the reason why decoding or encoding failed.
#[verifier::external_type_specification]
#[verifier::external_body]
pub struct ExImageError(image::ImageError);

/// The JPEG file for `picture` at `quality`, if it can be encoded.
pub uninterp spec fn jpeg_encoded(picture: image::DynamicImage, quality: u8) -> Option<Seq<u8>>;

/// Width and height of `picture` in pixels.
pub uninterp spec fn pixel_size(picture: image::DynamicImage) -> (u32, u32);

/// Whether a picture of the size `out` may be one of the size `source`
/// scaled into `width` by `height`. Neither side is shorter than one pixel
/// or longer than its bound. Where the source has pixels, one side is as
/// long as its bound, and the other is the one that keeps the proportions,
/// to within a pixel.
pub open spec fn scaled_into(source: (u32, u32), out: (u32, u32), width: u32, height: u32) -> bool {
    &&& 1 <= out.0 <= width
    &&& 1 <= out.1 <= height
    &&& source.0 >= 1 && source.1 >= 1 ==> {
        ||| out.0 == width && -source.0 <= out.1 * source.0 - source.1 * width <= source.0
        ||| out.1 == height && -source.1 <= out.0 * source.1 - source.0 * height <= source.1
    }
}

/// Whether a picture of the size `size` can be a JPEG file: either side
/// must be one pixel at least and fit into sixteen bits.
pub open spec fn jpeg_sized(size: (u32, u32)) -> bool {
    1 <= size.0 <= 65535 && 1 <= size.1 <= 65535
}

/// `image::load_from_memory`: guesses the format of `data` and decodes it.
/// Which formats are known, and how they are told and decoded, rests on
/// hooks that any code of the process may register, so nothing is stated
/// of the outcome.
#[verifier::external_body]
pub(crate) fn decode(data: &bytes::BytesMut) -> (r: Result<image::DynamicImage, image::ImageError>) {
    image::load_from_memory(data)
}

/// `DynamicImage::resize` with `FilterType::Gaussian`: a new picture of the
/// same proportions, as large as fits into `width` by `height`. The new
/// size is the old one times the smaller of the two ratios, each side
/// rounded to a whole number and no shorter than one pixel. That is
/// computed in double precision on sizes of 32 bits, far more exactly than
/// half a pixel, so the side that sets the ratio comes out as its bound. A
/// picture that has the bounds for its size is handed back as it is. The
/// filter weighs pixels in floating point, with a precision that the
/// platform decides, so the samples of the result are not stated.
#[verifier::external_body]
pub(crate) fn resize_gaussian(picture: &image::DynamicImage, width: u32, height: u32) -> (out:
    image::DynamicImage)
    requires
        width >= 1,
        height >= 1,
    ensures
        scaled_into(pixel_size(*picture), pixel_size(out), width, height),
{
    picture.resize(width, height, image::imageops::FilterType::Gaussian)
}

/// `DynamicImage::write_with_encoder` with a `JpegEncoder` of the given
/// quality that writes into memory: the bytes of the JPEG file. The
/// encoder takes any quality, read as one of 1 to 100, and turns samples
/// that JPEG does not know into bytes of grey or RGB first. It refuses a
/// picture with a side of no pixels or of more than 65535, and nothing
/// else; writing into memory does not fail.
#[verifier::external_body]
pub(crate) fn encode_jpeg(picture: &image::DynamicImage, quality: u8) -> (r: Result<
    Vec<u8>,
    image::ImageError,
>)
    ensures
        r is Ok <==> jpeg_sized(pixel_size(*picture)),
        match r {
            Ok(file) => jpeg_encoded(*picture, quality) == Some(file@),
            Err(_) => jpeg_encoded(*picture, quality) is None,
        },
{
    let mut file = Vec::new();
    let encoder = image::codecs::jpeg::JpegEncoder::new_with_quality(&mut file, quality);
    picture.write_with_encoder(encoder)?;
    Ok(file)
}

/// `GenericImageView::dimensions`: width and height in pixels.
#[verifier::external_body]
pub(crate) fn dimensions(picture: &image::DynamicImage) -> (size: (u32, u32))
    ensures
        size == pixel_size(*picture),
{
    image::GenericImageView::dimensions(picture)
}

/// `DynamicImage::into_bytes`: the picture's samples, row by row, as
/// bytes. Samples of more than one byte come in the order of the machine,
/// so the bytes are not stated.
#[verifier::external_body]
pub(crate) fn into_bytes(picture: image::DynamicImage) -> (data: Vec<u8>) {
    picture.into_bytes()
}

} // verus!
