//! PNG encoding and decoding of raw RGB pixel buffers, through the image
//! codec.  Both calls compute pure functions of their input; their results
//! are named here and everything around them is verified.

use vstd::prelude::*;

verus! {

/// What the PNG encoder produces for an RGB image of the given size.
pub uninterp spec fn png_of(width: u32, height: u32, data: Seq<u8>) -> Seq<u8>;

/// What the image decoder yields for a byte stream: the dimensions and
/// the RGB pixels, or nothing when the bytes are not a decodable image.
pub uninterp spec fn png_decode_of(data: Seq<u8>) -> Option<(u32, u32, Seq<u8>)>;

/// Relies on `image::ImageBuffer::from_raw` and `ImageBuffer::write_to`:
/// PNG-encode an RGB pixel buffer.  The encoder's output depends on the
/// dimensions and pixels alone.  An exact-length buffer always builds the
/// image, writing into a vector cannot fail, and the PNG encoder rejects
/// only a zero width or height, so nonzero dimensions always encode.
#[verifier::external_body]
pub(crate) fn encode_png(width: u32, height: u32, data: &Vec<u8>) -> (r: Result<Vec<u8>, String>)
    requires
        data@.len() == width * height * 3,
    ensures
        r is Ok ==> r->Ok_0@ == png_of(width, height, data@),
        width >= 1 && height >= 1 ==> r is Ok,
{
    let img: image::RgbImage = match image::ImageBuffer::from_raw(width, height, data.clone()) {
        Some(i) => i,
        None => {
            return Err("pixel buffer does not match its dimensions".to_string());
        },
    };
    let mut bytes: Vec<u8> = Vec::new();
    match img.write_to(&mut std::io::Cursor::new(&mut bytes), image::ImageFormat::Png) {
        Ok(()) => Ok(bytes),
        Err(e) => Err(e.to_string()),
    }
}

/// Relies on `image::load_from_memory` and `DynamicImage::to_rgb8`:
/// decode an image into its dimensions and RGB pixels.  The decoder's
/// output depends on the bytes alone, and the pixel buffer it returns
/// holds exactly three bytes per pixel.
#[verifier::external_body]
pub(crate) fn decode_png(data: &[u8]) -> (r: Result<(u32, u32, Vec<u8>), String>)
    ensures
        r is Ok <==> png_decode_of(data@) is Some,
        r is Ok ==> (r->Ok_0).0 == (png_decode_of(data@)->0).0 && (r->Ok_0).1 == (png_decode_of(
            data@,
        )->0).1 && (r->Ok_0).2@ == (png_decode_of(data@)->0).2,
        r is Ok ==> (r->Ok_0).2@.len() == (r->Ok_0).0 * (r->Ok_0).1 * 3,
{
    match image::load_from_memory(data) {
        Ok(img) => {
            let rgb = img.to_rgb8();
            Ok((rgb.width(), rgb.height(), rgb.into_raw()))
        },
        Err(e) => Err(e.to_string()),
    }
}

} // verus!
