use crate::errors::OcrError;
use vstd::prelude::*;

verus! {

/// Number of color channels in a normalized pixel buffer.
pub const CHANNELS: u32 = 3;

#[verifier::external_type_specification]
#[verifier::external_body]
pub struct ExDynamicImage(image::DynamicImage);

/// A raster image in the fixed form the OCR capability accepts: 8-bit
/// pixels, three channels per pixel in a fixed order, rows first.
pub struct NormalizedImage {
    pub width: u32,
    pub height: u32,
    pub pixels: Vec<u8>,
}

impl NormalizedImage {
    /// Well-formedness: the dimensions are not degenerate, the pixel count
    /// fits the 32 bits the OCR capability counts pixels with, and the
    /// buffer holds exactly one byte per channel per pixel.
    pub open spec fn wf(&self) -> bool {
        &&& self.width > 0
        &&& self.height > 0
        &&& self.width * self.height <= u32::MAX
        &&& self.pixels@.len() == self.width * self.height * CHANNELS
    }

    /// Build a normalized image from plain values. Degenerate dimensions, a
    /// pixel count that overflows 32 bits, and a buffer smaller than the
    /// dimensions require are each rejected as an invalid image; a buffer
    /// longer than required is trimmed to the exact pixel count.
    pub fn new(width: u32, height: u32, pixels: Vec<u8>) -> (r: Result<NormalizedImage, OcrError>)
        ensures
            r is Ok <==> (width > 0 && height > 0 && width * height <= u32::MAX && width * height
                * CHANNELS <= pixels@.len()),
            r matches Ok(img) ==> {
                &&& img.wf()
                &&& img.width == width
                &&& img.height == height
                &&& img.pixels@ == pixels@.subrange(0, (width * height * CHANNELS) as int)
            },
            r matches Err(e) ==> e is InvalidImage,
    {
        if width == 0 || height == 0 {
            return Err(OcrError::InvalidImage("image has zero width or height".to_owned()));
        }
        proof {
            assert((width as int) * (height as int) <= (u32::MAX as int) * (u32::MAX as int))
                by (nonlinear_arith)
                requires
                    width <= u32::MAX,
                    height <= u32::MAX,
            ;
        }
        let px: u64 = (width as u64) * (height as u64);
        if px > u32::MAX as u64 {
            return Err(OcrError::InvalidImage("image has too many pixels".to_owned()));
        }
        let needed: u64 = px * (CHANNELS as u64);
        if needed > pixels.len() as u64 {
            return Err(
                OcrError::InvalidImage(
                    "pixel buffer is smaller than the image dimensions require".to_owned(),
                ),
            );
        }
        let mut pixels = pixels;
        pixels.truncate(needed as usize);
        Ok(NormalizedImage { width, height, pixels })
    }
}

/// Relies on image::DynamicImage::to_rgb8 and image::ImageBuffer: the
/// conversion yields an 8-bit RGB buffer whose length is at least
/// width × height × 3, one byte per channel, rows first.
#[verifier::external_body]
fn dynamic_to_rgb8(img: &image::DynamicImage) -> (r: (u32, u32, Vec<u8>))
    ensures
        r.0 as int * r.1 as int * CHANNELS as int <= r.2@.len(),
{
    let rgb = img.to_rgb8();
    let (width, height) = rgb.dimensions();
    (width, height, rgb.into_raw())
}

/// Normalize a decoded image to the fixed form OCR input is built from: an
/// 8-bit, three-channel byte buffer plus its pixel dimensions. Fails exactly
/// when the converted image is degenerate or oversized.
pub fn normalize(img: &image::DynamicImage) -> (r: Result<NormalizedImage, OcrError>)
    ensures
        r matches Ok(n) ==> n.wf(),
        r matches Err(e) ==> e is InvalidImage,
{
    let (width, height, pixels) = dynamic_to_rgb8(img);
    NormalizedImage::new(width, height, pixels)
}

} // verus!
