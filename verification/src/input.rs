//! Preparation of raw image bytes as a model input.
//!
//! The image codec is an opaque collaborator: decoding, nearest-neighbour
//! resampling and the luminance reduction stay behind one narrow interface,
//! and the library states of them only that they succeed or fail on the
//! bytes alone and that their result depends on the bytes and the target
//! dimensions alone. The prepared input holds the resulting grayscale
//! intensities as raw bytes; dividing each by 255 at the point of use
//! yields the normalised values in [0, 1] that the model consumes.

use vstd::prelude::*;

use crate::errors::PrepareError;

verus! {

/// Whether the image codec recognises and decodes `bytes` as an image.
pub uninterp spec fn image_decodes(bytes: Seq<u8>) -> bool;

/// The row-major grayscale intensities of the image decoded from `bytes`,
/// resampled to exactly `width` by `height` pixels.
pub uninterp spec fn gray_pixels(bytes: Seq<u8>, width: u32, height: u32) -> Seq<u8>;

/// Relies on `image::load_from_memory` (the format is sniffed from the
/// bytes, so success depends on the bytes alone),
/// `DynamicImage::resize_exact` with nearest-neighbour filtering, and
/// `DynamicImage::into_luma8`: all are deterministic in their arguments,
/// and the resulting buffer holds one byte per pixel of a `width` by
/// `height` image.
#[verifier::external_body]
fn decode_to_gray(bytes: &Vec<u8>, width: u32, height: u32) -> (r: Result<Vec<u8>, String>)
    requires
        0 < width,
        0 < height,
    ensures
        r is Ok <==> image_decodes(bytes@),
        r matches Ok(pixels) ==> pixels@ == gray_pixels(bytes@, width, height),
        r matches Ok(pixels) ==> pixels@.len() == width * height,
{
    match image::load_from_memory(bytes.as_slice()) {
        Ok(im) => Ok(
            im.resize_exact(width, height, image::imageops::FilterType::Nearest)
                .into_luma8()
                .into_raw(),
        ),
        Err(e) => Err(format!("{e}")),
    }
}

/// A prepared model input: the row-major grayscale intensities of one
/// image, resampled to the model's expected dimensions. Each byte stands
/// for the normalised value `byte / 255`, so every value the model sees
/// lies in [0, 1].
#[derive(Debug, PartialEq, Eq)]
pub struct ModelInput {
    values: Vec<u8>,
}

impl View for ModelInput {
    type V = Seq<u8>;

    closed spec fn view(&self) -> Seq<u8> {
        self.values@
    }
}

impl ModelInput {
    /// Decodes `bytes`, resamples the image to exactly `height` by `width`
    /// pixels with nearest-neighbour sampling, reduces it to grayscale, and
    /// keeps the row-major intensities.
    ///
    /// Succeeds exactly when the codec decodes `bytes`; the result then
    /// holds `height * width` intensities. An unrecognisable buffer yields
    /// a decode failure.
    pub fn from_image_bytes(bytes: Vec<u8>, height: u64, width: u64) -> (r: Result<
        ModelInput,
        PrepareError,
    >)
        requires
            0 < height <= u32::MAX,
            0 < width <= u32::MAX,
        ensures
            r is Ok <==> image_decodes(bytes@),
            r matches Ok(input) ==> input@ == gray_pixels(bytes@, width as u32, height as u32),
            r matches Ok(input) ==> input@.len() == height * width,
            r matches Err(e) ==> e is DecodeFailure,
    {
        match decode_to_gray(&bytes, width as u32, height as u32) {
            Ok(values) => Ok(ModelInput { values }),
            Err(cause) => Err(PrepareError::DecodeFailure { cause }),
        }
    }

    /// The grayscale intensities of the prepared input.
    pub fn values(&self) -> (r: &Vec<u8>)
        ensures
            r@ == self@,
    {
        &self.values
    }

    /// The number of intensities of the prepared input.
    pub fn len(&self) -> (r: usize)
        ensures
            r == self@.len(),
    {
        self.values.len()
    }
}

/// Preparing a model input is deterministic: two prepared inputs that both
/// arose from the same bytes and the same target dimensions hold the same
/// intensities.
pub proof fn lemma_prepare_deterministic(
    a: ModelInput,
    b: ModelInput,
    bytes: Seq<u8>,
    width: u32,
    height: u32,
)
    requires
        a@ == gray_pixels(bytes, width, height),
        b@ == gray_pixels(bytes, width, height),
    ensures
        a@ == b@,
{
}

} // verus!
