//! Decoding byte payloads to the plain values the library reasons about:
//! a resolution and the 8-by-8 grayscale sample grid the perceptual hashes
//! are computed from. The pixel work itself is the `image` crate's.

use vstd::prelude::*;

verus! {

/// The image crate's decoded image, opaque to this library's proofs.
#[verifier::external_type_specification]
#[verifier::external_body]
pub struct ExDynamicImage(image::DynamicImage);

/// Whether a byte payload decodes as an image with at least one pixel:
/// `image::load_from_memory` accepts it and reports nonzero width and
/// height. Decoding is deterministic, so this is a function of the bytes
/// alone. A decode to a zero dimension counts as not decodable: the
/// resampler cannot take it.
pub uninterp spec fn is_decodable(bytes: Seq<u8>) -> bool;

/// The resolution (width, height) the payload decodes to, as
/// `image::GenericImageView::dimensions` reports it: a function of the bytes
/// alone. Meaningful only where `is_decodable` holds.
pub uninterp spec fn dims_of(bytes: Seq<u8>) -> (u32, u32);

/// The `w`-by-`h` grayscale grid the decoded payload resamples to, by
/// nearest-neighbour interpolation and luma conversion, row-major: a
/// function of the bytes and the grid size alone. Meaningful only where
/// `is_decodable` holds.
pub uninterp spec fn grid_of(bytes: Seq<u8>, w: u32, h: u32) -> Seq<u8>;

/// The failures the upgrade pipeline distinguishes: the network was
/// unreachable, the search collaborator answered with an error, a byte
/// payload was not a supported image, or a local read or write failed.
#[derive(Clone, Copy, Debug, PartialEq, Eq, Structural)]
pub enum UpgradeError {
    Transport,
    Search,
    Decode,
    Io,
}

/// A decoded image together with what the library's logic reads of it: its
/// resolution and its 8-by-8 grid of grayscale samples, cell `(x, y)` at
/// index `y * 8 + x`. The decoded pixel buffer rides along, untouched by
/// the logic, for the caller that writes an accepted candidate out.
pub struct DecodedImage {
    pub width: u32,
    pub height: u32,
    pub samples: Vec<u8>,
    pub pixels: image::DynamicImage,
}

impl DecodedImage {
    /// Well-formed: the grid holds exactly 64 samples.
    pub open spec fn wf(self) -> bool {
        self.samples@.len() == 64
    }
}

/// Relies on image::load_from_memory, image::GenericImageView::dimensions,
/// image::DynamicImage::resize_exact with the nearest-neighbour filter,
/// DynamicImage::to_luma8 and ImageBuffer::into_raw: decoding and
/// resampling are deterministic in the payload bytes, an exact resample
/// to `w` by `h` pixels has `w * h` of them, and a luma buffer holds one
/// byte per pixel. A payload the codec refuses, and one that decodes to an
/// image with a zero dimension (which the resampler cannot take), is
/// nothing.
#[verifier::external_body]
fn decode_and_resample(bytes: &Vec<u8>, w: u32, h: u32) -> (r: Option<DecodedImage>)
    requires
        1 <= w,
        1 <= h,
        w as int * h as int <= 4096,
    ensures
        r is Some <==> is_decodable(bytes@),
        r matches Some(img) ==> img.width == dims_of(bytes@).0 && img.height == dims_of(bytes@).1
            && img.samples@ == grid_of(bytes@, w, h) && img.samples@.len() == w as int
            * h as int,
{
    let pixels = image::load_from_memory(bytes.as_slice()).ok()?;
    let (width, height) = image::GenericImageView::dimensions(&pixels);
    if width == 0 || height == 0 {
        return None;
    }
    let samples = pixels
        .resize_exact(w, h, image::imageops::FilterType::Nearest)
        .to_luma8()
        .into_raw();
    Some(DecodedImage { width, height, samples, pixels })
}

/// Decode a byte payload and resample it, by nearest-neighbour
/// interpolation and grayscale conversion, to the 8-by-8 sample grid the
/// perceptual hashes are computed from. The resolution and the grid are
/// functions of the bytes alone. Succeeds exactly on the payloads the
/// image codec accepts that hold at least one pixel; any other payload is
/// a `Decode` error.
pub fn decode_image(bytes: &Vec<u8>) -> (r: Result<DecodedImage, UpgradeError>)
    ensures
        r is Ok <==> is_decodable(bytes@),
        r matches Ok(img) ==> img.wf() && img.width == dims_of(bytes@).0 && img.height == dims_of(
            bytes@,
        ).1 && img.samples@ == grid_of(bytes@, 8, 8),
        r matches Err(e) ==> e == UpgradeError::Decode,
{
    match decode_and_resample(bytes, 8, 8) {
        Some(img) => Ok(img),
        None => Err(UpgradeError::Decode),
    }
}

} // verus!
