//! Geometry checks for tightly interleaved RGB sample buffers.
//!
//! Decoding, encoding and sample conversion happen outside this module; it
//! decides whether a buffer can hold an image of a given size.

use vstd::prelude::*;

verus! {

/// Number of channels of an interleaved RGB buffer.
pub const RGB_CHANNELS: usize = 3;

/// For embedders: file, metadata, RAW and ICC I/O happen in the host.
pub const ANDROID_APP_SIDE_IO_NOTE: &'static str = "spectralfilm-core intentionally does not perform image codec, filesystem, EXIF/XMP/IPTC, RAW, or ICC-profile I/O. Decode/encode and metadata handling should be provided by the Android host app, then pass tightly interleaved RGB buffers into these helpers.";

/// Why a buffer cannot represent the requested RGB image.
#[derive(Debug, Clone, PartialEq, Eq, Structural)]
pub enum BufferError {
    /// `width * height * 3` does not fit in `usize`.
    DimensionOverflow { width: usize, height: usize },
    /// Fewer samples than a tightly interleaved RGB image requires.
    BufferTooShort { required: usize, actual: usize },
}

/// Number of samples of a `width` x `height` RGB image, as a mathematical
/// integer.
pub open spec fn rgb_samples(width: usize, height: usize) -> int {
    width * height * 3
}

/// The number of scalar samples of a tightly interleaved RGB image; fails
/// exactly when that number exceeds `usize::MAX`.
pub fn rgb_sample_count(width: usize, height: usize) -> (r: Result<usize, BufferError>)
    ensures
        rgb_samples(width, height) <= usize::MAX ==> r == Ok::<usize, BufferError>(rgb_samples(width, height) as usize),
        rgb_samples(width, height) > usize::MAX ==> r == Err::<usize, BufferError>(BufferError::DimensionOverflow { width, height }),
{
    match width.checked_mul(height) {
        Some(pixels) => match pixels.checked_mul(RGB_CHANNELS) {
            Some(n) => Ok(n),
            None => Err(BufferError::DimensionOverflow { width, height }),
        },
        None => {
            proof {
                assert(width * height > usize::MAX);
                assert(width * height * 3 >= width * height) by (nonlinear_arith)
                    requires width * height >= 0;
            }
            Err(BufferError::DimensionOverflow { width, height })
        },
    }
}

/// Check that `buffer` holds at least a whole `width` x `height` RGB image
/// and return the number of samples that image takes.
pub fn validate_rgb_buffer<T>(buffer: &[T], width: usize, height: usize) -> (r: Result<usize, BufferError>)
    ensures
        rgb_samples(width, height) > usize::MAX ==> r == Err::<usize, BufferError>(BufferError::DimensionOverflow { width, height }),
        rgb_samples(width, height) <= usize::MAX && buffer@.len() < rgb_samples(width, height) ==> r
            == Err::<usize, BufferError>(BufferError::BufferTooShort {
                required: rgb_samples(width, height) as usize,
                actual: buffer@.len() as usize,
            }),
        rgb_samples(width, height) <= buffer@.len() ==> r == Ok::<usize, BufferError>(rgb_samples(width, height) as usize),
{
    let actual = buffer.len();
    let required = match rgb_sample_count(width, height) {
        Ok(n) => n,
        Err(e) => return Err(e),
    };
    if actual < required {
        return Err(BufferError::BufferTooShort { required, actual });
    }
    Ok(required)
}

} // verus!
