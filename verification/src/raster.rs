//! The mathematical content of an image.
//!
//! Contracts throughout the crate speak of a [`Raster`]: the pixel size, the
//! dimensions, the stride and the bytes of the backing buffer, all as
//! unbounded values. Every image type has a raster as its view, and
//! [`raster_of`] gives the raster of anything that implements the image
//! traits.

use crate::layout::{buffer_fits, valid_row_width};
use crate::pixel_format::PixelFormat;
use crate::ImageStride;
use vstd::prelude::*;

verus! {

/// What an image is, independent of who owns its bytes.
#[verifier::ext_equal]
pub struct Raster {
    /// Bits taken by one pixel.
    pub bits_per_pixel: nat,
    /// Pixels per row.
    pub width: nat,
    /// Number of rows.
    pub height: nat,
    /// Bytes between the starts of consecutive rows.
    pub stride: nat,
    /// The whole backing buffer, padding included.
    pub bytes: Seq<u8>,
}

impl Raster {
    /// Bytes taken by the pixels of one row.
    pub open spec fn valid_row_width(self) -> nat {
        valid_row_width(self.bits_per_pixel, self.width)
    }

    /// The buffer is long enough for the geometry. The constructors that take
    /// a buffer establish this, and an image made from a well-formed one is
    /// well-formed.
    pub open spec fn wf(self) -> bool {
        buffer_fits(self.bits_per_pixel, self.width, self.height, self.stride, self.bytes.len())
    }

    /// Offset of the first byte of row `i`.
    pub open spec fn row_start(self, i: nat) -> nat {
        i * self.stride
    }

    /// The pixel bytes of row `i`, without padding.
    pub open spec fn row(self, i: nat) -> Seq<u8> {
        self.bytes.subrange(
            self.row_start(i) as int,
            (self.row_start(i) + self.valid_row_width()) as int,
        )
    }

    /// The same geometry over other bytes.
    pub open spec fn with_bytes(self, bytes: Seq<u8>) -> Raster {
        Raster { bytes, ..self }
    }
}

/// The raster of an image of pixel format `F`.
pub open spec fn raster_of<F: PixelFormat, S: ImageStride<F>>(img: &S) -> Raster {
    Raster {
        bits_per_pixel: F::spec_bits_per_pixel() as nat,
        width: img.spec_width() as nat,
        height: img.spec_height() as nat,
        stride: img.spec_stride() as nat,
        bytes: img.bytes(),
    }
}

} // verus!
