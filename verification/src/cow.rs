//! Copy-on-Write (CoW) image that can either borrow or own its pixel data.

use crate::image_ref::ImageRef;
use crate::owned::OImage;
use crate::pixel_format::PixelFormat;
use crate::raster::{raster_of, Raster};
use crate::{ImageBuffer, ImageBufferRef, ImageData, Stride};
use vstd::prelude::*;
use vstd::std_specs::convert::FromSpecImpl;

verus! {

/// A Copy-on-Write (CoW) image that can either borrow or own its pixel data.
///
/// A `CowImage` is used like any other image. It stays a borrowed view for
/// as long as nobody needs to own the data, and is turned into an owned image
/// by [`CowImage::owned`], which copies only if the data was borrowed.
pub enum CowImage<'a, F: PixelFormat> {
    /// Borrowed image data with a lifetime tied to the source
    Borrowed(ImageRef<'a, F>),
    /// Owned image data that manages its own memory
    Owned(OImage<F>),
}

impl<'a, F: PixelFormat> View for CowImage<'a, F> {
    type V = Raster;

    open spec fn view(&self) -> Raster {
        raster_of::<F, Self>(self)
    }
}

impl<'a, F: PixelFormat> CowImage<'a, F> {
    /// Consumes the image and returns an owned image.
    ///
    /// For borrowed images, this copies the data into a new image of the
    /// same geometry. For owned images, this hands out the image that was
    /// wrapped, as it is.
    pub fn owned(self) -> (res: OImage<F>)
        ensures
            res@ == self@,
            self matches CowImage::Owned(im) ==> res == im,
    {
        match self {
            CowImage::Borrowed(im) => OImage::copy_from(&im),
            CowImage::Owned(im) => im,
        }
    }
}

impl<'a, F: PixelFormat> From<ImageRef<'a, F>> for CowImage<'a, F> {
    /// Creates a [`CowImage::Borrowed`] from an [`ImageRef`].
    fn from(frame: ImageRef<'a, F>) -> (res: CowImage<'a, F>) {
        CowImage::Borrowed(frame)
    }
}

impl<'a, F: PixelFormat> FromSpecImpl<ImageRef<'a, F>> for CowImage<'a, F> {
    open spec fn obeys_from_spec() -> bool {
        true
    }

    open spec fn from_spec(frame: ImageRef<'a, F>) -> CowImage<'a, F> {
        CowImage::Borrowed(frame)
    }
}

impl<'a, F: PixelFormat> From<OImage<F>> for CowImage<'a, F> {
    /// Creates a [`CowImage::Owned`] from an [`OImage`].
    fn from(frame: OImage<F>) -> (res: CowImage<'a, F>) {
        CowImage::Owned(frame)
    }
}

impl<'a, F: PixelFormat> FromSpecImpl<OImage<F>> for CowImage<'a, F> {
    open spec fn obeys_from_spec() -> bool {
        true
    }

    open spec fn from_spec(frame: OImage<F>) -> CowImage<'a, F> {
        CowImage::Owned(frame)
    }
}

impl<F: PixelFormat> Stride for CowImage<'_, F> {
    open spec fn spec_stride(&self) -> usize {
        match self {
            CowImage::Borrowed(im) => im.spec_stride(),
            CowImage::Owned(im) => im.spec_stride(),
        }
    }

    /// Returns the stride (bytes per row) of the image.
    fn stride(&self) -> (s: usize) {
        match self {
            CowImage::Borrowed(im) => im.stride(),
            CowImage::Owned(im) => im.stride(),
        }
    }
}

impl<F: PixelFormat> ImageData<F> for CowImage<'_, F> {
    open spec fn spec_width(&self) -> u32 {
        match self {
            CowImage::Borrowed(im) => im.spec_width(),
            CowImage::Owned(im) => im.spec_width(),
        }
    }

    open spec fn spec_height(&self) -> u32 {
        match self {
            CowImage::Borrowed(im) => im.spec_height(),
            CowImage::Owned(im) => im.spec_height(),
        }
    }

    open spec fn bytes(&self) -> Seq<u8> {
        match self {
            CowImage::Borrowed(im) => im.bytes(),
            CowImage::Owned(im) => im.bytes(),
        }
    }

    /// Returns the width of the image in pixels.
    fn width(&self) -> (w: u32) {
        match self {
            CowImage::Borrowed(im) => im.width(),
            CowImage::Owned(im) => im.width(),
        }
    }

    /// Returns the height of the image in pixels.
    fn height(&self) -> (h: u32) {
        match self {
            CowImage::Borrowed(im) => im.height(),
            CowImage::Owned(im) => im.height(),
        }
    }

    /// Returns a reference to the image buffer, whether the image is
    /// borrowed or owned.
    fn buffer_ref(&self) -> (buf: ImageBufferRef<'_, F>) {
        let image_data = match self {
            CowImage::Borrowed(im) => im.image_data(),
            CowImage::Owned(im) => im.image_data(),
        };
        ImageBufferRef::new(image_data)
    }

    /// Consumes the image and returns the pixel data as an owned buffer.
    ///
    /// For borrowed images, this copies the data into a new vector. For
    /// owned images, this moves the existing vector without copying.
    fn buffer(self) -> (buf: ImageBuffer<F>)
        ensures
            self matches CowImage::Owned(im) ==> buf.data == im.storage(),
    {
        match self {
            CowImage::Borrowed(im) => ImageBuffer::new(vstd::slice::slice_to_vec(im.image_data())),
            CowImage::Owned(im) => im.buffer(),
        }
    }
}

} // verus!
