//! Types and traits for working with raw image data from machine vision
//! cameras.
//!
//! An image is a byte buffer together with a width, a height, a stride and a
//! pixel format. The pixel format is a type parameter (see [`pixel_format`]),
//! so it costs nothing at run time and cannot be confused between images.
//!
//! - [`image_ref`] holds images that borrow their buffer, read-only or
//!   mutably.
//! - [`owned`] holds the image that owns its buffer.
//! - [`cow`] holds the image that borrows until an owned one is asked for.
//! - [`iter`] walks an image row by row, leaving stride padding out.
//! - [`layout`] has the size arithmetic, and [`raster`] the mathematical
//!   model that the contracts are stated over.
//!
//! The traits in this module describe what an image can do: [`ImageData`]
//! gives the dimensions and the buffer, [`ImageMutData`] gives the buffer
//! mutably, [`Stride`] gives the stride. The remaining traits are
//! combinations of these that every fitting type has automatically.

pub mod cow;
pub mod image_ref;
pub mod iter;
pub mod layout;
pub mod owned;
pub mod pixel_format;
pub mod raster;

use core::marker::PhantomData;
use vstd::prelude::*;

pub use crate::pixel_format::PixelFormat;
use crate::raster::Raster;

verus! {

// ------------------------------- ImageBufferRef ----------------------
/// A view of image data with pixel format `F`.
///
/// This is a wrapper around a slice of bytes that adds nothing but the pixel
/// format as a type.
pub struct ImageBufferRef<'a, F> {
    /// The pixel format
    pub pixel_format: PhantomData<F>,
    /// The raw bytes of the image buffer.
    pub data: &'a [u8],
}

impl<'a, F> View for ImageBufferRef<'a, F> {
    type V = Seq<u8>;

    open spec fn view(&self) -> Seq<u8> {
        self.data@
    }
}

impl<'a, F> ImageBufferRef<'a, F> {
    /// Wraps `data`. The length is not looked at.
    pub fn new(data: &'a [u8]) -> (res: Self)
        ensures
            res.data == data,
            res@ == data@,
    {
        Self { pixel_format: PhantomData, data }
    }

    /// Copy the data to make a new buffer.
    pub fn to_buffer(&self) -> (res: ImageBuffer<F>)
        ensures
            res@ == self@,
    {
        ImageBuffer::new(vstd::slice::slice_to_vec(self.data))
    }
}

impl<'a, F> Clone for ImageBufferRef<'a, F> {
    fn clone(&self) -> (res: Self)
        ensures
            res == *self,
    {
        Self { pixel_format: self.pixel_format, data: self.data }
    }
}

// ------------------------------- ImageBufferMutRef ----------------------
/// A view of mutable image data with pixel format `F`.
///
/// This is a wrapper around a mutable slice of bytes that adds nothing but
/// the pixel format as a type. Whatever is written through `data` is written
/// to the slice it was made from.
pub struct ImageBufferMutRef<'a, F> {
    /// The pixel format
    pub pixel_format: PhantomData<F>,
    /// The raw bytes of the image buffer.
    pub data: &'a mut [u8],
}

impl<'a, F> View for ImageBufferMutRef<'a, F> {
    type V = Seq<u8>;

    open spec fn view(&self) -> Seq<u8> {
        self.data@
    }
}

impl<'a, F> ImageBufferMutRef<'a, F> {
    /// Wraps `data`. The length is not looked at.
    pub fn new(data: &'a mut [u8]) -> (res: Self)
        ensures
            res@ == old(data)@,
            final(data)@ == final(res.data)@,
    {
        Self { pixel_format: PhantomData, data }
    }

    /// Copy the data to make a new buffer.
    pub fn to_buffer(&self) -> (res: ImageBuffer<F>)
        ensures
            res@ == self@,
    {
        ImageBuffer::new(vstd::slice::slice_to_vec(&*self.data))
    }
}

// ------------------------------- ImageBuffer ----------------------
/// Image data with pixel format `F`.
///
/// This is a wrapper around a vector of bytes that adds nothing but the pixel
/// format as a type.
pub struct ImageBuffer<F> {
    /// The pixel format
    pub pixel_format: PhantomData<F>,
    /// The raw bytes of the image buffer.
    pub data: Vec<u8>,
}

impl<F> View for ImageBuffer<F> {
    type V = Seq<u8>;

    open spec fn view(&self) -> Seq<u8> {
        self.data@
    }
}

impl<F> ImageBuffer<F> {
    /// Wraps `data`, which is moved, not copied.
    pub fn new(data: Vec<u8>) -> (res: Self)
        ensures
            res.data == data,
            res@ == data@,
    {
        Self { pixel_format: PhantomData, data }
    }
}

impl<F> Clone for ImageBuffer<F> {
    fn clone(&self) -> (res: Self)
        ensures
            res@ == self@,
    {
        ImageBuffer::new(vstd::slice::slice_to_vec(self.data.as_slice()))
    }
}

// ------------------------------- simple traits ----------------------
/// An image.
///
/// The pixel format is specified as the type `F`.
///
/// The `spec` functions of this and the following traits say what an
/// image is; the executable ones are held to them. An implementation that is
/// to be verified gives each of them. They have a body of no particular value
/// so that an implementation that is not verified can go without.
pub trait ImageData<F> {
    /// Number of pixel columns in the image.
    open spec fn spec_width(&self) -> u32 {
        arbitrary()
    }

    /// Number of pixel rows in the image.
    open spec fn spec_height(&self) -> u32 {
        arbitrary()
    }

    /// The bytes of the backing buffer.
    open spec fn bytes(&self) -> Seq<u8> {
        arbitrary()
    }

    /// Number of pixel columns in the image. Note: this is not the stride.
    fn width(&self) -> (w: u32)
        ensures
            w == self.spec_width(),
    ;

    /// Number of pixel rows in the image.
    fn height(&self) -> (h: u32)
        ensures
            h == self.spec_height(),
    ;

    /// Returns the raw image data as specified by pixel format `F`.
    ///
    /// This does not copy the data but returns a view of it.
    fn image_data(&self) -> (data: &[u8])
        ensures
            data@ == self.bytes(),
    {
        self.buffer_ref().data
    }

    /// Returns the image buffer specified by pixel format `F`.
    ///
    /// This does not copy the data but returns a view of it.
    fn buffer_ref(&self) -> (buf: ImageBufferRef<'_, F>)
        ensures
            buf@ == self.bytes(),
    ;

    /// Returns the image buffer specified by pixel format `F`, using up the
    /// image.
    ///
    /// An image that owns its buffer hands it over. One that borrows it has to
    /// copy.
    fn buffer(self) -> (buf: ImageBuffer<F>)
        ensures
            buf@ == self.bytes(),
    ;
}

/// A mutable image.
///
/// The pixel format is specified as the type `F`.
pub trait ImageMutData<F>: ImageData<F> {
    /// The image with its bytes left out: the geometry that the implementing
    /// type holds, its stride included where it has one, over an empty
    /// buffer.
    open spec fn frame(&self) -> Raster {
        arbitrary()
    }

    /// The borrowed slice that the image writes through to, for an image
    /// that borrows its buffer mutably. An image that owns its buffer leaves
    /// this as it is.
    open spec fn backing(&self) -> &mut [u8] {
        arbitrary()
    }

    /// Returns the image mutable buffer specified by pixel format `F`.
    ///
    /// This does not copy the data but returns a mutable view of it. What is
    /// written through the view is what the image holds afterwards; nothing
    /// else about the image changes.
    fn buffer_mut_ref(&mut self) -> (buf: ImageBufferMutRef<'_, F>)
        ensures
            buf@ == old(self).bytes(),
            final(self).bytes() == final(buf.data)@,
            final(self).spec_width() == old(self).spec_width(),
            final(self).spec_height() == old(self).spec_height(),
            final(self).frame() == old(self).frame(),
            final(final(self).backing())@ == final(old(self).backing())@,
    ;
}

/// An image whose data is stored such that successive rows are a stride apart.
///
/// This is sometimes also called "pitch".
pub trait Stride {
    /// The distance in bytes between the starts of successive rows.
    open spec fn spec_stride(&self) -> usize {
        arbitrary()
    }

    /// The distance in bytes between the starts of successive rows.
    fn stride(&self) -> (s: usize)
        ensures
            s == self.spec_stride(),
    ;
}

// ------------------------------- compound traits ----------------------
/// Can be used as an `ImageData` trait object.
pub trait AsImageData<F>: ImageData<F> {

}

impl<S: ImageData<F>, F> AsImageData<F> for S {

}

/// An image which can be moved into `Vec<u8>`.
pub trait OwnedImage<F>: AsImageData<F> + ImageData<F> + Into<Vec<u8>> {

}

impl<S, F> OwnedImage<F> for S where S: AsImageData<F> + ImageData<F>, Vec<u8>: From<S> {

}

/// An image with a stride.
pub trait ImageStride<F>: ImageData<F> + Stride {

}

impl<S, F> ImageStride<F> for S where S: ImageData<F> + Stride {

}

/// Can be used as an `ImageStride` trait object.
pub trait AsImageStride<F>: ImageStride<F> {

}

impl<S: ImageStride<F>, F> AsImageStride<F> for S {

}

/// A mutable image with a stride.
pub trait ImageMutStride<F>: ImageMutData<F> + Stride {

}

impl<S, F> ImageMutStride<F> for S where S: ImageMutData<F> + Stride {

}

/// Can be used as an `ImageMutStride` trait object.
pub trait AsImageMutStride<F>: ImageMutStride<F> {

}

impl<S: ImageMutStride<F>, F> AsImageMutStride<F> for S {

}

/// An image with a stride which can be moved into `Vec<u8>`.
pub trait OwnedImageStride<F>: AsImageStride<F> + ImageStride<F> + Into<Vec<u8>> {

}

impl<S, F> OwnedImageStride<F> for S where S: AsImageStride<F> + ImageStride<F>, Vec<u8>: From<S> {

}

} // verus!
