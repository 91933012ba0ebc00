//! References to image data

use crate::layout::{buffer_fits, check_buffer};
use crate::pixel_format::PixelFormat;
use crate::raster::{raster_of, Raster};
use crate::{ImageBuffer, ImageBufferMutRef, ImageBufferRef, ImageData, ImageMutData, Stride};
use core::marker::PhantomData;
use vstd::prelude::*;

verus! {

// -----
/// A view of image to have pixel format `FMT`.
pub struct ImageRef<'a, FMT: PixelFormat> {
    buf: &'a [u8],
    width: u32,
    height: u32,
    stride: usize,
    fmt: PhantomData<FMT>,
}

impl<'a, FMT: PixelFormat> View for ImageRef<'a, FMT> {
    type V = Raster;

    open spec fn view(&self) -> Raster {
        raster_of::<FMT, Self>(self)
    }
}

impl<'a, FMT: PixelFormat> ImageRef<'a, FMT> {
    /// Use a `&[u8]` slice as the backing store for an ImageRef.
    ///
    /// Returns `None` if the buffer is not large enough to store an image of
    /// the desired properties. An image without rows takes any buffer.
    pub fn new(width: u32, height: u32, stride: usize, buf: &'a [u8]) -> (res: Option<Self>)
        ensures
            res is Some <==> buffer_fits(
                FMT::spec_bits_per_pixel() as nat,
                width as nat,
                height as nat,
                stride as nat,
                buf@.len(),
            ),
            res matches Some(img) ==> {
                &&& img@ == (Raster {
                    bits_per_pixel: FMT::spec_bits_per_pixel() as nat,
                    width: width as nat,
                    height: height as nat,
                    stride: stride as nat,
                    bytes: buf@,
                })
                &&& img@.wf()
            },
    {
        if !check_buffer(FMT::bits_per_pixel(), width, height, stride, buf.len()) {
            return None;
        }
        Some(Self { width, height, stride, buf, fmt: PhantomData })
    }
}

impl<'a, FMT: PixelFormat> ImageData<FMT> for ImageRef<'a, FMT> {
    closed spec fn spec_width(&self) -> u32 {
        self.width
    }

    closed spec fn spec_height(&self) -> u32 {
        self.height
    }

    closed spec fn bytes(&self) -> Seq<u8> {
        self.buf@
    }

    fn width(&self) -> (w: u32) {
        self.width
    }

    fn height(&self) -> (h: u32) {
        self.height
    }

    fn buffer_ref(&self) -> (buf: ImageBufferRef<'_, FMT>) {
        ImageBufferRef::new(self.buf)
    }

    /// Copies the bytes: the image only borrows them.
    fn buffer(self) -> (buf: ImageBuffer<FMT>) {
        self.buffer_ref().to_buffer()
    }
}

impl<'a, FMT: PixelFormat> Stride for ImageRef<'a, FMT> {
    closed spec fn spec_stride(&self) -> usize {
        self.stride
    }

    fn stride(&self) -> (s: usize) {
        self.stride
    }
}

// -----
/// A view of mutable image to have pixel format `FMT`.
pub struct ImageRefMut<'a, FMT: PixelFormat> {
    buf: &'a mut [u8],
    width: u32,
    height: u32,
    stride: usize,
    fmt: PhantomData<FMT>,
}

impl<'a, FMT: PixelFormat> View for ImageRefMut<'a, FMT> {
    type V = Raster;

    open spec fn view(&self) -> Raster {
        raster_of::<FMT, Self>(self)
    }
}

impl<'a, FMT: PixelFormat> ImageRefMut<'a, FMT> {
    /// The borrowed slice that backs the image.
    pub closed spec fn store(self) -> &'a mut [u8] {
        self.buf
    }

    /// Once the image is no longer used, the borrowed slice is left holding
    /// the bytes that the image held last.
    pub proof fn lemma_released(self)
        requires
            has_resolved(self),
        ensures
            final(self.store())@ == self.bytes(),
    {
    }

    /// Use a `&mut [u8]` slice as the backing store for an ImageRefMut.
    ///
    /// Returns `None` if the buffer is not large enough to store an image of
    /// the desired properties. An image without rows takes any buffer. The
    /// slice is written to only through the image.
    pub fn new(width: u32, height: u32, stride: usize, buf: &'a mut [u8]) -> (res: Option<Self>)
        ensures
            res is Some <==> buffer_fits(
                FMT::spec_bits_per_pixel() as nat,
                width as nat,
                height as nat,
                stride as nat,
                old(buf)@.len(),
            ),
            res matches Some(img) ==> {
                &&& img@ == (Raster {
                    bits_per_pixel: FMT::spec_bits_per_pixel() as nat,
                    width: width as nat,
                    height: height as nat,
                    stride: stride as nat,
                    bytes: old(buf)@,
                })
                &&& img@.wf()
                &&& final(buf)@ == final(img.store())@
            },
            res is None ==> final(buf)@ == old(buf)@,
    {
        if !check_buffer(FMT::bits_per_pixel(), width, height, stride, buf.len()) {
            return None;
        }
        Some(Self { width, height, stride, buf, fmt: PhantomData })
    }
}

impl<'a, FMT: PixelFormat> ImageData<FMT> for ImageRefMut<'a, FMT> {
    closed spec fn spec_width(&self) -> u32 {
        self.width
    }

    closed spec fn spec_height(&self) -> u32 {
        self.height
    }

    open spec fn bytes(&self) -> Seq<u8> {
        self.store()@
    }

    fn width(&self) -> (w: u32) {
        self.width
    }

    fn height(&self) -> (h: u32) {
        self.height
    }

    fn buffer_ref(&self) -> (buf: ImageBufferRef<'_, FMT>) {
        ImageBufferRef::new(&*self.buf)
    }

    /// Copies the bytes: the image only borrows them. The borrowed slice is
    /// left holding the bytes that the image held.
    fn buffer(self) -> (buf: ImageBuffer<FMT>)
        ensures
            final(self.store())@ == self.bytes(),
    {
        self.buffer_ref().to_buffer()
    }
}

impl<'a, FMT: PixelFormat> ImageMutData<FMT> for ImageRefMut<'a, FMT> {
    open spec fn frame(&self) -> Raster {
        self@.with_bytes(Seq::empty())
    }

    open spec fn backing(&self) -> &mut [u8] {
        self.store()
    }

    fn buffer_mut_ref(&mut self) -> (buf: ImageBufferMutRef<'_, FMT>) {
        ImageBufferMutRef::new(&mut *self.buf)
    }
}

impl<'a, FMT: PixelFormat> Stride for ImageRefMut<'a, FMT> {
    closed spec fn spec_stride(&self) -> usize {
        self.stride
    }

    fn stride(&self) -> (s: usize) {
        self.stride
    }
}

} // verus!
