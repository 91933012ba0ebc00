//! An image that owns its buffer.

use crate::layout::{buffer_fits, check_buffer, min_buffer_len, required_len};
use crate::pixel_format::PixelFormat;
use crate::raster::{raster_of, Raster};
use crate::{
    ImageBuffer, ImageBufferMutRef, ImageBufferRef, ImageData, ImageMutData, ImageStride,
    OwnedImageStride, Stride,
};
use core::marker::PhantomData;
use vstd::prelude::*;
use vstd::std_specs::convert::{FromSpecImpl, IntoSpec};

verus! {

/// An owned image buffer with strided pixel format `FMT`.
pub struct OImage<FMT: PixelFormat> {
    buf: Vec<u8>,
    width: u32,
    height: u32,
    stride: usize,
    fmt: PhantomData<FMT>,
}

impl<FMT: PixelFormat> View for OImage<FMT> {
    type V = Raster;

    open spec fn view(&self) -> Raster {
        raster_of::<FMT, Self>(self)
    }
}

impl<FMT: PixelFormat> ImageData<FMT> for OImage<FMT> {
    closed spec fn spec_width(&self) -> u32 {
        self.width
    }

    closed spec fn spec_height(&self) -> u32 {
        self.height
    }

    open spec fn bytes(&self) -> Seq<u8> {
        self.storage()@
    }

    fn width(&self) -> (w: u32) {
        self.width
    }

    fn height(&self) -> (h: u32) {
        self.height
    }

    fn buffer_ref(&self) -> (buf: ImageBufferRef<'_, FMT>) {
        ImageBufferRef::new(self.buf.as_slice())
    }

    /// Moves the buffer out. The vector returned is the one the image held.
    fn buffer(self) -> (buf: ImageBuffer<FMT>)
        ensures
            buf.data == self.storage(),
    {
        ImageBuffer { data: self.buf, pixel_format: self.fmt }
    }
}

impl<FMT: PixelFormat> ImageMutData<FMT> for OImage<FMT> {
    open spec fn frame(&self) -> Raster {
        self@.with_bytes(Seq::empty())
    }

    fn buffer_mut_ref(&mut self) -> (buf: ImageBufferMutRef<'_, FMT>) {
        ImageBufferMutRef::new(self.buf.as_mut_slice())
    }
}

impl<FMT: PixelFormat> Stride for OImage<FMT> {
    closed spec fn spec_stride(&self) -> usize {
        self.stride
    }

    fn stride(&self) -> (s: usize) {
        self.stride
    }
}

impl<FMT: PixelFormat> OImage<FMT> {
    /// The vector that backs the image.
    pub closed spec fn storage(self) -> Vec<u8> {
        self.buf
    }

    /// Move a `Vec<u8>` buffer as the backing store for an image.
    ///
    /// Returns `None` if the buffer is not large enough to store an image of
    /// the desired properties. An image without rows takes any buffer.
    pub fn new(width: u32, height: u32, stride: usize, buf: Vec<u8>) -> (res: Option<Self>)
        ensures
            res is Some <==> buffer_fits(
                FMT::spec_bits_per_pixel() as nat,
                width as nat,
                height as nat,
                stride as nat,
                buf@.len(),
            ),
            res matches Some(img) ==> {
                &&& img.storage() == buf
                &&& img@ == (Raster {
                    bits_per_pixel: FMT::spec_bits_per_pixel() as nat,
                    width: width as nat,
                    height: height as nat,
                    stride: stride as nat,
                    bytes: buf@,
                })
                &&& img@.wf()
            },
    {
        if !check_buffer(FMT::bits_per_pixel(), width, height, stride, buf.len()) {
            return None;
        }
        Some(Self { width, height, stride, buf, fmt: PhantomData })
    }

    /// Allocate minimum size buffer for image and fill with zeros.
    ///
    /// Returns `None` only if that size is more than a buffer can have.
    pub fn zeros(width: u32, height: u32, stride: usize) -> (res: Option<Self>)
        ensures
            res is Some <==> required_len(
                FMT::spec_bits_per_pixel() as nat,
                width as nat,
                height as nat,
                stride as nat,
            ) <= usize::MAX,
            res matches Some(img) ==> {
                &&& img@ == (Raster {
                    bits_per_pixel: FMT::spec_bits_per_pixel() as nat,
                    width: width as nat,
                    height: height as nat,
                    stride: stride as nat,
                    bytes: Seq::new(
                        required_len(
                            FMT::spec_bits_per_pixel() as nat,
                            width as nat,
                            height as nat,
                            stride as nat,
                        ),
                        |i: int| 0u8,
                    ),
                })
                &&& img@.wf()
            },
    {
        let sz: u128 = min_buffer_len(FMT::bits_per_pixel(), width, height, stride);
        if sz > usize::MAX as u128 {
            return None;
        }
        let buf: Vec<u8> = vec![0u8; sz as usize];
        assert(buf@ =~= Seq::new(sz as nat, |i: int| 0u8));
        Some(Self { width, height, stride, buf, fmt: PhantomData })
    }

    /// Takes the buffer of `orig` without copying it, together with its
    /// geometry.
    ///
    /// The buffer that `orig` turns into has to be large enough for the
    /// geometry that `orig` reports.
    pub fn from_owned<S: OwnedImageStride<FMT>>(orig: S) -> (res: Self)
        requires
            S::obeys_into_spec(),
            buffer_fits(
                FMT::spec_bits_per_pixel() as nat,
                orig.spec_width() as nat,
                orig.spec_height() as nat,
                orig.spec_stride() as nat,
                orig.into_spec()@.len(),
            ),
        ensures
            res.storage() == orig.into_spec(),
            res@ == raster_of::<FMT, S>(&orig).with_bytes(orig.into_spec()@),
            res@.wf(),
    {
        let width = orig.width();
        let height = orig.height();
        let stride = orig.stride();
        let buf: Vec<u8> = orig.into();
        Self { width, height, stride, buf, fmt: PhantomData }
    }

    /// Copies the geometry and the whole buffer of `frame`.
    pub fn copy_from<FRAME: ImageStride<FMT>>(frame: &FRAME) -> (res: OImage<FMT>)
        ensures
            res@ == raster_of::<FMT, FRAME>(frame),
    {
        let width = frame.width();
        let height = frame.height();
        let stride = frame.stride();
        let buf = vstd::slice::slice_to_vec(frame.image_data());
        Self { width, height, stride, buf, fmt: PhantomData }
    }
}

impl<FMT: PixelFormat> Clone for OImage<FMT> {
    fn clone(&self) -> (res: Self)
        ensures
            res@ == self@,
    {
        Self::copy_from(self)
    }
}

impl<F: PixelFormat> From<OImage<F>> for Vec<u8> {
    fn from(orig: OImage<F>) -> (buf: Vec<u8>) {
        orig.buf
    }
}

impl<F: PixelFormat> FromSpecImpl<OImage<F>> for Vec<u8> {
    open spec fn obeys_from_spec() -> bool {
        true
    }

    open spec fn from_spec(orig: OImage<F>) -> Vec<u8> {
        orig.storage()
    }
}

impl<F: PixelFormat> From<Box<OImage<F>>> for Vec<u8> {
    fn from(orig: Box<OImage<F>>) -> (buf: Vec<u8>) {
        let img: OImage<F> = *orig;
        img.buf
    }
}

impl<F: PixelFormat> FromSpecImpl<Box<OImage<F>>> for Vec<u8> {
    open spec fn obeys_from_spec() -> bool {
        true
    }

    open spec fn from_spec(orig: Box<OImage<F>>) -> Vec<u8> {
        orig.storage()
    }
}

} // verus!
