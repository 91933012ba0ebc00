//! Pixel format tags.
//!
//! A pixel format is named by a zero-sized type. Images carry the tag as a
//! type parameter, so two images of different encodings never unify, and the
//! only fact the rest of the crate asks of a tag is how many bits one pixel
//! takes.

use vstd::prelude::*;

verus! {

/// A compile-time tag naming a pixel encoding.
pub trait PixelFormat {
    /// The number of bits one pixel occupies, averaged over a row.
    spec fn spec_bits_per_pixel() -> u8;

    /// Returns the number of bits one pixel occupies.
    fn bits_per_pixel() -> (bits: u8)
        ensures
            bits == Self::spec_bits_per_pixel(),
    ;
}

/// Luminance, one byte per pixel.
#[derive(Clone, Copy, Debug)]
pub struct Mono8;

/// Red, green and blue, one byte each.
#[derive(Clone, Copy, Debug)]
pub struct RGB8;

/// Packed luminance and chrominance, three bytes per pixel.
#[derive(Clone, Copy, Debug)]
pub struct YUV444;

/// Packed luminance with chrominance shared by two pixels, two bytes per pixel.
#[derive(Clone, Copy, Debug)]
pub struct YUV422;

/// Planar luminance followed by interleaved half-resolution chrominance,
/// twelve bits per pixel on average.
#[derive(Clone, Copy, Debug)]
pub struct NV12;

impl PixelFormat for Mono8 {
    open spec fn spec_bits_per_pixel() -> u8 {
        8
    }

    fn bits_per_pixel() -> (bits: u8) {
        8
    }
}

impl PixelFormat for RGB8 {
    open spec fn spec_bits_per_pixel() -> u8 {
        24
    }

    fn bits_per_pixel() -> (bits: u8) {
        24
    }
}

impl PixelFormat for YUV444 {
    open spec fn spec_bits_per_pixel() -> u8 {
        24
    }

    fn bits_per_pixel() -> (bits: u8) {
        24
    }
}

impl PixelFormat for YUV422 {
    open spec fn spec_bits_per_pixel() -> u8 {
        16
    }

    fn bits_per_pixel() -> (bits: u8) {
        16
    }
}

impl PixelFormat for NV12 {
    open spec fn spec_bits_per_pixel() -> u8 {
        12
    }

    fn bits_per_pixel() -> (bits: u8) {
        12
    }
}

} // verus!
