//! Buffer layout arithmetic.
//!
//! An image of `height` rows keeps the starts of consecutive rows `stride`
//! bytes apart. Only the first `valid_row_width` bytes of a row hold pixels;
//! whatever follows up to the stride is padding. The last row needs no
//! padding, which gives the smallest buffer an image can live in.
//!
//! The `spec` functions work over unbounded naturals. The executable
//! ones compute the same numbers in integer types wide enough for every
//! `u32` dimension and every `usize` stride.

use vstd::prelude::*;

verus! {

/// Bytes taken by the pixels of one row: `bits_per_pixel * width / 8`, rounded
/// down.
pub open spec fn valid_row_width(bits_per_pixel: nat, width: nat) -> nat {
    (bits_per_pixel * width) / 8
}

/// Length of the smallest buffer that holds the image: nothing for an image
/// without rows, otherwise `height - 1` full strides and one valid row.
pub open spec fn required_len(bits_per_pixel: nat, width: nat, height: nat, stride: nat) -> nat {
    if height == 0 {
        0
    } else {
        (stride * (height - 1) + valid_row_width(bits_per_pixel, width)) as nat
    }
}

/// Whether a buffer of `len` bytes is long enough for the image.
pub open spec fn buffer_fits(
    bits_per_pixel: nat,
    width: nat,
    height: nat,
    stride: nat,
    len: nat,
) -> bool {
    len >= required_len(bits_per_pixel, width, height, stride)
}

/// A buffer of exactly the required length fits, and no shorter one does:
/// not the one that is a single byte short, nor any other.
pub proof fn lemma_required_len_is_tight(
    bits_per_pixel: nat,
    width: nat,
    height: nat,
    stride: nat,
    len: nat,
)
    ensures
        buffer_fits(
            bits_per_pixel,
            width,
            height,
            stride,
            required_len(bits_per_pixel, width, height, stride),
        ),
        len < required_len(bits_per_pixel, width, height, stride) ==> !buffer_fits(
            bits_per_pixel,
            width,
            height,
            stride,
            len,
        ),
{
}

/// An image without rows fits every buffer, the empty one included.
pub proof fn lemma_no_rows_fit_any_buffer(bits_per_pixel: nat, width: nat, stride: nat, len: nat)
    ensures
        required_len(bits_per_pixel, width, 0, stride) == 0,
        buffer_fits(bits_per_pixel, width, 0, stride, len),
{
}

/// Computes the valid row width in bytes.
pub fn row_bytes(bits_per_pixel: u8, width: u32) -> (bytes: u64)
    ensures
        bytes == valid_row_width(bits_per_pixel as nat, width as nat),
{
    assert(bits_per_pixel as nat * width as nat <= 255 * 0xffff_ffff) by (nonlinear_arith)
        requires
            bits_per_pixel <= 255,
            width <= 0xffff_ffff,
    ;
    (bits_per_pixel as u64 * width as u64) / 8
}

/// Computes the required buffer length. The result may exceed `usize::MAX`,
/// in which case no buffer can hold the image.
pub fn min_buffer_len(bits_per_pixel: u8, width: u32, height: u32, stride: usize) -> (len: u128)
    ensures
        len == required_len(bits_per_pixel as nat, width as nat, height as nat, stride as nat),
{
    if height == 0 {
        return 0;
    }
    let row: u64 = row_bytes(bits_per_pixel, width);
    assert(0 <= stride as nat * (height - 1) <= 0xffff_ffff_ffff_ffff * 0xffff_ffff)
        by (nonlinear_arith)
        requires
            stride <= 0xffff_ffff_ffff_ffff,
            1 <= height <= 0xffff_ffff,
    ;
    stride as u128 * (height as u128 - 1) + row as u128
}

/// Decides whether a buffer of `len` bytes is long enough for the image.
pub fn check_buffer(bits_per_pixel: u8, width: u32, height: u32, stride: usize, len: usize) -> (ok:
    bool)
    ensures
        ok == buffer_fits(
            bits_per_pixel as nat,
            width as nat,
            height as nat,
            stride as nat,
            len as nat,
        ),
{
    len as u128 >= min_buffer_len(bits_per_pixel, width, height, stride)
}

} // verus!
