//! Types to facilitate iterating over images
//!
//! A row cursor walks the buffer of an image from the top. Each step hands
//! out the pixel bytes of one row and moves on by one stride, so padding
//! between rows is never seen. A buffer that ends early gives fewer rows; it
//! is never an error.

use crate::layout::{required_len, row_bytes, valid_row_width};
use crate::pixel_format::PixelFormat;
use crate::raster::{raster_of, Raster};
use crate::{ImageMutStride, ImageStride};
use vstd::prelude::*;

verus! {

/// What a row cursor is: the bytes not yet walked, the stride and the valid
/// row width.
#[verifier::ext_equal]
pub struct RowCursor {
    /// The bytes not yet walked.
    pub remaining: Seq<u8>,
    /// Bytes between the starts of consecutive rows.
    pub stride: nat,
    /// Bytes taken by the pixels of one row.
    pub valid_width: nat,
}

impl RowCursor {
    /// Whether the cursor has a row to give: a whole valid row remains.
    pub open spec fn has_row(self) -> bool {
        self.remaining.len() >= self.valid_width
    }

    /// The row the cursor gives next: the first valid row width of what
    /// remains.
    pub open spec fn row(self) -> Seq<u8> {
        self.remaining.take(self.valid_width as int)
    }

    /// What the step passes over after the row: the padding up to the
    /// stride, or all that is left where less than a stride remains.
    pub open spec fn padding(self) -> Seq<u8> {
        if self.remaining.len() > self.stride {
            self.remaining.subrange(self.valid_width as int, self.stride as int)
        } else {
            self.remaining.skip(self.valid_width as int)
        }
    }

    /// The cursor after it gave a row: one stride further, or at the end
    /// where no more than a stride remained.
    pub open spec fn advance(self) -> RowCursor {
        RowCursor {
            remaining: if self.remaining.len() > self.stride {
                self.remaining.skip(self.stride as int)
            } else {
                Seq::empty()
            },
            ..self
        }
    }

    /// The cursor after it gave `n` rows.
    pub open spec fn after(self, n: nat) -> RowCursor
        decreases n,
    {
        if n == 0 {
            self
        } else {
            self.after((n - 1) as nat).advance()
        }
    }
}

/// The number of buffer bytes that row iteration looks at: no more than
/// `height` strides, and no more than there are.
pub open spec fn usable_len(len: nat, stride: nat, height: nat) -> nat {
    if len <= stride * height {
        len
    } else {
        stride * height
    }
}

impl Raster {
    /// The cursor at the top of the image.
    pub open spec fn cursor(self) -> RowCursor {
        RowCursor {
            remaining: self.bytes.take(
                usable_len(self.bytes.len(), self.stride, self.height) as int,
            ),
            stride: self.stride,
            valid_width: self.valid_row_width(),
        }
    }
}

/// Computes [`usable_len`].
pub fn clamp_len(len: usize, stride: usize, height: u32) -> (n: usize)
    ensures
        n == usable_len(len as nat, stride as nat, height as nat),
{
    assert(0 <= stride as nat * height as nat <= 0xffff_ffff_ffff_ffff * 0xffff_ffff)
        by (nonlinear_arith)
        requires
            stride <= 0xffff_ffff_ffff_ffff,
            height <= 0xffff_ffff,
    ;
    let full: u128 = stride as u128 * height as u128;
    if len as u128 <= full {
        len
    } else {
        full as usize
    }
}

/// An image whose rows can be iterated over.
pub trait HasRowChunksExact<F: PixelFormat>: ImageStride<F> + Sized {
    /// Returns a cursor at the top of the image.
    fn rowchunks_exact(&self) -> (rows: RowChunksExact<'_>)
        ensures
            rows@ == raster_of::<F, Self>(self).cursor(),
    ;
}

impl<S, F> HasRowChunksExact<F> for S where S: ImageStride<F>, F: PixelFormat {
    fn rowchunks_exact(&self) -> (rows: RowChunksExact<'_>) {
        let valid_stride = row_bytes(F::bits_per_pixel(), self.width());
        let stride = self.stride();
        let height = self.height();
        let buf = self.buffer_ref().data;
        let max_len = clamp_len(buf.len(), stride, height);
        let buf = vstd::slice::slice_subrange(buf, 0, max_len);
        RowChunksExact { buf, stride, valid_stride }
    }
}

/// A cursor over the rows of an image.
pub struct RowChunksExact<'a> {
    buf: &'a [u8],
    stride: usize,
    valid_stride: u64,
}

impl<'a> View for RowChunksExact<'a> {
    type V = RowCursor;

    closed spec fn view(&self) -> RowCursor {
        RowCursor {
            remaining: self.buf@,
            stride: self.stride as nat,
            valid_width: self.valid_stride as nat,
        }
    }
}

impl<'a> RowChunksExact<'a> {
    /// Bytes between the starts of consecutive rows.
    pub fn stride(&self) -> (s: usize)
        ensures
            s == self@.stride,
    {
        self.stride
    }

    /// Bytes taken by the pixels of one row.
    pub fn valid_width(&self) -> (w: u64)
        ensures
            w == self@.valid_width,
    {
        self.valid_stride
    }

    /// Gives the next row and moves on, or gives `None` and stays where it
    /// is once less than a valid row remains.
    pub fn next(&mut self) -> (res: Option<&'a [u8]>)
        ensures
            match res {
                Some(row) => {
                    &&& old(self)@.has_row()
                    &&& row@ == old(self)@.row()
                    &&& final(self)@ =~= old(self)@.advance()
                },
                None => !old(self)@.has_row() && *final(self) == *old(self),
            },
    {
        if self.buf.len() as u64 >= self.valid_stride {
            let data: &'a [u8] = self.buf;
            let (row, _) = data.split_at(self.valid_stride as usize);
            if data.len() > self.stride {
                let (_, rest) = data.split_at(self.stride);
                self.buf = rest;
            } else {
                self.buf = &[];
            }
            Some(row)
        } else {
            None
        }
    }
}

/// An image whose mutable rows can be iterated over.
pub trait HasRowChunksExactMut<F: PixelFormat>: ImageMutStride<F> + Sized {
    /// Returns a cursor at the top of the image that gives the rows
    /// mutably. The image ends up holding what the cursor's bytes end up
    /// as, followed by the bytes that the cursor never looks at.
    fn rowchunks_exact_mut(&mut self) -> (rows: RowChunksExactMut<'_>)
        ensures
            rows@ == raster_of::<F, Self>(&*old(self)).cursor(),
            final(self).bytes() == final(rows.store())@ + old(self).bytes().skip(
                rows@.remaining.len() as int,
            ),
            final(self).spec_width() == old(self).spec_width(),
            final(self).spec_height() == old(self).spec_height(),
            final(self).frame() == old(self).frame(),
            final(final(self).backing())@ == final(old(self).backing())@,
    ;
}

impl<S, F> HasRowChunksExactMut<F> for S where S: ImageMutStride<F>, F: PixelFormat {
    fn rowchunks_exact_mut(&mut self) -> (rows: RowChunksExactMut<'_>) {
        let valid_stride = row_bytes(F::bits_per_pixel(), self.width());
        let stride = self.stride();
        let height = self.height();
        let buf = self.buffer_mut_ref().data;
        let max_len = clamp_len(buf.len(), stride, height);
        let (buf, _) = buf.split_at_mut(max_len);
        RowChunksExactMut { buf, stride, valid_stride }
    }
}

/// A cursor over the rows of an image that gives each row mutably.
pub struct RowChunksExactMut<'a> {
    buf: &'a mut [u8],
    stride: usize,
    valid_stride: u64,
}

impl<'a> View for RowChunksExactMut<'a> {
    type V = RowCursor;

    closed spec fn view(&self) -> RowCursor {
        RowCursor {
            remaining: self.buf@,
            stride: self.stride as nat,
            valid_width: self.valid_stride as nat,
        }
    }
}

impl<'a> RowChunksExactMut<'a> {
    /// The borrowed bytes not yet walked.
    pub closed spec fn store(self) -> &'a mut [u8] {
        self.buf
    }

    /// Once the cursor is no longer used, the bytes it had not walked are
    /// left as they are.
    pub proof fn lemma_released(self)
        requires
            has_resolved(self),
        ensures
            final(self.store())@ == self@.remaining,
    {
    }

    /// Bytes between the starts of consecutive rows.
    pub fn stride(&self) -> (s: usize)
        ensures
            s == self@.stride,
    {
        self.stride
    }

    /// Bytes taken by the pixels of one row.
    pub fn valid_width(&self) -> (w: u64)
        ensures
            w == self@.valid_width,
    {
        self.valid_stride
    }

    /// Whether [`RowChunksExactMut::next`] may be called: no row is left to
    /// give, or the valid row width does not exceed the stride.
    pub fn rows_are_disjoint(&self) -> (ok: bool)
        ensures
            ok == (self@.has_row() ==> self@.valid_width <= self@.stride),
    {
        (self.buf.len() as u64) < self.valid_stride || self.valid_stride <= self.stride as u64
    }

    /// Gives the next row and moves on, or gives `None` and stays where it
    /// is once less than a valid row remains.
    ///
    /// The rows given never overlap, so the valid row width must not exceed
    /// the stride where a row is given. The bytes that the cursor started
    /// the step with end up as: what the row ends up as, then the padding
    /// untouched, then what the rest of the cursor's bytes end up as.
    pub fn next(&mut self) -> (res: Option<&'a mut [u8]>)
        requires
            old(self)@.has_row() ==> old(self)@.valid_width <= old(self)@.stride,
        ensures
            match res {
                Some(row) => {
                    &&& old(self)@.has_row()
                    &&& row@ == old(self)@.row()
                    &&& final(self)@ =~= old(self)@.advance()
                    &&& final(old(self).store())@ == final(row)@ + old(self)@.padding()
                        + final(final(self).store())@
                },
                None => !old(self)@.has_row() && *final(self) == *old(self),
            },
    {
        if self.buf.len() as u64 >= self.valid_stride {
            let valid = self.valid_stride as usize;
            let mut data: &'a mut [u8] = &mut [];
            core::mem::swap(&mut self.buf, &mut data);
            if data.len() > self.stride {
                let (first, rest) = data.split_at_mut(self.stride);
                self.buf = rest;
                let (row, _) = first.split_at_mut(valid);
                Some(row)
            } else {
                let (row, _) = data.split_at_mut(valid);
                Some(row)
            }
        } else {
            None
        }
    }
}

/// Walking a cursor changes neither its stride nor its valid row width.
pub proof fn lemma_after_keeps_widths(c: RowCursor, n: nat)
    ensures
        c.after(n).stride == c.stride,
        c.after(n).valid_width == c.valid_width,
    decreases n,
{
    if n > 0 {
        lemma_after_keeps_widths(c, (n - 1) as nat);
    }
}

proof fn lemma_usable_len_bounds(r: Raster, i: nat)
    requires
        r.wf(),
        r.valid_row_width() <= r.stride,
        i < r.height,
    ensures
        (i + 1) * r.stride == i * r.stride + r.stride,
        i * r.stride + r.valid_row_width() <= r.cursor().remaining.len(),
        r.cursor().remaining.len() <= r.height * r.stride,
        r.cursor().remaining.len() <= r.bytes.len(),
        i + 1 < r.height ==> (i + 1) * r.stride + r.valid_row_width()
            <= r.cursor().remaining.len(),
        i + 1 == r.height ==> r.cursor().remaining.len() <= i * r.stride + r.stride,
{
    let s = r.stride as int;
    let h = r.height as int;
    let k = i as int;
    assert(s * h == s * (h - 1) + s) by (nonlinear_arith);
    assert(h * s == s * h) by (nonlinear_arith);
    assert((k + 1) * s == k * s + s) by (nonlinear_arith);
    assert(k * s <= s * (h - 1)) by (nonlinear_arith)
        requires
            0 <= k <= h - 1,
            0 <= s,
    ;
    if k + 1 < h {
        assert((k + 1) * s <= s * (h - 1)) by (nonlinear_arith)
            requires
                0 <= k + 1 <= h - 1,
                0 <= s,
        ;
    }
    if k + 1 == h {
        assert(k * s == s * (h - 1)) by (nonlinear_arith)
            requires
                k == h - 1,
        ;
    }
}

proof fn lemma_remaining_after(r: Raster, i: nat)
    requires
        r.wf(),
        0 < r.valid_row_width() <= r.stride,
        i < r.height,
    ensures
        r.cursor().after(i).remaining =~= r.cursor().remaining.skip((i * r.stride) as int),
    decreases i,
{
    if i > 0 {
        let j = (i - 1) as nat;
        lemma_remaining_after(r, j);
        lemma_usable_len_bounds(r, j);
        lemma_after_keeps_widths(r.cursor(), j);
        let before = r.cursor().after(j);
        assert(before.remaining.len() > before.stride);
        assert(before.advance().remaining =~= r.cursor().remaining.skip((i * r.stride) as int));
    } else {
        assert(i * r.stride == 0) by (nonlinear_arith)
            requires
                i == 0,
        ;
    }
}

/// Row iteration over a well-formed image whose rows are not empty and
/// not wider than the stride gives the rows of the image in order, one per
/// step, and ends after the last: step `i` gives row `i` for every `i` below
/// the height, and the step after those gives nothing.
pub proof fn lemma_rows_of_raster(r: Raster, i: nat)
    requires
        r.wf(),
        0 < r.valid_row_width() <= r.stride,
        i <= r.height,
    ensures
        i < r.height ==> r.cursor().after(i).has_row() && r.cursor().after(i).row() == r.row(i),
        i == r.height ==> !r.cursor().after(i).has_row(),
{
    lemma_after_keeps_widths(r.cursor(), i);
    if i < r.height {
        lemma_remaining_after(r, i);
        lemma_usable_len_bounds(r, i);
        assert(r.cursor().after(i).row() =~= r.row(i));
    } else if i > 0 {
        let j = (i - 1) as nat;
        lemma_remaining_after(r, j);
        lemma_usable_len_bounds(r, j);
        lemma_after_keeps_widths(r.cursor(), j);
        assert(r.cursor().after(i).remaining =~= Seq::<u8>::empty());
    } else {
        assert(r.stride * r.height == 0) by (nonlinear_arith)
            requires
                r.height == 0,
        ;
    }
}

proof fn lemma_remaining_shrinks(c: RowCursor, n: nat)
    ensures
        c.after(n).remaining.len() == 0 || c.after(n).remaining.len() + n * c.stride
            <= c.remaining.len(),
    decreases n,
{
    if n > 0 {
        let m = (n - 1) as nat;
        lemma_remaining_shrinks(c, m);
        lemma_after_keeps_widths(c, m);
        assert(n * c.stride == m * c.stride + c.stride) by (nonlinear_arith)
            requires
                n == m + 1,
        ;
    } else {
        assert(n * c.stride == 0) by (nonlinear_arith)
            requires
                n == 0,
        ;
    }
}

/// Row iteration never gives more rows than the image is high, however
/// short the buffer, as long as a row is not empty.
pub proof fn lemma_no_row_past_height(r: Raster)
    requires
        0 < r.valid_row_width(),
    ensures
        !r.cursor().after(r.height).has_row(),
{
    let c = r.cursor();
    lemma_remaining_shrinks(c, r.height);
    lemma_after_keeps_widths(c, r.height);
    assert(r.height * r.stride == r.stride * r.height) by (nonlinear_arith);
}

/// A region of `width` by `height` pixels is cut out of a larger buffer
/// `data` of the same stride, starting `r0` rows down and `c0` pixels in.
/// Row iteration over the region gives exactly `height` rows, and row `i` is
/// what `data` holds in row `r0 + i` from column `c0` on, for the width of
/// the region.
pub proof fn lemma_rows_of_region(
    data: Seq<u8>,
    bits_per_pixel: nat,
    stride: nat,
    r0: nat,
    c0: nat,
    width: nat,
    height: nat,
    i: nat,
)
    requires
        0 < valid_row_width(bits_per_pixel, width),
        valid_row_width(bits_per_pixel, c0) + valid_row_width(bits_per_pixel, width) <= stride,
        r0 * stride + valid_row_width(bits_per_pixel, c0) + required_len(
            bits_per_pixel,
            width,
            height,
            stride,
        ) <= data.len(),
        i <= height,
    ensures
        ({
            let left = valid_row_width(bits_per_pixel, c0);
            let region = Raster {
                bits_per_pixel,
                width,
                height,
                stride,
                bytes: data.skip((r0 * stride + left) as int),
            };
            let rows = region.cursor();
            let start = (r0 + i) * stride + left;
            let end = start + valid_row_width(bits_per_pixel, width);
            &&& region.wf()
            &&& i < height ==> rows.after(i).has_row()
            &&& i < height ==> rows.after(i).row() == data.subrange(start as int, end as int)
            &&& i == height ==> !rows.after(i).has_row()
        }),
{
    let left = valid_row_width(bits_per_pixel, c0);
    let region = Raster {
        bits_per_pixel,
        width,
        height,
        stride,
        bytes: data.skip((r0 * stride + left) as int),
    };
    assert(r0 * stride >= 0) by (nonlinear_arith);
    lemma_rows_of_raster(region, i);
    if i < height {
        lemma_usable_len_bounds(region, i);
        assert((r0 + i) * stride == r0 * stride + i * stride) by (nonlinear_arith);
        let start = (r0 + i) * stride + left;
        let end = start + region.valid_row_width();
        assert(region.row(i) =~= data.subrange(start as int, end as int));
    }
}

/// A row is written through a mutable cursor: the cursor's bytes end up as
/// the row as written, the padding as it was, and whatever the rest ends up
/// as. A cursor that reads those bytes again gives the row as written, passes
/// over the same padding, and goes on with the rest.
pub proof fn lemma_written_row_reads_back(c: RowCursor, row: Seq<u8>, rest: Seq<u8>)
    requires
        c.has_row(),
        c.valid_width <= c.stride,
        row.len() == c.valid_width,
        rest.len() == c.advance().remaining.len(),
    ensures
        ({
            let written = RowCursor { remaining: row + c.padding() + rest, ..c };
            &&& written.remaining.len() == c.remaining.len()
            &&& written.has_row()
            &&& written.row() == row
            &&& written.padding() == c.padding()
            &&& written.advance() == RowCursor { remaining: rest, ..c }
        }),
{
    let written = RowCursor { remaining: row + c.padding() + rest, ..c };
    assert(written.row() =~= row);
    assert(written.padding() =~= c.padding());
    assert(written.advance().remaining =~= rest);
}

/// Bytes were written through a mutable cursor over an image. A new cursor
/// over the image starts with exactly the bytes that the mutable cursor
/// left.
pub proof fn lemma_cursor_sees_written(r: Raster, written: Seq<u8>)
    requires
        written.len() == r.cursor().remaining.len(),
    ensures
        r.with_bytes(written + r.bytes.skip(written.len() as int)).cursor() == (RowCursor {
            remaining: written,
            ..r.cursor()
        }),
{
    let after = r.with_bytes(written + r.bytes.skip(written.len() as int));
    assert(after.bytes.len() == r.bytes.len());
    assert(after.cursor().remaining =~= written);
}

} // verus!
