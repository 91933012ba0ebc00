use machine_vision_formats::image_ref::{ImageRef, ImageRefMut};
use machine_vision_formats::iter::{HasRowChunksExact, HasRowChunksExactMut};
use machine_vision_formats::owned::OImage;
use machine_vision_formats::pixel_format::{Mono8, NV12, RGB8};
use machine_vision_formats::{ImageBuffer, ImageBufferRef, ImageData, Stride};

/// An image that checks nothing.
struct Loose<'a> {
    width: u32,
    height: u32,
    stride: usize,
    buf: &'a [u8],
}

impl Stride for Loose<'_> {
    fn stride(&self) -> usize {
        self.stride
    }
}

impl ImageData<Mono8> for Loose<'_> {
    fn width(&self) -> u32 {
        self.width
    }
    fn height(&self) -> u32 {
        self.height
    }
    fn buffer_ref(&self) -> ImageBufferRef<'_, Mono8> {
        ImageBufferRef::new(self.buf)
    }
    fn buffer(self) -> ImageBuffer<Mono8> {
        self.buffer_ref().to_buffer()
    }
}

fn counting(n: usize) -> Vec<u8> {
    (0..n).map(|i| i as u8).collect()
}

#[test]
fn padding_is_left_out() {
    let data = counting(12);
    let img = ImageRef::<Mono8>::new(2, 3, 4, &data).unwrap();
    let mut rows = img.rowchunks_exact();
    assert_eq!(rows.stride(), 4);
    assert_eq!(rows.valid_width(), 2);
    assert_eq!(rows.next(), Some(&[0, 1][..]));
    assert_eq!(rows.next(), Some(&[4, 5][..]));
    assert_eq!(rows.next(), Some(&[8, 9][..]));
    assert_eq!(rows.next(), None);
    assert_eq!(rows.next(), None);
}

#[test]
fn last_row_needs_no_padding() {
    let data = counting(10);
    let img = ImageRef::<Mono8>::new(2, 3, 4, &data).unwrap();
    let mut rows = img.rowchunks_exact();
    assert_eq!(rows.next(), Some(&[0, 1][..]));
    assert_eq!(rows.next(), Some(&[4, 5][..]));
    assert_eq!(rows.next(), Some(&[8, 9][..]));
    assert_eq!(rows.next(), None);
}

#[test]
fn bytes_past_the_last_stride_are_not_rows() {
    let data = counting(40);
    let img = ImageRef::<Mono8>::new(2, 3, 4, &data).unwrap();
    let mut rows = img.rowchunks_exact();
    assert_eq!(rows.next(), Some(&[0, 1][..]));
    assert_eq!(rows.next(), Some(&[4, 5][..]));
    assert_eq!(rows.next(), Some(&[8, 9][..]));
    assert_eq!(rows.next(), None);
}

#[test]
fn three_byte_pixels_give_three_bytes_each() {
    let data = counting(16);
    let img = OImage::<RGB8>::new(2, 2, 10, data).unwrap();
    let mut rows = img.rowchunks_exact();
    assert_eq!(rows.valid_width(), 6);
    assert_eq!(rows.next(), Some(&[0, 1, 2, 3, 4, 5][..]));
    assert_eq!(rows.next(), Some(&[10, 11, 12, 13, 14, 15][..]));
    assert_eq!(rows.next(), None);
}

#[test]
fn row_width_rounds_down() {
    let data = counting(16);
    let img = OImage::<NV12>::new(5, 2, 8, data).unwrap();
    let mut rows = img.rowchunks_exact();
    assert_eq!(rows.valid_width(), 7);
    assert_eq!(rows.next(), Some(&[0, 1, 2, 3, 4, 5, 6][..]));
    assert_eq!(rows.next(), Some(&[8, 9, 10, 11, 12, 13, 14][..]));
    assert_eq!(rows.next(), None);
}

#[test]
fn short_buffer_gives_fewer_rows() {
    let data = counting(9);
    let img = Loose {
        width: 2,
        height: 4,
        stride: 4,
        buf: &data,
    };
    let mut rows = img.rowchunks_exact();
    assert_eq!(rows.next(), Some(&[0, 1][..]));
    assert_eq!(rows.next(), Some(&[4, 5][..]));
    // One byte is left, which is no row.
    assert_eq!(rows.next(), None);
    assert_eq!(rows.next(), None);
}

#[test]
fn empty_buffer_gives_no_rows() {
    let data: [u8; 0] = [];
    let img = Loose {
        width: 2,
        height: 4,
        stride: 4,
        buf: &data,
    };
    let mut rows = img.rowchunks_exact();
    assert_eq!(rows.next(), None);
}

#[test]
fn no_height_gives_no_rows() {
    let data = counting(12);
    let img = ImageRef::<Mono8>::new(2, 0, 4, &data).unwrap();
    let mut rows = img.rowchunks_exact();
    assert_eq!(rows.next(), None);
}

#[test]
fn rows_of_no_width_do_not_end() {
    let data = counting(12);
    let empty: &[u8] = &[];
    let img = ImageRef::<Mono8>::new(0, 2, 4, &data).unwrap();
    let mut rows = img.rowchunks_exact();
    assert_eq!(rows.valid_width(), 0);
    for _ in 0..10 {
        assert_eq!(rows.next(), Some(empty));
    }
}

#[test]
fn stride_below_the_row_width_gives_overlapping_rows() {
    let data = counting(9);
    let img = Loose {
        width: 3,
        height: 4,
        stride: 2,
        buf: &data,
    };
    let mut rows = img.rowchunks_exact();
    // Eight bytes are looked at: four strides of two.
    assert_eq!(rows.next(), Some(&[0, 1, 2][..]));
    assert_eq!(rows.next(), Some(&[2, 3, 4][..]));
    assert_eq!(rows.next(), Some(&[4, 5, 6][..]));
    assert_eq!(rows.next(), None);
}

#[test]
fn mutable_rows_leave_padding_out() {
    let mut img = OImage::<Mono8>::new(2, 3, 4, counting(12)).unwrap();
    {
        let mut rows = img.rowchunks_exact_mut();
        assert_eq!(rows.stride(), 4);
        assert_eq!(rows.valid_width(), 2);
        assert!(rows.rows_are_disjoint());
        assert_eq!(rows.next(), Some(&mut [0, 1][..]));
        assert_eq!(rows.next(), Some(&mut [4, 5][..]));
        assert_eq!(rows.next(), Some(&mut [8, 9][..]));
        assert_eq!(rows.next(), None);
        assert_eq!(rows.next(), None);
    }
    assert_eq!(img.image_data(), &counting(12)[..]);
}

#[test]
fn written_rows_are_read_back_from_the_image() {
    let mut img = OImage::<Mono8>::new(2, 3, 4, counting(10)).unwrap();
    {
        let mut rows = img.rowchunks_exact_mut();
        let first = rows.next().unwrap();
        let second = rows.next().unwrap();
        let third = rows.next().unwrap();
        // The rows are apart, so all three can be held at once.
        third[1] = 33;
        first[0] = 11;
        second[0] = 22;
        assert!(rows.next().is_none());
    }
    assert_eq!(img.image_data(), &[11, 1, 2, 3, 22, 5, 6, 7, 8, 33]);
    assert_eq!(img.width(), 2);
    assert_eq!(img.height(), 3);
    assert_eq!(img.stride(), 4);
    let mut rows = img.rowchunks_exact();
    assert_eq!(rows.next(), Some(&[11, 1][..]));
    assert_eq!(rows.next(), Some(&[22, 5][..]));
    assert_eq!(rows.next(), Some(&[8, 33][..]));
    assert_eq!(rows.next(), None);
}

#[test]
fn written_rows_reach_the_borrowed_bytes() {
    let mut data = counting(12);
    {
        let mut img = ImageRefMut::<Mono8>::new(2, 3, 4, &mut data).unwrap();
        let mut rows = img.rowchunks_exact_mut();
        rows.next().unwrap()[1] = 100;
        rows.next().unwrap()[0] = 101;
    }
    assert_eq!(data, [0, 100, 2, 3, 101, 5, 6, 7, 8, 9, 10, 11]);
}

#[test]
fn mutable_cursor_tells_when_rows_would_overlap() {
    // Valid width 3 over stride 2: the first step would overlap the second.
    let mut wide = OImage::<Mono8>::new(3, 4, 2, counting(9)).unwrap();
    assert!(!wide.rowchunks_exact_mut().rows_are_disjoint());
    // The same geometry without a row left to give.
    let mut short = OImage::<Mono8>::new(3, 0, 2, counting(2)).unwrap();
    let mut rows = short.rowchunks_exact_mut();
    assert!(rows.rows_are_disjoint());
    assert_eq!(rows.next(), None);
}
