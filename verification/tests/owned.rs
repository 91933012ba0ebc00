use machine_vision_formats::owned::OImage;
use machine_vision_formats::pixel_format::RGB8;
use machine_vision_formats::{ImageData, Stride};

#[test]
fn test_alloc() {
    // test the key size of 0 and some other arbitrary size.
    for width in [0, 640] {
        for height in [0, 480] {
            let min_stride = (width * 3) as usize; // RGB8 has 3 bytes per pixel
            for stride in [min_stride, min_stride + 10] {
                // Test zeros.
                let img = OImage::<RGB8>::zeros(width, height, stride).unwrap();
                assert_eq!(img.width(), width);
                assert_eq!(img.height(), height);
                assert_eq!(img.stride(), stride);

                // Test new.
                let sz = height as usize * stride;
                let buf = vec![0u8; sz]; // allocate buffer
                let img = OImage::<RGB8>::new(width, height, stride, buf).unwrap();
                assert_eq!(img.width(), width);
                assert_eq!(img.height(), height);
                assert_eq!(img.stride(), stride);
            }
        }
    }
}
