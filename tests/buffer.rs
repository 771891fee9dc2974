use epd_waveshare_async::buffer::{binary_buffer_length, BinaryBuffer, BinaryColor, DrawTarget, Pixel};
use epd_waveshare_async::geometry::{Point, Rectangle, Size};
use epd_waveshare_async::gray2::{gray2_split_buffer_length, Gray2, Gray2SplitBuffer};
use epd_waveshare_async::rotation::{Rotate, RotatedBuffer, Rotation};
use epd_waveshare_async::BufferView;

#[test]
fn test_binary_buffer_draw_iter_singles() {
    let size = Size::new(16, 4);
    assert_eq!(binary_buffer_length(size), 8);
    let mut buffer = BinaryBuffer::<8>::new(size);

    // Draw a pixel at the beginning.
    buffer.draw_iter(&[Pixel(Point::new(0, 0), BinaryColor::On)]);
    assert_eq!(buffer.data()[0], 0b10000000);

    // Draw a pixel in the center.
    buffer.draw_iter(&[Pixel(Point::new(10, 2), BinaryColor::On)]);
    assert_eq!(buffer.data()[5], 0b00100000);

    // Draw a pixel at the end.
    buffer.draw_iter(&[Pixel(Point::new(15, 3), BinaryColor::On)]);
    assert_eq!(buffer.data()[7], 0b1);
}

#[test]
fn test_binary_buffer_draw_iter_multiple() {
    let mut buffer = BinaryBuffer::<8>::new(Size::new(16, 4));

    // Draw several pixels in a row.
    buffer.draw_iter(&[
        Pixel(Point::new(1, 0), BinaryColor::On),
        Pixel(Point::new(2, 0), BinaryColor::On),
        Pixel(Point::new(3, 0), BinaryColor::On),
        Pixel(Point::new(2, 0), BinaryColor::Off),
        Pixel(Point::new(1, 1), BinaryColor::On),
    ]);

    assert_eq!(buffer.data()[0], 0b01010000);
    assert_eq!(buffer.data()[2], 0b01000000);
}

#[test]
fn test_binary_buffer_draw_iter_out_of_bounds() {
    let mut buffer = BinaryBuffer::<8>::new(Size::new(16, 4));
    let previous_data = buffer.data().to_vec();

    buffer.draw_iter(&[
        Pixel(Point::new(-1, 0), BinaryColor::On),
        Pixel(Point::new(0, -1), BinaryColor::On),
        Pixel(Point::new(16, 0), BinaryColor::On),
        Pixel(Point::new(0, 4), BinaryColor::On),
    ]);

    assert_eq!(
        buffer.data(),
        &previous_data[..],
        "Data should not change when drawing out-of-bounds pixels."
    );
}

#[test]
fn test_binary_buffer_fill_continguous() {
    let size = Size::new(24, 8);
    assert_eq!(binary_buffer_length(size), 24);
    let mut buffer = BinaryBuffer::<24>::new(size);

    // Draw diagonal squares.
    buffer.fill_contiguous(
        &Rectangle::new(Point::new(-4, -4), Size::new(8, 8)),
        &[BinaryColor::On; 8 * 8],
    );
    // Go out of bounds to ensure it doesn't panic.
    buffer.fill_contiguous(
        &Rectangle::new(Point::new(6, 2), Size::new(12, 4)),
        &[BinaryColor::On; 12 * 4],
    );
    buffer.fill_contiguous(
        &Rectangle::new(Point::new(20, 4), Size::new(8, 8)),
        &[BinaryColor::On; 8 * 8],
    );

    let expected: [u8; 3 * 8] = [
        0b11110000, 0b00000000, 0b00000000,
        0b11110000, 0b00000000, 0b00000000,
        0b11110011, 0b11111111, 0b11000000,
        0b11110011, 0b11111111, 0b11000000,
        0b00000011, 0b11111111, 0b11001111,
        0b00000011, 0b11111111, 0b11001111,
        0b00000000, 0b00000000, 0b00001111,
        0b00000000, 0b00000000, 0b00001111,
    ];
    assert_eq!(buffer.data(), &expected);
}

#[test]
fn test_binary_buffer_fill_solid() {
    let mut buffer = BinaryBuffer::<24>::new(Size::new(24, 8));

    // Draw diagonal squares.
    buffer.fill_solid(&Rectangle::new(Point::new(-4, -4), Size::new(8, 8)), BinaryColor::On);
    // Go out of bounds to ensure it doesn't panic.
    buffer.fill_solid(&Rectangle::new(Point::new(6, 2), Size::new(12, 4)), BinaryColor::On);
    buffer.fill_solid(&Rectangle::new(Point::new(20, 4), Size::new(8, 8)), BinaryColor::On);

    let expected: [u8; 3 * 8] = [
        0b11110000, 0b00000000, 0b00000000,
        0b11110000, 0b00000000, 0b00000000,
        0b11110011, 0b11111111, 0b11000000,
        0b11110011, 0b11111111, 0b11000000,
        0b00000011, 0b11111111, 0b11001111,
        0b00000011, 0b11111111, 0b11001111,
        0b00000000, 0b00000000, 0b00001111,
        0b00000000, 0b00000000, 0b00001111,
    ];
    assert_eq!(buffer.data(), &expected);
}

// A fill whose width ends on the buffer's right edge must still fill its last full bytes.
#[test]
fn test_binary_buffer_fill_solid_offset() {
    let mut buffer = BinaryBuffer::<24>::new(Size::new(24, 8));

    // Fill a rectangle with a width of 18.
    buffer.fill_solid(&Rectangle::new(Point::new(6, 2), Size::new(18, 3)), BinaryColor::On);

    let expected: [u8; 3 * 8] = [
        0b00000000, 0b00000000, 0b00000000,
        0b00000000, 0b00000000, 0b00000000,
        0b00000011, 0b11111111, 0b11111111,
        0b00000011, 0b11111111, 0b11111111,
        0b00000011, 0b11111111, 0b11111111,
        0b00000000, 0b00000000, 0b00000000,
        0b00000000, 0b00000000, 0b00000000,
        0b00000000, 0b00000000, 0b00000000,
    ];
    assert_eq!(buffer.data(), &expected);
}

#[test]
fn test_gray2_split_buffer_draw_iter_singles() {
    let size = Size::new(16, 4);
    assert_eq!(gray2_split_buffer_length(size), 8);
    let mut buffer = Gray2SplitBuffer::<8>::new(size);

    // Draw a pixel at the beginning.
    buffer.draw_iter(&[Pixel(Point::new(0, 0), Gray2::new(0b11))]);
    assert_eq!(buffer.low.data()[0], 0b10000000);
    assert_eq!(buffer.high.data()[0], 0b10000000);

    // Draw a pixel in the center.
    buffer.draw_iter(&[Pixel(Point::new(10, 2), Gray2::new(0b10))]);
    assert_eq!(BufferView::data(&buffer)[0][5], 0b00000000);
    assert_eq!(BufferView::data(&buffer)[1][5], 0b00100000);

    // Draw a pixel at the end.
    buffer.draw_iter(&[Pixel(Point::new(15, 3), Gray2::new(0b01))]);
    assert_eq!(buffer.low.data()[7], 0b1);
    assert_eq!(buffer.high.data()[7], 0b0);
}

#[test]
fn test_gray2_buffer_draw_iter_multiple() {
    let mut buffer = Gray2SplitBuffer::<8>::new(Size::new(16, 4));

    buffer.draw_iter(&[
        Pixel(Point::new(1, 0), Gray2::new(0b11)),
        Pixel(Point::new(2, 0), Gray2::new(0b11)),
        Pixel(Point::new(3, 0), Gray2::new(0b01)),
        Pixel(Point::new(2, 0), Gray2::new(0)),
        Pixel(Point::new(1, 1), Gray2::new(0b10)),
    ]);

    assert_eq!(buffer.low.data()[0], 0b01010000);
    assert_eq!(buffer.high.data()[0], 0b01000000);
    assert_eq!(buffer.low.data()[2], 0b00000000);
    assert_eq!(buffer.high.data()[2], 0b01000000);
}

#[test]
fn test_gray2_buffer_draw_iter_out_of_bounds() {
    let mut buffer = Gray2SplitBuffer::<8>::new(Size::new(16, 4));
    let previous = buffer.clone();

    buffer.draw_iter(&[
        Pixel(Point::new(-1, 0), Gray2::new(0b11)),
        Pixel(Point::new(0, -1), Gray2::new(0b11)),
        Pixel(Point::new(16, 0), Gray2::new(0b11)),
        Pixel(Point::new(0, 4), Gray2::new(0b11)),
    ]);

    assert_eq!(
        BufferView::data(&buffer),
        BufferView::data(&previous),
        "Data should not change when drawing out-of-bounds pixels."
    );
}

#[test]
fn test_gray2_buffer_fill_solid() {
    let mut buffer = Gray2SplitBuffer::<24>::new(Size::new(24, 8));

    // Draw diagonal squares.
    buffer.fill_solid(&Rectangle::new(Point::new(-4, -4), Size::new(8, 8)), Gray2::new(0b11));
    // Go out of bounds to ensure it doesn't panic.
    buffer.fill_solid(&Rectangle::new(Point::new(6, 2), Size::new(12, 4)), Gray2::new(0b10));
    buffer.fill_solid(&Rectangle::new(Point::new(20, 4), Size::new(8, 8)), Gray2::new(0b01));

    let expected_low: [u8; 3 * 8] = [
        0b11110000, 0b00000000, 0b00000000,
        0b11110000, 0b00000000, 0b00000000,
        0b11110000, 0b00000000, 0b00000000,
        0b11110000, 0b00000000, 0b00000000,
        0b00000000, 0b00000000, 0b00001111,
        0b00000000, 0b00000000, 0b00001111,
        0b00000000, 0b00000000, 0b00001111,
        0b00000000, 0b00000000, 0b00001111,
    ];
    let expected_high: [u8; 3 * 8] = [
        0b11110000, 0b00000000, 0b00000000,
        0b11110000, 0b00000000, 0b00000000,
        0b11110011, 0b11111111, 0b11000000,
        0b11110011, 0b11111111, 0b11000000,
        0b00000011, 0b11111111, 0b11000000,
        0b00000011, 0b11111111, 0b11000000,
        0b00000000, 0b00000000, 0b00000000,
        0b00000000, 0b00000000, 0b00000000,
    ];
    assert_eq!(BufferView::data(&buffer)[0], &expected_low);
    assert_eq!(BufferView::data(&buffer)[1], &expected_high);
}

#[test]
fn test_rotated_buffer_bounds() {
    let size = Size::new(8, 24);

    let mut rotated_buffer = RotatedBuffer::new(BinaryBuffer::<24>::new(size), Rotate::Degrees90);
    assert_eq!(
        rotated_buffer.bounding_box(),
        Rectangle::new(Point::new(0, 0), Size::new(24, 8))
    );

    rotated_buffer = RotatedBuffer::new(BinaryBuffer::<24>::new(size), Rotate::Degrees180);
    assert_eq!(
        rotated_buffer.bounding_box(),
        Rectangle::new(Point::new(0, 0), Size::new(8, 24))
    );

    rotated_buffer = RotatedBuffer::new(BinaryBuffer::<24>::new(size), Rotate::Degrees270);
    assert_eq!(
        rotated_buffer.bounding_box(),
        Rectangle::new(Point::new(0, 0), Size::new(24, 8))
    );
}

fn diagonal() -> [Pixel<BinaryColor>; 4] {
    [
        Pixel(Point::new(-1, -1), BinaryColor::On), // Should be ignored.
        Pixel(Point::new(0, 0), BinaryColor::On),
        Pixel(Point::new(1, 1), BinaryColor::On),
        Pixel(Point::new(2, 2), BinaryColor::On),
    ]
}

#[test]
fn test_rotated_buffer_draw_iter() {
    let size = Size::new(8, 4);

    let mut rotated_buffer = RotatedBuffer::new(BinaryBuffer::<4>::new(size), Rotate::Degrees90);
    rotated_buffer.draw_iter(&diagonal());
    let expected: [u8; 4] = [0b00000001, 0b00000010, 0b00000100, 0b00000000];
    assert_eq!(rotated_buffer.inner().data(), &expected);

    rotated_buffer = RotatedBuffer::new(BinaryBuffer::<4>::new(size), Rotate::Degrees180);
    rotated_buffer.draw_iter(&diagonal());
    let expected: [u8; 4] = [0b00000000, 0b00000100, 0b00000010, 0b00000001];
    assert_eq!(rotated_buffer.inner().data(), &expected);

    rotated_buffer = RotatedBuffer::new(BinaryBuffer::<4>::new(size), Rotate::Degrees270);
    rotated_buffer.draw_iter(&diagonal());
    let expected: [u8; 4] = [0b00000000, 0b00100000, 0b01000000, 0b10000000];
    assert_eq!(rotated_buffer.inner().data(), &expected);
}

#[test]
fn test_rotated_buffer_fill_contiguous() {
    let buffer = BinaryBuffer::<6>::new(Size::new(8, 6));
    let area = Rectangle::new(Point::new(-4, -4), Size::new(8, 8));

    let mut rotated_buffer = RotatedBuffer::new(buffer.clone(), Rotate::Degrees90);
    rotated_buffer.fill_contiguous(&area, &[BinaryColor::On; 8 * 8]);
    let expected: [u8; 6] = [0b00001111, 0b00001111, 0b00001111, 0b00001111, 0b00000000, 0b00000000];
    assert_eq!(rotated_buffer.inner().data(), &expected);

    rotated_buffer = RotatedBuffer::new(buffer.clone(), Rotate::Degrees180);
    rotated_buffer.fill_contiguous(&area, &[BinaryColor::On; 8 * 8]);
    let expected: [u8; 6] = [0b00000000, 0b00000000, 0b00001111, 0b00001111, 0b00001111, 0b00001111];
    assert_eq!(rotated_buffer.inner().data(), &expected);

    rotated_buffer = RotatedBuffer::new(buffer.clone(), Rotate::Degrees270);
    rotated_buffer.fill_contiguous(&area, &[BinaryColor::On; 8 * 8]);
    let expected: [u8; 6] = [0b00000000, 0b00000000, 0b11110000, 0b11110000, 0b11110000, 0b11110000];
    assert_eq!(rotated_buffer.inner().data(), &expected);
}

#[test]
fn test_rotated_buffer_fill_solid() {
    let buffer = BinaryBuffer::<6>::new(Size::new(8, 6));
    let area = Rectangle::new(Point::new(-4, -4), Size::new(8, 8));

    let mut rotated_buffer = RotatedBuffer::new(buffer.clone(), Rotate::Degrees90);
    rotated_buffer.fill_solid(&area, BinaryColor::On);
    let expected: [u8; 6] = [0b00001111, 0b00001111, 0b00001111, 0b00001111, 0b00000000, 0b00000000];
    assert_eq!(rotated_buffer.inner().data(), &expected);

    rotated_buffer = RotatedBuffer::new(buffer.clone(), Rotate::Degrees180);
    rotated_buffer.fill_solid(&area, BinaryColor::On);
    let expected: [u8; 6] = [0b00000000, 0b00000000, 0b00001111, 0b00001111, 0b00001111, 0b00001111];
    assert_eq!(rotated_buffer.inner().data(), &expected);

    rotated_buffer = RotatedBuffer::new(buffer.clone(), Rotate::Degrees270);
    rotated_buffer.fill_solid(&area, BinaryColor::On);
    let expected: [u8; 6] = [0b00000000, 0b00000000, 0b11110000, 0b11110000, 0b11110000, 0b11110000];
    assert_eq!(rotated_buffer.inner().data(), &expected);
}

#[test]
fn test_rotate_near_corner() {
    let mut r = Rotate::Degrees90;
    // (1,1) in [10, 20] becomes (18, 1) in [20, 10].
    assert_eq!(Point::new(18, 1), r.rotate_point(Point::new(1, 1), Size::new(10, 20)));
    r = Rotate::Degrees180;
    // (1,1) in [10, 20] becomes (8, 18) in [10, 20].
    assert_eq!(Point::new(8, 18), r.rotate_point(Point::new(1, 1), Size::new(10, 20)));
    r = Rotate::Degrees270;
    // (1,1) in [10, 20] becomes (1, 8) in [20, 10].
    assert_eq!(Point::new(1, 8), r.rotate_point(Point::new(1, 1), Size::new(10, 20)));
}

#[test]
fn test_rotate_centre() {
    let mut r = Rotate::Degrees90;
    assert_eq!(Point::new(2, 2), r.rotate_point(Point::new(2, 2), Size::new(5, 5)));
    r = Rotate::Degrees180;
    assert_eq!(Point::new(2, 2), r.rotate_point(Point::new(2, 2), Size::new(5, 5)));
    r = Rotate::Degrees270;
    assert_eq!(Point::new(2, 2), r.rotate_point(Point::new(2, 2), Size::new(5, 5)));
}

#[test]
fn test_rotate_size() {
    let mut r = Rotate::Degrees90;
    assert_eq!(Size::new(5, 10), r.rotate_size(Size::new(10, 5)));
    r = Rotate::Degrees180;
    assert_eq!(Size::new(10, 5), r.rotate_size(Size::new(10, 5)));
    r = Rotate::Degrees270;
    assert_eq!(Size::new(5, 10), r.rotate_size(Size::new(10, 5)));
}

#[test]
fn test_rotate_rectangle() {
    let mut r = Rotate::Degrees90;
    let rect = Rectangle::new(Point::new(1, 1), Size::new(3, 2));
    // Rotating _into_ an 8x4 destination buffer.
    let mut source_bounds = Size::new(4, 8);
    let rotated = r.rotate_rectangle(rect, source_bounds);
    // The old bottom left is (1, 2), which becomes (5, 1).
    assert_eq!(rotated.top_left, Point::new(5, 1));
    assert_eq!(rotated.size, Size::new(2, 3));

    r = Rotate::Degrees180;
    source_bounds = Size::new(8, 4);
    let rotated = r.rotate_rectangle(rect, source_bounds);
    // The old bottom right is (3, 2), which becomes (4, 1).
    assert_eq!(rotated.top_left, Point::new(4, 1));
    assert_eq!(rotated.size, Size::new(3, 2));

    r = Rotate::Degrees270;
    source_bounds = Size::new(4, 8);
    let rotated = r.rotate_rectangle(rect, source_bounds);
    // The old top right is (3, 1), which becomes (1, 0).
    assert_eq!(rotated.top_left, Point::new(1, 0));
    assert_eq!(rotated.size, Size::new(2, 3));
}
