use epd_waveshare_async::buffer::{BinaryBuffer, BinaryColor, DrawTarget, Pixel};
use epd_waveshare_async::geometry::{Point, Rectangle, Size};
use epd_waveshare_async::gray2::{to_low_and_high_as_binary, Gray2, Gray2SplitBuffer};
use epd_waveshare_async::rotation::{Rotate, Rotation};

fn pixel_of(buffer: &BinaryBuffer<24>, x: usize, y: usize) -> bool {
    buffer.data()[y * 3 + x / 8] & (0x80 >> (x % 8)) != 0
}

#[test]
fn set_pixel_reads_back_and_keeps_other_bits() {
    let mut buffer = BinaryBuffer::<24>::new(Size::new(24, 8));
    buffer.fill_solid(&Rectangle::new(Point::new(0, 0), Size::new(24, 8)), BinaryColor::On);
    buffer.set_pixel(Point::new(13, 5), BinaryColor::Off);
    for y in 0..8 {
        for x in 0..24 {
            assert_eq!(pixel_of(&buffer, x, y), !(x == 13 && y == 5));
        }
    }
    buffer.set_pixel(Point::new(13, 5), BinaryColor::On);
    assert!(buffer.data().iter().all(|b| *b == 0xFF));
}

#[test]
fn set_pixel_out_of_bounds_changes_nothing() {
    let mut buffer = BinaryBuffer::<24>::new(Size::new(24, 8));
    buffer.set_pixel(Point::new(3, 3), BinaryColor::On);
    let before = buffer.data().to_vec();
    for p in [
        Point::new(-1, 3),
        Point::new(24, 3),
        Point::new(3, -1),
        Point::new(3, 8),
        Point::new(i32::MIN, i32::MAX),
    ] {
        buffer.set_pixel(p, BinaryColor::On);
        assert_eq!(buffer.data(), &before[..]);
    }
}

#[test]
fn fill_whole_bounds_gives_solid_bytes() {
    let mut buffer = BinaryBuffer::<24>::new(Size::new(24, 8));
    buffer.set_pixel(Point::new(1, 1), BinaryColor::On);
    let whole = buffer.bounding_box();
    buffer.fill_solid(&whole, BinaryColor::On);
    assert_eq!(buffer.data(), &[0xFF; 24]);
    buffer.fill_solid(&whole, BinaryColor::Off);
    assert_eq!(buffer.data(), &[0x00; 24]);
}

#[test]
fn fill_solid_with_zero_sized_or_distant_area_changes_nothing() {
    let mut buffer = BinaryBuffer::<24>::new(Size::new(24, 8));
    buffer.fill_solid(&Rectangle::new(Point::new(2, 2), Size::new(0, 5)), BinaryColor::On);
    buffer.fill_solid(&Rectangle::new(Point::new(30, 2), Size::new(5, 5)), BinaryColor::On);
    buffer.fill_solid(&Rectangle::new(Point::new(-10, -10), Size::new(5, 5)), BinaryColor::On);
    assert_eq!(buffer.data(), &[0x00; 24]);
}

#[test]
fn fill_solid_within_one_byte() {
    let mut buffer = BinaryBuffer::<24>::new(Size::new(24, 8));
    buffer.fill_solid(&Rectangle::new(Point::new(10, 0), Size::new(3, 1)), BinaryColor::On);
    assert_eq!(&buffer.data()[0..3], &[0x00, 0b00111000, 0x00]);
}

#[test]
fn fill_contiguous_consumes_colours_for_out_of_bounds_positions() {
    let mut buffer = BinaryBuffer::<24>::new(Size::new(24, 8));
    // The first row of the area lies above the buffer and consumes the first four colours.
    let colors = [
        BinaryColor::Off, BinaryColor::Off, BinaryColor::Off, BinaryColor::Off,
        BinaryColor::On, BinaryColor::Off, BinaryColor::On, BinaryColor::On,
    ];
    buffer.fill_contiguous(&Rectangle::new(Point::new(0, -1), Size::new(4, 2)), &colors);
    assert_eq!(buffer.data()[0], 0b10110000);
}

#[test]
fn fill_contiguous_stops_when_colours_run_out() {
    let mut buffer = BinaryBuffer::<24>::new(Size::new(24, 8));
    buffer.fill_contiguous(&Rectangle::new(Point::new(0, 0), Size::new(8, 2)), &[BinaryColor::On; 10]);
    assert_eq!(buffer.data()[0], 0xFF);
    assert_eq!(buffer.data()[3], 0b11000000);
}

#[test]
fn rotation_round_trip_on_all_angles() {
    let bounds = Size::new(10, 20);
    for r in [Rotate::Degrees90, Rotate::Degrees180, Rotate::Degrees270] {
        for p in [Point::new(1, 1), Point::new(0, 19), Point::new(9, 0), Point::new(-3, 25)] {
            let q = r.rotate_point(p, bounds);
            assert_eq!(r.inverse().rotate_point(q, r.rotate_size(bounds)), p);
        }
    }
    assert_eq!(Rotate::Degrees90.inverse(), Rotate::Degrees270);
    assert_eq!(Rotate::Degrees180.inverse(), Rotate::Degrees180);
    assert_eq!(Rotate::Degrees270.inverse(), Rotate::Degrees90);
}

#[test]
fn gray2_splits_bits_across_planes() {
    assert_eq!(to_low_and_high_as_binary(Gray2::new(0b10)), (BinaryColor::Off, BinaryColor::On));
    assert_eq!(to_low_and_high_as_binary(Gray2::new(0b01)), (BinaryColor::On, BinaryColor::Off));
    assert_eq!(Gray2::new(0b111).luma(), 0b11);

    let mut buffer = Gray2SplitBuffer::<8>::new(Size::new(16, 4));
    buffer.draw_iter(&[Pixel(Point::new(4, 1), Gray2::new(0b10))]);
    assert_eq!(buffer.low.data()[2], 0);
    assert_eq!(buffer.high.data()[2], 0b00001000);
    buffer.draw_iter(&[Pixel(Point::new(4, 1), Gray2::new(0b01))]);
    assert_eq!(buffer.low.data()[2], 0b00001000);
    assert_eq!(buffer.high.data()[2], 0);
}

#[test]
fn gray2_draw_iter_longer_than_one_batch() {
    let mut buffer = Gray2SplitBuffer::<32>::new(Size::new(16, 16));
    let mut pixels = Vec::new();
    for y in 0..16 {
        for x in 0..16 {
            pixels.push(Pixel(Point::new(x, y), Gray2::new(((x + y) % 4) as u8)));
        }
    }
    // Later pixels win over earlier ones at the same point, across batch boundaries.
    pixels.push(Pixel(Point::new(0, 0), Gray2::new(0b11)));
    buffer.draw_iter(&pixels);
    for y in 0..16usize {
        for x in 0..16usize {
            let luma = if x == 0 && y == 0 { 3 } else { (x + y) % 4 };
            let index = y * 2 + x / 8;
            let mask = 0x80u8 >> (x % 8);
            assert_eq!(buffer.low.data()[index] & mask != 0, luma & 1 != 0);
            assert_eq!(buffer.high.data()[index] & mask != 0, luma & 2 != 0);
        }
    }
}
