use crate::geometry::{intersection, max_i32, min_int, overlap, Point, Rectangle, Size};
use vstd::prelude::*;

verus! {

/// A two-valued pixel colour.
#[derive(Clone, Copy, Debug, PartialEq, Eq, Structural)]
pub enum BinaryColor {
    Off,
    On,
}

/// A pixel position together with the colour to draw there.
#[derive(Clone, Copy, Debug, PartialEq, Eq)]
pub struct Pixel<C>(pub Point, pub C);

/// The mask selecting pixel `i` (0..8) of a byte: pixels are packed most significant bit first.
pub open spec fn bit_mask(i: int) -> u8 {
    0x80u8 >> (i as u8)
}

/// The colour stored for pixel `i` (0..8) of a packed byte.
pub open spec fn color_of_bit(b: u8, i: int) -> BinaryColor {
    if b & bit_mask(i) != 0 {
        BinaryColor::On
    } else {
        BinaryColor::Off
    }
}

/// A packed byte with pixel `i` set to `color` and its other seven pixels kept.
pub open spec fn with_bit(b: u8, i: int, color: BinaryColor) -> u8 {
    match color {
        BinaryColor::On => b | bit_mask(i),
        BinaryColor::Off => b & !bit_mask(i),
    }
}

/// The byte whose eight pixels all have the given colour.
pub open spec fn solid_byte(color: BinaryColor) -> u8 {
    match color {
        BinaryColor::On => 0xFFu8,
        BinaryColor::Off => 0x00u8,
    }
}

proof fn lemma_with_bit(b: u8, i: u8, j: u8, color: BinaryColor)
    requires
        i < 8,
        j < 8,
    ensures
        color_of_bit(with_bit(b, i as int, color), j as int) == if i == j {
            color
        } else {
            color_of_bit(b, j as int)
        },
{
    match color {
        BinaryColor::On => {
            assert((b | (0x80u8 >> i)) & (0x80u8 >> j) != 0 <==> (i == j || b & (0x80u8 >> j)
                != 0)) by (bit_vector)
                requires
                    i < 8,
                    j < 8,
            ;
        },
        BinaryColor::Off => {
            assert((b & !(0x80u8 >> i)) & (0x80u8 >> j) != 0 <==> (i != j && b & (0x80u8 >> j)
                != 0)) by (bit_vector)
                requires
                    i < 8,
                    j < 8,
            ;
        },
    }
}

proof fn lemma_solid_byte(color: BinaryColor, j: u8)
    requires
        j < 8,
    ensures
        color_of_bit(solid_byte(color), j as int) == color,
{
    assert(0xFFu8 & (0x80u8 >> j) != 0) by (bit_vector)
        requires
            j < 8,
    ;
    assert(0x00u8 & (0x80u8 >> j) == 0) by (bit_vector);
}

/// Two bytes that agree on all eight pixels are equal.
proof fn lemma_bytes_equal_by_bits(a: u8, b: u8)
    requires
        forall|j: int| 0 <= j < 8 ==> color_of_bit(a, j) == color_of_bit(b, j),
    ensures
        a == b,
{
    assert(color_of_bit(a, 0) == color_of_bit(b, 0));
    assert(color_of_bit(a, 1) == color_of_bit(b, 1));
    assert(color_of_bit(a, 2) == color_of_bit(b, 2));
    assert(color_of_bit(a, 3) == color_of_bit(b, 3));
    assert(color_of_bit(a, 4) == color_of_bit(b, 4));
    assert(color_of_bit(a, 5) == color_of_bit(b, 5));
    assert(color_of_bit(a, 6) == color_of_bit(b, 6));
    assert(color_of_bit(a, 7) == color_of_bit(b, 7));
    assert(((a & 0x80u8 != 0) == (b & 0x80u8 != 0) && (a & 0x40u8 != 0) == (b & 0x40u8 != 0) && (
    a & 0x20u8 != 0) == (b & 0x20u8 != 0) && (a & 0x10u8 != 0) == (b & 0x10u8 != 0) && (a & 0x08u8
        != 0) == (b & 0x08u8 != 0) && (a & 0x04u8 != 0) == (b & 0x04u8 != 0) && (a & 0x02u8 != 0)
        == (b & 0x02u8 != 0) && (a & 0x01u8 != 0) == (b & 0x01u8 != 0)) ==> a == b) by (bit_vector);
    assert(0x80u8 >> 0u8 == 0x80u8 && 0x80u8 >> 1u8 == 0x40u8 && 0x80u8 >> 2u8 == 0x20u8 && 0x80u8
        >> 3u8 == 0x10u8 && 0x80u8 >> 4u8 == 0x08u8 && 0x80u8 >> 5u8 == 0x04u8 && 0x80u8 >> 6u8
        == 0x02u8 && 0x80u8 >> 7u8 == 0x01u8) by (bit_vector);
}

/// `y * stride + c` identifies the row `y` and the column byte `c` when `c < stride`.
proof fn lemma_row_major_unique(stride: int, y1: int, c1: int, y2: int, c2: int)
    requires
        0 <= c1 < stride,
        0 <= c2 < stride,
        0 <= y1,
        0 <= y2,
        y1 * stride + c1 == y2 * stride + c2,
    ensures
        y1 == y2,
        c1 == c2,
{
    if y1 < y2 {
        assert(y1 * stride + stride <= y2 * stride) by (nonlinear_arith)
            requires
                y1 < y2,
                stride > 0,
        ;
    } else if y2 < y1 {
        assert(y2 * stride + stride <= y1 * stride) by (nonlinear_arith)
            requires
                y2 < y1,
                stride > 0,
        ;
    }
}

/// `y * stride + c` stays below `height * stride` for `y < height` and `c < stride`.
proof fn lemma_row_major_bound(stride: int, height: int, y: int, c: int)
    requires
        0 <= c < stride,
        0 <= y < height,
    ensures
        0 <= y * stride <= y * stride + c < stride * height,
{
    assert(0 <= y * stride <= y * stride + c < stride * height) by (nonlinear_arith)
        requires
            0 <= c < stride,
            0 <= y < height,
    ;
}

/// Row-major order: a later row comes after every column of an earlier row.
proof fn lemma_row_major_order(stride: int, r1: int, c1: int, r2: int, c2: int)
    requires
        0 <= r1 < r2,
        0 <= c1 < stride,
        0 <= c2,
    ensures
        r1 * stride + c1 < r2 * stride + c2,
{
    assert(r1 * stride + stride <= r2 * stride) by (nonlinear_arith)
        requires
            r1 < r2,
            stride > 0,
    ;
}

/// The position of pixel `(x, y)` in the row-major walk over `area`.
pub open spec fn area_index(area: Rectangle, x: int, y: int) -> int {
    (y - area.top_left.y) * area.size.width + (x - area.top_left.x)
}

/// The colour at `(x, y)` after drawing `pixels` in order over a pixel of colour `base`: the
/// last pixel drawn at that position wins.
pub open spec fn color_after<C>(base: C, pixels: Seq<Pixel<C>>, x: int, y: int) -> C
    decreases pixels.len(),
{
    if pixels.len() == 0 {
        base
    } else {
        let p = pixels.last();
        if p.0.x == x && p.0.y == y {
            p.1
        } else {
            color_after(base, pixels.drop_last(), x, y)
        }
    }
}

/// What a packed bitmap holds: its dimensions and its bytes, row by row, 8 pixels per byte.
pub ghost struct BitmapView {
    pub width: int,
    pub height: int,
    pub bytes: Seq<u8>,
}

impl BitmapView {
    pub open spec fn in_bounds(self, x: int, y: int) -> bool {
        0 <= x < self.width && 0 <= y < self.height
    }

    pub open spec fn bytes_per_row(self) -> int {
        self.width / 8
    }

    /// The index of the byte that holds pixel `(x, y)`.
    pub open spec fn byte_index(self, x: int, y: int) -> int {
        y * self.bytes_per_row() + x / 8
    }

    /// The colour of pixel `(x, y)`.
    pub open spec fn pixel(self, x: int, y: int) -> BinaryColor {
        color_of_bit(self.bytes[self.byte_index(x, y)], x % 8)
    }

    /// The layout holds: whole bytes per row and exactly one byte per 8 pixels.
    pub open spec fn well_formed(self) -> bool {
        &&& self.width % 8 == 0
        &&& 0 <= self.width <= i32::MAX
        &&& 0 <= self.height <= i32::MAX
        &&& self.bytes.len() == self.bytes_per_row() * self.height
    }

    /// `self` is `before` with the pixels `x0 <= x < x1`, `y0 <= y < y1` set to `color`.
    pub open spec fn painted(
        self,
        before: BitmapView,
        x0: int,
        x1: int,
        y0: int,
        y1: int,
        color: BinaryColor,
    ) -> bool {
        &&& self.width == before.width
        &&& self.height == before.height
        &&& forall|x: int, y: int|
            self.in_bounds(x, y) ==> #[trigger] self.pixel(x, y) == if x0 <= x < x1 && y0 <= y
                < y1 {
                color
            } else {
                before.pixel(x, y)
            }
    }

    /// `self` is `before` after drawing `pixels` in order; pixels outside the bounds are dropped.
    pub open spec fn drawn(self, before: BitmapView, pixels: Seq<Pixel<BinaryColor>>) -> bool {
        &&& self.width == before.width
        &&& self.height == before.height
        &&& forall|x: int, y: int|
            self.in_bounds(x, y) ==> #[trigger] self.pixel(x, y) == color_after(
                before.pixel(x, y),
                pixels,
                x,
                y,
            )
    }

    /// `self` is `before` after walking `area` row by row and taking one colour from `colors`
    /// for each position, in bounds or not, until `colors` runs out.
    pub open spec fn filled_contiguous(
        self,
        before: BitmapView,
        area: Rectangle,
        colors: Seq<BinaryColor>,
    ) -> bool {
        &&& self.width == before.width
        &&& self.height == before.height
        &&& forall|x: int, y: int|
            self.in_bounds(x, y) ==> #[trigger] self.pixel(x, y) == if area.contains(x, y)
                && area_index(area, x, y) < colors.len() {
                colors[area_index(area, x, y)]
            } else {
                before.pixel(x, y)
            }
    }

    /// `self` and `other` have the same dimensions and agree on every pixel.
    pub open spec fn same_image(self, other: BitmapView) -> bool {
        &&& self.width == other.width
        &&& self.height == other.height
        &&& forall|x: int, y: int|
            self.in_bounds(x, y) ==> #[trigger] self.pixel(x, y) == other.pixel(x, y)
    }
}

/// A compact buffer for binary coloured display data, packing 8 horizontally adjacent pixels
/// into each byte with the leftmost pixel in the most significant bit.
#[derive(Clone)]
pub struct BinaryBuffer<const L: usize> {
    size: Size,
    bytes_per_row: usize,
    data: [u8; L],
}

/// The number of bytes a [BinaryBuffer] of the given dimensions needs.
pub open spec fn spec_binary_buffer_length(size: Size) -> int {
    (size.width / 8) as int * size.height as int
}

/// Computes the correct size for the binary buffer based on the given dimensions.
pub fn binary_buffer_length(size: Size) -> (r: usize)
    requires
        spec_binary_buffer_length(size) <= usize::MAX,
    ensures
        r == spec_binary_buffer_length(size),
{
    (size.width as usize / 8) * size.height as usize
}

impl<const L: usize> View for BinaryBuffer<L> {
    type V = BitmapView;

    closed spec fn view(&self) -> BitmapView {
        BitmapView { width: self.size.width as int, height: self.size.height as int, bytes: self.data@ }
    }
}

impl<const L: usize> BinaryBuffer<L> {
    /// The buffer's internal layout agrees with what it holds.
    pub closed spec fn wf(&self) -> bool {
        &&& self@.well_formed()
        &&& self.bytes_per_row == self.size.width / 8
    }

    /// Creates a new [BinaryBuffer] with all pixels set to `BinaryColor::Off`.
    ///
    /// The width must be a multiple of 8, and the dimensions must match the buffer length `L`.
    pub fn new(dimensions: Size) -> (r: Self)
        requires
            dimensions.width % 8 == 0,
            dimensions.width <= i32::MAX,
            dimensions.height <= i32::MAX,
            spec_binary_buffer_length(dimensions) == L,
        ensures
            r.wf(),
            r@.width == dimensions.width,
            r@.height == dimensions.height,
            r@.bytes == Seq::new(L as nat, |i: int| 0u8),
    {
        let r = Self { bytes_per_row: dimensions.width as usize / 8, size: dimensions, data: [0;L] };
        assert(r@.bytes =~= Seq::new(L as nat, |i: int| 0u8));
        r
    }

    /// Access the packed buffer data.
    pub fn data(&self) -> (r: &[u8])
        ensures
            r@ == self@.bytes,
    {
        self.data.as_slice()
    }

    /// Sets the pixel at `point` to `color`. Points outside the buffer are ignored.
    pub fn set_pixel(&mut self, point: Point, color: BinaryColor)
        requires
            old(self).wf(),
        ensures
            final(self).wf(),
            final(self)@.painted(
                old(self)@,
                point.x as int,
                point.x + 1,
                point.y as int,
                point.y + 1,
                color,
            ),
            old(self)@.in_bounds(point.x as int, point.y as int) ==> final(self)@.bytes == old(
                self,
            )@.bytes.update(
                old(self)@.byte_index(point.x as int, point.y as int),
                with_bit(
                    old(self)@.bytes[old(self)@.byte_index(point.x as int, point.y as int)],
                    (point.x as int) % 8,
                    color,
                ),
            ),
            !old(self)@.in_bounds(point.x as int, point.y as int) ==> final(self)@.bytes == old(
                self,
            )@.bytes,
    {
        if point.x < 0 || point.x as u32 >= self.size.width || point.y < 0 || point.y as u32
            >= self.size.height {
            proof {
                assert(self@.painted(old(self)@, point.x as int, point.x + 1, point.y as int, point.y + 1, color));
            }
            return;
        }
        self.set_pixel_at(point.x as usize, point.y as usize, color);
    }

    /// Sets the in-bounds pixel `(x, y)` to `color`.
    fn set_pixel_at(&mut self, x: usize, y: usize, color: BinaryColor)
        requires
            old(self).wf(),
            old(self)@.in_bounds(x as int, y as int),
        ensures
            final(self).wf(),
            final(self)@.painted(old(self)@, x as int, x + 1, y as int, y + 1, color),
            final(self)@.bytes == old(self)@.bytes.update(
                old(self)@.byte_index(x as int, y as int),
                with_bit(
                    old(self)@.bytes[old(self)@.byte_index(x as int, y as int)],
                    (x % 8) as int,
                    color,
                ),
            ),
    {
        proof {
            lemma_row_major_bound(self.bytes_per_row as int, self.size.height as int, y as int, (x / 8) as int);
        }
        let byte_index = x / 8 + y * self.bytes_per_row;
        let bit_index = x % 8;
        self.write_bit(byte_index, bit_index, color);
        proof {
            let old_v = old(self)@;
            let new_v = self@;
            assert forall|a: int, b: int|
                new_v.in_bounds(a, b) implies #[trigger] new_v.pixel(a, b) == if x <= a < x + 1
                    && y <= b < y + 1 {
                    color
                } else {
                    old_v.pixel(a, b)
                } by {
                lemma_row_major_bound(old_v.bytes_per_row(), old_v.height, b, a / 8);
                if old_v.byte_index(a, b) == byte_index {
                    lemma_row_major_unique(old_v.bytes_per_row(), b, a / 8, y as int, (x / 8) as int);
                    lemma_with_bit(old_v.bytes[byte_index as int], bit_index as u8, (a % 8) as u8, color);
                }
            }
        }
    }

    /// Sets all eight pixels of byte `column` of row `y` to `color` with one store.
    fn set_byte_at(&mut self, column: usize, y: usize, color: BinaryColor)
        requires
            old(self).wf(),
            column < old(self)@.bytes_per_row(),
            y < old(self)@.height,
        ensures
            final(self).wf(),
            final(self)@.painted(old(self)@, 8 * column, 8 * column + 8, y as int, y + 1, color),
    {
        proof {
            lemma_row_major_bound(self.bytes_per_row as int, self.size.height as int, y as int, column as int);
        }
        let byte_index = column + y * self.bytes_per_row;
        match color {
            BinaryColor::On => {
                self.data[byte_index] = 0xFF;
            },
            BinaryColor::Off => {
                self.data[byte_index] = 0x00;
            },
        }
        proof {
            let old_v = old(self)@;
            let new_v = self@;
            assert(new_v.bytes == old_v.bytes.update(byte_index as int, solid_byte(color)));
            assert forall|a: int, b: int|
                new_v.in_bounds(a, b) implies #[trigger] new_v.pixel(a, b) == if 8 * column <= a
                    < 8 * column + 8 && y <= b < y + 1 {
                    color
                } else {
                    old_v.pixel(a, b)
                } by {
                lemma_row_major_bound(old_v.bytes_per_row(), old_v.height, b, a / 8);
                if old_v.byte_index(a, b) == byte_index {
                    lemma_row_major_unique(old_v.bytes_per_row(), b, a / 8, y as int, column as int);
                    lemma_solid_byte(color, (a % 8) as u8);
                } else {
                    assert(a / 8 != column || b != y);
                }
            }
        }
    }

    /// Fills `area` with the colours of `colors`, taken in row-major order over the whole of
    /// `area`: every position consumes one colour, also where it lies outside the buffer, and
    /// the fill stops when `colors` runs out.
    pub fn fill_contiguous(&mut self, area: &Rectangle, colors: &[BinaryColor])
        requires
            old(self).wf(),
            area.fits(),
        ensures
            final(self).wf(),
            final(self)@.filled_contiguous(old(self)@, *area, colors@),
    {
        proof {
            self.lemma_size();
        }
        let bounds = DrawTarget::bounding_box(self);
        let drawable = intersection(&bounds, area);
        if drawable.size.width == 0 || drawable.size.height == 0 {
            return;
        }
        let ghost before = self@;
        let x_start = drawable.top_left.x as usize;
        let x_end = x_start + drawable.size.width as usize;
        let y_start = drawable.top_left.y as usize;
        let y_end = y_start + drawable.size.height as usize;
        let area_x = area.top_left.x as i64;
        let area_y = area.top_left.y as i64;
        let area_width = area.size.width as u64;
        let mut y = y_start;
        while y < y_end
            invariant
                self.wf(),
                before == old(self)@,
                drawable == overlap(bounds, *area),
                0 <= x_start < x_end <= self@.width,
                0 <= y_start <= y <= y_end <= self@.height,
                x_start == max_i32(0, area.top_left.x),
                y_start == max_i32(0, area.top_left.y),
                x_end == min_int(self@.width, area.top_left.x + area.size.width),
                y_end == min_int(self@.height, area.top_left.y + area.size.height),
                area_x == area.top_left.x,
                area_y == area.top_left.y,
                area_width == area.size.width,
                area.fits(),
                self@.width == before.width,
                self@.height == before.height,
                forall|a: int, b: int|
                    self@.in_bounds(a, b) ==> #[trigger] self@.pixel(a, b) == if x_start <= a < x_end
                        && y_start <= b < y && area_index(*area, a, b) < colors@.len() {
                        colors@[area_index(*area, a, b)]
                    } else {
                        before.pixel(a, b)
                    },
            decreases y_end - y,
        {
            let mut x = x_start;
            while x < x_end
                invariant
                    self.wf(),
                    before == old(self)@,
                    0 <= x_start <= x <= x_end <= self@.width,
                    0 <= y_start <= y < y_end <= self@.height,
                    x_start == max_i32(0, area.top_left.x),
                    y_start == max_i32(0, area.top_left.y),
                    x_end == min_int(self@.width, area.top_left.x + area.size.width),
                    y_end == min_int(self@.height, area.top_left.y + area.size.height),
                    area_x == area.top_left.x,
                    area_y == area.top_left.y,
                    area_width == area.size.width,
                    area.fits(),
                    self@.width == before.width,
                    self@.height == before.height,
                    forall|a: int, b: int|
                        self@.in_bounds(a, b) ==> #[trigger] self@.pixel(a, b) == if x_start <= a
                            < x_end && (y_start <= b < y || (b == y && a < x)) && area_index(
                            *area,
                            a,
                            b,
                        ) < colors@.len() {
                            colors@[area_index(*area, a, b)]
                        } else {
                            before.pixel(a, b)
                        },
                decreases x_end - x,
            {
                proof {
                    assert(0 <= y - area_y < area.size.height);
                    assert(0 <= (y - area_y) * area_width <= 0x7fff_ffff * 0x7fff_ffff) by (nonlinear_arith)
                        requires
                            0 <= y - area_y <= 0x7fff_ffff,
                            0 <= area_width <= 0x7fff_ffff,
                    ;
                }
                let index: u64 = (y as i64 - area_y) as u64 * area_width + (x as i64 - area_x) as u64;
                assert(index == area_index(*area, x as int, y as int));
                if index >= colors.len() as u64 {
                    proof {
                        assert forall|a: int, b: int|
                            self@.in_bounds(a, b) implies #[trigger] self@.pixel(a, b) == if area.contains(a, b)
                                && area_index(*area, a, b) < colors@.len() {
                                colors@[area_index(*area, a, b)]
                            } else {
                                before.pixel(a, b)
                            } by {
                            if area.contains(a, b) && b > y {
                                lemma_row_major_order(area_width as int, y - area_y, x - area_x, b - area_y, a - area_x);
                            }
                        }
                    }
                    return;
                }
                let ghost prev = self@;
                self.set_pixel_at(x, y, colors[index as usize]);
                x += 1;
            }
            y += 1;
        }
    }

    /// Sets the pixels `x_start <= x < x_end` of row `y` to `color`: the bits of partially
    /// covered bytes one by one, and each fully covered byte with a single store.
    fn fill_row(&mut self, y: usize, x_start: usize, x_end: usize, color: BinaryColor)
        requires
            old(self).wf(),
            y < old(self)@.height,
            x_start < x_end <= old(self)@.width,
        ensures
            final(self).wf(),
            final(self)@.painted(old(self)@, x_start as int, x_end as int, y as int, y + 1, color),
    {
        let ghost before = self@;
        // Full bytes start at the first multiple of 8 from x_start and end at the last
        // multiple of 8 before x_end.
        let rounded_up = (x_start + 7) / 8 * 8;
        let full_start = if rounded_up < x_end { rounded_up } else { x_end };
        let rounded_down = x_end / 8 * 8;
        let full_end = if rounded_down > x_start { rounded_down } else { x_start };
        let num_full_bytes = if full_end > full_start { (full_end - full_start) / 8 } else { 0 };
        if num_full_bytes == 0 {
            // There are no full bytes in this row, so just set colors bitwise.
            self.fill_bits(y, x_start, x_start, x_end, color);
        } else {
            // Set colors bitwise in the first byte if it's not byte-aligned.
            self.fill_bits(y, x_start, x_start, full_start, color);
            // Fast fill for the fully covered bytes.
            let mut k: usize = 0;
            while k < num_full_bytes
                invariant
                    self.wf(),
                    y < self@.height,
                    x_start <= full_start,
                    full_start % 8 == 0,
                    full_start + 8 * num_full_bytes == full_end,
                    full_end <= x_end <= self@.width,
                    k <= num_full_bytes,
                    self@.painted(before, x_start as int, full_start + 8 * k, y as int, y + 1, color),
                decreases num_full_bytes - k,
            {
                let ghost prev = self@;
                self.set_byte_at(full_start / 8 + k, y, color);
                k += 1;
            }
            // Set the partially covered byte at the end of the row, if any.
            self.fill_bits(y, x_start, full_end, x_end, color);
        }
    }

    /// Sets the pixels `from <= x < to` of row `y` to `color` one by one, given that the
    /// pixels `done_from <= x < from` of that row already hold it.
    fn fill_bits(&mut self, y: usize, done_from: usize, from: usize, to: usize, color: BinaryColor)
        requires
            old(self).wf(),
            y < old(self)@.height,
            done_from <= from <= to <= old(self)@.width,
        ensures
            final(self).wf(),
            forall|before: BitmapView|
                old(self)@.painted(before, done_from as int, from as int, y as int, y + 1, color)
                    ==> #[trigger] final(self)@.painted(before, done_from as int, to as int, y as int, y + 1, color),
            final(self)@.painted(old(self)@, from as int, to as int, y as int, y + 1, color),
    {
        let mut x = from;
        while x < to
            invariant
                self.wf(),
                y < self@.height,
                from <= x <= to <= self@.width,
                done_from <= from,
                self@.painted(old(self)@, from as int, x as int, y as int, y + 1, color),
            decreases to - x,
        {
            let ghost prev = self@;
            self.set_pixel_at(x, y, color);
            x += 1;
        }
    }

    /// Sets pixel `bit_index` of byte `byte_index`.
    fn write_bit(&mut self, byte_index: usize, bit_index: usize, color: BinaryColor)
        requires
            byte_index < L,
            bit_index < 8,
        ensures
            final(self).size == old(self).size,
            final(self).bytes_per_row == old(self).bytes_per_row,
            final(self).data@ == old(self).data@.update(
                byte_index as int,
                with_bit(old(self).data@[byte_index as int], bit_index as int, color),
            ),
    {
        let mask: u8 = 0x80u8 >> (bit_index as u8);
        match color {
            BinaryColor::On => {
                self.data[byte_index] = self.data[byte_index] | mask;
            },
            BinaryColor::Off => {
                self.data[byte_index] = self.data[byte_index] & !mask;
            },
        }
    }
}

/// A surface that pixels and solid rectangles can be drawn onto.
pub trait DrawTarget: Sized {
    type Color: Copy;

    /// The internal invariant of the surface.
    spec fn valid(&self) -> bool;

    /// The area that can be drawn on.
    spec fn spec_bounding_box(&self) -> Rectangle;

    /// `self` is `before` after drawing `pixels` in order.
    spec fn drawn_from(&self, before: Self, pixels: Seq<Pixel<Self::Color>>) -> bool;

    /// `self` is `before` after filling `area` with `color`.
    spec fn filled_from(&self, before: Self, area: Rectangle, color: Self::Color) -> bool;

    /// The area that can be drawn on.
    fn bounding_box(&self) -> (r: Rectangle)
        requires
            self.valid(),
        ensures
            r == self.spec_bounding_box(),
            r.fits(),
    ;

    /// Draws `pixels` in order; pixels outside the bounding box are skipped.
    fn draw_iter(&mut self, pixels: &[Pixel<Self::Color>])
        requires
            old(self).valid(),
        ensures
            final(self).valid(),
            final(self).spec_bounding_box() == old(self).spec_bounding_box(),
            final(self).drawn_from(*old(self), pixels@),
    ;

    /// Fills the part of `area` inside the bounding box with `color`.
    fn fill_solid(&mut self, area: &Rectangle, color: Self::Color)
        requires
            old(self).valid(),
            area.fits(),
        ensures
            final(self).valid(),
            final(self).spec_bounding_box() == old(self).spec_bounding_box(),
            final(self).filled_from(*old(self), *area, color),
    ;
}

impl<const L: usize> DrawTarget for BinaryBuffer<L> {
    type Color = BinaryColor;

    open spec fn valid(&self) -> bool {
        self.wf()
    }

    open spec fn spec_bounding_box(&self) -> Rectangle {
        Rectangle {
            top_left: Point { x: 0, y: 0 },
            size: Size { width: self@.width as u32, height: self@.height as u32 },
        }
    }

    open spec fn drawn_from(&self, before: Self, pixels: Seq<Pixel<BinaryColor>>) -> bool {
        self@.drawn(before@, pixels)
    }

    open spec fn filled_from(&self, before: Self, area: Rectangle, color: BinaryColor) -> bool {
        self@.painted(
            before@,
            area.top_left.x as int,
            area.top_left.x + area.size.width,
            area.top_left.y as int,
            area.top_left.y + area.size.height,
            color,
        )
    }

    fn bounding_box(&self) -> (r: Rectangle) {
        proof {
            self.lemma_size();
        }
        Rectangle::new(Point::zero(), self.size)
    }

    fn draw_iter(&mut self, pixels: &[Pixel<BinaryColor>]) {
        proof {
            self.lemma_size();
        }
        let mut i: usize = 0;
        while i < pixels.len()
            invariant
                self.wf(),
                i <= pixels@.len(),
                self@.drawn(old(self)@, pixels@.take(i as int)),
            decreases pixels@.len() - i,
        {
            let ghost prev = self@;
            let p = pixels[i];
            self.set_pixel(p.0, p.1);
            proof {
                let done = pixels@.take(i + 1);
                assert(done.drop_last() =~= pixels@.take(i as int));
                assert(done.last() == p);
                assert forall|x: int, y: int| self@.in_bounds(x, y) implies #[trigger] self@.pixel(
                    x,
                    y,
                ) == color_after(old(self)@.pixel(x, y), done, x, y) by {
                    assert(prev.pixel(x, y) == color_after(
                        old(self)@.pixel(x, y),
                        pixels@.take(i as int),
                        x,
                        y,
                    ));
                }
            }
            i += 1;
        }
        proof {
            assert(pixels@.take(i as int) =~= pixels@);
            self.lemma_size();
        }
    }

    fn fill_solid(&mut self, area: &Rectangle, color: BinaryColor) {
        proof {
            self.lemma_size();
        }
        let bounds = DrawTarget::bounding_box(self);
        let drawable = intersection(&bounds, area);
        if drawable.size.width == 0 || drawable.size.height == 0 {
            return;
        }
        let ghost before = self@;
        let x_start = drawable.top_left.x as usize;
        let x_end = x_start + drawable.size.width as usize;
        let y_start = drawable.top_left.y as usize;
        let y_end = y_start + drawable.size.height as usize;
        let mut y = y_start;
        while y < y_end
            invariant
                self.wf(),
                before == old(self)@,
                0 <= x_start < x_end <= self@.width,
                0 <= y_start <= y <= y_end <= self@.height,
                x_start == max_i32(0, area.top_left.x),
                y_start == max_i32(0, area.top_left.y),
                x_end == min_int(self@.width, area.top_left.x + area.size.width),
                y_end == min_int(self@.height, area.top_left.y + area.size.height),
                self@.painted(before, x_start as int, x_end as int, y_start as int, y as int, color),
            decreases y_end - y,
        {
            let ghost prev = self@;
            self.fill_row(y, x_start, x_end, color);
            y += 1;
        }
        proof {
            self.lemma_size();
        }
    }
}

impl<const L: usize> BinaryBuffer<L> {
    /// A well-formed buffer holds a well-formed bitmap.
    pub proof fn lemma_well_formed(&self)
        requires
            self.wf(),
        ensures
            self@.well_formed(),
    {
    }

    proof fn lemma_size(&self)
        requires
            self.wf(),
        ensures
            self.size.width == self@.width,
            self.size.height == self@.height,
            self.spec_bounding_box() == (Rectangle {
                top_left: Point { x: 0, y: 0 },
                size: self.size,
            }),
    {
    }
}

/// Filling a buffer's whole bounding box with one colour leaves every byte solid: all `0xFF`
/// for `On`, all `0x00` for `Off`.
pub proof fn lemma_fill_whole_buffer<const L: usize>(
    before: BinaryBuffer<L>,
    after: BinaryBuffer<L>,
    color: BinaryColor,
)
    requires
        before.wf(),
        after.wf(),
        after.filled_from(before, before.spec_bounding_box(), color),
    ensures
        after@.bytes == Seq::new(L as nat, |i: int| solid_byte(color)),
{
    let v = after@;
    let stride = v.bytes_per_row();
    assert forall|i: int| 0 <= i < L implies v.bytes[i] == solid_byte(color) by {
        assert(stride > 0) by (nonlinear_arith)
            requires
                0 <= i < stride * v.height,
                v.height >= 0,
        ;
        let y = i / stride;
        let c = i % stride;
        assert(i == y * stride + c && 0 <= c < stride && 0 <= y) by (nonlinear_arith)
            requires
                stride > 0,
                i >= 0,
                y == i / stride,
                c == i % stride,
        ;
        assert(y < v.height) by (nonlinear_arith)
            requires
                i == y * stride + c,
                0 <= c,
                i < stride * v.height,
                stride > 0,
        ;
        assert forall|j: int| 0 <= j < 8 implies color_of_bit(v.bytes[i], j) == color_of_bit(
            solid_byte(color),
            j,
        ) by {
            let x = 8 * c + j;
            assert(x / 8 == c && x % 8 == j);
            assert(v.in_bounds(x, y));
            assert(v.pixel(x, y) == color);
            lemma_solid_byte(color, j as u8);
        }
        lemma_bytes_equal_by_bits(v.bytes[i], solid_byte(color));
    }
    assert(v.bytes =~= Seq::new(L as nat, |i: int| solid_byte(color)));
}

impl<const L: usize> crate::BufferView<1, 1> for BinaryBuffer<L> {
    open spec fn spec_window(&self) -> Rectangle {
        self.spec_bounding_box()
    }

    open spec fn spec_frames(&self) -> Seq<Seq<u8>> {
        seq![self@.bytes]
    }

    fn window(&self) -> (r: Rectangle) {
        Rectangle::new(Point::zero(), self.size)
    }

    fn data(&self) -> (r: [&[u8]; 1]) {
        [self.data.as_slice()]
    }
}

} // verus!
