use crate::buffer::{BinaryBuffer, BinaryColor, DrawTarget, Pixel};
use crate::geometry::{intersection, overlap, overlaps, Point, Rectangle, Size};
use vstd::prelude::*;

verus! {

/// A transformation of points and rectangles between a source space and a rotated one.
pub trait Rotation: Sized {
    spec fn spec_inverse(&self) -> Self;

    spec fn spec_rotate_size(&self, size: Size) -> Size;

    spec fn spec_rotate_point(&self, point: Point, bounds: Size) -> Point;

    spec fn spec_rotate_rectangle(&self, rectangle: Rectangle, bounds: Size) -> Rectangle;

    /// Returns the inverse rotation that reverses this rotation's effect.
    fn inverse(&self) -> (r: Self)
        ensures
            r == self.spec_inverse(),
    ;

    /// Rotates the given size according to this rotation type.
    fn rotate_size(&self, size: Size) -> (r: Size)
        ensures
            r == self.spec_rotate_size(size),
    ;

    /// Rotates a point within overall source bounds of the given size.
    ///
    /// For example, if the given `point` is (1,2) from a 10x20 space, then [Rotate::Degrees90]
    /// returns (17, 1) in a 20x10 space.
    fn rotate_point(&self, point: Point, bounds: Size) -> (r: Point)
        ensures
            r == self.spec_rotate_point(point, bounds),
    ;

    /// Rotates a rectangle within overall source bounds of the given size.
    fn rotate_rectangle(&self, rectangle: Rectangle, bounds: Size) -> (r: Rectangle)
        ensures
            r == self.spec_rotate_rectangle(rectangle, bounds),
    ;
}

/// A 90, 180, or 270 degree clockwise rotation of a point within a given size.
#[derive(Clone, Copy, Debug, PartialEq, Eq, Structural)]
pub enum Rotate {
    Degrees90,
    Degrees180,
    Degrees270,
}

/// `v` as a 32-bit coordinate, wrapping in two's complement when it does not fit.
pub open spec fn wrap(v: int) -> i32 {
    v as i32
}

impl Rotation for Rotate {
    open spec fn spec_inverse(&self) -> Rotate {
        match self {
            Rotate::Degrees90 => Rotate::Degrees270,
            Rotate::Degrees180 => Rotate::Degrees180,
            Rotate::Degrees270 => Rotate::Degrees90,
        }
    }

    open spec fn spec_rotate_size(&self, size: Size) -> Size {
        match self {
            Rotate::Degrees90 | Rotate::Degrees270 => Size { width: size.height, height: size.width },
            Rotate::Degrees180 => size,
        }
    }

    /// 90°: `(height - y - 1, x)`; 180°: `(width - x - 1, height - y - 1)`;
    /// 270°: `(y, width - x - 1)`.
    open spec fn spec_rotate_point(&self, point: Point, bounds: Size) -> Point {
        match self {
            Rotate::Degrees90 => Point { x: wrap(bounds.height - point.y - 1), y: point.x },
            Rotate::Degrees180 => Point {
                x: wrap(bounds.width - point.x - 1),
                y: wrap(bounds.height - point.y - 1),
            },
            Rotate::Degrees270 => Point { x: point.y, y: wrap(bounds.width - point.x - 1) },
        }
    }

    /// The corner that becomes the new top left (bottom left for 90°, bottom right for 180°,
    /// top right for 270°) is rotated, and the size is rotated.
    open spec fn spec_rotate_rectangle(&self, rectangle: Rectangle, bounds: Size) -> Rectangle {
        let tl = rectangle.top_left;
        let corner = match self {
            Rotate::Degrees90 => Point { x: tl.x, y: wrap(tl.y + rectangle.size.height - 1) },
            Rotate::Degrees180 => Point {
                x: wrap(tl.x + rectangle.size.width - 1),
                y: wrap(tl.y + rectangle.size.height - 1),
            },
            Rotate::Degrees270 => Point { x: wrap(tl.x + rectangle.size.width - 1), y: tl.y },
        };
        Rectangle {
            top_left: self.spec_rotate_point(corner, bounds),
            size: self.spec_rotate_size(rectangle.size),
        }
    }

    fn inverse(&self) -> (r: Rotate) {
        match self {
            Rotate::Degrees90 => Rotate::Degrees270,
            Rotate::Degrees180 => Rotate::Degrees180,
            Rotate::Degrees270 => Rotate::Degrees90,
        }
    }

    fn rotate_size(&self, size: Size) -> (r: Size) {
        match self {
            Rotate::Degrees90 | Rotate::Degrees270 => Size::new(size.height, size.width),
            Rotate::Degrees180 => size,
        }
    }

    fn rotate_point(&self, point: Point, source_bounds: Size) -> (r: Point) {
        let width = source_bounds.width as i64;
        let height = source_bounds.height as i64;
        match self {
            Rotate::Degrees90 => Point::new((height - point.y as i64 - 1) as i32, point.x),
            Rotate::Degrees180 => Point::new(
                (width - point.x as i64 - 1) as i32,
                (height - point.y as i64 - 1) as i32,
            ),
            Rotate::Degrees270 => Point::new(point.y, (width - point.x as i64 - 1) as i32),
        }
    }

    fn rotate_rectangle(&self, rectangle: Rectangle, source_bounds: Size) -> (r: Rectangle) {
        let tl = rectangle.top_left;
        let last_x = (tl.x as i64 + rectangle.size.width as i64 - 1) as i32;
        let last_y = (tl.y as i64 + rectangle.size.height as i64 - 1) as i32;
        let corner = match self {
            Rotate::Degrees90 => Point::new(tl.x, last_y),
            Rotate::Degrees180 => Point::new(last_x, last_y),
            Rotate::Degrees270 => Point::new(last_x, tl.y),
        };
        let new_top_left = self.rotate_point(corner, source_bounds);
        Rectangle::new(new_top_left, self.rotate_size(rectangle.size))
    }
}

/// Rotating a point and then rotating it back with the inverse rotation, within the rotated
/// bounds, returns the point it started from.
pub proof fn lemma_rotation_round_trip(r: Rotate, p: Point, bounds: Size)
    ensures
        r.spec_inverse().spec_rotate_point(r.spec_rotate_point(p, bounds), r.spec_rotate_size(bounds))
            == p,
{
    let w = bounds.width;
    let h = bounds.height;
    let x = p.x;
    let y = p.y;
    assert(wrap(h - wrap(h - y - 1) - 1) == y) by (bit_vector);
    assert(wrap(w - wrap(w - x - 1) - 1) == x) by (bit_vector);
}

/// The pixels with their points rotated by `rotation` within `bounds`.
pub open spec fn rotated_pixels<C>(rotation: Rotate, bounds: Size, pixels: Seq<Pixel<C>>) -> Seq<
    Pixel<C>,
> {
    pixels.map_values(|p: Pixel<C>| Pixel(rotation.spec_rotate_point(p.0, bounds), p.1))
}

/// The walk over `area` in row-major order, paired with `colors`, for as long as both last.
pub open spec fn area_pixels<C>(area: Rectangle, colors: Seq<C>) -> Seq<Pixel<C>> {
    let n = if colors.len() <= area.size.width * area.size.height {
        colors.len() as int
    } else {
        area.size.width * area.size.height
    };
    Seq::new(
        n as nat,
        |k: int|
            Pixel(
                Point {
                    x: (area.top_left.x + k % (area.size.width as int)) as i32,
                    y: (area.top_left.y + k / (area.size.width as int)) as i32,
                },
                colors[k],
            ),
    )
}

/// Presents a drawing surface in a rotated orientation: points drawn to this buffer are
/// rotated before they reach the inner buffer.
pub struct RotatedBuffer<B: DrawTarget> {
    bounds: Rectangle,
    buffer: B,
    rotation: Rotate,
}

impl<B: DrawTarget> RotatedBuffer<B> {
    /// The rotated bounds agree with the inner buffer, whose bounds start at the origin.
    pub closed spec fn wf(&self) -> bool {
        &&& self.buffer.valid()
        &&& self.buffer.spec_bounding_box().top_left == Point { x: 0, y: 0 }
        &&& self.buffer.spec_bounding_box().fits()
        &&& self.bounds.top_left == Point { x: 0, y: 0 }
        &&& self.bounds.size == self.rotation.spec_rotate_size(self.buffer.spec_bounding_box().size)
    }

    pub closed spec fn spec_inner(&self) -> B {
        self.buffer
    }

    pub closed spec fn spec_rotation(&self) -> Rotate {
        self.rotation
    }

    /// Wraps `buffer` so that it can be drawn to as if rotated by `rotation`.
    pub fn new(buffer: B, rotation: Rotate) -> (r: Self)
        requires
            buffer.valid(),
            buffer.spec_bounding_box().top_left == (Point { x: 0, y: 0 }),
        ensures
            r.wf(),
            r.spec_inner() == buffer,
            r.spec_rotation() == rotation,
            r.spec_bounding_box() == (Rectangle {
                top_left: Point { x: 0, y: 0 },
                size: rotation.spec_rotate_size(buffer.spec_bounding_box().size),
            }),
    {
        let inverse_rotation = rotation.inverse();
        let inner_bounds = buffer.bounding_box();
        let bounds = inverse_rotation.rotate_rectangle(inner_bounds, inner_bounds.size);
        Self { bounds, buffer, rotation }
    }

    /// Provides read-only access to the inner buffer.
    pub fn inner(&self) -> (r: &B)
        ensures
            *r == self.spec_inner(),
    {
        &self.buffer
    }

    /// Drops this rotated buffer wrapper and takes out the inner buffer.
    pub fn take_inner(self) -> (r: B)
        ensures
            r == self.spec_inner(),
    {
        self.buffer
    }

    /// Fills `area` with `colors` in row-major order, rotating each point, until either the area
    /// or the colours run out.
    pub fn fill_contiguous(&mut self, area: &Rectangle, colors: &[B::Color])
        requires
            old(self).wf(),
            area.fits(),
        ensures
            final(self).wf(),
            final(self).spec_rotation() == old(self).spec_rotation(),
            final(self).spec_bounding_box() == old(self).spec_bounding_box(),
            final(self).spec_inner().drawn_from(
                old(self).spec_inner(),
                rotated_pixels(
                    old(self).spec_rotation(),
                    old(self).spec_bounding_box().size,
                    area_pixels(*area, colors@),
                ),
            ),
    {
        let width = area.size.width as u64;
        let height = area.size.height as u64;
        assert(width * height <= 0x7fff_ffff * 0x7fff_ffff) by (nonlinear_arith)
            requires
                width <= 0x7fff_ffff,
                height <= 0x7fff_ffff,
        ;
        let total = width * height;
        let n: u64 = if (colors.len() as u64) <= total { colors.len() as u64 } else { total };
        let mut pixels: Vec<Pixel<B::Color>> = Vec::new();
        let mut k: u64 = 0;
        while k < n
            invariant
                width == area.size.width,
                height == area.size.height,
                total == width * height,
                n <= total,
                n <= colors@.len(),
                n == area_pixels(*area, colors@).len(),
                area.fits(),
                k <= n,
                pixels@ == area_pixels(*area, colors@).take(k as int),
            decreases n - k,
        {
            assert(width > 0 && k / width < height) by (nonlinear_arith)
                requires
                    k < total,
                    total == width * height,
            ;
            assert(k < colors@.len());
            let x = (area.top_left.x as i64 + (k % width) as i64) as i32;
            let y = (area.top_left.y as i64 + (k / width) as i64) as i32;
            pixels.push(Pixel(Point::new(x, y), colors[k as usize]));
            proof {
                assert(pixels@ =~= area_pixels(*area, colors@).take(k + 1));
            }
            k += 1;
        }
        proof {
            assert(pixels@ =~= area_pixels(*area, colors@));
        }
        self.draw_iter(pixels.as_slice());
    }
}

impl<B: DrawTarget> DrawTarget for RotatedBuffer<B> {
    type Color = B::Color;

    open spec fn valid(&self) -> bool {
        self.wf()
    }

    closed spec fn spec_bounding_box(&self) -> Rectangle {
        self.bounds
    }

    /// The inner buffer received the same pixels with their points rotated.
    open spec fn drawn_from(&self, before: Self, pixels: Seq<Pixel<B::Color>>) -> bool {
        &&& self.spec_rotation() == before.spec_rotation()
        &&& self.spec_inner().drawn_from(
            before.spec_inner(),
            rotated_pixels(before.spec_rotation(), before.spec_bounding_box().size, pixels),
        )
    }

    /// The inner buffer received the part of `area` inside the bounds, rotated.
    open spec fn filled_from(&self, before: Self, area: Rectangle, color: B::Color) -> bool {
        &&& self.spec_rotation() == before.spec_rotation()
        &&& if overlaps(before.spec_bounding_box(), area) {
            self.spec_inner().filled_from(
                before.spec_inner(),
                before.spec_rotation().spec_rotate_rectangle(
                    overlap(before.spec_bounding_box(), area),
                    before.spec_bounding_box().size,
                ),
                color,
            )
        } else {
            self.spec_inner() == before.spec_inner()
        }
    }

    fn bounding_box(&self) -> (r: Rectangle) {
        self.bounds
    }

    fn draw_iter(&mut self, pixels: &[Pixel<B::Color>]) {
        let mut rotated: Vec<Pixel<B::Color>> = Vec::new();
        let mut i: usize = 0;
        while i < pixels.len()
            invariant
                i <= pixels@.len(),
                rotated@ == rotated_pixels(self.rotation, self.bounds.size, pixels@.take(i as int)),
            decreases pixels@.len() - i,
        {
            let p = pixels[i];
            rotated.push(Pixel(self.rotation.rotate_point(p.0, self.bounds.size), p.1));
            proof {
                assert(rotated@ =~= rotated_pixels(self.rotation, self.bounds.size, pixels@.take(i + 1)));
            }
            i += 1;
        }
        proof {
            assert(pixels@.take(i as int) =~= pixels@);
        }
        self.buffer.draw_iter(rotated.as_slice());
    }

    fn fill_solid(&mut self, area: &Rectangle, color: B::Color) {
        let clipped = intersection(&self.bounds, area);
        if clipped.size.width == 0 || clipped.size.height == 0 {
            return;
        }
        let rotated = self.rotation.rotate_rectangle(clipped, self.bounds.size);
        proof {
            // The clipped area lies inside the rotated bounds, so its image lies inside the
            // inner bounds.
            let inner = self.buffer.spec_bounding_box();
            assert(0 <= clipped.top_left.x && clipped.top_left.x + clipped.size.width <= self.bounds.size.width);
            assert(0 <= clipped.top_left.y && clipped.top_left.y + clipped.size.height <= self.bounds.size.height);
            assert(rotated.top_left.x >= 0 && rotated.top_left.y >= 0);
            assert(rotated.top_left.x + rotated.size.width <= inner.size.width);
            assert(rotated.top_left.y + rotated.size.height <= inner.size.height);
        }
        self.buffer.fill_solid(&rotated, color);
    }
}

/// Filling an area of a rotated view of a packed bitmap paints exactly the inner pixels whose
/// point, rotated back into the view, lies in the area; every other pixel keeps its colour.
pub proof fn lemma_rotated_fill_solid<const L: usize>(
    before: RotatedBuffer<BinaryBuffer<L>>,
    after: RotatedBuffer<BinaryBuffer<L>>,
    area: Rectangle,
    color: BinaryColor,
)
    requires
        before.valid(),
        after.filled_from(before, area, color),
    ensures
        forall|x: int, y: int|
            after.spec_inner()@.in_bounds(x, y) ==> #[trigger] after.spec_inner()@.pixel(x, y) == if area.contains(
                before.spec_rotation().spec_inverse().spec_rotate_point(
                    Point { x: x as i32, y: y as i32 },
                    before.spec_inner().spec_bounding_box().size,
                ).x as int,
                before.spec_rotation().spec_inverse().spec_rotate_point(
                    Point { x: x as i32, y: y as i32 },
                    before.spec_inner().spec_bounding_box().size,
                ).y as int,
            ) {
                color
            } else {
                before.spec_inner()@.pixel(x, y)
            },
{
    let inner = before.spec_inner();
    let size = inner.spec_bounding_box().size;
    let outer = before.spec_bounding_box();
    let r = before.spec_rotation();
    inner.lemma_well_formed();
    assert forall|x: int, y: int| after.spec_inner()@.in_bounds(x, y) implies #[trigger] after.spec_inner()@.pixel(x, y) == if area.contains(
        r.spec_inverse().spec_rotate_point(Point { x: x as i32, y: y as i32 }, size).x as int,
        r.spec_inverse().spec_rotate_point(Point { x: x as i32, y: y as i32 }, size).y as int,
    ) {
        color
    } else {
        inner@.pixel(x, y)
    } by {
        let q = Point { x: x as i32, y: y as i32 };
        let p = r.spec_inverse().spec_rotate_point(q, size);
        assert(0 <= x < size.width && 0 <= y < size.height);
        // The point rotated back lies inside the view's bounds.
        assert(outer.contains(p.x as int, p.y as int));
        if overlaps(outer, area) {
            let clipped = overlap(outer, area);
            let image = r.spec_rotate_rectangle(clipped, outer.size);
            assert(area.contains(p.x as int, p.y as int) == clipped.contains(p.x as int, p.y as int));
            assert(image.contains(x, y) == clipped.contains(p.x as int, p.y as int));
        } else {
            assert(!area.contains(p.x as int, p.y as int));
        }
    }
}

} // verus!
