use crate::buffer::{
    color_after, BinaryBuffer, BinaryColor, BitmapView, DrawTarget, Pixel,
};
use crate::geometry::Rectangle;
use vstd::prelude::*;

verus! {

/// A 2-bit grayscale colour.
#[derive(Clone, Copy, Debug, PartialEq, Eq, Structural)]
pub struct Gray2 {
    luma: u8,
}

impl Gray2 {
    /// The luma value, in `0..=3`.
    pub closed spec fn spec_luma(self) -> u8 {
        self.luma & 0b11
    }

    /// Creates a colour from the two low bits of `luma`.
    pub fn new(luma: u8) -> (r: Gray2)
        ensures
            r.spec_luma() == luma & 0b11,
    {
        let r = Gray2 { luma: luma & 0b11 };
        assert(luma & 0b11 & 0b11 == luma & 0b11) by (bit_vector);
        r
    }

    pub fn luma(&self) -> (r: u8)
        ensures
            r == self.spec_luma(),
            r < 4,
    {
        let l = self.luma;
        assert(l & 0b11 < 4) by (bit_vector);
        l & 0b11
    }
}

/// The colour that the low-bit plane stores for `g`.
pub open spec fn low_color(g: Gray2) -> BinaryColor {
    if g.spec_luma() & 1 == 0 {
        BinaryColor::Off
    } else {
        BinaryColor::On
    }
}

/// The colour that the high-bit plane stores for `g`.
pub open spec fn high_color(g: Gray2) -> BinaryColor {
    if g.spec_luma() & 0b10 == 0 {
        BinaryColor::Off
    } else {
        BinaryColor::On
    }
}

/// The pixels as drawn on the low-bit plane.
pub open spec fn low_pixels(pixels: Seq<Pixel<Gray2>>) -> Seq<Pixel<BinaryColor>> {
    pixels.map_values(|p: Pixel<Gray2>| Pixel(p.0, low_color(p.1)))
}

/// The pixels as drawn on the high-bit plane.
pub open spec fn high_pixels(pixels: Seq<Pixel<Gray2>>) -> Seq<Pixel<BinaryColor>> {
    pixels.map_values(|p: Pixel<Gray2>| Pixel(p.0, high_color(p.1)))
}

/// Splits a 2-bit colour into the binary colours of its low and high bit.
pub fn to_low_and_high_as_binary(g: Gray2) -> (r: (BinaryColor, BinaryColor))
    ensures
        r.0 == low_color(g),
        r.1 == high_color(g),
{
    let luma = g.luma();
    let low = if (luma & 1) == 0 {
        BinaryColor::Off
    } else {
        BinaryColor::On
    };
    let high = if (luma & 0b10) == 0 {
        BinaryColor::Off
    } else {
        BinaryColor::On
    };
    (low, high)
}

/// Drawing `s1` and then `s2` is drawing `s1 + s2`.
proof fn lemma_color_after_concat<C>(base: C, s1: Seq<Pixel<C>>, s2: Seq<Pixel<C>>, x: int, y: int)
    ensures
        color_after(color_after(base, s1, x, y), s2, x, y) == color_after(base, s1 + s2, x, y),
    decreases s2.len(),
{
    if s2.len() > 0 {
        assert((s1 + s2).drop_last() =~= s1 + s2.drop_last());
        lemma_color_after_concat(base, s1, s2.drop_last(), x, y);
    } else {
        assert(s1 + s2 =~= s1);
    }
}

proof fn lemma_drawn_concat(
    before: BitmapView,
    mid: BitmapView,
    after: BitmapView,
    s1: Seq<Pixel<BinaryColor>>,
    s2: Seq<Pixel<BinaryColor>>,
)
    requires
        mid.drawn(before, s1),
        after.drawn(mid, s2),
    ensures
        after.drawn(before, s1 + s2),
{
    assert forall|x: int, y: int| after.in_bounds(x, y) implies #[trigger] after.pixel(x, y)
        == color_after(before.pixel(x, y), s1 + s2, x, y) by {
        assert(mid.pixel(x, y) == color_after(before.pixel(x, y), s1, x, y));
        lemma_color_after_concat(before.pixel(x, y), s1, s2, x, y);
    }
}

/// The number of points buffered per plane before both planes are drawn to.
const GRAY_ITER_CHUNK_SIZE: usize = 128;

#[verifier::external_type_specification]
#[verifier::external_body]
#[verifier::reject_recursive_types(T)]
pub struct ExHeaplessVec<T, const N: usize>(heapless::Vec<T, N>);

/// A fixed-capacity batch of points for one plane.
type Batch = heapless::Vec<Pixel<BinaryColor>, GRAY_ITER_CHUNK_SIZE>;

/// What a batch holds, in order.
pub uninterp spec fn batch_items(batch: heapless::Vec<Pixel<BinaryColor>, 128>) -> Seq<Pixel<BinaryColor>>;

/// Relies on `heapless::Vec::new`: an empty vector.
#[verifier::external_body]
fn new_batch() -> (r: Batch)
    ensures
        batch_items(r) == Seq::<Pixel<BinaryColor>>::empty(),
{
    heapless::Vec::new()
}

/// Relies on `heapless::Vec::push`: appends the item while the vector holds fewer than its
/// capacity of 128 items, and otherwise hands the item back unchanged.
#[verifier::external_body]
fn push_batch(batch: &mut Batch, p: Pixel<BinaryColor>) -> (r: Result<(), Pixel<BinaryColor>>)
    ensures
        batch_items(*old(batch)).len() < 128 ==> (r is Ok) && batch_items(*final(batch)) == batch_items(*old(batch)).push(p),
        batch_items(*old(batch)).len() >= 128 ==> (r is Err) && batch_items(*final(batch)) == batch_items(*old(batch)),
{
    batch.push(p)
}

/// Relies on `heapless::Vec::is_full`: whether the vector holds its capacity of 128 items.
#[verifier::external_body]
fn batch_is_full(batch: &Batch) -> (r: bool)
    ensures
        r == (batch_items(*batch).len() == 128),
{
    batch.is_full()
}

/// Relies on `heapless::Vec::as_slice`: the items in order, never more than the capacity.
#[verifier::external_body]
fn batch_slice(batch: &Batch) -> (r: &[Pixel<BinaryColor>])
    ensures
        r@ == batch_items(*batch),
        r@.len() <= 128,
{
    batch.as_slice()
}

/// A buffer supporting 2-bit grayscale colours, split into two single-bit planes: `low` holds
/// bit 0 of each pixel and `high` holds bit 1.
#[derive(Clone)]
pub struct Gray2SplitBuffer<const L: usize> {
    pub low: BinaryBuffer<L>,
    pub high: BinaryBuffer<L>,
}

/// Computes the correct size for the [Gray2SplitBuffer] based on the given dimensions.
pub fn gray2_split_buffer_length(size: crate::geometry::Size) -> (r: usize)
    requires
        crate::buffer::spec_binary_buffer_length(size) <= usize::MAX,
    ensures
        r == crate::buffer::spec_binary_buffer_length(size),
{
    crate::buffer::binary_buffer_length(size)
}

impl<const L: usize> Gray2SplitBuffer<L> {
    /// Creates a new [Gray2SplitBuffer] with all pixels set to 0.
    ///
    /// The width must be a multiple of 8, and the dimensions must match the buffer length `L`.
    pub fn new(dimensions: crate::geometry::Size) -> (r: Self)
        requires
            dimensions.width % 8 == 0,
            dimensions.width <= i32::MAX,
            dimensions.height <= i32::MAX,
            crate::buffer::spec_binary_buffer_length(dimensions) == L,
        ensures
            r.valid(),
            r.low@.width == dimensions.width,
            r.low@.height == dimensions.height,
            r.low@.bytes == Seq::new(L as nat, |i: int| 0u8),
            r.high@.bytes == Seq::new(L as nat, |i: int| 0u8),
    {
        Self { low: BinaryBuffer::new(dimensions), high: BinaryBuffer::new(dimensions) }
    }

    /// Draws the buffered plane pixels onto both planes.
    fn flush(&mut self, low_chunk: &Batch, high_chunk: &Batch)
        requires
            old(self).valid(),
        ensures
            final(self).valid(),
            final(self).spec_bounding_box() == old(self).spec_bounding_box(),
            final(self).low@.drawn(old(self).low@, batch_items(*low_chunk)),
            final(self).high@.drawn(old(self).high@, batch_items(*high_chunk)),
    {
        self.low.draw_iter(batch_slice(low_chunk));
        self.high.draw_iter(batch_slice(high_chunk));
    }
}

impl<const L: usize> DrawTarget for Gray2SplitBuffer<L> {
    type Color = Gray2;

    open spec fn valid(&self) -> bool {
        &&& self.low.wf()
        &&& self.high.wf()
        &&& self.low@.width == self.high@.width
        &&& self.low@.height == self.high@.height
    }

    open spec fn spec_bounding_box(&self) -> Rectangle {
        self.low.spec_bounding_box()
    }

    open spec fn drawn_from(&self, before: Self, pixels: Seq<Pixel<Gray2>>) -> bool {
        &&& self.low@.drawn(before.low@, low_pixels(pixels))
        &&& self.high@.drawn(before.high@, high_pixels(pixels))
    }

    open spec fn filled_from(&self, before: Self, area: Rectangle, color: Gray2) -> bool {
        &&& self.low.filled_from(before.low, area, low_color(color))
        &&& self.high.filled_from(before.high, area, high_color(color))
    }

    fn bounding_box(&self) -> (r: Rectangle) {
        self.low.bounding_box()
    }

    /// Points are buffered into bounded batches; when a batch is full, both planes are drawn
    /// to before buffering continues, so the planes never drift apart.
    fn draw_iter(&mut self, pixels: &[Pixel<Gray2>]) {
        // The pixels are buffered in bounded batches: this keeps memory use fixed, and the
        // input may be longer than the buffer since it can go out of bounds.
        let mut low_chunk = new_batch();
        let mut high_chunk = new_batch();
        let ghost mut flushed: int = 0;
        let mut i: usize = 0;
        while i < pixels.len()
            invariant
                self.valid(),
                self.spec_bounding_box() == old(self).spec_bounding_box(),
                0 <= flushed <= i <= pixels@.len(),
                batch_items(low_chunk).len() <= GRAY_ITER_CHUNK_SIZE,
                batch_items(low_chunk) == low_pixels(pixels@.subrange(flushed, i as int)),
                batch_items(high_chunk) == high_pixels(pixels@.subrange(flushed, i as int)),
                self.low@.drawn(old(self).low@, low_pixels(pixels@.take(flushed))),
                self.high@.drawn(old(self).high@, high_pixels(pixels@.take(flushed))),
            decreases pixels@.len() - i,
        {
            let p = pixels[i];
            let (low, high) = to_low_and_high_as_binary(p.1);
            if batch_is_full(&low_chunk) {
                let ghost low_before = self.low@;
                let ghost high_before = self.high@;
                self.flush(&low_chunk, &high_chunk);
                proof {
                    let done = pixels@.take(flushed);
                    lemma_drawn_concat(old(self).low@, low_before, self.low@, low_pixels(done), batch_items(low_chunk));
                    lemma_drawn_concat(old(self).high@, high_before, self.high@, high_pixels(done), batch_items(high_chunk));
                    assert(done + pixels@.subrange(flushed, i as int) =~= pixels@.take(i as int));
                    assert(low_pixels(done) + batch_items(low_chunk) =~= low_pixels(pixels@.take(i as int)));
                    assert(high_pixels(done) + batch_items(high_chunk) =~= high_pixels(pixels@.take(i as int)));
                    flushed = i as int;
                }
                low_chunk = new_batch();
                high_chunk = new_batch();
                proof {
                    assert(batch_items(low_chunk) =~= low_pixels(pixels@.subrange(flushed, i as int)));
                    assert(batch_items(high_chunk) =~= high_pixels(pixels@.subrange(flushed, i as int)));
                }
            }
            // Neither batch is full here, so both pushes succeed.
            let _ = push_batch(&mut low_chunk, Pixel(p.0, low));
            let _ = push_batch(&mut high_chunk, Pixel(p.0, high));
            proof {
                assert(batch_items(low_chunk) =~= low_pixels(pixels@.subrange(flushed, i + 1)));
                assert(batch_items(high_chunk) =~= high_pixels(pixels@.subrange(flushed, i + 1)));
            }
            i += 1;
        }
        let ghost low_before = self.low@;
        let ghost high_before = self.high@;
        if batch_slice(&low_chunk).len() > 0 {
            self.flush(&low_chunk, &high_chunk);
        } else {
            proof {
                assert(self.low@.drawn(low_before, batch_items(low_chunk)));
                assert(self.high@.drawn(high_before, batch_items(high_chunk)));
            }
        }
        proof {
            let done = pixels@.take(flushed);
            lemma_drawn_concat(old(self).low@, low_before, self.low@, low_pixels(done), batch_items(low_chunk));
            lemma_drawn_concat(old(self).high@, high_before, self.high@, high_pixels(done), batch_items(high_chunk));
            assert(done + pixels@.subrange(flushed, i as int) =~= pixels@);
            assert(low_pixels(done) + batch_items(low_chunk) =~= low_pixels(pixels@));
            assert(high_pixels(done) + batch_items(high_chunk) =~= high_pixels(pixels@));
        }
    }

    fn fill_solid(&mut self, area: &Rectangle, color: Gray2) {
        let (low, high) = to_low_and_high_as_binary(color);
        self.low.fill_solid(area, low);
        self.high.fill_solid(area, high);
    }
}

impl<const L: usize> crate::BufferView<1, 2> for Gray2SplitBuffer<L> {
    open spec fn spec_window(&self) -> Rectangle {
        self.low.spec_bounding_box()
    }

    /// The low-bit plane, then the high-bit plane.
    open spec fn spec_frames(&self) -> Seq<Seq<u8>> {
        seq![self.low@.bytes, self.high@.bytes]
    }

    fn window(&self) -> (r: Rectangle) {
        crate::BufferView::<1, 1>::window(&self.low)
    }

    fn data(&self) -> (r: [&[u8]; 2]) {
        [self.low.data(), self.high.data()]
    }
}

} // verus!
