//! Drivers for Waveshare e-paper panels with a verified core: bit-packed framebuffers, rotated
//! views, a two-plane grayscale buffer, and per-panel session state machines. A session never
//! touches hardware itself: each transition yields the next session state together with the
//! script of operations (command transactions, reset and power line changes, delays) that the
//! hardware layer performs in order.
pub mod geometry;
pub mod buffer;
pub mod gray2;
pub mod rotation;
pub mod protocol;
pub mod epd2in9;
pub mod epd2in9_v2;
pub mod epd7in5_v2;

use vstd::prelude::*;
use crate::geometry::Rectangle;
use crate::protocol::{Op, OpSpec, script};

verus! {

/// Provides a view into a display buffer's data, encoded into `FRAMES` frames of `BITS` bits per
/// pixel.
pub trait BufferView<const BITS: usize, const FRAMES: usize> {
    /// The display window covered by this buffer.
    spec fn spec_window(&self) -> Rectangle;

    /// The bytes of each frame.
    spec fn spec_frames(&self) -> Seq<Seq<u8>>;

    /// Returns the display window covered by this buffer.
    fn window(&self) -> (r: Rectangle)
        ensures
            r == self.spec_window(),
    ;

    /// Returns the data to be written to this window.
    fn data(&self) -> (r: [&[u8]; FRAMES])
        ensures
            self.spec_frames().len() == FRAMES,
            forall|i: int| 0 <= i < FRAMES ==> (#[trigger] r@[i])@ == self.spec_frames()[i],
    ;
}

/// Displays that have a hardware reset.
pub trait Reset: Sized {
    type DisplayOut;

    /// The session after the reset and the script that performs it.
    spec fn spec_reset(self) -> (Self::DisplayOut, Seq<OpSpec>);

    /// Hardware resets the display.
    fn reset(self) -> (r: (Self::DisplayOut, Vec<Op>))
        ensures
            r.0 == self.spec_reset().0,
            script(r.1@) == self.spec_reset().1,
    ;
}

/// Displays with a power line that can be switched on.
pub trait PowerOn: Sized {
    type DisplayOut;

    /// The powered session and the script that switches the power on.
    spec fn spec_power_on(self) -> (Self::DisplayOut, Seq<OpSpec>);

    /// Switches the display's power on.
    fn power_on(self) -> (r: (Self::DisplayOut, Vec<Op>))
        ensures
            r.0 == self.spec_power_on().0,
            script(r.1@) == self.spec_power_on().1,
    ;
}

/// Displays with a power line that can be switched off.
pub trait PowerOff: Sized {
    type DisplayOut;

    /// The unpowered session and the script that switches the power off.
    spec fn spec_power_off(self) -> (Self::DisplayOut, Seq<OpSpec>);

    /// Switches the display's power off.
    fn power_off(self) -> (r: (Self::DisplayOut, Vec<Op>))
        ensures
            r.0 == self.spec_power_off().0,
            script(r.1@) == self.spec_power_off().1,
    ;
}

/// Displays that can sleep to save power.
pub trait Sleep: Sized {
    type DisplayOut;

    /// The sleeping session and the script that puts the panel to sleep.
    spec fn spec_sleep(self) -> (Self::DisplayOut, Seq<OpSpec>);

    /// Puts the display to sleep.
    fn sleep(self) -> (r: (Self::DisplayOut, Vec<Op>))
        ensures
            r.0 == self.spec_sleep().0,
            script(r.1@) == self.spec_sleep().1,
    ;
}

/// Displays that can be woken from a sleep state.
pub trait Wake: Sized {
    type DisplayOut;

    /// The awake session and the script that wakes the panel.
    spec fn spec_wake(self) -> (Self::DisplayOut, Seq<OpSpec>);

    /// Wakes the display, returning to the state it was in before sleeping.
    fn wake(self) -> (r: (Self::DisplayOut, Vec<Op>))
        ensures
            r.0 == self.spec_wake().0,
            script(r.1@) == self.spec_wake().1,
    ;
}

/// Displays that can be updated separately from writing their framebuffer data.
pub trait Displayable {
    /// The script that refreshes the panel.
    spec fn spec_update_display(&self) -> Seq<OpSpec>;

    /// Updates (refreshes) the display based on what has been written to the framebuffer.
    fn update_display(&self) -> (r: Vec<Op>)
        ensures
            script(r@) == self.spec_update_display(),
    ;
}

/// Displays that support writing and displaying framebuffers of `FRAMES` frames with `BITS`
/// bits per pixel.
pub trait DisplaySimple<const BITS: usize, const FRAMES: usize>: Displayable {
    /// Whether the panel can address `window`.
    spec fn window_ok(&self, window: Rectangle) -> bool;

    /// The script that writes `frames` into the main framebuffer over `window`.
    spec fn spec_write_framebuffer(&self, window: Rectangle, frames: Seq<Seq<u8>>) -> Seq<OpSpec>;

    /// Writes the buffer's data into the main framebuffer, to be shown on the next update.
    fn write_framebuffer<B: BufferView<BITS, FRAMES>>(&self, buf: &B) -> (r: Vec<Op>)
        requires
            self.window_ok(buf.spec_window()),
        ensures
            script(r@) == self.spec_write_framebuffer(buf.spec_window(), buf.spec_frames()),
    ;

    /// Writes the buffer's data and then updates the display.
    fn display_framebuffer<B: BufferView<BITS, FRAMES>>(&self, buf: &B) -> (r: Vec<Op>)
        requires
            self.window_ok(buf.spec_window()),
        ensures
            script(r@) == self.spec_write_framebuffer(buf.spec_window(), buf.spec_frames())
                + self.spec_update_display(),
    ;
}

/// Displays that support a partial update, where the main framebuffer is diffed against a base
/// framebuffer and only the differing pixels are updated.
pub trait DisplayPartial<const BITS: usize, const FRAMES: usize>: DisplaySimple<BITS, FRAMES> {
    /// The script that writes `frames` into the base framebuffer over `window`.
    spec fn spec_write_base_framebuffer(&self, window: Rectangle, frames: Seq<Seq<u8>>) -> Seq<
        OpSpec,
    >;

    /// Writes the buffer to the base framebuffer that the main framebuffer is diffed against.
    fn write_base_framebuffer<B: BufferView<BITS, FRAMES>>(&self, buf: &B) -> (r: Vec<Op>)
        requires
            self.window_ok(buf.spec_window()),
        ensures
            script(r@) == self.spec_write_base_framebuffer(buf.spec_window(), buf.spec_frames()),
    ;
}

} // verus!
