//! The 2.9" Waveshare e-paper display (first generation), in portrait orientation.
//!
//! When using `BinaryColor`, `Off` is black and `On` is white.
use crate::buffer::{BinaryBuffer, BinaryColor};
use crate::geometry::{Point, Rectangle, Size};
use crate::protocol::{
    lemma_panel_run_concat, panel_run, push_op, push_ram_cursor, push_ram_window, push_send,
    ram_cursor_ops, ram_window_ops, script, Op, OpSpec, PinState, TwoRamCommands, TwoRamPanel,
};
use crate::{BufferView, DisplayPartial, DisplaySimple, Displayable, Reset, Sleep, Wake};
use vstd::prelude::*;

verus! {

/// The refresh mode for the display.
#[derive(Clone, Copy, Debug, PartialEq, Eq, Structural)]
pub enum RefreshMode {
    /// Use the full update LUT. This is slower, but should be done occasionally to avoid ghosting.
    Full,
    /// Uses the partial update LUT for fast refresh, updating only the pixels that differ from
    /// the base framebuffer.
    Partial,
    /// A partial refresh that only updates the black pixels of the new image.
    PartialBlackBypass,
    /// A partial refresh that only updates the white pixels of the new image.
    PartialWhiteBypass,
}

pub open spec fn lut_full_update() -> Seq<u8> {
    seq![
        0x50u8, 0xAA, 0x55, 0xAA, 0x11, 0x00, 0x00, 0x00, 0x00, 0x00, 0x00, 0x00, 0x00, 0x00, 0x00,
        0x00, 0x00, 0x00, 0x00, 0x00, 0xFF, 0xFF, 0x1F, 0x00, 0x00, 0x00, 0x00, 0x00, 0x00, 0x00,
    ]
}

pub open spec fn lut_partial_update() -> Seq<u8> {
    seq![
        0x10u8, 0x18, 0x18, 0x08, 0x18, 0x18, 0x08, 0x00, 0x00, 0x00, 0x00, 0x00, 0x00, 0x00, 0x00,
        0x00, 0x00, 0x00, 0x00, 0x00, 0x13, 0x14, 0x44, 0x12, 0x00, 0x00, 0x00, 0x00, 0x00, 0x00,
    ]
}

impl RefreshMode {
    pub open spec fn spec_lut(self) -> Seq<u8> {
        match self {
            RefreshMode::Full => lut_full_update(),
            _ => lut_partial_update(),
        }
    }

    /// Returns the look-up table that drives the waveforms of this refresh mode.
    pub fn lut(&self) -> (r: [u8; 30])
        ensures
            r@ == self.spec_lut(),
    {
        let r = match self {
            RefreshMode::Full => [
                0x50, 0xAA, 0x55, 0xAA, 0x11, 0x00, 0x00, 0x00, 0x00, 0x00, 0x00, 0x00, 0x00, 0x00,
                0x00, 0x00, 0x00, 0x00, 0x00, 0x00, 0xFF, 0xFF, 0x1F, 0x00, 0x00, 0x00, 0x00, 0x00,
                0x00, 0x00,
            ],
            _ => [
                0x10, 0x18, 0x18, 0x08, 0x18, 0x18, 0x08, 0x00, 0x00, 0x00, 0x00, 0x00, 0x00, 0x00,
                0x00, 0x00, 0x00, 0x00, 0x00, 0x00, 0x13, 0x14, 0x44, 0x12, 0x00, 0x00, 0x00, 0x00,
                0x00, 0x00,
            ],
        };
        assert(r@ =~= self.spec_lut());
        r
    }
}

/// The height of the display (portrait orientation).
pub const DISPLAY_HEIGHT: u16 = 296;

/// The width of the display (portrait orientation).
pub const DISPLAY_WIDTH: u16 = 128;

/// Low-level commands for the display.
#[derive(Clone, Copy, Debug, PartialEq, Eq, Structural)]
pub enum Command {
    /// Used to initialise the display.
    DriverOutputControl,
    /// Used to initialise the display.
    BoosterSoftStartControl,
    /// Enters deep sleep mode. Requires a hardware reset to wake up.
    DeepSleepMode,
    /// Changes the auto-increment behaviour of the address counter.
    DataEntryModeSetting,
    /// Resets all commands and parameters to default values (except deep sleep mode).
    SwReset,
    /// Writes to the temperature register.
    TemperatureSensorControl,
    /// Activates the display update sequence configured with [Command::DisplayUpdateControl2].
    MasterActivation,
    /// Sets the RAM "bypass" used for partial refreshes.
    DisplayUpdateControl1,
    /// Configures the display update sequence for [Command::MasterActivation].
    DisplayUpdateControl2,
    /// Writes to the RAM that the next update shows.
    WriteRam,
    /// Writes to the other RAM, the base of partial refreshes.
    WriteOldRam,
    /// Writes to the VCOM register.
    WriteVcom,
    /// Writes the look-up table register.
    WriteLut,
    /// Sets the number of dummy lines per gate.
    SetDummyLinePeriod,
    /// Sets the scan line width.
    SetGateLineWidth,
    /// Selects the border waveform.
    BorderWaveformControl,
    /// Sets the inclusive start and end of the x window, in bytes of 8 pixels.
    SetRamXStartEnd,
    /// Sets the inclusive start and end of the y window.
    SetRamYStartEnd,
    /// Sets the x address counter, in bytes of 8 pixels.
    SetRamX,
    /// Sets the y address counter.
    SetRamY,
    /// Does nothing; terminates a frame read or write.
    Noop,
}

impl Command {
    pub open spec fn spec_register(self) -> u8 {
        match self {
            Command::DriverOutputControl => 0x01,
            Command::BoosterSoftStartControl => 0x0C,
            Command::DeepSleepMode => 0x10,
            Command::DataEntryModeSetting => 0x11,
            Command::SwReset => 0x12,
            Command::TemperatureSensorControl => 0x1A,
            Command::MasterActivation => 0x20,
            Command::DisplayUpdateControl1 => 0x21,
            Command::DisplayUpdateControl2 => 0x22,
            Command::WriteRam => 0x24,
            Command::WriteOldRam => 0x26,
            Command::WriteVcom => 0x2C,
            Command::WriteLut => 0x32,
            Command::SetDummyLinePeriod => 0x3A,
            Command::SetGateLineWidth => 0x3B,
            Command::BorderWaveformControl => 0x3C,
            Command::SetRamXStartEnd => 0x44,
            Command::SetRamYStartEnd => 0x45,
            Command::SetRamX => 0x4E,
            Command::SetRamY => 0x4F,
            Command::Noop => 0xFF,
        }
    }

    /// Returns the register address for this command.
    pub fn register(&self) -> (r: u8)
        ensures
            r == self.spec_register(),
    {
        match self {
            Command::DriverOutputControl => 0x01,
            Command::BoosterSoftStartControl => 0x0C,
            Command::DeepSleepMode => 0x10,
            Command::DataEntryModeSetting => 0x11,
            Command::SwReset => 0x12,
            Command::TemperatureSensorControl => 0x1A,
            Command::MasterActivation => 0x20,
            Command::DisplayUpdateControl1 => 0x21,
            Command::DisplayUpdateControl2 => 0x22,
            Command::WriteRam => 0x24,
            Command::WriteOldRam => 0x26,
            Command::WriteVcom => 0x2C,
            Command::WriteLut => 0x32,
            Command::SetDummyLinePeriod => 0x3A,
            Command::SetGateLineWidth => 0x3B,
            Command::BorderWaveformControl => 0x3C,
            Command::SetRamXStartEnd => 0x44,
            Command::SetRamYStartEnd => 0x45,
            Command::SetRamX => 0x4E,
            Command::SetRamY => 0x4F,
            Command::Noop => 0xFF,
        }
    }
}

/// The length of the buffer for the whole display.
pub const BINARY_BUFFER_LENGTH: usize = 128 / 8 * 296;

/// The buffer type for the whole display.
pub type Epd2In9Buffer = BinaryBuffer<BINARY_BUFFER_LENGTH>;

/// Constructs a new buffer covering the whole display.
pub fn new_buffer() -> (r: Epd2In9Buffer)
    ensures
        r.wf(),
        r@.width == DISPLAY_WIDTH,
        r@.height == DISPLAY_HEIGHT,
{
    Epd2In9Buffer::new(Size::new(DISPLAY_WIDTH as u32, DISPLAY_HEIGHT as u32))
}

/// A session with the display, in the state `STATE`.
pub struct Epd2In9<STATE> {
    state: STATE,
}

trait StateInternal {}

/// The states a session can be in.
#[allow(private_bounds)]
pub trait State: StateInternal {}

/// The states in which the panel accepts commands.
pub trait StateAwake: State {}

/// The panel has power but has not been initialised.
#[derive(Clone, Copy, Debug, PartialEq, Eq, Structural)]
pub struct StateUninitialized();

impl StateInternal for StateUninitialized {}

impl State for StateUninitialized {}

impl StateAwake for StateUninitialized {}

/// The panel is initialised with a refresh mode and accepts image data.
#[derive(Clone, Copy, Debug, PartialEq, Eq, Structural)]
pub struct StateReady {
    pub mode: RefreshMode,
}

impl StateInternal for StateReady {}

impl State for StateReady {}

impl StateAwake for StateReady {}

/// The panel sleeps; waking it returns to `wake_state`.
#[derive(Clone, Copy, Debug, PartialEq, Eq)]
pub struct StateAsleep<W: StateAwake> {
    pub wake_state: W,
}

impl<W: StateAwake> StateInternal for StateAsleep<W> {}

impl<W: StateAwake> State for StateAsleep<W> {}

/// The bytes sent with [Command::DriverOutputControl] during initialisation: the low and high
/// byte of the display's long edge, then the scanning settings.
pub open spec fn driver_output_init_data() -> Seq<u8> {
    seq![0x27u8, 0x01, 0x00]
}

pub open spec fn booster_soft_start_init_data() -> Seq<u8> {
    seq![0xD7u8, 0xD6, 0x9D]
}

/// The hardware reset pulse: the reset line goes low and back high, with settle delays.
pub open spec fn reset_ops() -> Seq<OpSpec> {
    seq![
        OpSpec::SetReset(PinState::Low),
        OpSpec::DelayMs(10),
        OpSpec::SetReset(PinState::High),
        OpSpec::DelayMs(10),
    ]
}

/// The register defaults sent during bring-up, before the refresh mode.
pub open spec fn bring_up_ops() -> Seq<OpSpec> {
    seq![
        OpSpec::Send(Command::SwReset.spec_register(), seq![]),
        OpSpec::Send(Command::DriverOutputControl.spec_register(), driver_output_init_data()),
        OpSpec::Send(Command::BoosterSoftStartControl.spec_register(), booster_soft_start_init_data()),
        OpSpec::Send(Command::DataEntryModeSetting.spec_register(), seq![0b11u8]),
        OpSpec::Send(Command::WriteVcom.spec_register(), seq![0xA8u8]),
        OpSpec::Send(Command::SetDummyLinePeriod.spec_register(), seq![0x1Au8]),
        OpSpec::Send(Command::SetGateLineWidth.spec_register(), seq![0x08u8]),
    ]
}

/// The RAM bypass byte of a mode, if the mode sets one.
pub open spec fn bypass_byte(mode: RefreshMode) -> Option<u8> {
    match mode {
        RefreshMode::Full => None,
        RefreshMode::Partial => Some(0x00u8),
        RefreshMode::PartialBlackBypass => Some(0x90u8),
        RefreshMode::PartialWhiteBypass => Some(0x80u8),
    }
}

/// The transactions that make `mode` take effect: its look-up table, then its bypass setting.
pub open spec fn refresh_mode_ops(mode: RefreshMode) -> Seq<OpSpec> {
    let lut = seq![OpSpec::Send(Command::WriteLut.spec_register(), mode.spec_lut())];
    match bypass_byte(mode) {
        Some(b) => lut.push(OpSpec::Send(Command::DisplayUpdateControl1.spec_register(), seq![b])),
        None => lut,
    }
}

/// The script of a display update: enable the clock and charge pump, show the RAM, and swap the
/// two RAMs.
pub open spec fn update_ops() -> Seq<OpSpec> {
    seq![
        OpSpec::Send(Command::DisplayUpdateControl2.spec_register(), seq![0xC4u8]),
        OpSpec::Send(Command::MasterActivation.spec_register(), seq![]),
        OpSpec::Send(Command::Noop.spec_register(), seq![]),
    ]
}

/// The panel addresses x in whole bytes of 8 pixels, and y in 16 bits.
pub open spec fn window_ok(shape: Rectangle) -> bool {
    let x_start = shape.top_left.x as int;
    let x_end = shape.top_left.x + shape.size.width - 1;
    let y_start = shape.top_left.y as int;
    let y_end = shape.top_left.y + shape.size.height - 1;
    &&& 0 <= x_start
    &&& x_start % 8 == 0
    &&& 0 <= x_end <= i32::MAX
    &&& x_end % 8 == 7
    &&& 0 <= y_start <= y_end <= 0xFFFF
}

pub open spec fn window_ops(shape: Rectangle) -> Seq<OpSpec> {
    ram_window_ops(
        Command::SetRamXStartEnd.spec_register(),
        Command::SetRamYStartEnd.spec_register(),
        shape.top_left.x as int,
        shape.top_left.x + shape.size.width - 1,
        shape.top_left.y as int,
        shape.top_left.y + shape.size.height - 1,
    )
}

pub open spec fn cursor_ops(position: Point) -> Seq<OpSpec> {
    ram_cursor_ops(
        Command::SetRamX.spec_register(),
        Command::SetRamY.spec_register(),
        position.x as int,
        position.y as int,
    )
}

/// The script that writes `image` into the RAM selected by `command` over `window`.
pub open spec fn write_image_ops(window: Rectangle, command: Command, image: Seq<u8>) -> Seq<OpSpec> {
    window_ops(window) + cursor_ops(window.top_left) + seq![OpSpec::Send(command.spec_register(), image)]
}

fn push_command(ops: &mut Vec<Op>, command: Command, data: &[u8])
    ensures
        script(final(ops)@) == script(old(ops)@).push(OpSpec::Send(command.spec_register(), data@)),
{
    push_send(ops, command.register(), data);
}

fn push_reset(ops: &mut Vec<Op>)
    ensures
        script(final(ops)@) == script(old(ops)@) + reset_ops(),
{
    push_op(ops, Op::SetReset(PinState::Low));
    push_op(ops, Op::DelayMs(10));
    push_op(ops, Op::SetReset(PinState::High));
    push_op(ops, Op::DelayMs(10));
    assert(script(ops@) =~= script(old(ops)@) + reset_ops());
}

fn push_refresh_mode(ops: &mut Vec<Op>, mode: RefreshMode)
    ensures
        script(final(ops)@) == script(old(ops)@) + refresh_mode_ops(mode),
{
    let lut = mode.lut();
    push_command(ops, Command::WriteLut, &lut);
    // Update the RAM bypass where the mode needs one.
    let bypass: Option<u8> = match mode {
        RefreshMode::Partial => Some(0x00),
        RefreshMode::PartialBlackBypass => Some(0x90),
        RefreshMode::PartialWhiteBypass => Some(0x80),
        RefreshMode::Full => None,
    };
    if let Some(b) = bypass {
        let data = [b];
        assert(data@ =~= seq![b]);
        push_command(ops, Command::DisplayUpdateControl1, &data);
    }
    proof {
        assert(script(ops@) =~~= script(old(ops)@) + refresh_mode_ops(mode));
    }
}

impl Epd2In9<StateUninitialized> {
    /// Starts a session with a panel that has not been initialised.
    pub fn new() -> (r: Self)
        ensures
            r.spec_state() == StateUninitialized(),
    {
        Epd2In9 { state: StateUninitialized() }
    }
}

impl<STATE> Epd2In9<STATE> {
    pub closed spec fn spec_state(&self) -> STATE {
        self.state
    }
}

impl<STATE: StateAwake> Epd2In9<STATE> {
    /// Resets and initialises the display with the given refresh mode.
    pub fn init(self, mode: RefreshMode) -> (r: (Epd2In9<StateReady>, Vec<Op>))
        ensures
            r.0.spec_state() == (StateReady { mode }),
            script(r.1@) == reset_ops() + bring_up_ops() + refresh_mode_ops(mode),
    {
        let mut ops: Vec<Op> = Vec::new();
        push_reset(&mut ops);
        let no_data: [u8; 0] = [];
        assert(no_data@ =~= Seq::<u8>::empty());
        push_command(&mut ops, Command::SwReset, &no_data);
        let driver_output = [0x27u8, 0x01u8, 0x00u8];
        assert(driver_output@ =~= seq![0x27u8, 0x01u8, 0x00u8]);
        push_command(&mut ops, Command::DriverOutputControl, &driver_output);
        let booster_soft_start = [0xD7u8, 0xD6u8, 0x9Du8];
        assert(booster_soft_start@ =~= seq![0xD7u8, 0xD6u8, 0x9Du8]);
        push_command(&mut ops, Command::BoosterSoftStartControl, &booster_soft_start);
        // Auto-increment X and Y, moving in the X direction first.
        let data_entry_mode = [0b11u8];
        assert(data_entry_mode@ =~= seq![0b11u8]);
        push_command(&mut ops, Command::DataEntryModeSetting, &data_entry_mode);
        let vcom = [0xA8u8];
        assert(vcom@ =~= seq![0xA8u8]);
        push_command(&mut ops, Command::WriteVcom, &vcom);
        // 4 dummy lines per gate.
        let dummy_line_period = [0x1Au8];
        assert(dummy_line_period@ =~= seq![0x1Au8]);
        push_command(&mut ops, Command::SetDummyLinePeriod, &dummy_line_period);
        // 2us per line.
        let gate_line_width = [0x08u8];
        assert(gate_line_width@ =~= seq![0x08u8]);
        push_command(&mut ops, Command::SetGateLineWidth, &gate_line_width);
        push_refresh_mode(&mut ops, mode);
        proof {
            assert(script(ops@) =~~= reset_ops() + bring_up_ops() + refresh_mode_ops(mode));
        }
        (Epd2In9 { state: StateReady { mode } }, ops)
    }

    /// The transaction that sets the border to `color`.
    pub fn set_border(&self, color: BinaryColor) -> (r: Vec<Op>)
        ensures
            script(r@) == seq![
                OpSpec::Send(
                    Command::BorderWaveformControl.spec_register(),
                    seq![if color == BinaryColor::On { 0x01u8 } else { 0x00u8 }],
                ),
            ],
    {
        let border_setting: u8 = match color {
            BinaryColor::Off => 0x00,
            BinaryColor::On => 0x01,
        };
        let mut ops: Vec<Op> = Vec::new();
        let border = [border_setting];
        assert(border@ =~= seq![border_setting]);
        push_command(&mut ops, Command::BorderWaveformControl, &border);
        assert(script(ops@) =~~= seq![
            OpSpec::Send(
                Command::BorderWaveformControl.spec_register(),
                seq![if color == BinaryColor::On { 0x01u8 } else { 0x00u8 }],
            ),
        ]);
        ops
    }

    /// The transaction that sends `command` with `data`, for low-level control.
    pub fn send(&self, command: Command, data: &[u8]) -> (r: Op)
        ensures
            r@ == OpSpec::Send(command.spec_register(), data@),
    {
        Op::Send { command: command.register(), data: vstd::slice::slice_to_vec(data) }
    }
}

impl Epd2In9<StateReady> {
    pub closed spec fn spec_mode(&self) -> RefreshMode {
        self.state.mode
    }

    /// The active refresh mode.
    pub fn mode(&self) -> (r: RefreshMode)
        ensures
            r == self.spec_mode(),
    {
        self.state.mode
    }

    /// Switches to another refresh mode; nothing is sent if the mode is already active.
    pub fn set_refresh_mode(self, mode: RefreshMode) -> (r: (Self, Vec<Op>))
        ensures
            r.0.spec_mode() == mode,
            mode == self.spec_mode() ==> script(r.1@) == Seq::<OpSpec>::empty(),
            mode != self.spec_mode() ==> script(r.1@) == refresh_mode_ops(mode),
    {
        let mut ops: Vec<Op> = Vec::new();
        if self.state.mode == mode {
            assert(script(ops@) =~= Seq::<OpSpec>::empty());
            (self, ops)
        } else {
            push_refresh_mode(&mut ops, mode);
            assert(script(ops@) =~= refresh_mode_ops(mode));
            (Epd2In9 { state: StateReady { mode } }, ops)
        }
    }

    /// The transactions that set the window the next image data is written to.
    ///
    /// The x axis is addressed in whole bytes: the window must start on a multiple of 8 and span
    /// a multiple of 8 pixels.
    pub fn set_window(&self, shape: Rectangle) -> (r: Vec<Op>)
        requires
            window_ok(shape),
        ensures
            script(r@) == window_ops(shape),
    {
        let x_start = shape.top_left.x;
        let x_end = (x_start as i64 + shape.size.width as i64 - 1) as i32;
        let y_start = shape.top_left.y;
        let y_end = (y_start as i64 + shape.size.height as i64 - 1) as i32;
        let mut ops: Vec<Op> = Vec::new();
        push_ram_window(
            &mut ops,
            Command::SetRamXStartEnd.register(),
            Command::SetRamYStartEnd.register(),
            x_start,
            x_end,
            y_start,
            y_end,
        );
        assert(script(ops@) =~= window_ops(shape));
        ops
    }

    /// The transactions that set the position the next image data is written to.
    pub fn set_cursor(&self, position: Point) -> (r: Vec<Op>)
        requires
            0 <= position.x,
            position.x % 8 == 0,
            0 <= position.y <= 0xFFFF,
        ensures
            script(r@) == cursor_ops(position),
    {
        let mut ops: Vec<Op> = Vec::new();
        push_ram_cursor(
            &mut ops,
            Command::SetRamX.register(),
            Command::SetRamY.register(),
            position.x,
            position.y,
        );
        assert(script(ops@) =~= cursor_ops(position));
        ops
    }

    fn write_image(&self, window: Rectangle, command: Command, image: &[u8]) -> (r: Vec<Op>)
        requires
            window_ok(window),
        ensures
            script(r@) == write_image_ops(window, command, image@),
    {
        let mut ops = self.set_window(window);
        let mut cursor = self.set_cursor(window.top_left);
        let ghost window_part = script(ops@);
        let ghost cursor_part = script(cursor@);
        ops.append(&mut cursor);
        assert(script(ops@) =~= window_part + cursor_part);
        push_command(&mut ops, command, image);
        assert(script(ops@) =~= write_image_ops(window, command, image@));
        ops
    }
}

impl<STATE: StateAwake> Reset for Epd2In9<STATE> {
    type DisplayOut = Epd2In9<STATE>;

    closed spec fn spec_reset(self) -> (Epd2In9<STATE>, Seq<OpSpec>) {
        (self, reset_ops())
    }

    fn reset(self) -> (r: (Epd2In9<STATE>, Vec<Op>)) {
        let mut ops: Vec<Op> = Vec::new();
        push_reset(&mut ops);
        assert(script(ops@) =~= reset_ops());
        (self, ops)
    }
}

impl<W: StateAwake> Reset for Epd2In9<StateAsleep<W>> {
    type DisplayOut = Epd2In9<W>;

    closed spec fn spec_reset(self) -> (Epd2In9<W>, Seq<OpSpec>) {
        (Epd2In9 { state: self.state.wake_state }, reset_ops())
    }

    fn reset(self) -> (r: (Epd2In9<W>, Vec<Op>)) {
        let mut ops: Vec<Op> = Vec::new();
        push_reset(&mut ops);
        assert(script(ops@) =~= reset_ops());
        (Epd2In9 { state: self.state.wake_state }, ops)
    }
}

impl<STATE: StateAwake> Sleep for Epd2In9<STATE> {
    type DisplayOut = Epd2In9<StateAsleep<STATE>>;

    closed spec fn spec_sleep(self) -> (Epd2In9<StateAsleep<STATE>>, Seq<OpSpec>) {
        (
            Epd2In9 { state: StateAsleep { wake_state: self.state } },
            seq![OpSpec::Send(Command::DeepSleepMode.spec_register(), seq![0x01u8])],
        )
    }

    fn sleep(self) -> (r: (Epd2In9<StateAsleep<STATE>>, Vec<Op>)) {
        let mut ops: Vec<Op> = Vec::new();
        let deep_sleep = [0x01u8];
        assert(deep_sleep@ =~= seq![0x01u8]);
        push_command(&mut ops, Command::DeepSleepMode, &deep_sleep);
        assert(script(ops@) =~~= seq![OpSpec::Send(Command::DeepSleepMode.spec_register(), seq![0x01u8])]);
        (Epd2In9 { state: StateAsleep { wake_state: self.state } }, ops)
    }
}

impl<W: StateAwake> Wake for Epd2In9<StateAsleep<W>> {
    type DisplayOut = Epd2In9<W>;

    /// Waking needs only a reset pulse; the panel keeps its initialisation.
    closed spec fn spec_wake(self) -> (Epd2In9<W>, Seq<OpSpec>) {
        self.spec_reset()
    }

    fn wake(self) -> (r: (Epd2In9<W>, Vec<Op>)) {
        self.reset()
    }
}

impl Displayable for Epd2In9<StateReady> {
    open spec fn spec_update_display(&self) -> Seq<OpSpec> {
        update_ops()
    }

    /// The panel has two RAMs and every update swaps them, so two updates in a row without a
    /// write in between show the previous image again.
    fn update_display(&self) -> (r: Vec<Op>) {
        let mut ops: Vec<Op> = Vec::new();
        let update_control = [0xC4u8];
        assert(update_control@ =~= seq![0xC4u8]);
        push_command(&mut ops, Command::DisplayUpdateControl2, &update_control);
        let activate: [u8; 0] = [];
        assert(activate@ =~= Seq::<u8>::empty());
        push_command(&mut ops, Command::MasterActivation, &activate);
        let noop: [u8; 0] = [];
        assert(noop@ =~= Seq::<u8>::empty());
        push_command(&mut ops, Command::Noop, &noop);
        assert(script(ops@) =~~= update_ops());
        ops
    }
}

impl DisplaySimple<1, 1> for Epd2In9<StateReady> {
    open spec fn window_ok(&self, window: Rectangle) -> bool {
        window_ok(window)
    }

    open spec fn spec_write_framebuffer(&self, window: Rectangle, frames: Seq<Seq<u8>>) -> Seq<OpSpec> {
        write_image_ops(window, Command::WriteRam, frames[0])
    }

    fn write_framebuffer<B: BufferView<1, 1>>(&self, buf: &B) -> (r: Vec<Op>) {
        let window = buf.window();
        let data = buf.data();
        self.write_image(window, Command::WriteRam, data[0])
    }

    fn display_framebuffer<B: BufferView<1, 1>>(&self, buf: &B) -> (r: Vec<Op>) {
        let mut ops = self.write_framebuffer(buf);
        let mut update = self.update_display();
        let ghost write_part = script(ops@);
        ops.append(&mut update);
        assert(script(ops@) =~= write_part + update_ops());
        ops
    }
}

impl DisplayPartial<1, 1> for Epd2In9<StateReady> {
    open spec fn spec_write_base_framebuffer(&self, window: Rectangle, frames: Seq<Seq<u8>>) -> Seq<
        OpSpec,
    > {
        write_image_ops(window, Command::WriteOldRam, frames[0])
    }

    fn write_base_framebuffer<B: BufferView<1, 1>>(&self, buf: &B) -> (r: Vec<Op>) {
        let window = buf.window();
        let data = buf.data();
        self.write_image(window, Command::WriteOldRam, data[0])
    }
}

/// How the panel's two RAMs are driven.
pub open spec fn two_ram_commands() -> TwoRamCommands {
    TwoRamCommands {
        write_current: Command::WriteRam.spec_register(),
        write_other: Command::WriteOldRam.spec_register(),
        activate: Command::MasterActivation.spec_register(),
    }
}

/// A session can only leave sleep for the state it slept in: sleeping and then waking a ready
/// session gives back a ready session with the same refresh mode.
pub proof fn lemma_sleep_then_wake_keeps_mode(epd: Epd2In9<StateReady>)
    ensures
        epd.spec_sleep().0.spec_wake().0 == epd,
        epd.spec_sleep().0.spec_wake().0.spec_mode() == epd.spec_mode(),
{
}

proof fn lemma_write_image(p: TwoRamPanel, window: Rectangle, image: Seq<u8>)
    ensures
        panel_run(p, two_ram_commands(), write_image_ops(window, Command::WriteRam, image))
            == p.with_current(image),
{
    let ops = write_image_ops(window, Command::WriteRam, image);
    reveal_with_fuel(panel_run, 6);
    assert(ops.drop_last().drop_last().drop_last().drop_last().drop_last() =~= Seq::<OpSpec>::empty());
    assert(ops.drop_last().drop_last().drop_last().drop_last().last() == ops[0]);
    assert(ops.drop_last().drop_last().drop_last().last() == ops[1]);
    assert(ops.drop_last().drop_last().last() == ops[2]);
    assert(ops.drop_last().last() == ops[3]);
    assert(ops.last() == ops[4]);
}

proof fn lemma_update(p: TwoRamPanel)
    ensures
        panel_run(p, two_ram_commands(), update_ops()) == p.refreshed(),
{
    let ops = update_ops();
    reveal_with_fuel(panel_run, 4);
    assert(ops.drop_last().drop_last().drop_last() =~= Seq::<OpSpec>::empty());
    assert(ops.drop_last().drop_last().last() == ops[0]);
    assert(ops.drop_last().last() == ops[1]);
    assert(ops.last() == ops[2]);
}

/// Writing image A and updating shows A; writing image B and updating shows B; updating once
/// more without a write shows A again, because every update swaps the panel's two RAMs.
pub proof fn lemma_second_update_shows_previous_image(
    epd: Epd2In9<StateReady>,
    p: TwoRamPanel,
    window_a: Rectangle,
    a: Seq<u8>,
    window_b: Rectangle,
    b: Seq<u8>,
)
    ensures
        ({
            let c = two_ram_commands();
            let update = epd.spec_update_display();
            let first = epd.spec_write_framebuffer(window_a, seq![a]) + update;
            let second = first + epd.spec_write_framebuffer(window_b, seq![b]) + update;
            let third = second + update;
            &&& panel_run(p, c, first).shown == a
            &&& panel_run(p, c, second).shown == b
            &&& panel_run(p, c, third).shown == a
        }),
{
    let c = two_ram_commands();
    let wa = write_image_ops(window_a, Command::WriteRam, a);
    let wb = write_image_ops(window_b, Command::WriteRam, b);
    let u = update_ops();
    lemma_write_image(p, window_a, a);
    let wrote_a = panel_run(p, c, wa);
    lemma_panel_run_concat(p, c, wa, u);
    lemma_update(wrote_a);
    let showed_a = panel_run(p, c, wa + u);
    lemma_panel_run_concat(p, c, wa + u, wb);
    lemma_write_image(showed_a, window_b, b);
    let wrote_b = panel_run(p, c, wa + u + wb);
    lemma_panel_run_concat(p, c, wa + u + wb, u);
    lemma_update(wrote_b);
    let showed_b = panel_run(p, c, wa + u + wb + u);
    lemma_panel_run_concat(p, c, wa + u + wb + u, u);
    lemma_update(showed_b);
}

} // verus!
