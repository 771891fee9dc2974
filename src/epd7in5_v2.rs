//! The 7.5" Waveshare e-paper display, version 2, in landscape orientation. The panel has a
//! separate power line, so a session starts powered off.
//!
//! When using `BinaryColor`, `Off` is black and `On` is white.
use crate::buffer::{BinaryBuffer, BinaryColor};
use crate::geometry::{Rectangle, Size};
use crate::protocol::{
    busy_wait_action, push_op, push_send, script, split_low_and_high, BusStep, BusStepSpec,
    BusyAction, Op, OpSpec, PinState,
};
use crate::{
    BufferView, DisplayPartial, DisplaySimple, Displayable, PowerOff, PowerOn, Reset, Sleep, Wake,
};
use vstd::prelude::*;

verus! {

/// The refresh mode for the display.
#[derive(Clone, Copy, Debug, PartialEq, Eq, Structural)]
pub enum RefreshMode {
    /// A full refresh. Slower, but should be done occasionally to avoid ghosting.
    Full,
    /// A partial refresh of the pixels that differ from the base framebuffer.
    Partial,
    /// A fast full refresh with a single flash.
    Fast,
}

/// The height of the display.
pub const DISPLAY_HEIGHT: u16 = 480;

/// The width of the display.
pub const DISPLAY_WIDTH: u16 = 800;

/// Low-level commands for the display.
#[derive(Clone, Copy, Debug, PartialEq, Eq, Structural)]
pub enum Command {
    /// Sets the panel resolution, scan direction and booster.
    PanelSetting,
    /// Selects the internal or external power source and its voltages.
    PowerSetting,
    /// Turns off the booster, regulators and source driver after the update.
    PowerOff,
    /// Sets the power off sequence.
    PowerOffSequenceSetting,
    /// Turns on the booster, regulators and source driver.
    PowerOn,
    /// Sets the booster soft start timing.
    BoosterSoftStart,
    /// Enters deep sleep mode; requires the check code 0xA5. Only a reset wakes the panel.
    DeepSleep,
    /// Writes the "old" framebuffer, the base of partial refreshes.
    DataStartTransmission1,
    /// Stops data transmission.
    DataStop,
    /// Refreshes the display from the framebuffer.
    DisplayRefresh,
    /// Writes the "new" framebuffer.
    DataStartTransmission2,
    /// Selects dual SPI mode.
    DualSpi,
    /// Sets the frame rate.
    PllControl,
    /// Sets the border and data polarity flags and the VCOM interval.
    VcomAndDataIntervalSetting,
    /// Sets the low power detection.
    LowPowerDetection,
    /// Sets the end voltage.
    SetEndVoltage,
    /// Sets the non-overlap periods of the row and column drivers.
    TconSetting,
    /// Sets the resolution.
    TconResolution,
    /// Controls SPI flash access.
    SpiFlashControl,
    /// Reads the revision.
    Revision,
    /// Reads the status.
    GetStatus,
    /// Starts the automatic VCOM measurement.
    AutoMeasurementVcom,
    /// Reads the VCOM value.
    ReadVcomValue,
    /// Sets the VCOM DC voltage.
    VcmDcSetting,
    /// Sets the window of a partial refresh.
    SetPartialWindow,
    /// Enters partial mode.
    EnterPartialMode,
    /// Exits partial mode.
    ExitPartialMode,
    /// Sets the cascade option.
    CascadeSetting,
    /// Forces the temperature value used to select waveforms.
    ForceTemperature,
}

impl Command {
    pub open spec fn spec_register(self) -> u8 {
        match self {
            Command::PanelSetting => 0x00,
            Command::PowerSetting => 0x01,
            Command::PowerOff => 0x02,
            Command::PowerOffSequenceSetting => 0x03,
            Command::PowerOn => 0x04,
            Command::BoosterSoftStart => 0x06,
            Command::DeepSleep => 0x07,
            Command::DataStartTransmission1 => 0x10,
            Command::DataStop => 0x11,
            Command::DisplayRefresh => 0x12,
            Command::DataStartTransmission2 => 0x13,
            Command::DualSpi => 0x15,
            Command::PllControl => 0x30,
            Command::VcomAndDataIntervalSetting => 0x50,
            Command::LowPowerDetection => 0x51,
            Command::SetEndVoltage => 0x52,
            Command::TconSetting => 0x60,
            Command::TconResolution => 0x61,
            Command::SpiFlashControl => 0x65,
            Command::Revision => 0x70,
            Command::GetStatus => 0x71,
            Command::AutoMeasurementVcom => 0x80,
            Command::ReadVcomValue => 0x81,
            Command::VcmDcSetting => 0x82,
            Command::SetPartialWindow => 0x90,
            Command::EnterPartialMode => 0x91,
            Command::ExitPartialMode => 0x92,
            Command::CascadeSetting => 0xE0,
            Command::ForceTemperature => 0xE5,
        }
    }

    /// Returns the register address for this command.
    pub fn register(&self) -> (r: u8)
        ensures
            r == self.spec_register(),
    {
        match self {
            Command::PanelSetting => 0x00,
            Command::PowerSetting => 0x01,
            Command::PowerOff => 0x02,
            Command::PowerOffSequenceSetting => 0x03,
            Command::PowerOn => 0x04,
            Command::BoosterSoftStart => 0x06,
            Command::DeepSleep => 0x07,
            Command::DataStartTransmission1 => 0x10,
            Command::DataStop => 0x11,
            Command::DisplayRefresh => 0x12,
            Command::DataStartTransmission2 => 0x13,
            Command::DualSpi => 0x15,
            Command::PllControl => 0x30,
            Command::VcomAndDataIntervalSetting => 0x50,
            Command::LowPowerDetection => 0x51,
            Command::SetEndVoltage => 0x52,
            Command::TconSetting => 0x60,
            Command::TconResolution => 0x61,
            Command::SpiFlashControl => 0x65,
            Command::Revision => 0x70,
            Command::GetStatus => 0x71,
            Command::AutoMeasurementVcom => 0x80,
            Command::ReadVcomValue => 0x81,
            Command::VcmDcSetting => 0x82,
            Command::SetPartialWindow => 0x90,
            Command::EnterPartialMode => 0x91,
            Command::ExitPartialMode => 0x92,
            Command::CascadeSetting => 0xE0,
            Command::ForceTemperature => 0xE5,
        }
    }
}

/// The length of the buffer for the whole display.
pub const BINARY_BUFFER_LENGTH: usize = 800 / 8 * 480;

/// The buffer type for the whole display.
pub type Epd7In5V2BinaryBuffer = BinaryBuffer<BINARY_BUFFER_LENGTH>;

/// Constructs a new buffer for the whole display.
pub fn new_binary_buffer() -> (r: Epd7In5V2BinaryBuffer)
    ensures
        r.wf(),
        r@.width == DISPLAY_WIDTH,
        r@.height == DISPLAY_HEIGHT,
{
    Epd7In5V2BinaryBuffer::new(Size::new(DISPLAY_WIDTH as u32, DISPLAY_HEIGHT as u32))
}

/// Flag: the border floats.
pub const ENABLE_BORDER_HI_Z: u8 = 0b1000_0000;

/// Flag: the border is driven white.
pub const BORDER_WHITE: u8 = 0b0001_0000;

/// Flag: the border is driven black.
pub const BORDER_BLACK: u8 = 0b0010_0000;

/// Flag: after an update the new framebuffer is copied to the old one.
pub const NEW_TO_OLD_COPY: u8 = 0b0000_1000;

/// Flag value for positive data polarity: 0 is white.
pub const POS_POL: u8 = 0b0000_0000;

/// Flag: negative data polarity, 0 is black.
pub const NEG_POL: u8 = 0b0000_0001;

/// Flag: the same look-up table is used whatever the old and new framebuffers hold.
pub const DISABLE_NO: u8 = 0b0000_0010;

/// The VCOM and data interval setting for 10 frames.
pub const VCOM_INTERVAL_10: u8 = 0x07;

/// The flags sent with [Command::VcomAndDataIntervalSetting].
#[derive(Clone, Copy, Debug, PartialEq, Eq, Structural)]
pub struct DataFlags {
    pub bits: u8,
}

impl DataFlags {
    /// No flag set.
    pub fn empty() -> (r: DataFlags)
        ensures
            r.bits == 0,
    {
        DataFlags { bits: 0 }
    }

    /// The flags as a byte.
    pub fn bits(&self) -> (r: u8)
        ensures
            r == self.bits,
    {
        self.bits
    }
}

/// A session with the display, in the state `STATE`.
pub struct Epd7In5v2<STATE> {
    state: STATE,
}

trait StateInternal {}

/// The states a session can be in.
#[allow(private_bounds)]
pub trait State: StateInternal {}

/// The states in which the panel accepts commands.
pub trait StateAwake: State {}

/// The panel has no power.
#[derive(Clone, Copy, Debug, PartialEq, Eq, Structural)]
pub struct StatePoweredOff();

impl StateInternal for StatePoweredOff {}

impl State for StatePoweredOff {}

/// The panel has power but has not been initialised.
#[derive(Clone, Copy, Debug, PartialEq, Eq, Structural)]
pub struct StateUninitialized();

impl StateInternal for StateUninitialized {}

impl State for StateUninitialized {}

impl StateAwake for StateUninitialized {}

/// The panel is initialised with a refresh mode and accepts image data.
#[derive(Clone, Copy, Debug, PartialEq, Eq, Structural)]
pub struct StateReady {
    pub mode: RefreshMode,
    pub data_settings: DataFlags,
}

impl StateInternal for StateReady {}

impl State for StateReady {}

impl StateAwake for StateReady {}

/// The panel sleeps; waking it returns to `wake_state`.
#[derive(Clone, Copy, Debug, PartialEq, Eq)]
pub struct StateAsleep<W: StateAwake> {
    pub wake_state: W,
}

impl<W: StateAwake> StateInternal for StateAsleep<W> {}

impl<W: StateAwake> State for StateAsleep<W> {}

/// The hardware reset pulse of this panel.
pub open spec fn reset_ops() -> Seq<OpSpec> {
    seq![
        OpSpec::SetReset(PinState::High),
        OpSpec::DelayMs(10),
        OpSpec::SetReset(PinState::Low),
        OpSpec::DelayMs(2),
        OpSpec::SetReset(PinState::High),
        OpSpec::DelayMs(200),
    ]
}

pub open spec fn send(command: Command, data: Seq<u8>) -> OpSpec {
    OpSpec::Send(command.spec_register(), data)
}

/// The flags that bring-up in `mode` leaves, given the flags before.
pub open spec fn mode_data_settings(mode: RefreshMode, before: DataFlags) -> DataFlags {
    match mode {
        RefreshMode::Partial => before,
        _ => DataFlags { bits: BORDER_WHITE | POS_POL },
    }
}

/// The bring-up transactions of a refresh mode.
pub open spec fn mode_ops(mode: RefreshMode) -> Seq<OpSpec> {
    match mode {
        RefreshMode::Full => seq![
            send(Command::PowerOn, seq![]),
            OpSpec::DelayMs(100),
            OpSpec::WaitIfBusy,
            send(Command::BoosterSoftStart, seq![0x17u8, 0x17, 0x28, 0x17]),
            send(Command::PowerSetting, seq![0x07u8, 0x07, 0x3a, 0x3a, 0x03]),
            send(Command::PanelSetting, seq![0x1fu8]),
            send(Command::PllControl, seq![0x06u8]),
            send(Command::TconResolution, seq![0x03u8, 0x20, 0x01, 0xe0]),
            send(Command::DualSpi, seq![0x00u8]),
            send(Command::VcomAndDataIntervalSetting, seq![BORDER_WHITE | POS_POL, VCOM_INTERVAL_10]),
            send(Command::TconSetting, seq![0x22u8]),
            OpSpec::WaitIfBusy,
        ],
        RefreshMode::Partial => seq![
            send(Command::PanelSetting, seq![0x1fu8]),
            send(Command::PowerOn, seq![]),
            OpSpec::DelayMs(100),
            send(Command::CascadeSetting, seq![0x02u8]),
            send(Command::ForceTemperature, seq![0x6eu8]),
        ],
        RefreshMode::Fast => seq![
            send(Command::PanelSetting, seq![0x1fu8]),
            send(Command::VcomAndDataIntervalSetting, seq![BORDER_WHITE, VCOM_INTERVAL_10]),
            send(Command::PowerOn, seq![]),
            OpSpec::DelayMs(100),
            send(Command::BoosterSoftStart, seq![0x27u8, 0x27, 0x18, 0x17]),
            send(Command::CascadeSetting, seq![0x02u8]),
            send(Command::ForceTemperature, seq![0x5au8]),
        ],
    }
}

/// The flags after setting the border to `color`: the other border colour is cleared.
pub open spec fn border_flags(bits: u8, color: BinaryColor) -> u8 {
    match color {
        BinaryColor::Off => (bits & !BORDER_BLACK) | BORDER_WHITE,
        BinaryColor::On => (bits & !BORDER_WHITE) | BORDER_BLACK,
    }
}

/// The script of a display update: refresh, then wait for the panel to finish.
pub open spec fn update_ops() -> Seq<OpSpec> {
    seq![send(Command::DisplayRefresh, seq![]), OpSpec::DelayMs(100), OpSpec::WaitIfBusy]
}

/// Rounds down to a multiple of 8.
fn round_down_8_multiple(x: u16) -> (r: u16)
    ensures
        r == x / 8 * 8,
{
    x / 8 * 8
}

/// Rounds up to a multiple of 8.
fn round_up_8_multiple(x: u16) -> (r: u16)
    requires
        x + 7 <= u16::MAX,
    ensures
        r == (x + 7) / 8 * 8,
{
    assert((x + 7) as u16 & !7u16 == ((x + 7) / 8 * 8) as u16) by (bit_vector)
        requires
            x + 7 <= u16::MAX,
    ;
    (x + 7) & !7
}

/// The inclusive pixel bounds of the partial window for `area`: x is widened to whole bytes.
pub open spec fn partial_min_x(area: Rectangle) -> int {
    area.top_left.x / 8 * 8
}

pub open spec fn partial_max_x(area: Rectangle) -> int {
    (area.top_left.x + area.size.width - 1 + 7) / 8 * 8
}

pub open spec fn partial_max_y(area: Rectangle) -> int {
    area.top_left.y + area.size.height - 1
}

/// The number of bytes written per row, less one: the window is inclusive of `max_x`.
pub open spec fn partial_row_bytes(area: Rectangle) -> int {
    (partial_max_x(area) - partial_min_x(area)) / 8
}

/// The first byte of row `j` of the window in a framebuffer `width` pixels wide.
pub open spec fn partial_row_start(width: int, area: Rectangle, j: int) -> int {
    (j * width + partial_min_x(area)) / 8
}

/// The bytes sent for row `j` of the window.
pub open spec fn partial_row(data: Seq<u8>, width: int, area: Rectangle, j: int) -> Seq<u8> {
    let start = partial_row_start(width, area, j);
    data.subrange(start, start + partial_row_bytes(area) + 1)
}

/// A 16-bit value, high byte first.
pub open spec fn be_bytes(v: int) -> Seq<u8> {
    seq![(v / 256) as u8, (v % 256) as u8]
}

/// The flags of a partial update: floating border, black border, and the new framebuffer
/// copied to the old one afterwards.
pub open spec fn partial_flags() -> u8 {
    ENABLE_BORDER_HI_Z | BORDER_BLACK | NEW_TO_OLD_COPY | POS_POL
}

/// The area is not empty, its coordinates fit the 16-bit window fields, and every row of the
/// window lies inside the framebuffer of `len` bytes and `width` pixels per row.
pub open spec fn partial_area_ok(len: int, width: int, area: Rectangle) -> bool {
    &&& !area.is_zero_sized()
    &&& 0 <= area.top_left.x
    &&& 0 <= area.top_left.y
    &&& area.top_left.x + area.size.width - 1 + 7 <= 0xFFFF
    &&& partial_max_y(area) <= 0xFFFF
    &&& partial_max_y(area) * width + partial_min_x(area) <= u32::MAX
    &&& partial_row_start(width, area, partial_max_y(area)) + partial_row_bytes(area) + 1 <= len
}

/// The head of a partial update: flags, partial mode, the window, and the start of the data
/// transmission, whose rows follow without waiting for the panel.
pub open spec fn partial_head_ops(area: Rectangle) -> Seq<OpSpec> {
    seq![
        OpSpec::WaitIfBusy,
        send(Command::VcomAndDataIntervalSetting, seq![partial_flags(), VCOM_INTERVAL_10]),
        send(Command::EnterPartialMode, seq![]),
        send(
            Command::SetPartialWindow,
            be_bytes(partial_min_x(area)) + be_bytes(partial_max_x(area)) + be_bytes(
                area.top_left.y as int,
            ) + be_bytes(partial_max_y(area)) + seq![0x01u8],
        ),
        OpSpec::Bus(BusStepSpec::DcLow),
        OpSpec::Bus(BusStepSpec::Write(seq![Command::DataStartTransmission2.spec_register()])),
        OpSpec::Bus(BusStepSpec::DcHigh),
    ]
}

/// The row writes of rows `area.top_left.y .. area.top_left.y + n`.
pub open spec fn partial_rows_ops(data: Seq<u8>, width: int, area: Rectangle, n: int) -> Seq<OpSpec> {
    Seq::new(
        n as nat,
        |k: int| OpSpec::Bus(BusStepSpec::Write(partial_row(data, width, area, area.top_left.y + k))),
    )
}

/// The whole script of a partial update of `area`.
pub open spec fn partial_update_ops(data: Seq<u8>, width: int, area: Rectangle) -> Seq<OpSpec> {
    partial_head_ops(area) + partial_rows_ops(data, width, area, area.size.height as int)
        + update_ops() + seq![send(Command::ExitPartialMode, seq![])]
}

fn push_be_bytes(bytes: &mut Vec<u8>, v: u16)
    ensures
        final(bytes)@ == old(bytes)@ + be_bytes(v as int),
{
    let (low, high) = split_low_and_high(v);
    bytes.push(high);
    bytes.push(low);
    assert(bytes@ =~= old(bytes)@ + be_bytes(v as int));
}

fn push_command(ops: &mut Vec<Op>, command: Command, data: &[u8])
    ensures
        script(final(ops)@) == script(old(ops)@).push(send(command, data@)),
{
    push_send(ops, command.register(), data);
}

fn push_reset(ops: &mut Vec<Op>)
    ensures
        script(final(ops)@) == script(old(ops)@) + reset_ops(),
{
    push_op(ops, Op::SetReset(PinState::High));
    push_op(ops, Op::DelayMs(10));
    push_op(ops, Op::SetReset(PinState::Low));
    push_op(ops, Op::DelayMs(2));
    push_op(ops, Op::SetReset(PinState::High));
    push_op(ops, Op::DelayMs(200));
    assert(script(ops@) =~= script(old(ops)@) + reset_ops());
}

/// Appends the bring-up of `mode` and returns the flags it leaves.
fn push_mode(ops: &mut Vec<Op>, mode: RefreshMode, before: DataFlags) -> (r: DataFlags)
    ensures
        script(final(ops)@) == script(old(ops)@) + mode_ops(mode),
        r == mode_data_settings(mode, before),
{
    let no_data: [u8; 0] = [];
    assert(no_data@ =~= Seq::<u8>::empty());
    let panel_setting = [0x1fu8];
    assert(panel_setting@ =~= seq![0x1fu8]);
    let mut flags = before;
    match mode {
        RefreshMode::Full => {
            push_command(ops, Command::PowerOn, &no_data);
            push_op(ops, Op::DelayMs(100));
            push_op(ops, Op::WaitIfBusy);
            let booster = [0x17u8, 0x17, 0x28, 0x17];
            assert(booster@ =~= seq![0x17u8, 0x17, 0x28, 0x17]);
            push_command(ops, Command::BoosterSoftStart, &booster);
            let power = [0x07u8, 0x07, 0x3a, 0x3a, 0x03];
            assert(power@ =~= seq![0x07u8, 0x07, 0x3a, 0x3a, 0x03]);
            push_command(ops, Command::PowerSetting, &power);
            push_command(ops, Command::PanelSetting, &panel_setting);
            let pll = [0x06u8];
            assert(pll@ =~= seq![0x06u8]);
            push_command(ops, Command::PllControl, &pll);
            let resolution = [0x03u8, 0x20, 0x01, 0xe0];
            assert(resolution@ =~= seq![0x03u8, 0x20, 0x01, 0xe0]);
            push_command(ops, Command::TconResolution, &resolution);
            let dual_spi = [0x00u8];
            assert(dual_spi@ =~= seq![0x00u8]);
            push_command(ops, Command::DualSpi, &dual_spi);
            flags = DataFlags { bits: BORDER_WHITE | POS_POL };
            let interval = [flags.bits(), VCOM_INTERVAL_10];
            assert(interval@ =~= seq![BORDER_WHITE | POS_POL, VCOM_INTERVAL_10]);
            push_command(ops, Command::VcomAndDataIntervalSetting, &interval);
            let tcon = [0x22u8];
            assert(tcon@ =~= seq![0x22u8]);
            push_command(ops, Command::TconSetting, &tcon);
            push_op(ops, Op::WaitIfBusy);
        },
        RefreshMode::Partial => {
            push_command(ops, Command::PanelSetting, &panel_setting);
            push_command(ops, Command::PowerOn, &no_data);
            push_op(ops, Op::DelayMs(100));
            let cascade = [0x02u8];
            assert(cascade@ =~= seq![0x02u8]);
            push_command(ops, Command::CascadeSetting, &cascade);
            let temperature = [0x6eu8];
            assert(temperature@ =~= seq![0x6eu8]);
            push_command(ops, Command::ForceTemperature, &temperature);
        },
        RefreshMode::Fast => {
            push_command(ops, Command::PanelSetting, &panel_setting);
            flags = DataFlags { bits: BORDER_WHITE | POS_POL };
            let interval = [flags.bits(), VCOM_INTERVAL_10];
            assert(BORDER_WHITE | POS_POL == BORDER_WHITE) by (bit_vector);
            assert(interval@ =~= seq![BORDER_WHITE, VCOM_INTERVAL_10]);
            push_command(ops, Command::VcomAndDataIntervalSetting, &interval);
            push_command(ops, Command::PowerOn, &no_data);
            push_op(ops, Op::DelayMs(100));
            let booster = [0x27u8, 0x27, 0x18, 0x17];
            assert(booster@ =~= seq![0x27u8, 0x27, 0x18, 0x17]);
            push_command(ops, Command::BoosterSoftStart, &booster);
            let cascade = [0x02u8];
            assert(cascade@ =~= seq![0x02u8]);
            push_command(ops, Command::CascadeSetting, &cascade);
            let temperature = [0x5au8];
            assert(temperature@ =~= seq![0x5au8]);
            push_command(ops, Command::ForceTemperature, &temperature);
        },
    }
    assert(script(ops@) =~~= script(old(ops)@) + mode_ops(mode));
    flags
}

impl Epd7In5v2<StatePoweredOff> {
    /// Starts a session with a panel that has no power.
    pub fn new() -> (r: Self)
        ensures
            r.spec_state() == StatePoweredOff(),
    {
        Epd7In5v2 { state: StatePoweredOff() }
    }
}

impl<STATE> Epd7In5v2<STATE> {
    pub closed spec fn spec_state(&self) -> STATE {
        self.state
    }
}

/// The panel signals "busy" by holding the busy line low.
pub const BUSY_WHEN: PinState = PinState::Low;

/// Panels that make the caller wait while they are busy.
pub trait BusyWait {
    /// Decides what to do, given the current level of the busy line.
    fn wait_if_busy(&self, level: PinState) -> (r: BusyAction)
        ensures
            level == BUSY_WHEN ==> r == BusyAction::WaitForHigh,
            level != BUSY_WHEN ==> r == BusyAction::Proceed,
    ;
}

impl<STATE> BusyWait for Epd7In5v2<STATE> {
    fn wait_if_busy(&self, level: PinState) -> (r: BusyAction) {
        busy_wait_action(level, BUSY_WHEN)
    }
}

impl PowerOn for Epd7In5v2<StatePoweredOff> {
    type DisplayOut = Epd7In5v2<StateUninitialized>;

    closed spec fn spec_power_on(self) -> (Epd7In5v2<StateUninitialized>, Seq<OpSpec>) {
        (Epd7In5v2 { state: StateUninitialized() }, seq![OpSpec::SetPower(PinState::High)])
    }

    fn power_on(self) -> (r: (Epd7In5v2<StateUninitialized>, Vec<Op>)) {
        let mut ops: Vec<Op> = Vec::new();
        push_op(&mut ops, Op::SetPower(PinState::High));
        assert(script(ops@) =~= seq![OpSpec::SetPower(PinState::High)]);
        (Epd7In5v2 { state: StateUninitialized() }, ops)
    }
}

impl<W: StateAwake> PowerOff for Epd7In5v2<StateAsleep<W>> {
    type DisplayOut = Epd7In5v2<StatePoweredOff>;

    closed spec fn spec_power_off(self) -> (Epd7In5v2<StatePoweredOff>, Seq<OpSpec>) {
        (Epd7In5v2 { state: StatePoweredOff() }, seq![OpSpec::SetPower(PinState::Low)])
    }

    fn power_off(self) -> (r: (Epd7In5v2<StatePoweredOff>, Vec<Op>)) {
        let mut ops: Vec<Op> = Vec::new();
        push_op(&mut ops, Op::SetPower(PinState::Low));
        assert(script(ops@) =~= seq![OpSpec::SetPower(PinState::Low)]);
        (Epd7In5v2 { state: StatePoweredOff() }, ops)
    }
}

impl<STATE: StateAwake> Reset for Epd7In5v2<STATE> {
    type DisplayOut = Epd7In5v2<STATE>;

    closed spec fn spec_reset(self) -> (Epd7In5v2<STATE>, Seq<OpSpec>) {
        (self, reset_ops())
    }

    fn reset(self) -> (r: (Epd7In5v2<STATE>, Vec<Op>)) {
        let mut ops: Vec<Op> = Vec::new();
        push_reset(&mut ops);
        assert(script(ops@) =~= reset_ops());
        (self, ops)
    }
}

impl<W: StateAwake> Reset for Epd7In5v2<StateAsleep<W>> {
    type DisplayOut = Epd7In5v2<W>;

    closed spec fn spec_reset(self) -> (Epd7In5v2<W>, Seq<OpSpec>) {
        (Epd7In5v2 { state: self.state.wake_state }, reset_ops())
    }

    fn reset(self) -> (r: (Epd7In5v2<W>, Vec<Op>)) {
        let mut ops: Vec<Op> = Vec::new();
        push_reset(&mut ops);
        assert(script(ops@) =~= reset_ops());
        (Epd7In5v2 { state: self.state.wake_state }, ops)
    }
}

impl<STATE: StateAwake> Epd7In5v2<STATE> {
    /// Resets and initialises the display with the given refresh mode. Changing into the mode
    /// resets the panel once more before its bring-up.
    pub fn init(self, mode: RefreshMode) -> (r: (Epd7In5v2<StateReady>, Vec<Op>))
        ensures
            r.0.spec_state() == (StateReady {
                mode,
                data_settings: mode_data_settings(mode, DataFlags { bits: 0 }),
            }),
            script(r.1@) == reset_ops() + reset_ops() + mode_ops(mode),
    {
        let mut ops: Vec<Op> = Vec::new();
        push_reset(&mut ops);
        push_reset(&mut ops);
        let data_settings = push_mode(&mut ops, mode, DataFlags::empty());
        assert(script(ops@) =~= reset_ops() + reset_ops() + mode_ops(mode));
        (Epd7In5v2 { state: StateReady { mode, data_settings } }, ops)
    }

    /// The transaction that sends `command` with `data`, for low-level control.
    pub fn send(&self, command: Command, data: &[u8]) -> (r: Op)
        ensures
            r@ == send(command, data@),
    {
        Op::Send { command: command.register(), data: vstd::slice::slice_to_vec(data) }
    }
}

impl Epd7In5v2<StateReady> {
    pub closed spec fn spec_mode(&self) -> RefreshMode {
        self.state.mode
    }

    /// The active refresh mode.
    pub fn mode(&self) -> (r: RefreshMode)
        ensures
            r == self.spec_mode(),
    {
        self.state.mode
    }

    pub closed spec fn spec_data_settings(&self) -> DataFlags {
        self.state.data_settings
    }

    /// The flags last sent with [Command::VcomAndDataIntervalSetting].
    pub fn data_settings(&self) -> (r: DataFlags)
        ensures
            r == self.spec_data_settings(),
    {
        self.state.data_settings
    }

    /// Switches to another refresh mode with a reset and the mode's bring-up; nothing is sent if
    /// the mode is already active.
    pub fn set_refresh_mode(self, mode: RefreshMode) -> (r: (Self, Vec<Op>))
        ensures
            r.0.spec_mode() == mode,
            mode == self.spec_mode() ==> r.0 == self && script(r.1@) == Seq::<OpSpec>::empty(),
            mode != self.spec_mode() ==> r.0.spec_data_settings() == mode_data_settings(
                mode,
                self.spec_data_settings(),
            ) && script(r.1@) == reset_ops() + mode_ops(mode),
    {
        let mut ops: Vec<Op> = Vec::new();
        if self.state.mode == mode {
            assert(script(ops@) =~= Seq::<OpSpec>::empty());
            (self, ops)
        } else {
            push_reset(&mut ops);
            let data_settings = push_mode(&mut ops, mode, self.state.data_settings);
            assert(script(ops@) =~= reset_ops() + mode_ops(mode));
            (Epd7In5v2 { state: StateReady { mode, data_settings } }, ops)
        }
    }

    /// Sets the border colour, keeping the other flags.
    pub fn set_border(&mut self, color: BinaryColor) -> (r: Vec<Op>)
        ensures
            final(self).spec_mode() == old(self).spec_mode(),
            final(self).spec_data_settings().bits == border_flags(old(self).spec_data_settings().bits, color),
            script(r@) == seq![
                send(
                    Command::VcomAndDataIntervalSetting,
                    seq![final(self).spec_data_settings().bits, VCOM_INTERVAL_10],
                ),
            ],
    {
        let bits = self.state.data_settings.bits;
        let new_bits = match color {
            BinaryColor::Off => (bits & !BORDER_BLACK) | BORDER_WHITE,
            BinaryColor::On => (bits & !BORDER_WHITE) | BORDER_BLACK,
        };
        self.state.data_settings = DataFlags { bits: new_bits };
        let interval = [new_bits, VCOM_INTERVAL_10];
        let mut ops: Vec<Op> = Vec::new();
        push_command(&mut ops, Command::VcomAndDataIntervalSetting, &interval);
        assert(script(ops@) =~~= seq![
            send(Command::VcomAndDataIntervalSetting, seq![new_bits, VCOM_INTERVAL_10]),
        ]);
        ops
    }
    /// Refreshes just `area` of the display from `buf` in partial mode: the flags are set for a
    /// partial update, the window is widened to whole bytes, its rows are streamed, and the
    /// display is updated.
    pub fn display_partial_framebuffer<B: BufferView<1, 1>>(&mut self, buf: &B, area: Rectangle) -> (r: Vec<Op>)
        requires
            old(self).spec_mode() == RefreshMode::Partial,
            partial_area_ok(
                buf.spec_frames()[0].len() as int,
                buf.spec_window().size.width as int,
                area,
            ),
        ensures
            final(self).spec_mode() == RefreshMode::Partial,
            final(self).spec_data_settings().bits == partial_flags(),
            script(r@) == partial_update_ops(
                buf.spec_frames()[0],
                buf.spec_window().size.width as int,
                area,
            ),
    {
        let data = buf.data()[0];
        let width = buf.window().size.width;
        let ghost frame = buf.spec_frames()[0];
        let mut ops: Vec<Op> = Vec::new();
        push_op(&mut ops, Op::WaitIfBusy);
        let flags = ENABLE_BORDER_HI_Z | BORDER_BLACK | NEW_TO_OLD_COPY | POS_POL;
        self.state.data_settings = DataFlags { bits: flags };
        let interval = [flags, VCOM_INTERVAL_10];
        assert(interval@ =~= seq![partial_flags(), VCOM_INTERVAL_10]);
        push_command(&mut ops, Command::VcomAndDataIntervalSetting, &interval);
        let no_data: [u8; 0] = [];
        assert(no_data@ =~= Seq::<u8>::empty());
        push_command(&mut ops, Command::EnterPartialMode, &no_data);

        let min_x = round_down_8_multiple(area.top_left.x as u16);
        let max_x = round_up_8_multiple((area.top_left.x as i64 + area.size.width as i64 - 1) as u16);
        let row_num_bytes = (max_x - min_x) / 8;
        let min_y = area.top_left.y as u16;
        let max_y = (area.top_left.y as i64 + area.size.height as i64 - 1) as u16;
        let mut window: Vec<u8> = Vec::new();
        push_be_bytes(&mut window, min_x);
        push_be_bytes(&mut window, max_x);
        push_be_bytes(&mut window, min_y);
        push_be_bytes(&mut window, max_y);
        window.push(0x01);
        push_command(&mut ops, Command::SetPartialWindow, window.as_slice());

        // The rows follow one data transmission command, without waiting for the panel.
        push_op(&mut ops, Op::Bus(BusStep::DcLow));
        let mut command_byte: Vec<u8> = Vec::new();
        command_byte.push(Command::DataStartTransmission2.register());
        assert(command_byte@ =~= seq![Command::DataStartTransmission2.spec_register()]);
        push_op(&mut ops, Op::Bus(BusStep::Write(command_byte)));
        push_op(&mut ops, Op::Bus(BusStep::DcHigh));
        proof {
            assert(window@ =~= be_bytes(partial_min_x(area)) + be_bytes(partial_max_x(area)) + be_bytes(
                area.top_left.y as int,
            ) + be_bytes(partial_max_y(area)) + seq![0x01u8]);
            assert(script(ops@) =~~= partial_head_ops(area));
        }
        let ghost head = script(ops@);
        let mut j: u32 = min_y as u32;
        while j <= max_y as u32
            invariant
                min_y == area.top_left.y,
                max_y == partial_max_y(area),
                min_x == partial_min_x(area),
                row_num_bytes == partial_row_bytes(area),
                width == buf.spec_window().size.width,
                data@ == frame,
                partial_area_ok(frame.len() as int, width as int, area),
                min_y <= j <= max_y + 1,
                script(ops@) == head + partial_rows_ops(frame, width as int, area, j - min_y),
            decreases max_y + 1 - j,
        {
            proof {
                assert(j * width + min_x <= max_y * width + min_x) by (nonlinear_arith)
                    requires
                        j <= max_y,
                ;
                assert((j * width + min_x) / 8 <= (max_y * width + min_x) / 8) by (nonlinear_arith)
                    requires
                        j * width + min_x <= max_y * width + min_x,
                        j * width + min_x >= 0,
                ;
            }
            let start = ((j * width + min_x as u32) / 8) as usize;
            let stop = start + row_num_bytes as usize;
            let row = vstd::slice::slice_to_vec(vstd::slice::slice_subrange(data, start, stop + 1));
            push_op(&mut ops, Op::Bus(BusStep::Write(row)));
            proof {
                assert(script(ops@) =~~= head + partial_rows_ops(frame, width as int, area, j + 1 - min_y));
            }
            j += 1;
        }
        let mut update = self.update_display();
        let ghost before_update = script(ops@);
        ops.append(&mut update);
        push_command(&mut ops, Command::ExitPartialMode, &no_data);
        proof {
            assert(before_update =~= head + partial_rows_ops(frame, width as int, area, area.size.height as int));
            assert(script(ops@) =~~= partial_update_ops(frame, width as int, area));
        }
        ops
    }
}

impl<STATE: StateAwake> Sleep for Epd7In5v2<STATE> {
    type DisplayOut = Epd7In5v2<StateAsleep<STATE>>;

    closed spec fn spec_sleep(self) -> (Epd7In5v2<StateAsleep<STATE>>, Seq<OpSpec>) {
        (
            Epd7In5v2 { state: StateAsleep { wake_state: self.state } },
            seq![send(Command::PowerOff, seq![]), send(Command::DeepSleep, seq![0xa5u8])],
        )
    }

    fn sleep(self) -> (r: (Epd7In5v2<StateAsleep<STATE>>, Vec<Op>)) {
        let no_data: [u8; 0] = [];
        assert(no_data@ =~= Seq::<u8>::empty());
        let check_code = [0xa5u8];
        assert(check_code@ =~= seq![0xa5u8]);
        let mut ops: Vec<Op> = Vec::new();
        push_command(&mut ops, Command::PowerOff, &no_data);
        push_command(&mut ops, Command::DeepSleep, &check_code);
        assert(script(ops@) =~~= seq![send(Command::PowerOff, seq![]), send(Command::DeepSleep, seq![0xa5u8])]);
        (Epd7In5v2 { state: StateAsleep { wake_state: self.state } }, ops)
    }
}

impl<W: StateAwake> Wake for Epd7In5v2<StateAsleep<W>> {
    type DisplayOut = Epd7In5v2<W>;

    /// Waking needs only a reset pulse; the panel keeps its initialisation.
    closed spec fn spec_wake(self) -> (Epd7In5v2<W>, Seq<OpSpec>) {
        self.spec_reset()
    }

    fn wake(self) -> (r: (Epd7In5v2<W>, Vec<Op>)) {
        self.reset()
    }
}

impl Displayable for Epd7In5v2<StateReady> {
    open spec fn spec_update_display(&self) -> Seq<OpSpec> {
        update_ops()
    }

    /// The panel has two RAMs and every update swaps them, so two updates in a row without a
    /// write in between show the previous image again.
    fn update_display(&self) -> (r: Vec<Op>) {
        let no_data: [u8; 0] = [];
        assert(no_data@ =~= Seq::<u8>::empty());
        let mut ops: Vec<Op> = Vec::new();
        push_command(&mut ops, Command::DisplayRefresh, &no_data);
        push_op(&mut ops, Op::DelayMs(100));
        push_op(&mut ops, Op::WaitIfBusy);
        assert(script(ops@) =~~= update_ops());
        ops
    }
}

impl DisplaySimple<1, 1> for Epd7In5v2<StateReady> {
    /// The panel takes a whole framebuffer; there is no window to address.
    open spec fn window_ok(&self, window: Rectangle) -> bool {
        true
    }

    open spec fn spec_write_framebuffer(&self, window: Rectangle, frames: Seq<Seq<u8>>) -> Seq<OpSpec> {
        seq![send(Command::DataStartTransmission2, frames[0])]
    }

    fn write_framebuffer<B: BufferView<1, 1>>(&self, buf: &B) -> (r: Vec<Op>) {
        let data = buf.data();
        let mut ops: Vec<Op> = Vec::new();
        push_command(&mut ops, Command::DataStartTransmission2, data[0]);
        assert(script(ops@) =~= seq![send(Command::DataStartTransmission2, buf.spec_frames()[0])]);
        ops
    }

    fn display_framebuffer<B: BufferView<1, 1>>(&self, buf: &B) -> (r: Vec<Op>) {
        let mut ops = self.write_framebuffer(buf);
        let mut update = self.update_display();
        let ghost write_part = script(ops@);
        ops.append(&mut update);
        assert(script(ops@) =~= write_part + update_ops());
        ops
    }
}

impl DisplayPartial<1, 1> for Epd7In5v2<StateReady> {
    open spec fn spec_write_base_framebuffer(&self, window: Rectangle, frames: Seq<Seq<u8>>) -> Seq<
        OpSpec,
    > {
        seq![send(Command::DataStartTransmission1, frames[0])]
    }

    fn write_base_framebuffer<B: BufferView<1, 1>>(&self, buf: &B) -> (r: Vec<Op>) {
        let data = buf.data();
        let mut ops: Vec<Op> = Vec::new();
        push_command(&mut ops, Command::DataStartTransmission1, data[0]);
        assert(script(ops@) =~= seq![send(Command::DataStartTransmission1, buf.spec_frames()[0])]);
        ops
    }
}

/// Sleeping and then waking a ready session gives back a ready session with the same refresh
/// mode and flags.
pub proof fn lemma_sleep_then_wake_keeps_mode(epd: Epd7In5v2<StateReady>)
    ensures
        epd.spec_sleep().0.spec_wake().0 == epd,
        epd.spec_sleep().0.spec_wake().0.spec_mode() == epd.spec_mode(),
{
}

} // verus!
