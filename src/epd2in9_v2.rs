//! The 2.9" Waveshare e-paper display, version 2, in portrait orientation. It supports binary
//! colour, with full and partial refreshes, and 2-bit grayscale.
//!
//! When using `BinaryColor`, `Off` is black and `On` is white.
use crate::buffer::BinaryBuffer;
use crate::geometry::{Point, Rectangle, Size};
use crate::gray2::Gray2SplitBuffer;
use crate::protocol::{
    push_op, push_ram_cursor, push_ram_window, push_send, ram_cursor_ops, ram_window_ops, script,
    Op, OpSpec, PinState,
};
use crate::{BufferView, DisplayPartial, DisplaySimple, Displayable, Reset, Sleep, Wake};
use vstd::prelude::*;

verus! {

/// The refresh mode for the display.
#[derive(Clone, Copy, Debug, PartialEq, Eq, Structural)]
pub enum RefreshMode {
    /// Uses the full update look-up table. This is slower, but should be done occasionally to
    /// avoid ghosting.
    Full,
    /// The fast update: only the pixels that differ from the previous framebuffer are updated.
    Partial,
    /// 2-bit grayscale. All updates write both on-device framebuffers.
    Gray2,
}

pub open spec fn lut_full_update() -> Seq<u8> {
    seq![
        0x90u8, 0x00, 0x00, 0x00, 0x00, 0x00, 0x00, 0x00, 0x00, 0x00, 0x00, 0x00,
        0x60, 0x00, 0x00, 0x00, 0x00, 0x00, 0x00, 0x00, 0x00, 0x00, 0x00, 0x00,
        0x90, 0x00, 0x00, 0x00, 0x00, 0x00, 0x00, 0x00, 0x00, 0x00, 0x00, 0x00,
        0x60, 0x00, 0x00, 0x00, 0x00, 0x00, 0x00, 0x00, 0x00, 0x00, 0x00, 0x00,
        0x00, 0x00, 0x00, 0x00, 0x00, 0x00, 0x00, 0x00, 0x00, 0x00, 0x00, 0x00,
        0x19, 0x19, 0x00, 0x00, 0x00, 0x00, 0x00, 0x00, 0x00, 0x00, 0x00, 0x00,
        0x00, 0x00, 0x00, 0x00, 0x00, 0x00, 0x00, 0x00, 0x00, 0x00, 0x00, 0x00,
        0x00, 0x00, 0x00, 0x00, 0x00, 0x00, 0x00, 0x00, 0x00, 0x00, 0x00, 0x00,
        0x00, 0x00, 0x00, 0x00, 0x00, 0x00, 0x00, 0x00, 0x00, 0x00, 0x00, 0x00,
        0x00, 0x00, 0x00, 0x00, 0x00, 0x00, 0x00, 0x00, 0x00, 0x00, 0x00, 0x00,
        0x00, 0x00, 0x00, 0x00, 0x00, 0x00, 0x00, 0x00, 0x00, 0x00, 0x00, 0x00,
        0x00, 0x00, 0x00, 0x00, 0x00, 0x00, 0x00, 0x00, 0x00, 0x00, 0x00, 0x00,
        0x24, 0x42, 0x22, 0x22, 0x23, 0x32, 0x00, 0x00, 0x00,
    ]
}

pub open spec fn lut_partial_update() -> Seq<u8> {
    seq![
        0x00u8, 0x40, 0x00, 0x00, 0x00, 0x00, 0x00, 0x00, 0x00, 0x00, 0x00, 0x00,
        0x80, 0x80, 0x00, 0x00, 0x00, 0x00, 0x00, 0x00, 0x00, 0x00, 0x00, 0x00,
        0x40, 0x40, 0x00, 0x00, 0x00, 0x00, 0x00, 0x00, 0x00, 0x00, 0x00, 0x00,
        0x00, 0x80, 0x00, 0x00, 0x00, 0x00, 0x00, 0x00, 0x00, 0x00, 0x00, 0x00,
        0x00, 0x00, 0x00, 0x00, 0x00, 0x00, 0x00, 0x00, 0x00, 0x00, 0x00, 0x00,
        0x0A, 0x00, 0x00, 0x00, 0x00, 0x00, 0x01, 0x01, 0x00, 0x00, 0x00, 0x00,
        0x00, 0x00, 0x01, 0x00, 0x00, 0x00, 0x00, 0x00, 0x00, 0x00, 0x00, 0x00,
        0x00, 0x00, 0x00, 0x00, 0x00, 0x00, 0x00, 0x00, 0x00, 0x00, 0x00, 0x00,
        0x00, 0x00, 0x00, 0x00, 0x00, 0x00, 0x00, 0x00, 0x00, 0x00, 0x00, 0x00,
        0x00, 0x00, 0x00, 0x00, 0x00, 0x00, 0x00, 0x00, 0x00, 0x00, 0x00, 0x00,
        0x00, 0x00, 0x00, 0x00, 0x00, 0x00, 0x00, 0x00, 0x00, 0x00, 0x00, 0x00,
        0x00, 0x00, 0x00, 0x00, 0x00, 0x00, 0x00, 0x00, 0x00, 0x00, 0x00, 0x00,
        0x22, 0x22, 0x22, 0x22, 0x22, 0x22, 0x00, 0x00, 0x00,
    ]
}

pub open spec fn lut_gray2() -> Seq<u8> {
    seq![
        0x00u8, 0x60, 0x00, 0x00, 0x00, 0x00, 0x00, 0x00, 0x00, 0x00, 0x00, 0x00,
        0x20, 0x60, 0x10, 0x00, 0x00, 0x00, 0x00, 0x00, 0x00, 0x00, 0x00, 0x00,
        0x28, 0x60, 0x14, 0x00, 0x00, 0x00, 0x00, 0x00, 0x00, 0x00, 0x00, 0x00,
        0x2A, 0x60, 0x15, 0x00, 0x00, 0x00, 0x00, 0x00, 0x00, 0x00, 0x00, 0x00,
        0x00, 0x90, 0x00, 0x00, 0x00, 0x00, 0x00, 0x00, 0x00, 0x00, 0x00, 0x00,
        0x00, 0x02, 0x00, 0x05, 0x14, 0x00, 0x00, 0x1E, 0x1E, 0x00, 0x00, 0x00,
        0x00, 0x01, 0x00, 0x02, 0x00, 0x05, 0x14, 0x00, 0x00, 0x00, 0x00, 0x00,
        0x00, 0x00, 0x00, 0x00, 0x00, 0x00, 0x00, 0x00, 0x00, 0x00, 0x00, 0x00,
        0x00, 0x00, 0x00, 0x00, 0x00, 0x00, 0x00, 0x00, 0x00, 0x00, 0x00, 0x00,
        0x00, 0x00, 0x00, 0x00, 0x00, 0x00, 0x00, 0x00, 0x00, 0x00, 0x00, 0x00,
        0x00, 0x00, 0x00, 0x00, 0x00, 0x00, 0x00, 0x00, 0x00, 0x00, 0x00, 0x00,
        0x00, 0x00, 0x00, 0x00, 0x00, 0x00, 0x00, 0x00, 0x00, 0x00, 0x00, 0x00,
        0x24, 0x22, 0x22, 0x22, 0x23, 0x32, 0x00, 0x00, 0x00,
    ]
}

impl RefreshMode {
    pub open spec fn spec_border_waveform(self) -> Seq<u8> {
        match self {
            RefreshMode::Full => seq![0x05u8],
            RefreshMode::Partial => seq![0x80u8],
            RefreshMode::Gray2 => seq![0x04u8],
        }
    }

    pub open spec fn spec_lut(self) -> Seq<u8> {
        match self {
            RefreshMode::Full => lut_full_update(),
            RefreshMode::Partial => lut_partial_update(),
            RefreshMode::Gray2 => lut_gray2(),
        }
    }

    pub open spec fn spec_lut_magic(self) -> Seq<u8> {
        seq![0x22u8]
    }

    pub open spec fn spec_gate_voltage(self) -> Seq<u8> {
        seq![0x17u8]
    }

    pub open spec fn spec_source_voltage(self) -> Seq<u8> {
        match self {
            RefreshMode::Partial => seq![0x41u8, 0xB0, 0x32],
            _ => seq![0x41u8, 0xAE, 0x32],
        }
    }

    pub open spec fn spec_vcom(self) -> Seq<u8> {
        match self {
            RefreshMode::Full => seq![0x38u8],
            RefreshMode::Partial => seq![0x36u8],
            RefreshMode::Gray2 => seq![0x28u8],
        }
    }

    pub open spec fn spec_display_update_control_2(self) -> Seq<u8> {
        match self {
            RefreshMode::Partial => seq![0xCFu8],
            _ => seq![0xC7u8],
        }
    }

    pub open spec fn spec_is_black_and_white(self) -> bool {
        self != RefreshMode::Gray2
    }

    /// Returns the border waveform setting to use for this refresh mode.
    pub fn border_waveform(&self) -> (r: [u8; 1])
        ensures
            r@ == self.spec_border_waveform(),
    {
        let r = match self {
            RefreshMode::Full => [0x05],
            RefreshMode::Partial => [0x80],
            RefreshMode::Gray2 => [0x04],
        };
        assert(r@ =~= self.spec_border_waveform());
        r
    }

    /// Returns the look-up table to use for this refresh mode.
    pub fn lut(&self) -> (r: [u8; 153])
        ensures
            r@ == self.spec_lut(),
    {
        let r = match self {
            RefreshMode::Full => [
                0x90, 0x00, 0x00, 0x00, 0x00, 0x00, 0x00, 0x00, 0x00, 0x00, 0x00, 0x00,
                0x60, 0x00, 0x00, 0x00, 0x00, 0x00, 0x00, 0x00, 0x00, 0x00, 0x00, 0x00,
                0x90, 0x00, 0x00, 0x00, 0x00, 0x00, 0x00, 0x00, 0x00, 0x00, 0x00, 0x00,
                0x60, 0x00, 0x00, 0x00, 0x00, 0x00, 0x00, 0x00, 0x00, 0x00, 0x00, 0x00,
                0x00, 0x00, 0x00, 0x00, 0x00, 0x00, 0x00, 0x00, 0x00, 0x00, 0x00, 0x00,
                0x19, 0x19, 0x00, 0x00, 0x00, 0x00, 0x00, 0x00, 0x00, 0x00, 0x00, 0x00,
                0x00, 0x00, 0x00, 0x00, 0x00, 0x00, 0x00, 0x00, 0x00, 0x00, 0x00, 0x00,
                0x00, 0x00, 0x00, 0x00, 0x00, 0x00, 0x00, 0x00, 0x00, 0x00, 0x00, 0x00,
                0x00, 0x00, 0x00, 0x00, 0x00, 0x00, 0x00, 0x00, 0x00, 0x00, 0x00, 0x00,
                0x00, 0x00, 0x00, 0x00, 0x00, 0x00, 0x00, 0x00, 0x00, 0x00, 0x00, 0x00,
                0x00, 0x00, 0x00, 0x00, 0x00, 0x00, 0x00, 0x00, 0x00, 0x00, 0x00, 0x00,
                0x00, 0x00, 0x00, 0x00, 0x00, 0x00, 0x00, 0x00, 0x00, 0x00, 0x00, 0x00,
                0x24, 0x42, 0x22, 0x22, 0x23, 0x32, 0x00, 0x00, 0x00,
            ],
            RefreshMode::Partial => [
                0x00, 0x40, 0x00, 0x00, 0x00, 0x00, 0x00, 0x00, 0x00, 0x00, 0x00, 0x00,
                0x80, 0x80, 0x00, 0x00, 0x00, 0x00, 0x00, 0x00, 0x00, 0x00, 0x00, 0x00,
                0x40, 0x40, 0x00, 0x00, 0x00, 0x00, 0x00, 0x00, 0x00, 0x00, 0x00, 0x00,
                0x00, 0x80, 0x00, 0x00, 0x00, 0x00, 0x00, 0x00, 0x00, 0x00, 0x00, 0x00,
                0x00, 0x00, 0x00, 0x00, 0x00, 0x00, 0x00, 0x00, 0x00, 0x00, 0x00, 0x00,
                0x0A, 0x00, 0x00, 0x00, 0x00, 0x00, 0x01, 0x01, 0x00, 0x00, 0x00, 0x00,
                0x00, 0x00, 0x01, 0x00, 0x00, 0x00, 0x00, 0x00, 0x00, 0x00, 0x00, 0x00,
                0x00, 0x00, 0x00, 0x00, 0x00, 0x00, 0x00, 0x00, 0x00, 0x00, 0x00, 0x00,
                0x00, 0x00, 0x00, 0x00, 0x00, 0x00, 0x00, 0x00, 0x00, 0x00, 0x00, 0x00,
                0x00, 0x00, 0x00, 0x00, 0x00, 0x00, 0x00, 0x00, 0x00, 0x00, 0x00, 0x00,
                0x00, 0x00, 0x00, 0x00, 0x00, 0x00, 0x00, 0x00, 0x00, 0x00, 0x00, 0x00,
                0x00, 0x00, 0x00, 0x00, 0x00, 0x00, 0x00, 0x00, 0x00, 0x00, 0x00, 0x00,
                0x22, 0x22, 0x22, 0x22, 0x22, 0x22, 0x00, 0x00, 0x00,
            ],
            RefreshMode::Gray2 => [
                0x00, 0x60, 0x00, 0x00, 0x00, 0x00, 0x00, 0x00, 0x00, 0x00, 0x00, 0x00,
                0x20, 0x60, 0x10, 0x00, 0x00, 0x00, 0x00, 0x00, 0x00, 0x00, 0x00, 0x00,
                0x28, 0x60, 0x14, 0x00, 0x00, 0x00, 0x00, 0x00, 0x00, 0x00, 0x00, 0x00,
                0x2A, 0x60, 0x15, 0x00, 0x00, 0x00, 0x00, 0x00, 0x00, 0x00, 0x00, 0x00,
                0x00, 0x90, 0x00, 0x00, 0x00, 0x00, 0x00, 0x00, 0x00, 0x00, 0x00, 0x00,
                0x00, 0x02, 0x00, 0x05, 0x14, 0x00, 0x00, 0x1E, 0x1E, 0x00, 0x00, 0x00,
                0x00, 0x01, 0x00, 0x02, 0x00, 0x05, 0x14, 0x00, 0x00, 0x00, 0x00, 0x00,
                0x00, 0x00, 0x00, 0x00, 0x00, 0x00, 0x00, 0x00, 0x00, 0x00, 0x00, 0x00,
                0x00, 0x00, 0x00, 0x00, 0x00, 0x00, 0x00, 0x00, 0x00, 0x00, 0x00, 0x00,
                0x00, 0x00, 0x00, 0x00, 0x00, 0x00, 0x00, 0x00, 0x00, 0x00, 0x00, 0x00,
                0x00, 0x00, 0x00, 0x00, 0x00, 0x00, 0x00, 0x00, 0x00, 0x00, 0x00, 0x00,
                0x00, 0x00, 0x00, 0x00, 0x00, 0x00, 0x00, 0x00, 0x00, 0x00, 0x00, 0x00,
                0x24, 0x22, 0x22, 0x22, 0x23, 0x32, 0x00, 0x00, 0x00,
            ],
        };
        assert(r@ =~= self.spec_lut());
        r
    }

    /// Returns the value sent with [Command::SetLutMagic] for this refresh mode.
    pub fn lut_magic(&self) -> (r: [u8; 1])
        ensures
            r@ == self.spec_lut_magic(),
    {
        let r = [0x22];
        assert(r@ =~= self.spec_lut_magic());
        r
    }

    /// Returns the row driving voltage for this refresh mode.
    pub fn gate_voltage(&self) -> (r: [u8; 1])
        ensures
            r@ == self.spec_gate_voltage(),
    {
        let r = [0x17];
        assert(r@ =~= self.spec_gate_voltage());
        r
    }

    /// Returns the source driving voltages for this refresh mode.
    pub fn source_voltage(&self) -> (r: [u8; 3])
        ensures
            r@ == self.spec_source_voltage(),
    {
        let r = match self {
            RefreshMode::Partial => [0x41, 0xB0, 0x32],
            _ => [0x41, 0xAE, 0x32],
        };
        assert(r@ =~= self.spec_source_voltage());
        r
    }

    /// Returns the VCOM setting for this refresh mode.
    pub fn vcom(&self) -> (r: [u8; 1])
        ensures
            r@ == self.spec_vcom(),
    {
        let r = match self {
            RefreshMode::Full => [0x38],
            RefreshMode::Partial => [0x36],
            RefreshMode::Gray2 => [0x28],
        };
        assert(r@ =~= self.spec_vcom());
        r
    }

    /// Returns the value to set for [Command::DisplayUpdateControl2] when using this refresh mode.
    pub fn display_update_control_2(&self) -> (r: [u8; 1])
        ensures
            r@ == self.spec_display_update_control_2(),
    {
        // 0xCF enables the clock and analog circuits, which the partial set up needs.
        let r = match self {
            RefreshMode::Partial => [0xCF],
            _ => [0xC7],
        };
        assert(r@ =~= self.spec_display_update_control_2());
        r
    }

    /// If this refresh mode is black and white only.
    pub fn is_black_and_white(&self) -> (r: bool)
        ensures
            r == self.spec_is_black_and_white(),
    {
        *self != RefreshMode::Gray2
    }
}

/// The height of the display (portrait orientation).
pub const DISPLAY_HEIGHT: u16 = 296;

/// The width of the display (portrait orientation).
pub const DISPLAY_WIDTH: u16 = 128;

/// The level of the busy line that signals a busy display.
pub const DEFAULT_BUSY_WHEN: PinState = PinState::High;

/// Low-level commands for the display. The methods of [Epd2In9V2] cover most operations;
/// [Epd2In9V2::send] gives low-level control.
#[derive(Clone, Copy, Debug, PartialEq, Eq, Structural)]
pub enum Command {
    /// Used to initialise the display.
    DriverOutputControl,
    /// Sets the row driving voltage.
    SetGateDrivingVoltage,
    /// Sets the source driving voltage.
    SetSourceDrivingVoltage,
    /// Enters deep sleep mode. Requires a hardware reset to wake up.
    DeepSleepMode,
    /// Changes the auto-increment behaviour of the address counter.
    DataEntryModeSetting,
    /// Resets all commands and parameters to default values (except deep sleep mode).
    SwReset,
    /// Activates the display update sequence configured with [Command::DisplayUpdateControl2]. Must not be interrupted.
    MasterActivation,
    /// Sets the RAM "bypass": what the display reads from its two RAMs during an update.
    DisplayUpdateControl1,
    /// Configures the display update sequence for [Command::MasterActivation].
    DisplayUpdateControl2,
    /// Writes low bits to the current frame buffer.
    WriteLowRam,
    /// Writes high bits to the current frame buffer.
    WriteHighRam,
    /// Triggers a read of the VCOM voltage.
    ReadVcom,
    /// Sets the duration to hold before reading the VCOM value.
    SetVcomReadDuration,
    /// Programs the VCOM register into the OTP.
    ProgramVcomOtp,
    /// Writes to the VCOM register.
    WriteVcom,
    /// Reads the OTP registers.
    ReadOtpRegisters,
    /// Reads the 10 byte user ID stored in the OTP.
    ReadUserId,
    /// Programs the OTP of the waveform setting.
    ProgramWsOtp,
    /// Loads the OTP of the waveform setting.
    LoadWsOtp,
    /// Writes the 153 byte look-up table register.
    WriteLut,
    /// Programs the OTP selection.
    ProgramOtpSelection,
    /// Writes the register for the user ID stored in the OTP.
    WriteRegisterForUserId,
    /// Sets the OTP program mode.
    SetOtpProgramMode,
    /// Selects the border waveform of each refresh mode.
    SetBorderWaveform,
    /// Undocumented command needed for setting the look-up table.
    SetLutMagic,
    /// Sets the inclusive start and end of the x window, in bytes of 8 pixels.
    SetRamXStartEnd,
    /// Sets the inclusive start and end of the y window.
    SetRamYStartEnd,
    /// Sets the x address counter, in bytes of 8 pixels.
    SetRamX,
    /// Sets the y address counter.
    SetRamY,
}

impl Command {
    pub open spec fn spec_register(self) -> u8 {
        match self {
            Command::DriverOutputControl => 0x01,
            Command::SetGateDrivingVoltage => 0x03,
            Command::SetSourceDrivingVoltage => 0x04,
            Command::DeepSleepMode => 0x10,
            Command::DataEntryModeSetting => 0x11,
            Command::SwReset => 0x12,
            Command::MasterActivation => 0x20,
            Command::DisplayUpdateControl1 => 0x21,
            Command::DisplayUpdateControl2 => 0x22,
            Command::WriteLowRam => 0x24,
            Command::WriteHighRam => 0x26,
            Command::ReadVcom => 0x28,
            Command::SetVcomReadDuration => 0x29,
            Command::ProgramVcomOtp => 0x2A,
            Command::WriteVcom => 0x2C,
            Command::ReadOtpRegisters => 0x2D,
            Command::ReadUserId => 0x2E,
            Command::ProgramWsOtp => 0x30,
            Command::LoadWsOtp => 0x31,
            Command::WriteLut => 0x32,
            Command::ProgramOtpSelection => 0x36,
            Command::WriteRegisterForUserId => 0x38,
            Command::SetOtpProgramMode => 0x39,
            Command::SetBorderWaveform => 0x3C,
            Command::SetLutMagic => 0x3F,
            Command::SetRamXStartEnd => 0x44,
            Command::SetRamYStartEnd => 0x45,
            Command::SetRamX => 0x4E,
            Command::SetRamY => 0x4F,
        }
    }

    /// Returns the register address for this command.
    pub fn register(&self) -> (r: u8)
        ensures
            r == self.spec_register(),
    {
        match self {
            Command::DriverOutputControl => 0x01,
            Command::SetGateDrivingVoltage => 0x03,
            Command::SetSourceDrivingVoltage => 0x04,
            Command::DeepSleepMode => 0x10,
            Command::DataEntryModeSetting => 0x11,
            Command::SwReset => 0x12,
            Command::MasterActivation => 0x20,
            Command::DisplayUpdateControl1 => 0x21,
            Command::DisplayUpdateControl2 => 0x22,
            Command::WriteLowRam => 0x24,
            Command::WriteHighRam => 0x26,
            Command::ReadVcom => 0x28,
            Command::SetVcomReadDuration => 0x29,
            Command::ProgramVcomOtp => 0x2A,
            Command::WriteVcom => 0x2C,
            Command::ReadOtpRegisters => 0x2D,
            Command::ReadUserId => 0x2E,
            Command::ProgramWsOtp => 0x30,
            Command::LoadWsOtp => 0x31,
            Command::WriteLut => 0x32,
            Command::ProgramOtpSelection => 0x36,
            Command::WriteRegisterForUserId => 0x38,
            Command::SetOtpProgramMode => 0x39,
            Command::SetBorderWaveform => 0x3C,
            Command::SetLutMagic => 0x3F,
            Command::SetRamXStartEnd => 0x44,
            Command::SetRamYStartEnd => 0x45,
            Command::SetRamX => 0x4E,
            Command::SetRamY => 0x4F,
        }
    }
}

/// The length of the buffers for the whole display.
pub const BINARY_BUFFER_LENGTH: usize = 128 / 8 * 296;

/// The binary buffer type for the whole display.
pub type Epd2In9BinaryBuffer = BinaryBuffer<BINARY_BUFFER_LENGTH>;

/// Constructs a new binary buffer for the whole display.
pub fn new_binary_buffer() -> (r: Epd2In9BinaryBuffer)
    ensures
        r.wf(),
        r@.width == DISPLAY_WIDTH,
        r@.height == DISPLAY_HEIGHT,
{
    Epd2In9BinaryBuffer::new(Size::new(DISPLAY_WIDTH as u32, DISPLAY_HEIGHT as u32))
}

/// The grayscale buffer type for the whole display.
pub type Epd2In9Gray2Buffer = Gray2SplitBuffer<BINARY_BUFFER_LENGTH>;

/// Constructs a new grayscale buffer for the whole display.
pub fn new_gray2_buffer() -> (r: Epd2In9Gray2Buffer)
    ensures
        crate::buffer::DrawTarget::valid(&r),
        r.low@.width == DISPLAY_WIDTH,
        r.low@.height == DISPLAY_HEIGHT,
{
    Epd2In9Gray2Buffer::new(Size::new(DISPLAY_WIDTH as u32, DISPLAY_HEIGHT as u32))
}

/// A session with the display, in the state `STATE`.
pub struct Epd2In9V2<STATE> {
    state: STATE,
}

trait StateInternal {}

/// The states a session can be in.
#[allow(private_bounds)]
pub trait State: StateInternal {}

/// The states in which the panel accepts commands.
pub trait StateAwake: State {}

/// The panel has power but has not been initialised.
#[derive(Clone, Copy, Debug, PartialEq, Eq, Structural)]
pub struct StateUninitialized();

impl StateInternal for StateUninitialized {}

impl State for StateUninitialized {}

impl StateAwake for StateUninitialized {}

/// The panel is initialised with a refresh mode and accepts image data.
#[derive(Clone, Copy, Debug, PartialEq, Eq, Structural)]
pub struct StateReady {
    pub mode: RefreshMode,
}

impl StateInternal for StateReady {}

impl State for StateReady {}

impl StateAwake for StateReady {}

/// The panel sleeps; waking it returns to `wake_state`.
#[derive(Clone, Copy, Debug, PartialEq, Eq)]
pub struct StateAsleep<W: StateAwake> {
    pub wake_state: W,
}

impl<W: StateAwake> StateInternal for StateAsleep<W> {}

impl<W: StateAwake> State for StateAsleep<W> {}

/// What the display reads from a framebuffer during an update.
#[derive(Clone, Copy, Debug, PartialEq, Eq, Structural)]
pub enum Bypass {
    /// Remove any RAM bypass setting.
    Normal,
    /// Reads all zeros as the base for the partial diff.
    AllZero,
    /// Reads the base of the partial diff as if it's inverted.
    Inverted,
}

impl Bypass {
    pub open spec fn spec_bits(self) -> u8 {
        match self {
            Bypass::Normal => 0,
            Bypass::AllZero => 0b100,
            Bypass::Inverted => 0b1000,
        }
    }

    /// The bits of this setting in [Command::DisplayUpdateControl1].
    pub fn bits(&self) -> (r: u8)
        ensures
            r == self.spec_bits(),
    {
        match self {
            Bypass::Normal => 0,
            Bypass::AllZero => 0b100,
            Bypass::Inverted => 0b1000,
        }
    }
}

/// The hardware reset pulse: the reset line goes low and back high, with settle delays.
pub open spec fn reset_ops() -> Seq<OpSpec> {
    seq![
        OpSpec::SetReset(PinState::Low),
        OpSpec::DelayMs(10),
        OpSpec::SetReset(PinState::High),
        OpSpec::DelayMs(10),
    ]
}

/// The second byte of [Command::DisplayUpdateControl1]: whether the panel runs in black and white.
pub open spec fn colour_mode_byte(mode: RefreshMode) -> u8 {
    if mode.spec_is_black_and_white() {
        0x80
    } else {
        0x00
    }
}

/// The undocumented register settings a partial refresh needs.
pub open spec fn partial_setup_data() -> Seq<u8> {
    seq![0x00u8, 0x00, 0x00, 0x00, 0x00, 0x40, 0x00, 0x00, 0x00, 0x00]
}

/// The transactions that bring the panel's registers to their defaults and then make `mode` take
/// effect.
pub open spec fn refresh_mode_ops(mode: RefreshMode) -> Seq<OpSpec> {
    let common = seq![
        OpSpec::Send(Command::SwReset.spec_register(), seq![]),
        OpSpec::Send(Command::DriverOutputControl.spec_register(), seq![0x27u8, 0x01, 0x00]),
        OpSpec::Send(Command::DataEntryModeSetting.spec_register(), seq![0b11u8]),
        OpSpec::Send(Command::DisplayUpdateControl1.spec_register(), seq![0x00u8, colour_mode_byte(mode)]),
        OpSpec::Send(Command::SetBorderWaveform.spec_register(), mode.spec_border_waveform()),
        OpSpec::Send(Command::WriteLut.spec_register(), mode.spec_lut()),
        OpSpec::Send(Command::SetLutMagic.spec_register(), mode.spec_lut_magic()),
        OpSpec::Send(Command::SetGateDrivingVoltage.spec_register(), mode.spec_gate_voltage()),
        OpSpec::Send(Command::SetSourceDrivingVoltage.spec_register(), mode.spec_source_voltage()),
        OpSpec::Send(Command::WriteVcom.spec_register(), mode.spec_vcom()),
    ];
    if mode == RefreshMode::Partial {
        common + seq![
            OpSpec::Send(0x37, partial_setup_data()),
            OpSpec::Send(Command::DisplayUpdateControl2.spec_register(), seq![0xC3u8]),
            OpSpec::Send(Command::MasterActivation.spec_register(), seq![]),
        ]
    } else {
        common
    }
}

/// The inclusive x range of the RAM window for `shape`. In grayscale the panel's addressing is
/// offset by one byte.
pub open spec fn x_window(mode: RefreshMode, shape: Rectangle) -> (int, int) {
    if mode == RefreshMode::Gray2 {
        (shape.top_left.x + 8, shape.top_left.x + shape.size.width + 7)
    } else {
        (shape.top_left.x as int, shape.top_left.x + shape.size.width - 1)
    }
}

/// The panel addresses x in whole bytes of 8 pixels, and y in 16 bits.
pub open spec fn window_ok(mode: RefreshMode, shape: Rectangle) -> bool {
    let x_start = x_window(mode, shape).0;
    let x_end = x_window(mode, shape).1;
    let y_start = shape.top_left.y as int;
    let y_end = shape.top_left.y + shape.size.height - 1;
    &&& 0 <= x_start <= x_end <= i32::MAX
    &&& x_start % 8 == 0
    &&& x_end % 8 == 7
    &&& 0 <= y_start <= y_end <= 0xFFFF
}

pub open spec fn window_ops(mode: RefreshMode, shape: Rectangle) -> Seq<OpSpec> {
    ram_window_ops(
        Command::SetRamXStartEnd.spec_register(),
        Command::SetRamYStartEnd.spec_register(),
        x_window(mode, shape).0,
        x_window(mode, shape).1,
        shape.top_left.y as int,
        shape.top_left.y + shape.size.height - 1,
    )
}

/// The x address of the cursor, offset by one byte in grayscale.
pub open spec fn cursor_x(mode: RefreshMode, position: Point) -> int {
    if mode == RefreshMode::Gray2 {
        position.x + 8
    } else {
        position.x as int
    }
}

pub open spec fn cursor_ops(mode: RefreshMode, position: Point) -> Seq<OpSpec> {
    ram_cursor_ops(
        Command::SetRamX.spec_register(),
        Command::SetRamY.spec_register(),
        cursor_x(mode, position),
        position.y as int,
    )
}

/// The script that writes the frames of a buffer over `window`: each frame goes to the RAM
/// named by the matching command.
pub open spec fn write_frames_ops(
    mode: RefreshMode,
    window: Rectangle,
    commands: Seq<Command>,
    frames: Seq<Seq<u8>>,
) -> Seq<OpSpec> {
    window_ops(mode, window) + cursor_ops(mode, window.top_left) + Seq::new(
        commands.len(),
        |i: int| OpSpec::Send(commands[i].spec_register(), frames[i]),
    )
}

pub open spec fn update_ops(mode: RefreshMode) -> Seq<OpSpec> {
    seq![
        OpSpec::Send(Command::DisplayUpdateControl2.spec_register(), mode.spec_display_update_control_2()),
        OpSpec::Send(Command::MasterActivation.spec_register(), seq![]),
    ]
}

fn push_command(ops: &mut Vec<Op>, command: Command, data: &[u8])
    ensures
        script(final(ops)@) == script(old(ops)@).push(OpSpec::Send(command.spec_register(), data@)),
{
    push_send(ops, command.register(), data);
}

fn push_reset(ops: &mut Vec<Op>)
    ensures
        script(final(ops)@) == script(old(ops)@) + reset_ops(),
{
    push_op(ops, Op::SetReset(PinState::Low));
    push_op(ops, Op::DelayMs(10));
    push_op(ops, Op::SetReset(PinState::High));
    push_op(ops, Op::DelayMs(10));
    assert(script(ops@) =~= script(old(ops)@) + reset_ops());
}

fn push_refresh_mode(ops: &mut Vec<Op>, mode: RefreshMode)
    ensures
        script(final(ops)@) == script(old(ops)@) + refresh_mode_ops(mode),
{
    // Reset all configurations to default.
    let no_data: [u8; 0] = [];
    assert(no_data@ =~= Seq::<u8>::empty());
    push_command(ops, Command::SwReset, &no_data);
    let driver_output = [0x27u8, 0x01u8, 0x00u8];
    assert(driver_output@ =~= seq![0x27u8, 0x01, 0x00]);
    push_command(ops, Command::DriverOutputControl, &driver_output);
    // Auto-increment X and Y, moving in the X direction first.
    let data_entry_mode = [0b11u8];
    assert(data_entry_mode@ =~= seq![0b11u8]);
    push_command(ops, Command::DataEntryModeSetting, &data_entry_mode);
    let black_and_white_byte: u8 = if mode.is_black_and_white() { 0x80 } else { 0x00 };
    let update_control = [0x00u8, black_and_white_byte];
    assert(update_control@ =~= seq![0x00u8, colour_mode_byte(mode)]);
    push_command(ops, Command::DisplayUpdateControl1, &update_control);
    push_command(ops, Command::SetBorderWaveform, &mode.border_waveform());
    push_command(ops, Command::WriteLut, &mode.lut());
    push_command(ops, Command::SetLutMagic, &mode.lut_magic());
    push_command(ops, Command::SetGateDrivingVoltage, &mode.gate_voltage());
    push_command(ops, Command::SetSourceDrivingVoltage, &mode.source_voltage());
    push_command(ops, Command::WriteVcom, &mode.vcom());
    if mode == RefreshMode::Partial {
        // Undocumented register settings from the vendor's sample code.
        let partial_setup = [0x00u8, 0x00, 0x00, 0x00, 0x00, 0x40, 0x00, 0x00, 0x00, 0x00];
        assert(partial_setup@ =~= partial_setup_data());
        push_send(ops, 0x37, &partial_setup);
        let update_sequence = [0xC3u8];
        assert(update_sequence@ =~= seq![0xC3u8]);
        push_command(ops, Command::DisplayUpdateControl2, &update_sequence);
        push_command(ops, Command::MasterActivation, &no_data);
    }
    assert(script(ops@) =~~= script(old(ops)@) + refresh_mode_ops(mode));
}

impl Epd2In9V2<StateUninitialized> {
    /// Starts a session with a panel that has not been initialised.
    pub fn new() -> (r: Self)
        ensures
            r.spec_state() == StateUninitialized(),
    {
        Epd2In9V2 { state: StateUninitialized() }
    }
}

impl<STATE> Epd2In9V2<STATE> {
    pub closed spec fn spec_state(&self) -> STATE {
        self.state
    }
}

impl<STATE: StateAwake> Epd2In9V2<STATE> {
    /// Resets and initialises the display with the given refresh mode.
    pub fn init(self, mode: RefreshMode) -> (r: (Epd2In9V2<StateReady>, Vec<Op>))
        ensures
            r.0.spec_state() == (StateReady { mode }),
            script(r.1@) == reset_ops() + refresh_mode_ops(mode),
    {
        let mut ops: Vec<Op> = Vec::new();
        push_reset(&mut ops);
        push_refresh_mode(&mut ops, mode);
        assert(script(ops@) =~= reset_ops() + refresh_mode_ops(mode));
        (Epd2In9V2 { state: StateReady { mode } }, ops)
    }

    /// The transaction that sends `command` with `data`, for low-level control.
    pub fn send(&self, command: Command, data: &[u8]) -> (r: Op)
        ensures
            r@ == OpSpec::Send(command.spec_register(), data@),
    {
        Op::Send { command: command.register(), data: vstd::slice::slice_to_vec(data) }
    }
}

impl Epd2In9V2<StateReady> {
    pub closed spec fn spec_mode(&self) -> RefreshMode {
        self.state.mode
    }

    /// The active refresh mode.
    pub fn mode(&self) -> (r: RefreshMode)
        ensures
            r == self.spec_mode(),
    {
        self.state.mode
    }

    /// Switches to another refresh mode; nothing is sent if the mode is already active.
    pub fn set_refresh_mode(&mut self, mode: RefreshMode) -> (r: Vec<Op>)
        ensures
            final(self).spec_mode() == mode,
            mode == old(self).spec_mode() ==> script(r@) == Seq::<OpSpec>::empty(),
            mode != old(self).spec_mode() ==> script(r@) == refresh_mode_ops(mode),
    {
        let mut ops: Vec<Op> = Vec::new();
        if self.state.mode != mode {
            push_refresh_mode(&mut ops, mode);
            self.state.mode = mode;
        }
        assert(script(ops@) =~= if mode == old(self).spec_mode() {
            Seq::<OpSpec>::empty()
        } else {
            refresh_mode_ops(mode)
        });
        ops
    }

    /// The transaction that sets the "RAM bypass", which changes what the display reads from its
    /// framebuffers. In black and white, `low_bypass` applies to the main framebuffer and
    /// `high_bypass` to the diff base; in grayscale, to the low and high bits.
    pub fn set_ram_bypass(&self, low_bypass: Bypass, high_bypass: Bypass) -> (r: Vec<Op>)
        ensures
            script(r@) == seq![
                OpSpec::Send(
                    Command::DisplayUpdateControl1.spec_register(),
                    seq![(high_bypass.spec_bits() * 16 + low_bypass.spec_bits()) as u8, colour_mode_byte(self.spec_mode())],
                ),
            ],
    {
        let black_and_white_byte: u8 = if self.state.mode.is_black_and_white() { 0x80 } else { 0x00 };
        let high = high_bypass.bits();
        let low = low_bypass.bits();
        let bypass = (high << 4u8) | low;
        assert((high << 4u8) | low == high * 16 + low) by (bit_vector)
            requires
                high == 0 || high == 4 || high == 8,
                low == 0 || low == 4 || low == 8,
        ;
        let update_control = [bypass, black_and_white_byte];
        let mut ops: Vec<Op> = Vec::new();
        push_command(&mut ops, Command::DisplayUpdateControl1, &update_control);
        assert(script(ops@) =~~= seq![
            OpSpec::Send(
                Command::DisplayUpdateControl1.spec_register(),
                seq![(high_bypass.spec_bits() * 16 + low_bypass.spec_bits()) as u8, colour_mode_byte(self.spec_mode())],
            ),
        ]);
        ops
    }

    /// The transactions that set the window the next image data is written to.
    ///
    /// The x axis is addressed in whole bytes: the window must start on a multiple of 8 and span
    /// a multiple of 8 pixels.
    pub fn set_window(&self, shape: Rectangle) -> (r: Vec<Op>)
        requires
            window_ok(self.spec_mode(), shape),
        ensures
            script(r@) == window_ops(self.spec_mode(), shape),
    {
        let x = shape.top_left.x as i64;
        let width = shape.size.width as i64;
        let (x_start, x_end) = if self.state.mode == RefreshMode::Gray2 {
            // In grayscale the panel's addressing is offset by one byte.
            ((x + 8) as i32, (x + width + 7) as i32)
        } else {
            (x as i32, (x + width - 1) as i32)
        };
        let y_start = shape.top_left.y;
        let y_end = (y_start as i64 + shape.size.height as i64 - 1) as i32;
        let mut ops: Vec<Op> = Vec::new();
        push_ram_window(
            &mut ops,
            Command::SetRamXStartEnd.register(),
            Command::SetRamYStartEnd.register(),
            x_start,
            x_end,
            y_start,
            y_end,
        );
        assert(script(ops@) =~= window_ops(self.spec_mode(), shape));
        ops
    }

    /// The transactions that set the position the next image data is written to.
    pub fn set_cursor(&self, position: Point) -> (r: Vec<Op>)
        requires
            0 <= position.x <= i32::MAX - 8,
            position.x % 8 == 0,
            0 <= position.y <= 0xFFFF,
        ensures
            script(r@) == cursor_ops(self.spec_mode(), position),
    {
        let x_pos = if self.state.mode == RefreshMode::Gray2 { position.x + 8 } else { position.x };
        let mut ops: Vec<Op> = Vec::new();
        push_ram_cursor(
            &mut ops,
            Command::SetRamX.register(),
            Command::SetRamY.register(),
            x_pos,
            position.y,
        );
        assert(script(ops@) =~= cursor_ops(self.spec_mode(), position));
        ops
    }

    /// The script that addresses `window` and places the cursor at its origin.
    fn address(&self, window: Rectangle) -> (r: Vec<Op>)
        requires
            window_ok(self.spec_mode(), window),
            0 <= window.top_left.x <= i32::MAX - 8,
            window.top_left.x % 8 == 0,
        ensures
            script(r@) == window_ops(self.spec_mode(), window) + cursor_ops(self.spec_mode(), window.top_left),
    {
        let mut ops = self.set_window(window);
        let mut cursor = self.set_cursor(window.top_left);
        let ghost window_part = script(ops@);
        let ghost cursor_part = script(cursor@);
        ops.append(&mut cursor);
        assert(script(ops@) =~= window_part + cursor_part);
        ops
    }
}

impl<STATE: StateAwake> Reset for Epd2In9V2<STATE> {
    type DisplayOut = Epd2In9V2<STATE>;

    closed spec fn spec_reset(self) -> (Epd2In9V2<STATE>, Seq<OpSpec>) {
        (self, reset_ops())
    }

    fn reset(self) -> (r: (Epd2In9V2<STATE>, Vec<Op>)) {
        let mut ops: Vec<Op> = Vec::new();
        push_reset(&mut ops);
        assert(script(ops@) =~= reset_ops());
        (self, ops)
    }
}

impl<W: StateAwake> Reset for Epd2In9V2<StateAsleep<W>> {
    type DisplayOut = Epd2In9V2<W>;

    closed spec fn spec_reset(self) -> (Epd2In9V2<W>, Seq<OpSpec>) {
        (Epd2In9V2 { state: self.state.wake_state }, reset_ops())
    }

    fn reset(self) -> (r: (Epd2In9V2<W>, Vec<Op>)) {
        let mut ops: Vec<Op> = Vec::new();
        push_reset(&mut ops);
        assert(script(ops@) =~= reset_ops());
        (Epd2In9V2 { state: self.state.wake_state }, ops)
    }
}

impl<STATE: StateAwake> Sleep for Epd2In9V2<STATE> {
    type DisplayOut = Epd2In9V2<StateAsleep<STATE>>;

    closed spec fn spec_sleep(self) -> (Epd2In9V2<StateAsleep<STATE>>, Seq<OpSpec>) {
        (
            Epd2In9V2 { state: StateAsleep { wake_state: self.state } },
            seq![OpSpec::Send(Command::DeepSleepMode.spec_register(), seq![0x01u8])],
        )
    }

    fn sleep(self) -> (r: (Epd2In9V2<StateAsleep<STATE>>, Vec<Op>)) {
        let deep_sleep = [0x01u8];
        assert(deep_sleep@ =~= seq![0x01u8]);
        let mut ops: Vec<Op> = Vec::new();
        push_command(&mut ops, Command::DeepSleepMode, &deep_sleep);
        assert(script(ops@) =~~= seq![OpSpec::Send(Command::DeepSleepMode.spec_register(), seq![0x01u8])]);
        (Epd2In9V2 { state: StateAsleep { wake_state: self.state } }, ops)
    }
}

impl<W: StateAwake> Wake for Epd2In9V2<StateAsleep<W>> {
    type DisplayOut = Epd2In9V2<W>;

    /// Waking needs only a reset pulse; the panel keeps its initialisation.
    closed spec fn spec_wake(self) -> (Epd2In9V2<W>, Seq<OpSpec>) {
        self.spec_reset()
    }

    fn wake(self) -> (r: (Epd2In9V2<W>, Vec<Op>)) {
        self.reset()
    }
}

impl Displayable for Epd2In9V2<StateReady> {
    open spec fn spec_update_display(&self) -> Seq<OpSpec> {
        update_ops(self.spec_mode())
    }

    fn update_display(&self) -> (r: Vec<Op>) {
        let mode = self.state.mode;
        let update_control = mode.display_update_control_2();
        let no_data: [u8; 0] = [];
        assert(no_data@ =~= Seq::<u8>::empty());
        let mut ops: Vec<Op> = Vec::new();
        push_command(&mut ops, Command::DisplayUpdateControl2, &update_control);
        push_command(&mut ops, Command::MasterActivation, &no_data);
        assert(script(ops@) =~~= update_ops(mode));
        ops
    }
}

impl DisplaySimple<1, 1> for Epd2In9V2<StateReady> {
    open spec fn window_ok(&self, window: Rectangle) -> bool {
        &&& window_ok(self.spec_mode(), window)
        &&& 0 <= window.top_left.x <= i32::MAX - 8
        &&& window.top_left.x % 8 == 0
    }

    open spec fn spec_write_framebuffer(&self, window: Rectangle, frames: Seq<Seq<u8>>) -> Seq<OpSpec> {
        write_frames_ops(self.spec_mode(), window, seq![Command::WriteLowRam], frames)
    }

    fn write_framebuffer<B: BufferView<1, 1>>(&self, buf: &B) -> (r: Vec<Op>) {
        let window = buf.window();
        let data = buf.data();
        let mut ops = self.address(window);
        push_command(&mut ops, Command::WriteLowRam, data[0]);
        assert(script(ops@) =~= write_frames_ops(self.spec_mode(), window, seq![Command::WriteLowRam], buf.spec_frames()));
        ops
    }

    fn display_framebuffer<B: BufferView<1, 1>>(&self, buf: &B) -> (r: Vec<Op>) {
        let mut ops = DisplaySimple::<1, 1>::write_framebuffer(self, buf);
        let mut update = self.update_display();
        let ghost write_part = script(ops@);
        ops.append(&mut update);
        assert(script(ops@) =~= write_part + update_ops(self.spec_mode()));
        ops
    }
}

impl DisplaySimple<1, 2> for Epd2In9V2<StateReady> {
    open spec fn window_ok(&self, window: Rectangle) -> bool {
        &&& window_ok(self.spec_mode(), window)
        &&& 0 <= window.top_left.x <= i32::MAX - 8
        &&& window.top_left.x % 8 == 0
    }

    /// The low-bit frame goes to the low RAM and the high-bit frame to the high RAM.
    open spec fn spec_write_framebuffer(&self, window: Rectangle, frames: Seq<Seq<u8>>) -> Seq<OpSpec> {
        write_frames_ops(
            self.spec_mode(),
            window,
            seq![Command::WriteLowRam, Command::WriteHighRam],
            frames,
        )
    }

    fn write_framebuffer<B: BufferView<1, 2>>(&self, buf: &B) -> (r: Vec<Op>) {
        let window = buf.window();
        let data = buf.data();
        let mut ops = self.address(window);
        push_command(&mut ops, Command::WriteLowRam, data[0]);
        push_command(&mut ops, Command::WriteHighRam, data[1]);
        assert(script(ops@) =~= write_frames_ops(
            self.spec_mode(),
            window,
            seq![Command::WriteLowRam, Command::WriteHighRam],
            buf.spec_frames(),
        ));
        ops
    }

    fn display_framebuffer<B: BufferView<1, 2>>(&self, buf: &B) -> (r: Vec<Op>) {
        let mut ops = DisplaySimple::<1, 2>::write_framebuffer(self, buf);
        let mut update = self.update_display();
        let ghost write_part = script(ops@);
        ops.append(&mut update);
        assert(script(ops@) =~= write_part + update_ops(self.spec_mode()));
        ops
    }
}

impl DisplayPartial<1, 1> for Epd2In9V2<StateReady> {
    /// The base of the partial diff lives in the high RAM.
    open spec fn spec_write_base_framebuffer(&self, window: Rectangle, frames: Seq<Seq<u8>>) -> Seq<
        OpSpec,
    > {
        write_frames_ops(self.spec_mode(), window, seq![Command::WriteHighRam], frames)
    }

    fn write_base_framebuffer<B: BufferView<1, 1>>(&self, buf: &B) -> (r: Vec<Op>) {
        let window = buf.window();
        let data = buf.data();
        let mut ops = self.address(window);
        push_command(&mut ops, Command::WriteHighRam, data[0]);
        assert(script(ops@) =~= write_frames_ops(self.spec_mode(), window, seq![Command::WriteHighRam], buf.spec_frames()));
        ops
    }
}

/// Sleeping and then waking a ready session gives back a ready session with the same refresh
/// mode.
pub proof fn lemma_sleep_then_wake_keeps_mode(epd: Epd2In9V2<StateReady>)
    ensures
        epd.spec_sleep().0.spec_wake().0 == epd,
        epd.spec_sleep().0.spec_wake().0.spec_mode() == epd.spec_mode(),
{
}

} // verus!
