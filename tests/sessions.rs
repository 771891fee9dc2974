use epd_waveshare_async::buffer::{BinaryBuffer, BinaryColor, DrawTarget};
use epd_waveshare_async::geometry::{Point, Rectangle, Size};
use epd_waveshare_async::gray2::Gray2SplitBuffer;
use epd_waveshare_async::protocol::{
    busy_wait_action, split_low_and_high, transaction_steps, x_address_byte, BusStep, BusyAction,
    Op, PinState,
};
use epd_waveshare_async::epd2in9_v2::{Bypass, RefreshMode};
use epd_waveshare_async::epd7in5_v2::BusyWait;
use epd_waveshare_async::{epd2in9, epd2in9_v2, epd7in5_v2};
use epd_waveshare_async::{
    DisplayPartial, DisplaySimple, Displayable, PowerOff, PowerOn, Reset, Sleep, Wake,
};

fn send(command: u8, data: &[u8]) -> Op {
    Op::Send { command, data: data.to_vec() }
}

/// A panel with two image RAMs: writes fill the current RAM, and each activation shows the
/// current RAM and swaps the two.
struct TwoRamPanel {
    current: Vec<u8>,
    other: Vec<u8>,
    shown: Vec<u8>,
}

impl TwoRamPanel {
    fn run(&mut self, ops: &[Op]) {
        for op in ops {
            if let Op::Send { command, data } = op {
                match command {
                    0x24 => self.current = data.clone(),
                    0x26 => self.other = data.clone(),
                    0x20 => {
                        self.shown = self.current.clone();
                        std::mem::swap(&mut self.current, &mut self.other);
                    }
                    _ => {}
                }
            }
        }
    }
}

#[test]
fn busy_wait_follows_configured_polarity() {
    assert_eq!(busy_wait_action(PinState::High, PinState::High), BusyAction::WaitForLow);
    assert_eq!(busy_wait_action(PinState::Low, PinState::High), BusyAction::Proceed);
    assert_eq!(busy_wait_action(PinState::Low, PinState::Low), BusyAction::WaitForHigh);
    assert_eq!(busy_wait_action(PinState::High, PinState::Low), BusyAction::Proceed);
}

#[test]
fn transaction_sends_command_then_payload() {
    assert_eq!(
        transaction_steps(0x32, &[1, 2, 3]),
        vec![
            BusStep::DcLow,
            BusStep::Write(vec![0x32]),
            BusStep::DcHigh,
            BusStep::Write(vec![1, 2, 3]),
        ]
    );
    assert_eq!(transaction_steps(0x12, &[]), vec![BusStep::DcLow, BusStep::Write(vec![0x12])]);
}

#[test]
fn coordinate_bytes() {
    assert_eq!(split_low_and_high(0x0127), (0x27, 0x01));
    assert_eq!(x_address_byte(127), 15);
    assert_eq!(x_address_byte(8 * 300), 44);
}

#[test]
fn epd2in9_init_script() {
    let (epd, ops) = epd2in9::Epd2In9::new().init(epd2in9::RefreshMode::PartialBlackBypass);
    assert_eq!(epd.mode(), epd2in9::RefreshMode::PartialBlackBypass);
    let mut expected = vec![
        Op::SetReset(PinState::Low),
        Op::DelayMs(10),
        Op::SetReset(PinState::High),
        Op::DelayMs(10),
        send(0x12, &[]),
        send(0x01, &[0x27, 0x01, 0x00]),
        send(0x0C, &[0xD7, 0xD6, 0x9D]),
        send(0x11, &[0b11]),
        send(0x2C, &[0xA8]),
        send(0x3A, &[0x1A]),
        send(0x3B, &[0x08]),
    ];
    expected.push(send(0x32, &epd2in9::RefreshMode::Partial.lut()));
    expected.push(send(0x21, &[0x90]));
    assert_eq!(ops, expected);
}

#[test]
fn epd2in9_refresh_mode_changes_only_when_different() {
    let (epd, _) = epd2in9::Epd2In9::new().init(epd2in9::RefreshMode::Full);
    let (epd, ops) = epd.set_refresh_mode(epd2in9::RefreshMode::Full);
    assert!(ops.is_empty());
    let (epd, ops) = epd.set_refresh_mode(epd2in9::RefreshMode::PartialWhiteBypass);
    assert_eq!(epd.mode(), epd2in9::RefreshMode::PartialWhiteBypass);
    assert_eq!(ops[1], send(0x21, &[0x80]));
    assert_eq!(ops.len(), 2);
}

#[test]
fn epd2in9_write_framebuffer_addresses_whole_buffer() {
    let (epd, _) = epd2in9::Epd2In9::new().init(epd2in9::RefreshMode::Full);
    let buffer = epd2in9::new_buffer();
    let ops = epd.write_framebuffer(&buffer);
    assert_eq!(ops.len(), 5);
    assert_eq!(ops[0], send(0x44, &[0, 15]));
    assert_eq!(ops[1], send(0x45, &[0, 0, 0x27, 0x01]));
    assert_eq!(ops[2], send(0x4E, &[0]));
    assert_eq!(ops[3], send(0x4F, &[0, 0]));
    assert_eq!(ops[4], send(0x24, buffer.data()));
    let base = epd.write_base_framebuffer(&buffer);
    assert_eq!(base[4], send(0x26, buffer.data()));
}

#[test]
fn epd2in9_sleep_then_wake_keeps_mode() {
    let (epd, _) = epd2in9::Epd2In9::new().init(epd2in9::RefreshMode::Partial);
    let (asleep, ops) = epd.sleep();
    assert_eq!(ops, vec![send(0x10, &[0x01])]);
    let (awake, ops) = asleep.wake();
    assert_eq!(awake.mode(), epd2in9::RefreshMode::Partial);
    assert_eq!(
        ops,
        vec![Op::SetReset(PinState::Low), Op::DelayMs(10), Op::SetReset(PinState::High), Op::DelayMs(10)]
    );
}

#[test]
fn epd2in9_second_update_shows_previous_image() {
    let (epd, _) = epd2in9::Epd2In9::new().init(epd2in9::RefreshMode::Full);
    let mut a = BinaryBuffer::<16>::new(Size::new(16, 8));
    a.fill_solid(&Rectangle::new(Point::new(0, 0), Size::new(8, 8)), BinaryColor::On);
    let mut b = BinaryBuffer::<16>::new(Size::new(16, 8));
    b.fill_solid(&Rectangle::new(Point::new(8, 0), Size::new(8, 8)), BinaryColor::On);

    let mut panel = TwoRamPanel { current: vec![], other: vec![], shown: vec![] };
    panel.run(&epd.write_framebuffer(&a));
    panel.run(&epd.update_display());
    assert_eq!(panel.shown, a.data());
    panel.run(&epd.write_framebuffer(&b));
    panel.run(&epd.update_display());
    assert_eq!(panel.shown, b.data());
    panel.run(&epd.update_display());
    assert_eq!(panel.shown, a.data());
}

#[test]
fn epd2in9_set_border() {
    let epd = epd2in9::Epd2In9::new();
    assert_eq!(epd.set_border(BinaryColor::On), vec![send(0x3C, &[0x01])]);
    assert_eq!(epd.set_border(BinaryColor::Off), vec![send(0x3C, &[0x00])]);
    assert_eq!(epd.send(epd2in9::Command::Noop, &[]), send(0xFF, &[]));
}

#[test]
fn epd2in9_v2_refresh_mode_tables() {
    assert_eq!(RefreshMode::Full.lut().len(), 153);
    assert_eq!(RefreshMode::Full.lut()[0], 0x90);
    assert_eq!(RefreshMode::Partial.border_waveform(), [0x80]);
    assert_eq!(RefreshMode::Gray2.vcom(), [0x28]);
    assert_eq!(RefreshMode::Partial.source_voltage(), [0x41, 0xB0, 0x32]);
    assert_eq!(RefreshMode::Full.display_update_control_2(), [0xC7]);
    assert_eq!(RefreshMode::Partial.display_update_control_2(), [0xCF]);
    assert_eq!(RefreshMode::Gray2.lut_magic(), [0x22]);
    assert_eq!(RefreshMode::Gray2.gate_voltage(), [0x17]);
    assert!(RefreshMode::Partial.is_black_and_white());
    assert!(!RefreshMode::Gray2.is_black_and_white());
}

#[test]
fn epd2in9_v2_partial_init_and_update() {
    let (mut epd, ops) = epd2in9_v2::Epd2In9V2::new().init(epd2in9_v2::RefreshMode::Partial);
    assert_eq!(ops.len(), 4 + 13);
    assert_eq!(ops[7], send(0x21, &[0x00, 0x80]));
    assert_eq!(ops[14], send(0x37, &[0, 0, 0, 0, 0, 0x40, 0, 0, 0, 0]));
    assert_eq!(epd.update_display(), vec![send(0x22, &[0xCF]), send(0x20, &[])]);
    let ops = epd.set_refresh_mode(epd2in9_v2::RefreshMode::Gray2);
    assert_eq!(ops.len(), 10);
    assert_eq!(ops[3], send(0x21, &[0x00, 0x00]));
    assert_eq!(epd.mode(), epd2in9_v2::RefreshMode::Gray2);
    assert!(epd.set_refresh_mode(epd2in9_v2::RefreshMode::Gray2).is_empty());
}

#[test]
fn epd2in9_v2_gray2_offsets_addressing() {
    let (epd, _) = epd2in9_v2::Epd2In9V2::new().init(epd2in9_v2::RefreshMode::Gray2);
    let buffer: Gray2SplitBuffer<24> = Gray2SplitBuffer::new(Size::new(24, 8));
    let ops = DisplaySimple::<1, 2>::write_framebuffer(&epd, &buffer);
    assert_eq!(ops[0], send(0x44, &[1, 3]));
    assert_eq!(ops[2], send(0x4E, &[1]));
    assert_eq!(ops[4], send(0x24, buffer.low.data()));
    assert_eq!(ops[5], send(0x26, buffer.high.data()));
}

#[test]
fn epd2in9_v2_ram_bypass() {
    let (epd, _) = epd2in9_v2::Epd2In9V2::new().init(epd2in9_v2::RefreshMode::Full);
    assert_eq!(epd.set_ram_bypass(Bypass::AllZero, Bypass::Inverted), vec![send(0x21, &[0x84, 0x80])]);
    assert_eq!(epd.set_ram_bypass(Bypass::Normal, Bypass::Normal), vec![send(0x21, &[0x00, 0x80])]);
}

#[test]
fn epd2in9_v2_sleep_then_wake_keeps_mode() {
    let (epd, _) = epd2in9_v2::Epd2In9V2::new().init(epd2in9_v2::RefreshMode::Gray2);
    let (asleep, _) = epd.sleep();
    let (awake, _) = asleep.wake();
    assert_eq!(awake.mode(), epd2in9_v2::RefreshMode::Gray2);
    let (awake, ops) = awake.reset();
    assert_eq!(awake.mode(), epd2in9_v2::RefreshMode::Gray2);
    assert_eq!(ops.len(), 4);
}

#[test]
fn epd7in5_v2_power_and_modes() {
    let (epd, ops) = epd7in5_v2::Epd7In5v2::new().power_on();
    assert_eq!(ops, vec![Op::SetPower(PinState::High)]);
    let (epd, ops) = epd.init(epd7in5_v2::RefreshMode::Fast);
    assert_eq!(ops.len(), 6 + 6 + 7);
    assert_eq!(ops[13], send(0x50, &[0x10, 0x07]));
    assert_eq!(epd.data_settings().bits(), 0x10);
    let (mut epd, ops) = epd.set_refresh_mode(epd7in5_v2::RefreshMode::Partial);
    assert_eq!(epd.mode(), epd7in5_v2::RefreshMode::Partial);
    assert_eq!(ops.len(), 6 + 5);
    assert_eq!(epd.set_border(BinaryColor::On), vec![send(0x50, &[0x20, 0x07])]);
    assert_eq!(epd.set_border(BinaryColor::Off), vec![send(0x50, &[0x10, 0x07])]);
    let (asleep, ops) = epd.sleep();
    assert_eq!(ops, vec![send(0x02, &[]), send(0x07, &[0xa5])]);
    let (_off, ops) = asleep.power_off();
    assert_eq!(ops, vec![Op::SetPower(PinState::Low)]);
}

#[test]
fn epd7in5_v2_framebuffers_and_update() {
    let (epd, _) = epd7in5_v2::Epd7In5v2::new().power_on();
    let (epd, _) = epd.init(epd7in5_v2::RefreshMode::Full);
    let buffer = BinaryBuffer::<16>::new(Size::new(16, 8));
    assert_eq!(epd.write_framebuffer(&buffer), vec![send(0x13, buffer.data())]);
    assert_eq!(epd.write_base_framebuffer(&buffer), vec![send(0x10, buffer.data())]);
    assert_eq!(
        epd.update_display(),
        vec![send(0x12, &[]), Op::DelayMs(100), Op::WaitIfBusy]
    );
    assert_eq!(epd.display_framebuffer(&buffer).len(), 4);
    assert_eq!(epd.wait_if_busy(PinState::Low), BusyAction::WaitForHigh);
    assert_eq!(epd.wait_if_busy(PinState::High), BusyAction::Proceed);
}

#[test]
fn epd7in5_v2_partial_area_streams_window_rows() {
    let (epd, _) = epd7in5_v2::Epd7In5v2::new().power_on();
    let (mut epd, _) = epd.init(epd7in5_v2::RefreshMode::Partial);
    let mut buffer = BinaryBuffer::<16>::new(Size::new(16, 8));
    buffer.fill_solid(&Rectangle::new(Point::new(0, 1), Size::new(8, 2)), BinaryColor::On);
    let ops = epd.display_partial_framebuffer(&buffer, Rectangle::new(Point::new(0, 1), Size::new(8, 2)));
    assert_eq!(epd.data_settings().bits(), 0xA8);
    assert_eq!(
        ops,
        vec![
            Op::WaitIfBusy,
            send(0x50, &[0xA8, 0x07]),
            send(0x91, &[]),
            send(0x90, &[0, 0, 0, 8, 0, 1, 0, 2, 0x01]),
            Op::Bus(BusStep::DcLow),
            Op::Bus(BusStep::Write(vec![0x13])),
            Op::Bus(BusStep::DcHigh),
            Op::Bus(BusStep::Write(vec![0xFF, 0x00])),
            Op::Bus(BusStep::Write(vec![0xFF, 0x00])),
            send(0x12, &[]),
            Op::DelayMs(100),
            Op::WaitIfBusy,
            send(0x92, &[]),
        ]
    );
}
