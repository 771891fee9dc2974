//! The command/data wire protocol shared by all panels, and the scripts of operations that the
//! panel sessions hand to the hardware layer.
use vstd::prelude::*;

verus! {

/// A logic level of a GPIO line.
#[derive(Clone, Copy, Debug, PartialEq, Eq, Structural)]
pub enum PinState {
    Low,
    High,
}

/// What to do about the busy line before starting a transaction.
#[derive(Clone, Copy, Debug, PartialEq, Eq, Structural)]
pub enum BusyAction {
    /// The panel is not busy: go ahead without suspending.
    Proceed,
    /// Suspend until the busy line goes low.
    WaitForLow,
    /// Suspend until the busy line goes high.
    WaitForHigh,
}

/// Decides whether to wait for the panel, given the busy line's current level and the level that
/// signals "busy" on this wiring. There is no timeout: a panel that never leaves the busy level
/// (for example because it is asleep) keeps the caller waiting.
pub fn busy_wait_action(level: PinState, busy_when: PinState) -> (r: BusyAction)
    ensures
        level != busy_when ==> r == BusyAction::Proceed,
        level == busy_when && busy_when == PinState::High ==> r == BusyAction::WaitForLow,
        level == busy_when && busy_when == PinState::Low ==> r == BusyAction::WaitForHigh,
{
    match busy_when {
        PinState::High => {
            if level == PinState::High {
                BusyAction::WaitForLow
            } else {
                BusyAction::Proceed
            }
        },
        PinState::Low => {
            if level == PinState::Low {
                BusyAction::WaitForHigh
            } else {
                BusyAction::Proceed
            }
        },
    }
}

/// One step of a transaction on the wire.
#[derive(Clone, Debug, PartialEq, Eq)]
pub enum BusStep {
    /// Drive the data/command line low: the next bytes are a command.
    DcLow,
    /// Drive the data/command line high: the next bytes are data.
    DcHigh,
    /// Write bytes over the bus.
    Write(Vec<u8>),
}

/// What a [BusStep] does, with the bytes as a sequence.
pub ghost enum BusStepSpec {
    DcLow,
    DcHigh,
    Write(Seq<u8>),
}

impl View for BusStep {
    type V = BusStepSpec;

    open spec fn view(&self) -> BusStepSpec {
        match self {
            BusStep::DcLow => BusStepSpec::DcLow,
            BusStep::DcHigh => BusStepSpec::DcHigh,
            BusStep::Write(bytes) => BusStepSpec::Write(bytes@),
        }
    }
}

/// The wire steps of one transaction once the panel is not busy: the command byte with the
/// data/command line low, then, if there is a payload, the payload with the line high. The line
/// is left high after a payload.
pub open spec fn spec_transaction(command: u8, data: Seq<u8>) -> Seq<BusStepSpec> {
    let head = seq![BusStepSpec::DcLow, BusStepSpec::Write(seq![command])];
    if data.len() == 0 {
        head
    } else {
        head + seq![BusStepSpec::DcHigh, BusStepSpec::Write(data)]
    }
}

/// Lays out one command transaction as the steps to perform on the wire.
pub fn transaction_steps(command: u8, data: &[u8]) -> (r: Vec<BusStep>)
    ensures
        r@.map_values(|s: BusStep| s@) == spec_transaction(command, data@),
{
    let mut command_bytes: Vec<u8> = Vec::new();
    command_bytes.push(command);
    assert(command_bytes@ =~= seq![command]);
    let mut steps: Vec<BusStep> = Vec::new();
    steps.push(BusStep::DcLow);
    steps.push(BusStep::Write(command_bytes));
    assert(steps@.map_values(|s: BusStep| s@) =~= seq![BusStepSpec::DcLow, BusStepSpec::Write(seq![command])]);
    if data.len() > 0 {
        let payload = vstd::slice::slice_to_vec(data);
        steps.push(BusStep::DcHigh);
        steps.push(BusStep::Write(payload));
    }
    proof {
        assert(steps@.map_values(|s: BusStep| s@) =~= spec_transaction(command, data@));
    }
    steps
}

/// One operation of a script that a panel session hands to the hardware layer, performed in
/// order.
#[derive(Clone, Debug, PartialEq, Eq)]
pub enum Op {
    /// Wait until the panel is not busy, then perform the transaction of this command and payload.
    Send { command: u8, data: Vec<u8> },
    /// Wait until the panel is not busy.
    WaitIfBusy,
    /// Drive the reset line.
    SetReset(PinState),
    /// Drive the power line.
    SetPower(PinState),
    /// Pause for the given number of milliseconds.
    DelayMs(u32),
    /// Perform a wire step directly, without waiting for the panel.
    Bus(BusStep),
}

/// What an [Op] does, with the payload as a sequence.
pub ghost enum OpSpec {
    Send(u8, Seq<u8>),
    WaitIfBusy,
    SetReset(PinState),
    SetPower(PinState),
    DelayMs(u32),
    Bus(BusStepSpec),
}

impl View for Op {
    type V = OpSpec;

    open spec fn view(&self) -> OpSpec {
        match self {
            Op::Send { command, data } => OpSpec::Send(*command, data@),
            Op::WaitIfBusy => OpSpec::WaitIfBusy,
            Op::SetReset(level) => OpSpec::SetReset(*level),
            Op::SetPower(level) => OpSpec::SetPower(*level),
            Op::DelayMs(ms) => OpSpec::DelayMs(*ms),
            Op::Bus(step) => OpSpec::Bus(step@),
        }
    }
}

/// What a script does.
pub open spec fn script(ops: Seq<Op>) -> Seq<OpSpec> {
    ops.map_values(|o: Op| o@)
}

/// Appends a command transaction to a script.
pub fn push_send(ops: &mut Vec<Op>, command: u8, data: &[u8])
    ensures
        script(final(ops)@) == script(old(ops)@).push(OpSpec::Send(command, data@)),
{
    ops.push(Op::Send { command, data: vstd::slice::slice_to_vec(data) });
    proof {
        assert(script(ops@) =~= script(old(ops)@).push(OpSpec::Send(command, data@)));
    }
}

/// Appends an operation to a script.
pub fn push_op(ops: &mut Vec<Op>, op: Op)
    ensures
        script(final(ops)@) == script(old(ops)@).push(op@),
{
    ops.push(op);
    proof {
        assert(script(ops@) =~= script(old(ops)@).push(op@));
    }
}

/// Splits a 16-bit value into its low and high bytes.
pub fn split_low_and_high(value: u16) -> (r: (u8, u8))
    ensures
        r.0 == value % 256,
        r.1 == value / 256,
{
    let low = (value & 0xFF) as u8;
    let high = ((value >> 8) & 0xFF) as u8;
    assert(value & 0xFF == value % 256 && (value >> 8) & 0xFF == value / 256) by (bit_vector);
    (low, high)
}

/// The RAM address byte of an x coordinate: the index of its byte of 8 pixels, truncated to
/// 8 bits.
pub open spec fn x_address(x: int) -> u8 {
    ((x / 8) % 256) as u8
}

/// The two little-endian bytes of a 16-bit y coordinate.
pub open spec fn y_bytes(y: int) -> Seq<u8> {
    seq![(y % 256) as u8, (y / 256) as u8]
}

/// Converts an x coordinate to its RAM address byte.
pub fn x_address_byte(x: i32) -> (r: u8)
    requires
        x >= 0,
    ensures
        r == x_address(x as int),
{
    let r = ((x >> 3) & 0xFF) as u8;
    assert(((x >> 3) & 0xFF) as u8 == ((x / 8) % 256) as u8) by (bit_vector)
        requires
            x >= 0,
    ;
    r
}

/// The transactions that set the RAM window of controllers addressed in bytes of 8 pixels along
/// x and in rows along y; start and end are inclusive.
pub open spec fn ram_window_ops(
    x_command: u8,
    y_command: u8,
    x_start: int,
    x_end: int,
    y_start: int,
    y_end: int,
) -> Seq<OpSpec> {
    seq![
        OpSpec::Send(x_command, seq![x_address(x_start), x_address(x_end)]),
        OpSpec::Send(y_command, y_bytes(y_start) + y_bytes(y_end)),
    ]
}

/// The transactions that set the RAM cursor of such controllers.
pub open spec fn ram_cursor_ops(x_command: u8, y_command: u8, x: int, y: int) -> Seq<OpSpec> {
    seq![OpSpec::Send(x_command, seq![x_address(x)]), OpSpec::Send(y_command, y_bytes(y))]
}

/// Appends the transactions that set the RAM window.
pub fn push_ram_window(
    ops: &mut Vec<Op>,
    x_command: u8,
    y_command: u8,
    x_start: i32,
    x_end: i32,
    y_start: i32,
    y_end: i32,
)
    requires
        0 <= x_start,
        0 <= x_end,
        0 <= y_start <= 0xFFFF,
        0 <= y_end <= 0xFFFF,
    ensures
        script(final(ops)@) == script(old(ops)@) + ram_window_ops(
            x_command,
            y_command,
            x_start as int,
            x_end as int,
            y_start as int,
            y_end as int,
        ),
{
    let x_bytes = [x_address_byte(x_start), x_address_byte(x_end)];
    push_send(ops, x_command, &x_bytes);
    let (y_start_low, y_start_high) = split_low_and_high(y_start as u16);
    let (y_end_low, y_end_high) = split_low_and_high(y_end as u16);
    let y_data = [y_start_low, y_start_high, y_end_low, y_end_high];
    push_send(ops, y_command, &y_data);
    proof {
        assert(x_bytes@ =~= seq![x_address(x_start as int), x_address(x_end as int)]);
        assert(y_data@ =~= y_bytes(y_start as int) + y_bytes(y_end as int));
        assert(script(ops@) =~= script(old(ops)@) + ram_window_ops(
            x_command,
            y_command,
            x_start as int,
            x_end as int,
            y_start as int,
            y_end as int,
        ));
    }
}

/// Appends the transactions that set the RAM cursor.
pub fn push_ram_cursor(ops: &mut Vec<Op>, x_command: u8, y_command: u8, x: i32, y: i32)
    requires
        0 <= x,
        0 <= y <= 0xFFFF,
    ensures
        script(final(ops)@) == script(old(ops)@) + ram_cursor_ops(x_command, y_command, x as int, y as int),
{
    let x_bytes = [x_address_byte(x)];
    push_send(ops, x_command, &x_bytes);
    let (y_low, y_high) = split_low_and_high(y as u16);
    let y_data = [y_low, y_high];
    push_send(ops, y_command, &y_data);
    proof {
        assert(x_bytes@ =~= seq![x_address(x as int)]);
        assert(y_data@ =~= y_bytes(y as int));
        assert(script(ops@) =~= script(old(ops)@) + ram_cursor_ops(x_command, y_command, x as int, y as int));
    }
}

/// What a panel with two on-device image RAMs holds: the RAM that image writes fill, the other
/// RAM (the base that a partial refresh compares against), and the image on the glass.
pub ghost struct TwoRamPanel {
    pub current: Seq<u8>,
    pub other: Seq<u8>,
    pub shown: Seq<u8>,
}

impl TwoRamPanel {
    /// The panel after `image` is written to the current RAM.
    pub open spec fn with_current(self, image: Seq<u8>) -> TwoRamPanel {
        TwoRamPanel { current: image, ..self }
    }

    /// The panel after a refresh: the current RAM is shown and the RAMs swap roles.
    pub open spec fn refreshed(self) -> TwoRamPanel {
        TwoRamPanel { current: self.other, other: self.current, shown: self.current }
    }
}

/// The commands through which a two-RAM panel is driven.
pub ghost struct TwoRamCommands {
    /// Writes the RAM that the next refresh shows.
    pub write_current: u8,
    /// Writes the other RAM.
    pub write_other: u8,
    /// Runs the refresh: the current RAM is shown, and the two RAMs swap roles.
    pub activate: u8,
}

/// The panel after one operation.
pub open spec fn panel_step(p: TwoRamPanel, cmds: TwoRamCommands, op: OpSpec) -> TwoRamPanel {
    match op {
        OpSpec::Send(command, data) => {
            if command == cmds.write_current {
                p.with_current(data)
            } else if command == cmds.write_other {
                TwoRamPanel { other: data, ..p }
            } else if command == cmds.activate {
                p.refreshed()
            } else {
                p
            }
        },
        _ => p,
    }
}

/// The panel after a script.
pub open spec fn panel_run(p: TwoRamPanel, cmds: TwoRamCommands, ops: Seq<OpSpec>) -> TwoRamPanel
    decreases ops.len(),
{
    if ops.len() == 0 {
        p
    } else {
        panel_step(panel_run(p, cmds, ops.drop_last()), cmds, ops.last())
    }
}

/// Running `a + b` is running `a` and then `b`.
pub proof fn lemma_panel_run_concat(
    p: TwoRamPanel,
    cmds: TwoRamCommands,
    a: Seq<OpSpec>,
    b: Seq<OpSpec>,
)
    ensures
        panel_run(p, cmds, a + b) == panel_run(panel_run(p, cmds, a), cmds, b),
    decreases b.len(),
{
    if b.len() == 0 {
        assert(a + b =~= a);
    } else {
        assert((a + b).drop_last() =~= a + b.drop_last());
        lemma_panel_run_concat(p, cmds, a, b.drop_last());
    }
}

} // verus!
