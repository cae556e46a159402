use vstd::prelude::*;

use crate::Colour;

verus! {

// Command opcodes of the panel controller.
pub const DRIVER_CONTROL: u8 = 0x01;
pub const DATA_MODE: u8 = 0x11;
pub const SW_RESET: u8 = 0x12;
pub const MASTER_ACTIVATE: u8 = 0x20;
pub const WRITE_RAM: u8 = 0x24;
pub const WRITE_ALTRAM: u8 = 0x26;
pub const WRITE_VCOM: u8 = 0x2C;
pub const WRITE_LUT: u8 = 0x32;
pub const WRITE_DUMMY: u8 = 0x3A;
pub const WRITE_GATELINE: u8 = 0x3B;
pub const WRITE_BORDER: u8 = 0x3C;
pub const SET_RAMXPOS: u8 = 0x44;
pub const SET_RAMYPOS: u8 = 0x45;
pub const SET_RAMXCOUNT: u8 = 0x4E;
pub const SET_RAMYCOUNT: u8 = 0x4F;

/// One step of the refresh protocol, handed to a transport layer to perform.
#[derive(Debug, Clone, PartialEq, Eq)]
pub enum Op {
    /// Export the three GPIO lines and configure them: busy as input,
    /// data-select as output driven low, reset as output driven high.
    InitPins,
    /// Drive the reset line to the given level.
    SetReset { level: u8 },
    /// Pause for the given number of microseconds.
    SleepMicros { micros: u64 },
    /// Poll the busy line until it reads idle.
    BusyWait,
    /// Send a command opcode with no payload.
    Command { opcode: u8 },
    /// Send a command opcode followed by a data payload.
    CommandData { opcode: u8, data: Vec<u8> },
}

/// The mathematical image of an `Op`, with the payload as a sequence.
pub enum OpView {
    InitPins,
    SetReset { level: u8 },
    SleepMicros { micros: u64 },
    BusyWait,
    Command { opcode: u8 },
    CommandData { opcode: u8, data: Seq<u8> },
}

impl View for Op {
    type V = OpView;

    open spec fn view(&self) -> OpView {
        match self {
            Op::InitPins => OpView::InitPins,
            Op::SetReset { level } => OpView::SetReset { level: *level },
            Op::SleepMicros { micros } => OpView::SleepMicros { micros: *micros },
            Op::BusyWait => OpView::BusyWait,
            Op::Command { opcode } => OpView::Command { opcode: *opcode },
            Op::CommandData { opcode, data } => OpView::CommandData {
                opcode: *opcode,
                data: data@,
            },
        }
    }
}

/// The image of a whole schedule of steps.
pub open spec fn ops_view(s: Seq<Op>) -> Seq<OpView> {
    s.map_values(|op: Op| op@)
}

/// A command step with a payload.
pub open spec fn cmd_data(opcode: u8, data: Seq<u8>) -> OpView {
    OpView::CommandData { opcode, data }
}

/// The reset handshake run before every refresh: configure the lines, pulse
/// reset low then high with two 500 microsecond holds, soft-reset, wait a
/// second, then block until the busy line reads idle.
pub open spec fn spec_setup_ops() -> Seq<OpView> {
    seq![
        OpView::InitPins,
        OpView::SetReset { level: 0 },
        OpView::SleepMicros { micros: 500 },
        OpView::SetReset { level: 1 },
        OpView::SleepMicros { micros: 500 },
        OpView::Command { opcode: SW_RESET },
        OpView::SleepMicros { micros: 1000000 },
        OpView::BusyWait,
    ]
}

/// The border command for a border colour under a colour mode: black and
/// white are always written, red and yellow only when the panel drives that
/// colour; otherwise no command is issued.
pub open spec fn spec_border_ops(border: Colour, mode: Colour) -> Seq<OpView> {
    match border {
        Colour::Black => seq![cmd_data(WRITE_BORDER, seq![0x00u8])],
        Colour::Red => if mode == Colour::Red {
            seq![cmd_data(WRITE_BORDER, seq![0x06u8])]
        } else {
            Seq::empty()
        },
        Colour::Yellow => if mode == Colour::Yellow {
            seq![cmd_data(WRITE_BORDER, seq![0x0Fu8])]
        } else {
            Seq::empty()
        },
        Colour::White => seq![cmd_data(WRITE_BORDER, seq![0x01u8])],
        Colour::RedHt => Seq::empty(),
    }
}

/// The low byte of the panel's row count less one.
pub open spec fn rows_lo(rows: u16) -> u8 {
    (((rows - 1) as u16) & 0xff) as u8
}

/// The high byte of the panel's row count less one.
pub open spec fn rows_hi(rows: u16) -> u8 {
    (((rows - 1) as u16) >> 8) as u8
}

/// The register configuration issued after the reset handshake, in the exact
/// order the panel firmware expects: gate-driver control, dummy-line period,
/// gate line width, data-entry mode, the RAM X and Y address windows, the
/// VCOM level, the waveform table, the border command, and finally the RAM
/// address counters reset to the origin.
pub open spec fn spec_config_ops(
    rows: u16,
    cols: u16,
    lut: Seq<u8>,
    border: Colour,
    mode: Colour,
) -> Seq<OpView> {
    seq![
        cmd_data(DRIVER_CONTROL, seq![rows_lo(rows), rows_hi(rows), 0x00u8]),
        cmd_data(WRITE_DUMMY, seq![0x1Bu8]),
        cmd_data(WRITE_GATELINE, seq![0x0Bu8]),
        cmd_data(DATA_MODE, seq![0x03u8]),
        cmd_data(SET_RAMXPOS, seq![0x00u8, ((cols / 8 - 1) as u8)]),
        cmd_data(SET_RAMYPOS, seq![0x00u8, 0x00u8, rows_lo(rows), rows_hi(rows)]),
        cmd_data(WRITE_VCOM, seq![0x70u8]),
        cmd_data(WRITE_LUT, lut),
    ] + spec_border_ops(border, mode) + seq![
        cmd_data(SET_RAMXCOUNT, seq![0x00u8]),
        cmd_data(SET_RAMYCOUNT, seq![0x00u8, 0x00u8]),
    ]
}

/// A full refresh: the reset handshake, the register configuration, both RAM
/// planes, an optional wait for idle, and the activation command.
pub open spec fn spec_update_ops(
    rows: u16,
    cols: u16,
    lut: Seq<u8>,
    border: Colour,
    mode: Colour,
    buf_a: Seq<u8>,
    buf_b: Seq<u8>,
    busy_wait: bool,
) -> Seq<OpView> {
    spec_setup_ops() + spec_config_ops(rows, cols, lut, border, mode) + seq![
        cmd_data(WRITE_RAM, buf_a),
        cmd_data(WRITE_ALTRAM, buf_b),
    ] + (if busy_wait {
        seq![OpView::BusyWait]
    } else {
        Seq::empty()
    }) + seq![OpView::Command { opcode: MASTER_ACTIVATE }]
}

/// The border-colour byte table, stated pair by pair: black and white borders
/// always issue their byte, a red or yellow border issues its byte only under
/// the matching colour mode, and every other pairing issues no command.
pub proof fn lemma_border_byte_table(border: Colour, mode: Colour)
    ensures
        border == Colour::Black ==> spec_border_ops(border, mode) == seq![
            cmd_data(WRITE_BORDER, seq![0x00u8]),
        ],
        border == Colour::White ==> spec_border_ops(border, mode) == seq![
            cmd_data(WRITE_BORDER, seq![0x01u8]),
        ],
        border == Colour::Red && mode == Colour::Red ==> spec_border_ops(border, mode) == seq![
            cmd_data(WRITE_BORDER, seq![0x06u8]),
        ],
        border == Colour::Yellow && mode == Colour::Yellow ==> spec_border_ops(border, mode)
            == seq![cmd_data(WRITE_BORDER, seq![0x0Fu8])],
        border == Colour::Red && mode != Colour::Red ==> spec_border_ops(border, mode)
            == Seq::<OpView>::empty(),
        border == Colour::Yellow && mode != Colour::Yellow ==> spec_border_ops(border, mode)
            == Seq::<OpView>::empty(),
        border == Colour::RedHt ==> spec_border_ops(border, mode) == Seq::<OpView>::empty(),
{
}

} // verus!
