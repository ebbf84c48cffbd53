//! The line-level vocabulary the driver speaks, and its packet-level meaning.
//!
//! The driver drives three output lines (data/command select, chip select,
//! reset), shifts bytes out on a synchronous bus, pauses, and waits on the
//! controller's busy line. Each of these is one `LineOp`. A `Packet` is the
//! unit the controller understands: one instruction byte, one run of operand
//! bytes, a wait, a reset-line edge or a pause. `frame` says how a packet is
//! put on the lines, `lower` does so for a whole sequence.

use vstd::prelude::*;

verus! {

/// Electrical level of a digital line.
#[derive(Clone, Copy, Debug, PartialEq, Eq, Structural)]
pub enum Level {
    Low,
    High,
}

/// One operation on the bus or on a control line, in the order it is to be
/// carried out.
#[derive(Debug, PartialEq, Eq)]
pub enum LineOp {
    /// Drive the data/command select line: low announces an instruction
    /// byte, high announces operand bytes.
    DataCommand(Level),
    /// Drive the chip-select line: low selects the controller.
    ChipSelect(Level),
    /// Drive the reset line: low holds the controller in reset.
    Reset(Level),
    /// Shift these bytes out on the bus, in order, as one transfer.
    Write(Vec<u8>),
    /// Pause for this many milliseconds.
    DelayMs(u32),
    /// Poll the busy line until the controller reports ready.
    AwaitReady,
}

/// Mathematical value of a `LineOp`.
pub enum Signal {
    DataCommand(Level),
    ChipSelect(Level),
    Reset(Level),
    Write(Seq<u8>),
    DelayMs(u32),
    AwaitReady,
}

impl View for LineOp {
    type V = Signal;

    open spec fn view(&self) -> Signal {
        match *self {
            LineOp::DataCommand(l) => Signal::DataCommand(l),
            LineOp::ChipSelect(l) => Signal::ChipSelect(l),
            LineOp::Reset(l) => Signal::Reset(l),
            LineOp::Write(bytes) => Signal::Write(bytes@),
            LineOp::DelayMs(ms) => Signal::DelayMs(ms),
            LineOp::AwaitReady => Signal::AwaitReady,
        }
    }
}

/// The signals that a queue of line operations stands for.
pub open spec fn signals(ops: Seq<LineOp>) -> Seq<Signal> {
    Seq::new(ops.len(), |i: int| ops[i]@)
}

/// One unit of conversation with the controller.
pub enum Packet {
    /// An instruction byte.
    Command(u8),
    /// Operand bytes, sent as one transfer.
    Data(Seq<u8>),
    /// Block until the busy line reports ready.
    Wait,
    /// Drive the reset line.
    ResetLine(Level),
    /// Pause for a number of milliseconds.
    Pause(u32),
}

/// How one packet is put on the lines. Instructions go out with the
/// data/command line low, operands with it high; either way the chip is
/// selected for exactly the duration of the transfer.
pub open spec fn frame(p: Packet) -> Seq<Signal> {
    match p {
        Packet::Command(c) => seq![
            Signal::DataCommand(Level::Low),
            Signal::ChipSelect(Level::Low),
            Signal::Write(seq![c]),
            Signal::ChipSelect(Level::High),
        ],
        Packet::Data(bytes) => seq![
            Signal::DataCommand(Level::High),
            Signal::ChipSelect(Level::Low),
            Signal::Write(bytes),
            Signal::ChipSelect(Level::High),
        ],
        Packet::Wait => seq![Signal::AwaitReady],
        Packet::ResetLine(l) => seq![Signal::Reset(l)],
        Packet::Pause(ms) => seq![Signal::DelayMs(ms)],
    }
}

/// The signals of a packet sequence: the frames of its packets, in order.
pub open spec fn lower(ps: Seq<Packet>) -> Seq<Signal>
    decreases ps.len(),
{
    if ps.len() == 0 {
        Seq::empty()
    } else {
        lower(ps.drop_last()) + frame(ps.last())
    }
}

/// Lowering a sequence extended by one packet appends that packet's frame.
pub proof fn lemma_lower_push(ps: Seq<Packet>, p: Packet)
    ensures
        lower(ps.push(p)) == lower(ps) + frame(p),
{
    assert(ps.push(p).drop_last() =~= ps);
}

/// Lowering distributes over concatenation.
pub proof fn lemma_lower_concat(a: Seq<Packet>, b: Seq<Packet>)
    ensures
        lower(a + b) == lower(a) + lower(b),
    decreases b.len(),
{
    if b.len() == 0 {
        assert(a + b =~= a);
        assert(lower(a) + lower(b) =~= lower(a));
    } else {
        lemma_lower_concat(a, b.drop_last());
        assert((a + b).drop_last() =~= a + b.drop_last());
        assert((a + b).last() == b.last());
        assert((lower(a) + lower(b.drop_last())) + frame(b.last()) =~= lower(a) + (lower(
            b.drop_last(),
        ) + frame(b.last())));
    }
}

/// Whether a reading of the busy line ends a wait. The controller holds the
/// line high while it works; only a reading that succeeded and found the
/// line low counts as ready, so a failed reading keeps the wait going.
pub fn controller_ready(line_is_low: Option<bool>) -> (ready: bool)
    ensures
        ready == (line_is_low == Some(true)),
{
    match line_is_low {
        Some(low) => low,
        None => false,
    }
}

} // verus!
