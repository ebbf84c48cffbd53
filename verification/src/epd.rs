//! The display driver: framebuffer, protocol primitives and update
//! sequencing.

use vstd::prelude::*;
use vstd::slice::slice_to_vec;
use crate::bus::{frame, lower, signals, Level, LineOp, Packet, Signal};
use crate::bus::{lemma_lower_concat, lemma_lower_push};
use crate::instr::{
    ANALOG_BLOCK_CONTROL, BORDER_WAVEFORM, DATA_ENTRY_MODE, DIGITAL_BLOCK_CONTROL,
    DISPLAY_UPDATE_CONTROL, DRIVER_OUTPUT_CONTROL, DUMMY_LINE_PERIOD, GATE_DRIVING_VOLTAGE,
    GATE_TIME, MASTER_ACTIVATION, SET_RAM_X_POINTER, SET_RAM_X_WINDOW, SET_RAM_Y_POINTER,
    SET_RAM_Y_WINDOW, SOURCE_DRIVING_VOLTAGE, SW_RESET, UPDATE_FULL, UPDATE_PART,
    UPDATE_POWER_OFF, UPDATE_POWER_ON, WRITE_LUT, WRITE_RAM, WRITE_VCOM,
};
use crate::waveform::{EPD_LUT_DEFAULT_FULL, EPD_LUT_DEFAULT_PART};
use crate::window::{high_byte, low_byte, rect_on_panel, rect_window, Window};
use crate::window::{lemma_whole_window, lemma_window_position};
use crate::panel::{EPD_BUFFER_SIZE, EPD_HEIGHT, EPD_ROW_BYTES, EPD_WIDTH};
use crate::pixels::{is_black, on_panel, paint, pixel_index, pixel_shift};
use crate::pixels::{lemma_paint_keeps, lemma_paint_sets, lemma_pixel_index};

verus! {

/// Driver state: the off-screen image and the line operations issued so far
/// that the firmware has not yet carried out.
///
/// Every method that talks to the controller appends to `bus` and returns at
/// once; the firmware carries the operations out in order and empties the
/// queue. The contracts give the appended operations as the lowering of a
/// packet sequence, so a whole update can be read off as instructions,
/// operands and waits.
pub struct PaperDisplay {
    /// Packed image, row-major, `EPD_ROW_BYTES` per row, most significant
    /// bit leftmost. A cleared bit is a black pixel, a set bit a white one.
    pub buffer: [u8; EPD_BUFFER_SIZE],
    /// Line operations in the order they are to be carried out.
    pub bus: Vec<LineOp>,
}

/// Packets that program the RAM window: byte-column bounds, then row bounds
/// as two bytes each.
pub open spec fn ram_area_packets(
    x_start: u8,
    x_end: u8,
    y_start: u8,
    y_start1: u8,
    y_end: u8,
    y_end1: u8,
) -> Seq<Packet> {
    seq![
        Packet::Command(SET_RAM_X_WINDOW),
        Packet::Data(seq![x_start, x_end]),
        Packet::Command(SET_RAM_Y_WINDOW),
        Packet::Data(seq![y_start, y_start1, y_end, y_end1]),
    ]
}

/// Packets that place the RAM pointer: byte column, then row as two bytes.
pub open spec fn ram_pointer_packets(addr_x: u8, addr_y: u8, addr_y1: u8) -> Seq<Packet> {
    seq![
        Packet::Command(SET_RAM_X_POINTER),
        Packet::Data(seq![addr_x]),
        Packet::Command(SET_RAM_Y_POINTER),
        Packet::Data(seq![addr_y, addr_y1]),
    ]
}

/// Entry mode as the controller takes it: values above 3 count as 3.
pub open spec fn entry_mode(em: u8) -> u8 {
    if em < 3 {
        em
    } else {
        3
    }
}

/// Packets that select a data-entry mode and make the RAM window and pointer
/// fit it. Bit 0 of the mode makes the byte column count up, bit 1 the row;
/// the window always spans the whole panel, entered from the side the
/// pointer starts at.
pub open spec fn entry_mode_packets(em: u8) -> Seq<Packet> {
    let mode = entry_mode(em);
    let x_up = mode == 1 || mode == 3;
    let y_up = mode == 2 || mode == 3;
    let x_last = ((EPD_WIDTH - 1) / 8) as u8;
    let y_last_lo = ((EPD_HEIGHT - 1) % 256) as u8;
    let y_last_hi = ((EPD_HEIGHT - 1) / 256) as u8;
    let x_from = if x_up { 0u8 } else { x_last };
    let x_to = if x_up { x_last } else { 0u8 };
    let y_from_lo = if y_up { 0u8 } else { y_last_lo };
    let y_from_hi = if y_up { 0u8 } else { y_last_hi };
    let y_to_lo = if y_up { y_last_lo } else { 0u8 };
    let y_to_hi = if y_up { y_last_hi } else { 0u8 };
    seq![Packet::Command(DATA_ENTRY_MODE), Packet::Data(seq![mode])] + ram_area_packets(
        x_from,
        x_to,
        y_from_lo,
        y_from_hi,
        y_to_lo,
        y_to_hi,
    ) + ram_pointer_packets(x_from, y_from_lo, y_from_hi)
}

/// Packets that choose an update sequence by its control operand, start it,
/// and wait for the controller to finish it.
pub open spec fn activation_packets(control: u8) -> Seq<Packet> {
    seq![
        Packet::Command(DISPLAY_UPDATE_CONTROL),
        Packet::Data(seq![control]),
        Packet::Command(MASTER_ACTIVATION),
        Packet::Wait,
    ]
}

/// Register setup shared by both refresh modes, up to and including the
/// data-entry mode.
pub open spec fn init_display_packets(em: u8) -> Seq<Packet> {
    seq![
        Packet::Command(ANALOG_BLOCK_CONTROL),
        Packet::Data(seq![0x54u8]),
        Packet::Command(DIGITAL_BLOCK_CONTROL),
        Packet::Data(seq![0x3bu8]),
        Packet::Command(DRIVER_OUTPUT_CONTROL),
        Packet::Data(seq![0xf9u8, 0x00u8, 0x00u8]),
        Packet::Command(DATA_ENTRY_MODE),
        Packet::Data(seq![0x01u8]),
    ] + ram_area_packets(0x00, 0x0f, 0xf9, 0x00, 0x00, 0x00) + seq![
        Packet::Command(BORDER_WAVEFORM),
        Packet::Data(seq![0x03u8]),
        Packet::Command(WRITE_VCOM),
        Packet::Data(seq![0x50u8]),
        Packet::Command(GATE_DRIVING_VOLTAGE),
        Packet::Data(seq![0x15u8]),
        Packet::Command(SOURCE_DRIVING_VOLTAGE),
        Packet::Data(seq![0x41u8, 0xa8u8, 0x32u8]),
        Packet::Command(DUMMY_LINE_PERIOD),
        Packet::Data(seq![0x2cu8]),
        Packet::Command(GATE_TIME),
        Packet::Data(seq![0x0bu8]),
    ] + ram_pointer_packets(0x00, 0xf9, 0x00) + entry_mode_packets(em)
}

/// Setup for a full refresh: shared registers, the full waveform, power on.
pub open spec fn init_full_packets(em: u8) -> Seq<Packet> {
    init_display_packets(em) + seq![
        Packet::Command(WRITE_LUT),
        Packet::Data(EPD_LUT_DEFAULT_FULL@),
    ] + activation_packets(UPDATE_POWER_ON)
}

/// Setup for a partial refresh: shared registers, a tighter VCOM, the
/// partial waveform, power on.
pub open spec fn init_part_packets(em: u8) -> Seq<Packet> {
    init_display_packets(em) + seq![
        Packet::Command(WRITE_VCOM),
        Packet::Data(seq![0x26u8]),
        Packet::Command(WRITE_LUT),
        Packet::Data(EPD_LUT_DEFAULT_PART@),
    ] + activation_packets(UPDATE_POWER_ON)
}

/// Packets of a hardware reset: a low pulse on the reset line, ten
/// milliseconds low and ten high, then a wait for the controller.
pub open spec fn reset_packets() -> Seq<Packet> {
    seq![
        Packet::ResetLine(Level::Low),
        Packet::Pause(10),
        Packet::ResetLine(Level::High),
        Packet::Pause(10),
        Packet::Wait,
    ]
}

/// Packets that bring the controller to a known state: hardware reset, then
/// software reset and a wait for it to complete.
pub open spec fn init_packets() -> Seq<Packet> {
    reset_packets() + seq![Packet::Command(SW_RESET), Packet::Wait]
}

/// Packets that stream image bytes into the controller's RAM: one operand
/// transfer per byte, in order.
pub open spec fn stream_packets(bytes: Seq<u8>) -> Seq<Packet> {
    Seq::new(bytes.len(), |k: int| Packet::Data(seq![bytes[k]]))
}

/// Packets of a full update of the image `buf`: setup for a full refresh in
/// entry mode 3, the RAM-write instruction, the whole image, the full
/// refresh trigger.
pub open spec fn update_packets(buf: Seq<u8>) -> Seq<Packet> {
    init_full_packets(0x03) + seq![Packet::Command(WRITE_RAM)] + stream_packets(buf)
        + activation_packets(UPDATE_FULL)
}

/// Packets of a partial update of the window `win` from the image `buf`:
/// setup for a partial refresh in entry mode 3, the window registers, the
/// pointer at the window's corner, a wait, the RAM-write instruction, the
/// window's bytes, the partial refresh trigger.
pub open spec fn update_window_packets(buf: Seq<u8>, win: Window) -> Seq<Packet> {
    init_part_packets(0x03) + ram_area_packets(
        win.x_start,
        win.x_end,
        low_byte(win.y_start),
        high_byte(win.y_start),
        low_byte(win.y_end),
        high_byte(win.y_end),
    ) + ram_pointer_packets(win.x_start, low_byte(win.y_start), high_byte(win.y_start)) + seq![
        Packet::Wait,
        Packet::Command(WRITE_RAM),
    ] + stream_packets(win.bytes_of(buf)) + activation_packets(UPDATE_PART)
}

/// Appending one more frame to a lowered prefix.
proof fn lemma_sent_push(base: Seq<Signal>, sent: Seq<Packet>, p: Packet)
    ensures
        (base + lower(sent)) + frame(p) == base + lower(sent.push(p)),
{
    lemma_lower_push(sent, p);
    assert((base + lower(sent)) + frame(p) =~= base + (lower(sent) + frame(p)));
}

/// Appending a lowered run to a lowered prefix.
proof fn lemma_sent_concat(base: Seq<Signal>, sent: Seq<Packet>, more: Seq<Packet>)
    ensures
        (base + lower(sent)) + lower(more) == base + lower(sent + more),
{
    lemma_lower_concat(sent, more);
    assert((base + lower(sent)) + lower(more) =~= base + (lower(sent) + lower(more)));
}

impl PaperDisplay {
    /// Everything issued so far, as signals.
    pub open spec fn trace(&self) -> Seq<Signal> {
        signals(self.bus@)
    }

    /// Queues one line operation.
    fn emit(&mut self, op: LineOp)
        ensures
            final(self).buffer == old(self).buffer,
            final(self).trace() == old(self).trace().push(op@),
    {
        self.bus.push(op);
        assert(self.trace() =~= old(self).trace().push(op@));
    }

    /// Queues one instruction byte: data/command low, chip selected for the
    /// single-byte transfer, then released.
    pub fn write_command(&mut self, cmd: u8)
        ensures
            final(self).buffer == old(self).buffer,
            final(self).trace() == old(self).trace() + frame(Packet::Command(cmd)),
    {
        let mut byte: Vec<u8> = Vec::new();
        byte.push(cmd);
        self.emit(LineOp::DataCommand(Level::Low));
        self.emit(LineOp::ChipSelect(Level::Low));
        self.emit(LineOp::Write(byte));
        self.emit(LineOp::ChipSelect(Level::High));
        assert(byte@ =~= seq![cmd]);
        assert(self.trace() =~= old(self).trace() + frame(Packet::Command(cmd)));
    }

    /// Queues operand bytes: data/command high, chip selected for one
    /// transfer of all the bytes, then released.
    pub fn write_data(&mut self, data: &[u8])
        ensures
            final(self).buffer == old(self).buffer,
            final(self).trace() == old(self).trace() + frame(Packet::Data(data@)),
    {
        let bytes = slice_to_vec(data);
        self.emit(LineOp::DataCommand(Level::High));
        self.emit(LineOp::ChipSelect(Level::Low));
        self.emit(LineOp::Write(bytes));
        self.emit(LineOp::ChipSelect(Level::High));
        assert(self.trace() =~= old(self).trace() + frame(Packet::Data(data@)));
    }

    /// Queues a wait for the controller: whoever carries it out polls the
    /// busy line until `controller_ready` accepts a reading. There is no
    /// time limit.
    pub fn wait_busy(&mut self)
        ensures
            final(self).buffer == old(self).buffer,
            final(self).trace() == old(self).trace() + frame(Packet::Wait),
    {
        self.emit(LineOp::AwaitReady);
        assert(self.trace() =~= old(self).trace() + frame(Packet::Wait));
    }

    /// Sets every byte of the framebuffer to `color`: `0xFF` is all white,
    /// `0x00` all black. Nothing is sent to the panel.
    pub fn fill_screen(&mut self, color: u8)
        ensures
            final(self).bus@ == old(self).bus@,
            forall|i: int| 0 <= i < EPD_BUFFER_SIZE ==> final(self).buffer@[i] == color,
    {
        let mut i: usize = 0;
        while i < EPD_BUFFER_SIZE
            invariant
                i <= EPD_BUFFER_SIZE,
                self.bus@ == old(self).bus@,
                forall|k: int| 0 <= k < i ==> self.buffer@[k] == color,
            decreases EPD_BUFFER_SIZE - i,
        {
            self.buffer[i] = color;
            i += 1;
        }
    }

    /// Paints one pixel in the framebuffer: black if `color` is true, white
    /// otherwise. Coordinates outside the panel are ignored. Nothing is sent
    /// to the panel.
    pub fn draw_pixel(&mut self, x: u16, y: u16, color: bool)
        ensures
            final(self).bus@ == old(self).bus@,
            !on_panel(x as int, y as int) ==> final(self).buffer == old(self).buffer,
            on_panel(x as int, y as int) ==> final(self).buffer@ == old(self).buffer@.update(
                pixel_index(x as int, y as int),
                paint(
                    old(self).buffer@[pixel_index(x as int, y as int)],
                    pixel_shift(x as int),
                    color,
                ),
            ),
            on_panel(x as int, y as int) ==> is_black(final(self).buffer@, x as int, y as int)
                == color,
            forall|x2: int, y2: int|
                on_panel(x2, y2) && (x2 != x || y2 != y) ==> #[trigger] is_black(
                    final(self).buffer@,
                    x2,
                    y2,
                ) == is_black(old(self).buffer@, x2, y2),
    {
        if x >= EPD_WIDTH as u16 || y >= EPD_HEIGHT as u16 {
            return ;
        }
        let idx: usize = (y as usize) * EPD_ROW_BYTES + (x as usize) / 8;
        let bit: u8 = 7 - (x % 8) as u8;
        let before: u8 = self.buffer[idx];
        if color {
            self.buffer[idx] = before & !(1u8 << bit);
        } else {
            self.buffer[idx] = before | (1u8 << bit);
        }
        proof {
            lemma_pixel_index(x as int, y as int, x as int, y as int);
            lemma_paint_sets(before, bit, color);
            assert forall|x2: int, y2: int|
                on_panel(x2, y2) && (x2 != x || y2 != y) implies #[trigger] is_black(
                self.buffer@,
                x2,
                y2,
            ) == is_black(old(self).buffer@, x2, y2) by {
                lemma_pixel_index(x as int, y as int, x2, y2);
                if pixel_index(x2, y2) == idx {
                    lemma_paint_keeps(before, bit, color, pixel_shift(x2));
                }
            }
        }
    }

    /// Queues the choice of the update sequence `control`, its activation and
    /// a wait for the controller to finish it.
    fn activate(&mut self, control: u8)
        ensures
            final(self).buffer == old(self).buffer,
            final(self).trace() == old(self).trace() + lower(activation_packets(control)),
    {
        let ghost base = self.trace();
        let ghost mut sent: Seq<Packet> = Seq::empty();
        assert(self.trace() =~= base + lower(sent));
        self.write_command(DISPLAY_UPDATE_CONTROL);
        proof {
            lemma_sent_push(base, sent, Packet::Command(DISPLAY_UPDATE_CONTROL));
            sent = sent.push(Packet::Command(DISPLAY_UPDATE_CONTROL));
        }
        let operand = [control];
        self.write_data(&operand);
        proof {
            assert(operand@ =~= seq![control]);
            lemma_sent_push(base, sent, Packet::Data(operand@));
            sent = sent.push(Packet::Data(operand@));
        }
        self.write_command(MASTER_ACTIVATION);
        proof {
            lemma_sent_push(base, sent, Packet::Command(MASTER_ACTIVATION));
            sent = sent.push(Packet::Command(MASTER_ACTIVATION));
        }
        self.wait_busy();
        proof {
            lemma_sent_push(base, sent, Packet::Wait);
            sent = sent.push(Packet::Wait);
            assert(sent =~= activation_packets(control));
        }
    }

    /// Queues switching the controller's clock and analog supply on.
    pub fn power_on(&mut self)
        ensures
            final(self).buffer == old(self).buffer,
            final(self).trace() == old(self).trace() + lower(
                activation_packets(UPDATE_POWER_ON),
            ),
    {
        self.activate(UPDATE_POWER_ON);
    }

    /// Queues switching the controller's analog supply and clock off.
    /// Nothing may be sent to the panel after this until it has been reset
    /// again.
    pub fn power_off(&mut self)
        ensures
            final(self).buffer == old(self).buffer,
            final(self).trace() == old(self).trace() + lower(
                activation_packets(UPDATE_POWER_OFF),
            ),
    {
        self.activate(UPDATE_POWER_OFF);
    }

    /// Queues the trigger of a full refresh from the RAM contents, and a
    /// wait for it.
    pub fn update_full(&mut self)
        ensures
            final(self).buffer == old(self).buffer,
            final(self).trace() == old(self).trace() + lower(activation_packets(UPDATE_FULL)),
    {
        self.activate(UPDATE_FULL);
    }

    /// Queues the trigger of a partial refresh from the RAM contents, and a
    /// wait for it.
    pub fn update_part(&mut self)
        ensures
            final(self).buffer == old(self).buffer,
            final(self).trace() == old(self).trace() + lower(activation_packets(UPDATE_PART)),
    {
        self.activate(UPDATE_PART);
    }

    /// Queues a pulse on the reset line and a wait for the controller to
    /// come back.
    pub fn reset(&mut self)
        ensures
            final(self).buffer == old(self).buffer,
            final(self).trace() == old(self).trace() + lower(reset_packets()),
    {
        let ghost base = self.trace();
        let ghost mut sent: Seq<Packet> = Seq::empty();
        assert(self.trace() =~= base + lower(sent));
        self.emit(LineOp::Reset(Level::Low));
        proof {
            assert(self.trace() =~= (base + lower(sent)) + frame(Packet::ResetLine(Level::Low)));
            lemma_sent_push(base, sent, Packet::ResetLine(Level::Low));
            sent = sent.push(Packet::ResetLine(Level::Low));
        }
        self.emit(LineOp::DelayMs(10));
        proof {
            assert(self.trace() =~= (base + lower(sent)) + frame(Packet::Pause(10)));
            lemma_sent_push(base, sent, Packet::Pause(10));
            sent = sent.push(Packet::Pause(10));
        }
        self.emit(LineOp::Reset(Level::High));
        proof {
            assert(self.trace() =~= (base + lower(sent)) + frame(Packet::ResetLine(Level::High)));
            lemma_sent_push(base, sent, Packet::ResetLine(Level::High));
            sent = sent.push(Packet::ResetLine(Level::High));
        }
        self.emit(LineOp::DelayMs(10));
        proof {
            assert(self.trace() =~= (base + lower(sent)) + frame(Packet::Pause(10)));
            lemma_sent_push(base, sent, Packet::Pause(10));
            sent = sent.push(Packet::Pause(10));
        }
        self.wait_busy();
        proof {
            lemma_sent_push(base, sent, Packet::Wait);
            sent = sent.push(Packet::Wait);
            assert(sent =~= reset_packets());
        }
    }

    /// Queues the register writes that both refresh modes share, ending
    /// with the data-entry mode `em`.
    pub fn init_display(&mut self, em: u8)
        ensures
            final(self).buffer == old(self).buffer,
            final(self).trace() == old(self).trace() + lower(init_display_packets(em)),
    {
        let ghost base = self.trace();
        let ghost mut sent: Seq<Packet> = Seq::empty();
        assert(self.trace() =~= base + lower(sent));
        // analog block control
        let analog = [0x54u8];
        self.write_command(ANALOG_BLOCK_CONTROL);
        self.write_data(&analog);
        proof {
            assert(analog@ =~= seq![0x54u8]);
            lemma_sent_push(base, sent, Packet::Command(ANALOG_BLOCK_CONTROL));
            sent = sent.push(Packet::Command(ANALOG_BLOCK_CONTROL));
            lemma_sent_push(base, sent, Packet::Data(analog@));
            sent = sent.push(Packet::Data(analog@));
        }
        // digital block control
        let digital = [0x3bu8];
        self.write_command(DIGITAL_BLOCK_CONTROL);
        self.write_data(&digital);
        proof {
            assert(digital@ =~= seq![0x3bu8]);
            lemma_sent_push(base, sent, Packet::Command(DIGITAL_BLOCK_CONTROL));
            sent = sent.push(Packet::Command(DIGITAL_BLOCK_CONTROL));
            lemma_sent_push(base, sent, Packet::Data(digital@));
            sent = sent.push(Packet::Data(digital@));
        }
        // driver output control
        let gates = [0xf9u8, 0x00u8, 0x00u8];
        self.write_command(DRIVER_OUTPUT_CONTROL);
        self.write_data(&gates);
        proof {
            assert(gates@ =~= seq![0xf9u8, 0x00u8, 0x00u8]);
            lemma_sent_push(base, sent, Packet::Command(DRIVER_OUTPUT_CONTROL));
            sent = sent.push(Packet::Command(DRIVER_OUTPUT_CONTROL));
            lemma_sent_push(base, sent, Packet::Data(gates@));
            sent = sent.push(Packet::Data(gates@));
        }
        // data entry mode
        let entry = [0x01u8];
        self.write_command(DATA_ENTRY_MODE);
        self.write_data(&entry);
        proof {
            assert(entry@ =~= seq![0x01u8]);
            lemma_sent_push(base, sent, Packet::Command(DATA_ENTRY_MODE));
            sent = sent.push(Packet::Command(DATA_ENTRY_MODE));
            lemma_sent_push(base, sent, Packet::Data(entry@));
            sent = sent.push(Packet::Data(entry@));
        }
        // ram area
        self.set_ram_area(0x00, 0x0f, 0xf9, 0x00, 0x00, 0x00);
        proof {
            let area = ram_area_packets(0x00, 0x0f, 0xf9, 0x00, 0x00, 0x00);
            lemma_sent_concat(base, sent, area);
            sent = sent + area;
        }
        // border waveform
        let border = [0x03u8];
        self.write_command(BORDER_WAVEFORM);
        self.write_data(&border);
        proof {
            assert(border@ =~= seq![0x03u8]);
            lemma_sent_push(base, sent, Packet::Command(BORDER_WAVEFORM));
            sent = sent.push(Packet::Command(BORDER_WAVEFORM));
            lemma_sent_push(base, sent, Packet::Data(border@));
            sent = sent.push(Packet::Data(border@));
        }
        // vcom voltage
        let vcom = [0x50u8];
        self.write_command(WRITE_VCOM);
        self.write_data(&vcom);
        proof {
            assert(vcom@ =~= seq![0x50u8]);
            lemma_sent_push(base, sent, Packet::Command(WRITE_VCOM));
            sent = sent.push(Packet::Command(WRITE_VCOM));
            lemma_sent_push(base, sent, Packet::Data(vcom@));
            sent = sent.push(Packet::Data(vcom@));
        }
        // gate driving voltage
        let gate_voltage = [0x15u8];
        self.write_command(GATE_DRIVING_VOLTAGE);
        self.write_data(&gate_voltage);
        proof {
            assert(gate_voltage@ =~= seq![0x15u8]);
            lemma_sent_push(base, sent, Packet::Command(GATE_DRIVING_VOLTAGE));
            sent = sent.push(Packet::Command(GATE_DRIVING_VOLTAGE));
            lemma_sent_push(base, sent, Packet::Data(gate_voltage@));
            sent = sent.push(Packet::Data(gate_voltage@));
        }
        // source driving voltage
        let source_voltage = [0x41u8, 0xa8u8, 0x32u8];
        self.write_command(SOURCE_DRIVING_VOLTAGE);
        self.write_data(&source_voltage);
        proof {
            assert(source_voltage@ =~= seq![0x41u8, 0xa8u8, 0x32u8]);
            lemma_sent_push(base, sent, Packet::Command(SOURCE_DRIVING_VOLTAGE));
            sent = sent.push(Packet::Command(SOURCE_DRIVING_VOLTAGE));
            lemma_sent_push(base, sent, Packet::Data(source_voltage@));
            sent = sent.push(Packet::Data(source_voltage@));
        }
        // dummy line period
        let dummy = [0x2cu8];
        self.write_command(DUMMY_LINE_PERIOD);
        self.write_data(&dummy);
        proof {
            assert(dummy@ =~= seq![0x2cu8]);
            lemma_sent_push(base, sent, Packet::Command(DUMMY_LINE_PERIOD));
            sent = sent.push(Packet::Command(DUMMY_LINE_PERIOD));
            lemma_sent_push(base, sent, Packet::Data(dummy@));
            sent = sent.push(Packet::Data(dummy@));
        }
        // gate time
        let gate_time = [0x0bu8];
        self.write_command(GATE_TIME);
        self.write_data(&gate_time);
        proof {
            assert(gate_time@ =~= seq![0x0bu8]);
            lemma_sent_push(base, sent, Packet::Command(GATE_TIME));
            sent = sent.push(Packet::Command(GATE_TIME));
            lemma_sent_push(base, sent, Packet::Data(gate_time@));
            sent = sent.push(Packet::Data(gate_time@));
        }
        // ram pointer
        self.set_ram_pointer(0x00, 0xf9, 0x00);
        proof {
            let pointer = ram_pointer_packets(0x00, 0xf9, 0x00);
            lemma_sent_concat(base, sent, pointer);
            sent = sent + pointer;
        }
        self.set_ram_data_entry_mode(em);
        proof {
            lemma_sent_concat(base, sent, entry_mode_packets(em));
            sent = sent + entry_mode_packets(em);
            assert(sent =~= init_display_packets(em));
        }
    }

    /// Queues the preparation for a full refresh. A refresh uses the
    /// waveform loaded last, so the mode prepared must be the mode triggered.
    pub fn init_full(&mut self, em: u8)
        ensures
            final(self).buffer == old(self).buffer,
            final(self).trace() == old(self).trace() + lower(init_full_packets(em)),
    {
        let ghost base = self.trace();
        let ghost mut sent: Seq<Packet> = Seq::empty();
        assert(self.trace() =~= base + lower(sent));
        self.init_display(em);
        proof {
            lemma_sent_concat(base, sent, init_display_packets(em));
            sent = sent + init_display_packets(em);
        }
        self.write_command(WRITE_LUT);
        self.write_data(&EPD_LUT_DEFAULT_FULL);
        proof {
            lemma_sent_push(base, sent, Packet::Command(WRITE_LUT));
            sent = sent.push(Packet::Command(WRITE_LUT));
            lemma_sent_push(base, sent, Packet::Data(EPD_LUT_DEFAULT_FULL@));
            sent = sent.push(Packet::Data(EPD_LUT_DEFAULT_FULL@));
        }
        self.power_on();
        proof {
            lemma_sent_concat(base, sent, activation_packets(UPDATE_POWER_ON));
            sent = sent + activation_packets(UPDATE_POWER_ON);
            assert(sent =~= init_full_packets(em));
        }
    }

    /// Queues the preparation for a partial refresh.
    pub fn init_part(&mut self, em: u8)
        ensures
            final(self).buffer == old(self).buffer,
            final(self).trace() == old(self).trace() + lower(init_part_packets(em)),
    {
        let ghost base = self.trace();
        let ghost mut sent: Seq<Packet> = Seq::empty();
        assert(self.trace() =~= base + lower(sent));
        self.init_display(em);
        proof {
            lemma_sent_concat(base, sent, init_display_packets(em));
            sent = sent + init_display_packets(em);
        }
        let vcom = [0x26u8];
        self.write_command(WRITE_VCOM);
        self.write_data(&vcom);
        proof {
            assert(vcom@ =~= seq![0x26u8]);
            lemma_sent_push(base, sent, Packet::Command(WRITE_VCOM));
            sent = sent.push(Packet::Command(WRITE_VCOM));
            lemma_sent_push(base, sent, Packet::Data(vcom@));
            sent = sent.push(Packet::Data(vcom@));
        }
        self.write_command(WRITE_LUT);
        self.write_data(&EPD_LUT_DEFAULT_PART);
        proof {
            lemma_sent_push(base, sent, Packet::Command(WRITE_LUT));
            sent = sent.push(Packet::Command(WRITE_LUT));
            lemma_sent_push(base, sent, Packet::Data(EPD_LUT_DEFAULT_PART@));
            sent = sent.push(Packet::Data(EPD_LUT_DEFAULT_PART@));
        }
        self.power_on();
        proof {
            lemma_sent_concat(base, sent, activation_packets(UPDATE_POWER_ON));
            sent = sent + activation_packets(UPDATE_POWER_ON);
            assert(sent =~= init_part_packets(em));
        }
    }

    /// Queues what brings the controller to a known state (hardware reset,
    /// software reset, wait) and clears the framebuffer to white.
    pub fn init(&mut self)
        ensures
            final(self).trace() == old(self).trace() + lower(init_packets()),
            forall|i: int| 0 <= i < EPD_BUFFER_SIZE ==> final(self).buffer@[i] == 0xFF,
    {
        let ghost base = self.trace();
        let ghost mut sent: Seq<Packet> = Seq::empty();
        assert(self.trace() =~= base + lower(sent));
        self.reset();
        proof {
            lemma_sent_concat(base, sent, reset_packets());
            sent = sent + reset_packets();
        }
        self.write_command(SW_RESET);
        proof {
            lemma_sent_push(base, sent, Packet::Command(SW_RESET));
            sent = sent.push(Packet::Command(SW_RESET));
        }
        self.wait_busy();
        proof {
            lemma_sent_push(base, sent, Packet::Wait);
            sent = sent.push(Packet::Wait);
            assert(sent =~= init_packets());
        }
        self.fill_screen(0xFF);
    }

    /// Queues the bytes of the framebuffer that fall in `win`, row by row,
    /// one operand transfer per byte. An index past the end of the
    /// framebuffer would be sent as white.
    pub fn stream_window(&mut self, win: &Window)
        requires
            win.wf(),
        ensures
            final(self).buffer == old(self).buffer,
            final(self).trace() == old(self).trace() + lower(
                stream_packets(win.bytes_of(old(self).buffer@)),
            ),
    {
        let ghost base = self.trace();
        let ghost bytes = win.bytes_of(self.buffer@);
        let ghost cols = win.cols();
        let ghost mut sent: Seq<Packet> = Seq::empty();
        assert(self.trace() =~= base + lower(sent));
        let mut y1: u16 = win.y_start;
        while y1 <= win.y_end
            invariant
                win.wf(),
                cols == win.cols(),
                win.y_start <= y1 <= win.y_end + 1,
                self.buffer == old(self).buffer,
                bytes == win.bytes_of(self.buffer@),
                self.trace() == base + lower(sent),
                sent.len() == (y1 - win.y_start) * cols,
                forall|k: int| 0 <= k < sent.len() ==> sent[k] == Packet::Data(seq![bytes[k]]),
            decreases win.y_end + 1 - y1,
        {
            let mut x1: u8 = win.x_start;
            while x1 <= win.x_end
                invariant
                    win.wf(),
                    cols == win.cols(),
                    win.y_start <= y1 <= win.y_end,
                    win.x_start <= x1 <= win.x_end + 1,
                    self.buffer == old(self).buffer,
                    bytes == win.bytes_of(self.buffer@),
                    self.trace() == base + lower(sent),
                    sent.len() == (y1 - win.y_start) * cols + (x1 - win.x_start),
                    forall|k: int|
                        0 <= k < sent.len() ==> sent[k] == Packet::Data(seq![bytes[k]]),
                decreases win.x_end + 1 - x1,
            {
                let idx: usize = y1 as usize * EPD_ROW_BYTES + x1 as usize;
                let data: u8 = if idx < EPD_BUFFER_SIZE {
                    self.buffer[idx]
                } else {
                    0xFF
                };
                let one = [data];
                self.write_data(&one);
                proof {
                    lemma_window_position(*win, y1 - win.y_start, x1 - win.x_start);
                    assert(one@ =~= seq![bytes[sent.len() as int]]);
                    lemma_sent_push(base, sent, Packet::Data(one@));
                    sent = sent.push(Packet::Data(one@));
                }
                x1 += 1;
            }
            proof {
                assert((y1 - win.y_start) * cols + cols == (y1 + 1 - win.y_start) * cols)
                    by (nonlinear_arith);
            }
            y1 += 1;
        }
        assert(sent =~= stream_packets(bytes));
    }

    /// Queues a full update: everything that shows the whole framebuffer
    /// with a full refresh, up to the wait for the panel to finish.
    pub fn update(&mut self)
        ensures
            final(self).buffer == old(self).buffer,
            final(self).trace() == old(self).trace() + lower(update_packets(old(self).buffer@)),
    {
        let ghost base = self.trace();
        let ghost mut sent: Seq<Packet> = Seq::empty();
        assert(self.trace() =~= base + lower(sent));
        self.init_full(0x03);
        proof {
            lemma_sent_concat(base, sent, init_full_packets(0x03));
            sent = sent + init_full_packets(0x03);
        }
        self.write_command(WRITE_RAM);
        proof {
            lemma_sent_push(base, sent, Packet::Command(WRITE_RAM));
            sent = sent.push(Packet::Command(WRITE_RAM));
        }
        let whole = Window {
            x_start: 0,
            x_end: ((EPD_WIDTH - 1) / 8) as u8,
            y_start: 0,
            y_end: (EPD_HEIGHT - 1) as u16,
        };
        proof {
            lemma_whole_window(self.buffer@);
        }
        self.stream_window(&whole);
        proof {
            lemma_sent_concat(base, sent, stream_packets(self.buffer@));
            sent = sent + stream_packets(self.buffer@);
        }
        self.update_full();
        proof {
            lemma_sent_concat(base, sent, activation_packets(UPDATE_FULL));
            sent = sent + activation_packets(UPDATE_FULL);
            assert(sent =~= update_packets(self.buffer@));
        }
    }

    /// Queues a partial update: everything that shows the part of the
    /// framebuffer that a pixel rectangle covers with a partial refresh, up
    /// to the wait for the panel to finish. The rectangle has its corner at
    /// `(x, y)` and is `w` pixels wide and `h` high; it is clamped to the
    /// panel and widened to whole byte columns. A rectangle with no pixel on
    /// the panel is ignored.
    pub fn update_window(&mut self, x: u16, y: u16, w: u16, h: u16)
        ensures
            final(self).buffer == old(self).buffer,
            rect_on_panel(x, y, w, h) ==> final(self).trace() == old(self).trace() + lower(
                update_window_packets(old(self).buffer@, rect_window(x, y, w, h)),
            ),
            !rect_on_panel(x, y, w, h) ==> final(self).bus@ == old(self).bus@,
    {
        let win = match Window::from_rect(x, y, w, h) {
            Some(win) => win,
            None => {
                return ;
            },
        };
        let ghost base = self.trace();
        let ghost mut sent: Seq<Packet> = Seq::empty();
        assert(self.trace() =~= base + lower(sent));
        self.init_part(0x03);
        proof {
            lemma_sent_concat(base, sent, init_part_packets(0x03));
            sent = sent + init_part_packets(0x03);
        }
        let ys_lo: u8 = (win.y_start % 256) as u8;
        let ys_hi: u8 = (win.y_start / 256) as u8;
        let ye_lo: u8 = (win.y_end % 256) as u8;
        let ye_hi: u8 = (win.y_end / 256) as u8;
        self.set_ram_area(win.x_start, win.x_end, ys_lo, ys_hi, ye_lo, ye_hi);
        proof {
            let area = ram_area_packets(win.x_start, win.x_end, ys_lo, ys_hi, ye_lo, ye_hi);
            lemma_sent_concat(base, sent, area);
            sent = sent + area;
        }
        self.set_ram_pointer(win.x_start, ys_lo, ys_hi);
        proof {
            let pointer = ram_pointer_packets(win.x_start, ys_lo, ys_hi);
            lemma_sent_concat(base, sent, pointer);
            sent = sent + pointer;
        }
        self.wait_busy();
        proof {
            lemma_sent_push(base, sent, Packet::Wait);
            sent = sent.push(Packet::Wait);
        }
        self.write_command(WRITE_RAM);
        proof {
            lemma_sent_push(base, sent, Packet::Command(WRITE_RAM));
            sent = sent.push(Packet::Command(WRITE_RAM));
        }
        self.stream_window(&win);
        proof {
            lemma_sent_concat(base, sent, stream_packets(win.bytes_of(self.buffer@)));
            sent = sent + stream_packets(win.bytes_of(self.buffer@));
        }
        self.update_part();
        proof {
            lemma_sent_concat(base, sent, activation_packets(UPDATE_PART));
            sent = sent + activation_packets(UPDATE_PART);
            assert(sent =~= update_window_packets(self.buffer@, win));
        }
    }

    /// Queues the writes of the RAM window registers.
    pub fn set_ram_area(
        &mut self,
        x_start: u8,
        x_end: u8,
        y_start: u8,
        y_start1: u8,
        y_end: u8,
        y_end1: u8,
    )
        ensures
            final(self).buffer == old(self).buffer,
            final(self).trace() == old(self).trace() + lower(
                ram_area_packets(x_start, x_end, y_start, y_start1, y_end, y_end1),
            ),
    {
        let ghost base = self.trace();
        let ghost mut sent: Seq<Packet> = Seq::empty();
        assert(self.trace() =~= base + lower(sent));
        self.write_command(SET_RAM_X_WINDOW);
        proof {
            lemma_sent_push(base, sent, Packet::Command(SET_RAM_X_WINDOW));
            sent = sent.push(Packet::Command(SET_RAM_X_WINDOW));
        }
        let xs = [x_start, x_end];
        self.write_data(&xs);
        proof {
            assert(xs@ =~= seq![x_start, x_end]);
            lemma_sent_push(base, sent, Packet::Data(xs@));
            sent = sent.push(Packet::Data(xs@));
        }
        self.write_command(SET_RAM_Y_WINDOW);
        proof {
            lemma_sent_push(base, sent, Packet::Command(SET_RAM_Y_WINDOW));
            sent = sent.push(Packet::Command(SET_RAM_Y_WINDOW));
        }
        let ys = [y_start, y_start1, y_end, y_end1];
        self.write_data(&ys);
        proof {
            assert(ys@ =~= seq![y_start, y_start1, y_end, y_end1]);
            lemma_sent_push(base, sent, Packet::Data(ys@));
            sent = sent.push(Packet::Data(ys@));
            assert(sent =~= ram_area_packets(x_start, x_end, y_start, y_start1, y_end, y_end1));
        }
    }

    /// Queues the writes that place the RAM pointer.
    pub fn set_ram_pointer(&mut self, addr_x: u8, addr_y: u8, addr_y1: u8)
        ensures
            final(self).buffer == old(self).buffer,
            final(self).trace() == old(self).trace() + lower(
                ram_pointer_packets(addr_x, addr_y, addr_y1),
            ),
    {
        let ghost base = self.trace();
        let ghost mut sent: Seq<Packet> = Seq::empty();
        assert(self.trace() =~= base + lower(sent));
        self.write_command(SET_RAM_X_POINTER);
        proof {
            lemma_sent_push(base, sent, Packet::Command(SET_RAM_X_POINTER));
            sent = sent.push(Packet::Command(SET_RAM_X_POINTER));
        }
        let xs = [addr_x];
        self.write_data(&xs);
        proof {
            assert(xs@ =~= seq![addr_x]);
            lemma_sent_push(base, sent, Packet::Data(xs@));
            sent = sent.push(Packet::Data(xs@));
        }
        self.write_command(SET_RAM_Y_POINTER);
        proof {
            lemma_sent_push(base, sent, Packet::Command(SET_RAM_Y_POINTER));
            sent = sent.push(Packet::Command(SET_RAM_Y_POINTER));
        }
        let ys = [addr_y, addr_y1];
        self.write_data(&ys);
        proof {
            assert(ys@ =~= seq![addr_y, addr_y1]);
            lemma_sent_push(base, sent, Packet::Data(ys@));
            sent = sent.push(Packet::Data(ys@));
            assert(sent =~= ram_pointer_packets(addr_x, addr_y, addr_y1));
        }
    }

    /// Queues the choice of a data-entry mode and the writes that set the
    /// RAM window and pointer to the whole panel, entered in the direction
    /// the mode counts in. Modes above 3 are taken as 3.
    pub fn set_ram_data_entry_mode(&mut self, em: u8)
        ensures
            final(self).buffer == old(self).buffer,
            final(self).trace() == old(self).trace() + lower(entry_mode_packets(em)),
    {
        let x_pixels_par: u16 = EPD_WIDTH as u16 - 1;
        let y_pixels_par: u16 = EPD_HEIGHT as u16 - 1;
        let x_last: u8 = (x_pixels_par / 8) as u8;
        let y_last_lo: u8 = (y_pixels_par % 256) as u8;
        let y_last_hi: u8 = (y_pixels_par / 256) as u8;
        let em: u8 = if em < 0x03 { em } else { 0x03 };
        let ghost base = self.trace();
        let ghost mut sent: Seq<Packet> = Seq::empty();
        assert(self.trace() =~= base + lower(sent));
        self.write_command(DATA_ENTRY_MODE);
        proof {
            lemma_sent_push(base, sent, Packet::Command(DATA_ENTRY_MODE));
            sent = sent.push(Packet::Command(DATA_ENTRY_MODE));
        }
        let mode = [em];
        self.write_data(&mode);
        proof {
            assert(mode@ =~= seq![em]);
            lemma_sent_push(base, sent, Packet::Data(mode@));
            sent = sent.push(Packet::Data(mode@));
        }
        match em {
            0x00 => {
                // column counts down, row counts down
                self.set_ram_area(x_last, 0x00, y_last_lo, y_last_hi, 0x00, 0x00);
                self.set_ram_pointer(x_last, y_last_lo, y_last_hi);
                proof {
                    let area = ram_area_packets(x_last, 0x00, y_last_lo, y_last_hi, 0x00, 0x00);
                    let pointer = ram_pointer_packets(x_last, y_last_lo, y_last_hi);
                    lemma_sent_concat(base, sent, area);
                    lemma_sent_concat(base, sent + area, pointer);
                    sent = sent + area + pointer;
                }
            },
            0x01 => {
                // column counts up, row counts down
                self.set_ram_area(0x00, x_last, y_last_lo, y_last_hi, 0x00, 0x00);
                self.set_ram_pointer(0x00, y_last_lo, y_last_hi);
                proof {
                    let area = ram_area_packets(0x00, x_last, y_last_lo, y_last_hi, 0x00, 0x00);
                    let pointer = ram_pointer_packets(0x00, y_last_lo, y_last_hi);
                    lemma_sent_concat(base, sent, area);
                    lemma_sent_concat(base, sent + area, pointer);
                    sent = sent + area + pointer;
                }
            },
            0x02 => {
                // column counts down, row counts up
                self.set_ram_area(x_last, 0x00, 0x00, 0x00, y_last_lo, y_last_hi);
                self.set_ram_pointer(x_last, 0x00, 0x00);
                proof {
                    let area = ram_area_packets(x_last, 0x00, 0x00, 0x00, y_last_lo, y_last_hi);
                    let pointer = ram_pointer_packets(x_last, 0x00, 0x00);
                    lemma_sent_concat(base, sent, area);
                    lemma_sent_concat(base, sent + area, pointer);
                    sent = sent + area + pointer;
                }
            },
            _ => {
                // column counts up, row counts up
                self.set_ram_area(0x00, x_last, 0x00, 0x00, y_last_lo, y_last_hi);
                self.set_ram_pointer(0x00, 0x00, 0x00);
                proof {
                    let area = ram_area_packets(0x00, x_last, 0x00, 0x00, y_last_lo, y_last_hi);
                    let pointer = ram_pointer_packets(0x00, 0x00, 0x00);
                    lemma_sent_concat(base, sent, area);
                    lemma_sent_concat(base, sent + area, pointer);
                    sent = sent + area + pointer;
                }
            },
        }
        assert(sent =~= entry_mode_packets(em));
    }
}

} // verus!
