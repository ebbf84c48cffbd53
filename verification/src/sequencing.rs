//! Ordering discipline of an update.
//!
//! Once the RAM-write instruction has gone out, the controller takes what
//! follows as image data for the window and pointer it was given before.
//! Moving the window or the pointer after that point would corrupt the
//! transfer, so an update never does.

use vstd::prelude::*;
use crate::bus::Packet;
use crate::epd::{
    activation_packets, entry_mode_packets, init_display_packets, init_full_packets,
    init_part_packets, ram_area_packets, ram_pointer_packets, stream_packets, update_packets,
    update_window_packets,
};
use crate::instr::{
    SET_RAM_X_POINTER, SET_RAM_X_WINDOW, SET_RAM_Y_POINTER, SET_RAM_Y_WINDOW, UPDATE_FULL,
    UPDATE_PART, WRITE_RAM,
};
use crate::window::Window;

verus! {

/// Whether a packet is an instruction that moves the RAM window or the RAM
/// pointer.
pub open spec fn is_addressing(p: Packet) -> bool {
    ||| p == Packet::Command(SET_RAM_X_WINDOW)
    ||| p == Packet::Command(SET_RAM_Y_WINDOW)
    ||| p == Packet::Command(SET_RAM_X_POINTER)
    ||| p == Packet::Command(SET_RAM_Y_POINTER)
}

/// Whether a packet is the RAM-write instruction.
pub open spec fn is_ram_write(p: Packet) -> bool {
    p == Packet::Command(WRITE_RAM)
}

/// No packet of the sequence is the RAM-write instruction.
pub open spec fn no_ram_write(ps: Seq<Packet>) -> bool {
    forall|i: int| 0 <= i < ps.len() ==> !is_ram_write(#[trigger] ps[i])
}

/// No packet of the sequence moves the RAM window or pointer.
pub open spec fn no_addressing(ps: Seq<Packet>) -> bool {
    forall|i: int| 0 <= i < ps.len() ==> !is_addressing(#[trigger] ps[i])
}

/// No packet that follows a RAM-write instruction moves the RAM window or
/// pointer.
pub open spec fn addressing_precedes_ram_write(ps: Seq<Packet>) -> bool {
    forall|i: int, j: int|
        0 <= i < j < ps.len() && is_ram_write(#[trigger] ps[i]) ==> !is_addressing(
            #[trigger] ps[j],
        )
}

/// Joining two parts free of RAM writes gives a part free of RAM writes.
proof fn lemma_no_ram_write_concat(a: Seq<Packet>, b: Seq<Packet>)
    requires
        no_ram_write(a),
        no_ram_write(b),
    ensures
        no_ram_write(a + b),
{
    assert forall|i: int| 0 <= i < (a + b).len() implies !is_ram_write(#[trigger] (a + b)[i]) by {
        if i < a.len() {
            assert((a + b)[i] == a[i]);
        } else {
            assert((a + b)[i] == b[i - a.len()]);
        }
    }
}

/// A sequence made of a part free of RAM writes, one RAM-write instruction
/// and a part free of addressing keeps the order.
proof fn lemma_ordered(before: Seq<Packet>, after: Seq<Packet>)
    requires
        no_ram_write(before),
        no_addressing(after),
    ensures
        addressing_precedes_ram_write(before + seq![Packet::Command(WRITE_RAM)] + after),
{
    let ps = before + seq![Packet::Command(WRITE_RAM)] + after;
    assert forall|i: int, j: int|
        0 <= i < j < ps.len() && is_ram_write(#[trigger] ps[i]) implies !is_addressing(
        #[trigger] ps[j],
    ) by {
        if i < before.len() {
            assert(ps[i] == before[i]);
        }
        assert(ps[j] == after[j - before.len() - 1]);
    }
}

/// The register setup of either refresh mode holds no RAM write.
proof fn lemma_setup_has_no_ram_write(em: u8)
    ensures
        no_ram_write(init_display_packets(em)),
        no_ram_write(init_full_packets(em)),
        no_ram_write(init_part_packets(em)),
{
    lemma_addressing_has_no_ram_write();
    let display = init_display_packets(em);
    assert(no_ram_write(display));
    lemma_no_ram_write_concat(display, init_full_packets(em).skip(display.len() as int));
    assert(init_full_packets(em) =~= display + init_full_packets(em).skip(display.len() as int));
    lemma_no_ram_write_concat(display, init_part_packets(em).skip(display.len() as int));
    assert(init_part_packets(em) =~= display + init_part_packets(em).skip(display.len() as int));
}

/// Neither the window registers, nor the pointer registers, nor the
/// data-entry mode hold a RAM write.
proof fn lemma_addressing_has_no_ram_write()
    ensures
        forall|a: u8, b: u8, c: u8, d: u8, e: u8, f: u8|
            no_ram_write(#[trigger] ram_area_packets(a, b, c, d, e, f)),
        forall|a: u8, b: u8, c: u8| no_ram_write(#[trigger] ram_pointer_packets(a, b, c)),
        forall|em: u8| no_ram_write(#[trigger] entry_mode_packets(em)),
{
}

/// A full update issues the RAM-write instruction, right after its register
/// setup, and never moves the RAM window or pointer after it.
pub proof fn lemma_update_sequencing(buf: Seq<u8>)
    ensures
        is_ram_write(update_packets(buf)[init_full_packets(0x03).len() as int]),
        addressing_precedes_ram_write(update_packets(buf)),
{
    lemma_setup_has_no_ram_write(0x03);
    let after = stream_packets(buf) + activation_packets(UPDATE_FULL);
    assert(no_addressing(after));
    lemma_ordered(init_full_packets(0x03), after);
    assert(update_packets(buf) =~= init_full_packets(0x03) + seq![Packet::Command(WRITE_RAM)]
        + after);
}

/// A partial update issues the RAM-write instruction, after its register
/// setup, the window, the pointer and a wait, and never moves the RAM window
/// or pointer after it.
pub proof fn lemma_update_window_sequencing(buf: Seq<u8>, win: Window)
    ensures
        is_ram_write(update_window_packets(buf, win)[init_part_packets(0x03).len() as int + 9]),
        addressing_precedes_ram_write(update_window_packets(buf, win)),
{
    lemma_setup_has_no_ram_write(0x03);
    lemma_addressing_has_no_ram_write();
    let ps = update_window_packets(buf, win);
    let after = stream_packets(win.bytes_of(buf)) + activation_packets(UPDATE_PART);
    let before = ps.take(ps.len() - after.len() - 1);
    assert(no_addressing(after));
    assert(no_ram_write(before));
    lemma_ordered(before, after);
    assert(ps =~= before + seq![Packet::Command(WRITE_RAM)] + after);
}

} // verus!
