//! Instruction bytes of the controller, and the operands the driver uses
//! with the update-control instruction.

use vstd::prelude::*;

verus! {

/// Driver output control: number of gate lines and scan direction.
pub const DRIVER_OUTPUT_CONTROL: u8 = 0x01;

/// Gate driving voltage.
pub const GATE_DRIVING_VOLTAGE: u8 = 0x03;

/// Source driving voltage.
pub const SOURCE_DRIVING_VOLTAGE: u8 = 0x04;

/// Data-entry mode: the direction in which the RAM pointer advances.
pub const DATA_ENTRY_MODE: u8 = 0x11;

/// Software reset.
pub const SW_RESET: u8 = 0x12;

/// Activate the display update sequence chosen by `DISPLAY_UPDATE_CONTROL`.
pub const MASTER_ACTIVATION: u8 = 0x20;

/// Choose what the next activation does.
pub const DISPLAY_UPDATE_CONTROL: u8 = 0x22;

/// Start writing the black/white RAM at the RAM pointer.
pub const WRITE_RAM: u8 = 0x24;

/// VCOM voltage.
pub const WRITE_VCOM: u8 = 0x2C;

/// Load a waveform table.
pub const WRITE_LUT: u8 = 0x32;

/// Dummy line period.
pub const DUMMY_LINE_PERIOD: u8 = 0x3A;

/// Gate line width.
pub const GATE_TIME: u8 = 0x3B;

/// Border waveform.
pub const BORDER_WAVEFORM: u8 = 0x3C;

/// RAM window, byte columns: start and end.
pub const SET_RAM_X_WINDOW: u8 = 0x44;

/// RAM window, rows: start and end, two bytes each, low byte first.
pub const SET_RAM_Y_WINDOW: u8 = 0x45;

/// RAM pointer, byte column.
pub const SET_RAM_X_POINTER: u8 = 0x4E;

/// RAM pointer, row, low byte first.
pub const SET_RAM_Y_POINTER: u8 = 0x4F;

/// Analog block control.
pub const ANALOG_BLOCK_CONTROL: u8 = 0x74;

/// Digital block control.
pub const DIGITAL_BLOCK_CONTROL: u8 = 0x7E;

/// Update-control operand: enable clock and analog, leave the panel as it is.
pub const UPDATE_POWER_ON: u8 = 0xC0;

/// Update-control operand: disable analog and clock.
pub const UPDATE_POWER_OFF: u8 = 0xC3;

/// Update-control operand: run a full refresh from the loaded waveform.
pub const UPDATE_FULL: u8 = 0xF7;

/// Update-control operand: run a partial refresh from the loaded waveform.
pub const UPDATE_PART: u8 = 0xFF;

} // verus!
