use paper_display::bus::{controller_ready, Level, LineOp};
use paper_display::epd::PaperDisplay;
use paper_display::panel::EPD_BUFFER_SIZE;
use paper_display::waveform::{EPD_LUT_DEFAULT_FULL, EPD_LUT_DEFAULT_PART, EPD_LUT_SIZE};

fn blank() -> PaperDisplay {
    PaperDisplay { buffer: [0x3C; EPD_BUFFER_SIZE], bus: Vec::new() }
}

fn cmd(c: u8) -> Vec<LineOp> {
    vec![
        LineOp::DataCommand(Level::Low),
        LineOp::ChipSelect(Level::Low),
        LineOp::Write(vec![c]),
        LineOp::ChipSelect(Level::High),
    ]
}

fn data(bytes: &[u8]) -> Vec<LineOp> {
    vec![
        LineOp::DataCommand(Level::High),
        LineOp::ChipSelect(Level::Low),
        LineOp::Write(bytes.to_vec()),
        LineOp::ChipSelect(Level::High),
    ]
}

fn reg(c: u8, bytes: &[u8]) -> Vec<LineOp> {
    let mut v = cmd(c);
    v.extend(data(bytes));
    v
}

fn join(parts: Vec<Vec<LineOp>>) -> Vec<LineOp> {
    parts.into_iter().flatten().collect()
}

fn unchanged(d: &PaperDisplay) -> bool {
    d.buffer.iter().all(|b| *b == 0x3C)
}

#[test]
fn write_command_frames_one_byte() {
    let mut d = blank();
    d.write_command(0x12);
    assert_eq!(
        d.bus,
        vec![
            LineOp::DataCommand(Level::Low),
            LineOp::ChipSelect(Level::Low),
            LineOp::Write(vec![0x12]),
            LineOp::ChipSelect(Level::High),
        ]
    );
    assert!(unchanged(&d));
}

#[test]
fn write_data_frames_all_bytes_in_one_transfer() {
    let mut d = blank();
    d.write_data(&[1, 2, 3]);
    assert_eq!(
        d.bus,
        vec![
            LineOp::DataCommand(Level::High),
            LineOp::ChipSelect(Level::Low),
            LineOp::Write(vec![1, 2, 3]),
            LineOp::ChipSelect(Level::High),
        ]
    );
    d.write_data(&[]);
    assert_eq!(d.bus.len(), 8);
    assert_eq!(d.bus[6], LineOp::Write(vec![]));
}

#[test]
fn operations_are_appended_in_order() {
    let mut d = blank();
    d.write_command(0x22);
    d.write_data(&[0xC0]);
    d.wait_busy();
    assert_eq!(d.bus, join(vec![cmd(0x22), data(&[0xC0]), vec![LineOp::AwaitReady]]));
}

#[test]
fn wait_busy_queues_one_wait() {
    let mut d = blank();
    d.wait_busy();
    assert_eq!(d.bus, vec![LineOp::AwaitReady]);
}

#[test]
fn ready_only_on_a_good_low_reading() {
    assert!(controller_ready(Some(true)));
    assert!(!controller_ready(Some(false)));
    assert!(!controller_ready(None));
}

#[test]
fn reset_pulses_the_line() {
    let mut d = blank();
    d.reset();
    assert_eq!(
        d.bus,
        vec![
            LineOp::Reset(Level::Low),
            LineOp::DelayMs(10),
            LineOp::Reset(Level::High),
            LineOp::DelayMs(10),
            LineOp::AwaitReady,
        ]
    );
    assert!(unchanged(&d));
}

#[test]
fn init_resets_and_clears_to_white() {
    let mut d = blank();
    d.init();
    assert_eq!(
        d.bus,
        join(vec![
            vec![
                LineOp::Reset(Level::Low),
                LineOp::DelayMs(10),
                LineOp::Reset(Level::High),
                LineOp::DelayMs(10),
                LineOp::AwaitReady,
            ],
            cmd(0x12),
            vec![LineOp::AwaitReady],
        ])
    );
    assert!(d.buffer.iter().all(|b| *b == 0xFF));
}

#[test]
fn power_on_uses_operand_c0() {
    let mut d = blank();
    d.power_on();
    assert_eq!(d.bus, join(vec![reg(0x22, &[0xC0]), cmd(0x20), vec![LineOp::AwaitReady]]));
}

#[test]
fn power_off_uses_operand_c3() {
    let mut d = blank();
    d.power_off();
    assert_eq!(d.bus, join(vec![reg(0x22, &[0xC3]), cmd(0x20), vec![LineOp::AwaitReady]]));
    assert!(unchanged(&d));
}

#[test]
fn full_trigger_uses_operand_f7() {
    let mut d = blank();
    d.update_full();
    assert_eq!(d.bus, join(vec![reg(0x22, &[0xF7]), cmd(0x20), vec![LineOp::AwaitReady]]));
}

#[test]
fn partial_trigger_uses_operand_ff() {
    let mut d = blank();
    d.update_part();
    assert_eq!(d.bus, join(vec![reg(0x22, &[0xFF]), cmd(0x20), vec![LineOp::AwaitReady]]));
}

#[test]
fn set_ram_area_writes_both_windows() {
    let mut d = blank();
    d.set_ram_area(1, 2, 10, 0, 14, 0);
    assert_eq!(d.bus, join(vec![reg(0x44, &[1, 2]), reg(0x45, &[10, 0, 14, 0])]));
    assert!(unchanged(&d));
}

#[test]
fn set_ram_pointer_writes_both_pointers() {
    let mut d = blank();
    d.set_ram_pointer(1, 16, 0);
    assert_eq!(d.bus, join(vec![reg(0x4E, &[1]), reg(0x4F, &[16, 0])]));
}

#[test]
fn entry_mode_0_counts_both_down() {
    let mut d = blank();
    d.set_ram_data_entry_mode(0);
    assert_eq!(
        d.bus,
        join(vec![
            reg(0x11, &[0]),
            reg(0x44, &[31, 0]),
            reg(0x45, &[121, 0, 0, 0]),
            reg(0x4E, &[31]),
            reg(0x4F, &[121, 0]),
        ])
    );
}

#[test]
fn entry_mode_1_counts_columns_up() {
    let mut d = blank();
    d.set_ram_data_entry_mode(1);
    assert_eq!(
        d.bus,
        join(vec![
            reg(0x11, &[1]),
            reg(0x44, &[0, 31]),
            reg(0x45, &[121, 0, 0, 0]),
            reg(0x4E, &[0]),
            reg(0x4F, &[121, 0]),
        ])
    );
}

#[test]
fn entry_mode_2_counts_rows_up() {
    let mut d = blank();
    d.set_ram_data_entry_mode(2);
    assert_eq!(
        d.bus,
        join(vec![
            reg(0x11, &[2]),
            reg(0x44, &[31, 0]),
            reg(0x45, &[0, 0, 121, 0]),
            reg(0x4E, &[31]),
            reg(0x4F, &[0, 0]),
        ])
    );
}

#[test]
fn entry_mode_3_counts_both_up() {
    let mut d = blank();
    d.set_ram_data_entry_mode(3);
    assert_eq!(
        d.bus,
        join(vec![
            reg(0x11, &[3]),
            reg(0x44, &[0, 31]),
            reg(0x45, &[0, 0, 121, 0]),
            reg(0x4E, &[0]),
            reg(0x4F, &[0, 0]),
        ])
    );
}

#[test]
fn entry_mode_above_3_is_taken_as_3() {
    let mut a = blank();
    a.set_ram_data_entry_mode(3);
    let mut b = blank();
    b.set_ram_data_entry_mode(4);
    assert_eq!(a.bus, b.bus);
    let mut c = blank();
    c.set_ram_data_entry_mode(0xFF);
    assert_eq!(a.bus, c.bus);
}

fn shared_setup(mode: u8) -> Vec<LineOp> {
    let mut after = blank();
    after.set_ram_data_entry_mode(mode);
    join(vec![
        reg(0x74, &[0x54]),
        reg(0x7E, &[0x3B]),
        reg(0x01, &[0xF9, 0x00, 0x00]),
        reg(0x11, &[0x01]),
        reg(0x44, &[0x00, 0x0F]),
        reg(0x45, &[0xF9, 0x00, 0x00, 0x00]),
        reg(0x3C, &[0x03]),
        reg(0x2C, &[0x50]),
        reg(0x03, &[0x15]),
        reg(0x04, &[0x41, 0xA8, 0x32]),
        reg(0x3A, &[0x2C]),
        reg(0x3B, &[0x0B]),
        reg(0x4E, &[0x00]),
        reg(0x4F, &[0xF9, 0x00]),
        after.bus,
    ])
}

#[test]
fn init_display_writes_the_shared_registers() {
    let mut d = blank();
    d.init_display(3);
    assert_eq!(d.bus, shared_setup(3));
    assert_eq!(d.bus.len(), 4 * (2 * 14 + 10));
    let mut e = blank();
    e.init_display(1);
    assert_eq!(e.bus, shared_setup(1));
    assert!(unchanged(&d));
}

#[test]
fn init_full_loads_the_full_waveform() {
    let mut d = blank();
    d.init_full(3);
    assert_eq!(
        d.bus,
        join(vec![
            shared_setup(3),
            reg(0x32, &EPD_LUT_DEFAULT_FULL),
            reg(0x22, &[0xC0]),
            cmd(0x20),
            vec![LineOp::AwaitReady],
        ])
    );
}

#[test]
fn init_part_tightens_vcom_and_loads_the_partial_waveform() {
    let mut d = blank();
    d.init_part(3);
    assert_eq!(
        d.bus,
        join(vec![
            shared_setup(3),
            reg(0x2C, &[0x26]),
            reg(0x32, &EPD_LUT_DEFAULT_PART),
            reg(0x22, &[0xC0]),
            cmd(0x20),
            vec![LineOp::AwaitReady],
        ])
    );
}

#[test]
fn waveform_tables() {
    assert_eq!(EPD_LUT_SIZE, 100);
    assert_eq!(EPD_LUT_DEFAULT_FULL.len(), 100);
    assert_eq!(EPD_LUT_DEFAULT_PART.len(), 100);
    assert_eq!(&EPD_LUT_DEFAULT_FULL[..3], &[0xA0, 0x90, 0x50]);
    assert_eq!(&EPD_LUT_DEFAULT_FULL[10..13], &[0x50, 0x90, 0xA0]);
    assert_eq!(&EPD_LUT_DEFAULT_FULL[50..62], &[0x0F, 0x0F, 0, 0, 0, 0x0F, 0x0F, 0, 0, 0x03, 0x0F, 0x0F]);
    assert_eq!(EPD_LUT_DEFAULT_FULL.iter().map(|b| *b as u32).sum::<u32>(), 0xA0 * 4 + 0x90 * 4 + 0x50 * 4 + 0x0F * 6 + 3);
    assert_eq!(EPD_LUT_DEFAULT_PART[0], 0x40);
    assert_eq!(EPD_LUT_DEFAULT_PART[10], 0x80);
    assert_eq!(EPD_LUT_DEFAULT_PART[20], 0x40);
    assert_eq!(EPD_LUT_DEFAULT_PART[30], 0x80);
    assert_eq!(EPD_LUT_DEFAULT_PART[50], 0x0A);
    assert_eq!(EPD_LUT_DEFAULT_PART.iter().map(|b| *b as u32).sum::<u32>(), 0x40 * 2 + 0x80 * 2 + 0x0A);
}
