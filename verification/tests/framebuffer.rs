use paper_display::epd::PaperDisplay;
use paper_display::panel::{EPD_BUFFER_SIZE, EPD_HEIGHT, EPD_ROW_BYTES, EPD_WIDTH};

fn blank(fill: u8) -> PaperDisplay {
    PaperDisplay { buffer: [fill; EPD_BUFFER_SIZE], bus: Vec::new() }
}

fn bit(d: &PaperDisplay, x: usize, y: usize) -> u8 {
    (d.buffer[y * EPD_ROW_BYTES + x / 8] >> (7 - x % 8)) & 1
}

#[test]
fn geometry_constants() {
    assert_eq!(EPD_WIDTH, 250);
    assert_eq!(EPD_HEIGHT, 122);
    assert_eq!(EPD_ROW_BYTES, 32);
    assert_eq!(EPD_BUFFER_SIZE, 3904);
    assert_eq!(EPD_ROW_BYTES, (EPD_WIDTH + 7) / 8);
    assert_eq!(EPD_BUFFER_SIZE, EPD_ROW_BYTES * EPD_HEIGHT);
}

#[test]
fn draw_pixel_black_clears_the_bit() {
    let mut d = blank(0xFF);
    d.draw_pixel(0, 0, true);
    assert_eq!(d.buffer[0], 0x7F);
    assert_eq!(bit(&d, 0, 0), 0);
    d.draw_pixel(7, 0, true);
    assert_eq!(d.buffer[0], 0x7E);
    d.draw_pixel(8, 0, true);
    assert_eq!(d.buffer[1], 0x7F);
    d.draw_pixel(10, 3, true);
    assert_eq!(d.buffer[3 * 32 + 1], 0xDF);
    assert!(d.bus.is_empty());
}

#[test]
fn draw_pixel_white_sets_the_bit() {
    let mut d = blank(0x00);
    d.draw_pixel(0, 0, false);
    assert_eq!(d.buffer[0], 0x80);
    assert_eq!(bit(&d, 0, 0), 1);
    d.draw_pixel(249, 121, false);
    assert_eq!(d.buffer[121 * 32 + 31], 0x40);
    assert_eq!(d.buffer[3903], 0x40);
    assert_eq!(bit(&d, 249, 121), 1);
}

#[test]
fn draw_pixel_then_read_every_pixel() {
    let mut d = blank(0xFF);
    for y in 0..EPD_HEIGHT {
        for x in 0..EPD_WIDTH {
            d.draw_pixel(x as u16, y as u16, true);
            assert_eq!(bit(&d, x, y), 0);
        }
    }
    for y in 0..EPD_HEIGHT {
        for x in 0..EPD_WIDTH {
            d.draw_pixel(x as u16, y as u16, false);
            assert_eq!(bit(&d, x, y), 1);
        }
    }
    assert!(d.buffer.iter().all(|b| *b == 0xFF));
}

#[test]
fn draw_pixel_touches_one_bit_only() {
    let mut d = blank(0xFF);
    d.draw_pixel(100, 50, true);
    for i in 0..EPD_BUFFER_SIZE {
        if i == 50 * 32 + 12 {
            assert_eq!(d.buffer[i], 0xF7);
        } else {
            assert_eq!(d.buffer[i], 0xFF);
        }
    }
}

#[test]
fn last_columns_of_a_row_stay_in_that_row() {
    let mut d = blank(0xFF);
    d.draw_pixel(248, 5, true);
    assert_eq!(d.buffer[5 * 32 + 31], 0x7F);
    assert_eq!(d.buffer[6 * 32], 0xFF);
    assert_eq!(bit(&d, 0, 6), 1);
}

#[test]
fn draw_pixel_outside_is_ignored() {
    let mut d = blank(0xA5);
    let before = d.buffer;
    d.draw_pixel(250, 0, true);
    d.draw_pixel(0, 122, true);
    d.draw_pixel(250, 122, false);
    d.draw_pixel(255, 10, true);
    d.draw_pixel(10, 255, false);
    d.draw_pixel(u16::MAX, u16::MAX, true);
    d.draw_pixel(256, 0, true);
    assert_eq!(d.buffer, before);
    assert!(d.bus.is_empty());
}

#[test]
fn fill_screen_white_and_black() {
    let mut d = blank(0x12);
    d.fill_screen(0xFF);
    assert!(d.buffer.iter().all(|b| *b == 0xFF));
    d.fill_screen(0x00);
    assert!(d.buffer.iter().all(|b| *b == 0x00));
    d.fill_screen(0x5A);
    assert!(d.buffer.iter().all(|b| *b == 0x5A));
    assert_eq!(d.buffer.len(), 3904);
    assert!(d.bus.is_empty());
}
