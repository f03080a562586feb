use nes_emu::frame::Frame;
use nes_emu::palette::{system_color, SYSTEM_PALLETE};
use nes_emu::ppu::NesPPU;
use nes_emu::render::{bg_pallete, render, render_name_table, sprite_palette, Rect};
use nes_emu::rom::Mirroring;

/// A pattern bank whose tile 1 has the colour values 1, 2, 3, 0, 0, 0, 0, 1
/// in its first row and 3 in the last pixel of its last row, and whose tile
/// 2 is all of value 2.
fn pattern_bank() -> Vec<u8> {
    let mut chr = vec![0u8; 0x2000];
    chr[16] = 0b1010_0001;
    chr[16 + 8] = 0b0110_0000;
    chr[16 + 7] = 0b0000_0001;
    chr[16 + 15] = 0b0000_0001;
    for row in 0..8 {
        chr[32 + 8 + row] = 0xFF;
    }
    chr
}

fn ppu(mirroring: Mirroring) -> NesPPU {
    let mut ppu = NesPPU::new(pattern_bank(), mirroring);
    for i in 0..32 {
        ppu.palette_table[i] = i as u8 + 0x20;
    }
    ppu
}

fn colour(ppu: &NesPPU, entry: usize) -> (u8, u8, u8) {
    SYSTEM_PALLETE[(ppu.palette_table[entry] % 64) as usize]
}

#[test]
fn test_system_palette() {
    assert_eq!(SYSTEM_PALLETE.len(), 64);
    assert_eq!(system_color(0x00), (0x80, 0x80, 0x80));
    assert_eq!(system_color(0x0D), (0x00, 0x00, 0x00));
    assert_eq!(system_color(0x20), (0xFF, 0xFF, 0xFF));
    assert_eq!(system_color(0x3F), (0x11, 0x11, 0x11));
    // Only the low six bits of a colour number count.
    assert_eq!(system_color(0x40), system_color(0x00));
    assert_eq!(system_color(0xFF), system_color(0x3F));
}

#[test]
fn test_frame() {
    let mut frame = Frame::new();
    assert_eq!(frame.data.len(), 256 * 240 * 3);
    assert!(frame.data.iter().all(|b| *b == 0));
    frame.set_pixel(1, 2, (10, 20, 30));
    assert_eq!(frame.data[(2 * 256 + 1) * 3..(2 * 256 + 1) * 3 + 3], [10, 20, 30]);
    assert_eq!(frame.get_pixel(1, 2), (10, 20, 30));
    assert_eq!(frame.get_pixel(2, 1), (0, 0, 0));
    frame.set_pixel(255, 239, (1, 2, 3));
    assert_eq!(frame.data[256 * 240 * 3 - 3..], [1, 2, 3]);
    // Pixels outside the frame are dropped.
    let before = frame.data.clone();
    frame.set_pixel(256, 0, (9, 9, 9));
    frame.set_pixel(0, 240, (9, 9, 9));
    frame.set_pixel(usize::MAX, usize::MAX, (9, 9, 9));
    assert_eq!(frame.data, before);
}

#[test]
fn test_background_tile() {
    let mut ppu = ppu(Mirroring::Horizontal);
    ppu.vram[0] = 1;
    // The top left quarter of the first attribute square uses palette 1.
    ppu.vram[0x3C0] = 0b0000_0001;
    let mut frame = Frame::new();
    render(&ppu, &mut frame);
    assert_eq!(frame.get_pixel(0, 0), colour(&ppu, 4 + 1));
    assert_eq!(frame.get_pixel(1, 0), colour(&ppu, 4 + 2));
    assert_eq!(frame.get_pixel(2, 0), colour(&ppu, 4 + 3));
    assert_eq!(frame.get_pixel(3, 0), colour(&ppu, 0));
    assert_eq!(frame.get_pixel(7, 0), colour(&ppu, 4 + 1));
    assert_eq!(frame.get_pixel(7, 7), colour(&ppu, 4 + 3));
    assert_eq!(frame.get_pixel(0, 1), colour(&ppu, 0));
    // The other tiles are tile 0, which is empty: the backdrop.
    assert_eq!(frame.get_pixel(8, 0), colour(&ppu, 0));
    assert_eq!(frame.get_pixel(255, 239), colour(&ppu, 0));
}

#[test]
fn test_background_attribute_quarters() {
    let mut ppu = ppu(Mirroring::Horizontal);
    // Tile 2 in each quarter of the first attribute square.
    ppu.vram[0] = 2;
    ppu.vram[2] = 2;
    ppu.vram[2 * 32] = 2;
    ppu.vram[2 * 32 + 2] = 2;
    ppu.vram[0x3C0] = 0b11_10_01_00;
    let mut frame = Frame::new();
    render(&ppu, &mut frame);
    assert_eq!(frame.get_pixel(0, 0), colour(&ppu, 0 * 4 + 2));
    assert_eq!(frame.get_pixel(16, 0), colour(&ppu, 1 * 4 + 2));
    assert_eq!(frame.get_pixel(0, 16), colour(&ppu, 2 * 4 + 2));
    assert_eq!(frame.get_pixel(16, 16), colour(&ppu, 3 * 4 + 2));
    assert_eq!(
        bg_pallete(&ppu, 0, 2, 2, 0),
        [
            ppu.palette_table[0],
            ppu.palette_table[13],
            ppu.palette_table[14],
            ppu.palette_table[15]
        ]
    );
}

#[test]
fn test_background_pattern_table_select() {
    let mut chr = pattern_bank();
    // Tile 1 of the upper table is all of value 1.
    for row in 0..8 {
        chr[0x1000 + 16 + row] = 0xFF;
    }
    let mut ppu = NesPPU::new(chr, Mirroring::Horizontal);
    for i in 0..32 {
        ppu.palette_table[i] = i as u8;
    }
    ppu.vram[0] = 1;
    ppu.write_to_ctrl(0b0001_0000);
    let mut frame = Frame::new();
    render(&ppu, &mut frame);
    assert_eq!(frame.get_pixel(3, 3), SYSTEM_PALLETE[1]);
}

#[test]
fn test_horizontal_scroll_within_table() {
    let mut ppu = ppu(Mirroring::Vertical);
    ppu.vram[1] = 1;
    ppu.scroll.scroll_x = 8;
    let mut frame = Frame::new();
    render(&ppu, &mut frame);
    // The tile in column 1 is seen at the left edge.
    assert_eq!(frame.get_pixel(0, 0), colour(&ppu, 1));
    assert_eq!(frame.get_pixel(1, 0), colour(&ppu, 2));
    ppu.scroll.scroll_x = 3;
    let mut frame = Frame::new();
    render(&ppu, &mut frame);
    assert_eq!(frame.get_pixel(5, 0), colour(&ppu, 1));
    assert_eq!(frame.get_pixel(6, 0), colour(&ppu, 2));
}

#[test]
fn test_horizontal_scroll_into_the_next_table() {
    let mut ppu = ppu(Mirroring::Vertical);
    // With vertical mirroring the table to the right is the second bank.
    ppu.vram[0x400] = 1;
    ppu.vram[0x400 + 31] = 2;
    ppu.scroll.scroll_x = 16;
    let mut frame = Frame::new();
    render(&ppu, &mut frame);
    assert_eq!(frame.get_pixel(240, 0), colour(&ppu, 1));
    assert_eq!(frame.get_pixel(241, 0), colour(&ppu, 2));
    assert_eq!(frame.get_pixel(239, 0), colour(&ppu, 0));
    // The last column of the second table is not reached.
    assert_eq!(frame.get_pixel(255, 0), colour(&ppu, 0));
    // From the second table the first is to the right.
    ppu.write_to_ctrl(0b01);
    ppu.vram[1] = 2;
    let mut frame = Frame::new();
    render(&ppu, &mut frame);
    assert_eq!(frame.get_pixel(232, 0), colour(&ppu, 2));
    assert_eq!(frame.get_pixel(248, 0), colour(&ppu, 2));
    assert_eq!(frame.get_pixel(240, 0), colour(&ppu, 0));
    assert_eq!(frame.get_pixel(0, 0), colour(&ppu, 0));
}

#[test]
fn test_horizontal_scroll_with_horizontal_mirroring_repeats_the_table() {
    let mut ppu = ppu(Mirroring::Horizontal);
    ppu.vram[0] = 1;
    ppu.scroll.scroll_x = 16;
    let mut frame = Frame::new();
    render(&ppu, &mut frame);
    assert_eq!(frame.get_pixel(240, 0), colour(&ppu, 1));
}

#[test]
fn test_vertical_scroll() {
    let mut ppu = ppu(Mirroring::Horizontal);
    // With horizontal mirroring the table below is the second bank.
    ppu.vram[32] = 1;
    ppu.vram[0x400] = 2;
    ppu.scroll.scroll_y = 8;
    let mut frame = Frame::new();
    render(&ppu, &mut frame);
    assert_eq!(frame.get_pixel(0, 0), colour(&ppu, 1));
    assert_eq!(frame.get_pixel(1, 0), colour(&ppu, 2));
    assert_eq!(frame.get_pixel(0, 232), colour(&ppu, 2));
    assert_eq!(frame.get_pixel(0, 239), colour(&ppu, 2));
    assert_eq!(frame.get_pixel(0, 231), colour(&ppu, 0));
}

#[test]
fn test_vertical_scroll_past_the_rows_leaves_the_frame() {
    let mut ppu = ppu(Mirroring::Horizontal);
    ppu.scroll.scroll_y = 250;
    let mut frame = Frame::new();
    frame.set_pixel(0, 235, (1, 2, 3));
    frame.set_pixel(0, 229, (1, 2, 3));
    render(&ppu, &mut frame);
    // The rows from 230 on would come from behind the table below.
    assert_eq!(frame.get_pixel(0, 235), (1, 2, 3));
    assert_eq!(frame.get_pixel(0, 229), colour(&ppu, 0));
    assert_eq!(frame.get_pixel(0, 0), colour(&ppu, 0));
}

#[test]
fn test_render_name_table_clips_and_shifts() {
    let mut ppu = ppu(Mirroring::Horizontal);
    ppu.vram[0x400 + 33] = 2;
    let mut frame = Frame::new();
    render_name_table(&ppu, &mut frame, 0x400, Rect::new(10, 9, 14, 12), -5, 100);
    for y in 0..240 {
        for x in 0..256 {
            let expected = if (5..9).contains(&x) && (109..112).contains(&y) {
                colour(&ppu, 2)
            } else {
                (0, 0, 0)
            };
            assert_eq!(frame.get_pixel(x, y), expected, "{} {}", x, y);
        }
    }
    // What is moved out of the frame is dropped.
    let mut frame = Frame::new();
    render_name_table(&ppu, &mut frame, 0, Rect::new(0, 0, 256, 240), 256, 0);
    assert!(frame.data.iter().all(|b| *b == 0));
    render_name_table(&ppu, &mut frame, 0, Rect::new(0, 0, 256, 240), 0, -240);
    assert!(frame.data.iter().all(|b| *b == 0));
}

fn place_sprite(ppu: &mut NesPPU, i: usize, x: u8, y: u8, tile: u8, attr: u8) {
    ppu.oam_data[4 * i] = y;
    ppu.oam_data[4 * i + 1] = tile;
    ppu.oam_data[4 * i + 2] = attr;
    ppu.oam_data[4 * i + 3] = x;
}

/// Moves the sprites that are not placed out of sight: tile 0 is empty, so
/// they are transparent anyway.
#[test]
fn test_sprite() {
    let mut ppu = ppu(Mirroring::Horizontal);
    place_sprite(&mut ppu, 5, 100, 50, 1, 0b01);
    let mut frame = Frame::new();
    render(&ppu, &mut frame);
    let entry = |value: usize| 0x10 + 1 * 4 + value;
    assert_eq!(frame.get_pixel(100, 50), colour(&ppu, entry(1)));
    assert_eq!(frame.get_pixel(101, 50), colour(&ppu, entry(2)));
    assert_eq!(frame.get_pixel(102, 50), colour(&ppu, entry(3)));
    assert_eq!(frame.get_pixel(107, 50), colour(&ppu, entry(1)));
    assert_eq!(frame.get_pixel(107, 57), colour(&ppu, entry(3)));
    // Where the sprite is transparent the background shows.
    assert_eq!(frame.get_pixel(103, 50), colour(&ppu, 0));
    assert_eq!(frame.get_pixel(100, 51), colour(&ppu, 0));
    assert_eq!(
        sprite_palette(&ppu, 50, 1),
        [0, ppu.palette_table[0x15], ppu.palette_table[0x16], ppu.palette_table[0x17]]
    );
}

#[test]
fn test_sprite_flipped() {
    let entry = |value: usize| 0x10 + value;
    // From left to right.
    let mut ppu = ppu(Mirroring::Horizontal);
    place_sprite(&mut ppu, 0, 100, 50, 1, 0b0100_0000);
    let mut frame = Frame::new();
    render(&ppu, &mut frame);
    assert_eq!(frame.get_pixel(107, 50), colour(&ppu, entry(1)));
    assert_eq!(frame.get_pixel(106, 50), colour(&ppu, entry(2)));
    assert_eq!(frame.get_pixel(105, 50), colour(&ppu, entry(3)));
    assert_eq!(frame.get_pixel(100, 50), colour(&ppu, entry(1)));
    assert_eq!(frame.get_pixel(100, 57), colour(&ppu, entry(3)));
    assert_eq!(frame.get_pixel(107, 57), colour(&ppu, 0));
    // Upside down.
    place_sprite(&mut ppu, 0, 100, 50, 1, 0b1000_0000);
    let mut frame = Frame::new();
    render(&ppu, &mut frame);
    assert_eq!(frame.get_pixel(100, 57), colour(&ppu, entry(1)));
    assert_eq!(frame.get_pixel(101, 57), colour(&ppu, entry(2)));
    assert_eq!(frame.get_pixel(107, 50), colour(&ppu, entry(3)));
    assert_eq!(frame.get_pixel(100, 50), colour(&ppu, 0));
    // Both.
    place_sprite(&mut ppu, 0, 100, 50, 1, 0b1100_0000);
    let mut frame = Frame::new();
    render(&ppu, &mut frame);
    assert_eq!(frame.get_pixel(107, 57), colour(&ppu, entry(1)));
    assert_eq!(frame.get_pixel(106, 57), colour(&ppu, entry(2)));
    assert_eq!(frame.get_pixel(100, 50), colour(&ppu, entry(3)));
}

#[test]
fn test_lower_sprite_lies_over_higher() {
    let mut ppu = ppu(Mirroring::Horizontal);
    // Sprite 3 is all of value 2 in palette 2; sprite 7 the same in palette
    // 3, four pixels to the right.
    place_sprite(&mut ppu, 3, 100, 50, 2, 0b10);
    place_sprite(&mut ppu, 7, 104, 50, 2, 0b11);
    let mut frame = Frame::new();
    render(&ppu, &mut frame);
    assert_eq!(frame.get_pixel(100, 50), colour(&ppu, 0x10 + 2 * 4 + 2));
    assert_eq!(frame.get_pixel(104, 50), colour(&ppu, 0x10 + 2 * 4 + 2));
    assert_eq!(frame.get_pixel(107, 57), colour(&ppu, 0x10 + 2 * 4 + 2));
    assert_eq!(frame.get_pixel(108, 50), colour(&ppu, 0x10 + 3 * 4 + 2));
    assert_eq!(frame.get_pixel(111, 57), colour(&ppu, 0x10 + 3 * 4 + 2));
    assert_eq!(frame.get_pixel(112, 50), colour(&ppu, 0));
    // A transparent pixel of the lower sprite lets the higher one show.
    place_sprite(&mut ppu, 3, 104, 50, 1, 0b10);
    let mut frame = Frame::new();
    render(&ppu, &mut frame);
    assert_eq!(frame.get_pixel(104, 50), colour(&ppu, 0x10 + 2 * 4 + 1));
    assert_eq!(frame.get_pixel(107, 50), colour(&ppu, 0x10 + 3 * 4 + 2));
}

#[test]
fn test_sprite_over_background_and_at_the_edges() {
    let mut ppu = ppu(Mirroring::Horizontal);
    ppu.vram[0] = 2;
    place_sprite(&mut ppu, 0, 0, 0, 1, 0);
    // Partly outside the frame.
    place_sprite(&mut ppu, 1, 252, 236, 2, 0);
    let mut frame = Frame::new();
    render(&ppu, &mut frame);
    assert_eq!(frame.get_pixel(0, 0), colour(&ppu, 0x11));
    // Transparent: the background's tile shows.
    assert_eq!(frame.get_pixel(3, 0), colour(&ppu, 2));
    assert_eq!(frame.get_pixel(255, 239), colour(&ppu, 0x12));
    assert_eq!(frame.get_pixel(252, 236), colour(&ppu, 0x12));
    assert_eq!(frame.get_pixel(251, 236), colour(&ppu, 0));
}

#[test]
fn test_sprite_pattern_table_select() {
    let mut chr = pattern_bank();
    for row in 0..8 {
        chr[0x1000 + 16 + row] = 0xFF;
        chr[0x1000 + 16 + 8 + row] = 0xFF;
    }
    let mut ppu = NesPPU::new(chr, Mirroring::Horizontal);
    for i in 0..32 {
        ppu.palette_table[i] = i as u8;
    }
    ppu.write_to_ctrl(0b0000_1000);
    place_sprite(&mut ppu, 0, 10, 10, 1, 0);
    let mut frame = Frame::new();
    render(&ppu, &mut frame);
    assert_eq!(frame.get_pixel(13, 13), SYSTEM_PALLETE[0x13]);
}

#[test]
fn test_palette_written_in_mid_frame() {
    let mut ppu = ppu(Mirroring::Horizontal);
    ppu.vram[0] = 2;
    ppu.vram[20 * 32] = 2;
    place_sprite(&mut ppu, 0, 100, 50, 2, 0);
    place_sprite(&mut ppu, 1, 100, 150, 2, 0);
    let old_background = colour(&ppu, 2);
    let old_sprite = colour(&ppu, 0x12);
    for _ in 0..100 * 341 {
        ppu.tick(1);
    }
    ppu.write_palette_table(0x3F02, 0x05);
    ppu.write_palette_table(0x3F12, 0x06);
    let mut frame = Frame::new();
    render(&ppu, &mut frame);
    // Rows before the write are drawn with the old palette.
    assert_eq!(frame.get_pixel(0, 0), old_background);
    assert_eq!(frame.get_pixel(100, 50), old_sprite);
    // Rows from the write on with the new one.
    assert_eq!(frame.get_pixel(0, 160), SYSTEM_PALLETE[0x05]);
    assert_eq!(frame.get_pixel(100, 150), SYSTEM_PALLETE[0x06]);
}

#[test]
fn test_short_pattern_bank_reads_as_zero() {
    let mut ppu = NesPPU::new(vec![], Mirroring::Horizontal);
    ppu.palette_table[0] = 0x21;
    ppu.vram[0] = 0xFF;
    place_sprite(&mut ppu, 0, 0, 0, 0xFF, 0);
    ppu.write_to_ctrl(0b0001_1000);
    let mut frame = Frame::new();
    render(&ppu, &mut frame);
    assert_eq!(frame.get_pixel(0, 0), SYSTEM_PALLETE[0x21]);
}
