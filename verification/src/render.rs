//! Drawing a frame from the picture processor's memory: the background,
//! scrolled over the four nametables, and the 64 sprites on top of it.

use vstd::prelude::*;
use crate::frame::{Frame, HEIGHT, WIDTH};
use crate::palette::{spec_system_color, system_color};
use crate::ppu::{spec_mirror_vram_addr, NesPPU, PpuState};

verus! {

/// A rectangle of pixels: the columns from `x1` up to but without `x2`, the
/// rows from `y1` up to but without `y2`.
pub struct Rect {
    pub x1: usize,
    pub y1: usize,
    pub x2: usize,
    pub y2: usize,
}

impl Rect {
    /// The rectangle between the two corners.
    pub fn new(x1: usize, y1: usize, x2: usize, y2: usize) -> (r: Self)
        ensures
            r.x1 == x1,
            r.y1 == y1,
            r.x2 == x2,
            r.y2 == y2,
    {
        Rect { x1: x1, y1: y1, x2: x2, y2: y2 }
    }

    /// Whether the pixel in column `x` of row `y` lies in the rectangle.
    pub open spec fn contains(&self, x: int, y: int) -> bool {
        self.x1 <= x < self.x2 && self.y1 <= y < self.y2
    }
}

/// Two to the power of `n`, for `n` from 0 to 7.
pub open spec fn pow2(n: int) -> int {
    if n <= 0 {
        1
    } else if n == 1 {
        2
    } else if n == 2 {
        4
    } else if n == 3 {
        8
    } else if n == 4 {
        16
    } else if n == 5 {
        32
    } else if n == 6 {
        64
    } else {
        128
    }
}

/// Bit `n` of the byte `b`, as 0 or 1.
pub open spec fn bit_of(b: u8, n: int) -> int {
    (b as int / pow2(n)) % 2
}

/// The colour value, 0 to 3, of the pixel in column `x` of row `y` of the
/// tile whose 16 bytes start at `base` in the pattern bank. The leftmost
/// pixel is the highest bit; the low bit of the value comes from the first
/// eight bytes, the high bit from the second eight.
pub open spec fn tile_pixel(s: PpuState, base: int, x: int, y: int) -> int {
    2 * bit_of(s.chr_byte(base + y + 8), 7 - x) + bit_of(s.chr_byte(base + y), 7 - x)
}

/// Which of the four background palettes the tile in column `col` of row
/// `row` is drawn with, by the attribute table of the nametable that starts
/// at `bank` in video memory. One attribute byte serves a square of four by
/// four tiles, two bits for each quarter of it.
pub open spec fn background_palette_index(s: PpuState, bank: int, col: int, row: int) -> int {
    let attr = s.vram[bank + 0x3C0 + (row / 4) * 8 + col / 4];
    let quarter = ((row % 4) / 2) * 2 + (col % 4) / 2;
    (attr as int / pow2(2 * quarter)) % 4
}

/// The four colour numbers of the background palette for a tile: the
/// backdrop and the palette's three colours.
pub open spec fn spec_bg_pallete(s: PpuState, bank: int, col: int, row: int, line: int) -> Seq<
    u8,
> {
    let start = 1 + background_palette_index(s, bank, col, row) * 4;
    let p = s.palette_at(line);
    seq![p[0], p[start], p[start + 1], p[start + 2]]
}

/// The four colour numbers of sprite palette `index` (0 to 3). The first
/// stands for a transparent pixel and is never drawn.
pub open spec fn spec_sprite_palette(s: PpuState, line: int, index: int) -> Seq<u8> {
    let start = 0x11 + index * 4;
    let p = s.palette_at(line);
    seq![0u8, p[start], p[start + 1], p[start + 2]]
}

/// The start of the pattern table that the background is drawn from.
pub open spec fn background_table(s: PpuState) -> int {
    if s.ctrl.background_table_high {
        0x1000
    } else {
        0
    }
}

/// The start of the pattern table that sprites are drawn from.
pub open spec fn sprite_table(s: PpuState) -> int {
    if s.ctrl.sprite_table_high {
        0x1000
    } else {
        0
    }
}

/// The colour of the pixel in column `px` of row `py` of the nametable that
/// starts at `bank` in video memory, drawn with the palette in force on
/// scanline `line`.
#[verifier::opaque]
pub open spec fn nametable_color(s: PpuState, bank: int, px: int, py: int, line: int) -> (
    u8,
    u8,
    u8,
) {
    let col = px / 8;
    let row = py / 8;
    let tile = s.vram[bank + row * 32 + col];
    let value = tile_pixel(s, background_table(s) + tile * 16, px % 8, py % 8);
    spec_system_color(spec_bg_pallete(s, bank, col, row, line)[value])
}

/// The logical nametable beside, below or across from table `table` (0 to
/// 3): the tables lie two by two and repeat in both directions.
pub open spec fn neighbour(table: int, right: bool, below: bool) -> int {
    let h = (table % 2 + (if right {
        1int
    } else {
        0int
    })) % 2;
    let v = (table / 2 + (if below {
        1int
    } else {
        0int
    })) % 2;
    v * 2 + h
}

/// Where logical nametable `table` starts in video memory, by the
/// cartridge's mirroring.
pub open spec fn table_bank(s: PpuState, table: int) -> int {
    spec_mirror_vram_addr(s.mirroring, (0x2000 + table * 0x400) as u16)
}

/// The colour of the background at the pixel in column `x` of row `y` of
/// the screen. The screen shows the plane of the four nametables from the
/// scroll offsets on, starting in the base nametable. Where the vertical
/// offset leads past the rows of the table below, nothing is drawn.
pub open spec fn background_pixel(s: PpuState, x: int, y: int) -> Option<(u8, u8, u8)> {
    let vx = x + s.scroll.scroll_x;
    let vy = y + s.scroll.scroll_y;
    let table = neighbour(s.ctrl.nametable_index(), vx >= WIDTH, vy >= HEIGHT);
    let px = vx % (WIDTH as int);
    let py = if vy >= HEIGHT {
        vy - HEIGHT
    } else {
        vy
    };
    if py >= HEIGHT {
        None
    } else {
        Some(nametable_color(s, table_bank(s, table), px, py, y))
    }
}

/// The colour of the screen's pixel in column `x` of row `y` after the part
/// of a nametable that lies in `view_port` is drawn, moved by `shift_x`
/// columns and `shift_y` rows, over the colour `before`.
pub open spec fn pass_color(
    s: PpuState,
    bank: int,
    view_port: Rect,
    shift_x: int,
    shift_y: int,
    x: int,
    y: int,
    before: (u8, u8, u8),
) -> (u8, u8, u8) {
    if view_port.contains(x - shift_x, y - shift_y) {
        nametable_color(s, bank, x - shift_x, y - shift_y, y)
    } else {
        before
    }
}

/// The four passes that draw the background: the part of the base
/// nametable from the scroll offsets on goes to the top left of the screen,
/// the parts of the tables beside, below and across from it fill the rest.
pub open spec fn four_passes(s: PpuState, x: int, y: int, before: (u8, u8, u8)) -> (u8, u8, u8) {
    let sx = s.scroll.scroll_x as int;
    let sy = s.scroll.scroll_y as int;
    let rows_below = if sy < HEIGHT {
        sy
    } else {
        HEIGHT as int
    };
    let table = s.ctrl.nametable_index();
    let first = pass_color(
        s,
        table_bank(s, table),
        Rect { x1: sx as usize, y1: sy as usize, x2: WIDTH, y2: HEIGHT },
        -sx,
        -sy,
        x,
        y,
        before,
    );
    let second = pass_color(
        s,
        table_bank(s, neighbour(table, true, false)),
        Rect { x1: 0, y1: sy as usize, x2: sx as usize, y2: HEIGHT },
        WIDTH - sx,
        -sy,
        x,
        y,
        first,
    );
    let third = pass_color(
        s,
        table_bank(s, neighbour(table, false, true)),
        Rect { x1: sx as usize, y1: 0, x2: WIDTH, y2: rows_below as usize },
        -sx,
        HEIGHT - sy,
        x,
        y,
        second,
    );
    pass_color(
        s,
        table_bank(s, neighbour(table, true, true)),
        Rect { x1: 0, y1: 0, x2: sx as usize, y2: rows_below as usize },
        WIDTH - sx,
        HEIGHT - sy,
        x,
        y,
        third,
    )
}

/// The four passes give each pixel of the screen the colour of the
/// background there, and leave it alone where there is none.
pub proof fn lemma_four_passes(s: PpuState, x: int, y: int, before: (u8, u8, u8))
    requires
        Frame::contains(x, y),
    ensures
        four_passes(s, x, y, before) == (match background_pixel(s, x, y) {
            Some(colour) => colour,
            None => before,
        }),
{
    let vx = x + s.scroll.scroll_x;
    let vy = y + s.scroll.scroll_y;
    if vx < WIDTH {
        assert(vx % (WIDTH as int) == vx);
    } else {
        assert(vx % (WIDTH as int) == vx - WIDTH);
    }
    let table = s.ctrl.nametable_index();
    assert(neighbour(table, false, false) == table);
}

/// The colour that sprite `i` (0 to 63) gives the pixel in column `x` of
/// row `y` of the screen, if the sprite covers the pixel and is not
/// transparent there. A sprite is eight by eight pixels; bit 6 of its
/// attribute byte flips it from left to right, bit 7 upside down, and the
/// low two bits choose its palette.
pub open spec fn sprite_pixel(s: PpuState, i: int, x: int, y: int) -> Option<(u8, u8, u8)> {
    let tile_y = s.oam[4 * i] as int;
    let tile = s.oam[4 * i + 1] as int;
    let attr = s.oam[4 * i + 2] as int;
    let tile_x = s.oam[4 * i + 3] as int;
    let dx = x - tile_x;
    let dy = y - tile_y;
    if 0 <= dx < 8 && 0 <= dy < 8 {
        let from_x = if (attr / 64) % 2 == 1 {
            7 - dx
        } else {
            dx
        };
        let from_y = if attr / 128 == 1 {
            7 - dy
        } else {
            dy
        };
        let value = tile_pixel(s, sprite_table(s) + tile * 16, from_x, from_y);
        if value == 0 {
            None
        } else {
            Some(spec_system_color(spec_sprite_palette(s, y, attr % 4)[value]))
        }
    } else {
        None
    }
}

/// The colour of a pixel once the sprites from `i` on are drawn over the
/// colour `below`: that of the first of them that is not transparent there.
/// So a sprite with a lower number lies over one with a higher number.
pub open spec fn composite(s: PpuState, i: int, x: int, y: int, below: (u8, u8, u8)) -> (
    u8,
    u8,
    u8,
)
    decreases 64 - i,
{
    if i >= 64 {
        below
    } else {
        match sprite_pixel(s, i, x, y) {
            Some(colour) => colour,
            None => composite(s, i + 1, x, y, below),
        }
    }
}

/// The colour of the screen's pixel in column `x` of row `y`: the
/// background, or `before` where none is drawn, with the sprites over it.
pub open spec fn screen_pixel(s: PpuState, x: int, y: int, before: (u8, u8, u8)) -> (u8, u8, u8) {
    composite(
        s,
        0,
        x,
        y,
        match background_pixel(s, x, y) {
            Some(colour) => colour,
            None => before,
        },
    )
}

/// Two to the power of `n`.
fn power_of_two(n: usize) -> (r: u8)
    requires
        n < 8,
    ensures
        r == pow2(n as int),
{
    match n {
        0 => 1,
        1 => 2,
        2 => 4,
        3 => 8,
        4 => 16,
        5 => 32,
        6 => 64,
        _ => 128,
    }
}

/// The colour value of one pixel of a tile.
fn tile_value(ppu: &NesPPU, base: usize, x: usize, y: usize) -> (r: u8)
    requires
        base <= 0x2000,
        x < 8,
        y < 8,
    ensures
        r == tile_pixel(ppu@, base as int, x as int, y as int),
        r <= 3,
{
    let upper = ppu.chr_byte(base + y);
    let lower = ppu.chr_byte(base + y + 8);
    let divisor = power_of_two(7 - x);
    2 * ((lower / divisor) % 2) + (upper / divisor) % 2
}

/// The four colour numbers of the background palette for the tile in column
/// `tile_colum` of row `tile_row` of the nametable that starts at `bank`,
/// as they stand on scanline `line`.
pub fn bg_pallete(ppu: &NesPPU, bank: usize, tile_colum: usize, tile_row: usize, line: usize) -> (r:
    [u8; 4])
    requires
        ppu.wf(),
        bank == 0 || bank == 0x400,
        tile_colum < 32,
        tile_row < 30,
    ensures
        r@ == spec_bg_pallete(ppu@, bank as int, tile_colum as int, tile_row as int, line as int),
{
    let attr_table_idx = tile_row / 4 * 8 + tile_colum / 4;
    let attr_byte = ppu.vram[bank + 0x3C0 + attr_table_idx];
    let quarter = ((tile_row % 4) / 2) * 2 + (tile_colum % 4) / 2;
    let pallet_idx = (attr_byte / power_of_two(2 * quarter)) % 4;
    let pallete_start: usize = 1 + (pallet_idx as usize) * 4;
    let p = ppu.read_palette_table(line);
    let r = [p[0], p[pallete_start], p[pallete_start + 1], p[pallete_start + 2]];
    proof {
        assert(r@ =~= spec_bg_pallete(
            ppu@,
            bank as int,
            tile_colum as int,
            tile_row as int,
            line as int,
        ));
    }
    r
}

/// The four colour numbers of sprite palette `pallete_idx`, as they stand
/// on scanline `line`.
pub fn sprite_palette(ppu: &NesPPU, line: usize, pallete_idx: u8) -> (r: [u8; 4])
    requires
        ppu.wf(),
        pallete_idx < 4,
    ensures
        r@ == spec_sprite_palette(ppu@, line as int, pallete_idx as int),
{
    let start = 0x11 + (pallete_idx * 4) as usize;
    let p = ppu.read_palette_table(line);
    let r = [0, p[start], p[start + 1], p[start + 2]];
    proof {
        assert(r@ =~= spec_sprite_palette(ppu@, line as int, pallete_idx as int));
    }
    r
}

/// The colour of one pixel of a nametable.
fn nametable_pixel(ppu: &NesPPU, bank: usize, px: usize, py: usize, line: usize) -> (r: (
    u8,
    u8,
    u8,
))
    requires
        ppu.wf(),
        bank == 0 || bank == 0x400,
        px < WIDTH,
        py < HEIGHT,
    ensures
        r == nametable_color(ppu@, bank as int, px as int, py as int, line as int),
{
    proof {
        reveal(nametable_color);
    }
    let tile_colum = px / 8;
    let tile_row = py / 8;
    let tile_idx = ppu.vram[bank + tile_row * 32 + tile_colum] as usize;
    let table = ppu.ctrl.background_pattern_addr() as usize;
    let value = tile_value(ppu, table + tile_idx * 16, px % 8, py % 8);
    let palette = bg_pallete(ppu, bank, tile_colum, tile_row, line);
    system_color(palette[value as usize])
}

/// Draws the part of one nametable that lies in `view_port`, moved by
/// `shift_x` columns and `shift_y` rows. What is moved out of the frame is
/// dropped; the rest of the frame is left as it was.
pub fn render_name_table(
    ppu: &NesPPU,
    frame: &mut Frame,
    bank: usize,
    view_port: Rect,
    shift_x: isize,
    shift_y: isize,
)
    requires
        ppu.wf(),
        old(frame).wf(),
        bank == 0 || bank == 0x400,
        view_port.x2 <= WIDTH,
        view_port.y2 <= HEIGHT,
        -(WIDTH as int) <= shift_x <= WIDTH,
        -(WIDTH as int) <= shift_y <= WIDTH,
    ensures
        final(frame).wf(),
        forall|x: int, y: int|
            Frame::contains(x, y) ==> #[trigger] final(frame).pixel(x, y) == pass_color(
                ppu@,
                bank as int,
                view_port,
                shift_x as int,
                shift_y as int,
                x,
                y,
                old(frame).pixel(x, y),
            ),
{
    let mut py = view_port.y1;
    while py < view_port.y2
        invariant
            ppu.wf(),
            frame.wf(),
            bank == 0 || bank == 0x400,
            view_port.x2 <= WIDTH,
            view_port.y2 <= HEIGHT,
            -(WIDTH as int) <= shift_x <= WIDTH,
            -(WIDTH as int) <= shift_y <= WIDTH,
            view_port.y1 <= py,
            forall|x: int, y: int|
                Frame::contains(x, y) ==> #[trigger] frame.pixel(x, y) == (if view_port.contains(
                    x - shift_x,
                    y - shift_y,
                ) && y - shift_y < py {
                    nametable_color(ppu@, bank as int, x - shift_x, y - shift_y, y)
                } else {
                    old(frame).pixel(x, y)
                }),
        decreases view_port.y2 - py,
    {
        let ty = py as isize + shift_y;
        let mut px = view_port.x1;
        while px < view_port.x2
            invariant
                ppu.wf(),
                frame.wf(),
                bank == 0 || bank == 0x400,
                view_port.x2 <= WIDTH,
                view_port.y2 <= HEIGHT,
                -(WIDTH as int) <= shift_x <= WIDTH,
                -(WIDTH as int) <= shift_y <= WIDTH,
                view_port.y1 <= py < view_port.y2,
                view_port.x1 <= px,
                ty == py + shift_y,
                forall|x: int, y: int|
                    Frame::contains(x, y) ==> #[trigger] frame.pixel(x, y) == (if view_port.contains(
                        x - shift_x,
                        y - shift_y,
                    ) && (y - shift_y < py || (y - shift_y == py && x - shift_x < px)) {
                        nametable_color(ppu@, bank as int, x - shift_x, y - shift_y, y)
                    } else {
                        old(frame).pixel(x, y)
                    }),
            decreases view_port.x2 - px,
        {
            let tx = px as isize + shift_x;
            if 0 <= tx && tx < WIDTH as isize && 0 <= ty && ty < HEIGHT as isize {
                let rgb = nametable_pixel(ppu, bank, px, py, ty as usize);
                frame.set_pixel(tx as usize, ty as usize, rgb);
            }
            px = px + 1;
        }
        py = py + 1;
    }
}

/// Draws sprite `i` over the frame: each of its pixels that is not
/// transparent takes the sprite's colour.
fn render_sprite(ppu: &NesPPU, frame: &mut Frame, i: usize)
    requires
        ppu.wf(),
        old(frame).wf(),
        i < 64,
    ensures
        final(frame).wf(),
        forall|x: int, y: int|
            Frame::contains(x, y) ==> #[trigger] final(frame).pixel(x, y) == (match sprite_pixel(
                ppu@,
                i as int,
                x,
                y,
            ) {
                Some(colour) => colour,
                None => old(frame).pixel(x, y),
            }),
{
    let tile_y = ppu.oam_data[4 * i] as usize;
    let tile_idx = ppu.oam_data[4 * i + 1] as usize;
    let attr = ppu.oam_data[4 * i + 2];
    let tile_x = ppu.oam_data[4 * i + 3] as usize;
    let flip_vertical = attr / 128 == 1;
    let flip_horizontal = (attr / 64) % 2 == 1;
    let pallette_idx = attr % 4;
    let bank = ppu.ctrl.sprite_pattern_addr() as usize;
    let mut dy: usize = 0;
    while dy < 8
        invariant
            ppu.wf(),
            frame.wf(),
            i < 64,
            dy <= 8,
            tile_y == ppu@.oam[4 * i],
            tile_idx == ppu@.oam[4 * i + 1],
            attr == ppu@.oam[4 * i + 2],
            tile_x == ppu@.oam[4 * i + 3],
            flip_vertical == (attr / 128 == 1),
            flip_horizontal == ((attr / 64) % 2 == 1),
            pallette_idx == attr % 4,
            bank == sprite_table(ppu@),
            forall|x: int, y: int|
                Frame::contains(x, y) ==> #[trigger] frame.pixel(x, y) == (if y - tile_y < dy {
                    match sprite_pixel(ppu@, i as int, x, y) {
                        Some(colour) => colour,
                        None => old(frame).pixel(x, y),
                    }
                } else {
                    old(frame).pixel(x, y)
                }),
        decreases 8 - dy,
    {
        let y = tile_y + dy;
        let from_y = if flip_vertical {
            7 - dy
        } else {
            dy
        };
        let mut dx: usize = 0;
        while dx < 8
            invariant
                ppu.wf(),
                frame.wf(),
                i < 64,
                dy < 8,
                dx <= 8,
                y == tile_y + dy,
                from_y == (if flip_vertical {
                    7 - dy
                } else {
                    dy as int
                }),
                tile_y == ppu@.oam[4 * i],
                tile_idx == ppu@.oam[4 * i + 1],
                attr == ppu@.oam[4 * i + 2],
                tile_x == ppu@.oam[4 * i + 3],
                flip_vertical == (attr / 128 == 1),
                flip_horizontal == ((attr / 64) % 2 == 1),
                pallette_idx == attr % 4,
                bank == sprite_table(ppu@),
                forall|x: int, py: int|
                    Frame::contains(x, py) ==> #[trigger] frame.pixel(x, py) == (if py - tile_y < dy
                        || (py - tile_y == dy && x - tile_x < dx) {
                        match sprite_pixel(ppu@, i as int, x, py) {
                            Some(colour) => colour,
                            None => old(frame).pixel(x, py),
                        }
                    } else {
                        old(frame).pixel(x, py)
                    }),
            decreases 8 - dx,
        {
            let x = tile_x + dx;
            let from_x = if flip_horizontal {
                7 - dx
            } else {
                dx
            };
            let value = tile_value(ppu, bank + tile_idx * 16, from_x, from_y);
            if value != 0 && x < WIDTH && y < HEIGHT {
                let palette = sprite_palette(ppu, y, pallette_idx);
                frame.set_pixel(x, y, system_color(palette[value as usize]));
            }
            dx = dx + 1;
        }
        dy = dy + 1;
    }
}

/// Where logical nametable `table` (0 to 3) starts in video memory.
fn bank_of(ppu: &NesPPU, table: usize) -> (r: usize)
    requires
        table < 4,
    ensures
        r == table_bank(ppu@, table as int),
        r == 0 || r == 0x400,
{
    let addr: u16 = match table {
        0 => 0x2000,
        1 => 0x2400,
        2 => 0x2800,
        _ => 0x2C00,
    };
    (ppu.mirror_vram_addr(addr) as usize / 0x400) * 0x400
}

/// Draws the background over the frame, scrolled over the four nametables.
fn render_background(ppu: &NesPPU, frame: &mut Frame)
    requires
        ppu.wf(),
        old(frame).wf(),
    ensures
        final(frame).wf(),
        forall|x: int, y: int|
            Frame::contains(x, y) ==> #[trigger] final(frame).pixel(x, y) == (match background_pixel(
                ppu@,
                x,
                y,
            ) {
                Some(colour) => colour,
                None => old(frame).pixel(x, y),
            }),
{
    let scroll_x = ppu.scroll.scroll_x as usize;
    let scroll_y = ppu.scroll.scroll_y as usize;
    let base = ((ppu.ctrl.nametable_addr() - 0x2000) / 0x400) as usize;
    let right = if base % 2 == 0 {
        base + 1
    } else {
        base - 1
    };
    let below = (base + 2) % 4;
    let across = (right + 2) % 4;
    let rows_below = if scroll_y < HEIGHT {
        scroll_y
    } else {
        HEIGHT
    };
    let left_shift = -(scroll_x as isize);
    let right_shift = (WIDTH - scroll_x) as isize;
    let up_shift = -(scroll_y as isize);
    let down_shift = HEIGHT as isize - scroll_y as isize;

    let bank_base = bank_of(ppu, base);
    let bank_right = bank_of(ppu, right);
    let bank_below = bank_of(ppu, below);
    let bank_across = bank_of(ppu, across);
    proof {
        let table = ppu@.ctrl.nametable_index();
        assert(base == table);
        assert(right == neighbour(table, true, false));
        assert(below == neighbour(table, false, true));
        assert(across == neighbour(table, true, true));
    }
    render_name_table(
        ppu,
        frame,
        bank_base,
        Rect::new(scroll_x, scroll_y, WIDTH, HEIGHT),
        left_shift,
        up_shift,
    );
    render_name_table(
        ppu,
        frame,
        bank_right,
        Rect::new(0, scroll_y, scroll_x, HEIGHT),
        right_shift,
        up_shift,
    );
    render_name_table(
        ppu,
        frame,
        bank_below,
        Rect::new(scroll_x, 0, WIDTH, rows_below),
        left_shift,
        down_shift,
    );
    render_name_table(
        ppu,
        frame,
        bank_across,
        Rect::new(0, 0, scroll_x, rows_below),
        right_shift,
        down_shift,
    );
    proof {
        assert forall|x: int, y: int| Frame::contains(x, y) implies #[trigger] frame.pixel(x, y)
            == (match background_pixel(ppu@, x, y) {
            Some(colour) => colour,
            None => old(frame).pixel(x, y),
        }) by {
            lemma_four_passes(ppu@, x, y, old(frame).pixel(x, y));
            assert(frame.pixel(x, y) == four_passes(ppu@, x, y, old(frame).pixel(x, y)));
        }
    }
}

/// Draws the picture processor's picture into the frame: the background,
/// then the sprites from the last to the first, so that a sprite with a
/// lower number lies over one with a higher number.
pub fn render(ppu: &NesPPU, frame: &mut Frame)
    requires
        ppu.wf(),
        old(frame).wf(),
    ensures
        final(frame).wf(),
        forall|x: int, y: int|
            Frame::contains(x, y) ==> #[trigger] final(frame).pixel(x, y) == screen_pixel(
                ppu@,
                x,
                y,
                old(frame).pixel(x, y),
            ),
{
    render_background(ppu, frame);
    let mut i: usize = 64;
    while i > 0
        invariant
            ppu.wf(),
            frame.wf(),
            i <= 64,
            forall|x: int, y: int|
                Frame::contains(x, y) ==> #[trigger] frame.pixel(x, y) == composite(
                    ppu@,
                    i as int,
                    x,
                    y,
                    match background_pixel(ppu@, x, y) {
                        Some(colour) => colour,
                        None => old(frame).pixel(x, y),
                    },
                ),
        decreases i,
    {
        i = i - 1;
        render_sprite(ppu, frame, i);
    }
}

} // verus!
