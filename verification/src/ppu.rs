//! The pixel unit: a state machine that advances by one dot per call and
//! draws one 160x144 picture in 154 lines of 456 dots.

use vstd::prelude::*;
use crate::cpu::bit_is_set;
use crate::machine::{
    wrap8, GameBoy, Machine, OamEntry, PpuFifoElement, PpuState, FRAMEBUFFER_SIZE, WHITE,
};

verus! {

/// The sources of the display-status interrupt.
#[derive(Clone, Copy, Debug, PartialEq, Eq)]
pub enum LcdInterruptMasks {
    Hblank,
    Vblank,
    Oam,
    Lyc,
}

impl LcdInterruptMasks {
    /// Number of the source's enable bit in the status register.
    pub open spec fn spec_bit(self) -> u8 {
        match self {
            LcdInterruptMasks::Hblank => 3,
            LcdInterruptMasks::Vblank => 4,
            LcdInterruptMasks::Oam => 5,
            LcdInterruptMasks::Lyc => 6,
        }
    }

    /// Number of the source's enable bit in the status register.
    #[verifier::when_used_as_spec(spec_bit)]
    pub fn bit(self) -> (b: u8)
        ensures
            b == self.spec_bit(),
            b < 8,
    {
        match self {
            LcdInterruptMasks::Hblank => 3,
            LcdInterruptMasks::Vblank => 4,
            LcdInterruptMasks::Oam => 5,
            LcdInterruptMasks::Lyc => 6,
        }
    }
}

/// Index of the display control register.
pub const LCDC: usize = 0x40;

/// Index of the display status register.
pub const STAT: usize = 0x41;

/// Index of the vertical scroll register.
pub const SCY: usize = 0x42;

/// Index of the horizontal scroll register.
pub const SCX: usize = 0x43;

/// Index of the line register.
pub const LY: usize = 0x44;

/// Index of the line compare register.
pub const LYC: usize = 0x45;

/// Index of the background palette; the two sprite palettes follow it.
pub const BGP: usize = 0x47;

/// Index of the window's first line.
pub const WY: usize = 0x4A;

/// Index of the window's first column, plus 7.
pub const WX: usize = 0x4B;

/// The gray pixel for `color`.
pub fn shade_of(color: u8) -> (pixel: u32)
    requires
        color <= 3,
    ensures
        pixel == shade(color),
{
    ((3 - color) as u32) * 78 * 0x010101
}

/// Tests bit `n` of `value`.
pub fn test_bit(value: u8, n: u8) -> (set: bool)
    requires
        n < 8,
    ensures
        set == bit_is_set(value, n),
{
    value & (1u8 << n) != 0
}

/// The request register with the requests in `mask` raised.
pub open spec fn with_request(m: Machine, mask: u8) -> Machine {
    m.with_io(0x0F, m.io[0x0F] | mask)
}

/// The machine with the display-status interrupt requested if `source` is
/// enabled in the status register.
pub open spec fn with_status_request(m: Machine, source: LcdInterruptMasks) -> Machine {
    if bit_is_set(m.io[STAT as int], source.spec_bit()) {
        with_request(m, 0x02)
    } else {
        m
    }
}

/// A blank white picture.
pub open spec fn blank_picture() -> Seq<u32> {
    Seq::new(FRAMEBUFFER_SIZE as nat, |i: int| WHITE)
}

/// While the display is off, the unit rests at the start of line 0 in mode
/// 0 and the picture is blank white.
pub open spec fn lcd_off_reset(m: Machine) -> Machine {
    if bit_is_set(m.io[LCDC as int], 7) {
        m
    } else {
        Machine {
            ppu: PpuState {
                dots_into_curr_line: 0,
                dots_into_curr_mode: 0,
                mode: 0,
                ly: 0,
                lx: 0,
                window_triggered: false,
                blanked: true,
                ..m.ppu
            },
            io: m.io.update(STAT as int, (m.io[STAT as int] & 0x78) | 0x87),
            framebuffer: blank_picture(),
            ..m
        }
    }
}

/// Height of the sprites in lines: 8, or 16 with control bit 2 set.
pub open spec fn sprite_height(io: Seq<u8>) -> u8 {
    if bit_is_set(io[LCDC as int], 2) {
        16
    } else {
        8
    }
}

/// Entry `k` of the sprite table.
pub open spec fn sprite_entry(oam: Seq<u8>, k: int) -> OamEntry {
    OamEntry { posy: oam[4 * k], posx: oam[4 * k + 1], tile: oam[4 * k + 2], attr: oam[4 * k + 3] }
}

/// Whether a sprite at vertical position `posy` (16 above the screen's
/// top) and of the given height covers line `ly`.
pub open spec fn sprite_covers(posy: u8, ly: u8, height: u8) -> bool {
    posy <= ly + 16 < posy + height
}

/// The sprites selected for line `ly` among the first `k` entries of the
/// table: those that cover the line, in table order, ten at most.
pub open spec fn scan_sprites(oam: Seq<u8>, ly: u8, height: u8, k: nat) -> Seq<OamEntry>
    decreases k,
{
    if k == 0 {
        Seq::empty()
    } else {
        let before = scan_sprites(oam, ly, height, (k - 1) as nat);
        let entry = sprite_entry(oam, k - 1);
        if before.len() < 10 && sprite_covers(entry.posy, ly, height) {
            before.push(entry)
        } else {
            before
        }
    }
}

/// One dot of the sprite scan: on its first dot the scan interrupt is
/// requested if enabled and the line's sprites are selected; with its 80th
/// the unit goes on to pixel transfer.
pub open spec fn oam_scan_step(m: Machine) -> Machine {
    let m1 = if m.ppu.dots_into_curr_mode == 1 {
        Machine {
            sprites: scan_sprites(m.oam, m.ppu.ly, sprite_height(m.io), 40),
            ..with_status_request(m, LcdInterruptMasks::Oam)
        }
    } else {
        m
    };
    if m.ppu.dots_into_curr_mode == 80 {
        Machine { ppu: PpuState { dots_into_curr_mode: 0, mode: 3, ..m1.ppu }, ..m1 }
    } else {
        m1
    }
}

/// One dot of horizontal blank: with the line's 456th dot the next line
/// begins, with the sprite scan or, after line 143, with vertical blank
/// and its interrupt requests.
pub open spec fn hblank_step(m: Machine) -> Machine {
    if m.ppu.dots_into_curr_line == 456 {
        let next = PpuState {
            dots_into_curr_line: 0,
            dots_into_curr_mode: 0,
            lx: 0,
            ly: (m.ppu.ly + 1) as u8,
            tilemap_y: wrap8(m.ppu.tilemap_y + 1),
            mode: if m.ppu.ly + 1 == 144 {
                1
            } else {
                2
            },
            ..m.ppu
        };
        if m.ppu.ly + 1 == 144 {
            with_request(
                with_status_request(Machine { ppu: next, ..m }, LcdInterruptMasks::Vblank),
                0x01,
            )
        } else {
            Machine { ppu: next, ..m }
        }
    } else {
        m
    }
}

/// One dot of vertical blank: the line counter follows the dots through
/// lines 144 to 153 of 456 dots each; with the last dot of line 153 the
/// next frame begins with line 0.
pub open spec fn vblank_step(m: Machine) -> Machine {
    if m.ppu.dots_into_curr_mode == 4560 {
        Machine {
            ppu: PpuState {
                dots_into_curr_line: 0,
                dots_into_curr_mode: 0,
                mode: 2,
                ly: 0,
                lx: 0,
                window_triggered: false,
                ..m.ppu
            },
            ..m
        }
    } else {
        Machine {
            ppu: PpuState { ly: (144 + (m.ppu.dots_into_curr_mode - 1) / 456) as u8, ..m.ppu },
            ..m
        }
    }
}

/// The machine with both dot counters advanced: they count the dots of
/// the mode and of the line, the current one included.
pub open spec fn dot_tick(m: Machine) -> Machine {
    Machine {
        ppu: PpuState {
            dots_into_curr_mode: (m.ppu.dots_into_curr_mode + 1) as u16,
            dots_into_curr_line: (m.ppu.dots_into_curr_line + 1) as u16,
            ..m.ppu
        },
        ..m
    }
}

/// The status register for the unit's state: the upper five bits kept,
/// the mode in the lower two, bit 2 set while the line equals its compare
/// register.
pub open spec fn status_byte(m: Machine) -> u8 {
    if m.ppu.ly == m.io[LYC as int] {
        ((m.io[STAT as int] & 0xF8) | m.ppu.mode) | 0x04
    } else {
        (m.io[STAT as int] & 0xF8) | m.ppu.mode
    }
}

/// The registers after a dot: status and line are shown, and the
/// coincidence interrupt is requested if enabled when the line, changed
/// during this dot from `previous_line`, now equals its compare register.
pub open spec fn status_update(m: Machine, previous_line: u8) -> Machine {
    let shown = Machine {
        io: m.io.update(STAT as int, status_byte(m)).update(LY as int, m.ppu.ly),
        ..m
    };
    if m.ppu.ly == m.io[LYC as int] && previous_line != m.ppu.ly {
        with_status_request(shown, LcdInterruptMasks::Lyc)
    } else {
        shown
    }
}

/// Dots that the first tile fetch of a line takes before a pixel leaves
/// the queue.
pub const FIRST_FETCH_DOTS: u8 = 12;

/// The machine as pixel transfer begins a line: column 0, the fetch
/// origin and the discard count from the scroll registers, an empty queue,
/// the first fetch ahead, the window not yet started.
pub open spec fn init_line(m: Machine) -> Machine {
    if m.ppu.dots_into_curr_mode == 1 {
        Machine {
            ppu: PpuState {
                lx: 0,
                tilemap_x: m.io[SCX as int],
                tilemap_y: wrap8(m.io[SCY as int] + m.ppu.ly),
                pixels_to_discard: m.io[SCX as int] % 8,
                fetch_delay: FIRST_FETCH_DOTS,
                window_is_rendering: false,
                ..m.ppu
            },
            fifo: Seq::empty(),
            ..m
        }
    } else {
        m
    }
}

/// Whether the window is switched on and its first line was reached in
/// this frame.
pub open spec fn window_due(m: Machine) -> bool {
    bit_is_set(m.io[LCDC as int], 5) && (m.ppu.window_triggered || m.ppu.ly >= m.io[WY as int])
}

/// Whether the window starts at the current column.
pub open spec fn window_starts(m: Machine) -> bool {
    window_due(m) && m.io[WX as int] <= m.ppu.lx + 7 && !m.ppu.window_is_rendering
}

/// The window's start: from the column where it is due, the rest of the
/// line is fetched from the window's map, beginning at the window's left
/// edge; what the queue held is dropped. That the window's first line was
/// reached is remembered for the rest of the frame.
pub open spec fn activate_window(m: Machine) -> Machine {
    if window_starts(m) {
        Machine {
            ppu: PpuState {
                window_triggered: true,
                window_is_rendering: true,
                pixels_to_discard: if m.io[WX as int] < 8 {
                    (7 - m.io[WX as int]) as u8
                } else {
                    m.ppu.pixels_to_discard
                },
                tilemap_x: 0,
                tilemap_y: wrap8(m.ppu.ly - m.io[WY as int]),
                ..m.ppu
            },
            fifo: Seq::empty(),
            ..m
        }
    } else {
        Machine { ppu: PpuState { window_triggered: window_due(m), ..m.ppu }, ..m }
    }
}

/// Whether the second tile map is in use: by control bit 6 for the window,
/// by control bit 3 for the background.
pub open spec fn second_map_selected(m: Machine) -> bool {
    if m.ppu.window_is_rendering {
        bit_is_set(m.io[LCDC as int], 6)
    } else {
        bit_is_set(m.io[LCDC as int], 3)
    }
}

/// Offset in video RAM of the tile-map entry at the fetch cursor.
pub open spec fn tile_map_offset(m: Machine) -> int {
    0x1800 + (if second_map_selected(m) {
        0x400int
    } else {
        0int
    }) + m.ppu.tilemap_x / 8 + 32 * (m.ppu.tilemap_y / 8)
}

/// Offset in video RAM of the row of tile `tile` at the fetch cursor: with
/// control bit 4 clear, tiles 0 to 127 lie in the third block.
pub open spec fn tile_data_offset(m: Machine, tile: u8) -> int {
    let offset = tile * 16 + (m.ppu.tilemap_y % 8) * 2;
    if offset < 0x800 && !bit_is_set(m.io[LCDC as int], 4) {
        offset + 0x1000
    } else {
        offset
    }
}

/// The color index that bit `bit` of a tile row's two bytes encodes.
pub open spec fn pixel_color(low: u8, high: u8, bit: u8) -> u8 {
    if bit_is_set(low, bit) {
        if bit_is_set(high, bit) {
            3
        } else {
            1
        }
    } else {
        if bit_is_set(high, bit) {
            2
        } else {
            0
        }
    }
}

/// Pixel `x` (from the left) of a background tile row.
pub open spec fn background_pixel(low: u8, high: u8, x: int) -> PpuFifoElement {
    PpuFifoElement { color: pixel_color(low, high, (7 - x) as u8), source: 0 }
}

/// The eight pixels of a background tile row, left to right.
pub open spec fn tile_row(low: u8, high: u8) -> Seq<PpuFifoElement> {
    Seq::new(8, |x: int| background_pixel(low, high, x))
}

/// The tile fetch: while the queue holds eight pixels or fewer, the row at
/// the fetch cursor is appended and the cursor moves one tile on.
pub open spec fn fetch_tile(m: Machine) -> Machine {
    if m.fifo.len() <= 8 {
        let data = tile_data_offset(m, m.vram[tile_map_offset(m)]);
        Machine {
            fifo: m.fifo + tile_row(m.vram[data], m.vram[data + 1]),
            ppu: PpuState { tilemap_x: wrap8(m.ppu.tilemap_x + 8), ..m.ppu },
            ..m
        }
    } else {
        m
    }
}

/// Whether sprite `s` begins at column `lx`; one that begins left of the
/// screen counts at column 0.
pub open spec fn sprite_hits(s: OamEntry, lx: u8) -> bool {
    s.posx == wrap8(lx + 8) || (s.posx < 8 && lx == 0)
}

/// The row of sprite `s` that line `ly` shows, counted in the tile data:
/// from the bottom where the sprite is flipped vertically.
pub open spec fn sprite_line(s: OamEntry, ly: u8, height: u8) -> int {
    let row = if height == 16 {
        wrap8(ly + 16 - s.posy) % 16
    } else {
        wrap8(ly + 16 - s.posy) % 8
    };
    if bit_is_set(s.attr, 6) {
        height - 1 - row
    } else {
        row as int
    }
}

/// Offset in video RAM of the row of sprite `s` that line `ly` shows.
pub open spec fn sprite_data_offset(s: OamEntry, ly: u8, height: u8) -> int {
    s.tile * 16 + sprite_line(s, ly, height) * 2
}

/// The pixel of a sprite row that lies `position` places right of the
/// sprite's left edge: mirrored where the sprite is flipped horizontally,
/// and tagged with the sprite's palette.
pub open spec fn sprite_pixel(s: OamEntry, low: u8, high: u8, position: int) -> PpuFifoElement {
    PpuFifoElement {
        color: pixel_color(
            low,
            high,
            if bit_is_set(s.attr, 5) {
                position as u8
            } else {
                (7 - position) as u8
            },
        ),
        source: if bit_is_set(s.attr, 4) {
            2
        } else {
            1
        },
    }
}

/// The place in the queue of the sprite pixel at `position`; negative
/// where it lies left of the screen.
pub open spec fn sprite_slot(s: OamEntry, position: int) -> int {
    if s.posx < 8 {
        position - (8 - s.posx)
    } else {
        position
    }
}

/// Whether a sprite pixel takes the place of queue entry `under`: it is
/// not transparent, no earlier sprite has the place, and a sprite behind
/// the background shows only through background color 0.
pub open spec fn sprite_shows(s: OamEntry, pixel: PpuFifoElement, under: PpuFifoElement) -> bool {
    pixel.color != 0 && under.source == 0 && !(bit_is_set(s.attr, 7) && under.color != 0)
}

/// The queue after the sprite pixel at `position` was mixed in.
pub open spec fn mix_pixel(
    fifo: Seq<PpuFifoElement>,
    s: OamEntry,
    low: u8,
    high: u8,
    position: int,
) -> Seq<PpuFifoElement> {
    let slot = sprite_slot(s, position);
    let pixel = sprite_pixel(s, low, high, position);
    if slot >= 0 && sprite_shows(s, pixel, fifo[slot]) {
        fifo.update(slot, pixel)
    } else {
        fifo
    }
}

/// The queue after the first `n` pixels of a sprite row were mixed in.
pub open spec fn mix_row(fifo: Seq<PpuFifoElement>, s: OamEntry, low: u8, high: u8, n: nat) -> Seq<
    PpuFifoElement,
>
    decreases n,
{
    if n == 0 {
        fifo
    } else {
        mix_pixel(mix_row(fifo, s, low, high, (n - 1) as nat), s, low, high, n - 1)
    }
}

/// The queue after sprite `s` was mixed in, if it begins at the current column.
pub open spec fn mix_sprite(m: Machine, fifo: Seq<PpuFifoElement>, s: OamEntry) -> Seq<
    PpuFifoElement,
> {
    if sprite_hits(s, m.ppu.lx) {
        let data = sprite_data_offset(s, m.ppu.ly, sprite_height(m.io));
        mix_row(fifo, s, m.vram[data], m.vram[data + 1], 8)
    } else {
        fifo
    }
}

/// The queue after the first `k` of the line's sprites were mixed in.
pub open spec fn mix_sprites_upto(m: Machine, fifo: Seq<PpuFifoElement>, k: nat) -> Seq<
    PpuFifoElement,
>
    decreases k,
{
    if k == 0 {
        fifo
    } else {
        mix_sprite(m, mix_sprites_upto(m, fifo, (k - 1) as nat), m.sprites[k - 1])
    }
}

/// Sprite mixing: with sprites switched on (control bit 1), each of the
/// line's sprites that begins at the current column is mixed into the
/// first eight places of the queue, in scan order.
pub open spec fn mix_sprites(m: Machine) -> Machine {
    if bit_is_set(m.io[LCDC as int], 1) {
        Machine { fifo: mix_sprites_upto(m, m.fifo, m.sprites.len()), ..m }
    } else {
        m
    }
}

/// The color that `palette` gives to color index `color`.
pub open spec fn palette_color(palette: u8, color: u8) -> u8 {
    if color == 0 {
        palette % 4
    } else if color == 1 {
        (palette / 4) % 4
    } else if color == 2 {
        (palette / 16) % 4
    } else {
        (palette / 64) % 4
    }
}

/// The gray pixel for `color` (0 to 3): color 0 is the lightest, and the
/// gray level fills the three color channels.
pub open spec fn shade(color: u8) -> u32 {
    ((3 - color) * 78 * 0x010101) as u32
}

/// The pixel drawn for queue entry `e`: through the palette of its source;
/// a fixed light gray while background display is off (control bit 0).
pub open spec fn pixel_value(m: Machine, e: PpuFifoElement) -> u32 {
    if !bit_is_set(m.io[LCDC as int], 7) {
        WHITE
    } else if !bit_is_set(m.io[LCDC as int], 0) {
        0xFFEAEAEA
    } else {
        shade(palette_color(m.io[BGP as int + e.source], e.color))
    }
}

/// The pixel step: one entry leaves the queue; it is dropped while pixels
/// are to be discarded, else drawn at the current column, which advances.
pub open spec fn output_pixel(m: Machine) -> Machine {
    let rest = m.fifo.subrange(1, m.fifo.len() as int);
    if m.ppu.pixels_to_discard > 0 {
        Machine {
            ppu: PpuState { pixels_to_discard: (m.ppu.pixels_to_discard - 1) as u8, ..m.ppu },
            fifo: rest,
            ..m
        }
    } else {
        Machine {
            framebuffer: m.framebuffer.update(
                m.ppu.lx + m.ppu.ly * 160,
                pixel_value(m, m.fifo[0]),
            ),
            ppu: PpuState { lx: (m.ppu.lx + 1) as u8, blanked: false, ..m.ppu },
            fifo: rest,
            ..m
        }
    }
}

/// The end of the line's pixels: after column 159 the queue is flushed,
/// the blank interrupt requested if enabled, and horizontal blank begins.
pub open spec fn finish_line(m: Machine) -> Machine {
    if m.ppu.lx == 160 {
        with_status_request(
            Machine {
                fifo: Seq::empty(),
                ppu: PpuState { dots_into_curr_mode: 0, mode: 0, ..m.ppu },
                ..m
            },
            LcdInterruptMasks::Hblank,
        )
    } else {
        m
    }
}

/// One dot of drawing: the window starts where it is due, the queue is
/// filled, sprites are mixed in, and a pixel leaves the queue.
pub open spec fn draw_dot(m: Machine) -> Machine {
    finish_line(output_pixel(mix_sprites(fetch_tile(activate_window(m)))))
}

/// One dot of pixel transfer: the line's first dots pass with the first
/// fetch, then each dot draws.
pub open spec fn pixel_transfer_step(m: Machine) -> Machine {
    let begun = init_line(m);
    if begun.ppu.fetch_delay > 0 {
        Machine {
            ppu: PpuState { fetch_delay: (begun.ppu.fetch_delay - 1) as u8, ..begun.ppu },
            ..begun
        }
    } else {
        draw_dot(begun)
    }
}

/// What the unit does in its current mode during one dot.
pub open spec fn mode_step(m: Machine) -> Machine {
    if m.ppu.mode == 2 {
        oam_scan_step(m)
    } else if m.ppu.mode == 3 {
        pixel_transfer_step(m)
    } else if m.ppu.mode == 0 {
        hblank_step(m)
    } else {
        vblank_step(m)
    }
}

/// One dot of the pixel unit.
pub open spec fn ppu_cycle(m: Machine) -> Machine {
    status_update(mode_step(dot_tick(lcd_off_reset(m))), m.ppu.ly)
}

/// The byte of a solid tile row for bit plane `plane` (0 or 1) of `color`:
/// all ones where the plane's bit of the color is set, else all zeros.
pub open spec fn solid_byte(color: u8, plane: u8) -> u8 {
    let set = if plane == 0 {
        color % 2 == 1
    } else {
        (color / 2) % 2 == 1
    };
    if set {
        0xFF
    } else {
        0x00
    }
}

/// Every bit of 0xFF is set and none of 0x00.
proof fn lemma_solid_bits(n: u8)
    by (bit_vector)
    ensures
        n < 8 ==> (0xFFu8 & (1u8 << n) != 0) && (0x00u8 & (1u8 << n) == 0),
{
}

/// Every pixel of a solid tile row has the tile's color.
pub proof fn lemma_solid_row(color: u8, x: int)
    requires
        color <= 3,
        0 <= x < 8,
    ensures
        tile_row(solid_byte(color, 0), solid_byte(color, 1))[x] == (PpuFifoElement {
            color,
            source: 0,
        }),
{
    let bit = (7 - x) as u8;
    lemma_solid_bits(bit);
    assert(bit_is_set(0xFF, bit) && !bit_is_set(0x00, bit));
    assert(tile_row(solid_byte(color, 0), solid_byte(color, 1))[x] == background_pixel(
        solid_byte(color, 0),
        solid_byte(color, 1),
        x,
    ));
}

/// The identity palette gives each color index itself.
pub proof fn lemma_identity_palette(color: u8)
    requires
        color <= 3,
    ensures
        palette_color(0xE4, color) == color,
{
}

/// A dot leaves the unit's dot counters in range for its mode.
pub proof fn lemma_ppu_cycle_timing(m: Machine)
    requires
        m.wf(),
    ensures
        ppu_cycle(m).ppu_timing(),
{
    let r = dot_tick(lcd_off_reset(m));
    if r.ppu.mode == 3 {
        let a = init_line(r);
        assert(a.ppu.lx < 160 && a.ppu.pixels_to_discard <= 7 && a.ppu.fetch_delay <= 12);
        assert(a.ppu.dots_into_curr_mode + a.pixel_budget() <= 187);
        if a.ppu.fetch_delay == 0 {
            let b = activate_window(a);
            let c = fetch_tile(b);
            let d = mix_sprites(c);
            let e = output_pixel(d);
            assert(b.pixel_budget() <= a.pixel_budget());
            assert(b.ppu.pixels_to_discard <= 7);
            assert(d.ppu == b.ppu.tilemap_x_moved(c.ppu.tilemap_x));
            assert(e.pixel_budget() == b.pixel_budget() - 1);
        }
    }
}

impl PpuState {
    /// The state with the fetch cursor at column `x`.
    pub open spec fn tilemap_x_moved(self, x: u8) -> PpuState {
        PpuState { tilemap_x: x, ..self }
    }
}

impl GameBoy {
    /// Requests the interrupts in `mask`.
    fn request_interrupt(&mut self, mask: u8)
        requires
            old(self)@.io.len() == 0x80,
        ensures
            final(self)@ == with_request(old(self)@, mask),
    {
        let requests = self.io[0x0F];
        self.io.set(0x0F, requests | mask);
    }

    /// Requests the display-status interrupt if `source` is enabled.
    fn request_status_interrupt(&mut self, source: LcdInterruptMasks)
        requires
            old(self)@.io.len() == 0x80,
        ensures
            final(self)@ == with_status_request(old(self)@, source),
    {
        if test_bit(self.io[STAT], source.bit()) {
            self.request_interrupt(0x02);
        }
    }

    /// Paints the whole picture white, unless it is already.
    fn blank_screen(&mut self)
        requires
            old(self)@.steady(),
        ensures
            final(self)@.steady(),
            final(self)@ == (Machine {
                ppu: PpuState { blanked: true, ..old(self)@.ppu },
                framebuffer: blank_picture(),
                ..old(self)@
            }),
    {
        if !self.ppu.blanked {
            let mut i: usize = 0;
            while i < FRAMEBUFFER_SIZE
                invariant
                    i <= FRAMEBUFFER_SIZE,
                    self.framebuffer@.len() == FRAMEBUFFER_SIZE,
                    forall|k: int| 0 <= k < i ==> self.framebuffer@[k] == WHITE,
                    old(self)@.steady(),
                    !old(self)@.ppu.blanked,
                    self@ == (Machine { framebuffer: self@.framebuffer, ..old(self)@ }),
                decreases FRAMEBUFFER_SIZE - i,
            {
                self.framebuffer.set(i, WHITE);
                i = i + 1;
            }
            self.ppu.blanked = true;
        }
        assert(self@.framebuffer =~= blank_picture());
    }

    /// Holds the unit at rest while the display is off.
    fn ppu_lcd_off_reset(&mut self)
        requires
            old(self)@.steady(),
        ensures
            final(self)@ == lcd_off_reset(old(self)@),
            final(self)@.steady(),
    {
        if !test_bit(self.io[LCDC], 7) {
            self.ppu.dots_into_curr_line = 0;
            self.ppu.dots_into_curr_mode = 0;
            self.ppu.mode = 0;
            self.ppu.ly = 0;
            self.ppu.lx = 0;
            self.ppu.window_triggered = false;
            let status = self.io[STAT];
            self.io.set(STAT, (status & 0x78) | 0x87);
            self.blank_screen();
        }
    }

    /// Selects the sprites of the current line.
    fn ppu_scan_sprites(&mut self)
        requires
            old(self)@.steady(),
        ensures
            final(self)@.steady(),
            final(self)@ == (Machine {
                sprites: scan_sprites(
                    old(self)@.oam,
                    old(self)@.ppu.ly,
                    sprite_height(old(self)@.io),
                    40,
                ),
                ..old(self)@
            }),
            final(self)@.sprites.len() <= 10,
    {
        let height: u8 = if test_bit(self.io[LCDC], 2) {
            16
        } else {
            8
        };
        let ly = self.ppu.ly;
        self.ppu_sprite_buffer.clear();
        let mut k: usize = 0;
        while k < 40
            invariant
                k <= 40,
                self@.oam.len() == 0xA0,
                height == sprite_height(self@.io),
                ly == self@.ppu.ly,
                self@.sprites == scan_sprites(self@.oam, ly, height, k as nat),
                self@.sprites.len() <= 10,
                old(self)@.steady(),
                self@ == (Machine { sprites: self@.sprites, ..old(self)@ }),
            decreases 40 - k,
        {
            let posy = self.oam[4 * k];
            if self.ppu_sprite_buffer.len() < 10 && (posy as u16) <= (ly as u16) + 16 && (ly as u16)
                + 16 < (posy as u16) + (height as u16) {
                self.ppu_sprite_buffer.push(
                    OamEntry {
                        posy,
                        posx: self.oam[4 * k + 1],
                        tile: self.oam[4 * k + 2],
                        attr: self.oam[4 * k + 3],
                    },
                );
            }
            k = k + 1;
        }
    }

    /// One dot of the sprite scan.
    fn ppu_oam_scan(&mut self)
        requires
            old(self)@.steady(),
            old(self)@.ppu.mode == 2,
        ensures
            final(self)@ == oam_scan_step(old(self)@),
            final(self)@.steady(),
    {
        let dots = self.ppu.dots_into_curr_mode;
        if dots == 1 {
            self.request_status_interrupt(LcdInterruptMasks::Oam);
            self.ppu_scan_sprites();
        }
        if dots == 80 {
            self.ppu.dots_into_curr_mode = 0;
            self.ppu.mode = 3;
        }
    }

    /// One dot of horizontal blank.
    fn ppu_hblank(&mut self)
        requires
            old(self)@.steady(),
            old(self)@.ppu.mode == 0,
        ensures
            final(self)@ == hblank_step(old(self)@),
            final(self)@.steady(),
    {
        if self.ppu.dots_into_curr_line == 456 {
            self.ppu.dots_into_curr_line = 0;
            self.ppu.dots_into_curr_mode = 0;
            self.ppu.lx = 0;
            self.ppu.ly = self.ppu.ly + 1;
            self.ppu.tilemap_y = self.ppu.tilemap_y.wrapping_add(1);
            if self.ppu.ly == 144 {
                self.ppu.mode = 1;
                self.request_status_interrupt(LcdInterruptMasks::Vblank);
                self.request_interrupt(0x01);
            } else {
                self.ppu.mode = 2;
            }
        }
    }

    /// One dot of vertical blank.
    fn ppu_vblank(&mut self)
        requires
            old(self)@.steady(),
            old(self)@.ppu.mode == 1,
            1 <= old(self)@.ppu.dots_into_curr_mode <= 4560,
        ensures
            final(self)@ == vblank_step(old(self)@),
            final(self)@.steady(),
    {
        if self.ppu.dots_into_curr_mode == 4560 {
            self.ppu.dots_into_curr_line = 0;
            self.ppu.dots_into_curr_mode = 0;
            self.ppu.mode = 2;
            self.ppu.ly = 0;
            self.ppu.lx = 0;
            self.ppu.window_triggered = false;
        } else {
            self.ppu.ly = 144 + ((self.ppu.dots_into_curr_mode - 1) / 456) as u8;
        }
    }

    /// Shows mode and line in the registers and requests the coincidence
    /// interrupt where it is due.
    fn ppu_update_status(&mut self, previous_line: u8)
        requires
            old(self)@.steady(),
        ensures
            final(self)@ == status_update(old(self)@, previous_line),
            final(self)@.steady(),
    {
        let coincidence = self.ppu.ly == self.io[LYC];
        let status = self.io[STAT];
        if coincidence {
            self.io.set(STAT, ((status & 0xF8) | self.ppu.mode) | 0x04);
        } else {
            self.io.set(STAT, (status & 0xF8) | self.ppu.mode);
        }
        self.io.set(LY, self.ppu.ly);
        if coincidence && previous_line != self.ppu.ly {
            self.request_status_interrupt(LcdInterruptMasks::Lyc);
        }
    }

    /// Prepares pixel transfer on its first dot.
    fn ppu_init_line(&mut self)
        requires
            old(self)@.steady(),
            old(self)@.ppu.mode == 3,
        ensures
            final(self)@ == init_line(old(self)@),
            final(self)@.steady(),
    {
        if self.ppu.dots_into_curr_mode == 1 {
            self.ppu.lx = 0;
            self.ppu.tilemap_x = self.io[SCX];
            self.ppu.tilemap_y = self.io[SCY].wrapping_add(self.ppu.ly);
            self.ppu.pixels_to_discard = self.io[SCX] % 8;
            self.ppu.fetch_delay = FIRST_FETCH_DOTS;
            self.ppu_fifo.clear();
            self.ppu.window_is_rendering = false;
        }
    }

    /// Starts the window where it is due.
    fn ppu_activate_window(&mut self)
        requires
            old(self)@.steady(),
        ensures
            final(self)@ == activate_window(old(self)@),
            final(self)@.steady(),
    {
        let due = test_bit(self.io[LCDC], 5) && (self.ppu.window_triggered || self.ppu.ly
            >= self.io[WY]);
        self.ppu.window_triggered = due;
        if due && (self.io[WX] as u16) <= (self.ppu.lx as u16) + 7
            && !self.ppu.window_is_rendering {
            self.ppu.window_is_rendering = true;
            self.ppu_fifo.clear();
            if self.io[WX] < 8 {
                self.ppu.pixels_to_discard = 7 - self.io[WX];
            }
            self.ppu.tilemap_x = 0;
            self.ppu.tilemap_y = self.ppu.ly.wrapping_sub(self.io[WY]);
        }
    }

    /// Decodes the color index at bit `bit` of a tile row.
    pub fn decode_pixel(low: u8, high: u8, bit: u8) -> (color: u8)
        requires
            bit < 8,
        ensures
            color == pixel_color(low, high, bit),
            color <= 3,
    {
        let mut color: u8 = 0;
        if test_bit(low, bit) {
            color = color + 1;
        }
        if test_bit(high, bit) {
            color = color + 2;
        }
        color
    }

    /// Fetches a tile row into the queue while the queue runs low.
    fn ppu_fetch_tile(&mut self)
        requires
            old(self)@.steady(),
        ensures
            final(self)@ == fetch_tile(old(self)@),
            final(self)@.steady(),
            8 <= final(self)@.fifo.len(),
    {
        if self.ppu_fifo.len() <= 8 {
            let mut map: usize = 0x1800;
            let second = if self.ppu.window_is_rendering {
                test_bit(self.io[LCDC], 6)
            } else {
                test_bit(self.io[LCDC], 3)
            };
            if second {
                map = map + 0x400;
            }
            map = map + (self.ppu.tilemap_x / 8) as usize + 32 * ((self.ppu.tilemap_y / 8) as usize);
            let tile = self.vram[map];
            let mut data: usize = (tile as usize) * 16 + ((self.ppu.tilemap_y % 8) as usize) * 2;
            if data < 0x800 && !test_bit(self.io[LCDC], 4) {
                data = data + 0x1000;
            }
            let low = self.vram[data];
            let high = self.vram[data + 1];
            let ghost before = self@;
            let mut x: u8 = 0;
            while x < 8
                invariant
                    x <= 8,
                    before.fifo.len() <= 8,
                    self@.fifo =~= before.fifo + tile_row(low, high).subrange(0, x as int),
                    self@ == (Machine { fifo: self@.fifo, ..before }),
                    before.steady(),
                decreases 8 - x,
            {
                let color = Self::decode_pixel(low, high, 7 - x);
                self.ppu_fifo.push_back(PpuFifoElement { color, source: 0 });
                x = x + 1;
            }
            assert(tile_row(low, high).subrange(0, 8) =~= tile_row(low, high));
            self.ppu.tilemap_x = self.ppu.tilemap_x.wrapping_add(8);
            assert forall|i: int| 0 <= i < self@.fifo.len() implies (#[trigger] self@.fifo[i]).valid() by {
                if i >= before.fifo.len() {
                    assert(self@.fifo[i] == tile_row(low, high)[i - before.fifo.len()]);
                }
            }
        }
    }

    /// Puts `pixel` in place `slot` of the queue.
    fn set_fifo(&mut self, slot: usize, pixel: PpuFifoElement)
        requires
            slot < old(self)@.fifo.len(),
        ensures
            final(self)@ == (Machine { fifo: old(self)@.fifo.update(slot as int, pixel), ..old(self)@ }),
    {
        let _ = self.ppu_fifo.remove(slot);
        self.ppu_fifo.insert(slot, pixel);
        assert(self@.fifo =~= old(self)@.fifo.update(slot as int, pixel));
    }

    /// Mixes the row of sprite `s` into the queue.
    fn mix_sprite_row(&mut self, s: OamEntry, low: u8, high: u8)
        requires
            old(self)@.steady(),
            8 <= old(self)@.fifo.len(),
        ensures
            final(self)@ == (Machine {
                fifo: mix_row(old(self)@.fifo, s, low, high, 8),
                ..old(self)@
            }),
            final(self)@.steady(),
            final(self)@.fifo.len() == old(self)@.fifo.len(),
    {
        let source: u8 = if test_bit(s.attr, 4) {
            2
        } else {
            1
        };
        let flipped = test_bit(s.attr, 5);
        let behind = test_bit(s.attr, 7);
        let mut position: u8 = 0;
        while position < 8
            invariant
                position <= 8,
                source == sprite_pixel(s, low, high, 0).source,
                flipped == bit_is_set(s.attr, 5),
                behind == bit_is_set(s.attr, 7),
                self@.fifo == mix_row(old(self)@.fifo, s, low, high, position as nat),
                self@.fifo.len() == old(self)@.fifo.len(),
                8 <= self@.fifo.len() <= 16,
                forall|i: int| 0 <= i < self@.fifo.len() ==> (#[trigger] self@.fifo[i]).valid(),
                old(self)@.steady(),
                self@ == (Machine { fifo: self@.fifo, ..old(self)@ }),
            decreases 8 - position,
        {
            let bit = if flipped {
                position
            } else {
                7 - position
            };
            let color = Self::decode_pixel(low, high, bit);
            let pixel = PpuFifoElement { color, source };
            let visible = s.posx >= 8 || position >= 8 - s.posx;
            if visible {
                let slot: usize = if s.posx < 8 {
                    (position - (8 - s.posx)) as usize
                } else {
                    position as usize
                };
                let under = self.ppu_fifo[slot];
                if color != 0 && under.source == 0 && !(behind && under.color != 0) {
                    self.set_fifo(slot, pixel);
                }
            }
            position = position + 1;
        }
    }

    /// Mixes the line's sprites that begin at the current column into the queue.
    fn ppu_mix_sprites(&mut self)
        requires
            old(self)@.steady(),
            8 <= old(self)@.fifo.len(),
        ensures
            final(self)@ == mix_sprites(old(self)@),
            final(self)@.steady(),
            8 <= final(self)@.fifo.len(),
    {
        if test_bit(self.io[LCDC], 1) {
            let height: u8 = if test_bit(self.io[LCDC], 2) {
                16
            } else {
                8
            };
            let count = self.ppu_sprite_buffer.len();
            let mut k: usize = 0;
            while k < count
                invariant
                    k <= count,
                    count == old(self)@.sprites.len(),
                    height == sprite_height(old(self)@.io),
                    old(self)@.steady(),
                    self@.steady(),
                    8 <= self@.fifo.len(),
                    self@.fifo == mix_sprites_upto(old(self)@, old(self)@.fifo, k as nat),
                    self@ == (Machine { fifo: self@.fifo, ..old(self)@ }),
                decreases count - k,
            {
                let s = self.ppu_sprite_buffer[k];
                if s.posx == self.ppu.lx.wrapping_add(8) || (s.posx < 8 && self.ppu.lx == 0) {
                    let row = if height == 16 {
                        self.ppu.ly.wrapping_add(16).wrapping_sub(s.posy) % 16
                    } else {
                        self.ppu.ly.wrapping_add(16).wrapping_sub(s.posy) % 8
                    };
                    let line = if test_bit(s.attr, 6) {
                        height - 1 - row
                    } else {
                        row
                    };
                    let data: usize = (s.tile as usize) * 16 + (line as usize) * 2;
                    let low = self.vram[data];
                    let high = self.vram[data + 1];
                    self.mix_sprite_row(s, low, high);
                }
                k = k + 1;
            }
        }
    }

    /// The color that `palette` gives to color index `color`.
    pub fn lookup_palette(palette: u8, color: u8) -> (c: u8)
        ensures
            c == palette_color(palette, color),
            c <= 3,
    {
        if color == 0 {
            palette % 4
        } else if color == 1 {
            (palette / 4) % 4
        } else if color == 2 {
            (palette / 16) % 4
        } else {
            (palette / 64) % 4
        }
    }

    /// Takes one entry from the queue and draws or discards it.
    fn ppu_output_pixel(&mut self)
        requires
            old(self)@.steady(),
            1 <= old(self)@.fifo.len(),
            old(self)@.ppu.lx < 160,
            old(self)@.ppu.ly < 144,
        ensures
            final(self)@ == output_pixel(old(self)@),
            final(self)@.steady(),
    {
        let popped = self.ppu_fifo.pop_front();
        let entry = popped.unwrap();
        if self.ppu.pixels_to_discard > 0 {
            self.ppu.pixels_to_discard = self.ppu.pixels_to_discard - 1;
        } else {
            let value: u32 = if !test_bit(self.io[LCDC], 7) {
                WHITE
            } else if !test_bit(self.io[LCDC], 0) {
                0xFFEAEAEA
            } else {
                shade_of(Self::lookup_palette(self.io[BGP + entry.source as usize], entry.color))
            };
            self.framebuffer.set((self.ppu.lx as usize) + (self.ppu.ly as usize) * 160, value);
            self.ppu.lx = self.ppu.lx + 1;
            self.ppu.blanked = false;
        }
    }

    /// Ends pixel transfer after the last column.
    fn ppu_finish_line(&mut self)
        requires
            old(self)@.steady(),
            old(self)@.ppu.mode == 3,
        ensures
            final(self)@ == finish_line(old(self)@),
            final(self)@.steady(),
    {
        if self.ppu.lx == 160 {
            self.ppu_fifo.clear();
            self.ppu.dots_into_curr_mode = 0;
            self.ppu.mode = 0;
            self.request_status_interrupt(LcdInterruptMasks::Hblank);
        }
    }

    /// One dot of pixel transfer.
    fn ppu_pixel_transfer(&mut self)
        requires
            old(self)@.steady(),
            old(self)@.ppu.mode == 3,
            old(self)@.ppu.dots_into_curr_mode == 1 || old(self)@.ppu.lx < 160,
        ensures
            final(self)@ == pixel_transfer_step(old(self)@),
            final(self)@.steady(),
    {
        self.ppu_init_line();
        if self.ppu.fetch_delay > 0 {
            self.ppu.fetch_delay = self.ppu.fetch_delay - 1;
        } else {
            self.ppu_activate_window();
            self.ppu_fetch_tile();
            self.ppu_mix_sprites();
            self.ppu_output_pixel();
            self.ppu_finish_line();
        }
    }

    /// Advances the pixel unit by one dot.
    pub fn run_ppu_cycle(&mut self)
        requires
            old(self).wf(),
        ensures
            final(self).wf(),
            final(self)@ == ppu_cycle(old(self)@),
    {
        let previous_line = self.ppu.ly;
        self.ppu_lcd_off_reset();
        self.ppu.dots_into_curr_mode = self.ppu.dots_into_curr_mode + 1;
        self.ppu.dots_into_curr_line = self.ppu.dots_into_curr_line + 1;
        if self.ppu.mode == 2 {
            self.ppu_oam_scan();
        } else if self.ppu.mode == 3 {
            self.ppu_pixel_transfer();
        } else if self.ppu.mode == 0 {
            self.ppu_hblank();
        } else {
            self.ppu_vblank();
        }
        proof {
            lemma_ppu_cycle_timing(old(self)@);
        }
        self.ppu_update_status(previous_line);
    }
}

} // verus!
