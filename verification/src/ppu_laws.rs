//! What the pixel pipeline draws: a line of the background, dot by dot.

use vstd::prelude::*;
use crate::cpu::bit_is_set;
use crate::machine::{wrap8, Machine, PpuFifoElement, FRAMEBUFFER_SIZE};
use crate::ppu::{
    activate_window, dot_tick, draw_dot, fetch_tile, finish_line, init_line, lcd_off_reset,
    lemma_identity_palette, lemma_solid_row, mix_sprites, mode_step, output_pixel, palette_color,
    pixel_transfer_step, ppu_cycle, shade, solid_byte, status_update, tile_row, BGP,
    FIRST_FETCH_DOTS, LCDC, SCX, SCY,
};

verus! {

/// The machine after `n` dots of the pixel unit with nothing else running.
pub open spec fn ppu_run(m: Machine, n: nat) -> Machine
    decreases n,
{
    if n == 0 {
        m
    } else {
        ppu_cycle(ppu_run(m, (n - 1) as nat))
    }
}

/// Offset in video RAM of the tile-map cell under the fetch cursor at
/// column `x` of line `y`: in the second map where the control bit of the
/// background (bit 3) or of the window (bit 6) is set.
pub open spec fn map_cell_offset(lcdc: u8, x: u8, y: u8, window: bool) -> int {
    let second = if window {
        bit_is_set(lcdc, 6)
    } else {
        bit_is_set(lcdc, 3)
    };
    0x1800 + (if second {
        0x400int
    } else {
        0int
    }) + x / 8 + 32 * (y / 8)
}

/// Offset in video RAM of row `row` (0 to 7) of tile `tile`: with control
/// bit 4 clear, tiles 0 to 127 lie in the third block.
pub open spec fn tile_row_offset(lcdc: u8, tile: u8, row: int) -> int {
    let offset = tile * 16 + row * 2;
    if offset < 0x800 && !bit_is_set(lcdc, 4) {
        offset + 0x1000
    } else {
        offset
    }
}

/// Offset in video RAM of the row of tile data that the fetch cursor at
/// column `x` of line `y` of a tile map selects.
pub open spec fn row_data_offset(vram: Seq<u8>, lcdc: u8, x: u8, y: u8, window: bool) -> int {
    tile_row_offset(lcdc, vram[map_cell_offset(lcdc, x, y, window)], (y % 8) as int)
}

/// The eight pixels that a tile fetch yields with the cursor at column `x`
/// of line `y`, from the values that it reads.
pub open spec fn row_at(vram: Seq<u8>, lcdc: u8, x: u8, y: u8, window: bool) -> Seq<
    PpuFifoElement,
> {
    let data = row_data_offset(vram, lcdc, x, y, window);
    tile_row(vram[data], vram[data + 1])
}

/// A tile fetch appends the row at the fetch cursor.
pub proof fn lemma_fetch_row(m: Machine)
    requires
        m.fifo.len() <= 8,
    ensures
        fetch_tile(m).fifo == m.fifo + row_at(
            m.vram,
            m.io[LCDC as int],
            m.ppu.tilemap_x,
            m.ppu.tilemap_y,
            m.ppu.window_is_rendering,
        ),
        fetch_tile(m).ppu.tilemap_x == wrap8(m.ppu.tilemap_x + 8),
{
}

/// The line of the background that pixel transfer draws when it begins in
/// state `m`.
pub open spec fn background_line(m: Machine) -> u8 {
    wrap8(m.io[SCY as int] + m.ppu.ly)
}

/// Pixel `i` of the stream of background pixels that enters the queue on
/// the line that begins in state `m`: tile after tile from the scrolled
/// position on, wrapping at the map's right edge.
pub open spec fn background_stream(m: Machine, i: int) -> PpuFifoElement {
    row_at(
        m.vram,
        m.io[LCDC as int],
        wrap8(m.io[SCX as int] + 8 * (i / 8)),
        background_line(m),
        false,
    )[i % 8]
}

/// Pixels of the stream that are discarded for the fine scroll.
pub open spec fn fine_scroll(m: Machine) -> int {
    (m.io[SCX as int] % 8) as int
}

/// The pixel that the line beginning in state `m` shows in column `c`:
/// the gray that the background palette gives to the stream's pixel.
pub open spec fn line_pixel(m: Machine, c: int) -> u32 {
    shade(palette_color(m.io[BGP as int], background_stream(m, fine_scroll(m) + c).color))
}

/// Tiles fetched in the first `k` dots of drawing: a tile is fetched
/// whenever the queue holds eight pixels or fewer.
pub open spec fn tiles_fetched(k: nat) -> nat
    decreases k,
{
    if k == 0 {
        0
    } else {
        let before = tiles_fetched((k - 1) as nat);
        if 8 * before - (k - 1) <= 8 {
            before + 1
        } else {
            before
        }
    }
}

/// Whether state `m` begins the pixel transfer of a line of plain
/// background: display and background on, window and sprites off.
pub open spec fn begins_background_line(m: Machine) -> bool {
    &&& m.io.len() == 0x80
    &&& m.framebuffer.len() == FRAMEBUFFER_SIZE
    &&& m.ppu.ly < 144
    &&& m.ppu.mode == 3
    &&& m.ppu.dots_into_curr_mode == 0
    &&& m.ppu.dots_into_curr_line == 80
    &&& plain_background(m.io[LCDC as int])
}

/// Whether display control byte `lcdc` shows the plain background:
/// display and background on, window and sprites off.
pub open spec fn plain_background(lcdc: u8) -> bool {
    &&& bit_is_set(lcdc, 7)
    &&& bit_is_set(lcdc, 0)
    &&& !bit_is_set(lcdc, 5)
    &&& !bit_is_set(lcdc, 1)
}

/// What the pixel unit leaves of state `m` in state `r` whatever it does:
/// video RAM and the registers that a line of background reads.
pub open spec fn scene_kept(m: Machine, r: Machine) -> bool {
    &&& r.io.len() == 0x80
    &&& r.vram == m.vram
    &&& r.framebuffer.len() == FRAMEBUFFER_SIZE
    &&& r.io[LCDC as int] == m.io[LCDC as int]
    &&& r.io[SCX as int] == m.io[SCX as int]
    &&& r.io[SCY as int] == m.io[SCY as int]
    &&& r.io[BGP as int] == m.io[BGP as int]
}

/// What a dot of pixel transfer leaves as it found it on a line of plain
/// background: video RAM, the registers that the line reads, and the line.
pub open spec fn same_scene(m: Machine, r: Machine) -> bool {
    &&& r.io.len() == 0x80
    &&& r.vram == m.vram
    &&& r.framebuffer.len() == FRAMEBUFFER_SIZE
    &&& r.io[LCDC as int] == m.io[LCDC as int]
    &&& r.io[SCX as int] == m.io[SCX as int]
    &&& r.io[SCY as int] == m.io[SCY as int]
    &&& r.io[BGP as int] == m.io[BGP as int]
    &&& r.ppu.ly == m.ppu.ly
    &&& r.ppu.mode == 3
    &&& !r.ppu.window_is_rendering
}

/// The state after `d` dots of the first fetch (1 to 12) of the line that
/// begins in state `m`.
pub open spec fn fetching_first(m: Machine, r: Machine, d: int) -> bool {
    &&& same_scene(m, r)
    &&& r.ppu.dots_into_curr_mode == d
    &&& r.ppu.dots_into_curr_line == 80 + d
    &&& r.ppu.fetch_delay == FIRST_FETCH_DOTS - d
    &&& r.ppu.lx == 0
    &&& r.ppu.pixels_to_discard == fine_scroll(m)
    &&& r.ppu.tilemap_x == m.io[SCX as int]
    &&& r.ppu.tilemap_y == background_line(m)
    &&& r.fifo.len() == 0
    &&& r.framebuffer == m.framebuffer
}

/// The state of a line of plain background that began in state `m`,
/// `dots` dots into pixel transfer: `k` pixels have left the queue, the
/// fine scroll's first, `f` tiles were fetched, the queue holds the stream
/// from pixel `k` on, and the columns drawn so far show the stream's
/// pixels; no other line has changed.
pub open spec fn line_state(m: Machine, r: Machine, k: nat, f: nat, dots: int) -> bool {
    let s = fine_scroll(m);
    let row = m.ppu.ly * 160;
    &&& same_scene(m, r)
    &&& r.ppu.dots_into_curr_mode == dots
    &&& r.ppu.dots_into_curr_line == 80 + dots
    &&& r.ppu.fetch_delay == 0
    &&& r.ppu.pixels_to_discard == (if k < s {
        s - k
    } else {
        0
    })
    &&& r.ppu.lx == (if k < s {
        0
    } else {
        k - s
    })
    &&& r.ppu.tilemap_x == wrap8(m.io[SCX as int] + 8 * f)
    &&& r.ppu.tilemap_y == background_line(m)
    &&& 8 * f >= k
    &&& r.fifo.len() == 8 * f - k
    &&& forall|j: int| 0 <= j < r.fifo.len() ==> #[trigger] r.fifo[j] == background_stream(m, k + j)
    &&& forall|c: int| 0 <= c < r.ppu.lx ==> #[trigger] r.framebuffer[row + c] == line_pixel(m, c)
    &&& forall|i: int|
        0 <= i < FRAMEBUFFER_SIZE && !(row <= i < row + 160) ==> #[trigger] r.framebuffer[i]
            == m.framebuffer[i]
}

/// The state after `k` dots of drawing on the line that begins in state `m`.
pub open spec fn drawing(m: Machine, r: Machine, k: nat) -> bool {
    line_state(m, r, k, tiles_fetched(k), FIRST_FETCH_DOTS + k)
}

/// The line that began in state `m` is drawn in picture `picture`: its
/// 160 columns show the stream's pixels, and no other line has changed.
pub open spec fn line_drawn(m: Machine, picture: Seq<u32>) -> bool {
    let row = m.ppu.ly * 160;
    &&& picture.len() == FRAMEBUFFER_SIZE
    &&& forall|c: int| 0 <= c < 160 ==> #[trigger] picture[row + c] == line_pixel(m, c)
    &&& forall|i: int|
        0 <= i < FRAMEBUFFER_SIZE && !(row <= i < row + 160) ==> #[trigger] picture[i]
            == m.framebuffer[i]
}

/// The registers that a line reads are not the ones that a dot writes.
proof fn lemma_status_keeps_scene(m: Machine, r: Machine, previous_line: u8)
    requires
        same_scene(m, r),
    ensures
        same_scene(m, status_update(r, previous_line)),
        status_update(r, previous_line).ppu == r.ppu,
        status_update(r, previous_line).fifo == r.fifo,
        status_update(r, previous_line).framebuffer == r.framebuffer,
        status_update(finish_line(r), previous_line).ppu == finish_line(r).ppu,
        status_update(finish_line(r), previous_line).framebuffer == r.framebuffer,
{
}

/// The first twelve dots of a line of plain background pass with the first fetch.
proof fn lemma_first_fetch(m: Machine, d: nat)
    requires
        begins_background_line(m),
        1 <= d <= FIRST_FETCH_DOTS,
    ensures
        fetching_first(m, ppu_run(m, d), d as int),
    decreases d,
{
    let p = ppu_run(m, (d - 1) as nat);
    if d == 1 {
        assert(p == m);
    } else {
        lemma_first_fetch(m, (d - 1) as nat);
    }
    let t = dot_tick(lcd_off_reset(p));
    assert(lcd_off_reset(p) == p);
    let e = pixel_transfer_step(t);
    assert(mode_step(t) == e);
    assert(same_scene(m, e));
    lemma_status_keeps_scene(m, e, p.ppu.ly);
}

/// Reducing to eight bits before or after an addition is the same.
proof fn lemma_wrap_add(a: int, b: int)
    ensures
        wrap8(wrap8(a) + b) == wrap8(a + b),
{
}

/// A dot of drawing begins: the dot is counted, and with the window off
/// nothing else changes before the fetch.
proof fn lemma_dot_begins(m: Machine, p: Machine, k: nat, f: nat)
    requires
        begins_background_line(m),
        line_state(m, p, k, f, FIRST_FETCH_DOTS + k),
    ensures
        ({
            let t = dot_tick(lcd_off_reset(p));
            &&& init_line(t) == t
            &&& t.ppu.mode == 3
            &&& t.ppu.fetch_delay == 0
            &&& line_state(m, activate_window(t), k, f, FIRST_FETCH_DOTS + k + 1)
        }),
{
    assert(lcd_off_reset(p) == p);
    let t = dot_tick(p);
    assert(init_line(t) == t);
    let w = activate_window(t);
    assert(w.fifo == t.fifo);
    assert(w.framebuffer == t.framebuffer);
    assert(w.io == t.io);
    assert(w.vram == t.vram);
}

/// The fetch of a dot of drawing: the queue takes the next tile of the
/// stream when it holds eight pixels or fewer, and then holds at least one.
proof fn lemma_tile_fetched(m: Machine, w: Machine, k: nat, dots: int)
    requires
        begins_background_line(m),
        line_state(m, w, k, tiles_fetched(k), dots),
    ensures
        line_state(m, fetch_tile(w), k, tiles_fetched((k + 1) as nat), dots),
        fetch_tile(w).fifo.len() >= 1,
        mix_sprites(fetch_tile(w)) == fetch_tile(w),
{
    let f = tiles_fetched(k);
    let f1 = tiles_fetched((k + 1) as nat);
    let c = fetch_tile(w);
    if w.fifo.len() <= 8 {
        lemma_fetch_row(w);
        assert(f1 == f + 1);
        let fetched = row_at(
            m.vram,
            m.io[LCDC as int],
            wrap8(m.io[SCX as int] + 8 * f),
            background_line(m),
            false,
        );
        assert(c.fifo == w.fifo + fetched);
        assert(fetched.len() == 8);
        assert forall|j: int| 0 <= j < c.fifo.len() implies #[trigger] c.fifo[j]
            == background_stream(m, k + j) by {
            if j >= w.fifo.len() {
                let i = k + j;
                assert(i == 8 * f + (j - w.fifo.len()));
                assert(i / 8 == f && i % 8 == j - w.fifo.len());
                assert(c.fifo[j] == fetched[j - w.fifo.len()]);
            } else {
                assert(c.fifo[j] == w.fifo[j]);
            }
        }
        lemma_wrap_add(m.io[SCX as int] + 8 * f, 8);
        assert(c.ppu.tilemap_x == wrap8(m.io[SCX as int] + 8 * f1));
        assert(c.framebuffer == w.framebuffer);
        assert(c.io == w.io && c.vram == w.vram);
    } else {
        assert(c == w);
        assert(f1 == f);
    }
}

/// The queue is filled: after the fetch of a dot of drawing, the queue
/// holds at least one pixel of the stream.
proof fn lemma_queue_filled(m: Machine, p: Machine, k: nat)
    requires
        begins_background_line(m),
        drawing(m, p, k),
    ensures
        ({
            let x = mix_sprites(fetch_tile(activate_window(init_line(dot_tick(lcd_off_reset(p))))));
            &&& line_state(
                m,
                x,
                k,
                tiles_fetched((k + 1) as nat),
                FIRST_FETCH_DOTS + k + 1,
            )
            &&& x.fifo.len() >= 1
        }),
{
    lemma_dot_begins(m, p, k, tiles_fetched(k));
    let t = dot_tick(lcd_off_reset(p));
    lemma_tile_fetched(m, activate_window(t), k, FIRST_FETCH_DOTS + k + 1);
}

/// A pixel leaves the queue: it is discarded for the fine scroll or drawn
/// in the next column.
proof fn lemma_pixel_out(m: Machine, x: Machine, k: nat, f: nat, dots: int)
    requires
        begins_background_line(m),
        line_state(m, x, k, f, dots),
        x.fifo.len() >= 1,
        k < fine_scroll(m) + 160,
    ensures
        line_state(m, output_pixel(x), (k + 1) as nat, f, dots),
{
    let s = fine_scroll(m);
    let row = m.ppu.ly * 160;
    let o = output_pixel(x);
    assert forall|j: int| 0 <= j < o.fifo.len() implies #[trigger] o.fifo[j] == background_stream(
        m,
        k + 1 + j,
    ) by {
        assert(o.fifo[j] == x.fifo[j + 1]);
    }
    if k >= s {
        assert(x.fifo[0] == background_stream(m, k as int));
        assert(o.framebuffer == x.framebuffer.update(row + (k - s), line_pixel(m, k - s)));
        assert forall|c: int| 0 <= c < o.ppu.lx implies #[trigger] o.framebuffer[row + c]
            == line_pixel(m, c) by {
            if c < k - s {
                assert(o.framebuffer[row + c] == x.framebuffer[row + c]);
            }
        }
    } else {
        assert(o.framebuffer == x.framebuffer);
    }
}

/// The state in which the pixel transfer of the line that began in state
/// `m` ends: in horizontal blank on the same line, 80 dots of sprite scan
/// and the dots of pixel transfer into the line.
pub open spec fn line_ended(m: Machine, r: Machine) -> bool {
    &&& scene_kept(m, r)
    &&& r.ppu.mode == 0
    &&& r.ppu.ly == m.ppu.ly
    &&& r.ppu.dots_into_curr_mode == 0
    &&& r.ppu.dots_into_curr_line == 80 + FIRST_FETCH_DOTS + fine_scroll(m) + 160
}

/// One dot of drawing on a line of plain background.
proof fn lemma_draw_step(m: Machine, p: Machine, k: nat)
    requires
        begins_background_line(m),
        drawing(m, p, k),
        k < fine_scroll(m) + 160,
    ensures
        k + 1 < fine_scroll(m) + 160 ==> drawing(m, ppu_cycle(p), (k + 1) as nat),
        k + 1 == fine_scroll(m) + 160 ==> line_drawn(m, ppu_cycle(p).framebuffer) && line_ended(
            m,
            ppu_cycle(p),
        ),
{
    let s = fine_scroll(m);
    let t = dot_tick(lcd_off_reset(p));
    let x = mix_sprites(fetch_tile(activate_window(init_line(t))));
    let f1 = tiles_fetched((k + 1) as nat);
    lemma_queue_filled(m, p, k);
    lemma_pixel_out(m, x, k, f1, FIRST_FETCH_DOTS + k + 1);
    let o = output_pixel(x);
    let e = finish_line(o);
    assert(t.ppu.mode == 3 && t.ppu.fetch_delay == 0 && init_line(t) == t) by {
        assert(lcd_off_reset(p) == p);
    }
    assert(pixel_transfer_step(t) == draw_dot(t));
    assert(mode_step(t) == e);
    lemma_status_keeps_scene(m, o, p.ppu.ly);
    let r = status_update(e, p.ppu.ly);
    assert(r == ppu_cycle(p));
    if k + 1 < s + 160 {
        assert(e == o);
        assert(r.ppu == o.ppu && r.fifo == o.fifo && r.framebuffer == o.framebuffer);
    } else {
        assert(o.ppu.lx == 160);
        assert(e.framebuffer == o.framebuffer);
        assert(r.framebuffer == o.framebuffer);
    }
}

/// After the first fetch and `k` dots of drawing, the line is drawn up to
/// its column `k` less the fine scroll.
proof fn lemma_drawing(m: Machine, k: nat)
    requires
        begins_background_line(m),
        k < fine_scroll(m) + 160,
    ensures
        drawing(m, ppu_run(m, (FIRST_FETCH_DOTS + k) as nat), k),
    decreases k,
{
    if k == 0 {
        lemma_first_fetch(m, FIRST_FETCH_DOTS as nat);
        let r = ppu_run(m, FIRST_FETCH_DOTS as nat);
        assert(tiles_fetched(0) == 0);
        assert(drawing(m, r, 0));
    } else {
        lemma_drawing(m, (k - 1) as nat);
        let p = ppu_run(m, (FIRST_FETCH_DOTS + k - 1) as nat);
        lemma_draw_step(m, p, (k - 1) as nat);
        assert(ppu_run(m, (FIRST_FETCH_DOTS + k) as nat) == ppu_cycle(p));
    }
}

/// Pixel transfer draws the background. On a line with display and
/// background on and window and sprites off, the dots of pixel transfer
/// (twelve for the first fetch, one for each pixel discarded for the fine
/// scroll, and 160 for the line) leave in each of the line's columns the
/// gray that the background palette gives to the pixel of the tile map
/// under it, leave every other line as it was, and end in horizontal blank.
pub proof fn lemma_background_line_drawn(m: Machine)
    requires
        begins_background_line(m),
    ensures
        ({
            let r = ppu_run(m, (FIRST_FETCH_DOTS + fine_scroll(m) + 160) as nat);
            &&& line_drawn(m, r.framebuffer)
            &&& line_ended(m, r)
        }),
{
    let last = (fine_scroll(m) + 159) as nat;
    lemma_drawing(m, last);
    let p = ppu_run(m, (FIRST_FETCH_DOTS + last) as nat);
    lemma_draw_step(m, p, last);
    assert(ppu_run(m, (FIRST_FETCH_DOTS + fine_scroll(m) + 160) as nat) == ppu_cycle(p));
}

/// Whether the tile under pixel `i` of the background stream is solid in
/// `color` on the line drawn: the two bytes of its row are all ones or all
/// zeros by the two bits of the color.
pub open spec fn solid_under(m: Machine, i: int, color: u8) -> bool {
    let data = row_data_offset(
        m.vram,
        m.io[LCDC as int],
        wrap8(m.io[SCX as int] + 8 * (i / 8)),
        background_line(m),
        false,
    );
    m.vram[data] == solid_byte(color, 0) && m.vram[data + 1] == solid_byte(color, 1)
}

/// A solid tile under the identity palette shows as its color index:
/// each column of the line that lies over a tile row solid in `color`
/// shows the gray of `color`, whatever the neighboring tiles hold.
pub proof fn lemma_solid_tile_drawn(m: Machine, c: int, color: u8)
    requires
        begins_background_line(m),
        m.io[BGP as int] == 0xE4,
        0 <= c < 160,
        color <= 3,
        solid_under(m, fine_scroll(m) + c, color),
    ensures
        ppu_run(m, (FIRST_FETCH_DOTS + fine_scroll(m) + 160) as nat).framebuffer[m.ppu.ly * 160
            + c] == shade(color),
{
    lemma_background_line_drawn(m);
    let i = fine_scroll(m) + c;
    lemma_solid_row(color, i % 8);
    lemma_identity_palette(color);
    assert(background_stream(m, i).color == color);
    assert(line_pixel(m, c) == shade(color));
}

/// Running `a` dots and then `b` is running `a + b`.
pub proof fn lemma_run_add(m: Machine, a: nat, b: nat)
    ensures
        ppu_run(m, a + b) == ppu_run(ppu_run(m, a), b),
    decreases b,
{
    if b > 0 {
        lemma_run_add(m, a, (b - 1) as nat);
        assert(ppu_run(m, a + b) == ppu_cycle(ppu_run(m, (a + b - 1) as nat)));
    }
}

/// Whether state `m` begins a line of plain background: at the first dot
/// of the sprite scan of one of the picture's 144 lines.
pub open spec fn begins_line(m: Machine) -> bool {
    &&& m.io.len() == 0x80
    &&& m.framebuffer.len() == FRAMEBUFFER_SIZE
    &&& m.ppu.ly < 144
    &&& m.ppu.mode == 2
    &&& m.ppu.dots_into_curr_mode == 0
    &&& m.ppu.dots_into_curr_line == 0
    &&& plain_background(m.io[LCDC as int])
}

/// The state `d` dots (at most 80) into the sprite scan of the line that
/// began in state `m`; with the 80th dot pixel transfer begins.
pub open spec fn scanning(m: Machine, r: Machine, d: int) -> bool {
    &&& scene_kept(m, r)
    &&& r.framebuffer == m.framebuffer
    &&& r.ppu.ly == m.ppu.ly
    &&& r.ppu.mode == (if d < 80 {
        2u8
    } else {
        3u8
    })
    &&& r.ppu.dots_into_curr_mode == (if d < 80 {
        d
    } else {
        0
    })
    &&& r.ppu.dots_into_curr_line == d
}

/// The sprite scan takes 80 dots and draws nothing.
proof fn lemma_scan(m: Machine, d: nat)
    requires
        begins_line(m),
        d <= 80,
    ensures
        scanning(m, ppu_run(m, d), d as int),
    decreases d,
{
    if d > 0 {
        lemma_scan(m, (d - 1) as nat);
        let p = ppu_run(m, (d - 1) as nat);
        assert(lcd_off_reset(p) == p);
        let t = dot_tick(p);
        let e = mode_step(t);
        assert(scene_kept(m, e));
        assert(e.framebuffer == m.framebuffer);
        let r = status_update(e, p.ppu.ly);
        assert(r == ppu_cycle(p));
        assert(r.ppu == e.ppu);
        assert(r.framebuffer == e.framebuffer);
        assert(scene_kept(m, r));
    }
}

/// The state `j` dots into the horizontal blank that began in state `m`.
pub open spec fn blanking(m: Machine, r: Machine, j: int) -> bool {
    &&& scene_kept(m, r)
    &&& r.framebuffer == m.framebuffer
    &&& r.ppu.ly == m.ppu.ly
    &&& r.ppu.mode == 0
    &&& r.ppu.dots_into_curr_line == m.ppu.dots_into_curr_line + j
}

/// Whether state `m` is in the horizontal blank of one of the picture's
/// lines, the display on.
pub open spec fn in_blank(m: Machine) -> bool {
    &&& m.io.len() == 0x80
    &&& m.framebuffer.len() == FRAMEBUFFER_SIZE
    &&& m.ppu.ly < 144
    &&& m.ppu.mode == 0
    &&& m.ppu.dots_into_curr_line <= 455
    &&& bit_is_set(m.io[LCDC as int], 7)
}

/// Horizontal blank draws nothing up to the line's last dot.
proof fn lemma_blank(m: Machine, j: nat)
    requires
        in_blank(m),
        m.ppu.dots_into_curr_line + j <= 455,
    ensures
        blanking(m, ppu_run(m, j), j as int),
    decreases j,
{
    if j > 0 {
        lemma_blank(m, (j - 1) as nat);
        let p = ppu_run(m, (j - 1) as nat);
        assert(lcd_off_reset(p) == p);
        let t = dot_tick(p);
        let e = mode_step(t);
        assert(e == t);
        let r = status_update(e, p.ppu.ly);
        assert(r == ppu_cycle(p));
        assert(r.ppu == e.ppu);
        assert(r.framebuffer == e.framebuffer);
        assert(scene_kept(m, r));
    }
}

/// The state in which the line after the one that began in state `m`
/// begins: at the first dot of its sprite scan or, after line 143, of
/// vertical blank.
pub open spec fn next_line(m: Machine, r: Machine) -> bool {
    &&& scene_kept(m, r)
    &&& r.ppu.ly == m.ppu.ly + 1
    &&& r.ppu.mode == (if m.ppu.ly + 1 == 144 {
        1u8
    } else {
        2u8
    })
    &&& r.ppu.dots_into_curr_mode == 0
    &&& r.ppu.dots_into_curr_line == 0
}

/// The 456th dot of a line begins the next line and draws nothing.
proof fn lemma_line_turns(m: Machine, p: Machine)
    requires
        scene_kept(m, p),
        p.ppu.ly == m.ppu.ly,
        m.ppu.ly < 144,
        p.ppu.mode == 0,
        p.ppu.dots_into_curr_line == 455,
        bit_is_set(m.io[LCDC as int], 7),
    ensures
        next_line(m, ppu_cycle(p)),
        ppu_cycle(p).framebuffer == p.framebuffer,
{
    assert(lcd_off_reset(p) == p);
    let t = dot_tick(p);
    let e = mode_step(t);
    assert(scene_kept(m, e));
    assert(e.framebuffer == p.framebuffer);
    let r = status_update(e, p.ppu.ly);
    assert(r == ppu_cycle(p));
    assert(r.ppu == e.ppu);
    assert(r.framebuffer == e.framebuffer);
    assert(scene_kept(m, r));
}

/// The pixel that a line shows depends on video RAM, on the registers
/// that the line reads and on the line's number alone.
pub proof fn lemma_line_pixel_same(a: Machine, b: Machine, c: int)
    requires
        a.vram == b.vram,
        a.io[LCDC as int] == b.io[LCDC as int],
        a.io[SCX as int] == b.io[SCX as int],
        a.io[SCY as int] == b.io[SCY as int],
        a.io[BGP as int] == b.io[BGP as int],
        a.ppu.ly == b.ppu.ly,
    ensures
        line_pixel(a, c) == line_pixel(b, c),
        fine_scroll(a) == fine_scroll(b),
{
}

/// A line of plain background takes 456 dots: the sprite scan, pixel
/// transfer, which draws the line, and horizontal blank; then the next
/// line begins.
pub proof fn lemma_line_drawn(m: Machine)
    requires
        begins_line(m),
    ensures
        line_drawn(m, ppu_run(m, 456).framebuffer),
        next_line(m, ppu_run(m, 456)),
{
    let s = fine_scroll(m);
    lemma_scan(m, 80);
    let a = ppu_run(m, 80);
    assert(begins_background_line(a));
    let draw = (FIRST_FETCH_DOTS + s + 160) as nat;
    assert(fine_scroll(a) == s);
    lemma_background_line_drawn(a);
    let b = ppu_run(a, draw);
    lemma_run_add(m, 80, draw);
    assert(b == ppu_run(m, 80 + draw));
    assert forall|c: int| 0 <= c < 160 implies line_pixel(a, c) == line_pixel(m, c) by {
        lemma_line_pixel_same(a, m, c);
    }
    assert(line_drawn(m, b.framebuffer));
    let rest = (455 - (80 + draw)) as nat;
    assert(in_blank(b));
    lemma_blank(b, rest);
    let e = ppu_run(b, rest);
    lemma_run_add(m, 80 + draw, rest);
    assert(e == ppu_run(m, 455));
    lemma_line_turns(m, e);
    assert(ppu_run(m, 456) == ppu_cycle(e));
    assert(ppu_cycle(e).framebuffer == b.framebuffer);
}

/// State `m` with the pixel unit on line `y`.
pub open spec fn at_line(m: Machine, y: int) -> Machine {
    Machine { ppu: crate::machine::PpuState { ly: y as u8, ..m.ppu }, ..m }
}

/// The pixel that the picture shows in column `c` of line `y` when its
/// lines are drawn from state `m` on with nothing but the pixel unit
/// running.
pub open spec fn picture_pixel(m: Machine, c: int, y: int) -> u32 {
    line_pixel(at_line(m, y), c)
}

/// Picture `picture` shows the `n` lines from the line of state `m` on as
/// drawn, and every other line as state `m` had it.
pub open spec fn lines_drawn(m: Machine, picture: Seq<u32>, n: nat) -> bool {
    &&& picture.len() == FRAMEBUFFER_SIZE
    &&& forall|c: int, y: int|
        0 <= c < 160 && m.ppu.ly <= y < m.ppu.ly + n ==> #[trigger] picture[y * 160 + c]
            == picture_pixel(m, c, y)
    &&& forall|i: int|
        0 <= i < FRAMEBUFFER_SIZE && !(m.ppu.ly * 160 <= i < (m.ppu.ly + n) * 160)
            ==> #[trigger] picture[i] == m.framebuffer[i]
}

/// The state in which the `n` lines from the line of state `m` on are
/// through: at the first dot of the line after them.
pub open spec fn lines_through(m: Machine, r: Machine, n: nat) -> bool {
    &&& scene_kept(m, r)
    &&& r.ppu.ly == m.ppu.ly + n
    &&& r.ppu.dots_into_curr_mode == 0
    &&& r.ppu.dots_into_curr_line == 0
    &&& r.ppu.mode == (if m.ppu.ly + n == 144 && n > 0 {
        1u8
    } else {
        2u8
    })
}

/// The pixel unit draws the background line by line. From the first dot
/// of a line on, with display and background on, window and sprites off
/// and nothing else running, `n` lines of 456 dots leave in every column
/// of each of these lines the gray that the background palette gives to
/// the pixel of the tile map under it, and leave every other line as it
/// was.
pub proof fn lemma_lines_drawn(m: Machine, n: nat)
    requires
        begins_line(m),
        m.ppu.ly + n <= 144,
    ensures
        lines_drawn(m, ppu_run(m, 456 * n).framebuffer, n),
        lines_through(m, ppu_run(m, 456 * n), n),
    decreases n,
{
    if n > 0 {
        let before = (n - 1) as nat;
        lemma_lines_drawn(m, before);
        let p = ppu_run(m, 456 * before);
        lemma_run_add(m, 456 * before, 456);
        assert(456 * before + 456 == 456 * n);
        let r = ppu_run(p, 456);
        assert(r == ppu_run(m, 456 * n));
        assert(begins_line(p));
        lemma_line_drawn(p);
        let y = m.ppu.ly + before;
        assert forall|c: int, line: int|
            0 <= c < 160 && m.ppu.ly <= line < m.ppu.ly + n implies #[trigger] r.framebuffer[line
            * 160 + c] == picture_pixel(m, c, line) by {
            if line == y {
                lemma_line_pixel_same(p, at_line(m, y), c);
                assert(r.framebuffer[p.ppu.ly * 160 + c] == line_pixel(p, c));
            } else {
                let i = line * 160 + c;
                assert(!(p.ppu.ly * 160 <= i < p.ppu.ly * 160 + 160));
                assert(r.framebuffer[i] == p.framebuffer[i]);
            }
        }
        assert forall|i: int|
            0 <= i < FRAMEBUFFER_SIZE && !(m.ppu.ly * 160 <= i < (m.ppu.ly + n) * 160)
            implies #[trigger] r.framebuffer[i] == m.framebuffer[i] by {
            assert(!(p.ppu.ly * 160 <= i < p.ppu.ly * 160 + 160));
            assert(r.framebuffer[i] == p.framebuffer[i]);
        }
    } else {
        assert(ppu_run(m, 0) == m);
    }
}

/// A solid tile under the identity palette shows as a block of its color
/// index, without bleed. After `n` lines drawn from state `m` on, every
/// pixel of these lines that lies over a tile row solid in `color` shows
/// the gray of `color`, whatever the neighboring tiles hold: so the 64
/// pixels over a tile whose eight rows are solid in one color show that
/// color, and the pixels next to them the colors of the tiles under them.
pub proof fn lemma_solid_tile_shown(m: Machine, n: nat, c: int, y: int, color: u8)
    requires
        begins_line(m),
        m.ppu.ly + n <= 144,
        m.io[BGP as int] == 0xE4,
        0 <= c < 160,
        m.ppu.ly <= y < m.ppu.ly + n,
        color <= 3,
        solid_under(at_line(m, y), fine_scroll(m) + c, color),
    ensures
        ppu_run(m, 456 * n).framebuffer[y * 160 + c] == shade(color),
{
    lemma_lines_drawn(m, n);
    let i = fine_scroll(m) + c;
    lemma_solid_row(color, i % 8);
    lemma_identity_palette(color);
    assert(background_stream(at_line(m, y), i).color == color);
    assert(picture_pixel(m, c, y) == shade(color));
}

/// The tile that the tile map names under pixel `i` of the stream of
/// background pixels of the line that begins in state `m`.
pub open spec fn tile_under(m: Machine, i: int) -> u8 {
    m.vram[map_cell_offset(
        m.io[LCDC as int],
        wrap8(m.io[SCX as int] + 8 * (i / 8)),
        background_line(m),
        false,
    )]
}

/// Whether all 64 pixels of tile `tile` have color index `color`: the two
/// bytes of each of its eight rows are all ones or all zeros by the two
/// bits of the color.
pub open spec fn tile_solid(vram: Seq<u8>, lcdc: u8, tile: u8, color: u8) -> bool {
    forall|row: int|
        0 <= row < 8 ==> vram[#[trigger] tile_row_offset(lcdc, tile, row)] == solid_byte(color, 0)
            && vram[tile_row_offset(lcdc, tile, row) + 1] == solid_byte(color, 1)
}

/// A solid 8 by 8 tile under the identity palette shows as a block of its
/// color index, without bleed: after `n` lines drawn from state `m` on,
/// every pixel of these lines shows the gray of the color of the tile that
/// the tile map names under it, if that tile is solid. So a solid tile of
/// color c shows as 64 pixels of c, and solid neighbors of color d show d
/// right next to them.
pub proof fn lemma_solid_tile_block(m: Machine, n: nat, c: int, y: int, color: u8)
    requires
        begins_line(m),
        m.ppu.ly + n <= 144,
        m.io[BGP as int] == 0xE4,
        0 <= c < 160,
        m.ppu.ly <= y < m.ppu.ly + n,
        color <= 3,
        tile_solid(
            m.vram,
            m.io[LCDC as int],
            tile_under(at_line(m, y), fine_scroll(m) + c),
            color,
        ),
    ensures
        ppu_run(m, 456 * n).framebuffer[y * 160 + c] == shade(color),
{
    let line = at_line(m, y);
    let i = fine_scroll(m) + c;
    let row = (background_line(line) % 8) as int;
    let tile = tile_under(line, i);
    let offset = tile_row_offset(m.io[LCDC as int], tile, row);
    assert(m.vram[offset] == solid_byte(color, 0) && m.vram[offset + 1] == solid_byte(color, 1));
    assert(solid_under(line, i, color));
    lemma_solid_tile_shown(m, n, c, y, color);
}

} // verus!
