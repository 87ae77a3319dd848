//! Drawing into a host pixel buffer: rows of `width` pixels, one after another.

use vstd::prelude::*;
use crate::machine::{GameBoy, Machine};
use crate::memory::read_byte;
use crate::ppu::{palette_color, pixel_color, shade, shade_of};

verus! {

/// The color of the frame drawn around a view.
pub const BORDER: u32 = 0xFFFF00FF;

/// Index of the pixel in column `x` of row `y`.
pub open spec fn cell(x: int, y: int, width: int) -> int {
    x + y * width
}

/// Whether index `i` is a pixel of the rectangle of columns `x_1` to `x_2`
/// and rows `y_1` to `y_2`, bounds included.
pub open spec fn in_rectangle(i: int, x_1: int, x_2: int, y_1: int, y_2: int, width: int) -> bool {
    exists|x: int, y: int| x_1 <= x <= x_2 && y_1 <= y <= y_2 && i == #[trigger] cell(x, y, width)
}

/// Whether the outline has a range from one before `low` to one after
/// `high`: there is none where `low` is zero or lies more than two after
/// `high`.
pub open spec fn outline_range(low: int, high: int) -> bool {
    1 <= low && low - 1 <= high + 1
}

/// Whether index `i` is a pixel of the outline one pixel outside the
/// rectangle of columns `x_1` to `x_2` and rows `y_1` to `y_2`: of its
/// upper and lower edge, which span the outline's columns, or of its left
/// and right edge, which span the outline's rows.
pub open spec fn on_border(i: int, x_1: int, x_2: int, y_1: int, y_2: int, width: int) -> bool {
    ||| outline_range(x_1, x_2) && in_rectangle(i, x_1 - 1, x_2 + 1, y_1 - 1, y_1 - 1, width)
    ||| outline_range(x_1, x_2) && in_rectangle(i, x_1 - 1, x_2 + 1, y_2 + 1, y_2 + 1, width)
    ||| outline_range(y_1, y_2) && in_rectangle(i, x_1 - 1, x_1 - 1, y_1 - 1, y_2 + 1, width)
    ||| outline_range(y_1, y_2) && in_rectangle(i, x_2 + 1, x_2 + 1, y_1 - 1, y_2 + 1, width)
}

/// Whether the outline around the rectangle of columns `x_1` to `x_2` and
/// rows `y_1` to `y_2` can be drawn into a buffer of `len` pixels: the
/// coordinates one after `x_2` and `y_2` exist, an edge that is drawn has
/// its two rows or columns on the buffer's grid, and its last pixel lies in
/// the buffer.
pub open spec fn border_fits(len: int, x_1: int, x_2: int, y_1: int, y_2: int, width: int) -> bool {
    &&& x_2 < usize::MAX
    &&& y_2 < usize::MAX
    &&& x_1 == 0 ==> x_2 + 1 < usize::MAX
    &&& y_1 == 0 ==> y_2 + 1 < usize::MAX
    &&& outline_range(x_1, x_2) ==> {
        &&& 1 <= y_1
        &&& cell(x_2 + 1, y_1 - 1, width) < len
        &&& cell(x_2 + 1, y_2 + 1, width) < len
    }
    &&& outline_range(y_1, y_2) ==> {
        &&& 1 <= x_1
        &&& cell(x_1 - 1, y_2 + 1, width) < len
        &&& cell(x_2 + 1, y_2 + 1, width) < len
    }
}

/// The outline around a rectangle that is not empty fits where its lower
/// right corner lies in the buffer.
pub proof fn lemma_border_fits(len: int, x_1: int, x_2: int, y_1: int, y_2: int, width: int)
    requires
        1 <= x_1 <= x_2 < usize::MAX,
        1 <= y_1 <= y_2 < usize::MAX,
        0 <= width,
        cell(x_2 + 1, y_2 + 1, width) < len,
    ensures
        border_fits(len, x_1, x_2, y_1, y_2, width),
{
    lemma_cell_monotonic(x_2 + 1, y_1 - 1, x_2 + 1, y_2 + 1, width);
    lemma_cell_monotonic(x_1 - 1, y_2 + 1, x_2 + 1, y_2 + 1, width);
}

/// The buffer with the rectangle of columns `x_1` to `x_2` and rows `y_1`
/// to `y_2` filled with `color`.
pub open spec fn filled(
    buffer: Seq<u32>,
    color: u32,
    x_1: int,
    x_2: int,
    y_1: int,
    y_2: int,
    width: int,
) -> Seq<u32> {
    Seq::new(
        buffer.len(),
        |i: int|
            if in_rectangle(i, x_1, x_2, y_1, y_2, width) {
                color
            } else {
                buffer[i]
            },
    )
}

/// The buffer with the outline drawn one pixel outside the rectangle of
/// columns `x_1` to `x_2` and rows `y_1` to `y_2`.
pub open spec fn bordered(buffer: Seq<u32>, x_1: int, x_2: int, y_1: int, y_2: int, width: int) -> Seq<
    u32,
> {
    Seq::new(
        buffer.len(),
        |i: int|
            if on_border(i, x_1, x_2, y_1, y_2, width) {
                BORDER
            } else {
                buffer[i]
            },
    )
}

/// The buffer after the first `count` blocks of a row of blocks were
/// drawn: block `k` has the color `colors[first + k]`, is `scale` by
/// `scale` pixels large, and has its corner at column `left + k * scale`
/// of row `y`.
pub open spec fn row_blocks(
    buffer: Seq<u32>,
    colors: Seq<u32>,
    first: int,
    left: int,
    y: int,
    scale: int,
    width: int,
    count: nat,
) -> Seq<u32>
    decreases count,
{
    if count == 0 {
        buffer
    } else {
        let k = count - 1;
        let x = left + k * scale;
        filled(
            row_blocks(buffer, colors, first, left, y, scale, width, k as nat),
            colors[first + k],
            x,
            x + scale - 1,
            y,
            y + scale - 1,
            width,
        )
    }
}

/// The buffer after the first `rows` rows of the picture `colors`
/// (`columns` to a row) were drawn as blocks of `scale` by `scale`
/// pixels, the picture's corner at column `left` of row `top`.
pub open spec fn blocks_drawn(
    buffer: Seq<u32>,
    colors: Seq<u32>,
    columns: int,
    left: int,
    top: int,
    scale: int,
    width: int,
    rows: nat,
) -> Seq<u32>
    decreases rows,
{
    if rows == 0 {
        buffer
    } else {
        let r = rows - 1;
        row_blocks(
            blocks_drawn(buffer, colors, columns, left, top, scale, width, r as nat),
            colors,
            r * columns,
            left,
            top + r * scale,
            scale,
            width,
            columns as nat,
        )
    }
}

/// The buffer after the first `count` pixels of row `y` of the scaled
/// picture were written, left to right: pixel `x` of the row shows pixel
/// `x / scale` of line `y / scale` of the picture, and goes to column
/// `left + x` of row `top + y`.
pub open spec fn screen_row(
    buffer: Seq<u32>,
    picture: Seq<u32>,
    left: int,
    top: int,
    scale: int,
    width: int,
    y: int,
    count: nat,
) -> Seq<u32>
    decreases count,
{
    if count == 0 {
        buffer
    } else {
        let x = count - 1;
        screen_row(buffer, picture, left, top, scale, width, y, x as nat).update(
            cell(left + x, top + y, width),
            picture[x / scale + (y / scale) * 160],
        )
    }
}

/// The buffer after the first `rows` rows of the scaled picture were
/// written, top to bottom, each of `160 * scale` pixels.
pub open spec fn screen_rows(
    buffer: Seq<u32>,
    picture: Seq<u32>,
    left: int,
    top: int,
    scale: int,
    width: int,
    rows: nat,
) -> Seq<u32>
    decreases rows,
{
    if rows == 0 {
        buffer
    } else {
        let y = rows - 1;
        screen_row(
            screen_rows(buffer, picture, left, top, scale, width, y as nat),
            picture,
            left,
            top,
            scale,
            width,
            y,
            (160 * scale) as nat,
        )
    }
}

/// The buffer with the machine's picture in it: an outline around the
/// view, and then the picture, each of its pixels `scale` by `scale`
/// pixels large, written row by row with its corner one pixel right of
/// and below (`offset_x`, `offset_y`).
pub open spec fn screen_view(
    buffer: Seq<u32>,
    picture: Seq<u32>,
    offset_x: int,
    offset_y: int,
    scale: int,
    width: int,
) -> Seq<u32> {
    screen_rows(
        bordered(
            buffer,
            offset_x,
            offset_x + 160 * scale,
            offset_y,
            offset_y + 144 * scale,
            width,
        ),
        picture,
        offset_x + 1,
        offset_y + 1,
        scale,
        width,
        (144 * scale) as nat,
    )
}

/// The color of cell `k` of the palette view: color `k % 4` of the
/// background palette (cells 0 to 3) and of the two sprite palettes.
pub open spec fn palette_cell_color(io: Seq<u8>, k: int) -> u32 {
    shade(palette_color(io[0x47 + k / 4], (k % 4) as u8))
}

/// The buffer after the first `count` cells of the palette view were
/// drawn: cell `k` is a filled and outlined square in column `k % 4` of
/// row `k / 4` of a grid with `scale` pixels between its lines.
pub open spec fn palette_cells(
    buffer: Seq<u32>,
    io: Seq<u8>,
    offset_x: int,
    offset_y: int,
    scale: int,
    width: int,
    count: nat,
) -> Seq<u32>
    decreases count,
{
    if count == 0 {
        buffer
    } else {
        let k = count - 1;
        let x = offset_x + scale * (k % 4);
        let y = offset_y + scale * (k / 4);
        bordered(
            filled(
                palette_cells(buffer, io, offset_x, offset_y, scale, width, k as nat),
                palette_cell_color(io, k),
                x,
                x + scale,
                y,
                y + scale,
                width,
            ),
            x,
            x + scale,
            y,
            y + scale,
            width,
        )
    }
}

/// The opaque gray pixel of the tile view for color index `color`: color 0
/// is black there.
pub open spec fn tile_view_gray(color: u8) -> u32 {
    (0xFF000000 + color * 85 * 0x010101) as u32
}

/// Pixel (`px`, `py`) of the tile view: the memory from `base` on read as
/// tiles of 16 bytes, `tile_w` tiles to a row.
pub open spec fn tile_view_pixel(m: Machine, base: int, tile_w: int, px: int, py: int) -> u32 {
    let tile = (py / 8) * tile_w + px / 8;
    let address = base + tile * 16 + (py % 8) * 2;
    tile_view_gray(
        pixel_color(
            read_byte(m, address as u16),
            read_byte(m, (address + 1) as u16),
            (7 - px % 8) as u8,
        ),
    )
}

/// Whether `picture` is the tile view of `tile_w` by `tile_h` tiles.
pub open spec fn is_tile_view(
    picture: Seq<u32>,
    m: Machine,
    base: int,
    tile_w: int,
    tile_h: int,
) -> bool {
    &&& picture.len() == (tile_w * 8) * (tile_h * 8)
    &&& forall|px: int, py: int|
        0 <= px < tile_w * 8 && 0 <= py < tile_h * 8 ==> picture[#[trigger] cell(
            px,
            py,
            tile_w * 8,
        )] == tile_view_pixel(m, base, tile_w, px, py)
}

/// The buffer with a tile view in it: an outline, and inside it the
/// picture as blocks of `scale` by `scale` pixels, its corner at
/// (`offset_x`, `offset_y`). With scale 0 the outline alone is drawn.
pub open spec fn memory_view(
    buffer: Seq<u32>,
    picture: Seq<u32>,
    tile_w: int,
    tile_h: int,
    offset_x: int,
    offset_y: int,
    scale: int,
    width: int,
) -> Seq<u32> {
    let framed = bordered(
        buffer,
        offset_x,
        offset_x + tile_w * 8 * scale,
        offset_y,
        offset_y + tile_h * 8 * scale,
        width,
    );
    if scale == 0 {
        framed
    } else {
        blocks_drawn(
            framed,
            picture,
            tile_w * 8,
            offset_x,
            offset_y,
            scale,
            width,
            (tile_h * 8) as nat,
        )
    }
}

/// A pixel's index grows with its column and its row.
pub proof fn lemma_cell_monotonic(x: int, y: int, x_max: int, y_max: int, width: int)
    requires
        0 <= x <= x_max,
        0 <= y <= y_max,
        0 <= width,
    ensures
        0 <= cell(x, y, width) <= cell(x_max, y_max, width),
{
    assert(0 <= y * width <= y_max * width) by (nonlinear_arith)
        requires
            0 <= y <= y_max,
            0 <= width,
    ;
}

/// Paints the pixels in columns `x_1` to `x_2` of row `y`.
fn draw_span(buffer: &mut Vec<u32>, color: u32, x_1: usize, x_2: usize, y: usize, width: usize)
    requires
        x_1 <= x_2,
        cell(x_2 as int, y as int, width as int) < old(buffer)@.len(),
    ensures
        final(buffer)@.len() == old(buffer)@.len(),
        forall|i: int|
            0 <= i < old(buffer)@.len() ==> #[trigger] final(buffer)@[i] == (if in_rectangle(
                i,
                x_1 as int,
                x_2 as int,
                y as int,
                y as int,
                width as int,
            ) {
                color
            } else {
                old(buffer)@[i]
            }),
{
    let size = buffer.len();
    assert(0 <= y * width <= cell(x_2 as int, y as int, width as int)) by (nonlinear_arith)
        requires
            0 <= y,
            0 <= width,
            0 <= x_2,
            cell(x_2 as int, y as int, width as int) == x_2 + y * width,
    ;
    let base = y * width;
    let mut x = x_1;
    while x <= x_2
        invariant
            x_1 <= x <= x_2 + 1,
            base == y * width,
            base + x_2 < buffer@.len(),
            buffer@.len() == old(buffer)@.len(),
            buffer@.len() == size,
            forall|i: int|
                0 <= i < buffer@.len() ==> #[trigger] buffer@[i] == (if in_rectangle(
                    i,
                    x_1 as int,
                    x - 1,
                    y as int,
                    y as int,
                    width as int,
                ) {
                    color
                } else {
                    old(buffer)@[i]
                }),
        decreases x_2 + 1 - x,
    {
        let ghost before = buffer@;
        buffer.set(base + x, color);
        assert forall|i: int| 0 <= i < buffer@.len() implies #[trigger] buffer@[i] == (
        if in_rectangle(i, x_1 as int, x as int, y as int, y as int, width as int) {
            color
        } else {
            old(buffer)@[i]
        }) by {
            if i == base + x {
                assert(i == cell(x as int, y as int, width as int));
            } else if in_rectangle(i, x_1 as int, x as int, y as int, y as int, width as int) {
                let (cx, cy) = choose|cx: int, cy: int|
                    x_1 <= cx <= x && y <= cy <= y && i == #[trigger] cell(cx, cy, width as int);
                assert(cx != x);
                assert(i == cell(cx, cy, width as int));
                assert(in_rectangle(i, x_1 as int, x - 1, y as int, y as int, width as int));
            } else {
                if in_rectangle(i, x_1 as int, x - 1, y as int, y as int, width as int) {
                    let (cx, cy) = choose|cx: int, cy: int|
                        x_1 <= cx <= x - 1 && y <= cy <= y && i == #[trigger] cell(
                            cx,
                            cy,
                            width as int,
                        );
                    assert(i == cell(cx, cy, width as int));
                }
            }
        }
        x = x + 1;
    }
}

/// Fills the rectangle of columns `x_1` to `x_2` and rows `y_1` to `y_2`,
/// bounds included, with `color`; every other pixel stays. A rectangle
/// with a bound below its opposite is empty.
pub fn draw_rectangle(
    buffer: &mut Vec<u32>,
    color: u32,
    x_1: usize,
    x_2: usize,
    y_1: usize,
    y_2: usize,
    width: usize,
)
    requires
        x_1 <= x_2 && y_1 <= y_2 ==> cell(x_2 as int, y_2 as int, width as int) < old(
            buffer,
        )@.len(),
    ensures
        final(buffer)@ == filled(
            old(buffer)@,
            color,
            x_1 as int,
            x_2 as int,
            y_1 as int,
            y_2 as int,
            width as int,
        ),
{
    if x_1 > x_2 || y_1 > y_2 {
        assert(buffer@ =~= filled(
            buffer@,
            color,
            x_1 as int,
            x_2 as int,
            y_1 as int,
            y_2 as int,
            width as int,
        ));
        return ;
    }
    let mut y = y_1;
    while y < y_2
        invariant
            y_1 <= y <= y_2,
            x_1 <= x_2,
            cell(x_2 as int, y_2 as int, width as int) < buffer@.len(),
            buffer@.len() == old(buffer)@.len(),
            forall|i: int|
                0 <= i < buffer@.len() ==> #[trigger] buffer@[i] == (if in_rectangle(
                    i,
                    x_1 as int,
                    x_2 as int,
                    y_1 as int,
                    y - 1,
                    width as int,
                ) {
                    color
                } else {
                    old(buffer)@[i]
                }),
        decreases y_2 - y,
    {
        proof {
            lemma_cell_monotonic(x_2 as int, y as int, x_2 as int, y_2 as int, width as int);
            assert forall|i: int| 0 <= i < buffer@.len() implies in_rectangle(
                i,
                x_1 as int,
                x_2 as int,
                y_1 as int,
                y as int,
                width as int,
            ) == (in_rectangle(i, x_1 as int, x_2 as int, y_1 as int, y - 1, width as int)
                || in_rectangle(i, x_1 as int, x_2 as int, y as int, y as int, width as int)) by {
                lemma_split_rows(i, x_1 as int, x_2 as int, y_1 as int, y as int, width as int);
            }
        }
        draw_span(buffer, color, x_1, x_2, y, width);
        y = y + 1;
    }
    proof {
        assert forall|i: int| 0 <= i < buffer@.len() implies in_rectangle(
            i,
            x_1 as int,
            x_2 as int,
            y_1 as int,
            y_2 as int,
            width as int,
        ) == (in_rectangle(i, x_1 as int, x_2 as int, y_1 as int, y_2 - 1, width as int)
            || in_rectangle(i, x_1 as int, x_2 as int, y_2 as int, y_2 as int, width as int)) by {
            lemma_split_rows(i, x_1 as int, x_2 as int, y_1 as int, y_2 as int, width as int);
        }
    }
    draw_span(buffer, color, x_1, x_2, y_2, width);
    assert(buffer@ =~= filled(
        old(buffer)@,
        color,
        x_1 as int,
        x_2 as int,
        y_1 as int,
        y_2 as int,
        width as int,
    ));
}

/// A rectangle is its rows but the last, and its last row.
pub proof fn lemma_split_rows(i: int, x_1: int, x_2: int, y_1: int, y: int, width: int)
    ensures
        in_rectangle(i, x_1, x_2, y_1, y, width) == (in_rectangle(i, x_1, x_2, y_1, y - 1, width)
            || (y_1 <= y && in_rectangle(i, x_1, x_2, y, y, width))),
{
    if in_rectangle(i, x_1, x_2, y, y, width) && y_1 <= y {
        let (cx, cy) = choose|cx: int, cy: int|
            x_1 <= cx <= x_2 && y <= cy <= y && i == #[trigger] cell(cx, cy, width);
        assert(i == cell(cx, cy, width));
    }
    if in_rectangle(i, x_1, x_2, y_1, y - 1, width) {
        let (cx, cy) = choose|cx: int, cy: int|
            x_1 <= cx <= x_2 && y_1 <= cy <= y - 1 && i == #[trigger] cell(cx, cy, width);
        assert(i == cell(cx, cy, width));
    }
    if in_rectangle(i, x_1, x_2, y_1, y, width) {
        let (cx, cy) = choose|cx: int, cy: int|
            x_1 <= cx <= x_2 && y_1 <= cy <= y && i == #[trigger] cell(cx, cy, width);
        assert(i == cell(cx, cy, width));
        if cy == y {
            assert(in_rectangle(i, x_1, x_2, y, y, width));
        } else {
            assert(in_rectangle(i, x_1, x_2, y_1, y - 1, width));
        }
    }
}

/// Draws the outline one pixel outside the rectangle of columns `x_1` to
/// `x_2` and rows `y_1` to `y_2`; every other pixel stays.
pub fn draw_line_border(
    buffer: &mut Vec<u32>,
    x_1: usize,
    x_2: usize,
    y_1: usize,
    y_2: usize,
    buffer_width: usize,
)
    requires
        border_fits(
            old(buffer)@.len() as int,
            x_1 as int,
            x_2 as int,
            y_1 as int,
            y_2 as int,
            buffer_width as int,
        ),
    ensures
        final(buffer)@ == bordered(
            old(buffer)@,
            x_1 as int,
            x_2 as int,
            y_1 as int,
            y_2 as int,
            buffer_width as int,
        ),
{
    let size = buffer.len();
    if x_1 >= 1 && x_1 - 1 <= x_2 + 1 {
        draw_rectangle(buffer, BORDER, x_1 - 1, x_2 + 1, y_1 - 1, y_1 - 1, buffer_width);
        draw_rectangle(buffer, BORDER, x_1 - 1, x_2 + 1, y_2 + 1, y_2 + 1, buffer_width);
    }
    if y_1 >= 1 && y_1 - 1 <= y_2 + 1 {
        draw_rectangle(buffer, BORDER, x_1 - 1, x_1 - 1, y_1 - 1, y_2 + 1, buffer_width);
        draw_rectangle(buffer, BORDER, x_2 + 1, x_2 + 1, y_1 - 1, y_2 + 1, buffer_width);
    }
    assert(buffer@ =~= bordered(
        old(buffer)@,
        x_1 as int,
        x_2 as int,
        y_1 as int,
        y_2 as int,
        buffer_width as int,
    ));
}

/// The cells of a grid are ordered by row and column.
pub proof fn lemma_grid_bounds(column: int, row: int, columns: int, rows: int, scale: int)
    requires
        0 <= column < columns,
        0 <= row < rows,
        0 <= scale,
    ensures
        0 <= column * scale,
        column * scale + scale <= columns * scale,
        0 <= row * scale,
        row * scale + scale <= rows * scale,
        0 <= row * columns,
        row * columns + columns <= rows * columns,
{
    assert(0 <= column * scale && column * scale + scale <= columns * scale) by (nonlinear_arith)
        requires
            0 <= column < columns,
            0 <= scale,
    ;
    assert(0 <= row * scale && row * scale + scale <= rows * scale) by (nonlinear_arith)
        requires
            0 <= row < rows,
            0 <= scale,
    ;
    assert(0 <= row * columns && row * columns + columns <= rows * columns) by (nonlinear_arith)
        requires
            0 <= row < rows,
            0 <= columns,
    ;
}

/// Draws the picture `colors`, `columns` pixels to a row and `rows` rows,
/// as blocks of `scale` by `scale` pixels with its corner at column `left`
/// of row `top`. The blocks have to lie within the buffer.
pub fn draw_blocks(
    buffer: &mut Vec<u32>,
    colors: &Vec<u32>,
    columns: usize,
    rows: usize,
    left: usize,
    top: usize,
    scale: usize,
    width: usize,
)
    requires
        colors@.len() == columns * rows,
        1 <= scale,
        top + rows * scale <= usize::MAX,
        columns >= 1 && rows >= 1 ==> cell(
            left + columns * scale - 1,
            top + rows * scale - 1,
            width as int,
        ) < old(buffer)@.len(),
    ensures
        final(buffer)@ == blocks_drawn(
            old(buffer)@,
            colors@,
            columns as int,
            left as int,
            top as int,
            scale as int,
            width as int,
            rows as nat,
        ),
{
    let size = buffer.len();
    let total = colors.len();
    let ghost right = left + columns * scale;
    let ghost bottom = top + rows * scale;
    assert(columns * rows == rows * columns) by (nonlinear_arith);
    let mut r: usize = 0;
    while r < rows
        invariant
            r <= rows,
            1 <= scale,
            total == rows * columns,
            colors@.len() == columns * rows,
            buffer@.len() == size,
            right == left + columns * scale,
            bottom == top + rows * scale,
            bottom <= usize::MAX,
            columns >= 1 && rows >= 1 ==> cell(right - 1, bottom - 1, width as int) < size,
            buffer@ == blocks_drawn(
                old(buffer)@,
                colors@,
                columns as int,
                left as int,
                top as int,
                scale as int,
                width as int,
                r as nat,
            ),
        decreases rows - r,
    {
        let ghost row_start = buffer@;
        proof {
            lemma_grid_bounds(0, r as int, 1, rows as int, scale as int);
        }
        let y = top + r * scale;
        let mut c: usize = 0;
        while c < columns
            invariant
                c <= columns,
                r < rows,
                1 <= scale,
                y == top + r * scale,
                y + scale <= bottom <= usize::MAX,
                total == rows * columns,
                colors@.len() == columns * rows,
                buffer@.len() == size,
                right == left + columns * scale,
                bottom == top + rows * scale,
                columns >= 1 && rows >= 1 ==> cell(right - 1, bottom - 1, width as int) < size,
                buffer@ == row_blocks(
                    row_start,
                    colors@,
                    r * columns,
                    left as int,
                    y as int,
                    scale as int,
                    width as int,
                    c as nat,
                ),
            decreases columns - c,
        {
            proof {
                lemma_grid_bounds(c as int, r as int, columns as int, rows as int, scale as int);
                lemma_cell_monotonic(
                    left + c * scale + scale - 1,
                    y + scale - 1,
                    right - 1,
                    bottom - 1,
                    width as int,
                );
                lemma_cell_monotonic(right - 1, 0, right - 1, bottom - 1, width as int);
            }
            let x = left + c * scale;
            let color = colors[r * columns + c];
            draw_rectangle(buffer, color, x, x + scale - 1, y, y + scale - 1, width);
            c = c + 1;
        }
        r = r + 1;
    }
}

impl GameBoy {
    /// Draws the machine's picture into `buffer`, whose rows hold `width`
    /// pixels: an outline around the view, and the picture with each of
    /// its pixels `scale` by `scale` pixels large. The outline and the
    /// picture have to lie within the buffer.
    pub fn render_screen(
        &self,
        buffer: &mut Vec<u32>,
        offset_x: usize,
        offset_y: usize,
        scale: usize,
        width: usize,
    )
        requires
            self.wf(),
            border_fits(
                old(buffer)@.len() as int,
                offset_x as int,
                offset_x + 160 * scale,
                offset_y as int,
                offset_y + 144 * scale,
                width as int,
            ),
            scale >= 1 ==> cell(offset_x + 160 * scale, offset_y + 144 * scale, width as int)
                < old(buffer)@.len(),
        ensures
            final(buffer)@ == screen_view(
                old(buffer)@,
                self@.framebuffer,
                offset_x as int,
                offset_y as int,
                scale as int,
                width as int,
            ),
    {
        let size = buffer.len();
        let end_x = offset_x + 160 * scale;
        let end_y = offset_y + 144 * scale;
        draw_line_border(buffer, offset_x, end_x, offset_y, end_y, width);
        let ghost framed = buffer@;
        let columns = 160 * scale;
        let rows = 144 * scale;
        let mut y: usize = 0;
        while y < rows
            invariant
                y <= rows,
                columns == 160 * scale,
                rows == 144 * scale,
                end_x == offset_x + columns,
                end_y == offset_y + rows,
                end_x < usize::MAX,
                end_y < usize::MAX,
                self@.framebuffer.len() == 23040,
                buffer@.len() == size,
                scale >= 1 ==> cell(end_x as int, end_y as int, width as int) < size,
                buffer@ == screen_rows(
                    framed,
                    self@.framebuffer,
                    offset_x + 1,
                    offset_y + 1,
                    scale as int,
                    width as int,
                    y as nat,
                ),
            decreases rows - y,
        {
            let ghost row_start = buffer@;
            proof {
                vstd::arithmetic::div_mod::lemma_multiply_divide_lt(y as int, scale as int, 144);
                lemma_cell_monotonic(
                    end_x as int,
                    offset_y + y + 1,
                    end_x as int,
                    end_y as int,
                    width as int,
                );
                assert(0 <= (offset_y + y + 1) * width <= cell(
                    end_x as int,
                    offset_y + y + 1,
                    width as int,
                )) by (nonlinear_arith)
                    requires
                        0 <= offset_y + y + 1,
                        0 <= width,
                        0 <= end_x,
                        cell(end_x as int, offset_y + y + 1, width as int) == end_x + (offset_y + y
                            + 1) * width,
                ;
            }
            let base = (offset_y + y + 1) * width;
            let line = (y / scale) * 160;
            let mut x: usize = 0;
            while x < columns
                invariant
                    x <= columns,
                    y < rows,
                    scale >= 1,
                    columns == 160 * scale,
                    end_x == offset_x + columns,
                    end_x < usize::MAX,
                    base == (offset_y + y + 1) * width,
                    base + end_x < size,
                    line == (y / scale) * 160,
                    y / scale < 144,
                    self@.framebuffer.len() == 23040,
                    buffer@.len() == size,
                    buffer@ == screen_row(
                        row_start,
                        self@.framebuffer,
                        offset_x + 1,
                        offset_y + 1,
                        scale as int,
                        width as int,
                        y as int,
                        x as nat,
                    ),
                decreases columns - x,
            {
                proof {
                    vstd::arithmetic::div_mod::lemma_multiply_divide_lt(
                        x as int,
                        scale as int,
                        160,
                    );
                }
                let pixel = self.framebuffer[x / scale + line];
                buffer.set(base + (offset_x + x + 1), pixel);
                x = x + 1;
            }
            y = y + 1;
        }
    }

    /// Draws the three palettes into `buffer`: a grid of three rows of
    /// four outlined squares, each in the gray that its palette gives to
    /// its color index. The grid and its outlines have to lie within the
    /// buffer.
    pub fn render_palettes(
        &self,
        buffer: &mut Vec<u32>,
        offset_x: usize,
        offset_y: usize,
        scale: usize,
        width: usize,
    )
        requires
            self.wf(),
            1 <= offset_x,
            1 <= offset_y,
            offset_y + 3 * scale + 1 <= usize::MAX,
            cell(offset_x + 4 * scale + 1, offset_y + 3 * scale + 1, width as int) < old(
                buffer,
            )@.len(),
        ensures
            final(buffer)@ == palette_cells(
                old(buffer)@,
                self@.io,
                offset_x as int,
                offset_y as int,
                scale as int,
                width as int,
                12,
            ),
    {
        let size = buffer.len();
        let right = offset_x + 4 * scale + 1;
        let bottom = offset_y + 3 * scale + 1;
        let mut k: usize = 0;
        while k < 12
            invariant
                k <= 12,
                self.wf(),
                1 <= offset_x,
                1 <= offset_y,
                buffer@.len() == size,
                right == offset_x + 4 * scale + 1,
                bottom == offset_y + 3 * scale + 1,
                cell(right as int, bottom as int, width as int) < size,
                buffer@ == palette_cells(
                    old(buffer)@,
                    self@.io,
                    offset_x as int,
                    offset_y as int,
                    scale as int,
                    width as int,
                    k as nat,
                ),
            decreases 12 - k,
        {
            let column = k % 4;
            let row = k / 4;
            proof {
                lemma_grid_bounds(column as int, row as int, 4, 3, scale as int);
                assert(scale * column == column * scale && scale * row == row * scale)
                    by (nonlinear_arith);
                lemma_cell_monotonic(
                    offset_x + column * scale + scale + 1,
                    offset_y + row * scale + scale + 1,
                    right as int,
                    bottom as int,
                    width as int,
                );
                lemma_cell_monotonic(
                    offset_x + column * scale + scale,
                    offset_y + row * scale + scale,
                    offset_x + column * scale + scale + 1,
                    offset_y + row * scale + scale + 1,
                    width as int,
                );
                lemma_cell_monotonic(right as int, 0, right as int, bottom as int, width as int);
            }
            let x = offset_x + scale * column;
            let y = offset_y + scale * row;
            let color = shade_of(Self::lookup_palette(self.io[0x47 + row], column as u8));
            draw_rectangle(buffer, color, x, x + scale, y, y + scale, width);
            proof {
                lemma_border_fits(
                    size as int,
                    x as int,
                    x + scale,
                    y as int,
                    y + scale,
                    width as int,
                );
            }
            draw_line_border(buffer, x, x + scale, y, y + scale, width);
            k = k + 1;
        }
    }

    /// The tile view of the memory from `memory_start` on: a picture of
    /// `tile_w` by `tile_h` tiles of 8 by 8 pixels, read as the CPU would
    /// read them, at no cost. The tiles have to lie within the address
    /// space.
    pub fn tile_picture(&self, memory_start: usize, tile_w: usize, tile_h: usize) -> (picture:
        Vec<u32>)
        requires
            self.wf(),
            tile_w <= 0x1000,
            tile_h <= 0x1000,
            memory_start + tile_w * tile_h * 16 <= 0x10000,
        ensures
            is_tile_view(picture@, self@, memory_start as int, tile_w as int, tile_h as int),
    {
        let columns = tile_w * 8;
        let rows = tile_h * 8;
        let mut picture: Vec<u32> = Vec::new();
        let mut py: usize = 0;
        while py < rows
            invariant
                py <= rows,
                self.wf(),
                columns == tile_w * 8,
                rows == tile_h * 8,
                tile_w <= 0x1000,
                tile_h <= 0x1000,
                memory_start + tile_w * tile_h * 16 <= 0x10000,
                picture@.len() == py * columns,
                forall|x: int, y: int|
                    0 <= x < columns && 0 <= y < py ==> picture@[#[trigger] cell(
                        x,
                        y,
                        columns as int,
                    )] == tile_view_pixel(self@, memory_start as int, tile_w as int, x, y),
            decreases rows - py,
        {
            let mut px: usize = 0;
            while px < columns
                invariant
                    px <= columns,
                    py < rows,
                    self.wf(),
                    columns == tile_w * 8,
                    rows == tile_h * 8,
                    tile_w <= 0x1000,
                    tile_h <= 0x1000,
                    memory_start + tile_w * tile_h * 16 <= 0x10000,
                    picture@.len() == py * columns + px,
                    forall|x: int, y: int|
                        0 <= x < columns && 0 <= y < py ==> picture@[#[trigger] cell(
                            x,
                            y,
                            columns as int,
                        )] == tile_view_pixel(self@, memory_start as int, tile_w as int, x, y),
                    forall|x: int|
                        0 <= x < px ==> picture@[#[trigger] cell(x, py as int, columns as int)]
                            == tile_view_pixel(
                            self@,
                            memory_start as int,
                            tile_w as int,
                            x,
                            py as int,
                        ),
                decreases columns - px,
            {
                proof {
                    lemma_grid_bounds(
                        (px / 8) as int,
                        (py / 8) as int,
                        tile_w as int,
                        tile_h as int,
                        0,
                    );
                    assert(tile_w * tile_h == tile_h * tile_w) by (nonlinear_arith);
                }
                let tile = (py / 8) * tile_w + px / 8;
                let address = memory_start + tile * 16 + (py % 8) * 2;
                let low = self.peek(address as u16);
                let high = self.peek((address + 1) as u16);
                let color = Self::decode_pixel(low, high, (7 - px % 8) as u8);
                let ghost before = picture@;
                picture.push(0xFF000000 + (color as u32) * 85 * 0x010101);
                proof {
                    assert forall|x: int, y: int| 0 <= x < columns && 0 <= y < py implies picture@[#[trigger] cell(
                        x,
                        y,
                        columns as int,
                    )] == tile_view_pixel(self@, memory_start as int, tile_w as int, x, y) by {
                        lemma_grid_bounds(x, y, columns as int, py as int, 0);
                        assert(picture@[cell(x, y, columns as int)] == before[cell(
                            x,
                            y,
                            columns as int,
                        )]);
                    }
                    assert forall|x: int| 0 <= x < px + 1 implies picture@[#[trigger] cell(
                        x,
                        py as int,
                        columns as int,
                    )] == tile_view_pixel(self@, memory_start as int, tile_w as int, x, py as int) by {
                        if x < px {
                            assert(picture@[cell(x, py as int, columns as int)] == before[cell(
                                x,
                                py as int,
                                columns as int,
                            )]);
                        }
                    }
                }
                px = px + 1;
            }
            proof {
                assert((py + 1) * columns == py * columns + columns) by (nonlinear_arith);
            }
            py = py + 1;
        }
        proof {
            assert(columns * rows == rows * columns) by (nonlinear_arith);
        }
        picture
    }

    /// Draws the tile view of the memory from `memory_start` on into
    /// `buffer`, whose rows hold `width` pixels: an outline, and inside it
    /// the picture as blocks of `pixel_scale` by `pixel_scale` pixels. The
    /// tiles have to lie within the address space, the view within the
    /// buffer.
    pub fn render_memory(
        &self,
        buffer: &mut Vec<u32>,
        memory_start: usize,
        tile_w: usize,
        tile_h: usize,
        offset_x: usize,
        offset_y: usize,
        pixel_scale: usize,
        width: usize,
    )
        requires
            self.wf(),
            tile_w <= 0x1000,
            tile_h <= 0x1000,
            memory_start + tile_w * tile_h * 16 <= 0x10000,
            1 <= offset_x,
            1 <= offset_y,
            offset_y + tile_h * 8 * pixel_scale + 1 <= usize::MAX,
            cell(
                offset_x + tile_w * 8 * pixel_scale + 1,
                offset_y + tile_h * 8 * pixel_scale + 1,
                width as int,
            ) < old(buffer)@.len(),
        ensures
            exists|picture: Seq<u32>|
                is_tile_view(picture, self@, memory_start as int, tile_w as int, tile_h as int)
                    && final(buffer)@ == memory_view(
                    old(buffer)@,
                    picture,
                    tile_w as int,
                    tile_h as int,
                    offset_x as int,
                    offset_y as int,
                    pixel_scale as int,
                    width as int,
                ),
    {
        let size = buffer.len();
        let columns = tile_w * 8;
        let rows = tile_h * 8;
        proof {
            assert(0 <= columns * pixel_scale && 0 <= rows * pixel_scale) by (nonlinear_arith)
                requires
                    0 <= columns,
                    0 <= rows,
                    0 <= pixel_scale,
            ;
            lemma_cell_monotonic(
                offset_x + columns * pixel_scale + 1,
                0,
                offset_x + columns * pixel_scale + 1,
                offset_y + rows * pixel_scale + 1,
                width as int,
            );
        }
        let picture = self.tile_picture(memory_start, tile_w, tile_h);
        let end_x = offset_x + columns * pixel_scale;
        let end_y = offset_y + rows * pixel_scale;
        proof {
            lemma_border_fits(
                size as int,
                offset_x as int,
                end_x as int,
                offset_y as int,
                end_y as int,
                width as int,
            );
        }
        draw_line_border(buffer, offset_x, end_x, offset_y, end_y, width);
        if pixel_scale > 0 {
            proof {
                assert(columns * rows == (tile_w * 8) * (tile_h * 8));
                if columns >= 1 && rows >= 1 {
                    lemma_cell_monotonic(
                        end_x - 1,
                        end_y - 1,
                        end_x + 1,
                        end_y + 1,
                        width as int,
                    );
                }
            }
            draw_blocks(buffer, &picture, columns, rows, offset_x, offset_y, pixel_scale, width);
        }
    }
}

} // verus!
