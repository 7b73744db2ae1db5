//! Drawing the peg solitaire board into the framebuffer.

use vstd::prelude::*;
use crate::graphics::framebuffer::{same_geometry, Framebuffer};
use crate::graphics::pixels::{color_byte, lemma_offset_monotone, lemma_rect_pixel, pixel_offset, rect_written};
use vstd::arithmetic::div_mod::lemma_fundamental_div_mod_converse;
use crate::steckhalma::{cell_index, Board, Pos, Position};

verus! {

pub struct DrawSettings {
    pub colour_background: u32,
    pub colour_border: u32,
    pub colour_nopeg: u32,
    pub colour_peg: u32,
    pub colour_highlight: u32,
    pub field_size: usize,
    pub margin: usize,
}

/// The side of the drawn board: seven fields and nine margins.
pub open spec fn board_side(s: DrawSettings) -> int {
    s.field_size * 7 + s.margin * 9
}

/// The fill colour of a field.
pub open spec fn field_colour(s: DrawSettings, p: Position) -> u32 {
    match p {
        Position::Invalid => s.colour_background,
        Position::NoPeg => s.colour_nopeg,
        Position::Peg => s.colour_peg,
    }
}

/// The border colour of field (`x`, `y`): highlighted under the cursor.
pub open spec fn field_border(s: DrawSettings, cursor: Pos, x: int, y: int, p: Position) -> u32 {
    if cursor.x == x && cursor.y == y {
        s.colour_highlight
    } else {
        field_colour(s, p)
    }
}

/// Where field number `i` (counted along one axis) starts, given where the
/// board starts.
pub open spec fn field_origin(s: DrawSettings, origin: int, i: int) -> int {
    origin + i * (s.field_size + s.margin) + s.margin
}

/// `mem` after the first `count` fields are drawn, column after column and
/// top to bottom within a column.
pub open spec fn board_fields(
    mem: Seq<u8>,
    width: int,
    bpp: int,
    s: DrawSettings,
    ox: int,
    oy: int,
    cells: Seq<Position>,
    cursor: Pos,
    count: int,
) -> Seq<u8>
    decreases count,
{
    if count <= 0 {
        mem
    } else {
        let x = (count - 1) / 7;
        let y = (count - 1) % 7;
        let p = cells[y * 7 + x];
        rect_written(
            board_fields(mem, width, bpp, s, ox, oy, cells, cursor, count - 1),
            width,
            bpp,
            field_origin(s, ox, x),
            field_origin(s, oy, y),
            s.field_size as int,
            s.field_size as int,
            field_colour(s, p),
            field_border(s, cursor, x, y, p),
        )
    }
}

/// `mem` after the whole board is drawn: the background square, then the 49
/// fields.
pub open spec fn board_drawing(
    mem: Seq<u8>,
    width: int,
    bpp: int,
    s: DrawSettings,
    ox: int,
    oy: int,
    cells: Seq<Position>,
    cursor: Pos,
) -> Seq<u8> {
    board_fields(
        rect_written(
            mem,
            width,
            bpp,
            ox,
            oy,
            board_side(s),
            board_side(s),
            s.colour_background,
            s.colour_border,
        ),
        width,
        bpp,
        s,
        ox,
        oy,
        cells,
        cursor,
        49,
    )
}

proof fn lemma_field_in_frame(s: DrawSettings, origin: int, a: int, width: int)
    requires
        0 <= a < 7,
        origin >= 0,
        origin + board_side(s) < width,
    ensures
        0 <= field_origin(s, origin, a),
        field_origin(s, origin, a) + s.field_size < width,
{
    let step = s.field_size + s.margin;
    assert(0 <= a * step <= 6 * step) by (nonlinear_arith)
        requires
            0 <= a < 7,
            step >= 0,
    ;
}

proof fn lemma_fields_apart(s: DrawSettings, origin: int, a: int, b: int, p: int)
    requires
        0 <= a < 7,
        0 <= b < 7,
        a != b,
        s.margin >= 1,
        field_origin(s, origin, a) < p <= field_origin(s, origin, a) + s.field_size,
    ensures
        !(field_origin(s, origin, b) <= p <= field_origin(s, origin, b) + s.field_size),
{
    let step = s.field_size + s.margin;
    if b > a {
        assert((b - a) * step >= step) by (nonlinear_arith)
            requires
                b - a >= 1,
                step >= 0,
        ;
        assert(b * step - a * step == (b - a) * step) by (nonlinear_arith);
    } else {
        assert((a - b) * step >= step) by (nonlinear_arith)
            requires
                a - b >= 1,
                step >= 0,
        ;
        assert(a * step - b * step == (a - b) * step) by (nonlinear_arith);
    }
}

/// The bytes of an inside pixel of field (`x`, `y`) after the first `count`
/// fields are drawn: the fill colour of cell `y * 7 + x` once that field is
/// among them, else as before.
proof fn lemma_fields_pixel(
    mem: Seq<u8>,
    width: int,
    bpp: int,
    s: DrawSettings,
    ox: int,
    oy: int,
    cells: Seq<Position>,
    cursor: Pos,
    count: int,
    x: int,
    y: int,
    px: int,
    py: int,
    k: int,
)
    requires
        cells.len() == 49,
        bpp > 0,
        s.margin >= 1,
        0 <= x < 7,
        0 <= y < 7,
        0 <= count <= 49,
        ox >= 0,
        oy >= 0,
        ox + board_side(s) < width,
        field_origin(s, ox, x) < px <= field_origin(s, ox, x) + s.field_size,
        field_origin(s, oy, y) < py <= field_origin(s, oy, y) + s.field_size,
        0 <= k < bpp,
        pixel_offset(width, bpp, px, py) + k < mem.len(),
    ensures
        board_fields(mem, width, bpp, s, ox, oy, cells, cursor, count).len() == mem.len(),
        board_fields(mem, width, bpp, s, ox, oy, cells, cursor, count)[pixel_offset(width, bpp, px, py) + k]
            == if x * 7 + y < count {
            color_byte(field_colour(s, cells[y * 7 + x]), k)
        } else {
            mem[pixel_offset(width, bpp, px, py) + k]
        },
    decreases count,
{
    lemma_field_in_frame(s, ox, x, width);
    lemma_field_in_frame(s, oy, y, oy + board_side(s) + 1);
    if count > 0 {
        let c = count - 1;
        let xj = c / 7;
        let yj = c % 7;
        lemma_fields_pixel(mem, width, bpp, s, ox, oy, cells, cursor, c, x, y, px, py, k);
        lemma_field_in_frame(s, ox, xj, width);
        lemma_field_in_frame(s, oy, yj, oy + board_side(s) + 1);
        let prev = board_fields(mem, width, bpp, s, ox, oy, cells, cursor, c);
        let p = cells[yj * 7 + xj];
        lemma_rect_pixel(
            prev,
            width,
            bpp,
            field_origin(s, ox, xj),
            field_origin(s, oy, yj),
            s.field_size as int,
            s.field_size as int,
            field_colour(s, p),
            field_border(s, cursor, xj, yj, p),
            px,
            py,
            k,
        );
        if c == x * 7 + y {
            lemma_fundamental_div_mod_converse(c, 7, x, y);
        } else {
            if xj != x {
                lemma_fields_apart(s, ox, x, xj, px);
            } else {
                assert(yj != y);
                lemma_fields_apart(s, oy, y, yj, py);
            }
        }
    }
}

/// The drawing shows each cell of the board in its own field: every pixel
/// inside field (`x`, `y`) (past its border, which may carry the cursor's
/// highlight) has the colour of the cell at column `x`, row `y` — the
/// background colour for a cell off the board, the empty colour for a hole
/// without a peg, the peg colour for a peg. Field (`x`, `y`) starts `margin`
/// pixels past `x` (resp. `y`) steps of `field_size + margin` from the
/// board's corner; the fields are at least a pixel apart and the board lies
/// within the frame's rows.
pub proof fn lemma_board_shows_cells(
    mem: Seq<u8>,
    width: int,
    bpp: int,
    s: DrawSettings,
    ox: int,
    oy: int,
    cells: Seq<Position>,
    cursor: Pos,
    x: usize,
    y: usize,
    px: int,
    py: int,
    k: int,
)
    requires
        cells.len() == 49,
        bpp > 0,
        s.margin >= 1,
        x < 7,
        y < 7,
        ox >= 0,
        oy >= 0,
        ox + s.field_size * 7 + s.margin * 9 < width,
        ox + x * (s.field_size + s.margin) + s.margin < px <= ox + x * (s.field_size + s.margin)
            + s.margin + s.field_size,
        oy + y * (s.field_size + s.margin) + s.margin < py <= oy + y * (s.field_size + s.margin)
            + s.margin + s.field_size,
        0 <= k < bpp,
        pixel_offset(width, bpp, px, py) + k < mem.len(),
    ensures
        board_drawing(mem, width, bpp, s, ox, oy, cells, cursor)[pixel_offset(width, bpp, px, py) + k]
            == color_byte(
            match cells[cell_index((Pos { x: x, y: y }))] {
                Position::Invalid => s.colour_background,
                Position::NoPeg => s.colour_nopeg,
                Position::Peg => s.colour_peg,
            },
            k,
        ),
{
    let side = board_side(s);
    lemma_field_in_frame(s, ox, x as int, width);
    let background = rect_written(mem, width, bpp, ox, oy, side, side, s.colour_background, s.colour_border);
    lemma_rect_pixel(mem, width, bpp, ox, oy, side, side, s.colour_background, s.colour_border, px, py, k);
    lemma_fields_pixel(background, width, bpp, s, ox, oy, cells, cursor, 49, x as int, y as int, px, py, k);
}

impl DrawSettings {
    fn total_size(&self) -> (r: usize)
        requires
            board_side(*self) <= usize::MAX,
        ensures
            r == board_side(*self),
    {
        self.field_size * 7 + self.margin * 9
    }
}

/// Whether the board drawn at `offset` with `settings` lies in the frame
/// memory (see `draw`).
pub fn fits_board(fb: &Framebuffer, settings: &DrawSettings, offset: (usize, usize)) -> (r: bool)
    ensures
        r == (board_side(*settings) <= usize::MAX && fb.can_draw_block(
            offset.0 as int,
            offset.1 as int,
            board_side(*settings) + 1,
            board_side(*settings) + 1,
        )),
{
    let fields = match settings.field_size.checked_mul(7) {
        Some(v) => v,
        None => return false,
    };
    let margins = match settings.margin.checked_mul(9) {
        Some(v) => v,
        None => return false,
    };
    let side = match fields.checked_add(margins) {
        Some(v) => v,
        None => return false,
    };
    if side == usize::MAX {
        return false;
    }
    fb.fits_block(offset.0, offset.1, side + 1, side + 1)
}

/// Draws the board with its top-left corner at `offset`: a background square
/// of side `field_size * 7 + margin * 9`, then one square per field in the
/// colour of its content, with the field under the cursor bordered in the
/// highlight colour.
pub fn draw(
    fb: &mut Framebuffer,
    settings: &DrawSettings,
    offset: (usize, usize),
    board: &Board,
    cursor_pos: Pos,
)
    requires
        board_side(*settings) <= usize::MAX,
        old(fb).can_draw_block(
            offset.0 as int,
            offset.1 as int,
            board_side(*settings) + 1,
            board_side(*settings) + 1,
        ),
    ensures
        same_geometry(*final(fb), *old(fb)),
        final(fb).memory@ == board_drawing(
            old(fb).memory@,
            old(fb).width as int,
            old(fb).bytes_per_pixel as int,
            *settings,
            offset.0 as int,
            offset.1 as int,
            board.cells(),
            cursor_pos,
        ),
{
    let ghost start = *fb;
    let ghost s = *settings;
    let total = settings.total_size();
    fb.draw_rectangle(
        offset.0,
        offset.1,
        total,
        total,
        settings.colour_background,
        settings.colour_border,
    );
    let ghost after_square = fb.memory@;
    let mut x: usize = 0;
    while x < 7
        invariant
            same_geometry(*fb, start),
            start.can_draw_block(offset.0 as int, offset.1 as int, total + 1, total + 1),
            total == board_side(s),
            s == *settings,
            x <= 7,
            fb.memory@ == board_fields(
                after_square,
                start.width as int,
                start.bytes_per_pixel as int,
                s,
                offset.0 as int,
                offset.1 as int,
                board.cells(),
                cursor_pos,
                x * 7,
            ),
        decreases 7 - x,
    {
        let mut y: usize = 0;
        while y < 7
            invariant
                same_geometry(*fb, start),
                start.can_draw_block(offset.0 as int, offset.1 as int, total + 1, total + 1),
                total == board_side(s),
                s == *settings,
                x < 7,
                y <= 7,
                fb.memory@ == board_fields(
                    after_square,
                    start.width as int,
                    start.bytes_per_pixel as int,
                    s,
                    offset.0 as int,
                    offset.1 as int,
                    board.cells(),
                    cursor_pos,
                    x * 7 + y,
                ),
            decreases 7 - y,
        {
            let colour = match board.at(Pos::new(x, y)) {
                Position::Invalid => settings.colour_background,
                Position::NoPeg => settings.colour_nopeg,
                Position::Peg => settings.colour_peg,
            };
            let border = if cursor_pos.x == x && cursor_pos.y == y {
                settings.colour_highlight
            } else {
                colour
            };
            let step = settings.field_size + settings.margin;
            proof {
                assert(x * step <= 6 * step) by (nonlinear_arith)
                    requires
                        x <= 6,
                ;
                assert(y * step <= 6 * step) by (nonlinear_arith)
                    requires
                        y <= 6,
                ;
                let fx = field_origin(s, offset.0 as int, x as int);
                let fy = field_origin(s, offset.1 as int, y as int);
                let f = s.field_size as int;
                assert(fx + f <= offset.0 + total);
                assert(fy + f <= offset.1 + total);
                lemma_offset_monotone(
                    start.width as int,
                    start.bytes_per_pixel as int,
                    fx + f,
                    fy + f,
                    offset.0 + total,
                    offset.1 + total,
                );
                assert((x * 7 + y) / 7 == x && (x * 7 + y) % 7 == y) by (nonlinear_arith)
                    requires
                        y < 7,
                ;
            }
            fb.draw_rectangle(
                offset.0 + x * step + settings.margin,
                offset.1 + y * step + settings.margin,
                settings.field_size,
                settings.field_size,
                colour,
                border,
            );
            y += 1;
        }
        x += 1;
    }
}

} // verus!
