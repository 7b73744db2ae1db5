//! Frame memory as bytes: where a pixel lies and which bytes a colour
//! becomes. Pixels are 2 or 4 bytes, stored little-endian, row after row of
//! `width` pixels.

use vstd::prelude::*;
use vstd::arithmetic::div_mod::lemma_fundamental_div_mod_converse;

verus! {

/// Byte `k` (least significant first) of a colour.
pub open spec fn color_byte(color: u32, k: int) -> u8 {
    if k == 0 {
        (color % 0x100) as u8
    } else if k == 1 {
        ((color / 0x100) % 0x100) as u8
    } else if k == 2 {
        ((color / 0x1_0000) % 0x100) as u8
    } else {
        ((color / 0x100_0000) % 0x100) as u8
    }
}

/// The byte offset of pixel (`x`, `y`) in a frame `width` pixels wide.
pub open spec fn pixel_offset(width: int, bpp: int, x: int, y: int) -> int {
    y * (width * bpp) + x * bpp
}

/// A supported pixel size in bytes.
pub open spec fn supported_bpp(bpp: int) -> bool {
    bpp == 2 || bpp == 4
}

/// `mem` after the `count` pixels that start at byte `base` are given the
/// colours `colour(0)`, ..., `colour(count - 1)`.
pub open spec fn span_written(
    mem: Seq<u8>,
    base: int,
    bpp: int,
    count: int,
    colour: spec_fn(int) -> u32,
) -> Seq<u8> {
    Seq::new(
        mem.len(),
        |i: int|
            if base <= i < base + count * bpp {
                color_byte(colour((i - base) / bpp), (i - base) % bpp)
            } else {
                mem[i]
            },
    )
}

/// One more pixel written after a span extends the span by one.
pub proof fn lemma_span_step(
    mem: Seq<u8>,
    base: int,
    bpp: int,
    count: int,
    colour: spec_fn(int) -> u32,
)
    requires
        supported_bpp(bpp),
        0 <= count,
    ensures
        span_written(
            span_written(mem, base, bpp, count, colour),
            base + count * bpp,
            bpp,
            1,
            |j: int| colour(count),
        ) == span_written(mem, base, bpp, count + 1, colour),
{
    let a = span_written(
        span_written(mem, base, bpp, count, colour),
        base + count * bpp,
        bpp,
        1,
        |j: int| colour(count),
    );
    let b = span_written(mem, base, bpp, count + 1, colour);
    assert forall|i: int| 0 <= i < mem.len() implies a[i] == b[i] by {
        if base + count * bpp <= i < base + count * bpp + bpp {
            assert((i - base) / bpp == count) by (nonlinear_arith)
                requires
                    base + count * bpp <= i < base + count * bpp + bpp,
                    bpp > 0,
            ;
            assert((i - base) % bpp == i - (base + count * bpp)) by (nonlinear_arith)
                requires
                    base + count * bpp <= i < base + count * bpp + bpp,
                    bpp > 0,
            ;
            assert((i - (base + count * bpp)) / bpp == 0) by (nonlinear_arith)
                requires
                    base + count * bpp <= i < base + count * bpp + bpp,
                    bpp > 0,
            ;
            assert((i - (base + count * bpp)) % bpp == i - (base + count * bpp)) by (nonlinear_arith)
                requires
                    base + count * bpp <= i < base + count * bpp + bpp,
                    bpp > 0,
            ;
        }
        assert((count + 1) * bpp == count * bpp + bpp) by (nonlinear_arith);
    }
    assert(a =~= b);
}

/// Pixel offsets grow with both coordinates.
pub proof fn lemma_offset_monotone(width: int, bpp: int, x: int, y: int, x2: int, y2: int)
    requires
        0 <= x <= x2,
        0 <= y <= y2,
        width >= 0,
        bpp >= 0,
    ensures
        0 <= pixel_offset(width, bpp, x, y) <= pixel_offset(width, bpp, x2, y2),
        0 <= y * (width * bpp) <= y2 * (width * bpp),
        0 <= x * bpp <= x2 * bpp,
{
    assert(0 <= y * (width * bpp) <= y2 * (width * bpp)) by (nonlinear_arith)
        requires
            0 <= y <= y2,
            width >= 0,
            bpp >= 0,
    ;
    assert(0 <= x * bpp <= x2 * bpp) by (nonlinear_arith)
        requires
            0 <= x <= x2,
            bpp >= 0,
    ;
}

/// The colour of pixel (`x`, `y`) of a rectangle drawn from (`x0`, `y0`)
/// with `w` and `h` beyond its first column and row: the border colour on
/// the first column and first row (and on column `x0 + w + 1` and row
/// `y0 + h + 1`, which the rectangle does not reach), the fill colour
/// elsewhere.
pub open spec fn rect_colour(x0: int, y0: int, w: int, h: int, fill: u32, border: u32, x: int, y: int) -> u32 {
    if x == x0 || x == x0 + w + 1 || y == y0 || y == y0 + h + 1 {
        border
    } else {
        fill
    }
}

/// `mem` after the first `rows` rows of that rectangle, each `w + 1` pixels
/// long, are drawn one after the other.
pub open spec fn rect_rows(
    mem: Seq<u8>,
    width: int,
    bpp: int,
    x0: int,
    y0: int,
    w: int,
    h: int,
    fill: u32,
    border: u32,
    rows: int,
) -> Seq<u8>
    decreases rows,
{
    if rows <= 0 {
        mem
    } else {
        span_written(
            rect_rows(mem, width, bpp, x0, y0, w, h, fill, border, rows - 1),
            pixel_offset(width, bpp, x0, y0 + rows - 1),
            bpp,
            w + 1,
            |j: int| rect_colour(x0, y0, w, h, fill, border, x0 + j, y0 + rows - 1),
        )
    }
}

/// `mem` after the whole rectangle, `h + 1` rows, is drawn.
pub open spec fn rect_written(
    mem: Seq<u8>,
    width: int,
    bpp: int,
    x0: int,
    y0: int,
    w: int,
    h: int,
    fill: u32,
    border: u32,
) -> Seq<u8> {
    rect_rows(mem, width, bpp, x0, y0, w, h, fill, border, h + 1)
}

proof fn lemma_rows_apart(a: int, b: int, rw: int)
    by (nonlinear_arith)
    requires
        a < b,
        rw >= 0,
    ensures
        a * rw + rw <= b * rw,
{
}

proof fn lemma_column_bytes(px: int, k: int, bpp: int, width: int)
    by (nonlinear_arith)
    requires
        0 <= px < width,
        0 <= k < bpp,
    ensures
        0 <= px * bpp + k < width * bpp,
        0 <= px * bpp,
{
}

proof fn lemma_column_span(px: int, k: int, bpp: int, x0: int, w: int)
    by (nonlinear_arith)
    requires
        bpp > 0,
        0 <= k < bpp,
    ensures
        (x0 * bpp <= px * bpp + k && px * bpp + k < (x0 + w + 1) * bpp) <==> (x0 <= px && px <= x0
            + w),
{
    if px < x0 {
        assert(px * bpp + k < (px + 1) * bpp);
        assert((px + 1) * bpp <= x0 * bpp);
    }
    if px > x0 + w {
        assert((x0 + w + 1) * bpp <= px * bpp);
    }
}

proof fn lemma_scaled_le(a: int, b: int, c: int)
    by (nonlinear_arith)
    requires
        a <= b,
        c >= 0,
    ensures
        a * c <= b * c,
{
}

/// Byte `k` of pixel (`px`, `py`) lies in the span of row `yr` that starts
/// at column `x0` and is `w + 1` pixels long exactly when the pixel is in
/// that row and among those columns; it is then byte `k` of the span's pixel
/// `px - x0`.
proof fn lemma_span_member(width: int, bpp: int, px: int, py: int, k: int, x0: int, yr: int, w: int)
    requires
        bpp > 0,
        0 <= px < width,
        0 <= k < bpp,
        0 <= x0,
        0 <= w,
        x0 + w < width,
        0 <= py,
        0 <= yr,
    ensures
        ({
            let i = pixel_offset(width, bpp, px, py) + k;
            let base = pixel_offset(width, bpp, x0, yr);
            &&& (base <= i < base + (w + 1) * bpp) <==> (py == yr && x0 <= px <= x0 + w)
            &&& (py == yr && x0 <= px <= x0 + w) ==> (i - base) / bpp == px - x0 && (i - base) % bpp
                == k
        }),
{
    let rw = width * bpp;
    let i = pixel_offset(width, bpp, px, py) + k;
    let base = pixel_offset(width, bpp, x0, yr);
    lemma_column_bytes(px, k, bpp, width);
    lemma_column_span(px, k, bpp, x0, w);
    lemma_scaled_le(x0 + w + 1, width, bpp);
    lemma_scaled_le(0, x0, bpp);
    assert(rw >= 0);
    assert(i == py * rw + (px * bpp + k));
    assert(base == yr * rw + x0 * bpp);
    assert(x0 * bpp + (w + 1) * bpp == (x0 + w + 1) * bpp) by (nonlinear_arith);
    if py < yr {
        lemma_rows_apart(py, yr, rw);
    } else if py > yr {
        lemma_rows_apart(yr, py, rw);
    } else {
        if x0 <= px <= x0 + w {
            assert(i - base == (px - x0) * bpp + k) by (nonlinear_arith)
                requires
                    i - base == px * bpp + k - x0 * bpp,
            ;
            lemma_fundamental_div_mod_converse(i - base, bpp, px - x0, k);
        }
    }
}

/// The bytes of pixel (`px`, `py`) after the first `rows` rows of a
/// rectangle are drawn: the rectangle's colour there where the pixel lies
/// in one of those rows and among the rectangle's columns, else as before.
proof fn lemma_rect_rows_pixel(
    mem: Seq<u8>,
    width: int,
    bpp: int,
    x0: int,
    y0: int,
    w: int,
    h: int,
    fill: u32,
    border: u32,
    rows: int,
    px: int,
    py: int,
    k: int,
)
    requires
        bpp > 0,
        0 <= x0,
        0 <= y0,
        0 <= w,
        x0 + w < width,
        0 <= px < width,
        0 <= py,
        0 <= k < bpp,
        0 <= rows,
        pixel_offset(width, bpp, px, py) + k < mem.len(),
    ensures
        rect_rows(mem, width, bpp, x0, y0, w, h, fill, border, rows).len() == mem.len(),
        rect_rows(mem, width, bpp, x0, y0, w, h, fill, border, rows)[pixel_offset(width, bpp, px, py) + k]
            == if x0 <= px <= x0 + w && y0 <= py < y0 + rows {
            color_byte(rect_colour(x0, y0, w, h, fill, border, px, py), k)
        } else {
            mem[pixel_offset(width, bpp, px, py) + k]
        },
    decreases rows,
{
    lemma_column_bytes(px, k, bpp, width);
    if rows > 0 {
        lemma_rect_rows_pixel(mem, width, bpp, x0, y0, w, h, fill, border, rows - 1, px, py, k);
        lemma_span_member(width, bpp, px, py, k, x0, y0 + rows - 1, w);
    }
}

/// The bytes of pixel (`px`, `py`) after a rectangle is drawn: inside the
/// rectangle (columns `x0` to `x0 + w`, rows `y0` to `y0 + h`) they are its
/// colour there, the border colour on its first column and row, else the
/// fill colour; outside it they are as before. The rectangle lies within
/// the rows of the frame.
pub proof fn lemma_rect_pixel(
    mem: Seq<u8>,
    width: int,
    bpp: int,
    x0: int,
    y0: int,
    w: int,
    h: int,
    fill: u32,
    border: u32,
    px: int,
    py: int,
    k: int,
)
    requires
        bpp > 0,
        0 <= x0,
        0 <= y0,
        0 <= w,
        0 <= h,
        x0 + w < width,
        0 <= px < width,
        0 <= py,
        0 <= k < bpp,
        pixel_offset(width, bpp, px, py) + k < mem.len(),
    ensures
        rect_written(mem, width, bpp, x0, y0, w, h, fill, border).len() == mem.len(),
        rect_written(mem, width, bpp, x0, y0, w, h, fill, border)[pixel_offset(width, bpp, px, py) + k]
            == if x0 <= px <= x0 + w && y0 <= py <= y0 + h {
            color_byte(
                if px == x0 || py == y0 {
                    border
                } else {
                    fill
                },
                k,
            )
        } else {
            mem[pixel_offset(width, bpp, px, py) + k]
        },
{
    lemma_rect_rows_pixel(mem, width, bpp, x0, y0, w, h, fill, border, h + 1, px, py, k);
}

/// Every pixel of a block of `w` x `h` pixels at (`x0`, `y0`) can be drawn
/// in a memory of `len` bytes without overflowing a machine word.
pub open spec fn block_fits(len: int, width: int, bpp: int, x0: int, y0: int, w: int, h: int) -> bool {
    &&& supported_bpp(bpp)
    &&& width * bpp <= usize::MAX
    &&& x0 + w <= usize::MAX
    &&& y0 + h <= usize::MAX
    &&& (w > 0 && h > 0 ==> pixel_offset(width, bpp, x0 + w - 1, y0 + h - 1) + bpp <= len)
}

/// Whether a block of `w` x `h` pixels at (`x0`, `y0`) lies in `len` bytes
/// of frame memory of `width` pixels per row and `bpp` bytes per pixel (see
/// `block_fits`).
pub fn fits(len: usize, width: usize, bpp: usize, x0: usize, y0: usize, w: usize, h: usize) -> (r: bool)
    ensures
        r == block_fits(len as int, width as int, bpp as int, x0 as int, y0 as int, w as int, h as int),
{
    if bpp != 2 && bpp != 4 {
        return false;
    }
    let row = match width.checked_mul(bpp) {
        Some(row) => row,
        None => return false,
    };
    if x0.checked_add(w).is_none() || y0.checked_add(h).is_none() {
        return false;
    }
    if w == 0 || h == 0 {
        return true;
    }
    let last_x = x0 + w - 1;
    let last_y = y0 + h - 1;
    proof {
        assert(last_y * row >= 0) by (nonlinear_arith)
            requires
                last_y >= 0,
                row >= 0,
        ;
    }
    let row_start = match last_y.checked_mul(row) {
        Some(v) => v,
        None => return false,
    };
    let column = match last_x.checked_mul(bpp) {
        Some(v) => v,
        None => {
            assert(last_x * bpp >= 0 && row_start >= 0);
            return false;
        },
    };
    let start = match row_start.checked_add(column) {
        Some(v) => v,
        None => return false,
    };
    match start.checked_add(bpp) {
        Some(end) => end <= len,
        None => false,
    }
}

/// The colour of column `x` of a glyph row: the foreground where bit `x` is
/// set.
pub open spec fn glyph_colour(row: u8, x: int, foreground: u32, background: u32) -> u32 {
    if row & (1u8 << (x as u8)) == 0 {
        background
    } else {
        foreground
    }
}

/// Glyphs are 8 pixels wide: one bit per column, least significant bit
/// first.
pub const FONT_WIDTH: usize = 8;

/// `mem` after the first `rows` rows of a glyph are drawn at (`x0`, `y0`).
pub open spec fn glyph_rows(
    mem: Seq<u8>,
    width: int,
    bpp: int,
    x0: int,
    y0: int,
    glyph: Seq<u8>,
    foreground: u32,
    background: u32,
    rows: int,
) -> Seq<u8>
    decreases rows,
{
    if rows <= 0 {
        mem
    } else {
        span_written(
            glyph_rows(mem, width, bpp, x0, y0, glyph, foreground, background, rows - 1),
            pixel_offset(width, bpp, x0, y0 + rows - 1),
            bpp,
            FONT_WIDTH as int,
            |j: int| glyph_colour(glyph[rows - 1], j, foreground, background),
        )
    }
}

/// Drawing spans keeps the memory's length.
pub proof fn lemma_glyph_rows_length(
    mem: Seq<u8>,
    width: int,
    bpp: int,
    x0: int,
    y0: int,
    glyph: Seq<u8>,
    foreground: u32,
    background: u32,
    rows: int,
)
    ensures
        glyph_rows(mem, width, bpp, x0, y0, glyph, foreground, background, rows).len() == mem.len(),
    decreases rows,
{
    if rows > 0 {
        lemma_glyph_rows_length(mem, width, bpp, x0, y0, glyph, foreground, background, rows - 1);
    }
}

/// The start of pixel `x0 + j` in row `y` is `j` pixels after the start of
/// pixel `x0`.
pub proof fn lemma_offset_step(width: int, bpp: int, x0: int, j: int, y: int)
    ensures
        pixel_offset(width, bpp, x0 + j, y) == pixel_offset(width, bpp, x0, y) + j * bpp,
{
    assert((x0 + j) * bpp == x0 * bpp + j * bpp) by (nonlinear_arith);
}

/// Writes one pixel of `bpp` bytes at byte `offset`, least significant byte
/// first.
pub fn write_pixel(mem: &mut Vec<u8>, offset: usize, bpp: usize, color: u32)
    requires
        supported_bpp(bpp as int),
        offset + bpp <= old(mem).len(),
    ensures
        final(mem)@ == span_written(old(mem)@, offset as int, bpp as int, 1, |j: int| color),
{
    mem.set(offset, (color % 0x100) as u8);
    mem.set(offset + 1, ((color / 0x100) % 0x100) as u8);
    if bpp == 4 {
        mem.set(offset + 2, ((color / 0x1_0000) % 0x100) as u8);
        mem.set(offset + 3, ((color / 0x100_0000) % 0x100) as u8);
    }
    assert(mem@ =~= span_written(old(mem)@, offset as int, bpp as int, 1, |j: int| color));
}

} // verus!
