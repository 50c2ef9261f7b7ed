//! Software rendering of the placeholder sprite into a `width * height`
//! array of 0RGB `u32` pixels, stored row after row.

use vstd::prelude::*;
use vstd::arithmetic::div_mod::{lemma_fundamental_div_mod, lemma_fundamental_div_mod_converse};
use vstd::arithmetic::mul::lemma_mul_inequality;

verus! {

/// `max(v, 0)`: the first row or column of a span once clipped to the frame.
pub open spec fn clip_low(v: int) -> int {
    if v > 0 { v } else { 0 }
}

/// `min(v, limit)`: the end (exclusive) of a span once clipped to the frame.
pub open spec fn clip_high(v: int, limit: int) -> int {
    if v < limit { v } else { limit }
}

/// Pixel `i` of a frame `width` pixels wide lies at row `i / width` and column
/// `i % width`; it is covered by the rectangle with corner `(x, y)` and size
/// `w * h` once that rectangle is clipped to the `width * height` frame.
pub open spec fn in_rect(width: int, height: int, x: int, y: int, w: int, h: int, i: int) -> bool {
    &&& width > 0
    &&& 0 <= i
    &&& clip_low(y) <= i / width
    &&& i / width < clip_high(y + h, height)
    &&& clip_low(x) <= i % width
    &&& i % width < clip_high(x + w, width)
}

/// The `i32` arithmetic of `fill_rect` stays in range: the far edges of the
/// rectangle can be computed, and so can the index of every pixel it covers.
pub open spec fn rect_fits(width: int, height: int, x: int, y: int, w: int, h: int) -> bool {
    &&& i32::MIN <= x + w <= i32::MAX
    &&& i32::MIN <= y + h <= i32::MAX
    &&& (clip_low(x) < clip_high(x + w, width) && clip_low(y) < clip_high(y + h, height))
        ==> (clip_high(y + h, height) - 1) * width + clip_high(x + w, width) - 1 <= i32::MAX
}

proof fn lemma_pixel_position(width: int, row: int, col: int)
    requires
        width > 0,
        row >= 0,
        0 <= col < width,
    ensures
        row * width + col >= 0,
        (row * width + col) / width == row,
        (row * width + col) % width == col,
{
    assert(row * width >= 0) by (nonlinear_arith)
        requires
            width > 0,
            row >= 0,
    ;
    lemma_fundamental_div_mod_converse(row * width + col, width, row, col);
}

proof fn lemma_same_position(width: int, i: int, j: int)
    requires
        width > 0,
        i / width == j / width,
        i % width == j % width,
    ensures
        i == j,
{
    lemma_fundamental_div_mod(i, width);
    lemma_fundamental_div_mod(j, width);
}

/// Paints `color` into every pixel of `buffer` that the rectangle with corner
/// `(x, y)` and size `w * h` covers within the `width * height` frame.
/// Pixels whose index falls past the end of `buffer` are skipped.
pub fn fill_rect(buffer: &mut [u32], width: i32, height: i32, x: i32, y: i32, w: i32, h: i32, color: u32)
    requires
        rect_fits(width as int, height as int, x as int, y as int, w as int, h as int),
    ensures
        final(buffer)@.len() == old(buffer)@.len(),
        forall|i: int|
            0 <= i < old(buffer)@.len() ==> #[trigger] final(buffer)@[i] == if in_rect(
                width as int,
                height as int,
                x as int,
                y as int,
                w as int,
                h as int,
                i,
            ) {
                color
            } else {
                old(buffer)@[i]
            },
{
    let ghost old_buf = buffer@;
    let ghost (wd, ht, xx, yy, ww, hh) = (width as int, height as int, x as int, y as int, w as int, h as int);
    let row_start: i32 = if y > 0 { y } else { 0 };
    let row_end: i32 = if y + h < height { y + h } else { height };
    let col_start: i32 = if x > 0 { x } else { 0 };
    let col_end: i32 = if x + w < width { x + w } else { width };
    if col_start >= col_end {
        assert(buffer@ =~= old_buf);
        return;
    }
    let mut row: i32 = row_start;
    while row < row_end
        invariant
            row_start <= row,
            row_start < row_end ==> row <= row_end,
            0 <= col_start < col_end <= width,
            row_start == clip_low(yy),
            row_end == clip_high(yy + hh, ht),
            col_start == clip_low(xx),
            col_end == clip_high(xx + ww, wd),
            rect_fits(wd, ht, xx, yy, ww, hh),
            wd == width,
            buffer@.len() == old_buf.len(),
            forall|i: int|
                0 <= i < old_buf.len() ==> #[trigger] buffer@[i] == if in_rect(wd, ht, xx, yy, ww, hh, i)
                    && i / wd < row {
                    color
                } else {
                    old_buf[i]
                },
        decreases row_end - row,
    {
        proof {
            lemma_mul_inequality(row as int, row_end - 1, width as int);
        }
        let mut col: i32 = col_start;
        while col < col_end
            invariant
                row_start <= row < row_end,
                col_start <= col <= col_end,
                0 <= col_start < col_end <= width,
                row_start == clip_low(yy),
                row_end == clip_high(yy + hh, ht),
                col_start == clip_low(xx),
                col_end == clip_high(xx + ww, wd),
                row * width + col_end - 1 <= i32::MAX,
                wd == width,
                buffer@.len() == old_buf.len(),
                forall|i: int|
                    0 <= i < old_buf.len() ==> #[trigger] buffer@[i] == if in_rect(wd, ht, xx, yy, ww, hh, i)
                        && (i / wd < row || (i / wd == row && i % wd < col)) {
                        color
                    } else {
                        old_buf[i]
                    },
            decreases col_end - col,
        {
            proof {
                lemma_pixel_position(width as int, row as int, col as int);
            }
            let idx = (row * width + col) as usize;
            if idx < buffer.len() {
                buffer[idx] = color;
            }
            proof {
                assert forall|i: int| 0 <= i < old_buf.len() implies #[trigger] buffer@[i] == if in_rect(
                    wd,
                    ht,
                    xx,
                    yy,
                    ww,
                    hh,
                    i,
                ) && (i / wd < row || (i / wd == row && i % wd < col + 1)) {
                    color
                } else {
                    old_buf[i]
                } by {
                    if i / wd == row && i % wd == col {
                        lemma_same_position(wd, i, idx as int);
                    }
                }
            }
            col = col + 1;
        }
        proof {
            assert forall|i: int| 0 <= i < old_buf.len() implies #[trigger] buffer@[i] == if in_rect(
                wd,
                ht,
                xx,
                yy,
                ww,
                hh,
                i,
            ) && i / wd < row + 1 {
                color
            } else {
                old_buf[i]
            } by {
                if in_rect(wd, ht, xx, yy, ww, hh, i) && i / wd == row {
                    assert(i % wd < col_end);
                }
            }
        }
        row = row + 1;
    }
}

/// Colour of the sprite's body and ears.
pub const BODY_COLOR: u32 = 0xFFDDA85F;

/// Colour of the sprite's paws.
pub const PAW_COLOR: u32 = 0xFF553311;

/// Horizontal centre of the frame (for a width that fits in `i32`).
pub open spec fn center_x(width: int) -> int {
    width / 2
}

/// Row on which the sprite's body rests: 30 pixels above the bottom edge.
pub open spec fn body_y(height: int) -> int {
    height - 30
}

/// Top row of the paws: raised while a key is held, lowered otherwise.
pub open spec fn paw_y(height: int, active: bool) -> int {
    if active {
        body_y(height) - 35
    } else {
        body_y(height) - 15
    }
}

/// The sprite's body: a 50 x 20 block sitting on `body_y`.
pub open spec fn body_rect(width: int, height: int) -> (int, int, int, int) {
    (center_x(width) - 25, body_y(height) - 20, 50, 20)
}

/// The left ear: an 8 x 10 block above the body.
pub open spec fn left_ear_rect(width: int, height: int) -> (int, int, int, int) {
    (center_x(width) - 22, body_y(height) - 30, 8, 10)
}

/// The right ear: an 8 x 10 block above the body.
pub open spec fn right_ear_rect(width: int, height: int) -> (int, int, int, int) {
    (center_x(width) + 14, body_y(height) - 30, 8, 10)
}

/// The left paw: a 10 x 10 block, the part that moves between frames.
pub open spec fn left_paw_rect(width: int, height: int, active: bool) -> (int, int, int, int) {
    (center_x(width) - 30, paw_y(height, active), 10, 10)
}

/// The right paw: a 10 x 10 block, the part that moves between frames.
pub open spec fn right_paw_rect(width: int, height: int, active: bool) -> (int, int, int, int) {
    (center_x(width) + 20, paw_y(height, active), 10, 10)
}

/// Pixel `i` is covered by rectangle `r` in a `width * height` frame.
pub open spec fn covers(width: int, height: int, r: (int, int, int, int), i: int) -> bool {
    in_rect(width, height, r.0, r.1, r.2, r.3, i)
}

/// The `i32` arithmetic for rectangle `r` in a `width * height` frame stays in range.
pub open spec fn fits(width: int, height: int, r: (int, int, int, int)) -> bool {
    rect_fits(width, height, r.0, r.1, r.2, r.3)
}

/// The frame's colour at pixel `i`: the shapes are painted body, ears, then
/// paws over a cleared (zero) background, so a later shape wins where they
/// overlap. A width or height that does not fit in `i32` turns negative when
/// converted, and then no shape covers any pixel.
pub open spec fn sprite_color(width: u32, height: u32, active: bool, i: int) -> u32 {
    if width > i32::MAX || height > i32::MAX {
        0
    } else {
        let (wd, ht) = (width as int, height as int);
        if covers(wd, ht, right_paw_rect(wd, ht, active), i) {
            PAW_COLOR
        } else if covers(wd, ht, left_paw_rect(wd, ht, active), i) {
            PAW_COLOR
        } else if covers(wd, ht, right_ear_rect(wd, ht), i) {
            BODY_COLOR
        } else if covers(wd, ht, left_ear_rect(wd, ht), i) {
            BODY_COLOR
        } else if covers(wd, ht, body_rect(wd, ht), i) {
            BODY_COLOR
        } else {
            0
        }
    }
}

/// Drawing a frame of this size keeps its `i32` arithmetic in range. The
/// height is converted to `i32` and the lowest row computed is 60 (idle) or
/// 65 (active) rows above the bottom edge, which must not underflow; for a
/// size that fits in `i32`, every shape's pixel indices must fit as well.
pub open spec fn frame_fits(width: u32, height: u32, active: bool) -> bool {
    let lowest: int = if active { 65 } else { 60 };
    if height > i32::MAX {
        height - 0x1_0000_0000 - lowest >= i32::MIN
    } else if width > i32::MAX {
        true
    } else {
        let (wd, ht) = (width as int, height as int);
        &&& fits(wd, ht, body_rect(wd, ht))
        &&& fits(wd, ht, left_ear_rect(wd, ht))
        &&& fits(wd, ht, right_ear_rect(wd, ht))
        &&& fits(wd, ht, left_paw_rect(wd, ht, active))
        &&& fits(wd, ht, right_paw_rect(wd, ht, active))
    }
}

/// Draws one frame of the placeholder sprite into `buffer`, a `width * height`
/// array of 0RGB pixels: the whole buffer is cleared to zero, then the body,
/// the ears and the two paws are painted; the paws sit higher while `active`.
pub fn draw(buffer: &mut [u32], width: u32, height: u32, active: bool)
    requires
        frame_fits(width, height, active),
    ensures
        final(buffer)@.len() == old(buffer)@.len(),
        forall|i: int|
            0 <= i < old(buffer)@.len() ==> #[trigger] final(buffer)@[i] == sprite_color(
                width,
                height,
                active,
                i,
            ),
{
    let ghost old_len = buffer@.len();
    let mut k: usize = 0;
    while k < buffer.len()
        invariant
            buffer@.len() == old_len,
            k <= old_len,
            forall|j: int| 0 <= j < k ==> #[trigger] buffer@[j] == 0,
        decreases old_len - k,
    {
        buffer[k] = 0;
        k = k + 1;
    }
    // A width or height past `i32::MAX` is negative once converted to `i32`,
    // so every shape's row or column span is empty: only the clear shows.
    if width > 0x7fff_ffff || height > 0x7fff_ffff {
        return;
    }
    let width = width as i32;
    let height = height as i32;
    let cx = width / 2;
    let body_y = height - 30;

    let ghost b0 = buffer@;
    fill_rect(buffer, width, height, cx - 25, body_y - 20, 50, 20, BODY_COLOR);
    fill_rect(buffer, width, height, cx - 22, body_y - 30, 8, 10, BODY_COLOR);
    fill_rect(buffer, width, height, cx + 14, body_y - 30, 8, 10, BODY_COLOR);

    let paw_y = if active { body_y - 35 } else { body_y - 15 };
    fill_rect(buffer, width, height, cx - 30, paw_y, 10, 10, PAW_COLOR);
    fill_rect(buffer, width, height, cx + 20, paw_y, 10, 10, PAW_COLOR);
    proof {
        assert forall|i: int| 0 <= i < old_len implies #[trigger] buffer@[i] == sprite_color(
            width as u32,
            height as u32,
            active,
            i,
        ) by {
            assert(b0[i] == 0);
        }
    }
}

fn rect_in_range(width: i64, height: i64, x: i64, y: i64, w: i64, h: i64) -> (b: bool)
    requires
        0 <= width <= i32::MAX,
        0 <= height <= i32::MAX,
        -0x1_0000_0000 <= x <= 0x1_0000_0000,
        -0x1_0000_0000 <= y <= 0x1_0000_0000,
        0 <= w <= 100,
        0 <= h <= 100,
    ensures
        b == rect_fits(width as int, height as int, x as int, y as int, w as int, h as int),
{
    let x_end = x + w;
    let y_end = y + h;
    if x_end < -0x8000_0000 || x_end > 0x7fff_ffff || y_end < -0x8000_0000 || y_end > 0x7fff_ffff {
        return false;
    }
    let col_start = if x > 0 { x } else { 0 };
    let col_end = if x_end < width { x_end } else { width };
    let row_start = if y > 0 { y } else { 0 };
    let row_end = if y_end < height { y_end } else { height };
    if col_start < col_end && row_start < row_end {
        assert((row_end - 1) * width <= 0x7fff_ffff * 0x7fff_ffff) by (nonlinear_arith)
            requires
                0 <= row_end - 1 <= 0x7fff_ffff,
                0 <= width <= 0x7fff_ffff,
        ;
        assert((row_end - 1) * width >= 0) by (nonlinear_arith)
            requires
                0 <= row_end - 1,
                0 <= width,
        ;
        (row_end - 1) * width + col_end - 1 <= 0x7fff_ffff
    } else {
        true
    }
}

/// Tells whether `draw` can render a frame of this size without leaving the
/// range of its `i32` arithmetic: exactly `frame_fits`.
pub fn frame_in_range(width: u32, height: u32, active: bool) -> (b: bool)
    ensures
        b == frame_fits(width, height, active),
{
    let lowest: i64 = if active { 65 } else { 60 };
    if height > 0x7fff_ffff {
        return height as i64 - 0x1_0000_0000 - lowest >= -0x8000_0000;
    }
    if width > 0x7fff_ffff {
        return true;
    }
    let wd = width as i64;
    let ht = height as i64;
    let cx = wd / 2;
    let body_y = ht - 30;
    let paw_y = if active { body_y - 35 } else { body_y - 15 };
    rect_in_range(wd, ht, cx - 25, body_y - 20, 50, 20) && rect_in_range(wd, ht, cx - 22, body_y - 30, 8, 10)
        && rect_in_range(wd, ht, cx + 14, body_y - 30, 8, 10) && rect_in_range(wd, ht, cx - 30, paw_y, 10, 10)
        && rect_in_range(wd, ht, cx + 20, paw_y, 10, 10)
}

/// Law: the paws are the only part that moves between the two frames. A
/// pixel that neither the raised nor the lowered paws cover has the same
/// colour in the active and in the idle frame.
pub proof fn lemma_only_paws_move(width: u32, height: u32, i: int)
    requires
        !covers(width as int, height as int, left_paw_rect(width as int, height as int, true), i),
        !covers(width as int, height as int, right_paw_rect(width as int, height as int, true), i),
        !covers(width as int, height as int, left_paw_rect(width as int, height as int, false), i),
        !covers(width as int, height as int, right_paw_rect(width as int, height as int, false), i),
    ensures
        sprite_color(width, height, true, i) == sprite_color(width, height, false, i),
{
}

/// Law: nothing is painted past the `width * height` frame: every pixel of
/// the buffer beyond it is left blank.
pub proof fn lemma_blank_beyond_frame(width: u32, height: u32, active: bool, i: int)
    requires
        i >= width * height,
    ensures
        sprite_color(width, height, active, i) == 0,
{
    if width > 0 && width <= i32::MAX && height <= i32::MAX {
        let wd = width as int;
        lemma_fundamental_div_mod(i, wd);
        assert(i / wd >= height) by (nonlinear_arith)
            requires
                wd > 0,
                i >= wd * height,
                i == wd * (i / wd) + i % wd,
                0 <= i % wd < wd,
        ;
    }
}

/// The top row of the paws in a frame of height `height`: 65 rows above the
/// bottom edge while a key is held, 45 rows above it otherwise.
pub open spec fn paw_top_row(height: int, active: bool) -> int {
    if active { height - 65 } else { height - 45 }
}

/// Pixel at row `row`, column `col` lies in one of the two 10 x 10 paw boxes:
/// columns 30..20 to the left of the centre column `width / 2` or 20..30 to
/// its right, rows `paw_top_row .. paw_top_row + 10`.
pub open spec fn in_paw_box(width: int, height: int, active: bool, row: int, col: int) -> bool {
    &&& paw_top_row(height, active) <= row < paw_top_row(height, active) + 10
    &&& (width / 2 - 30 <= col < width / 2 - 20 || width / 2 + 20 <= col < width / 2 + 30)
}

/// Pixel at row `row`, column `col` lies in the 50 x 20 body box (columns
/// `width / 2 - 25 .. width / 2 + 25`, rows 50..30 above the bottom edge) or
/// in one of the 8 x 10 ear boxes (rows 60..50 above the bottom edge).
pub open spec fn in_body_or_ear_box(width: int, height: int, row: int, col: int) -> bool {
    ||| (height - 50 <= row < height - 30 && width / 2 - 25 <= col < width / 2 + 25)
    ||| (height - 60 <= row < height - 50 && (width / 2 - 22 <= col < width / 2 - 14 || width / 2
        + 14 <= col < width / 2 + 22))
}

/// Law: the paws are painted last. Every pixel of the frame that a paw box
/// covers, in the pose given by `active`, has the paw colour, including where
/// a paw overlaps the body or an ear.
pub proof fn lemma_paws_on_top(width: u32, height: u32, active: bool, i: int)
    requires
        0 < width <= i32::MAX,
        height <= i32::MAX,
        0 <= i,
        i / (width as int) < height,
        in_paw_box(width as int, height as int, active, i / (width as int), i % (width as int)),
    ensures
        sprite_color(width, height, active, i) == PAW_COLOR,
{
}

/// Law: a pixel has the body colour only inside the body or an ear box and
/// outside both paw boxes; it has the paw colour only inside a paw box; and
/// every pixel outside all boxes is blank.
pub proof fn lemma_colours_by_region(width: u32, height: u32, active: bool, i: int)
    requires
        0 < width <= i32::MAX,
        height <= i32::MAX,
        0 <= i,
    ensures
        ({
            let (row, col) = (i / (width as int), i % (width as int));
            &&& sprite_color(width, height, active, i) == BODY_COLOR ==> (in_body_or_ear_box(
                width as int,
                height as int,
                row,
                col,
            ) && !in_paw_box(width as int, height as int, active, row, col))
            &&& sprite_color(width, height, active, i) == PAW_COLOR ==> in_paw_box(
                width as int,
                height as int,
                active,
                row,
                col,
            )
            &&& (!in_paw_box(width as int, height as int, active, row, col) && !in_body_or_ear_box(
                width as int,
                height as int,
                row,
                col,
            )) ==> sprite_color(width, height, active, i) == 0
            &&& (row < height && in_body_or_ear_box(width as int, height as int, row, col)
                && !in_paw_box(width as int, height as int, active, row, col)) ==> sprite_color(
                width,
                height,
                active,
                i,
            ) == BODY_COLOR
        }),
{
}

} // verus!
