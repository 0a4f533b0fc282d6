//! The framebuffer as a mathematical object: sprite drawing and the text rendering.
//!
//! The screen is 64 pixels wide and 32 high. Cell `c` of the framebuffer is the pixel in
//! column `c % 64` of line `c / 64`, and holds 0 (unset) or 1 (set).

use vstd::prelude::*;

verus! {

/// Pixels in one line of the screen.
pub const SCREEN_WIDTH: usize = 64;

/// Lines of the screen.
pub const SCREEN_HEIGHT: usize = 32;

/// Cells of the framebuffer.
pub const SCREEN_CELLS: usize = 2048;

/// A framebuffer of the right size whose cells are all 0 or 1.
pub open spec fn is_framebuffer(gfx: Seq<u8>) -> bool {
    &&& gfx.len() == SCREEN_CELLS
    &&& forall|cell: int| 0 <= cell < SCREEN_CELLS ==> #[trigger] gfx[cell] <= 1
}

/// The framebuffer with every pixel unset.
pub open spec fn blank_screen() -> Seq<u8> {
    Seq::new(SCREEN_CELLS as nat, |cell: int| 0u8)
}

/// A pixel after an exclusive-or with a set sprite bit.
pub open spec fn flipped(pixel: u8) -> u8 {
    if pixel == 0 {
        1
    } else {
        0
    }
}

/// Whether column `col` of a sprite row is set. Column 0 is the most significant bit.
pub open spec fn sprite_bit(row: u8, col: int) -> bool {
    0 <= col < 8 && row & (0x80u8 >> (col as u8)) != 0
}

/// The sprite line that reaches cell `cell` when a sprite is drawn with its top left corner
/// at `(x, y)`: the distance from `y` down to the cell's line, going round the screen.
pub open spec fn sprite_row_at(y: u8, cell: int) -> int {
    (cell / 64 - y) % 32
}

/// The sprite column that reaches cell `cell`: the distance from `x` right to the cell's
/// column, going round the screen.
pub open spec fn sprite_col_at(x: u8, cell: int) -> int {
    (cell % 64 - x) % 64
}

/// Whether a set bit of `sprite`, drawn at `(x, y)`, lands on cell `cell`. Coordinates wrap
/// round both edges of the screen.
pub open spec fn sprite_hits(sprite: Seq<u8>, x: u8, y: u8, cell: int) -> bool {
    let row = sprite_row_at(y, cell);
    let col = sprite_col_at(x, cell);
    row < sprite.len() && col < 8 && sprite_bit(sprite[row], col)
}

/// The framebuffer after `sprite` is drawn at `(x, y)`: every cell under a set sprite bit
/// is flipped, every other cell is kept.
pub open spec fn draw(gfx: Seq<u8>, sprite: Seq<u8>, x: u8, y: u8) -> Seq<u8> {
    Seq::new(
        gfx.len(),
        |cell: int|
            if sprite_hits(sprite, x, y, cell) {
                flipped(gfx[cell])
            } else {
                gfx[cell]
            },
    )
}

/// Whether drawing `sprite` at `(x, y)` unsets a pixel that was set.
pub open spec fn collides(gfx: Seq<u8>, sprite: Seq<u8>, x: u8, y: u8) -> bool {
    exists|cell: int| 0 <= cell < gfx.len() && #[trigger] sprite_hits(sprite, x, y, cell) && gfx[cell] == 1
}

/// Bytes in the text rendering: 32 lines of 64 characters and a line feed each, then one
/// more line feed.
pub const TEXT_BYTES: usize = 2081;

/// The framebuffer as ASCII text: one line per screen line, `0` for an unset pixel and a
/// space for a set one, each line ended by a line feed, and an empty line at the end.
pub open spec fn render_text(gfx: Seq<u8>) -> Seq<u8> {
    Seq::new(
        TEXT_BYTES as nat,
        |k: int|
            if k == 2080 || k % 65 == 64 {
                0x0Au8
            } else if gfx[(k / 65) * 64 + k % 65] == 0 {
                0x30u8
            } else {
                0x20u8
            },
    )
}

/// The cell that bit `col` of sprite line `row` lands on when drawing at `(x, y)`.
pub open spec fn target_cell(x: u8, y: u8, row: int, col: int) -> int {
    ((y + row) % 32) * 64 + (x + col) % 64
}

/// The target of a sprite bit is a cell of the screen, and it is the only cell that the
/// bit's line and column reach.
pub proof fn lemma_target_cell(x: u8, y: u8, row: int, col: int)
    requires
        0 <= row < 32,
        0 <= col < 64,
    ensures
        0 <= target_cell(x, y, row, col) < SCREEN_CELLS,
        sprite_row_at(y, target_cell(x, y, row, col)) == row,
        sprite_col_at(x, target_cell(x, y, row, col)) == col,
        forall|cell: int|
            0 <= cell < SCREEN_CELLS && sprite_row_at(y, cell) == row && sprite_col_at(x, cell) == col
                ==> cell == target_cell(x, y, row, col),
{
    let line = (y + row) % 32;
    let column = (x + col) % 64;
    let t = target_cell(x, y, row, col);
    assert(t / 64 == line && t % 64 == column);
    assert forall|cell: int|
        0 <= cell < SCREEN_CELLS && sprite_row_at(y, cell) == row && sprite_col_at(x, cell) == col
        implies cell == t by {
        assert(cell / 64 == line);
        assert(cell % 64 == column);
    }
}

/// Whether the set sprite bit that lands on `cell` comes before bit `col` of line `row`, when
/// the bits are taken line by line and, within a line, from the most significant down.
pub open spec fn drawn_before(sprite: Seq<u8>, x: u8, y: u8, cell: int, row: int, col: int) -> bool {
    &&& sprite_hits(sprite, x, y, cell)
    &&& sprite_row_at(y, cell) < row || (sprite_row_at(y, cell) == row && sprite_col_at(x, cell) < col)
}

/// The framebuffer when the drawing has come as far as bit `col` of line `row`.
pub open spec fn draw_until(gfx: Seq<u8>, sprite: Seq<u8>, x: u8, y: u8, row: int, col: int) -> Seq<u8> {
    Seq::new(
        gfx.len(),
        |cell: int|
            if drawn_before(sprite, x, y, cell, row, col) {
                flipped(gfx[cell])
            } else {
                gfx[cell]
            },
    )
}

/// Whether the drawing has unset a pixel by the time it comes to bit `col` of line `row`.
pub open spec fn collides_until(gfx: Seq<u8>, sprite: Seq<u8>, x: u8, y: u8, row: int, col: int) -> bool {
    exists|cell: int|
        0 <= cell < gfx.len() && #[trigger] drawn_before(sprite, x, y, cell, row, col) && gfx[cell] == 1
}

/// Before the first bit nothing is drawn.
pub proof fn lemma_draw_start(gfx: Seq<u8>, sprite: Seq<u8>, x: u8, y: u8)
    ensures
        draw_until(gfx, sprite, x, y, 0, 0) == gfx,
        !collides_until(gfx, sprite, x, y, 0, 0),
{
    assert(draw_until(gfx, sprite, x, y, 0, 0) =~= gfx);
}

/// What one bit of the sprite adds to the drawing: a set bit flips its target cell, which
/// no earlier bit has touched, and an unset bit changes nothing.
pub proof fn lemma_draw_bit(gfx: Seq<u8>, sprite: Seq<u8>, x: u8, y: u8, row: int, col: int)
    requires
        gfx.len() == SCREEN_CELLS,
        0 <= row < sprite.len() <= 32,
        0 <= col < 8,
    ensures
        draw_until(gfx, sprite, x, y, row, col)[target_cell(x, y, row, col)] == gfx[target_cell(x, y, row, col)],
        sprite_bit(sprite[row], col) ==> draw_until(gfx, sprite, x, y, row, col + 1) == draw_until(
            gfx,
            sprite,
            x,
            y,
            row,
            col,
        ).update(target_cell(x, y, row, col), flipped(gfx[target_cell(x, y, row, col)])),
        sprite_bit(sprite[row], col) ==> (collides_until(gfx, sprite, x, y, row, col + 1) <==> collides_until(
            gfx,
            sprite,
            x,
            y,
            row,
            col,
        ) || gfx[target_cell(x, y, row, col)] == 1),
        !sprite_bit(sprite[row], col) ==> draw_until(gfx, sprite, x, y, row, col + 1) == draw_until(
            gfx,
            sprite,
            x,
            y,
            row,
            col,
        ),
        !sprite_bit(sprite[row], col) ==> (collides_until(gfx, sprite, x, y, row, col + 1) <==> collides_until(
            gfx,
            sprite,
            x,
            y,
            row,
            col,
        )),
{
    let t = target_cell(x, y, row, col);
    lemma_target_cell(x, y, row, col);
    assert forall|cell: int| 0 <= cell < SCREEN_CELLS implies (#[trigger] drawn_before(
        sprite,
        x,
        y,
        cell,
        row,
        col + 1,
    ) <==> drawn_before(sprite, x, y, cell, row, col) || (cell == t && sprite_bit(sprite[row], col))) by {
        if sprite_row_at(y, cell) == row && sprite_col_at(x, cell) == col {
            assert(cell == t);
        }
    }
    assert(!drawn_before(sprite, x, y, t, row, col));
    let now = draw_until(gfx, sprite, x, y, row, col);
    let next = draw_until(gfx, sprite, x, y, row, col + 1);
    if sprite_bit(sprite[row], col) {
        assert(next =~= now.update(t, flipped(gfx[t])));
        if collides_until(gfx, sprite, x, y, row, col + 1) {
            let cell = choose|cell: int|
                0 <= cell < gfx.len() && #[trigger] drawn_before(sprite, x, y, cell, row, col + 1) && gfx[cell]
                    == 1;
            if cell != t {
                assert(drawn_before(sprite, x, y, cell, row, col));
            }
        }
        if collides_until(gfx, sprite, x, y, row, col) {
            let cell = choose|cell: int|
                0 <= cell < gfx.len() && #[trigger] drawn_before(sprite, x, y, cell, row, col) && gfx[cell] == 1;
            assert(drawn_before(sprite, x, y, cell, row, col + 1));
        }
        if gfx[t] == 1 {
            assert(drawn_before(sprite, x, y, t, row, col + 1));
        }
    } else {
        assert(next =~= now);
        if collides_until(gfx, sprite, x, y, row, col + 1) {
            let cell = choose|cell: int|
                0 <= cell < gfx.len() && #[trigger] drawn_before(sprite, x, y, cell, row, col + 1) && gfx[cell]
                    == 1;
            assert(drawn_before(sprite, x, y, cell, row, col));
        }
        if collides_until(gfx, sprite, x, y, row, col) {
            let cell = choose|cell: int|
                0 <= cell < gfx.len() && #[trigger] drawn_before(sprite, x, y, cell, row, col) && gfx[cell] == 1;
            assert(drawn_before(sprite, x, y, cell, row, col + 1));
        }
    }
}

/// After the last bit of a line the drawing stands where the next line begins.
pub proof fn lemma_draw_line_end(gfx: Seq<u8>, sprite: Seq<u8>, x: u8, y: u8, row: int)
    ensures
        draw_until(gfx, sprite, x, y, row, 8) == draw_until(gfx, sprite, x, y, row + 1, 0),
        collides_until(gfx, sprite, x, y, row, 8) <==> collides_until(gfx, sprite, x, y, row + 1, 0),
{
    assert forall|cell: int| #[trigger]
        drawn_before(sprite, x, y, cell, row, 8) <==> drawn_before(sprite, x, y, cell, row + 1, 0) by {}
    assert(draw_until(gfx, sprite, x, y, row, 8) =~= draw_until(gfx, sprite, x, y, row + 1, 0));
    if collides_until(gfx, sprite, x, y, row, 8) {
        let cell = choose|cell: int|
            0 <= cell < gfx.len() && #[trigger] drawn_before(sprite, x, y, cell, row, 8) && gfx[cell] == 1;
        assert(drawn_before(sprite, x, y, cell, row + 1, 0));
    }
    if collides_until(gfx, sprite, x, y, row + 1, 0) {
        let cell = choose|cell: int|
            0 <= cell < gfx.len() && #[trigger] drawn_before(sprite, x, y, cell, row + 1, 0) && gfx[cell] == 1;
        assert(drawn_before(sprite, x, y, cell, row, 8));
    }
}

/// After the last line the whole sprite is drawn.
pub proof fn lemma_draw_done(gfx: Seq<u8>, sprite: Seq<u8>, x: u8, y: u8)
    ensures
        draw_until(gfx, sprite, x, y, sprite.len() as int, 0) == draw(gfx, sprite, x, y),
        collides_until(gfx, sprite, x, y, sprite.len() as int, 0) <==> collides(gfx, sprite, x, y),
{
    let rows = sprite.len() as int;
    assert forall|cell: int| #[trigger]
        drawn_before(sprite, x, y, cell, rows, 0) <==> sprite_hits(sprite, x, y, cell) by {}
    assert(draw_until(gfx, sprite, x, y, rows, 0) =~= draw(gfx, sprite, x, y));
    if collides_until(gfx, sprite, x, y, rows, 0) {
        let cell = choose|cell: int|
            0 <= cell < gfx.len() && #[trigger] drawn_before(sprite, x, y, cell, rows, 0) && gfx[cell] == 1;
        assert(sprite_hits(sprite, x, y, cell));
    }
    if collides(gfx, sprite, x, y) {
        let cell = choose|cell: int|
            0 <= cell < gfx.len() && #[trigger] sprite_hits(sprite, x, y, cell) && gfx[cell] == 1;
        assert(drawn_before(sprite, x, y, cell, rows, 0));
    }
}

} // verus!
