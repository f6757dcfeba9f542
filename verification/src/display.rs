//! The display model: a 64x32 grid of cells, row-major, and the sprite
//! compositing rule (exclusive-or with wraparound and collision detection).

use vstd::prelude::*;

verus! {

/// Number of display rows.
pub const SCREEN_HEIGHT: usize = 32;

/// Number of display columns.
pub const SCREEN_WIDTH: usize = 64;

/// Number of display cells; cell `(x, y)` has index `x + 64 * y`.
pub const SCREEN_SIZE: usize = 2048;

/// Whether pixel `column` of a sprite row is set; column 0 is the most
/// significant bit of the row's byte.
pub open spec fn lit(row: u8, column: int) -> bool {
    row & (0x80u8 >> (column as u8)) != 0
}

/// A sprite placed on the display: one byte per row, eight pixels wide,
/// with its top-left pixel at column `left`, row `top` (both taken modulo
/// the display's size).
pub struct Sprite {
    pub rows: Seq<u8>,
    pub left: int,
    pub top: int,
}

impl Sprite {
    /// The sprite column that falls on display cell `cell`.
    pub open spec fn column_at(self, cell: int) -> int {
        (cell % 64 - self.left) % 64
    }

    /// The sprite row that falls on display cell `cell`.
    pub open spec fn row_at(self, cell: int) -> int {
        (cell / 64 - self.top) % 32
    }

    /// Whether the sprite has a set pixel on display cell `cell`.
    pub open spec fn covers(self, cell: int) -> bool {
        &&& self.row_at(cell) < self.rows.len()
        &&& self.column_at(cell) < 8
        &&& lit(self.rows[self.row_at(cell)], self.column_at(cell))
    }

    /// The display cell that pixel (`row`, `column`) of the sprite falls on.
    pub open spec fn cell_of(self, row: int, column: int) -> int {
        (self.left + column) % 64 + 64 * ((self.top + row) % 32)
    }
}

/// The top-left corner, in pixels, of the square that shows cell `index`
/// in a picture whose cells are squares `scale` pixels wide: the column
/// and the row of the cell, each times `scale`.
pub fn cell_origin(index: usize, scale: u32) -> (corner: (i32, i32))
    requires
        index < SCREEN_SIZE,
        scale * 63 <= i32::MAX,
    ensures
        corner.0 == (index % 64) * scale,
        corner.1 == (index / 64) * scale,
{
    let x: u32 = (index % SCREEN_WIDTH) as u32;
    let y: u32 = (index / SCREEN_WIDTH) as u32;
    assert(x * scale <= 63 * scale && y * scale <= 63 * scale) by (nonlinear_arith)
        requires
            x <= 63,
            y <= 63,
    ;
    ((x * scale) as i32, (y * scale) as i32)
}

/// A blank display.
pub open spec fn blank() -> Seq<bool> {
    Seq::new(2048, |cell: int| false)
}

/// The display after `sprite` is drawn on `screen`: each cell that the
/// sprite covers is inverted, every other cell is kept.
pub open spec fn blit(screen: Seq<bool>, sprite: Sprite) -> Seq<bool> {
    Seq::new(screen.len(), |cell: int| screen[cell] != sprite.covers(cell))
}

/// Whether `sprite` covers the lit cell `cell` of `screen`.
pub open spec fn hits(screen: Seq<bool>, sprite: Sprite, cell: int) -> bool {
    0 <= cell < screen.len() && screen[cell] && sprite.covers(cell)
}

/// Whether drawing `sprite` on `screen` turns some lit cell off.
pub open spec fn collides(screen: Seq<bool>, sprite: Sprite) -> bool {
    exists|cell: int| hits(screen, sprite, cell)
}

/// Pixel (`row`, `column`) of a sprite falls on a cell of the display, and
/// that cell maps back to the same pixel.
pub proof fn lemma_cell_of_pixel(sprite: Sprite, row: int, column: int)
    requires
        0 <= row < 32,
        0 <= column < 64,
    ensures
        0 <= sprite.cell_of(row, column) < 2048,
        sprite.row_at(sprite.cell_of(row, column)) == row,
        sprite.column_at(sprite.cell_of(row, column)) == column,
{
}

/// Drawing the same sprite twice restores the display.
pub proof fn lemma_blit_twice(screen: Seq<bool>, sprite: Sprite)
    ensures
        blit(blit(screen, sprite), sprite) == screen,
{
    assert(blit(blit(screen, sprite), sprite) =~= screen);
}

/// Drawing on a region whose cells are all off reports no collision.
pub proof fn lemma_blit_on_clear_region(screen: Seq<bool>, sprite: Sprite)
    requires
        forall|cell: int| 0 <= cell < screen.len() && sprite.covers(cell) ==> !screen[cell],
    ensures
        !collides(screen, sprite),
{
}

/// A sprite with a set pixel on the display, drawn without collision, is
/// erased by drawing it again: the second draw collides, turns every cell
/// it touches off again and leaves the display as it was before the first.
pub proof fn lemma_redraw_collides(screen: Seq<bool>, sprite: Sprite, cell: int)
    requires
        0 <= cell < screen.len(),
        sprite.covers(cell),
        !collides(screen, sprite),
    ensures
        collides(blit(screen, sprite), sprite),
        blit(blit(screen, sprite), sprite) == screen,
        forall|c: int|
            0 <= c < screen.len() && sprite.covers(c) ==> blit(screen, sprite)[c] && !blit(
                blit(screen, sprite),
                sprite,
            )[c],
{
    lemma_blit_twice(screen, sprite);
    let once = blit(screen, sprite);
    assert forall|c: int| 0 <= c < screen.len() && sprite.covers(c) implies once[c] && !blit(
        once,
        sprite,
    )[c] by {
        assert(!hits(screen, sprite, c));
    }
    assert(hits(once, sprite, cell));
}

} // verus!
