//! The framebuffer: 64 by 32 one-bit pixels, drawn to by XOR.
//!
//! Sprites that reach past an edge wrap around to the opposite edge.

use vstd::prelude::*;

verus! {

/// Pixels in a row.
pub const WIDTH: usize = 64;

/// Rows of pixels.
pub const HEIGHT: usize = 32;

/// Pixels in the whole grid.
pub const PIXEL_COUNT: usize = 2048;

/// Place in the row-major grid of the pixel at column `x`, row `y`, both
/// wrapped to the grid.
pub open spec fn pixel_index(x: int, y: int) -> int {
    (y % 32) * 64 + x % 64
}

/// Whether bit `w` of a sprite row is set, counting from the most
/// significant bit.
pub open spec fn sprite_bit(row: u8, w: int) -> bool {
    row & (0x80u8 >> (w as u8)) != 0
}

/// Whether one of the first `bits` bits of the sprite row `row`, drawn with
/// its first bit at column `x` of row `y`, is set and falls on the pixel at
/// place `p`.
pub open spec fn row_hit(x: u8, y: int, row: u8, bits: int, p: int) -> bool {
    let w = (p % 64 - x) % 64;
    p / 64 == y % 32 && w < bits && sprite_bit(row, w)
}

/// The grid after the first `bits` bits of a sprite row were drawn: each
/// pixel that a set bit falls on is toggled.
pub open spec fn draw_row_bits(grid: Seq<bool>, x: u8, y: int, row: u8, bits: int) -> Seq<bool> {
    Seq::new(grid.len(), |p: int| grid[p] != row_hit(x, y, row, bits, p))
}

/// Whether drawing the first `bits` bits of a sprite row turns a lit pixel
/// off.
pub open spec fn row_collides_bits(grid: Seq<bool>, x: u8, y: int, row: u8, bits: int) -> bool {
    exists|p: int| 0 <= p < grid.len() && #[trigger] grid[p] && row_hit(x, y, row, bits, p)
}

/// The grid after a whole sprite row was drawn.
pub open spec fn draw_row(grid: Seq<bool>, x: u8, y: int, row: u8) -> Seq<bool> {
    draw_row_bits(grid, x, y, row, 8)
}

/// Whether drawing a whole sprite row turns a lit pixel off.
pub open spec fn row_collides(grid: Seq<bool>, x: u8, y: int, row: u8) -> bool {
    row_collides_bits(grid, x, y, row, 8)
}

/// The grid after the sprite `rows` was drawn with its top left corner at
/// `(x, y)`: the rows are drawn one below the other, first to last.
pub open spec fn draw_sprite(grid: Seq<bool>, x: u8, y: u8, rows: Seq<u8>) -> Seq<bool>
    decreases rows.len(),
{
    if rows.len() == 0 {
        grid
    } else {
        draw_row(draw_sprite(grid, x, y, rows.drop_last()), x, y + rows.len() - 1, rows.last())
    }
}

/// Whether drawing the sprite `rows` at `(x, y)` turns a lit pixel off at any
/// point.
pub open spec fn sprite_collides(grid: Seq<bool>, x: u8, y: u8, rows: Seq<u8>) -> bool
    decreases rows.len(),
{
    if rows.len() == 0 {
        false
    } else {
        sprite_collides(grid, x, y, rows.drop_last()) || row_collides(
            draw_sprite(grid, x, y, rows.drop_last()),
            x,
            y + rows.len() - 1,
            rows.last(),
        )
    }
}

/// Whether a set bit of the sprite `rows`, drawn with its top left corner at
/// `(x, y)`, falls on the pixel at place `p`. This is for sprites of at most
/// 32 rows, which meet no pixel twice.
pub open spec fn sprite_hit(x: u8, y: u8, rows: Seq<u8>, p: int) -> bool {
    let r = (p / 64 - y) % 32;
    let w = (p % 64 - x) % 64;
    r < rows.len() && w < 8 && sprite_bit(rows[r], w)
}

/// Drawing a sprite of at most 32 rows toggles exactly the pixels that its
/// set bits fall on, and collides exactly if one of them was on.
pub proof fn lemma_draw_sprite_pointwise(grid: Seq<bool>, x: u8, y: u8, rows: Seq<u8>)
    requires
        grid.len() == PIXEL_COUNT,
        rows.len() <= HEIGHT,
    ensures
        draw_sprite(grid, x, y, rows).len() == PIXEL_COUNT,
        forall|p: int|
            0 <= p < PIXEL_COUNT ==> #[trigger] draw_sprite(grid, x, y, rows)[p] == (grid[p]
                != sprite_hit(x, y, rows, p)),
        sprite_collides(grid, x, y, rows) <==> exists|p: int|
            0 <= p < PIXEL_COUNT && #[trigger] grid[p] && sprite_hit(x, y, rows, p),
    decreases rows.len(),
{
    if rows.len() > 0 {
        let init = rows.drop_last();
        let last = rows.last();
        let top = y + rows.len() - 1;
        let before = draw_sprite(grid, x, y, init);
        lemma_draw_sprite_pointwise(grid, x, y, init);
        assert forall|p: int| 0 <= p < PIXEL_COUNT implies sprite_hit(x, y, rows, p) == (
        sprite_hit(x, y, init, p) || row_hit(x, top, last, 8, p)) && !(sprite_hit(x, y, init, p)
            && row_hit(x, top, last, 8, p)) by {
            let r = (p / 64 - y) % 32;
            if r < init.len() {
                assert(rows[r] == init[r]);
            }
        }
        if sprite_collides(grid, x, y, rows) {
            if sprite_collides(grid, x, y, init) {
                let p = choose|p: int|
                    0 <= p < PIXEL_COUNT && #[trigger] grid[p] && sprite_hit(x, y, init, p);
                assert(grid[p] && sprite_hit(x, y, rows, p));
            } else {
                let p = choose|p: int|
                    0 <= p < before.len() && #[trigger] before[p] && row_hit(x, top, last, 8, p);
                assert(grid[p] && sprite_hit(x, y, rows, p));
            }
        }
        if exists|p: int| 0 <= p < PIXEL_COUNT && #[trigger] grid[p] && sprite_hit(x, y, rows, p) {
            let p = choose|p: int|
                0 <= p < PIXEL_COUNT && #[trigger] grid[p] && sprite_hit(x, y, rows, p);
            if sprite_hit(x, y, init, p) {
                assert(grid[p] && sprite_hit(x, y, init, p));
            } else {
                assert(before[p] && row_hit(x, top, last, 8, p));
            }
        }
    }
}

/// The grid as the renderer gets it: 1 for a pixel that is on, 0 for one
/// that is off.
pub open spec fn snapshot_of(grid: Seq<bool>) -> Seq<u8> {
    Seq::new(
        grid.len(),
        |p: int|
            if grid[p] {
                1u8
            } else {
                0u8
            },
    )
}

/// Drawing keeps the size of the grid.
pub proof fn lemma_draw_sprite_len(grid: Seq<bool>, x: u8, y: u8, rows: Seq<u8>)
    ensures
        draw_sprite(grid, x, y, rows).len() == grid.len(),
    decreases rows.len(),
{
    if rows.len() > 0 {
        lemma_draw_sprite_len(grid, x, y, rows.drop_last());
    }
}

/// What the next bit of a sprite row does: bit `w` falls on one pixel that
/// the bits before it have left alone, toggles it if the bit is set, and
/// collides if the pixel was on.
proof fn lemma_next_bit(grid: Seq<bool>, x: u8, y: int, row: u8, w: int)
    requires
        grid.len() == PIXEL_COUNT,
        0 <= w < 8,
    ensures
        ({
            let p = pixel_index(x + w, y);
            let drawn = draw_row_bits(grid, x, y, row, w);
            &&& 0 <= p < PIXEL_COUNT
            &&& drawn[p] == grid[p]
            &&& draw_row_bits(grid, x, y, row, w + 1) == (if sprite_bit(row, w) {
                drawn.update(p, !grid[p])
            } else {
                drawn
            })
            &&& row_collides_bits(grid, x, y, row, w + 1) == (row_collides_bits(grid, x, y, row, w)
                || (sprite_bit(row, w) && grid[p]))
        }),
{
    let p = pixel_index(x + w, y);
    let drawn = draw_row_bits(grid, x, y, row, w);
    assert((p % 64 - x) % 64 == w && p / 64 == y % 32);
    assert forall|q: int| 0 <= q < 2048 && q != p implies row_hit(x, y, row, w + 1, q) == row_hit(
        x,
        y,
        row,
        w,
        q,
    ) by {
        if q / 64 == y % 32 && (q % 64 - x) % 64 == w {
            assert(q % 64 == p % 64);
        }
    }
    assert(row_hit(x, y, row, w + 1, p) == sprite_bit(row, w));
    assert(!row_hit(x, y, row, w, p));
    assert(draw_row_bits(grid, x, y, row, w + 1) =~= (if sprite_bit(row, w) {
        drawn.update(p, !grid[p])
    } else {
        drawn
    }));
    if row_collides_bits(grid, x, y, row, w + 1) {
        let q = choose|q: int|
            0 <= q < grid.len() && #[trigger] grid[q] && row_hit(x, y, row, w + 1, q);
        if q != p {
            assert(grid[q] && row_hit(x, y, row, w, q));
        }
    }
    if row_collides_bits(grid, x, y, row, w) {
        let q = choose|q: int| 0 <= q < grid.len() && #[trigger] grid[q] && row_hit(x, y, row, w, q);
        assert(q != p);
        assert(grid[q] && row_hit(x, y, row, w + 1, q));
    }
    if sprite_bit(row, w) && grid[p] {
        assert(grid[p] && row_hit(x, y, row, w + 1, p));
    }
}

/// The pixel grid.
pub struct Display {
    pixels: [bool; 2048],
}

impl View for Display {
    type V = Seq<bool>;

    closed spec fn view(&self) -> Seq<bool> {
        self.pixels@
    }
}

impl Display {
    /// Every grid holds exactly `PIXEL_COUNT` pixels.
    pub proof fn lemma_size(&self)
        ensures
            self@.len() == PIXEL_COUNT,
    {
    }

    /// A grid with every pixel off.
    pub fn new() -> (display: Display)
        ensures
            display@ == Seq::new(PIXEL_COUNT as nat, |p: int| false),
    {
        Display { pixels: [false; 2048] }
    }

    /// Turns every pixel off.
    pub fn clear(&mut self)
        ensures
            final(self)@ == Seq::new(PIXEL_COUNT as nat, |p: int| false),
    {
        self.pixels = [false; 2048];
    }

    /// A copy of the grid, row by row: 1 for a pixel that is on, 0 for one
    /// that is off.
    pub fn snapshot(&self) -> (grid: Vec<u8>)
        ensures
            grid@ == snapshot_of(self@),
    {
        let mut grid: Vec<u8> = Vec::new();
        let mut p: usize = 0;
        while p < PIXEL_COUNT
            invariant
                p <= PIXEL_COUNT,
                grid@ == snapshot_of(self@.take(p as int)),
            decreases PIXEL_COUNT - p,
        {
            grid.push(
                if self.pixels[p] {
                    1
                } else {
                    0
                },
            );
            p = p + 1;
        }
        assert(self@.take(PIXEL_COUNT as int) == self@);
        grid
    }

    /// Whether the pixel at column `x`, row `y` is on; both wrap at the
    /// edges of the grid.
    pub fn pixel(&self, x: usize, y: usize) -> (on: bool)
        ensures
            on == self@[pixel_index(x as int, y as int)],
    {
        self.pixels[(y % HEIGHT) * WIDTH + x % WIDTH]
    }

    /// Draws `sprite`, one byte per row and the most significant bit
    /// leftmost, with its top left corner at `(x, y)`. Each set bit toggles
    /// the pixel it falls on. Returns whether any pixel went from on to
    /// off.
    pub fn draw(&mut self, x: u8, y: u8, sprite: &[u8]) -> (collision: bool)
        ensures
            final(self)@ == draw_sprite(old(self)@, x, y, sprite@),
            collision == sprite_collides(old(self)@, x, y, sprite@),
    {
        let mut collision = false;
        let mut h: usize = 0;
        while h < sprite.len()
            invariant
                h <= sprite@.len(),
                self@ == draw_sprite(old(self)@, x, y, sprite@.take(h as int)),
                collision == sprite_collides(old(self)@, x, y, sprite@.take(h as int)),
            decreases sprite@.len() - h,
        {
            let row = sprite[h];
            let line = (y as usize % HEIGHT + h % HEIGHT) % HEIGHT;
            let ghost before = self@;
            let ghost top = y + h;
            let mut hit = false;
            let mut w: usize = 0;
            while w < 8
                invariant
                    w <= 8,
                    line == top % 32,
                    before.len() == PIXEL_COUNT,
                    self@ == draw_row_bits(before, x, top, row, w as int),
                    hit == row_collides_bits(before, x, top, row, w as int),
                decreases 8 - w,
            {
                let p = line * WIDTH + (x as usize + w) % WIDTH;
                proof {
                    lemma_next_bit(before, x, top, row, w as int);
                }
                if row & (0x80u8 >> w) != 0 {
                    if self.pixels[p] {
                        hit = true;
                    }
                    self.pixels[p] = !self.pixels[p];
                }
                w = w + 1;
            }
            proof {
                let rows = sprite@.take(h + 1);
                assert(rows.drop_last() == sprite@.take(h as int));
                assert(rows.last() == row);
            }
            collision = collision || hit;
            h = h + 1;
        }
        assert(sprite@.take(h as int) == sprite@);
        collision
    }
}

} // verus!
