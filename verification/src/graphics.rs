//! The framebuffer and the drawing of sprites on it.

use vstd::prelude::*;
use crate::memory::{Memory, MEM_SIZE};

verus! {

/// The width of the screen in pixels.
pub const GFX_WIDTH: usize = 64;

/// The height of the screen in pixels.
pub const GFX_HEIGHT: usize = 32;

/// The width of a sprite in pixels: one bit of a row byte each.
pub const SPRITE_WIDTH: u8 = 8;

/// A frame is a grid of `GFX_WIDTH` columns of `GFX_HEIGHT` pixels each,
/// addressed as `frame[x][y]`.
pub open spec fn is_frame(frame: Seq<Seq<bool>>) -> bool {
    &&& frame.len() == GFX_WIDTH
    &&& forall|x: int| 0 <= x < GFX_WIDTH ==> (#[trigger] frame[x]).len() == GFX_HEIGHT
}

/// The frame with no pixel lit.
pub open spec fn blank_frame() -> Seq<Seq<bool>> {
    Seq::new(GFX_WIDTH as nat, |x: int| Seq::new(GFX_HEIGHT as nat, |y: int| false))
}

/// Whether the bit in column `col` of a sprite row is set. Column 0 is the most
/// significant bit.
pub open spec fn sprite_bit(row: u8, col: int) -> bool {
    (row >> ((7 - col) as u8)) & 1 == 1
}

/// The `n` bytes of `mem` from `start` on: the rows of a sprite, top row first.
pub open spec fn sprite_rows(mem: Seq<u8>, start: int, n: int) -> Seq<u8> {
    Seq::new(n as nat, |k: int| mem[start + k])
}

/// Whether the sprite `rows`, placed with its top left corner at `(x0, y0)`,
/// has a set bit on pixel `(x, y)`. The sprite wraps round both edges of the
/// screen.
pub open spec fn sprite_covers(rows: Seq<u8>, x0: u8, y0: u8, x: int, y: int) -> bool {
    let col = (x - x0) % (GFX_WIDTH as int);
    let row = (y - y0) % (GFX_HEIGHT as int);
    col < SPRITE_WIDTH && row < rows.len() && sprite_bit(rows[row], col)
}

/// The frame after the sprite has been drawn: every pixel under a set bit of
/// the sprite is flipped, every other pixel stays.
pub open spec fn blit_frame(frame: Seq<Seq<bool>>, rows: Seq<u8>, x0: u8, y0: u8) -> Seq<
    Seq<bool>,
> {
    Seq::new(
        GFX_WIDTH as nat,
        |x: int|
            Seq::new(
                GFX_HEIGHT as nat,
                |y: int| frame[x][y] != sprite_covers(rows, x0, y0, x, y),
            ),
    )
}

/// Whether drawing the sprite turns off a pixel that was lit.
pub open spec fn collides(frame: Seq<Seq<bool>>, rows: Seq<u8>, x0: u8, y0: u8) -> bool {
    exists|x: int, y: int|
        0 <= x < GFX_WIDTH && 0 <= y < GFX_HEIGHT && #[trigger] frame[x][y] && sprite_covers(
            rows,
            x0,
            y0,
            x,
            y,
        )
}

/// Whether the drawing loop, standing before column `b` of row `r` of the
/// sprite, has already flipped pixel `(x, y)`: the sprite cell that falls on
/// the pixel lies before that position and its bit is set.
#[verifier::opaque]
spec fn drawn(rows: Seq<u8>, x0: u8, y0: u8, x: int, y: int, r: int, b: int) -> bool {
    let col = (x - x0) % (GFX_WIDTH as int);
    let row = (y - y0) % (GFX_HEIGHT as int);
    (row < r || (row == r && col < b)) && sprite_covers(rows, x0, y0, x, y)
}

/// Whether the drawing loop, standing before column `b` of row `r`, has
/// turned off a pixel that was lit in `frame`.
spec fn collides_upto(frame: Seq<Seq<bool>>, rows: Seq<u8>, x0: u8, y0: u8, r: int, b: int) -> bool {
    exists|x: int, y: int|
        0 <= x < GFX_WIDTH && 0 <= y < GFX_HEIGHT && #[trigger] frame[x][y] && drawn(
            rows,
            x0,
            y0,
            x,
            y,
            r,
            b,
        )
}

/// Before the first cell nothing is drawn, and after the last row what is
/// drawn is what the sprite covers.
proof fn lemma_drawn_ends(rows: Seq<u8>, x0: u8, y0: u8, x: int, y: int)
    ensures
        !drawn(rows, x0, y0, x, y, 0, 0),
        drawn(rows, x0, y0, x, y, rows.len() as int, 0) == sprite_covers(rows, x0, y0, x, y),
{
    reveal(drawn);
}

/// The end of one row is the start of the next.
proof fn lemma_drawn_next_row(rows: Seq<u8>, x0: u8, y0: u8, x: int, y: int, r: int)
    ensures
        drawn(rows, x0, y0, x, y, r, SPRITE_WIDTH as int) == drawn(rows, x0, y0, x, y, r + 1, 0),
{
    reveal(drawn);
}

/// Passing the cell in column `b` of row `r` flips the one pixel under it,
/// if its bit is set, and no other.
proof fn lemma_drawn_step(rows: Seq<u8>, x0: u8, y0: u8, x: int, y: int, r: int, b: int)
    requires
        0 <= r < rows.len() <= GFX_HEIGHT,
        0 <= b < SPRITE_WIDTH,
        0 <= x < GFX_WIDTH,
        0 <= y < GFX_HEIGHT,
    ensures
        ({
            let here = x == (x0 + b) % (GFX_WIDTH as int) && y == (y0 + r) % (GFX_HEIGHT as int);
            &&& here ==> !drawn(rows, x0, y0, x, y, r, b)
            &&& drawn(rows, x0, y0, x, y, r, b + 1) == (drawn(rows, x0, y0, x, y, r, b) || (here
                && sprite_bit(rows[r], b)))
        }),
{
    reveal(drawn);
}

/// Before the first cell nothing has collided, and after the last row the
/// collisions are those of the whole sprite.
proof fn lemma_collides_ends(frame: Seq<Seq<bool>>, rows: Seq<u8>, x0: u8, y0: u8)
    ensures
        !collides_upto(frame, rows, x0, y0, 0, 0),
        collides_upto(frame, rows, x0, y0, rows.len() as int, 0) == collides(frame, rows, x0, y0),
{
    assert forall|x: int, y: int|
        !drawn(rows, x0, y0, x, y, 0, 0) && #[trigger] drawn(
            rows,
            x0,
            y0,
            x,
            y,
            rows.len() as int,
            0,
        ) == sprite_covers(rows, x0, y0, x, y) by {
        lemma_drawn_ends(rows, x0, y0, x, y);
    }
    if collides(frame, rows, x0, y0) {
        let (x, y) = choose|x: int, y: int|
            0 <= x < GFX_WIDTH && 0 <= y < GFX_HEIGHT && #[trigger] frame[x][y] && sprite_covers(
                rows,
                x0,
                y0,
                x,
                y,
            );
        lemma_drawn_ends(rows, x0, y0, x, y);
        assert(frame[x][y] && drawn(rows, x0, y0, x, y, rows.len() as int, 0));
    }
    if collides_upto(frame, rows, x0, y0, 0, 0) {
        let (x, y) = choose|x: int, y: int|
            0 <= x < GFX_WIDTH && 0 <= y < GFX_HEIGHT && #[trigger] frame[x][y] && drawn(
                rows,
                x0,
                y0,
                x,
                y,
                0,
                0,
            );
        lemma_drawn_ends(rows, x0, y0, x, y);
    }
    if collides_upto(frame, rows, x0, y0, rows.len() as int, 0) {
        let (x, y) = choose|x: int, y: int|
            0 <= x < GFX_WIDTH && 0 <= y < GFX_HEIGHT && #[trigger] frame[x][y] && drawn(
                rows,
                x0,
                y0,
                x,
                y,
                rows.len() as int,
                0,
            );
        lemma_drawn_ends(rows, x0, y0, x, y);
        assert(frame[x][y] && sprite_covers(rows, x0, y0, x, y));
    }
}

/// The collisions at the end of one row are those at the start of the next.
proof fn lemma_collides_next_row(frame: Seq<Seq<bool>>, rows: Seq<u8>, x0: u8, y0: u8, r: int)
    ensures
        collides_upto(frame, rows, x0, y0, r, SPRITE_WIDTH as int) == collides_upto(
            frame,
            rows,
            x0,
            y0,
            r + 1,
            0,
        ),
{
    if collides_upto(frame, rows, x0, y0, r, SPRITE_WIDTH as int) {
        let (x, y) = choose|x: int, y: int|
            0 <= x < GFX_WIDTH && 0 <= y < GFX_HEIGHT && #[trigger] frame[x][y] && drawn(
                rows,
                x0,
                y0,
                x,
                y,
                r,
                SPRITE_WIDTH as int,
            );
        lemma_drawn_next_row(rows, x0, y0, x, y, r);
        assert(frame[x][y] && drawn(rows, x0, y0, x, y, r + 1, 0));
    }
    if collides_upto(frame, rows, x0, y0, r + 1, 0) {
        let (x, y) = choose|x: int, y: int|
            0 <= x < GFX_WIDTH && 0 <= y < GFX_HEIGHT && #[trigger] frame[x][y] && drawn(
                rows,
                x0,
                y0,
                x,
                y,
                r + 1,
                0,
            );
        lemma_drawn_next_row(rows, x0, y0, x, y, r);
        assert(frame[x][y] && drawn(rows, x0, y0, x, y, r, SPRITE_WIDTH as int));
    }
}

/// Passing one more sprite cell adds a collision exactly when the pixel under
/// it is lit and the bit is set.
proof fn lemma_collides_step(frame: Seq<Seq<bool>>, rows: Seq<u8>, x0: u8, y0: u8, r: int, b: int)
    requires
        is_frame(frame),
        0 <= r < rows.len() <= GFX_HEIGHT,
        0 <= b < SPRITE_WIDTH,
    ensures
        collides_upto(frame, rows, x0, y0, r, b + 1) <==> collides_upto(frame, rows, x0, y0, r, b)
            || (frame[(x0 + b) % (GFX_WIDTH as int)][(y0 + r) % (GFX_HEIGHT as int)] && sprite_bit(
            rows[r],
            b,
        )),
{
    let px = (x0 + b) % (GFX_WIDTH as int);
    let py = (y0 + r) % (GFX_HEIGHT as int);
    if collides_upto(frame, rows, x0, y0, r, b + 1) {
        let (x, y) = choose|x: int, y: int|
            0 <= x < GFX_WIDTH && 0 <= y < GFX_HEIGHT && #[trigger] frame[x][y] && drawn(
                rows,
                x0,
                y0,
                x,
                y,
                r,
                b + 1,
            );
        lemma_drawn_step(rows, x0, y0, x, y, r, b);
        if drawn(rows, x0, y0, x, y, r, b) {
            assert(frame[x][y] && drawn(rows, x0, y0, x, y, r, b));
        }
    }
    if collides_upto(frame, rows, x0, y0, r, b) {
        let (x, y) = choose|x: int, y: int|
            0 <= x < GFX_WIDTH && 0 <= y < GFX_HEIGHT && #[trigger] frame[x][y] && drawn(
                rows,
                x0,
                y0,
                x,
                y,
                r,
                b,
            );
        lemma_drawn_step(rows, x0, y0, x, y, r, b);
        assert(frame[x][y] && drawn(rows, x0, y0, x, y, r, b + 1));
    }
    if frame[px][py] && sprite_bit(rows[r], b) {
        lemma_drawn_step(rows, x0, y0, px, py, r, b);
        assert(frame[px][py] && drawn(rows, x0, y0, px, py, r, b + 1));
    }
}

/// The framebuffer: `self.0[x][y]` tells whether the pixel in column `x` and
/// row `y` is lit. Its view is that grid as a frame.
pub struct Graphics(pub [[bool; GFX_HEIGHT]; GFX_WIDTH]);

impl View for Graphics {
    type V = Seq<Seq<bool>>;

    open spec fn view(&self) -> Seq<Seq<bool>> {
        Seq::new(GFX_WIDTH as nat, |x: int| self.0[x]@)
    }
}

impl Graphics {
    /// A framebuffer with no pixel lit.
    pub fn new() -> (r: Self)
        ensures
            r@ == blank_frame(),
    {
        let r = Self([[false; GFX_HEIGHT]; GFX_WIDTH]);
        assert(r@ =~~= blank_frame());
        r
    }

    /// Turns every pixel off.
    pub fn clear(&mut self)
        ensures
            final(self)@ == blank_frame(),
    {
        self.0 = [[false; GFX_HEIGHT]; GFX_WIDTH];
        assert(self@ =~~= blank_frame());
    }

    /// Draws the sprite whose rows are the `n` bytes of `memory` from `start`
    /// on, with its top left corner at `(x0, y0)`, and tells whether a lit
    /// pixel was turned off.
    pub fn draw_sprite(&mut self, memory: &Memory, start: u16, n: u8, x0: u8, y0: u8) -> (collision:
        bool)
        requires
            n > 0 ==> start + n <= MEM_SIZE,
            n <= GFX_HEIGHT,
        ensures
            final(self)@ == blit_frame(
                old(self)@,
                sprite_rows(memory@, start as int, n as int),
                x0,
                y0,
            ),
            collision == collides(
                old(self)@,
                sprite_rows(memory@, start as int, n as int),
                x0,
                y0,
            ),
    {
        let ghost rows = sprite_rows(memory@, start as int, n as int);
        let ghost before = self@;
        let mut collision = false;
        let mut r: u8 = 0;
        proof {
            lemma_collides_ends(before, rows, x0, y0);
            assert forall|x: int, y: int| !#[trigger] drawn(rows, x0, y0, x, y, 0, 0) by {
                lemma_drawn_ends(rows, x0, y0, x, y);
            }
        }
        while r < n
            invariant
                r <= n <= GFX_HEIGHT,
                n > 0 ==> start + n <= MEM_SIZE,
                rows == sprite_rows(memory@, start as int, n as int),
                is_frame(before),
                forall|x: int, y: int|
                    0 <= x < GFX_WIDTH && 0 <= y < GFX_HEIGHT ==> self.0[x][y] == (before[x][y]
                        != #[trigger] drawn(rows, x0, y0, x, y, r as int, 0)),
                collision == collides_upto(before, rows, x0, y0, r as int, 0),
            decreases n - r,
        {
            let row: u8 = memory.0[start as usize + r as usize];
            let py: usize = ((y0 as u16 + r as u16) % 32) as usize;
            let mut b: u8 = 0;
            while b < SPRITE_WIDTH
                invariant
                    r < n <= GFX_HEIGHT,
                    b <= SPRITE_WIDTH,
                    rows.len() == n,
                    row == rows[r as int],
                    py == (y0 + r) % (GFX_HEIGHT as int),
                    is_frame(before),
                    forall|x: int, y: int|
                        0 <= x < GFX_WIDTH && 0 <= y < GFX_HEIGHT ==> self.0[x][y] == (before[x][y]
                            != #[trigger] drawn(rows, x0, y0, x, y, r as int, b as int)),
                    collision == collides_upto(before, rows, x0, y0, r as int, b as int),
                decreases SPRITE_WIDTH - b,
            {
                let px: usize = ((x0 as u16 + b as u16) % 64) as usize;
                let value: bool = (row >> (7 - b)) & 1 == 1;
                let ghost during = self.0;
                proof {
                    lemma_collides_step(before, rows, x0, y0, r as int, b as int);
                    lemma_drawn_step(rows, x0, y0, px as int, py as int, r as int, b as int);
                    assert(during[px as int][py as int] == before[px as int][py as int]);
                }
                if self.0[px][py] && value {
                    collision = true;
                }
                let lit: bool = self.0[px][py] != value;
                self.0[px][py] = lit;
                proof {
                    assert forall|x: int, y: int|
                        0 <= x < GFX_WIDTH && 0 <= y < GFX_HEIGHT implies self.0[x][y] == (
                        before[x][y] != #[trigger] drawn(rows, x0, y0, x, y, r as int, b + 1)) by {
                        lemma_drawn_step(rows, x0, y0, x, y, r as int, b as int);
                        assert(during[x][y] == (before[x][y] != drawn(
                            rows,
                            x0,
                            y0,
                            x,
                            y,
                            r as int,
                            b as int,
                        )));
                    }
                }
                b += 1;
            }
            proof {
                lemma_collides_next_row(before, rows, x0, y0, r as int);
                assert forall|x: int, y: int|
                    0 <= x < GFX_WIDTH && 0 <= y < GFX_HEIGHT implies self.0[x][y] == (before[x][y]
                        != #[trigger] drawn(rows, x0, y0, x, y, r + 1, 0)) by {
                    lemma_drawn_next_row(rows, x0, y0, x, y, r as int);
                }
            }
            r += 1;
        }
        proof {
            lemma_collides_ends(before, rows, x0, y0);
            assert forall|x: int, y: int|
                0 <= x < GFX_WIDTH && 0 <= y < GFX_HEIGHT implies self.0[x][y] == (before[x][y]
                    != sprite_covers(rows, x0, y0, x, y)) by {
                lemma_drawn_ends(rows, x0, y0, x, y);
            }
            assert(self@ =~~= blit_frame(before, rows, x0, y0));
        }
        collision
    }

    /// Whether the pixel in column `x` and row `y` is lit.
    pub fn pixel(&self, x: usize, y: usize) -> (lit: bool)
        requires
            x < GFX_WIDTH,
            y < GFX_HEIGHT,
        ensures
            lit == self@[x as int][y as int],
    {
        self.0[x][y]
    }
}

} // verus!
