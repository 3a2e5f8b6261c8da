//! The frame buffer: a grid of 64 by 32 pixels, each lit or dark, onto which
//! sprites are composited with exclusive or.

use vstd::prelude::*;

verus! {

/// Number of pixels in a row of the grid.
pub const WIDTH: usize = 64;

/// Number of rows of the grid.
pub const HEIGHT: usize = 32;

/// Number of pixels of the grid.
pub const FRAME_SIZE: usize = 2048;

/// Number of pixels in a row of a sprite.
pub const SPRITE_WIDTH: usize = 8;

/// Largest number of rows of a sprite.
pub const MAX_SPRITE_HEIGHT: usize = 15;

/// The frame buffer. Pixels are stored row by row, one byte each: 1 for a lit
/// pixel and 0 for a dark one.
pub struct Display {
    frame_buffer: [u8; FRAME_SIZE],
}

/// The pixel of a sprite's `row` in column `col`, where column 0 is the
/// leftmost of eight and is held in the most significant bit.
pub open spec fn sprite_bit(row: u8, col: int) -> u8 {
    (row >> ((7 - col) as u8)) & 1
}

/// What a sprite drawn at `(x, y)` puts on the pixel `(px, py)` of the grid:
/// 1 where a set bit of the sprite lands on that pixel, 0 elsewhere. Columns
/// wrap at the right edge and rows at the bottom edge, pixel by pixel.
pub open spec fn sprite_at(sprite: Seq<u8>, x: int, y: int, px: int, py: int) -> u8 {
    let col = (px - x) % (WIDTH as int);
    let row = (py - y) % (HEIGHT as int);
    if col < SPRITE_WIDTH && row < sprite.len() {
        sprite_bit(sprite[row], col)
    } else {
        0
    }
}

/// What a sprite drawn at `(x, y)` puts on the pixel stored at `index`.
pub open spec fn sprite_over(sprite: Seq<u8>, x: int, y: int, index: int) -> u8 {
    sprite_at(sprite, x, y, index % (WIDTH as int), index / (WIDTH as int))
}

/// The frame after a sprite has been drawn at `(x, y)`: every pixel is
/// combined by exclusive or with what the sprite puts on it.
pub open spec fn drawn(frame: Seq<u8>, sprite: Seq<u8>, x: int, y: int) -> Seq<u8> {
    Seq::new(FRAME_SIZE as nat, |i: int| frame[i] ^ sprite_over(sprite, x, y, i))
}

/// Whether drawing a sprite at `(x, y)` turns some lit pixel dark.
pub open spec fn collides(frame: Seq<u8>, sprite: Seq<u8>, x: int, y: int) -> bool {
    exists|i: int| 0 <= i < FRAME_SIZE && frame[i] == 1 && #[trigger] sprite_over(sprite, x, y, i) == 1
}

/// Whether drawing a sprite at `(x, y)` lights some dark pixel.
pub open spec fn lights(frame: Seq<u8>, sprite: Seq<u8>, x: int, y: int) -> bool {
    exists|i: int| 0 <= i < FRAME_SIZE && frame[i] == 0 && #[trigger] sprite_over(sprite, x, y, i) == 1
}

/// A frame of the right size in which every pixel is 0 or 1.
pub open spec fn is_frame(frame: Seq<u8>) -> bool {
    &&& frame.len() == FRAME_SIZE
    &&& forall|i: int| 0 <= i < FRAME_SIZE ==> #[trigger] frame[i] <= 1
}

/// The frame in which every pixel is dark.
pub open spec fn blank_frame() -> Seq<u8> {
    Seq::new(FRAME_SIZE as nat, |i: int| 0u8)
}

/// What the first `rows` rows of a sprite drawn at `(x, y)`, and the first
/// `cols` columns of the row after them, put on the pixel stored at `index`.
spec fn sprite_upto(sprite: Seq<u8>, x: int, y: int, index: int, rows: int, cols: int) -> u8 {
    let col = (index % (WIDTH as int) - x) % (WIDTH as int);
    let row = (index / (WIDTH as int) - y) % (HEIGHT as int);
    if col < SPRITE_WIDTH && row < sprite.len() && (row < rows || (row == rows && col < cols)) {
        sprite_bit(sprite[row], col)
    } else {
        0
    }
}

/// Whether `frame` is `before` with that part of the sprite drawn on it.
spec fn drawn_upto(
    before: Seq<u8>,
    frame: Seq<u8>,
    sprite: Seq<u8>,
    x: int,
    y: int,
    rows: int,
    cols: int,
) -> bool {
    &&& frame.len() == FRAME_SIZE
    &&& forall|j: int|
        0 <= j < FRAME_SIZE ==> frame[j] == before[j] ^ #[trigger] sprite_upto(
            sprite,
            x,
            y,
            j,
            rows,
            cols,
        )
}

/// Whether that part of the sprite turns a lit pixel of `before` dark.
spec fn collides_upto(before: Seq<u8>, sprite: Seq<u8>, x: int, y: int, rows: int, cols: int) -> bool {
    exists|j: int|
        0 <= j < FRAME_SIZE && before[j] == 1 && #[trigger] sprite_upto(sprite, x, y, j, rows, cols)
            == 1
}

/// The place in the frame buffer of the pixel on which column `col` of row
/// `row` of a sprite drawn at `(x, y)` lands.
spec fn landing(x: int, y: int, col: int, row: int) -> int {
    (x + col) % (WIDTH as int) + WIDTH * ((y + row) % (HEIGHT as int))
}

/// Exclusive or on pixels: the result is a pixel, it is dark exactly when
/// both are alike, and a dark pixel changes nothing.
pub proof fn lemma_xor_pixels(p: u8, q: u8)
    requires
        p <= 1,
        q <= 1,
    ensures
        p ^ q <= 1,
        (p ^ q == 0) == (p == q),
        p ^ 0 == p,
        (p ^ q) ^ q == p,
{
    assert(p <= 1 && q <= 1 ==> p ^ q <= 1 && ((p ^ q == 0) == (p == q)) && p ^ 0 == p && (p ^ q) ^ q == p)
        by (bit_vector);
}

/// A bit of a sprite's row is 0 or 1.
pub proof fn lemma_sprite_bit(row: u8, col: int)
    requires
        0 <= col < SPRITE_WIDTH,
    ensures
        sprite_bit(row, col) <= 1,
{
    let shift: u8 = (7 - col) as u8;
    assert((row >> shift) & 1 <= 1) by (bit_vector);
}

/// Going `step` places to the right of `origin` on a line of 64 places that
/// wraps around ends at `place` exactly if `place` lies `step` places after
/// `origin`.
proof fn lemma_wrap_column(origin: int, step: int, place: int)
    requires
        0 <= origin,
        0 <= step < WIDTH,
        0 <= place < WIDTH,
    ensures
        (place - origin) % (WIDTH as int) == step <==> place == (origin + step) % (WIDTH as int),
{
}

/// The same on a line of 32 places.
proof fn lemma_wrap_row(origin: int, step: int, place: int)
    requires
        0 <= origin,
        0 <= step < HEIGHT,
        0 <= place < HEIGHT,
    ensures
        (place - origin) % (HEIGHT as int) == step <==> place == (origin + step) % (HEIGHT as int),
{
}

/// Column `col` of row `row` of a sprite drawn at `(x, y)` lands on one
/// place of the frame buffer and on no other.
#[verifier::rlimit(30)]
proof fn lemma_landing(x: int, y: int, col: int, row: int, index: int)
    requires
        0 <= x,
        0 <= y,
        0 <= col < WIDTH,
        0 <= row < HEIGHT,
        0 <= index < FRAME_SIZE,
    ensures
        0 <= landing(x, y, col, row) < FRAME_SIZE,
        ((index % (WIDTH as int) - x) % (WIDTH as int) == col && (index / (WIDTH as int) - y) % (
        HEIGHT as int) == row) <==> index == landing(x, y, col, row),
{
    let px = index % (WIDTH as int);
    let py = index / (WIDTH as int);
    let lx = (x + col) % (WIDTH as int);
    let ly = (y + row) % (HEIGHT as int);
    assert(index == px + WIDTH * py);
    assert(0 <= px < WIDTH && 0 <= py < HEIGHT);
    assert(0 <= lx < WIDTH && 0 <= ly < HEIGHT);
    lemma_wrap_column(x, col, px);
    lemma_wrap_row(y, row, py);
    assert(index == lx + WIDTH * ly <==> (px == lx && py == ly));
}

/// Before anything of the sprite is drawn, the frame is as it was and
/// nothing has collided.
proof fn lemma_draw_start(before: Seq<u8>, sprite: Seq<u8>, x: int, y: int)
    requires
        is_frame(before),
    ensures
        drawn_upto(before, before, sprite, x, y, 0, 0),
        !collides_upto(before, sprite, x, y, 0, 0),
{
    assert forall|j: int| 0 <= j < FRAME_SIZE implies before[j] == before[j] ^ #[trigger] sprite_upto(
        sprite,
        x,
        y,
        j,
        0,
        0,
    ) by {
        lemma_xor_pixels(before[j], 0);
    }
}

/// Drawing one more pixel of the sprite: the pixel it lands on was not
/// touched before, and the frame with that pixel combined by exclusive or
/// with the sprite's bit is the frame with one more column drawn. A
/// collision is one from before, or a lit pixel under a set bit now.
proof fn lemma_draw_pixel(
    before: Seq<u8>,
    frame: Seq<u8>,
    sprite: Seq<u8>,
    x: int,
    y: int,
    row: int,
    col: int,
)
    requires
        is_frame(before),
        drawn_upto(before, frame, sprite, x, y, row, col),
        0 <= x,
        0 <= y,
        0 <= row < sprite.len() <= HEIGHT,
        0 <= col < SPRITE_WIDTH,
    ensures
        ({
            let place = landing(x, y, col, row);
            let bit = sprite_bit(sprite[row], col);
            let after = frame.update(place, frame[place] ^ bit);
            &&& 0 <= place < FRAME_SIZE
            &&& bit <= 1
            &&& frame[place] == before[place]
            &&& frame[place] <= 1
            &&& drawn_upto(before, after, sprite, x, y, row, col + 1)
            &&& collides_upto(before, sprite, x, y, row, col + 1) <==> (collides_upto(
                before,
                sprite,
                x,
                y,
                row,
                col,
            ) || (frame[place] == 1 && bit == 1))
        }),
{
    let place = landing(x, y, col, row);
    let bit = sprite_bit(sprite[row], col);
    let after = frame.update(place, frame[place] ^ bit);
    lemma_landing(x, y, col, row, place);
    lemma_sprite_bit(sprite[row], col);
    assert(sprite_upto(sprite, x, y, place, row, col) == 0);
    assert(sprite_upto(sprite, x, y, place, row, col + 1) == bit);
    lemma_xor_pixels(before[place], 0);
    assert(frame[place] == before[place]);
    assert forall|j: int| 0 <= j < FRAME_SIZE && j != place implies sprite_upto(
        sprite,
        x,
        y,
        j,
        row,
        col + 1,
    ) == #[trigger] sprite_upto(sprite, x, y, j, row, col) by {
        lemma_landing(x, y, col, row, j);
    }
    assert forall|j: int| 0 <= j < FRAME_SIZE implies after[j] == before[j] ^ #[trigger] sprite_upto(
        sprite,
        x,
        y,
        j,
        row,
        col + 1,
    ) by {
        if j != place {
            assert(sprite_upto(sprite, x, y, j, row, col + 1) == sprite_upto(
                sprite,
                x,
                y,
                j,
                row,
                col,
            ));
        }
    }
    if collides_upto(before, sprite, x, y, row, col) {
        let j = choose|j: int|
            0 <= j < FRAME_SIZE && before[j] == 1 && #[trigger] sprite_upto(sprite, x, y, j, row, col)
                == 1;
        assert(j != place);
        assert(sprite_upto(sprite, x, y, j, row, col + 1) == 1);
    }
    if frame[place] == 1 && bit == 1 {
        assert(sprite_upto(sprite, x, y, place, row, col + 1) == 1);
    }
    if collides_upto(before, sprite, x, y, row, col + 1) {
        let j = choose|j: int|
            0 <= j < FRAME_SIZE && before[j] == 1 && #[trigger] sprite_upto(
                sprite,
                x,
                y,
                j,
                row,
                col + 1,
            ) == 1;
        if j != place {
            assert(sprite_upto(sprite, x, y, j, row, col) == 1);
        }
    }
}

/// A row drawn in full is the start of the next row.
proof fn lemma_draw_row(before: Seq<u8>, frame: Seq<u8>, sprite: Seq<u8>, x: int, y: int, row: int)
    requires
        drawn_upto(before, frame, sprite, x, y, row, SPRITE_WIDTH as int),
    ensures
        drawn_upto(before, frame, sprite, x, y, row + 1, 0),
        collides_upto(before, sprite, x, y, row + 1, 0) <==> collides_upto(
            before,
            sprite,
            x,
            y,
            row,
            SPRITE_WIDTH as int,
        ),
{
    assert forall|j: int| 0 <= j < FRAME_SIZE implies #[trigger] sprite_upto(
        sprite,
        x,
        y,
        j,
        row + 1,
        0,
    ) == sprite_upto(sprite, x, y, j, row, SPRITE_WIDTH as int) by {}
    if collides_upto(before, sprite, x, y, row, SPRITE_WIDTH as int) {
        let j = choose|j: int|
            0 <= j < FRAME_SIZE && before[j] == 1 && #[trigger] sprite_upto(
                sprite,
                x,
                y,
                j,
                row,
                SPRITE_WIDTH as int,
            ) == 1;
        assert(sprite_upto(sprite, x, y, j, row + 1, 0) == 1);
    }
    if collides_upto(before, sprite, x, y, row + 1, 0) {
        let j = choose|j: int|
            0 <= j < FRAME_SIZE && before[j] == 1 && #[trigger] sprite_upto(
                sprite,
                x,
                y,
                j,
                row + 1,
                0,
            ) == 1;
        assert(sprite_upto(sprite, x, y, j, row, SPRITE_WIDTH as int) == 1);
    }
}

/// With all its rows drawn, the sprite is drawn.
proof fn lemma_draw_end(before: Seq<u8>, frame: Seq<u8>, sprite: Seq<u8>, x: int, y: int)
    requires
        drawn_upto(before, frame, sprite, x, y, sprite.len() as int, 0),
    ensures
        frame == drawn(before, sprite, x, y),
        collides_upto(before, sprite, x, y, sprite.len() as int, 0) <==> collides(
            before,
            sprite,
            x,
            y,
        ),
{
    let rows = sprite.len() as int;
    assert forall|j: int| 0 <= j < FRAME_SIZE implies #[trigger] sprite_upto(
        sprite,
        x,
        y,
        j,
        rows,
        0,
    ) == sprite_over(sprite, x, y, j) by {}
    assert forall|j: int| 0 <= j < FRAME_SIZE implies frame[j] == before[j] ^ sprite_over(
        sprite,
        x,
        y,
        j,
    ) by {
        assert(sprite_upto(sprite, x, y, j, rows, 0) == sprite_over(sprite, x, y, j));
    }
    assert(frame =~= drawn(before, sprite, x, y));
    if collides_upto(before, sprite, x, y, rows, 0) {
        let j = choose|j: int|
            0 <= j < FRAME_SIZE && before[j] == 1 && #[trigger] sprite_upto(sprite, x, y, j, rows, 0)
                == 1;
        assert(sprite_over(sprite, x, y, j) == 1);
    }
    if collides(before, sprite, x, y) {
        let j = choose|j: int|
            0 <= j < FRAME_SIZE && before[j] == 1 && #[trigger] sprite_over(sprite, x, y, j) == 1;
        assert(sprite_upto(sprite, x, y, j, rows, 0) == 1);
    }
}

/// What a sprite puts on a pixel is 0 or 1.
pub proof fn lemma_sprite_over(sprite: Seq<u8>, x: int, y: int, index: int)
    ensures
        sprite_over(sprite, x, y, index) <= 1,
{
    let col = (index % (WIDTH as int) - x) % (WIDTH as int);
    let row = (index / (WIDTH as int) - y) % (HEIGHT as int);
    if col < SPRITE_WIDTH && row < sprite.len() {
        lemma_sprite_bit(sprite[row], col);
    }
}

/// Drawing keeps a frame a frame.
pub proof fn lemma_drawn_is_frame(frame: Seq<u8>, sprite: Seq<u8>, x: int, y: int)
    requires
        is_frame(frame),
    ensures
        is_frame(drawn(frame, sprite, x, y)),
{
    assert forall|i: int| 0 <= i < FRAME_SIZE implies #[trigger] drawn(frame, sprite, x, y)[i] <= 1 by {
        lemma_sprite_over(sprite, x, y, i);
        lemma_xor_pixels(frame[i], sprite_over(sprite, x, y, i));
    }
}

/// Drawing a sprite a second time at the same place undoes the first draw:
/// the frame is as it was before, and the second draw reports a collision
/// exactly when the first one lit a pixel.
pub proof fn lemma_draw_twice(frame: Seq<u8>, sprite: Seq<u8>, x: int, y: int)
    requires
        is_frame(frame),
    ensures
        drawn(drawn(frame, sprite, x, y), sprite, x, y) == frame,
        collides(drawn(frame, sprite, x, y), sprite, x, y) <==> lights(frame, sprite, x, y),
{
    let once = drawn(frame, sprite, x, y);
    let twice = drawn(once, sprite, x, y);
    assert forall|i: int| 0 <= i < FRAME_SIZE implies twice[i] == frame[i] by {
        lemma_sprite_over(sprite, x, y, i);
        lemma_xor_pixels(frame[i], sprite_over(sprite, x, y, i));
    }
    assert(twice =~= frame);
    if lights(frame, sprite, x, y) {
        let i = choose|i: int| 0 <= i < FRAME_SIZE && frame[i] == 0 && #[trigger] sprite_over(sprite, x, y, i) == 1;
        lemma_xor_pixels(frame[i], sprite_over(sprite, x, y, i));
        assert(once[i] == 1);
    }
    if collides(once, sprite, x, y) {
        let i = choose|i: int| 0 <= i < FRAME_SIZE && once[i] == 1 && #[trigger] sprite_over(sprite, x, y, i) == 1;
        lemma_xor_pixels(frame[i], sprite_over(sprite, x, y, i));
        assert(frame[i] == 0);
    }
}

impl View for Display {
    type V = Seq<u8>;

    closed spec fn view(&self) -> Seq<u8> {
        self.frame_buffer@
    }
}

impl Display {
    #[verifier::type_invariant]
    spec fn pixels_are_bits(&self) -> bool {
        is_frame(self.frame_buffer@)
    }

    /// A display on which every pixel is dark.
    pub fn new() -> (display: Display)
        ensures
            display@ == blank_frame(),
            is_frame(display@),
    {
        let display = Display { frame_buffer: [0; FRAME_SIZE] };
        assert(display@ =~= blank_frame());
        display
    }

    /// Turns every pixel dark.
    pub fn clear(&mut self)
        ensures
            final(self)@ == blank_frame(),
            is_frame(final(self)@),
    {
        proof {
            use_type_invariant(&*self);
        }
        let mut idx: usize = 0;
        while idx < FRAME_SIZE
            invariant
                idx <= FRAME_SIZE,
                forall|i: int| 0 <= i < idx ==> self.frame_buffer@[i] == 0,
                is_frame(self.frame_buffer@),
            decreases FRAME_SIZE - idx,
        {
            self.frame_buffer[idx] = 0;
            idx += 1;
        }
        assert(self@ =~= blank_frame());
    }

    /// The place in the frame buffer of the pixel in column `x` of row `y`.
    pub fn get_index(&self, x: usize, y: usize) -> (index: usize)
        requires
            x + WIDTH * y <= usize::MAX,
        ensures
            index == x + WIDTH * y,
    {
        x + WIDTH * y
    }

    /// Draws `sprite`, one byte for each row of eight pixels, with its upper
    /// left corner at `(x, y)`. Every pixel under a set bit of the sprite is
    /// flipped; columns past the right edge and rows past the bottom edge
    /// wrap around. Returns whether a lit pixel was turned dark.
    #[verifier::rlimit(30)]
    pub fn draw(&mut self, x: usize, y: usize, sprite: &[u8]) -> (collision: bool)
        requires
            sprite@.len() <= MAX_SPRITE_HEIGHT,
        ensures
            final(self)@ == drawn(old(self)@, sprite@, x as int, y as int),
            collision == collides(old(self)@, sprite@, x as int, y as int),
            is_frame(final(self)@),
    {
        proof {
            use_type_invariant(&*self);
        }
        let ghost before = self.frame_buffer@;
        let ghost xi = x as int;
        let ghost yi = y as int;
        let x0: usize = x % WIDTH;
        let y0: usize = y % HEIGHT;
        let height: usize = sprite.len();
        let mut collision = false;
        let mut i: usize = 0;
        proof {
            lemma_draw_start(before, sprite@, xi, yi);
        }
        while i < height
            invariant
                i <= height,
                height == sprite@.len(),
                height <= MAX_SPRITE_HEIGHT,
                x0 == xi % (WIDTH as int),
                y0 == yi % (HEIGHT as int),
                0 <= xi,
                0 <= yi,
                is_frame(before),
                is_frame(self.frame_buffer@),
                drawn_upto(before, self.frame_buffer@, sprite@, xi, yi, i as int, 0),
                collision == collides_upto(before, sprite@, xi, yi, i as int, 0),
            decreases height - i,
        {
            let row: u8 = sprite[i];
            let y_coord: usize = (y0 + i) % HEIGHT;
            let mut col: usize = 0;
            while col < SPRITE_WIDTH
                invariant
                    col <= SPRITE_WIDTH,
                    i < height,
                    height == sprite@.len(),
                    height <= MAX_SPRITE_HEIGHT,
                    row == sprite@[i as int],
                    x0 == xi % (WIDTH as int),
                    y_coord == (yi + i) % (HEIGHT as int),
                    0 <= xi,
                    0 <= yi,
                    is_frame(before),
                    is_frame(self.frame_buffer@),
                    drawn_upto(before, self.frame_buffer@, sprite@, xi, yi, i as int, col as int),
                    collision == collides_upto(before, sprite@, xi, yi, i as int, col as int),
                decreases SPRITE_WIDTH - col,
            {
                let shift: u8 = (7 - col) as u8;
                let val: u8 = (row >> shift) & 0x01;
                let x_coord: usize = (x0 + col) % WIDTH;
                let offset: usize = self.get_index(x_coord, y_coord);
                let prev_val: u8 = self.frame_buffer[offset];
                proof {
                    lemma_draw_pixel(before, self.frame_buffer@, sprite@, xi, yi, i as int, col as int);
                    assert(offset == landing(xi, yi, col as int, i as int));
                    assert(val == sprite_bit(row, col as int));
                    lemma_xor_pixels(prev_val, val);
                }
                self.frame_buffer[offset] = prev_val ^ val;
                if prev_val == 1 && self.frame_buffer[offset] == 0 {
                    collision = true;
                }
                col += 1;
            }
            proof {
                lemma_draw_row(before, self.frame_buffer@, sprite@, xi, yi, i as int);
            }
            i += 1;
        }
        proof {
            lemma_draw_end(before, self.frame_buffer@, sprite@, xi, yi);
        }
        collision
    }

    /// The pixels, row by row.
    pub fn get_frame_buffer(&self) -> (pixels: &[u8])
        ensures
            pixels@ == self@,
            is_frame(pixels@),
    {
        proof {
            use_type_invariant(self);
        }
        &self.frame_buffer
    }
}

} // verus!
