//! The monochrome framebuffer: 32 rows of 64 pixels, one `u64` per row.
//!
//! Column 0 is the most significant bit of a row, column 63 the least.

use vstd::prelude::*;

verus! {

/// Number of rows of the display.
pub const ROWS: usize = 32;

/// Number of columns of the display.
pub const COLUMNS: usize = 64;

/// A display with every pixel off.
pub open spec fn blank() -> Seq<u64> {
    Seq::new(ROWS as nat, |r: int| 0u64)
}

/// The row mask that one sprite byte covers when its leftmost pixel stands in
/// column `x`: the byte at the left end of the row, moved right by `x`
/// columns. Pixels that would fall right of column 63 are dropped.
pub open spec fn sprite_mask(byte: u8, x: u8) -> u64 {
    if x < COLUMNS {
        ((byte as u64) << 56) >> (x as u64)
    } else {
        0
    }
}

/// Whether a sprite placed at row `y` has a row that lands on display row
/// `r`.
pub open spec fn covers(sprite: Seq<u8>, y: u8, r: int) -> bool {
    y <= r < y + sprite.len() && r < ROWS
}

/// The rows after the sprite has been XOR-ed onto `rows` at column `x`,
/// row `y`. Sprite rows below row 31 are clipped.
pub open spec fn blit(rows: Seq<u64>, sprite: Seq<u8>, x: u8, y: u8) -> Seq<u64> {
    Seq::new(
        ROWS as nat,
        |r: int|
            if covers(sprite, y, r) {
                rows[r] ^ sprite_mask(sprite[r - y], x)
            } else {
                rows[r]
            },
    )
}

/// Whether sprite row `k`, counted from the top of the sprite, has a pixel
/// in common with the display row it lands on.
pub open spec fn hits(rows: Seq<u64>, sprite: Seq<u8>, x: u8, y: u8, k: int) -> bool {
    rows[y + k] & sprite_mask(sprite[k], x) != 0
}

/// Whether one of the first `count` sprite rows lands on the display and
/// meets a lit pixel there.
pub open spec fn collides_within(rows: Seq<u64>, sprite: Seq<u8>, x: u8, y: u8, count: int) -> bool {
    exists|k: int| 0 <= k < count && y + k < ROWS && #[trigger] hits(rows, sprite, x, y, k)
}

/// Whether drawing the sprite turns off at least one pixel that was on.
pub open spec fn collides(rows: Seq<u64>, sprite: Seq<u8>, x: u8, y: u8) -> bool {
    collides_within(rows, sprite, x, y, sprite.len() as int)
}

/// Whether the pixel in column `c` of a row is on.
pub open spec fn lit(row: u64, c: int) -> bool {
    0 <= c < COLUMNS && (row >> ((63 - c) as u64)) & 1 == 1
}

/// Whether pixel `k` of a sprite row is on, pixel 0 being the leftmost.
pub open spec fn sprite_bit(byte: u8, k: int) -> bool {
    0 <= k < 8 && ((byte as u64) >> ((7 - k) as u64)) & 1 == 1
}

/// A sprite row placed at column `x` lights exactly the columns `x` to
/// `x + 7` that exist, each with the sprite's pixel for it.
pub proof fn lemma_mask_pixels(byte: u8, x: u8, c: int)
    requires
        0 <= c < COLUMNS,
    ensures
        lit(sprite_mask(byte, x), c) == sprite_bit(byte, c - x),
{
    let b = byte as u64;
    let p = x as u64;
    let q = c as u64;
    if x < 64 {
        assert((((b << 56) >> p) >> ((63 - q) as u64)) & 1 == if p <= q && q < p + 8 {
            (b >> ((7 - (q - p)) as u64)) & 1
        } else {
            0
        }) by (bit_vector)
            requires
                b < 256,
                p < 64,
                q < 64,
        ;
    } else {
        assert((0u64 >> ((63 - q) as u64)) & 1 == 0) by (bit_vector);
    }
}

/// Drawing flips exactly the pixels that the sprite has on, where it lands
/// on the display.
pub proof fn lemma_blit_pixel(rows: Seq<u64>, sprite: Seq<u8>, x: u8, y: u8, r: int, c: int)
    requires
        rows.len() == ROWS,
        0 <= r < ROWS,
        0 <= c < COLUMNS,
    ensures
        lit(blit(rows, sprite, x, y)[r], c) == (lit(rows[r], c) != (covers(sprite, y, r)
            && sprite_bit(sprite[r - y], c - x))),
{
    if covers(sprite, y, r) {
        let mask = sprite_mask(sprite[r - y], x);
        let row = rows[r];
        let q = (63 - c) as u64;
        lemma_mask_pixels(sprite[r - y], x, c);
        assert(((row ^ mask) >> q) & 1 == ((row >> q) & 1) ^ ((mask >> q) & 1)) by (bit_vector);
        assert(((row >> q) & 1) == 0 || ((row >> q) & 1) == 1) by (bit_vector);
        assert(((mask >> q) & 1) == 0 || ((mask >> q) & 1) == 1) by (bit_vector);
        assert(0u64 ^ 0u64 == 0 && 0u64 ^ 1u64 == 1 && 1u64 ^ 0u64 == 1 && 1u64 ^ 1u64 == 0)
            by (bit_vector);
    }
}

/// Drawing the same sprite twice at the same place restores the display.
pub proof fn lemma_blit_twice(rows: Seq<u64>, sprite: Seq<u8>, x: u8, y: u8)
    requires
        rows.len() == ROWS,
    ensures
        blit(blit(rows, sprite, x, y), sprite, x, y) == rows,
{
    let once = blit(rows, sprite, x, y);
    let twice = blit(once, sprite, x, y);
    assert forall|r: int| 0 <= r < 32 implies twice[r] == rows[r] by {
        if covers(sprite, y, r) {
            let mask = sprite_mask(sprite[r - y], x);
            let row = rows[r];
            assert((row ^ mask) ^ mask == row) by (bit_vector);
        }
    }
    assert(twice =~= rows);
}

/// Drawing leaves every row alone that lies above the sprite or below its
/// last row.
pub proof fn lemma_blit_outside(rows: Seq<u64>, sprite: Seq<u8>, x: u8, y: u8, r: int)
    requires
        rows.len() == ROWS,
        0 <= r < ROWS,
        r < y || r >= y + sprite.len(),
    ensures
        blit(rows, sprite, x, y).len() == ROWS,
        blit(rows, sprite, x, y)[r] == rows[r],
{
}

/// Drawing on a blank display never collides.
pub proof fn lemma_blank_no_collision(sprite: Seq<u8>, x: u8, y: u8)
    ensures
        !collides(blank(), sprite, x, y),
{
    assert forall|k: int| 0 <= k < sprite.len() && y + k < 32 implies !hits(
        blank(),
        sprite,
        x,
        y,
        k,
    ) by {
        let mask = sprite_mask(sprite[k], x);
        assert(0u64 & mask == 0) by (bit_vector);
    }
}

/// Drawing a sprite on a blank display and then once more collides exactly
/// if the sprite has a pixel that lands on the display.
pub proof fn lemma_redraw_on_blank(sprite: Seq<u8>, x: u8, y: u8)
    ensures
        collides(blit(blank(), sprite, x, y), sprite, x, y) == exists|k: int|
            0 <= k < sprite.len() && y + k < ROWS && #[trigger] sprite_mask(sprite[k], x) != 0,
{
    let drawn = blit(blank(), sprite, x, y);
    assert forall|k: int| 0 <= k < sprite.len() && y + k < ROWS implies hits(
        drawn,
        sprite,
        x,
        y,
        k,
    ) == (sprite_mask(sprite[k], x) != 0) by {
        let mask = sprite_mask(sprite[k], x);
        assert(covers(sprite, y, y + k));
        assert(drawn[y + k] == 0u64 ^ mask);
        assert(((0u64 ^ mask) & mask != 0) == (mask != 0)) by (bit_vector);
    }
    if collides(drawn, sprite, x, y) {
        let k = choose|k: int|
            0 <= k < sprite.len() && y + k < ROWS && #[trigger] hits(drawn, sprite, x, y, k);
        assert(sprite_mask(sprite[k], x) != 0);
    }
    if exists|k: int|
        0 <= k < sprite.len() && y + k < ROWS && #[trigger] sprite_mask(sprite[k], x) != 0 {
        let k = choose|k: int|
            0 <= k < sprite.len() && y + k < ROWS && #[trigger] sprite_mask(sprite[k], x) != 0;
        assert(hits(drawn, sprite, x, y, k));
    }
}

/// The framebuffer.
#[derive(Debug)]
pub struct Screen {
    content: [u64; 32],
}

impl View for Screen {
    type V = Seq<u64>;

    closed spec fn view(&self) -> Seq<u64> {
        self.content@
    }
}

impl Clone for Screen {
    /// A copy with the same pixels.
    fn clone(&self) -> (copy: Screen)
        ensures
            copy@ == self@,
    {
        Screen { content: self.content }
    }
}

impl Default for Screen {
    /// A blank display.
    fn default() -> (screen: Screen)
        ensures
            screen@ == blank(),
    {
        Screen::new()
    }
}

/// Computes the row mask of one sprite byte: moved left from the right end
/// of the row where it fits whole, cut off at the right where it does not.
fn row_mask(byte: u8, x: u8) -> (mask: u64)
    ensures
        mask == sprite_mask(byte, x),
{
    let wide = byte as u64;
    let column = x as u64;
    if x <= 56 {
        assert(wide << ((56 - column) as u64) == (wide << 56) >> column) by (bit_vector)
            requires
                wide < 256,
                column <= 56,
        ;
        wide << (56 - column)
    } else if x < 64 {
        assert(wide >> ((column - 56) as u64) == (wide << 56) >> column) by (bit_vector)
            requires
                wide < 256,
                56 < column < 64,
        ;
        wide >> (column - 56)
    } else {
        0
    }
}

impl Screen {
    /// A display has 32 rows.
    pub proof fn lemma_rows(&self)
        ensures
            self@.len() == ROWS,
    {
    }

    /// A blank display.
    pub fn new() -> (screen: Screen)
        ensures
            screen@ == blank(),
    {
        let screen = Screen { content: [0u64; 32] };
        assert(screen@ =~= blank());
        screen
    }

    /// The rows of the display, row 0 first.
    pub fn rows(&self) -> (rows: &[u64; 32])
        ensures
            rows@ == self@,
    {
        &self.content
    }

    /// Whether the pixel at `row`, `column` is on. There is no pixel, and so
    /// none that is on, outside the 32 rows and 64 columns.
    pub fn pixel(&self, row: usize, column: usize) -> (on: bool)
        ensures
            on == (row < ROWS && lit(self@[row as int], column as int)),
    {
        if row < ROWS && column < COLUMNS {
            (self.content[row] >> ((63 - column) as u64)) & 1 == 1
        } else {
            false
        }
    }

    /// Turns every pixel off.
    pub fn clear(&mut self)
        ensures
            final(self)@ == blank(),
    {
        self.content = [0u64; 32];
        assert(self@ =~= blank());
    }

    /// XORs a sprite onto the display with its top-left corner at column `x`,
    /// row `y`, and reports whether any lit pixel was turned off.
    ///
    /// Each sprite byte is one row of eight pixels. Nothing wraps: pixels right
    /// of column 63 and rows below row 31 are dropped.
    pub fn draw_sprite(&mut self, sprite: &[u8], x: u8, y: u8) -> (collision: bool)
        ensures
            final(self)@ == blit(old(self)@, sprite@, x, y),
            collision == collides(old(self)@, sprite@, x, y),
    {
        let mut collision = false;
        let mut k: usize = 0;
        while k < sprite.len() && y as usize + k < ROWS
            invariant
                k <= sprite.len(),
                y + k <= ROWS || k == 0,
                self@.len() == ROWS,
                forall|r: int|
                    0 <= r < ROWS ==> self@[r] == if y <= r < y + k {
                        old(self)@[r] ^ sprite_mask(sprite@[r - y], x)
                    } else {
                        old(self)@[r]
                    },
                collision == collides_within(old(self)@, sprite@, x, y, k as int),
            decreases sprite.len() - k,
        {
            let mask = row_mask(sprite[k], x);
            let target = self.content[y as usize + k];
            assert(target == old(self)@[y + k]);
            if target & mask != 0 {
                collision = true;
                assert(hits(old(self)@, sprite@, x, y, k as int));
            }
            self.content[y as usize + k] = target ^ mask;
            k += 1;
        }
        assert(self@ =~= blit(old(self)@, sprite@, x, y));
        collision
    }
}

} // verus!
