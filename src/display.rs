use vstd::prelude::*;

verus! {

/// Width of the screen in pixels.
pub const WIDTH: usize = 64;

/// Height of the screen in pixels.
pub const HEIGHT: usize = 32;

/// Number of pixels on the screen.
pub const PIXELS: usize = 2048;

/// Tallest sprite, in rows.
pub const MAX_SPRITE_ROWS: usize = 15;

/// Bit `c` of a sprite row, counted from the most significant (leftmost) bit.
pub open spec fn row_bit(row: u8, c: u8) -> bool {
    (row >> (7 - c) as u8) & 1 == 1
}

/// Whether the sprite drawn at `(x, y)` sets the pixel with index `idx`
/// (`row * WIDTH + column`), wrapping at the screen edges.
pub open spec fn covers(sprite: Seq<u8>, x: u8, y: u8, idx: int) -> bool {
    let row = idx / WIDTH as int;
    let col = idx % WIDTH as int;
    let r = (row + HEIGHT - y as int % HEIGHT as int) % HEIGHT as int;
    let c = (col + WIDTH - x as int % WIDTH as int) % WIDTH as int;
    r < sprite.len() && c < 8 && row_bit(sprite[r], c as u8)
}

/// The screen after XOR-ing the sprite in at `(x, y)`.
pub open spec fn drawn(pixels: Seq<bool>, sprite: Seq<u8>, x: u8, y: u8) -> Seq<bool> {
    Seq::new(pixels.len(), |i: int| pixels[i] != covers(sprite, x, y, i))
}

/// Whether drawing the sprite at `(x, y)` erases a pixel that was set.
pub open spec fn collides(pixels: Seq<bool>, sprite: Seq<u8>, x: u8, y: u8) -> bool {
    exists|i: int| 0 <= i < pixels.len() && #[trigger] covers(sprite, x, y, i) && pixels[i]
}

/// Drawing the same sprite twice at the same place gives back the screen as it
/// was. If the first drawing erased nothing, the second erases a pixel exactly
/// when the sprite lights at least one pixel (the ones the first drawing lit).
pub proof fn lemma_draw_twice_restores(pixels: Seq<bool>, sprite: Seq<u8>, x: u8, y: u8)
    ensures
        drawn(drawn(pixels, sprite, x, y), sprite, x, y) == pixels,
        !collides(pixels, sprite, x, y) ==> (collides(drawn(pixels, sprite, x, y), sprite, x, y)
            <==> exists|i: int| 0 <= i < pixels.len() && #[trigger] covers(sprite, x, y, i)),
{
    let once = drawn(pixels, sprite, x, y);
    assert(drawn(once, sprite, x, y) =~= pixels);
    if !collides(pixels, sprite, x, y) {
        if exists|i: int| 0 <= i < pixels.len() && #[trigger] covers(sprite, x, y, i) {
            let i = choose|i: int| 0 <= i < pixels.len() && #[trigger] covers(sprite, x, y, i);
            assert(!pixels[i]);
            assert(once[i]);
        }
    }
}

/// A monochrome screen of `WIDTH` by `HEIGHT` pixels, `true` meaning lit.
pub struct Framebuffer {
    pixels: Vec<bool>,
}

impl View for Framebuffer {
    type V = Seq<bool>;

    closed spec fn view(&self) -> Seq<bool> {
        self.pixels@
    }
}

impl Framebuffer {
    /// Holds exactly one entry per pixel.
    pub open spec fn wf(&self) -> bool {
        self@.len() == PIXELS
    }

    /// A blank screen.
    pub fn new() -> (r: Framebuffer)
        ensures
            r.wf(),
            r@ == Seq::new(PIXELS as nat, |i: int| false),
    {
        let mut pixels: Vec<bool> = Vec::new();
        let mut k: usize = 0;
        while k < PIXELS
            invariant
                k <= PIXELS,
                pixels@ == Seq::new(k as nat, |i: int| false),
            decreases PIXELS - k,
        {
            pixels.push(false);
            k = k + 1;
        }
        Framebuffer { pixels }
    }

    /// Turns every pixel off.
    pub fn clear(&mut self)
        requires
            old(self).wf(),
        ensures
            final(self).wf(),
            final(self)@ == Seq::new(PIXELS as nat, |i: int| false),
    {
        let mut k: usize = 0;
        while k < PIXELS
            invariant
                k <= PIXELS,
                self@.len() == PIXELS,
                forall|i: int| 0 <= i < k ==> !self@[i],
            decreases PIXELS - k,
        {
            self.pixels.set(k, false);
            k = k + 1;
        }
        assert(self@ =~= Seq::new(PIXELS as nat, |i: int| false));
    }

    /// Whether the pixel at column `x`, row `y` is lit.
    pub fn pixel(&self, x: usize, y: usize) -> (r: bool)
        requires
            self.wf(),
            x < WIDTH,
            y < HEIGHT,
        ensures
            r == self@[y * WIDTH + x],
    {
        self.pixels[y * WIDTH + x]
    }

    /// XORs an 8-pixel-wide sprite, one byte per row, into the screen with its
    /// top-left corner at `(x, y)`, wrapping at the edges. Returns whether a lit
    /// pixel was turned off.
    pub fn draw_sprite(&mut self, x: u8, y: u8, sprite: &[u8]) -> (collision: bool)
        requires
            old(self).wf(),
            sprite@.len() <= MAX_SPRITE_ROWS,
        ensures
            final(self).wf(),
            final(self)@ == drawn(old(self)@, sprite@, x, y),
            collision == collides(old(self)@, sprite@, x, y),
    {
        let ghost before = self@;
        let mut collision = false;
        let xs: usize = (x as usize) % WIDTH;
        let ys: usize = (y as usize) % HEIGHT;
        let mut k: usize = 0;
        while k < PIXELS
            invariant
                k <= PIXELS,
                xs == x as int % WIDTH as int,
                ys == y as int % HEIGHT as int,
                sprite@.len() <= MAX_SPRITE_ROWS,
                before.len() == PIXELS,
                self@.len() == PIXELS,
                forall|i: int| 0 <= i < k ==> self@[i] == (before[i] != covers(sprite@, x, y, i)),
                forall|i: int| k <= i < PIXELS ==> self@[i] == before[i],
                collision == exists|i: int|
                    0 <= i < k && #[trigger] covers(sprite@, x, y, i) && before[i],
            decreases PIXELS - k,
        {
            let r: usize = (k / WIDTH + HEIGHT - ys) % HEIGHT;
            let c: usize = (k % WIDTH + WIDTH - xs) % WIDTH;
            let lit = r < sprite.len() && c < 8 && (sprite[r] >> (7 - c as u8)) & 1 == 1;
            assert(lit == covers(sprite@, x, y, k as int));
            if lit {
                let old_pixel = self.pixels[k];
                if old_pixel {
                    collision = true;
                }
                self.pixels.set(k, !old_pixel);
            }
            k = k + 1;
        }
        assert(self@ =~= drawn(before, sprite@, x, y));
        collision
    }
}

} // verus!
