use vstd::prelude::*;
use vstd::arithmetic::div_mod::{
    lemma_add_mod_noop,
    lemma_mod_add_multiples_vanish,
    lemma_mod_bound,
    lemma_mod_equivalence,
    lemma_small_mod,
};

verus! {

/// Width of the pixel grid.
pub const SCREEN_WIDTH: usize = 64;

/// Height of the pixel grid.
pub const SCREEN_HEIGHT: usize = 32;

/// Number of pixels on the screen.
pub const SCREEN_SIZE: usize = 2048;

/// Tallest sprite a draw call accepts; sprites are 1-15 rows of 8
/// columns.
pub const MAX_SPRITE_ROWS: usize = 15;

/// Whether bit `j` of sprite row byte `b` is set, counting bit 0 as the
/// leftmost, most significant bit.
pub open spec fn sprite_bit(b: u8, j: int) -> bool
    recommends
        0 <= j < 8,
{
    (b >> ((7 - j) as u8)) & 1u8 == 1u8
}

/// Index into the row-major pixel sequence of the pixel that row `i`,
/// bit `j` of a sprite drawn at `(x, y)` lands on, after wraparound.
pub open spec fn target_index(x: int, y: int, i: int, j: int) -> int {
    ((y + i) % 32) * 64 + ((x + j) % 64)
}

/// Whether some set bit of `sprite`, drawn at `(x, y)`, lands on the
/// pixel at row `r`, column `c`.
pub open spec fn sprite_covers(x: int, y: int, sprite: Seq<u8>, r: int, c: int) -> bool {
    exists|i: int, j: int|
        0 <= i < sprite.len() && 0 <= j < 8 && sprite_bit(sprite[i], j) && r == (y + i) % 32 && c
            == (x + j) % 64
}

/// The screen contents after XOR-drawing `sprite` at `(x, y)` onto
/// screen `s`: every covered pixel is toggled, every other pixel keeps
/// its state.
pub open spec fn draw_result(s: Seq<bool>, x: int, y: int, sprite: Seq<u8>) -> Seq<bool> {
    Seq::new(
        2048,
        |p: int|
            if sprite_covers(x, y, sprite, p / 64, p % 64) {
                !s[p]
            } else {
                s[p]
            },
    )
}

/// Whether XOR-drawing `sprite` at `(x, y)` onto screen `s` toggles a
/// pixel that is already on.
pub open spec fn draw_collision(s: Seq<bool>, x: int, y: int, sprite: Seq<u8>) -> bool {
    exists|i: int, j: int|
        0 <= i < sprite.len() && 0 <= j < 8 && sprite_bit(sprite[i], j) && s[target_index(
            x,
            y,
            i,
            j,
        )]
}

/// Whether some set bit of `sprite` among the cells before row `i`,
/// bit `j` in drawing order lands on the pixel at row `r`, column `c`.
spec fn covers_upto(x: int, y: int, sprite: Seq<u8>, i: int, j: int, r: int, c: int) -> bool {
    exists|a: int, b: int|
        0 <= a < sprite.len() && 0 <= b < 8 && (a < i || (a == i && b < j)) && sprite_bit(
            sprite[a],
            b,
        ) && r == (y + a) % 32 && c == (x + b) % 64
}

/// Whether, among the cells before row `i`, bit `j` in drawing order,
/// some set bit of `sprite` lands on a pixel that is on in `s`.
spec fn collision_upto(s: Seq<bool>, x: int, y: int, sprite: Seq<u8>, i: int, j: int) -> bool {
    exists|a: int, b: int|
        0 <= a < sprite.len() && 0 <= b < 8 && (a < i || (a == i && b < j)) && sprite_bit(
            sprite[a],
            b,
        ) && s[target_index(x, y, a, b)]
}

/// Two cells whose offsets from a common base differ by less than the
/// modulus land on distinct residues.
proof fn lemma_shifted_mod_distinct(base: int, a: int, b: int, m: int)
    requires
        0 <= a < b,
        b - a < m,
        0 < m,
    ensures
        (base + a) % m != (base + b) % m,
{
    lemma_mod_equivalence(base + a, base + b, m);
    lemma_mod_add_multiples_vanish(a - b, m);
    lemma_small_mod((m - (b - a)) as nat, m as nat);
}

/// Monochrome 64x32 pixel grid with XOR sprite compositing.
pub struct Screen {
    pixels: Vec<bool>,
}

impl View for Screen {
    type V = Seq<bool>;

    /// The 2048 pixel states in row-major order: row 0 first, each row
    /// left to right.
    closed spec fn view(&self) -> Seq<bool> {
        self.pixels@
    }
}

impl Screen {
    /// The screen holds exactly 64 x 32 pixels.
    pub open spec fn wf(&self) -> bool {
        self@.len() == SCREEN_SIZE
    }

    /// A screen with every pixel off.
    pub fn new() -> (r: Screen)
        ensures
            r.wf(),
            r@ == Seq::new(2048, |p: int| false),
    {
        let pixels: Vec<bool> = vec![false; 2048];
        let r = Screen { pixels };
        proof {
            assert(r@ =~= Seq::new(2048, |p: int| false));
        }
        r
    }

    /// Turns every pixel off.
    pub fn clear(&mut self)
        requires
            old(self).wf(),
        ensures
            final(self).wf(),
            final(self)@ == Seq::new(2048, |p: int| false),
    {
        self.pixels = vec![false; 2048];
        proof {
            assert(self@ =~= Seq::new(2048, |p: int| false));
        }
    }

    /// XOR-draws `sprite` at `(x, y)`: each set sprite bit toggles the
    /// pixel it lands on, wrapping columns at 64 and rows at 32, and
    /// the result reports whether any toggled pixel was already on.
    pub fn draw(&mut self, x: usize, y: usize, sprite: &[u8]) -> (collision: bool)
        requires
            old(self).wf(),
            sprite@.len() <= MAX_SPRITE_ROWS,
        ensures
            final(self).wf(),
            final(self)@ == draw_result(old(self)@, x as int, y as int, sprite@),
            collision == draw_collision(old(self)@, x as int, y as int, sprite@),
    {
        let ghost s0 = self@;
        let ghost xi = x as int;
        let ghost yi = y as int;
        let ghost sp = sprite@;
        let xm = x % SCREEN_WIDTH;
        let ym = y % SCREEN_HEIGHT;
        let mut collision = false;
        let rows = sprite.len();
        let mut i: usize = 0;
        while i < rows
            invariant
                self.wf(),
                s0.len() == 2048,
                sp == sprite@,
                sp.len() <= 15,
                rows == sp.len(),
                xi == x as int,
                yi == y as int,
                xm == xi % 64,
                ym == yi % 32,
                xm < 64,
                ym < 32,
                i <= rows,
                forall|p: int|
                    0 <= p < 2048 ==> self@[p] == (if covers_upto(
                        xi,
                        yi,
                        sp,
                        i as int,
                        0,
                        p / 64,
                        p % 64,
                    ) {
                        !s0[p]
                    } else {
                        s0[p]
                    }),
                collision == collision_upto(s0, xi, yi, sp, i as int, 0),
            decreases rows - i,
        {
            let row = sprite[i];
            let mut j: usize = 0;
            proof {
                assert forall|r: int, c: int|
                    covers_upto(xi, yi, sp, i as int, 8, r, c) == covers_upto(
                        xi,
                        yi,
                        sp,
                        i as int + 1,
                        0,
                        r,
                        c,
                    ) by {
                    if covers_upto(xi, yi, sp, i as int, 8, r, c) {
                        let (a, b) = choose|a: int, b: int|
                            0 <= a < sp.len() && 0 <= b < 8 && (a < i as int || (a == i as int && b
                                < 8)) && sprite_bit(sp[a], b) && r == (yi + a) % 32 && c == (xi + b)
                                % 64;
                        assert(a < i as int + 1);
                        assert(covers_upto(xi, yi, sp, i as int + 1, 0, r, c));
                    }
                    if covers_upto(xi, yi, sp, i as int + 1, 0, r, c) {
                        let (a, b) = choose|a: int, b: int|
                            0 <= a < sp.len() && 0 <= b < 8 && (a < i as int + 1 || (a == i as int
                                + 1 && b < 0)) && sprite_bit(sp[a], b) && r == (yi + a) % 32 && c
                                == (xi + b) % 64;
                        assert(a < i as int || (a == i as int && b < 8));
                        assert(covers_upto(xi, yi, sp, i as int, 8, r, c));
                    }
                }
                assert(collision_upto(s0, xi, yi, sp, i as int, 8) == collision_upto(
                    s0,
                    xi,
                    yi,
                    sp,
                    i as int + 1,
                    0,
                )) by {
                    if collision_upto(s0, xi, yi, sp, i as int, 8) {
                        let (a, b) = choose|a: int, b: int|
                            0 <= a < sp.len() && 0 <= b < 8 && (a < i as int || (a == i as int && b
                                < 8)) && sprite_bit(sp[a], b) && s0[target_index(xi, yi, a, b)];
                        assert(a < i as int + 1);
                        assert(collision_upto(s0, xi, yi, sp, i as int + 1, 0));
                    }
                    if collision_upto(s0, xi, yi, sp, i as int + 1, 0) {
                        let (a, b) = choose|a: int, b: int|
                            0 <= a < sp.len() && 0 <= b < 8 && (a < i as int + 1 || (a == i as int
                                + 1 && b < 0)) && sprite_bit(sp[a], b) && s0[target_index(
                                xi,
                                yi,
                                a,
                                b,
                            )];
                        assert(a < i as int || (a == i as int && b < 8));
                        assert(collision_upto(s0, xi, yi, sp, i as int, 8));
                    }
                }
            }
            while j < 8
                invariant
                    self.wf(),
                    s0.len() == 2048,
                    sp == sprite@,
                    sp.len() <= 15,
                    rows == sp.len(),
                    xi == x as int,
                    yi == y as int,
                    xm == xi % 64,
                    ym == yi % 32,
                    xm < 64,
                    ym < 32,
                    i < rows,
                    j <= 8,
                    row == sp[i as int],
                    forall|p: int|
                        0 <= p < 2048 ==> self@[p] == (if covers_upto(
                            xi,
                            yi,
                            sp,
                            i as int,
                            j as int,
                            p / 64,
                            p % 64,
                        ) {
                            !s0[p]
                        } else {
                            s0[p]
                        }),
                    collision == collision_upto(s0, xi, yi, sp, i as int, j as int),
                decreases 8 - j,
            {
                let shift = (7 - j) as u32;
                let bit = (row >> shift) & 1u8;
                proof {
                    assert((bit == 1u8) == sprite_bit(sp[i as int], j as int)) by {
                        assert(row >> shift == row >> ((7 - j as int) as u8)) by (bit_vector)
                            requires
                                shift == (7 - j as int) as u32,
                                j < 8,
                        ;
                    }
                }
                if bit == 1 {
                    let tx = (xm + j) % SCREEN_WIDTH;
                    let ty = (ym + i) % SCREEN_HEIGHT;
                    let p = ty * SCREEN_WIDTH + tx;
                    proof {
                        lemma_small_mod(j as nat, 64nat);
                        lemma_add_mod_noop(xi, j as int, 64);
                        lemma_small_mod(i as nat, 32nat);
                        lemma_add_mod_noop(yi, i as int, 32);
                        assert(tx == (xi + j as int) % 64);
                        assert(ty == (yi + i as int) % 32);
                        assert(p < 2048);
                        assert(p as int / 64 == ty as int && p as int % 64 == tx as int)
                            by (nonlinear_arith)
                            requires
                                p == ty * 64 + tx,
                                0 <= tx < 64,
                                0 <= ty < 32,
                        ;
                        // No earlier cell lands on this pixel: rows of distinct
                        // cells differ modulo 32, bits within a row modulo 64.
                        assert(!covers_upto(xi, yi, sp, i as int, j as int, ty as int, tx as int))
                            by {
                            if covers_upto(xi, yi, sp, i as int, j as int, ty as int, tx as int) {
                                let (a, b) = choose|a: int, b: int|
                                    0 <= a < sp.len() && 0 <= b < 8 && (a < i as int || (a
                                        == i as int && b < j as int)) && sprite_bit(sp[a], b)
                                        && ty as int == (yi + a) % 32 && tx as int == (xi + b) % 64;
                                if a < i as int {
                                    lemma_shifted_mod_distinct(yi, a, i as int, 32);
                                } else {
                                    lemma_shifted_mod_distinct(xi, b, j as int, 64);
                                }
                            }
                        }
                    }
                    let was_on = self.pixels[p];
                    if was_on {
                        collision = true;
                    }
                    self.pixels[p] = !was_on;
                    proof {
                        assert(s0[p as int] == was_on);
                        assert forall|q: int| 0 <= q < 2048 implies self@[q] == (if covers_upto(
                            xi,
                            yi,
                            sp,
                            i as int,
                            j as int + 1,
                            q / 64,
                            q % 64,
                        ) {
                            !s0[q]
                        } else {
                            s0[q]
                        }) by {
                            lemma_mod_bound(q, 64);
                            vstd::arithmetic::div_mod::lemma_fundamental_div_mod(q, 64);
                            if covers_upto(xi, yi, sp, i as int, j as int + 1, q / 64, q % 64) {
                                let (a, b) = choose|a: int, b: int|
                                    0 <= a < sp.len() && 0 <= b < 8 && (a < i as int || (a
                                        == i as int && b < j as int + 1)) && sprite_bit(sp[a], b)
                                        && q / 64 == (yi + a) % 32 && q % 64 == (xi + b) % 64;
                                if a == i as int && b == j as int {
                                    assert(q == p);
                                } else {
                                    assert(covers_upto(
                                        xi,
                                        yi,
                                        sp,
                                        i as int,
                                        j as int,
                                        q / 64,
                                        q % 64,
                                    ));
                                }
                            } else {
                                assert(!covers_upto(xi, yi, sp, i as int, j as int, q / 64, q % 64));
                                assert(q != p);
                            }
                        }
                        assert(collision == collision_upto(s0, xi, yi, sp, i as int, j as int + 1))
                            by {
                            if collision {
                                if collision_upto(s0, xi, yi, sp, i as int, j as int) {
                                    let (a, b) = choose|a: int, b: int|
                                        0 <= a < sp.len() && 0 <= b < 8 && (a < i as int || (a
                                            == i as int && b < j as int)) && sprite_bit(sp[a], b)
                                            && s0[target_index(xi, yi, a, b)];
                                    assert(collision_upto(s0, xi, yi, sp, i as int, j as int + 1));
                                } else {
                                    assert(s0[target_index(xi, yi, i as int, j as int)]);
                                    assert(collision_upto(s0, xi, yi, sp, i as int, j as int + 1));
                                }
                            } else {
                                if collision_upto(s0, xi, yi, sp, i as int, j as int + 1) {
                                    let (a, b) = choose|a: int, b: int|
                                        0 <= a < sp.len() && 0 <= b < 8 && (a < i as int || (a
                                            == i as int && b < j as int + 1)) && sprite_bit(
                                            sp[a],
                                            b,
                                        ) && s0[target_index(xi, yi, a, b)];
                                    if a == i as int && b == j as int {
                                        assert(s0[p as int]);
                                    } else {
                                        assert(collision_upto(s0, xi, yi, sp, i as int, j as int));
                                    }
                                }
                            }
                        }
                    }
                } else {
                    proof {
                        assert forall|r: int, c: int|
                            covers_upto(xi, yi, sp, i as int, j as int + 1, r, c) == covers_upto(
                                xi,
                                yi,
                                sp,
                                i as int,
                                j as int,
                                r,
                                c,
                            ) by {
                            if covers_upto(xi, yi, sp, i as int, j as int + 1, r, c) {
                                let (a, b) = choose|a: int, b: int|
                                    0 <= a < sp.len() && 0 <= b < 8 && (a < i as int || (a
                                        == i as int && b < j as int + 1)) && sprite_bit(sp[a], b)
                                        && r == (yi + a) % 32 && c == (xi + b) % 64;
                                assert(!(a == i as int && b == j as int));
                                assert(covers_upto(xi, yi, sp, i as int, j as int, r, c));
                            }
                        }
                        assert(collision_upto(s0, xi, yi, sp, i as int, j as int + 1)
                            == collision_upto(s0, xi, yi, sp, i as int, j as int)) by {
                            if collision_upto(s0, xi, yi, sp, i as int, j as int + 1) {
                                let (a, b) = choose|a: int, b: int|
                                    0 <= a < sp.len() && 0 <= b < 8 && (a < i as int || (a
                                        == i as int && b < j as int + 1)) && sprite_bit(sp[a], b)
                                        && s0[target_index(xi, yi, a, b)];
                                assert(!(a == i as int && b == j as int));
                                assert(collision_upto(s0, xi, yi, sp, i as int, j as int));
                            }
                        }
                    }
                }
                j = j + 1;
            }
            i = i + 1;
        }
        proof {
            assert forall|r: int, c: int|
                covers_upto(xi, yi, sp, sp.len() as int, 0, r, c) == sprite_covers(
                    xi,
                    yi,
                    sp,
                    r,
                    c,
                ) by {
                if covers_upto(xi, yi, sp, sp.len() as int, 0, r, c) {
                    let (a, b) = choose|a: int, b: int|
                        0 <= a < sp.len() && 0 <= b < 8 && (a < sp.len() || (a == sp.len() && b < 0))
                            && sprite_bit(sp[a], b) && r == (yi + a) % 32 && c == (xi + b) % 64;
                    assert(sprite_covers(xi, yi, sp, r, c));
                }
                if sprite_covers(xi, yi, sp, r, c) {
                    let (a, b) = choose|a: int, b: int|
                        0 <= a < sp.len() && 0 <= b < 8 && sprite_bit(sp[a], b) && r == (yi + a)
                            % 32 && c == (xi + b) % 64;
                    assert(covers_upto(xi, yi, sp, sp.len() as int, 0, r, c));
                }
            }
            assert(collision == draw_collision(s0, xi, yi, sp)) by {
                if collision_upto(s0, xi, yi, sp, sp.len() as int, 0) {
                    let (a, b) = choose|a: int, b: int|
                        0 <= a < sp.len() && 0 <= b < 8 && (a < sp.len() || (a == sp.len() && b < 0))
                            && sprite_bit(sp[a], b) && s0[target_index(xi, yi, a, b)];
                    assert(draw_collision(s0, xi, yi, sp));
                }
                if draw_collision(s0, xi, yi, sp) {
                    let (a, b) = choose|a: int, b: int|
                        0 <= a < sp.len() && 0 <= b < 8 && sprite_bit(sp[a], b) && s0[target_index(
                            xi,
                            yi,
                            a,
                            b,
                        )];
                    assert(collision_upto(s0, xi, yi, sp, sp.len() as int, 0));
                }
            }
            assert(self@ =~= draw_result(s0, xi, yi, sp));
        }
        collision
    }

    /// The 2048 pixel states in row-major order, an on pixel as 0xFF
    /// and an off pixel as 0x00, for external rendering.
    pub fn get_pixels(&self) -> (r: Vec<u8>)
        requires
            self.wf(),
        ensures
            r@.len() == 2048,
            forall|p: int|
                0 <= p < 2048 ==> r@[p] == (if self@[p] {
                    0xFFu8
                } else {
                    0x00u8
                }),
    {
        let mut pixels: Vec<u8> = Vec::new();
        let mut p: usize = 0;
        while p < SCREEN_SIZE
            invariant
                self.wf(),
                p <= 2048,
                pixels@.len() == p,
                forall|q: int|
                    0 <= q < p ==> pixels@[q] == (if self@[q] {
                        0xFFu8
                    } else {
                        0x00u8
                    }),
            decreases 2048 - p,
        {
            if self.pixels[p] {
                pixels.push(0xFF);
            } else {
                pixels.push(0x00);
            }
            p = p + 1;
        }
        pixels
    }
}

/// Drawing the same sprite at the same position twice in succession
/// restores the screen to its state before the first draw.
pub proof fn lemma_draw_twice_restores(s: Seq<bool>, x: int, y: int, sprite: Seq<u8>)
    requires
        s.len() == 2048,
    ensures
        draw_result(draw_result(s, x, y, sprite), x, y, sprite) == s,
{
    assert(draw_result(draw_result(s, x, y, sprite), x, y, sprite) =~= s);
}

/// The second of two identical draws reports a collision exactly when
/// some set sprite bit landed on a pixel that was off before the first
/// draw: the first draw turned exactly those pixels on.
pub proof fn lemma_second_draw_collision(s: Seq<bool>, x: int, y: int, sprite: Seq<u8>)
    requires
        s.len() == 2048,
    ensures
        draw_collision(draw_result(s, x, y, sprite), x, y, sprite) == (exists|i: int, j: int|
            0 <= i < sprite.len() && 0 <= j < 8 && sprite_bit(sprite[i], j) && !s[target_index(
                x,
                y,
                i,
                j,
            )]),
{
    let s1 = draw_result(s, x, y, sprite);
    assert forall|i: int, j: int|
        0 <= i < sprite.len() && 0 <= j < 8 && sprite_bit(sprite[i], j) implies s1[target_index(
        x,
        y,
        i,
        j,
    )] == !s[target_index(x, y, i, j)] by {
        let p = target_index(x, y, i, j);
        lemma_mod_bound(y + i, 32);
        lemma_mod_bound(x + j, 64);
        assert(p / 64 == (y + i) % 32 && p % 64 == (x + j) % 64) by (nonlinear_arith)
            requires
                p == ((y + i) % 32) * 64 + ((x + j) % 64),
                0 <= (x + j) % 64 < 64,
                0 <= (y + i) % 32 < 32,
        ;
        assert(sprite_covers(x, y, sprite, p / 64, p % 64));
        assert(0 <= p < 2048);
    }
    if draw_collision(s1, x, y, sprite) {
        let (i, j) = choose|i: int, j: int|
            0 <= i < sprite.len() && 0 <= j < 8 && sprite_bit(sprite[i], j) && s1[target_index(
                x,
                y,
                i,
                j,
            )];
        assert(!s[target_index(x, y, i, j)]);
    }
    if exists|i: int, j: int|
        0 <= i < sprite.len() && 0 <= j < 8 && sprite_bit(sprite[i], j) && !s[target_index(
            x,
            y,
            i,
            j,
        )] {
        let (i, j) = choose|i: int, j: int|
            0 <= i < sprite.len() && 0 <= j < 8 && sprite_bit(sprite[i], j) && !s[target_index(
                x,
                y,
                i,
                j,
            )];
        assert(s1[target_index(x, y, i, j)]);
        assert(draw_collision(s1, x, y, sprite));
    }
}

} // verus!
