//! The frame buffer's XOR draw and collision rule.
//!
//! A sprite is a run of bytes; each byte is one row of eight pixels, most
//! significant bit leftmost. Drawing XORs the sprite onto the 64x32 grid,
//! wrapping the target row modulo 32 and the target column modulo 64, and
//! reports a collision when some pixel is toggled from on to off.
//!
//! The result of a draw is stated pointwise: a pixel's new value is its old
//! value XORed with whether some set sprite bit targets it
//! ([`draw_covers`]), and the collision flag says whether some set sprite
//! bit targets a pixel that was already on ([`draw_collides`]). Because a
//! sprite has at most 15 rows and exactly 8 columns, no two sprite bits
//! target the same pixel, which makes this pointwise description exact.

use vstd::prelude::*;

verus! {

/// Bit `i` of a sprite byte, counting the most significant bit as 0: the
/// pixel drawn at column offset `i`.
pub open spec fn sprite_bit(b: u8, i: int) -> bool {
    (b >> ((7 - i) as u8)) & 1 == 1
}

/// Whether one of the first `k` bits of sprite byte `b`, drawn with start
/// column `vx`, is set and lands on column `c`.
pub open spec fn row_covers_upto(vx: u8, b: u8, c: int, k: int) -> bool
    decreases k,
{
    k > 0 && ((c == (vx + (k - 1)) % 64 && sprite_bit(b, k - 1)) || row_covers_upto(
        vx,
        b,
        c,
        k - 1,
    ))
}

/// Whether a set bit of sprite byte `b`, drawn with start column `vx`,
/// lands on column `c`.
pub open spec fn row_covers(vx: u8, b: u8, c: int) -> bool {
    row_covers_upto(vx, b, c, 8)
}

/// Whether one of the first `k` bits of byte `b`, drawn on row `tr` of
/// `disp`, is set and lands on a pixel that is already on.
pub open spec fn row_collides_upto(
    disp: Seq<bool>,
    vx: u8,
    b: u8,
    tr: int,
    k: int,
) -> bool
    decreases k,
{
    k > 0 && ((sprite_bit(b, k - 1) && disp[tr * 64 + (vx + (k - 1)) % 64])
        || row_collides_upto(disp, vx, b, tr, k - 1))
}

/// Whether drawing byte `b` on row `tr` of `disp` toggles some pixel that
/// is already on.
pub open spec fn row_collides(disp: Seq<bool>, vx: u8, b: u8, tr: int) -> bool {
    row_collides_upto(disp, vx, b, tr, 8)
}

/// Whether one of the first `k` sprite rows has a set bit landing on
/// `(row, col)`.
pub open spec fn draw_covers_upto(
    vx: u8,
    vy: u8,
    sprite: Seq<u8>,
    row: int,
    col: int,
    k: int,
) -> bool
    decreases k,
{
    k > 0 && ((row == (vy + (k - 1)) % 32 && row_covers(vx, sprite[k - 1], col))
        || draw_covers_upto(vx, vy, sprite, row, col, k - 1))
}

/// Whether some set bit of `sprite`, drawn at start position `(vx, vy)`,
/// lands on `(row, col)`.
pub open spec fn draw_covers(vx: u8, vy: u8, sprite: Seq<u8>, row: int, col: int) -> bool {
    draw_covers_upto(vx, vy, sprite, row, col, sprite.len() as int)
}

/// The frame buffer after drawing `sprite` at `(vx, vy)`: every covered
/// pixel is toggled, every other pixel keeps its value.
pub open spec fn draw_disp(disp: Seq<bool>, vx: u8, vy: u8, sprite: Seq<u8>) -> Seq<bool> {
    Seq::new(2048, |idx: int| disp[idx] != draw_covers(vx, vy, sprite, idx / 64, idx % 64))
}

/// Whether one of the first `k` sprite rows collides with a lit pixel.
pub open spec fn draw_collides_upto(
    disp: Seq<bool>,
    vx: u8,
    vy: u8,
    sprite: Seq<u8>,
    k: int,
) -> bool
    decreases k,
{
    k > 0 && (row_collides(disp, vx, sprite[k - 1], (vy + (k - 1)) % 32)
        || draw_collides_upto(disp, vx, vy, sprite, k - 1))
}

/// Whether drawing `sprite` at `(vx, vy)` toggles some pixel of `disp` that
/// is already on: the collision flag of the draw instruction.
pub open spec fn draw_collides(disp: Seq<bool>, vx: u8, vy: u8, sprite: Seq<u8>) -> bool {
    draw_collides_upto(disp, vx, vy, sprite, sprite.len() as int)
}

/// Two distinct offsets below 32 land on distinct rows after wrapping.
proof fn lemma_mod_distinct_32(base: int, r1: int, r2: int)
    requires
        base >= 0,
        0 <= r1 < 32,
        0 <= r2 < 32,
        r1 != r2,
    ensures
        (base + r1) % 32 != (base + r2) % 32,
{
    let a = base + r1;
    let b = base + r2;
    assert(a == 32 * (a / 32) + a % 32);
    assert(b == 32 * (b / 32) + b % 32);
}

/// Two distinct offsets below 64 land on distinct columns after wrapping.
proof fn lemma_mod_distinct_64(base: int, i1: int, i2: int)
    requires
        base >= 0,
        0 <= i1 < 64,
        0 <= i2 < 64,
        i1 != i2,
    ensures
        (base + i1) % 64 != (base + i2) % 64,
{
    let a = base + i1;
    let b = base + i2;
    assert(a == 64 * (a / 64) + a % 64);
    assert(b == 64 * (b / 64) + b % 64);
}

/// The first `k` bits of a byte never land on the column of bit `j` when
/// `k <= j`: each bit has its own column.
proof fn lemma_row_not_covered(vx: u8, b: u8, j: int, k: int)
    requires
        0 <= k <= j < 64,
    ensures
        !row_covers_upto(vx, b, (vx + j) % 64, k),
    decreases k,
{
    if k > 0 {
        lemma_mod_distinct_64(vx as int, k - 1, j);
        lemma_row_not_covered(vx, b, j, k - 1);
    }
}

/// A set bit `j` is reported by every prefix that contains it.
proof fn lemma_row_covered(vx: u8, b: u8, j: int, k: int)
    requires
        0 <= j < k <= 8,
        sprite_bit(b, j),
    ensures
        row_covers_upto(vx, b, (vx + j) % 64, k),
    decreases k,
{
    if j < k - 1 {
        lemma_row_covered(vx, b, j, k - 1);
    }
}

/// The column of bit `j` is covered exactly when bit `j` is set: no other
/// bit of the same byte lands there.
pub proof fn lemma_row_covers_iff(vx: u8, b: u8, j: int)
    requires
        0 <= j < 8,
    ensures
        row_covers(vx, b, (vx + j) % 64) == sprite_bit(b, j),
{
    if sprite_bit(b, j) {
        lemma_row_covered(vx, b, j, 8);
    } else {
        lemma_row_covers_iff_helper(vx, b, j, 8);
    }
}

/// Helper: if bit `j` is clear, no prefix reports its column.
proof fn lemma_row_covers_iff_helper(vx: u8, b: u8, j: int, k: int)
    requires
        0 <= j < 8,
        k <= 8,
        !sprite_bit(b, j),
    ensures
        !row_covers_upto(vx, b, (vx + j) % 64, k),
    decreases k,
{
    if k > 0 {
        if k - 1 != j {
            lemma_mod_distinct_64(vx as int, k - 1, j);
        }
        lemma_row_covers_iff_helper(vx, b, j, k - 1);
    }
}

/// Collision of one sprite byte depends only on the pixels of its row.
proof fn lemma_row_collides_same_row(
    d1: Seq<bool>,
    d2: Seq<bool>,
    vx: u8,
    b: u8,
    tr: int,
    k: int,
)
    requires
        0 <= tr,
        forall|idx: int| tr * 64 <= idx < tr * 64 + 64 ==> d1[idx] == d2[idx],
        0 <= k <= 8,
    ensures
        row_collides_upto(d1, vx, b, tr, k) == row_collides_upto(d2, vx, b, tr, k),
    decreases k,
{
    if k > 0 {
        assert(0 <= (vx + (k - 1)) % 64 < 64);
        lemma_row_collides_same_row(d1, d2, vx, b, tr, k - 1);
    }
}

/// The first `k` sprite rows never land on the target row of sprite row `j`
/// when `k <= j`: each sprite row has its own target row.
proof fn lemma_draw_not_covered(vx: u8, vy: u8, sprite: Seq<u8>, j: int, col: int, k: int)
    requires
        0 <= k <= j < 32,
    ensures
        !draw_covers_upto(vx, vy, sprite, (vy + j) % 32, col, k),
    decreases k,
{
    if k > 0 {
        lemma_mod_distinct_32(vy as int, k - 1, j);
        lemma_draw_not_covered(vx, vy, sprite, j, col, k - 1);
    }
}

/// Draw one sprite byte onto row `tr`, toggling the pixels under its set
/// bits, and report whether a lit pixel was toggled off.
fn draw_row(disp: &mut Vec<bool>, vx: u8, tr: usize, byte: u8) -> (hit: bool)
    requires
        old(disp)@.len() == 2048,
        tr < 32,
    ensures
        final(disp)@.len() == 2048,
        forall|c: int|
            0 <= c < 64 ==> final(disp)@[tr * 64 + c] == (old(disp)@[tr * 64 + c]
                != row_covers(vx, byte, c)),
        forall|idx: int|
            0 <= idx < 2048 && !(tr * 64 <= idx < tr * 64 + 64) ==> final(disp)@[idx]
                == old(disp)@[idx],
        hit == row_collides(old(disp)@, vx, byte, tr as int),
{
    let ghost disp0 = disp@;
    let mut hit = false;
    let mut i: usize = 0;
    while i < 8
        invariant
            disp@.len() == 2048,
            disp0.len() == 2048,
            tr < 32,
            i <= 8,
            forall|c: int|
                0 <= c < 64 ==> disp@[tr * 64 + c] == (disp0[tr * 64 + c]
                    != row_covers_upto(vx, byte, c, i as int)),
            forall|idx: int|
                0 <= idx < 2048 && !(tr * 64 <= idx < tr * 64 + 64) ==> disp@[idx]
                    == disp0[idx],
            hit == row_collides_upto(disp0, vx, byte, tr as int, i as int),
        decreases 8 - i,
    {
        let ghost prev = i as int;
        let ghost disp_entry = disp@;
        let sh: u8 = (7 - i) as u8;
        if (byte >> sh) & 1 == 1 {
            assert(sprite_bit(byte, prev));
            let col = (vx as usize + i) % 64;
            let idx = tr * 64 + col;
            proof {
                assert(col == (vx + prev) % 64);
                // no earlier bit of this byte landed on this column
                lemma_row_not_covered(vx, byte, prev, prev);
                assert(!row_covers_upto(vx, byte, col as int, prev));
                assert(disp@[idx as int] == disp0[idx as int]);
            }
            let cur = disp[idx];
            if cur {
                hit = true;
            }
            disp[idx] = !cur;
            proof {
                let k = prev + 1;
                assert(cur == disp0[idx as int]);
                assert forall|c: int| 0 <= c < 64 implies disp@[tr * 64 + c] == (
                disp0[tr * 64 + c] != #[trigger] row_covers_upto(vx, byte, c, k)) by {
                    if c == col as int {
                        assert(disp@[tr * 64 + c] == !cur);
                        assert(row_covers_upto(vx, byte, c, k));
                        assert(!row_covers_upto(vx, byte, c, prev));
                    } else {
                        assert(disp@[tr * 64 + c] == disp_entry[tr * 64 + c]);
                        assert(disp_entry[tr * 64 + c] == (disp0[tr * 64 + c]
                            != row_covers_upto(vx, byte, c, prev)));
                        assert(row_covers_upto(vx, byte, c, k) == row_covers_upto(
                            vx,
                            byte,
                            c,
                            prev,
                        ));
                    }
                }
                assert(hit == row_collides_upto(disp0, vx, byte, tr as int, k));
            }
        } else {
            proof {
                let k = prev + 1;
                assert(!sprite_bit(byte, prev));
                assert forall|c: int| 0 <= c < 64 implies disp@[tr * 64 + c] == (
                disp0[tr * 64 + c] != #[trigger] row_covers_upto(vx, byte, c, k)) by {
                    assert(disp@[tr * 64 + c] == (disp0[tr * 64 + c]
                        != row_covers_upto(vx, byte, c, prev)));
                }
                assert(hit == row_collides_upto(disp0, vx, byte, tr as int, k));
            }
        }
        i = i + 1;
    }
    hit
}

/// Draw the `n`-byte sprite at `mem[ireg..ireg + n]` with start position
/// `(vx, vy)`, and report whether any lit pixel was toggled off.
pub fn draw_sprite(
    disp: &mut Vec<bool>,
    mem: &Vec<u8>,
    ireg: usize,
    vx: u8,
    vy: u8,
    n: usize,
) -> (hit: bool)
    requires
        old(disp)@.len() == 2048,
        mem@.len() == 4096,
        n <= 15,
        ireg + n <= 4096,
    ensures
        final(disp)@.len() == 2048,
        final(disp)@ == draw_disp(
            old(disp)@,
            vx,
            vy,
            mem@.subrange(ireg as int, ireg + n),
        ),
        hit == draw_collides(old(disp)@, vx, vy, mem@.subrange(ireg as int, ireg + n)),
{
    let ghost disp0 = disp@;
    let ghost sprite = mem@.subrange(ireg as int, ireg + n);
    let mut hit = false;
    let mut r: usize = 0;
    while r < n
        invariant
            disp@.len() == 2048,
            disp0.len() == 2048,
            mem@.len() == 4096,
            n <= 15,
            ireg + n <= 4096,
            r <= n,
            sprite == mem@.subrange(ireg as int, ireg + n),
            forall|idx: int|
                0 <= idx < 2048 ==> disp@[idx] == (disp0[idx] != draw_covers_upto(
                    vx,
                    vy,
                    sprite,
                    idx / 64,
                    idx % 64,
                    r as int,
                )),
            hit == draw_collides_upto(disp0, vx, vy, sprite, r as int),
        decreases n - r,
    {
        let ghost prev = r as int;
        let tr = (vy as usize + r) % 32;
        let byte = mem[ireg + r];
        proof {
            assert(byte == sprite[prev]);
            assert(tr == (vy + prev) % 32);
            // no earlier sprite row landed on row tr, so it still holds
            // its pre-draw values
            assert forall|idx: int| tr * 64 <= idx < tr * 64 + 64 implies disp@[idx]
                == disp0[idx] by {
                let c = idx - tr * 64;
                assert(idx / 64 == tr as int && idx % 64 == c);
                lemma_draw_not_covered(vx, vy, sprite, prev, c, prev);
            }
        }
        let ghost disp_before = disp@;
        let row_hit = draw_row(disp, vx, tr, byte);
        if row_hit {
            hit = true;
        }
        proof {
            lemma_row_collides_same_row(disp_before, disp0, vx, byte, tr as int, 8);
            // the pointwise description after one more row
            assert forall|idx: int| 0 <= idx < 2048 implies disp@[idx] == (disp0[idx]
                != draw_covers_upto(vx, vy, sprite, idx / 64, idx % 64, prev + 1)) by {
                let row = idx / 64;
                let c = idx % 64;
                assert(0 <= c < 64);
                assert(idx == row * 64 + c);
                if row == tr as int {
                    assert(disp_before[idx] == disp0[idx]);
                    assert(disp@[idx] == (disp_before[idx] != row_covers(vx, byte, c)));
                    lemma_draw_not_covered(vx, vy, sprite, prev, c, prev);
                } else {
                    assert(!(tr * 64 <= idx < tr * 64 + 64));
                    assert(disp@[idx] == disp_before[idx]);
                }
            }
        }
        r = r + 1;
    }
    proof {
        assert(sprite.len() == n as int);
        assert(disp@ =~= draw_disp(disp0, vx, vy, sprite));
    }
    hit
}

} // verus!
