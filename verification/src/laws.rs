//! Laws of the instruction semantics, proved once and for all states.
//!
//! Each proof function here states a property of the transition functions
//! in [`crate::semantics`] (and of the draw rule in [`crate::display`])
//! that holds for every well-formed machine state, not just for chosen
//! inputs.

use vstd::prelude::*;

use crate::decode::Instruction;
use crate::display::{draw_covers_upto, draw_disp, lemma_row_covers_iff, row_covers, sprite_bit};
use crate::semantics::{instr_step, sat_dec, timer_step};
use crate::state::VmView;

verus! {

/// Register addition: for all operand values a and b, add Vx,Vy sets
/// VF to 1 exactly when a + b > 255, and stores (a + b) mod 256 in V[x]
/// (stated for x != 15, where the result does not overwrite the flag).
pub proof fn lemma_add_carry(pre: VmView, x: u8, y: u8)
    requires
        pre.wf(),
        x < 16,
        y < 16,
        x != 15,
    ensures
        instr_step(pre, (Instruction::AddReg { x, y }), None, 0) matches Ok(post) && {
            let a = pre.v[x as int];
            let b = pre.v[y as int];
            &&& (post.v[15] == 1 <==> a + b > 255)
            &&& (post.v[15] == 0 <==> a + b <= 255)
            &&& post.v[x as int] == (a + b) % 256
            &&& post.pc == pre.pc + 2
        },
{
}

/// Register subtraction: sub Vx,Vy sets VF to 1 exactly when a >= b (the
/// no-borrow flag), and stores (a - b) mod 256 in V[x] regardless
/// (stated for x != 15).
pub proof fn lemma_sub_no_borrow(pre: VmView, x: u8, y: u8)
    requires
        pre.wf(),
        x < 16,
        y < 16,
        x != 15,
    ensures
        instr_step(pre, (Instruction::SubReg { x, y }), None, 0) matches Ok(post) && {
            let a = pre.v[x as int];
            let b = pre.v[y as int];
            &&& (post.v[15] == 1 <==> a >= b)
            &&& (post.v[15] == 0 <==> a < b)
            &&& post.v[x as int] == (a - b) % 256
        },
{
}

/// Right shift: shr Vx on value v sets VF to the bit shifted out (v & 1)
/// and stores v >> 1 (stated for x != 15).
pub proof fn lemma_shift_right(pre: VmView, x: u8)
    requires
        pre.wf(),
        x < 16,
        x != 15,
    ensures
        instr_step(pre, (Instruction::ShiftRight { x }), None, 0) matches Ok(post)
            && {
            let v = pre.v[x as int];
            &&& post.v[15] == v & 1
            &&& post.v[x as int] == v >> 1u8
        },
{
}

/// Left shift: shl Vx on value v sets VF to the bit shifted out
/// ((v >> 7) & 1) and stores (v * 2) mod 256 (stated for x != 15).
pub proof fn lemma_shift_left(pre: VmView, x: u8)
    requires
        pre.wf(),
        x < 16,
        x != 15,
    ensures
        instr_step(pre, (Instruction::ShiftLeft { x }), None, 0) matches Ok(post) && {
            let v = pre.v[x as int];
            &&& post.v[15] == (v >> 7u8) & 1
            &&& post.v[x as int] == (v * 2) % 256
        },
{
}

/// Round trip: call nnn followed immediately by return leaves PC at the
/// address just after the call instruction, and leaves SP as it was
/// before the call.
pub proof fn lemma_call_return_round_trip(pre: VmView, nnn: u16)
    requires
        pre.wf(),
        nnn < 4096,
        pre.sp < 15,
    ensures
        instr_step(pre, (Instruction::Call { nnn }), None, 0) matches Ok(mid)
            && instr_step(mid, Instruction::Return, None, 0) matches Ok(post) && {
            &&& mid.pc == nnn
            &&& post.pc == pre.pc + 2
            &&& post.sp == pre.sp
            &&& post.v == pre.v
            &&& post.mem == pre.mem
            &&& post.disp == pre.disp
        },
{
}

/// Idempotent clear: clear-display twice yields an all-false grid and the
/// same state as clearing once; the registers, VF included, are untouched.
pub proof fn lemma_clear_idempotent(pre: VmView)
    requires
        pre.wf(),
    ensures
        instr_step(pre, Instruction::ClearDisplay, None, 0) matches Ok(mid)
            && instr_step(mid, Instruction::ClearDisplay, None, 0) matches Ok(post)
            && {
            &&& forall|i: int| 0 <= i < 2048 ==> !post.disp[i]
            &&& post.disp == mid.disp
            &&& post.v == pre.v
        },
{
    let mid = instr_step(pre, Instruction::ClearDisplay, None, 0).unwrap();
    let post = instr_step(mid, Instruction::ClearDisplay, None, 0).unwrap();
    assert(forall|i: int| 0 <= i < 2048 ==> !post.disp[i]);
}

/// Draw toggling: drawing any sprite twice at the same position restores
/// the frame buffer, because every covered pixel is toggled by XOR exactly
/// once per draw.
pub proof fn lemma_draw_involution(disp: Seq<bool>, vx: u8, vy: u8, sprite: Seq<u8>)
    requires
        disp.len() == 2048,
    ensures
        draw_disp(draw_disp(disp, vx, vy, sprite), vx, vy, sprite) == disp,
{
    assert(draw_disp(draw_disp(disp, vx, vy, sprite), vx, vy, sprite) =~= disp);
}

/// Column wraparound: a one-row sprite drawn with start column 63 puts its
/// first pixel in column 63 and its second pixel in column 0 of the same
/// row.
pub proof fn lemma_column_wraparound(disp: Seq<bool>, vy: u8, b: u8)
    requires
        disp.len() == 2048,
    ensures
        ({
            let d2 = draw_disp(disp, 63, vy, seq![b]);
            let tr = (vy as int) % 32;
            &&& d2[tr * 64 + 63] == (disp[tr * 64 + 63] != sprite_bit(b, 0))
            &&& d2[tr * 64 + 0] == (disp[tr * 64 + 0] != sprite_bit(b, 1))
        }),
{
    reveal_with_fuel(draw_covers_upto, 3);
    let tr = (vy as int) % 32;
    lemma_row_covers_iff(63, b, 0);
    lemma_row_covers_iff(63, b, 1);
    assert((63 + 0) % 64 == 63);
    assert((63 + 1) % 64 == 0);
    assert((tr * 64 + 63) / 64 == tr && (tr * 64 + 63) % 64 == 63);
    assert((tr * 64 + 0) / 64 == tr && (tr * 64 + 0) % 64 == 0);
}

/// Row wraparound: a two-row sprite drawn with start row 31 puts its first
/// byte on row 31 and its second byte on row 0.
pub proof fn lemma_row_wraparound(disp: Seq<bool>, vx: u8, b0: u8, b1: u8)
    requires
        disp.len() == 2048,
    ensures
        ({
            let d2 = draw_disp(disp, vx, 31, seq![b0, b1]);
            &&& forall|c: int|
                0 <= c < 64 ==> d2[31 * 64 + c] == (disp[31 * 64 + c]
                    != #[trigger] row_covers(vx, b0, c))
            &&& forall|c: int|
                0 <= c < 64 ==> d2[c] == (disp[c] != #[trigger] row_covers(vx, b1, c))
        }),
{
    reveal_with_fuel(draw_covers_upto, 4);
    let d2 = draw_disp(disp, vx, 31, seq![b0, b1]);
    assert((31 + 0) % 32 == 31);
    assert((31 + 1) % 32 == 0);
    assert forall|c: int| 0 <= c < 64 implies d2[31 * 64 + c] == (disp[31 * 64 + c]
        != #[trigger] row_covers(vx, b0, c)) by {
        assert((31 * 64 + c) / 64 == 31 && (31 * 64 + c) % 64 == c);
    }
    assert forall|c: int| 0 <= c < 64 implies d2[c] == (disp[c]
        != #[trigger] row_covers(vx, b1, c)) by {
        assert(c / 64 == 0 && c % 64 == c);
    }
}

/// Timer gating: decay fires exactly when at least 1/60 s (16666 us) has
/// elapsed since the previous decay tick, decrements each timer by at most
/// one, saturating at zero, and a timer at zero stays at zero.
pub proof fn lemma_timer_decay(pre: VmView, now: u64)
    requires
        now >= pre.last_tick,
    ensures
        ({
            let post = timer_step(pre, now);
            &&& (now - pre.last_tick < 16666 ==> post == pre)
            &&& (now - pre.last_tick >= 16666 ==> post.dt == sat_dec(pre.dt)
                && post.st == sat_dec(pre.st) && post.last_tick == now)
            &&& (pre.dt == 0 ==> post.dt == 0)
            &&& (pre.st == 0 ==> post.st == 0)
            &&& pre.dt - post.dt <= 1
            &&& pre.st - post.st <= 1
        }),
{
}

/// Polling faster than the decay interval causes no additional decrement:
/// after a decay at time n1, a poll at any n2 before n1 + 16666 us leaves
/// the timers untouched.
pub proof fn lemma_timer_no_extra_decay(pre: VmView, n1: u64, n2: u64)
    requires
        n1 >= pre.last_tick,
        n1 <= n2,
        n2 < n1 + 16666,
        n1 - pre.last_tick >= 16666,
    ensures
        timer_step(timer_step(pre, n1), n2) == timer_step(pre, n1),
{
}

} // verus!
