//! The authoritative instruction semantics, as functions on [`VmView`].
//!
//! [`instr_step`] gives the exact effect of every decoded instruction on the
//! machine state, [`timer_step`] the wall-clock-gated timer decay,
//! [`fetch_spec`] the big-endian instruction fetch, and [`cycle_step`] one
//! whole engine cycle. The executable engine is proved to implement these
//! functions; the crate's laws are proved from them.
//!
//! Program-counter convention: every handler yields the address of the next
//! fetch itself. Plain instructions add 2, skips add 2 or 4, and the
//! control-flow instructions (jump, call, return, jump-V0) set their target
//! directly; there is no separate post-dispatch increment to compensate.
//! A call pushes the address of the call instruction itself, and a return
//! resumes at that address plus 2.

use vstd::prelude::*;

use crate::decode::{decode_spec, Instruction};
use crate::display::{draw_collides, draw_disp};
use crate::error::VmError;
use crate::state::{VmView, TICK_MICROS};

verus! {

/// Decrement a timer, saturating at zero.
pub open spec fn sat_dec(t: u8) -> u8 {
    if t > 0 {
        (t - 1) as u8
    } else {
        0
    }
}

/// Decay the two timers by one step if at least 1/60 s (16666 us) has
/// elapsed since the previous decay; otherwise leave the state unchanged.
/// Decay is gated by the clock alone, never by instruction throughput.
pub open spec fn timer_step(pre: VmView, now: u64) -> VmView {
    if now >= pre.last_tick + TICK_MICROS {
        VmView { dt: sat_dec(pre.dt), st: sat_dec(pre.st), last_tick: now, ..pre }
    } else {
        pre
    }
}

/// The big-endian instruction fetch: two consecutive bytes at PC. Both
/// bytes must lie inside the address space.
pub open spec fn fetch_spec(s: VmView) -> Result<u16, VmError> {
    if s.pc + 1 < 4096 {
        Ok((s.mem[s.pc as int] * 256 + s.mem[s.pc + 1]) as u16)
    } else {
        Err(VmError::AddressOutOfRange { pc: s.pc, addr: (s.pc + 1) as usize })
    }
}

/// Advance past the two consumed instruction bytes.
pub open spec fn with_pc2(s: VmView) -> VmView {
    VmView { pc: (s.pc + 2) as usize, ..s }
}

/// Advance by 4 (skip the next instruction) when `cond` holds, else by 2.
pub open spec fn with_skip(s: VmView, cond: bool) -> VmView {
    VmView { pc: if cond { (s.pc + 4) as usize } else { (s.pc + 2) as usize }, ..s }
}

/// Store `val` in V[x].
pub open spec fn set_reg(s: VmView, x: u8, val: u8) -> VmView {
    VmView { v: s.v.update(x as int, val), ..s }
}

/// Store the flag in VF and then `val` in V[x] (so for x = 15 the result
/// value wins).
pub open spec fn set_flag_reg(s: VmView, vf: u8, x: u8, val: u8) -> VmView {
    VmView { v: s.v.update(15, vf).update(x as int, val), ..s }
}

/// Whether a key edge carrying nibble `k` equal to V[x] was observed.
pub open spec fn key_matches(s: VmView, x: u8, key: Option<u8>) -> bool {
    key matches Some(k) && k == s.v[x as int]
}

/// The effect of one decoded instruction on the machine state.
///
/// `key` is the at-most-one key-down edge observed this cycle and `rnd` the
/// byte drawn for the random instruction; every other instruction ignores
/// them. An `Err` result is fatal and leaves the state unchanged.
pub open spec fn instr_step(
    pre: VmView,
    instr: Instruction,
    key: Option<u8>,
    rnd: u8,
) -> Result<VmView, VmError> {
    match instr {
        Instruction::ClearDisplay => Ok(
            with_pc2(VmView { disp: Seq::new(2048, |i: int| false), ..pre }),
        ),
        Instruction::Return => {
            if pre.sp == 0 {
                Err(VmError::StackUnderflow { pc: pre.pc })
            } else {
                Ok(
                    VmView {
                        pc: (pre.stack[pre.sp as int] + 2) as usize,
                        sp: (pre.sp - 1) as usize,
                        ..pre
                    },
                )
            }
        },
        Instruction::Jump { nnn } => Ok(VmView { pc: nnn as usize, ..pre }),
        Instruction::Call { nnn } => {
            if pre.sp >= 15 {
                Err(VmError::StackOverflow { pc: pre.pc })
            } else {
                Ok(
                    VmView {
                        sp: (pre.sp + 1) as usize,
                        stack: pre.stack.update(pre.sp + 1, pre.pc),
                        pc: nnn as usize,
                        ..pre
                    },
                )
            }
        },
        Instruction::SkipEqByte { x, nn } => Ok(with_skip(pre, pre.v[x as int] == nn)),
        Instruction::SkipNeByte { x, nn } => Ok(with_skip(pre, pre.v[x as int] != nn)),
        Instruction::SkipEqReg { x, y } => Ok(
            with_skip(pre, pre.v[x as int] == pre.v[y as int]),
        ),
        Instruction::LoadByte { x, nn } => Ok(with_pc2(set_reg(pre, x, nn))),
        Instruction::AddByte { x, nn } => Ok(
            with_pc2(set_reg(pre, x, ((pre.v[x as int] + nn) % 256) as u8)),
        ),
        Instruction::LoadReg { x, y } => Ok(with_pc2(set_reg(pre, x, pre.v[y as int]))),
        Instruction::Or { x, y } => Ok(
            with_pc2(set_reg(pre, x, pre.v[x as int] | pre.v[y as int])),
        ),
        Instruction::And { x, y } => Ok(
            with_pc2(set_reg(pre, x, pre.v[x as int] & pre.v[y as int])),
        ),
        Instruction::Xor { x, y } => Ok(
            with_pc2(set_reg(pre, x, pre.v[x as int] ^ pre.v[y as int])),
        ),
        Instruction::AddReg { x, y } => {
            let sum = pre.v[x as int] + pre.v[y as int];
            let vf: u8 = if sum > 255 { 1 } else { 0 };
            Ok(with_pc2(set_flag_reg(pre, vf, x, (sum % 256) as u8)))
        },
        Instruction::SubReg { x, y } => {
            let a = pre.v[x as int];
            let b = pre.v[y as int];
            let vf: u8 = if a >= b { 1 } else { 0 };
            Ok(with_pc2(set_flag_reg(pre, vf, x, ((a - b) % 256) as u8)))
        },
        Instruction::ShiftRight { x } => {
            let a = pre.v[x as int];
            Ok(with_pc2(set_flag_reg(pre, a & 1, x, a >> 1)))
        },
        Instruction::SubNotBorrow { x, y } => {
            let a = pre.v[x as int];
            let b = pre.v[y as int];
            let vf: u8 = if b >= a { 1 } else { 0 };
            Ok(with_pc2(set_flag_reg(pre, vf, x, ((b - a) % 256) as u8)))
        },
        Instruction::ShiftLeft { x } => {
            let a = pre.v[x as int];
            Ok(with_pc2(set_flag_reg(pre, (a >> 7) & 1, x, ((a * 2) % 256) as u8)))
        },
        Instruction::SkipNeReg { x, y } => Ok(
            with_skip(pre, pre.v[x as int] != pre.v[y as int]),
        ),
        Instruction::LoadI { nnn } => Ok(
            with_pc2(VmView { ireg: nnn as usize, ..pre }),
        ),
        Instruction::JumpV0 { nnn } => Ok(
            VmView { pc: (pre.v[0] + nnn) as usize, ..pre },
        ),
        Instruction::Random { x, nn } => Ok(with_pc2(set_reg(pre, x, rnd & nn))),
        Instruction::Draw { x, y, n } => {
            if pre.ireg + n > 4096 {
                Err(
                    VmError::AddressOutOfRange {
                        pc: pre.pc,
                        addr: (pre.ireg + n - 1) as usize,
                    },
                )
            } else {
                let sprite = pre.mem.subrange(pre.ireg as int, pre.ireg + n);
                let vx = pre.v[x as int];
                let vy = pre.v[y as int];
                let vf: u8 = if draw_collides(pre.disp, vx, vy, sprite) { 1 } else { 0 };
                Ok(
                    with_pc2(
                        VmView {
                            disp: draw_disp(pre.disp, vx, vy, sprite),
                            v: pre.v.update(15, vf),
                            ..pre
                        },
                    ),
                )
            }
        },
        Instruction::SkipKeyPressed { x } => Ok(with_skip(pre, key_matches(pre, x, key))),
        Instruction::SkipKeyNotPressed { x } => Ok(
            with_skip(pre, !key_matches(pre, x, key)),
        ),
        Instruction::LoadDelay { x } => Ok(with_pc2(set_reg(pre, x, pre.dt))),
        Instruction::WaitKey { x } => {
            match key {
                Some(k) => Ok(with_pc2(set_reg(pre, x, k))),
                None => Ok(VmView { waiting: Some(x), ..pre }),
            }
        },
        Instruction::SetDelay { x } => Ok(
            with_pc2(VmView { dt: pre.v[x as int], ..pre }),
        ),
        Instruction::SetSound { x } => Ok(
            with_pc2(VmView { st: pre.v[x as int], ..pre }),
        ),
        Instruction::AddI { x } => {
            let ni = pre.ireg + pre.v[x as int];
            if ni < 4096 {
                Ok(with_pc2(VmView { ireg: ni as usize, ..pre }))
            } else {
                Err(VmError::AddressOutOfRange { pc: pre.pc, addr: ni as usize })
            }
        },
        Instruction::LoadFont { x } => Ok(
            with_pc2(VmView { ireg: (pre.v[x as int] * 5) as usize, ..pre }),
        ),
        Instruction::StoreBcd { x } => {
            if pre.ireg + 3 > 4096 {
                Err(
                    VmError::AddressOutOfRange {
                        pc: pre.pc,
                        addr: (pre.ireg + 2) as usize,
                    },
                )
            } else {
                let val = pre.v[x as int];
                let mem = pre.mem.update(pre.ireg as int, (val / 100) as u8).update(
                    pre.ireg + 1,
                    ((val / 10) % 10) as u8,
                ).update(pre.ireg + 2, (val % 10) as u8);
                Ok(with_pc2(VmView { mem, ..pre }))
            }
        },
        Instruction::StoreRegs { x } => {
            if pre.ireg + x + 1 > 4096 {
                Err(
                    VmError::AddressOutOfRange {
                        pc: pre.pc,
                        addr: (pre.ireg + x) as usize,
                    },
                )
            } else {
                let mem = Seq::new(
                    4096,
                    |j: int|
                        if pre.ireg <= j <= pre.ireg + x {
                            pre.v[j - pre.ireg]
                        } else {
                            pre.mem[j]
                        },
                );
                Ok(with_pc2(VmView { mem, ..pre }))
            }
        },
        Instruction::ReadRegs { x } => {
            if pre.ireg + x + 1 > 4096 {
                Err(
                    VmError::AddressOutOfRange {
                        pc: pre.pc,
                        addr: (pre.ireg + x) as usize,
                    },
                )
            } else {
                let v = Seq::new(
                    16,
                    |j: int|
                        if 0 <= j <= x {
                            pre.mem[pre.ireg + j]
                        } else {
                            pre.v[j]
                        },
                );
                Ok(with_pc2(VmView { v, ..pre }))
            }
        },
    }
}

/// How a fallible handler's result and post-state relate to [`instr_step`]:
/// on success the post-state is the specified one, on a fatal condition the
/// specified error is returned and the state is untouched.
pub open spec fn unit_step_matches(
    pre: VmView,
    instr: Instruction,
    key: Option<u8>,
    rnd: u8,
    r: Result<(), VmError>,
    post: VmView,
) -> bool {
    match instr_step(pre, instr, key, rnd) {
        Ok(s) => r is Ok && post == s,
        Err(e) => r == Err::<(), VmError>(e) && post == pre,
    }
}

/// As [`unit_step_matches`], for the dispatcher that reports the redraw
/// flag on success.
pub open spec fn step_matches(
    pre: VmView,
    instr: Instruction,
    key: Option<u8>,
    rnd: u8,
    r: Result<bool, VmError>,
    post: VmView,
) -> bool {
    match instr_step(pre, instr, key, rnd) {
        Ok(s) => r is Ok && post == s,
        Err(e) => r == Err::<bool, VmError>(e) && post == pre,
    }
}

/// How one engine cycle's result and post-state relate to [`cycle_step`]:
/// on a fatal condition the timers have already decayed but nothing else
/// has changed.
pub open spec fn cycle_matches(
    pre: VmView,
    now: u64,
    key: Option<u8>,
    rnd: u8,
    r: Result<bool, VmError>,
    post: VmView,
) -> bool {
    match cycle_step(pre, now, key, rnd) {
        Ok(s) => r is Ok && post == s,
        Err(e) => r == Err::<bool, VmError>(e) && post == timer_step(pre, now),
    }
}

/// Whether an instruction mutates the frame buffer, so the rendering
/// collaborator must be notified.
pub open spec fn instr_redraws(instr: Instruction) -> bool {
    instr is ClearDisplay || instr is Draw
}

/// One whole engine cycle: decay the timers if due; then, if suspended on
/// wait-for-key, consume an incoming edge (or stay suspended); otherwise
/// fetch, decode and execute one instruction.
pub open spec fn cycle_step(
    pre: VmView,
    now: u64,
    key: Option<u8>,
    rnd: u8,
) -> Result<VmView, VmError> {
    let t = timer_step(pre, now);
    match t.waiting {
        Some(x) => match key {
            Some(k) => Ok(
                VmView {
                    v: t.v.update(x as int, k),
                    waiting: None,
                    pc: (t.pc + 2) as usize,
                    ..t
                },
            ),
            None => Ok(t),
        },
        None => match fetch_spec(t) {
            Err(e) => Err(e),
            Ok(w) => match decode_spec(w) {
                None => Err(VmError::UnknownInstruction { pc: t.pc, word: w as usize }),
                Some(instr) => instr_step(t, instr, key, rnd),
            },
        },
    }
}

/// Whether this cycle executes an instruction that mutates the frame
/// buffer.
pub open spec fn cycle_redraws(pre: VmView, now: u64) -> bool {
    let t = timer_step(pre, now);
    &&& t.waiting is None
    &&& fetch_spec(t) matches Ok(w) && decode_spec(w) matches Some(instr)
        && instr_redraws(instr)
}

/// Whether this cycle executes the random instruction, the one instruction
/// whose outcome is not a function of the inputs.
pub open spec fn cycle_is_random(pre: VmView, now: u64) -> bool {
    let t = timer_step(pre, now);
    &&& t.waiting is None
    &&& fetch_spec(t) matches Ok(w) && decode_spec(w) matches Some(instr)
        && instr is Random
}

} // verus!
