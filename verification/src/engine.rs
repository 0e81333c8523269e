//! The executable fetch-decode-execute engine.
//!
//! Each instruction has one handler method, proved against the
//! corresponding arm of [`instr_step`]; [`Emulator::run_instruction`]
//! dispatches a raw word to the matching handler, and
//! [`Emulator::run_cycle`] performs one whole cycle: timer decay, the
//! wait-for-key suspension, fetch, decode and dispatch.

use vstd::prelude::*;

use crate::decode::{decode, decode_spec, Instruction};
use crate::display::draw_sprite;
use crate::error::{shit_pants, VmError};
use crate::semantics::{
    cycle_is_random, cycle_matches, cycle_redraws, fetch_spec, instr_redraws, instr_step,
    step_matches, timer_step, unit_step_matches, with_pc2,
};
use crate::state::{blank_display, Emulator, VmView, TICK_MICROS};

verus! {

/// Relies on rand::random::<u8>: draws one byte from the thread-local
/// generator. Nothing is promised of its value; callers state what holds
/// of every outcome.
#[verifier::external_body]
fn random_byte() -> u8 {
    rand::random::<u8>()
}

impl Emulator {
    /// Fetch the two instruction bytes at PC, high byte first.
    fn fetch(&self) -> (r: Result<u16, VmError>)
        requires
            self.wf(),
        ensures
            r == fetch_spec(self@),
    {
        if self.pc + 1 < 4096 {
            let hi = self.memory[self.pc];
            let lo = self.memory[self.pc + 1];
            Ok((hi as u16) * 256 + (lo as u16))
        } else {
            Err(VmError::AddressOutOfRange { pc: self.pc, addr: self.pc + 1 })
        }
    }

    /// Decay both timers by at most one step when at least 1/60 s has
    /// elapsed since the previous decay; faster polling changes nothing.
    fn tick_timers(&mut self, now: u64)
        requires
            old(self).wf(),
            now >= old(self)@.last_tick,
        ensures
            final(self).wf(),
            final(self)@ == timer_step(old(self)@, now),
    {
        if now - self.last_tick >= TICK_MICROS {
            self.sound_timer = if self.sound_timer > 0 {
                self.sound_timer - 1
            } else {
                0
            };
            self.delay_timer = if self.delay_timer > 0 {
                self.delay_timer - 1
            } else {
                0
            };
            self.last_tick = now;
        }
    }

    /// 00E0: blank the frame buffer.
    fn clear_display(&mut self)
        requires
            old(self).wf(),
            old(self)@.pc + 1 < 4096,
            old(self)@.waiting is None,
        ensures
            final(self).wf(),
            instr_step(old(self)@, Instruction::ClearDisplay, None, 0) == Ok::<
                VmView,
                VmError,
            >(final(self)@),
    {
        self.display = blank_display();
        self.pc = self.pc + 2;
        proof {
            assert(self@.disp =~= Seq::new(2048, |i: int| false));
            assert(self@ =~= with_pc2(
                VmView { disp: Seq::new(2048, |i: int| false), ..old(self)@ },
            ));
        }
    }

    /// 00EE: pop the stored call address and resume just after it.
    fn return_subroutine(&mut self) -> (r: Result<(), VmError>)
        requires
            old(self).wf(),
            old(self)@.pc + 1 < 4096,
            old(self)@.waiting is None,
        ensures
            final(self).wf(),
            unit_step_matches(
                old(self)@,
                Instruction::Return,
                None,
                0,
                r,
                final(self)@,
            ),
    {
        if self.sp == 0 {
            return Err(VmError::StackUnderflow { pc: self.pc });
        }
        self.pc = self.stack[self.sp] + 2;
        self.sp = self.sp - 1;
        Ok(())
    }

    /// 1nnn: continue fetching at nnn.
    fn jump_addr(&mut self, nnn: u16)
        requires
            old(self).wf(),
            old(self)@.pc + 1 < 4096,
            old(self)@.waiting is None,
            nnn < 4096,
        ensures
            final(self).wf(),
            instr_step(old(self)@, (Instruction::Jump { nnn }), None, 0) == Ok::<
                VmView,
                VmError,
            >(final(self)@),
    {
        self.pc = nnn as usize;
    }

    /// 2nnn: push the address of this call instruction and continue at nnn.
    fn call_addr(&mut self, nnn: u16) -> (r: Result<(), VmError>)
        requires
            old(self).wf(),
            old(self)@.pc + 1 < 4096,
            old(self)@.waiting is None,
            nnn < 4096,
        ensures
            final(self).wf(),
            unit_step_matches(
                old(self)@,
                (Instruction::Call { nnn }),
                None,
                0,
                r,
                final(self)@,
            ),
    {
        if self.sp >= 15 {
            return Err(VmError::StackOverflow { pc: self.pc });
        }
        self.sp = self.sp + 1;
        self.stack[self.sp] = self.pc;
        self.pc = nnn as usize;
        Ok(())
    }

    /// 3xnn: skip the next instruction if V[x] == nn.
    fn skip_equal_reg_byte(&mut self, x: u8, nn: u8)
        requires
            old(self).wf(),
            old(self)@.pc + 1 < 4096,
            old(self)@.waiting is None,
            x < 16,
        ensures
            final(self).wf(),
            instr_step(old(self)@, (Instruction::SkipEqByte { x, nn }), None, 0)
                == Ok::<VmView, VmError>(final(self)@),
    {
        if self.v[x as usize] == nn {
            self.pc = self.pc + 4;
        } else {
            self.pc = self.pc + 2;
        }
    }

    /// 4xnn: skip the next instruction if V[x] != nn.
    fn skip_not_equal_reg_byte(&mut self, x: u8, nn: u8)
        requires
            old(self).wf(),
            old(self)@.pc + 1 < 4096,
            old(self)@.waiting is None,
            x < 16,
        ensures
            final(self).wf(),
            instr_step(old(self)@, (Instruction::SkipNeByte { x, nn }), None, 0)
                == Ok::<VmView, VmError>(final(self)@),
    {
        if self.v[x as usize] != nn {
            self.pc = self.pc + 4;
        } else {
            self.pc = self.pc + 2;
        }
    }

    /// 5xy_: skip the next instruction if V[x] == V[y].
    fn skip_equal_reg_reg(&mut self, x: u8, y: u8)
        requires
            old(self).wf(),
            old(self)@.pc + 1 < 4096,
            old(self)@.waiting is None,
            x < 16,
            y < 16,
        ensures
            final(self).wf(),
            instr_step(old(self)@, (Instruction::SkipEqReg { x, y }), None, 0) == Ok::<
                VmView,
                VmError,
            >(final(self)@),
    {
        if self.v[x as usize] == self.v[y as usize] {
            self.pc = self.pc + 4;
        } else {
            self.pc = self.pc + 2;
        }
    }

    /// 9xy_: skip the next instruction if V[x] != V[y].
    fn skip_not_equal_reg_reg(&mut self, x: u8, y: u8)
        requires
            old(self).wf(),
            old(self)@.pc + 1 < 4096,
            old(self)@.waiting is None,
            x < 16,
            y < 16,
        ensures
            final(self).wf(),
            instr_step(old(self)@, (Instruction::SkipNeReg { x, y }), None, 0) == Ok::<
                VmView,
                VmError,
            >(final(self)@),
    {
        if self.v[x as usize] != self.v[y as usize] {
            self.pc = self.pc + 4;
        } else {
            self.pc = self.pc + 2;
        }
    }

    /// 6xnn: V[x] <- nn.
    fn set_reg_byte(&mut self, x: u8, nn: u8)
        requires
            old(self).wf(),
            old(self)@.pc + 1 < 4096,
            old(self)@.waiting is None,
            x < 16,
        ensures
            final(self).wf(),
            instr_step(old(self)@, (Instruction::LoadByte { x, nn }), None, 0) == Ok::<
                VmView,
                VmError,
            >(final(self)@),
    {
        self.v[x as usize] = nn;
        self.pc = self.pc + 2;
    }

    /// 7xnn: V[x] <- V[x] + nn, wrapping modulo 256; VF untouched.
    fn add_reg_byte(&mut self, x: u8, nn: u8)
        requires
            old(self).wf(),
            old(self)@.pc + 1 < 4096,
            old(self)@.waiting is None,
            x < 16,
        ensures
            final(self).wf(),
            instr_step(old(self)@, (Instruction::AddByte { x, nn }), None, 0) == Ok::<
                VmView,
                VmError,
            >(final(self)@),
    {
        let sum = (self.v[x as usize] as u16 + nn as u16) % 256;
        self.v[x as usize] = sum as u8;
        self.pc = self.pc + 2;
    }

    /// 8xy0: V[x] <- V[y].
    fn set_reg_reg(&mut self, x: u8, y: u8)
        requires
            old(self).wf(),
            old(self)@.pc + 1 < 4096,
            old(self)@.waiting is None,
            x < 16,
            y < 16,
        ensures
            final(self).wf(),
            instr_step(old(self)@, (Instruction::LoadReg { x, y }), None, 0) == Ok::<
                VmView,
                VmError,
            >(final(self)@),
    {
        self.v[x as usize] = self.v[y as usize];
        self.pc = self.pc + 2;
    }

    /// 8xy1: V[x] <- V[x] | V[y].
    fn or(&mut self, x: u8, y: u8)
        requires
            old(self).wf(),
            old(self)@.pc + 1 < 4096,
            old(self)@.waiting is None,
            x < 16,
            y < 16,
        ensures
            final(self).wf(),
            instr_step(old(self)@, (Instruction::Or { x, y }), None, 0) == Ok::<
                VmView,
                VmError,
            >(final(self)@),
    {
        self.v[x as usize] = self.v[x as usize] | self.v[y as usize];
        self.pc = self.pc + 2;
    }

    /// 8xy2: V[x] <- V[x] & V[y].
    fn and(&mut self, x: u8, y: u8)
        requires
            old(self).wf(),
            old(self)@.pc + 1 < 4096,
            old(self)@.waiting is None,
            x < 16,
            y < 16,
        ensures
            final(self).wf(),
            instr_step(old(self)@, (Instruction::And { x, y }), None, 0) == Ok::<
                VmView,
                VmError,
            >(final(self)@),
    {
        self.v[x as usize] = self.v[x as usize] & self.v[y as usize];
        self.pc = self.pc + 2;
    }

    /// 8xy3: V[x] <- V[x] ^ V[y].
    fn xor(&mut self, x: u8, y: u8)
        requires
            old(self).wf(),
            old(self)@.pc + 1 < 4096,
            old(self)@.waiting is None,
            x < 16,
            y < 16,
        ensures
            final(self).wf(),
            instr_step(old(self)@, (Instruction::Xor { x, y }), None, 0) == Ok::<
                VmView,
                VmError,
            >(final(self)@),
    {
        self.v[x as usize] = self.v[x as usize] ^ self.v[y as usize];
        self.pc = self.pc + 2;
    }

    /// 8xy4: V[x] <- V[x] + V[y] mod 256; VF <- 1 exactly when the sum
    /// exceeds 255.
    fn add_reg_reg(&mut self, x: u8, y: u8)
        requires
            old(self).wf(),
            old(self)@.pc + 1 < 4096,
            old(self)@.waiting is None,
            x < 16,
            y < 16,
        ensures
            final(self).wf(),
            instr_step(old(self)@, (Instruction::AddReg { x, y }), None, 0) == Ok::<
                VmView,
                VmError,
            >(final(self)@),
    {
        let sum = self.v[x as usize] as u16 + self.v[y as usize] as u16;
        let vf: u8 = if sum > 255 {
            1
        } else {
            0
        };
        self.v[15] = vf;
        self.v[x as usize] = (sum % 256) as u8;
        self.pc = self.pc + 2;
    }

    /// 8xy5: V[x] <- V[x] - V[y] mod 256; VF <- 1 exactly when no borrow
    /// occurs (V[x] >= V[y]).
    fn sub_reg_reg(&mut self, x: u8, y: u8)
        requires
            old(self).wf(),
            old(self)@.pc + 1 < 4096,
            old(self)@.waiting is None,
            x < 16,
            y < 16,
        ensures
            final(self).wf(),
            instr_step(old(self)@, (Instruction::SubReg { x, y }), None, 0) == Ok::<
                VmView,
                VmError,
            >(final(self)@),
    {
        let a = self.v[x as usize];
        let b = self.v[y as usize];
        let vf: u8 = if a >= b {
            1
        } else {
            0
        };
        self.v[15] = vf;
        self.v[x as usize] = ((a as u16 + 256 - b as u16) % 256) as u8;
        self.pc = self.pc + 2;
    }

    /// 8xy7: V[x] <- V[y] - V[x] mod 256; VF <- 1 exactly when no borrow
    /// occurs (V[y] >= V[x]).
    fn sub_not_borrow(&mut self, x: u8, y: u8)
        requires
            old(self).wf(),
            old(self)@.pc + 1 < 4096,
            old(self)@.waiting is None,
            x < 16,
            y < 16,
        ensures
            final(self).wf(),
            instr_step(old(self)@, (Instruction::SubNotBorrow { x, y }), None, 0)
                == Ok::<VmView, VmError>(final(self)@),
    {
        let a = self.v[x as usize];
        let b = self.v[y as usize];
        let vf: u8 = if b >= a {
            1
        } else {
            0
        };
        self.v[15] = vf;
        self.v[x as usize] = ((b as u16 + 256 - a as u16) % 256) as u8;
        self.pc = self.pc + 2;
    }

    /// 8xy6: VF <- the bit shifted out (V[x] & 1); V[x] <- V[x] >> 1.
    fn shift_right(&mut self, x: u8)
        requires
            old(self).wf(),
            old(self)@.pc + 1 < 4096,
            old(self)@.waiting is None,
            x < 16,
        ensures
            final(self).wf(),
            instr_step(old(self)@, (Instruction::ShiftRight { x }), None, 0) == Ok::<
                VmView,
                VmError,
            >(final(self)@),
    {
        let a = self.v[x as usize];
        self.v[15] = a & 1;
        self.v[x as usize] = a >> 1u8;
        self.pc = self.pc + 2;
    }

    /// 8xyE: VF <- the bit shifted out ((V[x] >> 7) & 1); V[x] <- V[x] << 1
    /// mod 256.
    fn shift_left(&mut self, x: u8)
        requires
            old(self).wf(),
            old(self)@.pc + 1 < 4096,
            old(self)@.waiting is None,
            x < 16,
        ensures
            final(self).wf(),
            instr_step(old(self)@, (Instruction::ShiftLeft { x }), None, 0) == Ok::<
                VmView,
                VmError,
            >(final(self)@),
    {
        let a = self.v[x as usize];
        self.v[15] = (a >> 7u8) & 1;
        self.v[x as usize] = ((a as u16 * 2) % 256) as u8;
        self.pc = self.pc + 2;
    }

    /// Annn: I <- nnn.
    fn set_ireg(&mut self, nnn: u16)
        requires
            old(self).wf(),
            old(self)@.pc + 1 < 4096,
            old(self)@.waiting is None,
            nnn < 4096,
        ensures
            final(self).wf(),
            instr_step(old(self)@, (Instruction::LoadI { nnn }), None, 0) == Ok::<
                VmView,
                VmError,
            >(final(self)@),
    {
        self.ireg = nnn as usize;
        self.pc = self.pc + 2;
    }

    /// Bnnn: continue fetching at V[0] + nnn.
    fn jump_v0(&mut self, nnn: u16)
        requires
            old(self).wf(),
            old(self)@.pc + 1 < 4096,
            old(self)@.waiting is None,
            nnn < 4096,
        ensures
            final(self).wf(),
            instr_step(old(self)@, (Instruction::JumpV0 { nnn }), None, 0) == Ok::<
                VmView,
                VmError,
            >(final(self)@),
    {
        self.pc = self.v[0] as usize + nnn as usize;
    }

    /// Cxnn: V[x] <- a random byte masked with nn. The drawn byte is not a
    /// function of the machine state; the contract holds for every
    /// outcome.
    fn random(&mut self, x: u8, nn: u8)
        requires
            old(self).wf(),
            old(self)@.pc + 1 < 4096,
            old(self)@.waiting is None,
            x < 16,
        ensures
            final(self).wf(),
            exists|b: u8|
                instr_step(old(self)@, (Instruction::Random { x, nn }), None, b)
                    == Ok::<VmView, VmError>(final(self)@),
    {
        let b = random_byte();
        self.v[x as usize] = b & nn;
        self.pc = self.pc + 2;
        proof {
            assert(instr_step(old(self)@, (Instruction::Random { x, nn }), None, b)
                == Ok::<VmView, VmError>(self@));
        }
    }

    /// Dxyn: draw the sprite at memory[I..I+n] at (V[x], V[y]); VF <- 1
    /// exactly when a lit pixel was toggled off.
    fn draw(&mut self, x: u8, y: u8, n: u8) -> (r: Result<(), VmError>)
        requires
            old(self).wf(),
            old(self)@.pc + 1 < 4096,
            old(self)@.waiting is None,
            x < 16,
            y < 16,
            n < 16,
        ensures
            final(self).wf(),
            unit_step_matches(
                old(self)@,
                (Instruction::Draw { x, y, n }),
                None,
                0,
                r,
                final(self)@,
            ),
    {
        if self.ireg + n as usize > 4096 {
            return Err(
                VmError::AddressOutOfRange {
                    pc: self.pc,
                    addr: self.ireg + n as usize - 1,
                },
            );
        }
        let vx = self.v[x as usize];
        let vy = self.v[y as usize];
        let hit = draw_sprite(
            &mut self.display,
            &self.memory,
            self.ireg,
            vx,
            vy,
            n as usize,
        );
        let vf: u8 = if hit {
            1
        } else {
            0
        };
        self.v[15] = vf;
        self.pc = self.pc + 2;
        Ok(())
    }

    /// Ex9E: skip the next instruction if this cycle's key edge equals
    /// V[x].
    fn skip_key_pressed(&mut self, x: u8, key: Option<u8>)
        requires
            old(self).wf(),
            old(self)@.pc + 1 < 4096,
            old(self)@.waiting is None,
            x < 16,
        ensures
            final(self).wf(),
            instr_step(old(self)@, (Instruction::SkipKeyPressed { x }), key, 0)
                == Ok::<VmView, VmError>(final(self)@),
    {
        let pressed = match key {
            Some(k) => k == self.v[x as usize],
            None => false,
        };
        if pressed {
            self.pc = self.pc + 4;
        } else {
            self.pc = self.pc + 2;
        }
    }

    /// ExA1: skip the next instruction if no key edge equal to V[x] was
    /// observed this cycle.
    fn skip_key_not_pressed(&mut self, x: u8, key: Option<u8>)
        requires
            old(self).wf(),
            old(self)@.pc + 1 < 4096,
            old(self)@.waiting is None,
            x < 16,
        ensures
            final(self).wf(),
            instr_step(old(self)@, (Instruction::SkipKeyNotPressed { x }), key, 0)
                == Ok::<VmView, VmError>(final(self)@),
    {
        let pressed = match key {
            Some(k) => k == self.v[x as usize],
            None => false,
        };
        if !pressed {
            self.pc = self.pc + 4;
        } else {
            self.pc = self.pc + 2;
        }
    }

    /// Fx07: V[x] <- delay timer.
    fn set_from_dt(&mut self, x: u8)
        requires
            old(self).wf(),
            old(self)@.pc + 1 < 4096,
            old(self)@.waiting is None,
            x < 16,
        ensures
            final(self).wf(),
            instr_step(old(self)@, (Instruction::LoadDelay { x }), None, 0) == Ok::<
                VmView,
                VmError,
            >(final(self)@),
    {
        self.v[x as usize] = self.delay_timer;
        self.pc = self.pc + 2;
    }

    /// Fx0A: consume this cycle's key edge into V[x], or suspend the
    /// engine until one arrives. While suspended the timers keep decaying
    /// and the surrounding loop stays responsive.
    fn wait_key_press(&mut self, x: u8, key: Option<u8>)
        requires
            old(self).wf(),
            old(self)@.pc + 1 < 4096,
            old(self)@.waiting is None,
            x < 16,
        ensures
            final(self).wf(),
            instr_step(old(self)@, (Instruction::WaitKey { x }), key, 0) == Ok::<
                VmView,
                VmError,
            >(final(self)@),
    {
        match key {
            Some(k) => {
                self.v[x as usize] = k;
                self.pc = self.pc + 2;
            },
            None => {
                self.waiting = Some(x);
            },
        }
    }

    /// Fx15: delay timer <- V[x].
    fn set_dt(&mut self, x: u8)
        requires
            old(self).wf(),
            old(self)@.pc + 1 < 4096,
            old(self)@.waiting is None,
            x < 16,
        ensures
            final(self).wf(),
            instr_step(old(self)@, (Instruction::SetDelay { x }), None, 0) == Ok::<
                VmView,
                VmError,
            >(final(self)@),
    {
        self.delay_timer = self.v[x as usize];
        self.pc = self.pc + 2;
    }

    /// Fx18: sound timer <- V[x]; the tone flag follows the timer, so the
    /// tone starts when V[x] > 0 and stops when it is 0.
    fn set_st(&mut self, x: u8)
        requires
            old(self).wf(),
            old(self)@.pc + 1 < 4096,
            old(self)@.waiting is None,
            x < 16,
        ensures
            final(self).wf(),
            instr_step(old(self)@, (Instruction::SetSound { x }), None, 0) == Ok::<
                VmView,
                VmError,
            >(final(self)@),
    {
        self.sound_timer = self.v[x as usize];
        self.pc = self.pc + 2;
    }

    /// Fx1E: I <- I + V[x]; leaving the address space is fatal.
    fn add_ireg_reg(&mut self, x: u8) -> (r: Result<(), VmError>)
        requires
            old(self).wf(),
            old(self)@.pc + 1 < 4096,
            old(self)@.waiting is None,
            x < 16,
        ensures
            final(self).wf(),
            unit_step_matches(
                old(self)@,
                (Instruction::AddI { x }),
                None,
                0,
                r,
                final(self)@,
            ),
    {
        let ni = self.ireg + self.v[x as usize] as usize;
        if ni >= 4096 {
            return Err(VmError::AddressOutOfRange { pc: self.pc, addr: ni });
        }
        self.ireg = ni;
        self.pc = self.pc + 2;
        Ok(())
    }

    /// Fx29: I <- V[x] * 5, the address of the built-in glyph for V[x].
    fn set_ireg_font(&mut self, x: u8)
        requires
            old(self).wf(),
            old(self)@.pc + 1 < 4096,
            old(self)@.waiting is None,
            x < 16,
        ensures
            final(self).wf(),
            instr_step(old(self)@, (Instruction::LoadFont { x }), None, 0) == Ok::<
                VmView,
                VmError,
            >(final(self)@),
    {
        self.ireg = self.v[x as usize] as usize * 5;
        self.pc = self.pc + 2;
    }

    /// Fx33: memory[I..I+3] <- the decimal digits of V[x], most
    /// significant first.
    fn store_bcd_reg(&mut self, x: u8) -> (r: Result<(), VmError>)
        requires
            old(self).wf(),
            old(self)@.pc + 1 < 4096,
            old(self)@.waiting is None,
            x < 16,
        ensures
            final(self).wf(),
            unit_step_matches(
                old(self)@,
                (Instruction::StoreBcd { x }),
                None,
                0,
                r,
                final(self)@,
            ),
    {
        if self.ireg + 3 > 4096 {
            return Err(
                VmError::AddressOutOfRange { pc: self.pc, addr: self.ireg + 2 },
            );
        }
        let val = self.v[x as usize];
        self.memory[self.ireg] = val / 100;
        self.memory[self.ireg + 1] = (val / 10) % 10;
        self.memory[self.ireg + 2] = val % 10;
        self.pc = self.pc + 2;
        Ok(())
    }

    /// Fx55: memory[I+i] <- V[i] for i in 0..=x.
    fn store_regs(&mut self, x: u8) -> (r: Result<(), VmError>)
        requires
            old(self).wf(),
            old(self)@.pc + 1 < 4096,
            old(self)@.waiting is None,
            x < 16,
        ensures
            final(self).wf(),
            unit_step_matches(
                old(self)@,
                (Instruction::StoreRegs { x }),
                None,
                0,
                r,
                final(self)@,
            ),
    {
        let count = x as usize + 1;
        if self.ireg + count > 4096 {
            return Err(
                VmError::AddressOutOfRange {
                    pc: self.pc,
                    addr: self.ireg + x as usize,
                },
            );
        }
        let ghost pre = self@;
        let mut i: usize = 0;
        while i < count
            invariant
                self.wf(),
                pre.wf(),
                i <= count,
                count == x + 1,
                x < 16,
                self@.ireg + count <= 4096,
                self@ == (VmView { mem: self@.mem, ..pre }),
                forall|j: int|
                    0 <= j < 4096 && !(pre.ireg <= j < pre.ireg + i) ==> self@.mem[j]
                        == pre.mem[j],
                forall|j: int|
                    0 <= j < i ==> self@.mem[pre.ireg + j] == pre.v[j],
            decreases count - i,
        {
            self.memory[self.ireg + i] = self.v[i];
            i = i + 1;
        }
        self.pc = self.pc + 2;
        proof {
            let target = Seq::new(
                4096,
                |j: int|
                    if pre.ireg <= j <= pre.ireg + x {
                        pre.v[j - pre.ireg]
                    } else {
                        pre.mem[j]
                    },
            );
            assert(self@.mem =~= target);
            assert(self@ =~= with_pc2(VmView { mem: target, ..pre }));
        }
        Ok(())
    }

    /// Fx65: V[i] <- memory[I+i] for i in 0..=x.
    fn read_regs(&mut self, x: u8) -> (r: Result<(), VmError>)
        requires
            old(self).wf(),
            old(self)@.pc + 1 < 4096,
            old(self)@.waiting is None,
            x < 16,
        ensures
            final(self).wf(),
            unit_step_matches(
                old(self)@,
                (Instruction::ReadRegs { x }),
                None,
                0,
                r,
                final(self)@,
            ),
    {
        let count = x as usize + 1;
        if self.ireg + count > 4096 {
            return Err(
                VmError::AddressOutOfRange {
                    pc: self.pc,
                    addr: self.ireg + x as usize,
                },
            );
        }
        let ghost pre = self@;
        let mut i: usize = 0;
        while i < count
            invariant
                self.wf(),
                pre.wf(),
                i <= count,
                count == x + 1,
                x < 16,
                self@.ireg + count <= 4096,
                self@ == (VmView { v: self@.v, ..pre }),
                forall|j: int| i <= j < 16 ==> self@.v[j] == pre.v[j],
                forall|j: int| 0 <= j < i ==> self@.v[j] == pre.mem[pre.ireg + j],
            decreases count - i,
        {
            self.v[i] = self.memory[self.ireg + i];
            i = i + 1;
        }
        self.pc = self.pc + 2;
        proof {
            let target = Seq::new(
                16,
                |j: int|
                    if 0 <= j <= x {
                        pre.mem[pre.ireg + j]
                    } else {
                        pre.v[j]
                    },
            );
            assert(self@.v =~= target);
            assert(self@ =~= with_pc2(VmView { v: target, ..pre }));
        }
        Ok(())
    }

    /// Decode one raw instruction word and apply it. `key` is the
    /// at-most-one key-down edge observed this cycle. On success the
    /// returned flag says whether the frame buffer was mutated; an `Err`
    /// is fatal and leaves the state unchanged.
    pub fn run_instruction(&mut self, opcode: usize, key: Option<u8>) -> (r: Result<
        bool,
        VmError,
    >)
        requires
            old(self).wf(),
            old(self)@.pc + 1 < 4096,
            old(self)@.waiting is None,
            opcode < 0x10000,
        ensures
            final(self).wf(),
            ({
                let pre = old(self)@;
                match decode_spec(opcode as u16) {
                    None => r == Err::<bool, VmError>(
                        VmError::UnknownInstruction { pc: pre.pc, word: opcode },
                    ) && final(self)@ == pre,
                    Some(instr) => {
                        &&& (r matches Ok(d) ==> d == instr_redraws(instr))
                        &&& (instr is Random ==> exists|b: u8|
                            step_matches(pre, instr, key, b, r, final(self)@))
                        &&& (!(instr is Random) ==> step_matches(
                            pre,
                            instr,
                            key,
                            0,
                            r,
                            final(self)@,
                        ))
                    },
                }
            }),
    {
        let word = opcode as u16;
        let decoded = decode(word);
        match decoded {
            None => Err(shit_pants(self.pc, opcode)),
            Some(instr) => {
                match instr {
                    Instruction::ClearDisplay => {
                        self.clear_display();
                        Ok(true)
                    },
                    Instruction::Return => {
                        match self.return_subroutine() {
                            Ok(_) => Ok(false),
                            Err(e) => Err(e),
                        }
                    },
                    Instruction::Jump { nnn } => {
                        self.jump_addr(nnn);
                        Ok(false)
                    },
                    Instruction::Call { nnn } => {
                        match self.call_addr(nnn) {
                            Ok(_) => Ok(false),
                            Err(e) => Err(e),
                        }
                    },
                    Instruction::SkipEqByte { x, nn } => {
                        self.skip_equal_reg_byte(x, nn);
                        Ok(false)
                    },
                    Instruction::SkipNeByte { x, nn } => {
                        self.skip_not_equal_reg_byte(x, nn);
                        Ok(false)
                    },
                    Instruction::SkipEqReg { x, y } => {
                        self.skip_equal_reg_reg(x, y);
                        Ok(false)
                    },
                    Instruction::LoadByte { x, nn } => {
                        self.set_reg_byte(x, nn);
                        Ok(false)
                    },
                    Instruction::AddByte { x, nn } => {
                        self.add_reg_byte(x, nn);
                        Ok(false)
                    },
                    Instruction::LoadReg { x, y } => {
                        self.set_reg_reg(x, y);
                        Ok(false)
                    },
                    Instruction::Or { x, y } => {
                        self.or(x, y);
                        Ok(false)
                    },
                    Instruction::And { x, y } => {
                        self.and(x, y);
                        Ok(false)
                    },
                    Instruction::Xor { x, y } => {
                        self.xor(x, y);
                        Ok(false)
                    },
                    Instruction::AddReg { x, y } => {
                        self.add_reg_reg(x, y);
                        Ok(false)
                    },
                    Instruction::SubReg { x, y } => {
                        self.sub_reg_reg(x, y);
                        Ok(false)
                    },
                    Instruction::ShiftRight { x } => {
                        self.shift_right(x);
                        Ok(false)
                    },
                    Instruction::SubNotBorrow { x, y } => {
                        self.sub_not_borrow(x, y);
                        Ok(false)
                    },
                    Instruction::ShiftLeft { x } => {
                        self.shift_left(x);
                        Ok(false)
                    },
                    Instruction::SkipNeReg { x, y } => {
                        self.skip_not_equal_reg_reg(x, y);
                        Ok(false)
                    },
                    Instruction::LoadI { nnn } => {
                        self.set_ireg(nnn);
                        Ok(false)
                    },
                    Instruction::JumpV0 { nnn } => {
                        self.jump_v0(nnn);
                        Ok(false)
                    },
                    Instruction::Random { x, nn } => {
                        self.random(x, nn);
                        proof {
                            let b = choose|b: u8|
                                instr_step(
                                    old(self)@,
                                    (Instruction::Random { x, nn }),
                                    None,
                                    b,
                                ) == Ok::<VmView, VmError>(self@);
                            assert(step_matches(
                                old(self)@,
                                (Instruction::Random { x, nn }),
                                key,
                                b,
                                Ok::<bool, VmError>(false),
                                self@,
                            ));
                        }
                        Ok(false)
                    },
                    Instruction::Draw { x, y, n } => {
                        match self.draw(x, y, n) {
                            Ok(_) => Ok(true),
                            Err(e) => Err(e),
                        }
                    },
                    Instruction::SkipKeyPressed { x } => {
                        self.skip_key_pressed(x, key);
                        Ok(false)
                    },
                    Instruction::SkipKeyNotPressed { x } => {
                        self.skip_key_not_pressed(x, key);
                        Ok(false)
                    },
                    Instruction::LoadDelay { x } => {
                        self.set_from_dt(x);
                        Ok(false)
                    },
                    Instruction::WaitKey { x } => {
                        self.wait_key_press(x, key);
                        Ok(false)
                    },
                    Instruction::SetDelay { x } => {
                        self.set_dt(x);
                        Ok(false)
                    },
                    Instruction::SetSound { x } => {
                        self.set_st(x);
                        Ok(false)
                    },
                    Instruction::AddI { x } => {
                        match self.add_ireg_reg(x) {
                            Ok(_) => Ok(false),
                            Err(e) => Err(e),
                        }
                    },
                    Instruction::LoadFont { x } => {
                        self.set_ireg_font(x);
                        Ok(false)
                    },
                    Instruction::StoreBcd { x } => {
                        match self.store_bcd_reg(x) {
                            Ok(_) => Ok(false),
                            Err(e) => Err(e),
                        }
                    },
                    Instruction::StoreRegs { x } => {
                        match self.store_regs(x) {
                            Ok(_) => Ok(false),
                            Err(e) => Err(e),
                        }
                    },
                    Instruction::ReadRegs { x } => {
                        match self.read_regs(x) {
                            Ok(_) => Ok(false),
                            Err(e) => Err(e),
                        }
                    },
                }
            },
        }
    }

    /// One whole engine cycle: decay the timers if 1/60 s has elapsed;
    /// then, if suspended on wait-for-key, consume an incoming edge (or
    /// stay suspended); otherwise fetch, decode and execute one
    /// instruction. On success the returned flag says whether the frame
    /// buffer was mutated; an `Err` is fatal, and leaves everything but
    /// the timers unchanged.
    pub fn run_cycle(&mut self, now: u64, key: Option<u8>) -> (r: Result<
        bool,
        VmError,
    >)
        requires
            old(self).wf(),
            now >= old(self)@.last_tick,
        ensures
            final(self).wf(),
            (r matches Ok(d) ==> d == cycle_redraws(old(self)@, now)),
            !cycle_is_random(old(self)@, now) ==> cycle_matches(
                old(self)@,
                now,
                key,
                0,
                r,
                final(self)@,
            ),
            cycle_is_random(old(self)@, now) ==> exists|b: u8|
                cycle_matches(old(self)@, now, key, b, r, final(self)@),
    {
        self.tick_timers(now);
        let ghost t = self@;
        match self.waiting {
            Some(x) => {
                match key {
                    Some(k) => {
                        self.v[x as usize] = k;
                        self.waiting = None;
                        self.pc = self.pc + 2;
                    },
                    None => {},
                }
                proof {
                    assert(cycle_matches(old(self)@, now, key, 0, Ok(false), self@));
                }
                Ok(false)
            },
            None => {
                let word = match self.fetch() {
                    Ok(w) => w,
                    Err(e) => {
                        return Err(e);
                    },
                };
                let r = self.run_instruction(word as usize, key);
                proof {
                    if cycle_is_random(old(self)@, now) {
                        let instr = decode_spec(word).unwrap();
                        let b = choose|b: u8|
                            step_matches(t, instr, key, b, r, self@);
                        assert(cycle_matches(old(self)@, now, key, b, r, self@));
                    }
                }
                r
            },
        }
    }
}

} // verus!
