//! The machine state: memory, registers, call stack, timers, frame buffer.
//!
//! The whole state lives in one exclusively owned [`Emulator`] value; its
//! mathematical model is the ghost struct [`VmView`], over which every
//! contract in the crate is stated.

use vstd::prelude::*;

verus! {

/// Number of addressable memory cells.
pub const MEM_SIZE: usize = 4096;

/// First address of the loaded program, and the initial program counter.
pub const PROG_START: usize = 0x200;

/// Columns of the frame buffer.
pub const DISP_COLS: usize = 64;

/// Rows of the frame buffer.
pub const DISP_ROWS: usize = 32;

/// Cells of the frame buffer, stored row-major.
pub const DISP_LEN: usize = 2048;

/// Microseconds between timer decays: the timers run at 60 Hz.
pub const TICK_MICROS: u64 = 16666;

/// The mathematical model of the machine state.
///
/// `disp` is row-major: the pixel at `(row, col)` is `disp[row * 64 + col]`.
/// `stack` keeps return addresses in slots `1..=sp`; `sp == 0` means empty.
/// `waiting` is `Some(x)` while the engine is suspended on a wait-for-key
/// instruction that will store the incoming nibble in `V[x]`.
/// `last_tick` is the clock reading (in microseconds) of the last timer
/// decay.
#[verifier::ext_equal]
pub ghost struct VmView {
    pub mem: Seq<u8>,
    pub v: Seq<u8>,
    pub ireg: usize,
    pub dt: u8,
    pub st: u8,
    pub pc: usize,
    pub sp: usize,
    pub stack: Seq<usize>,
    pub disp: Seq<bool>,
    pub waiting: Option<u8>,
    pub last_tick: u64,
}

impl VmView {
    /// Well-formedness: the sizes are fixed, the stack pointer and every
    /// stored return address are in range, the index register addresses
    /// memory, and the program counter stays below twice the memory size
    /// (it can overshoot the address space by a skip, which the next fetch
    /// reports as fatal).
    pub open spec fn wf(self) -> bool {
        &&& self.mem.len() == MEM_SIZE
        &&& self.v.len() == 16
        &&& self.stack.len() == 16
        &&& self.disp.len() == DISP_LEN
        &&& self.pc < 8192
        &&& self.sp < 16
        &&& self.ireg < MEM_SIZE
        &&& (forall|i: int| 0 <= i < 16 ==> self.stack[i] < 4096)
        &&& (self.waiting matches Some(x) ==> x < 16 && self.pc + 1 < 4096)
    }
}

/// The CHIP-8 machine: 4096 bytes of memory, sixteen 8-bit registers
/// V0..VF, the index register I, the two timers, the program counter, the
/// call stack, the 64x32 frame buffer, and the wait-for-key suspension
/// state.
pub struct Emulator {
    pub memory: Vec<u8>,
    pub v: Vec<u8>,
    pub ireg: usize,
    pub sound_timer: u8,
    pub delay_timer: u8,
    pub pc: usize,
    pub sp: usize,
    pub stack: Vec<usize>,
    pub display: Vec<bool>,
    pub waiting: Option<u8>,
    pub last_tick: u64,
}

impl View for Emulator {
    type V = VmView;

    open spec fn view(&self) -> VmView {
        VmView {
            mem: self.memory@,
            v: self.v@,
            ireg: self.ireg,
            dt: self.delay_timer,
            st: self.sound_timer,
            pc: self.pc,
            sp: self.sp,
            stack: self.stack@,
            disp: self.display@,
            waiting: self.waiting,
            last_tick: self.last_tick,
        }
    }
}

/// The sixteen built-in glyph sprites, five bytes per hexadecimal digit,
/// preloaded at address 0.
pub open spec fn font_seq() -> Seq<u8> {
    seq![
        0xF0u8, 0x90, 0x90, 0x90, 0xF0, // 0
        0x20, 0x60, 0x20, 0x20, 0x70, // 1
        0xF0, 0x10, 0xF0, 0x80, 0xF0, // 2
        0xF0, 0x10, 0xF0, 0x10, 0xF0, // 3
        0x90, 0x90, 0xF0, 0x10, 0x10, // 4
        0xF0, 0x80, 0xF0, 0x10, 0xF0, // 5
        0xF0, 0x80, 0xF0, 0x90, 0xF0, // 6
        0xF0, 0x10, 0x20, 0x40, 0x40, // 7
        0xF0, 0x90, 0xF0, 0x90, 0xF0, // 8
        0xF0, 0x90, 0xF0, 0x10, 0xF0, // 9
        0xF0, 0x90, 0xF0, 0x90, 0x90, // A
        0xE0, 0x90, 0xE0, 0x90, 0xE0, // B
        0xF0, 0x80, 0x80, 0x80, 0xF0, // C
        0xE0, 0x90, 0x90, 0x90, 0xE0, // D
        0xF0, 0x80, 0xF0, 0x80, 0xF0, // E
        0xF0, 0x80, 0xF0, 0x80, 0x80, // F
    ]
}

/// Build the glyph table as a byte vector.
fn font_bytes() -> (r: Vec<u8>)
    ensures
        r@ == font_seq(),
        r@.len() == 80,
{
    let mut f: Vec<u8> = Vec::new();
    f.push(0xF0); f.push(0x90); f.push(0x90); f.push(0x90); f.push(0xF0);
    f.push(0x20); f.push(0x60); f.push(0x20); f.push(0x20); f.push(0x70);
    f.push(0xF0); f.push(0x10); f.push(0xF0); f.push(0x80); f.push(0xF0);
    f.push(0xF0); f.push(0x10); f.push(0xF0); f.push(0x10); f.push(0xF0);
    f.push(0x90); f.push(0x90); f.push(0xF0); f.push(0x10); f.push(0x10);
    f.push(0xF0); f.push(0x80); f.push(0xF0); f.push(0x10); f.push(0xF0);
    f.push(0xF0); f.push(0x80); f.push(0xF0); f.push(0x90); f.push(0xF0);
    f.push(0xF0); f.push(0x10); f.push(0x20); f.push(0x40); f.push(0x40);
    f.push(0xF0); f.push(0x90); f.push(0xF0); f.push(0x90); f.push(0xF0);
    f.push(0xF0); f.push(0x90); f.push(0xF0); f.push(0x10); f.push(0xF0);
    f.push(0xF0); f.push(0x90); f.push(0xF0); f.push(0x90); f.push(0x90);
    f.push(0xE0); f.push(0x90); f.push(0xE0); f.push(0x90); f.push(0xE0);
    f.push(0xF0); f.push(0x80); f.push(0x80); f.push(0x80); f.push(0xF0);
    f.push(0xE0); f.push(0x90); f.push(0x90); f.push(0x90); f.push(0xE0);
    f.push(0xF0); f.push(0x80); f.push(0xF0); f.push(0x80); f.push(0xF0);
    f.push(0xF0); f.push(0x80); f.push(0xF0); f.push(0x80); f.push(0x80);
    proof {
        assert(f@ =~= font_seq());
    }
    f
}

impl Emulator {
    /// Exec-visible well-formedness of the machine state.
    pub open spec fn wf(&self) -> bool {
        self@.wf()
    }

    /// Create a machine with `program` loaded at 0x200, the glyph table at
    /// 0..80, every other memory cell zero, all registers, timers and the
    /// stack cleared, the frame buffer blank, and PC at 0x200.
    pub fn new(program: &Vec<u8>) -> (r: Emulator)
        requires
            program@.len() <= 4096 - 0x200,
        ensures
            r.wf(),
            r@.mem.len() == 4096,
            forall|i: int| 0 <= i < 80 ==> r@.mem[i] == font_seq()[i],
            forall|i: int| 80 <= i < 0x200 ==> r@.mem[i] == 0,
            forall|i: int|
                0 <= i < program@.len() ==> r@.mem[0x200 + i] == program@[i],
            forall|i: int|
                0x200 + program@.len() <= i < 4096 ==> r@.mem[i] == 0,
            forall|i: int| 0 <= i < 16 ==> r@.v[i] == 0,
            forall|i: int| 0 <= i < 16 ==> r@.stack[i] == 0,
            forall|i: int| 0 <= i < 2048 ==> r@.disp[i] == false,
            r@.ireg == 0,
            r@.dt == 0,
            r@.st == 0,
            r@.pc == 0x200,
            r@.sp == 0,
            r@.waiting is None,
            r@.last_tick == 0,
    {
        let font = font_bytes();
        let mut memory: Vec<u8> = Vec::new();
        let mut i: usize = 0;
        while i < 80
            invariant
                i <= 80,
                font@ == font_seq(),
                memory@.len() == i,
                forall|j: int| 0 <= j < i ==> memory@[j] == font_seq()[j],
            decreases 80 - i,
        {
            memory.push(font[i]);
            i = i + 1;
        }
        while memory.len() < 0x200
            invariant
                80 <= memory@.len() <= 0x200,
                forall|j: int| 0 <= j < 80 ==> memory@[j] == font_seq()[j],
                forall|j: int| 80 <= j < memory@.len() ==> memory@[j] == 0,
            decreases 0x200 - memory@.len(),
        {
            memory.push(0);
        }
        let mut i: usize = 0;
        while i < program.len()
            invariant
                i <= program@.len(),
                program@.len() <= 4096 - 0x200,
                memory@.len() == 0x200 + i,
                forall|j: int| 0 <= j < 80 ==> memory@[j] == font_seq()[j],
                forall|j: int| 80 <= j < 0x200 ==> memory@[j] == 0,
                forall|j: int| 0 <= j < i ==> memory@[0x200 + j] == program@[j],
            decreases program@.len() - i,
        {
            memory.push(program[i]);
            i = i + 1;
        }
        while memory.len() < 4096
            invariant
                0x200 + program@.len() <= memory@.len() <= 4096,
                forall|j: int| 0 <= j < 80 ==> memory@[j] == font_seq()[j],
                forall|j: int| 80 <= j < 0x200 ==> memory@[j] == 0,
                forall|j: int|
                    0 <= j < program@.len() ==> memory@[0x200 + j] == program@[j],
                forall|j: int|
                    0x200 + program@.len() <= j < memory@.len() ==> memory@[j] == 0,
            decreases 4096 - memory@.len(),
        {
            memory.push(0);
        }
        let mut v: Vec<u8> = Vec::new();
        while v.len() < 16
            invariant
                v@.len() <= 16,
                forall|j: int| 0 <= j < v@.len() ==> v@[j] == 0,
            decreases 16 - v@.len(),
        {
            v.push(0);
        }
        let mut stack: Vec<usize> = Vec::new();
        while stack.len() < 16
            invariant
                stack@.len() <= 16,
                forall|j: int| 0 <= j < stack@.len() ==> stack@[j] == 0,
            decreases 16 - stack@.len(),
        {
            stack.push(0);
        }
        let display = blank_display();
        Emulator {
            memory,
            v,
            ireg: 0,
            sound_timer: 0,
            delay_timer: 0,
            pc: 0x200,
            sp: 0,
            stack,
            display,
            waiting: None,
            last_tick: 0,
        }
    }

    /// The audio-facing surface: true while the sound timer is running, so
    /// the tone should play.
    pub fn tone_active(&self) -> (r: bool)
        ensures
            r == (self@.st > 0),
    {
        self.sound_timer > 0
    }

    /// Read one pixel of the frame buffer, for the rendering collaborator.
    pub fn pixel(&self, row: usize, col: usize) -> (r: bool)
        requires
            self.wf(),
            row < DISP_ROWS,
            col < DISP_COLS,
        ensures
            r == self@.disp[row * 64 + col],
    {
        self.display[row * 64 + col]
    }

    /// True while the engine is suspended waiting for a key edge.
    pub fn is_waiting(&self) -> (r: bool)
        ensures
            r == (self@.waiting is Some),
    {
        self.waiting.is_some()
    }
}

/// A frame buffer with every pixel off.
pub fn blank_display() -> (r: Vec<bool>)
    ensures
        r@.len() == 2048,
        forall|i: int| 0 <= i < 2048 ==> r@[i] == false,
{
    let mut d: Vec<bool> = Vec::new();
    while d.len() < 2048
        invariant
            d@.len() <= 2048,
            forall|i: int| 0 <= i < d@.len() ==> d@[i] == false,
        decreases 2048 - d@.len(),
    {
        d.push(false);
    }
    d
}

} // verus!
