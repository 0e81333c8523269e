//! Whole-cycle behavior: startup layout, drawing, timers, the wait-for-key
//! suspension, and the end-to-end example program.

use chip_8::error::VmError;
use chip_8::state::Emulator;

#[test]
fn new_machine_layout() {
    let program = vec![0x12u8, 0x00];
    let e = Emulator::new(&program);
    // glyph table at the bottom of memory
    assert_eq!(e.memory[0], 0xF0);
    assert_eq!(e.memory[4], 0xF0);
    assert_eq!(e.memory[79], 0x80);
    assert_eq!(e.memory[80], 0);
    // program at 0x200, zeros beyond it
    assert_eq!(e.memory[0x200], 0x12);
    assert_eq!(e.memory[0x201], 0x00);
    assert_eq!(e.memory[0x202], 0);
    assert_eq!(e.memory[4095], 0);
    assert_eq!(e.pc, 0x200);
    assert_eq!(e.sp, 0);
    assert_eq!(e.ireg, 0);
    assert!(e.v.iter().all(|&r| r == 0));
    assert!(!e.tone_active());
    assert!(!e.is_waiting());
    for row in 0..32 {
        for col in 0..64 {
            assert!(!e.pixel(row, col));
        }
    }
}

#[test]
fn draw_toggles_pixels_and_reports_collision() {
    // one-byte sprite 0xFF stored as the program itself, at 0x200
    let mut e = Emulator::new(&vec![0xFFu8]);
    assert_eq!(e.run_instruction(0xA200, None), Ok(false));
    assert_eq!(e.run_instruction(0xD011, None), Ok(true));
    for col in 0..8 {
        assert!(e.pixel(0, col), "pixel (0, {}) must be on", col);
    }
    assert!(!e.pixel(0, 8));
    assert_eq!(e.v[15], 0, "first draw collides with nothing");
    // drawing the identical sprite again clears the pixels and sets VF
    assert_eq!(e.run_instruction(0xD011, None), Ok(true));
    for col in 0..8 {
        assert!(!e.pixel(0, col), "pixel (0, {}) must be off again", col);
    }
    assert_eq!(e.v[15], 1, "second draw collides");
}

#[test]
fn draw_wraps_columns_and_rows() {
    let mut e = Emulator::new(&vec![0xFFu8, 0xFF]);
    assert_eq!(e.run_instruction(0xA200, None), Ok(false));
    e.v[0] = 63;
    e.v[1] = 0;
    assert_eq!(e.run_instruction(0xD011, None), Ok(true));
    assert!(e.pixel(0, 63), "first sprite bit lands on column 63");
    assert!(e.pixel(0, 0), "second sprite bit wraps to column 0");
    assert!(e.pixel(0, 6));
    assert!(!e.pixel(0, 7));
    // rows wrap modulo 32 in the same way
    let mut e = Emulator::new(&vec![0xFFu8, 0xFF]);
    assert_eq!(e.run_instruction(0xA200, None), Ok(false));
    e.v[0] = 0;
    e.v[1] = 31;
    assert_eq!(e.run_instruction(0xD012, None), Ok(true));
    assert!(e.pixel(31, 0), "first byte lands on row 31");
    assert!(e.pixel(0, 0), "second byte wraps to row 0");
}

#[test]
fn clear_display_is_idempotent() {
    let mut e = Emulator::new(&vec![0xFFu8]);
    assert_eq!(e.run_instruction(0xA200, None), Ok(false));
    assert_eq!(e.run_instruction(0xD011, None), Ok(true));
    e.v[15] = 7;
    assert_eq!(e.run_instruction(0x00E0, None), Ok(true));
    assert_eq!(e.run_instruction(0x00E0, None), Ok(true));
    for col in 0..64 {
        assert!(!e.pixel(0, col));
    }
    assert_eq!(e.v[15], 7, "clear-display leaves the registers alone");
}

#[test]
fn draw_outside_address_space_is_fatal() {
    let mut e = Emulator::new(&Vec::new());
    e.ireg = 4095;
    assert_eq!(
        e.run_instruction(0xD012, None),
        Err(VmError::AddressOutOfRange { pc: 0x200, addr: 4096 })
    );
}

#[test]
fn fetch_outside_address_space_is_fatal() {
    let mut e = Emulator::new(&Vec::new());
    e.pc = 4095;
    assert_eq!(
        e.run_cycle(0, None),
        Err(VmError::AddressOutOfRange { pc: 4095, addr: 4096 })
    );
}

#[test]
fn example_program_three_cycles() {
    // load V[A] with 5, add 1 to it, then point I at 0x210
    let program = vec![0x6Au8, 0x05, 0x7A, 0x01, 0xA2, 0x10];
    let mut e = Emulator::new(&program);
    for _ in 0..3 {
        assert_eq!(e.run_cycle(0, None), Ok(false));
    }
    assert_eq!(e.v[0xA], 6);
    assert_eq!(e.ireg, 0x210);
    assert_eq!(e.pc, 0x206);
}

#[test]
fn timers_decay_only_after_interval() {
    // the program spins on a jump-to-self so cycles can run freely
    let mut e = Emulator::new(&vec![0x12u8, 0x00]);
    e.delay_timer = 3;
    e.sound_timer = 1;
    // polls faster than 1/60 s never decrement
    assert_eq!(e.run_cycle(0, None), Ok(false));
    assert_eq!(e.run_cycle(10_000, None), Ok(false));
    assert_eq!(e.run_cycle(16_665, None), Ok(false));
    assert_eq!(e.delay_timer, 3);
    assert_eq!(e.sound_timer, 1);
    assert!(e.tone_active());
    // one decay once the interval has elapsed
    assert_eq!(e.run_cycle(16_666, None), Ok(false));
    assert_eq!(e.delay_timer, 2);
    assert_eq!(e.sound_timer, 0);
    assert!(!e.tone_active(), "tone stops when the sound timer hits zero");
    // immediately polling again does not decay a second time
    assert_eq!(e.run_cycle(16_700, None), Ok(false));
    assert_eq!(e.delay_timer, 2);
    // a timer at zero stays at zero
    assert_eq!(e.run_cycle(40_000, None), Ok(false));
    assert_eq!(e.delay_timer, 1);
    assert_eq!(e.sound_timer, 0);
}

#[test]
fn wait_key_suspends_until_an_edge_arrives() {
    let mut e = Emulator::new(&vec![0xF1u8, 0x0A, 0x12, 0x02]);
    assert_eq!(e.run_cycle(0, None), Ok(false));
    assert!(e.is_waiting());
    assert_eq!(e.pc, 0x200, "the engine stays on the wait instruction");
    // timers keep decaying while suspended
    e.delay_timer = 5;
    assert_eq!(e.run_cycle(20_000, None), Ok(false));
    assert!(e.is_waiting());
    assert_eq!(e.delay_timer, 4);
    // the first edge resumes execution
    assert_eq!(e.run_cycle(20_001, Some(0xC)), Ok(false));
    assert!(!e.is_waiting());
    assert_eq!(e.v[1], 0xC);
    assert_eq!(e.pc, 0x202);
}

#[test]
fn wait_key_consumes_an_edge_arriving_on_the_same_cycle() {
    let mut e = Emulator::new(&vec![0xF1u8, 0x0A]);
    assert_eq!(e.run_cycle(0, Some(3)), Ok(false));
    assert!(!e.is_waiting());
    assert_eq!(e.v[1], 3);
    assert_eq!(e.pc, 0x202);
}

#[test]
fn unknown_instruction_halts_the_cycle() {
    let mut e = Emulator::new(&vec![0x80u8, 0x09]);
    assert_eq!(
        e.run_cycle(0, None),
        Err(VmError::UnknownInstruction { pc: 0x200, word: 0x8009 })
    );
}
