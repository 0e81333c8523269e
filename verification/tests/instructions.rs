//! Behavior of individual instructions, driven through the public
//! dispatcher.

use chip_8::decode::{decode, Instruction};
use chip_8::error::VmError;
use chip_8::state::Emulator;

fn machine() -> Emulator {
    Emulator::new(&Vec::new())
}

#[test]
fn decode_classifies_known_words() {
    assert_eq!(decode(0x00E0), Some(Instruction::ClearDisplay));
    assert_eq!(decode(0x00EE), Some(Instruction::Return));
    assert_eq!(decode(0x1ABC), Some(Instruction::Jump { nnn: 0xABC }));
    assert_eq!(decode(0x2ABC), Some(Instruction::Call { nnn: 0xABC }));
    assert_eq!(decode(0x3A12), Some(Instruction::SkipEqByte { x: 0xA, nn: 0x12 }));
    assert_eq!(decode(0x8AB4), Some(Instruction::AddReg { x: 0xA, y: 0xB }));
    assert_eq!(decode(0x8AB6), Some(Instruction::ShiftRight { x: 0xA }));
    assert_eq!(decode(0x8ABE), Some(Instruction::ShiftLeft { x: 0xA }));
    assert_eq!(decode(0xA210), Some(Instruction::LoadI { nnn: 0x210 }));
    assert_eq!(decode(0xC3F0), Some(Instruction::Random { x: 3, nn: 0xF0 }));
    assert_eq!(decode(0xD125), Some(Instruction::Draw { x: 1, y: 2, n: 5 }));
    assert_eq!(decode(0xE59E), Some(Instruction::SkipKeyPressed { x: 5 }));
    assert_eq!(decode(0xE5A1), Some(Instruction::SkipKeyNotPressed { x: 5 }));
    assert_eq!(decode(0xF50A), Some(Instruction::WaitKey { x: 5 }));
    assert_eq!(decode(0xF533), Some(Instruction::StoreBcd { x: 5 }));
    assert_eq!(decode(0xF565), Some(Instruction::ReadRegs { x: 5 }));
}

#[test]
fn decode_rejects_unknown_words() {
    assert_eq!(decode(0x0000), None);
    assert_eq!(decode(0x00EF), None);
    assert_eq!(decode(0x8008), None);
    assert_eq!(decode(0x800F), None);
    assert_eq!(decode(0xE000), None);
    assert_eq!(decode(0xE59F), None);
    assert_eq!(decode(0xF500), None);
    assert_eq!(decode(0xFFFF), None);
}

#[test]
fn add_reg_sets_carry_iff_sum_overflows() {
    // 200 + 100 = 300 > 255: result 44, VF = 1
    let mut e = machine();
    e.v[1] = 200;
    e.v[2] = 100;
    assert_eq!(e.run_instruction(0x8124, None), Ok(false));
    assert_eq!(e.v[1], 44);
    assert_eq!(e.v[15], 1);
    // 20 + 30 = 50: no carry, VF = 0 even if it was 1 before
    let mut e = machine();
    e.v[1] = 20;
    e.v[2] = 30;
    e.v[15] = 1;
    assert_eq!(e.run_instruction(0x8124, None), Ok(false));
    assert_eq!(e.v[1], 50);
    assert_eq!(e.v[15], 0);
}

#[test]
fn add_byte_wraps_and_leaves_flag_alone() {
    let mut e = machine();
    e.v[1] = 250;
    e.v[15] = 7;
    assert_eq!(e.run_instruction(0x710A, None), Ok(false));
    assert_eq!(e.v[1], 4);
    assert_eq!(e.v[15], 7);
}

#[test]
fn sub_reg_sets_no_borrow_flag() {
    // 50 - 20: VF = 1, result 30
    let mut e = machine();
    e.v[3] = 50;
    e.v[4] = 20;
    assert_eq!(e.run_instruction(0x8345, None), Ok(false));
    assert_eq!(e.v[3], 30);
    assert_eq!(e.v[15], 1);
    // 20 - 50: VF = 0, result wraps to 226
    let mut e = machine();
    e.v[3] = 20;
    e.v[4] = 50;
    assert_eq!(e.run_instruction(0x8345, None), Ok(false));
    assert_eq!(e.v[3], 226);
    assert_eq!(e.v[15], 0);
    // equal operands count as no borrow
    let mut e = machine();
    e.v[3] = 9;
    e.v[4] = 9;
    assert_eq!(e.run_instruction(0x8345, None), Ok(false));
    assert_eq!(e.v[3], 0);
    assert_eq!(e.v[15], 1);
}

#[test]
fn subn_uses_swapped_operands() {
    // V[y] - V[x] = 50 - 20: VF = 1, result 30
    let mut e = machine();
    e.v[3] = 20;
    e.v[4] = 50;
    assert_eq!(e.run_instruction(0x8347, None), Ok(false));
    assert_eq!(e.v[3], 30);
    assert_eq!(e.v[15], 1);
}

#[test]
fn shift_right_reports_shifted_out_bit() {
    let mut e = machine();
    e.v[2] = 0b1010_0101;
    assert_eq!(e.run_instruction(0x8206, None), Ok(false));
    assert_eq!(e.v[2], 0b0101_0010);
    assert_eq!(e.v[15], 1);
    let mut e = machine();
    e.v[2] = 0b1010_0100;
    assert_eq!(e.run_instruction(0x8206, None), Ok(false));
    assert_eq!(e.v[2], 0b0101_0010);
    assert_eq!(e.v[15], 0);
}

#[test]
fn shift_left_reports_shifted_out_bit() {
    let mut e = machine();
    e.v[2] = 0b1010_0101;
    assert_eq!(e.run_instruction(0x820E, None), Ok(false));
    assert_eq!(e.v[2], 0b0100_1010);
    assert_eq!(e.v[15], 1);
    let mut e = machine();
    e.v[2] = 0b0010_0101;
    assert_eq!(e.run_instruction(0x820E, None), Ok(false));
    assert_eq!(e.v[2], 0b0100_1010);
    assert_eq!(e.v[15], 0);
}

#[test]
fn bitwise_ops() {
    let mut e = machine();
    e.v[1] = 0b1100;
    e.v[2] = 0b1010;
    assert_eq!(e.run_instruction(0x8121, None), Ok(false));
    assert_eq!(e.v[1], 0b1110);
    e.v[1] = 0b1100;
    assert_eq!(e.run_instruction(0x8122, None), Ok(false));
    assert_eq!(e.v[1], 0b1000);
    e.v[1] = 0b1100;
    assert_eq!(e.run_instruction(0x8123, None), Ok(false));
    assert_eq!(e.v[1], 0b0110);
}

#[test]
fn skips_advance_by_four_when_taken() {
    let mut e = machine();
    e.v[1] = 0x12;
    assert_eq!(e.run_instruction(0x3112, None), Ok(false));
    assert_eq!(e.pc, 0x204);
    let mut e = machine();
    e.v[1] = 0x13;
    assert_eq!(e.run_instruction(0x3112, None), Ok(false));
    assert_eq!(e.pc, 0x202);
    let mut e = machine();
    e.v[1] = 5;
    e.v[2] = 5;
    assert_eq!(e.run_instruction(0x5120, None), Ok(false));
    assert_eq!(e.pc, 0x204);
    assert_eq!(e.run_instruction(0x9120, None), Ok(false));
    assert_eq!(e.pc, 0x206);
}

#[test]
fn call_then_return_round_trip() {
    let mut e = machine();
    assert_eq!(e.run_instruction(0x2400, None), Ok(false));
    assert_eq!(e.pc, 0x400);
    assert_eq!(e.sp, 1);
    assert_eq!(e.stack[1], 0x200);
    assert_eq!(e.run_instruction(0x00EE, None), Ok(false));
    assert_eq!(e.pc, 0x202);
    assert_eq!(e.sp, 0);
}

#[test]
fn return_on_empty_stack_is_fatal() {
    let mut e = machine();
    assert_eq!(
        e.run_instruction(0x00EE, None),
        Err(VmError::StackUnderflow { pc: 0x200 })
    );
    assert_eq!(e.pc, 0x200);
}

#[test]
fn call_beyond_fifteen_frames_is_fatal() {
    let mut e = machine();
    for i in 0..15 {
        assert_eq!(e.run_instruction(0x2300, None), Ok(false), "call {}", i);
    }
    assert_eq!(e.sp, 15);
    assert_eq!(
        e.run_instruction(0x2300, None),
        Err(VmError::StackOverflow { pc: 0x300 })
    );
    assert_eq!(e.sp, 15);
}

#[test]
fn unknown_word_reports_pc_and_word() {
    let mut e = machine();
    assert_eq!(
        e.run_instruction(0x8009, None),
        Err(VmError::UnknownInstruction { pc: 0x200, word: 0x8009 })
    );
}

#[test]
fn load_and_jump_family() {
    let mut e = machine();
    assert_eq!(e.run_instruction(0x6A05, None), Ok(false));
    assert_eq!(e.v[0xA], 5);
    assert_eq!(e.run_instruction(0x8BA0, None), Ok(false));
    assert_eq!(e.v[0xB], 5);
    assert_eq!(e.run_instruction(0x1234, None), Ok(false));
    assert_eq!(e.pc, 0x234);
    e.v[0] = 0x10;
    assert_eq!(e.run_instruction(0xB234, None), Ok(false));
    assert_eq!(e.pc, 0x244);
}

#[test]
fn index_register_family() {
    let mut e = machine();
    assert_eq!(e.run_instruction(0xA123, None), Ok(false));
    assert_eq!(e.ireg, 0x123);
    e.v[7] = 0x10;
    assert_eq!(e.run_instruction(0xF71E, None), Ok(false));
    assert_eq!(e.ireg, 0x133);
    e.v[2] = 0xB;
    assert_eq!(e.run_instruction(0xF229, None), Ok(false));
    assert_eq!(e.ireg, 55);
}

#[test]
fn add_i_leaving_address_space_is_fatal() {
    let mut e = machine();
    e.ireg = 4000;
    e.v[0] = 200;
    assert_eq!(
        e.run_instruction(0xF01E, None),
        Err(VmError::AddressOutOfRange { pc: 0x200, addr: 4200 })
    );
    assert_eq!(e.ireg, 4000);
}

#[test]
fn store_bcd_writes_decimal_digits() {
    let mut e = machine();
    e.v[5] = 153;
    e.ireg = 0x300;
    assert_eq!(e.run_instruction(0xF533, None), Ok(false));
    assert_eq!(e.memory[0x300], 1);
    assert_eq!(e.memory[0x301], 5);
    assert_eq!(e.memory[0x302], 3);
    let mut e = machine();
    e.v[5] = 7;
    e.ireg = 0x300;
    assert_eq!(e.run_instruction(0xF533, None), Ok(false));
    assert_eq!(e.memory[0x300], 0);
    assert_eq!(e.memory[0x301], 0);
    assert_eq!(e.memory[0x302], 7);
}

#[test]
fn store_and_read_registers() {
    let mut e = machine();
    for i in 0..4 {
        e.v[i] = (10 + i) as u8;
    }
    e.ireg = 0x400;
    assert_eq!(e.run_instruction(0xF355, None), Ok(false));
    assert_eq!(e.memory[0x400], 10);
    assert_eq!(e.memory[0x401], 11);
    assert_eq!(e.memory[0x402], 12);
    assert_eq!(e.memory[0x403], 13);
    assert_eq!(e.memory[0x404], 0);

    let mut e = machine();
    e.memory[0x400] = 42;
    e.memory[0x401] = 43;
    e.ireg = 0x400;
    e.v[2] = 99;
    assert_eq!(e.run_instruction(0xF165, None), Ok(false));
    assert_eq!(e.v[0], 42);
    assert_eq!(e.v[1], 43);
    assert_eq!(e.v[2], 99);
}

#[test]
fn store_regs_past_end_of_memory_is_fatal() {
    let mut e = machine();
    e.ireg = 4094;
    assert_eq!(
        e.run_instruction(0xF355, None),
        Err(VmError::AddressOutOfRange { pc: 0x200, addr: 4097 })
    );
}

#[test]
fn timer_loads_and_tone_flag() {
    let mut e = machine();
    e.v[1] = 9;
    assert_eq!(e.run_instruction(0xF115, None), Ok(false));
    assert_eq!(e.delay_timer, 9);
    assert_eq!(e.run_instruction(0xF207, None), Ok(false));
    assert_eq!(e.v[2], 9);
    assert!(!e.tone_active());
    assert_eq!(e.run_instruction(0xF118, None), Ok(false));
    assert_eq!(e.sound_timer, 9);
    assert!(e.tone_active());
}

#[test]
fn random_respects_mask() {
    for _ in 0..32 {
        let mut e = machine();
        e.v[6] = 0xAA;
        assert_eq!(e.run_instruction(0xC60F, None), Ok(false));
        assert_eq!(e.v[6] & 0xF0, 0, "high nibble must be masked off");
    }
    let mut e = machine();
    e.v[6] = 0xAA;
    assert_eq!(e.run_instruction(0xC600, None), Ok(false));
    assert_eq!(e.v[6], 0, "mask 0 forces 0");
}

#[test]
fn skip_key_pressed_only_on_matching_edge() {
    let mut e = machine();
    e.v[1] = 7;
    assert_eq!(e.run_instruction(0xE19E, Some(7)), Ok(false));
    assert_eq!(e.pc, 0x204);
    let mut e = machine();
    e.v[1] = 7;
    assert_eq!(e.run_instruction(0xE19E, Some(3)), Ok(false));
    assert_eq!(e.pc, 0x202);
    let mut e = machine();
    e.v[1] = 7;
    assert_eq!(e.run_instruction(0xE19E, None), Ok(false));
    assert_eq!(e.pc, 0x202);
}

#[test]
fn skip_key_not_pressed_treats_no_edge_as_true() {
    let mut e = machine();
    e.v[1] = 7;
    assert_eq!(e.run_instruction(0xE1A1, None), Ok(false));
    assert_eq!(e.pc, 0x204);
    let mut e = machine();
    e.v[1] = 7;
    assert_eq!(e.run_instruction(0xE1A1, Some(7)), Ok(false));
    assert_eq!(e.pc, 0x202);
    let mut e = machine();
    e.v[1] = 7;
    assert_eq!(e.run_instruction(0xE1A1, Some(3)), Ok(false));
    assert_eq!(e.pc, 0x204);
}
