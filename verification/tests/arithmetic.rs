use chip_bert::{Emulator, EmulatorError, Instruction};

fn machine() -> Emulator {
    Emulator::new(Vec::new().into_boxed_slice()).unwrap()
}

fn with_regs(values: &[(u8, u8)]) -> Emulator {
    let mut e = machine();
    for &(x, value) in values {
        assert_eq!(e.execute(Instruction::LoadImm { x, kk: value }, 0), Ok(()));
    }
    e
}

#[test]
fn load_immediate_sets_the_register_and_moves_on() {
    let mut e = machine();
    assert_eq!(e.execute(Instruction::LoadImm { x: 4, kk: 0x9C }, 0), Ok(()));
    assert_eq!(e.register(4), 0x9C);
    assert_eq!(e.pc(), 0x202);
}

#[test]
fn add_immediate_wraps_and_leaves_the_flag_alone() {
    let mut e = with_regs(&[(0, 250), (0xF, 0x5A)]);
    assert_eq!(e.execute(Instruction::AddImm { x: 0, kk: 10 }, 0), Ok(()));
    assert_eq!(e.register(0), 4);
    assert_eq!(e.register(0xF), 0x5A);
    assert_eq!(e.execute(Instruction::AddImm { x: 0, kk: 252 }, 0), Ok(()));
    assert_eq!(e.register(0), 0);
    assert_eq!(e.register(0xF), 0x5A);
}

#[test]
fn add_immediate_wraps_for_all_bytes() {
    for old in [0u8, 1, 127, 128, 200, 255] {
        for kk in [0u8, 1, 55, 56, 128, 255] {
            let mut e = with_regs(&[(7, old), (0xF, 9)]);
            assert_eq!(e.execute(Instruction::AddImm { x: 7, kk }, 0), Ok(()));
            assert_eq!(e.register(7) as u32, (old as u32 + kk as u32) % 256);
            assert_eq!(e.register(0xF), 9);
        }
    }
}

#[test]
fn add_immediate_on_the_flag_register_wraps_too() {
    let mut e = with_regs(&[(0xF, 0xFF)]);
    assert_eq!(e.execute(Instruction::AddImm { x: 0xF, kk: 2 }, 0), Ok(()));
    assert_eq!(e.register(0xF), 1);
}

#[test]
fn move_or_and_xor() {
    let mut e = with_regs(&[(1, 0b1100_1010), (2, 0b1010_0110), (0xF, 3)]);
    assert_eq!(e.execute(Instruction::Move { x: 3, y: 1 }, 0), Ok(()));
    assert_eq!(e.register(3), 0b1100_1010);
    assert_eq!(e.execute(Instruction::Or { x: 3, y: 2 }, 0), Ok(()));
    assert_eq!(e.register(3), 0b1110_1110);
    assert_eq!(e.execute(Instruction::Move { x: 4, y: 1 }, 0), Ok(()));
    assert_eq!(e.execute(Instruction::And { x: 4, y: 2 }, 0), Ok(()));
    assert_eq!(e.register(4), 0b1000_0010);
    assert_eq!(e.execute(Instruction::Move { x: 5, y: 1 }, 0), Ok(()));
    assert_eq!(e.execute(Instruction::Xor { x: 5, y: 2 }, 0), Ok(()));
    assert_eq!(e.register(5), 0b0110_1100);
    assert_eq!(e.register(0xF), 3);
    assert_eq!(e.pc(), 0x200 + 2 * 9);
}

#[test]
fn add_sets_carry_exactly_when_the_sum_exceeds_a_byte() {
    let mut e = with_regs(&[(1, 200), (2, 100), (0xF, 7)]);
    assert_eq!(e.execute(Instruction::AddReg { x: 1, y: 2 }, 0), Ok(()));
    assert_eq!(e.register(1), 44);
    assert_eq!(e.register(0xF), 1);

    let mut e = with_regs(&[(1, 200), (2, 55), (0xF, 7)]);
    assert_eq!(e.execute(Instruction::AddReg { x: 1, y: 2 }, 0), Ok(()));
    assert_eq!(e.register(1), 255);
    assert_eq!(e.register(0xF), 0);

    let mut e = with_regs(&[(1, 200), (2, 56)]);
    assert_eq!(e.execute(Instruction::AddReg { x: 1, y: 2 }, 0), Ok(()));
    assert_eq!(e.register(1), 0);
    assert_eq!(e.register(0xF), 1);
}

#[test]
fn sub_sets_the_flag_exactly_when_there_is_no_borrow() {
    let mut e = with_regs(&[(1, 10), (2, 3)]);
    assert_eq!(e.execute(Instruction::SubReg { x: 1, y: 2 }, 0), Ok(()));
    assert_eq!(e.register(1), 7);
    assert_eq!(e.register(0xF), 1);

    let mut e = with_regs(&[(1, 3), (2, 10), (0xF, 1)]);
    assert_eq!(e.execute(Instruction::SubReg { x: 1, y: 2 }, 0), Ok(()));
    assert_eq!(e.register(1), 249);
    assert_eq!(e.register(0xF), 0);

    let mut e = with_regs(&[(1, 10), (2, 10)]);
    assert_eq!(e.execute(Instruction::SubReg { x: 1, y: 2 }, 0), Ok(()));
    assert_eq!(e.register(1), 0);
    assert_eq!(e.register(0xF), 1);
}

#[test]
fn reversed_sub_sets_the_flag_exactly_when_vy_is_not_smaller() {
    let mut e = with_regs(&[(1, 3), (2, 10)]);
    assert_eq!(e.execute(Instruction::SubReversed { x: 1, y: 2 }, 0), Ok(()));
    assert_eq!(e.register(1), 7);
    assert_eq!(e.register(2), 10);
    assert_eq!(e.register(0xF), 1);

    let mut e = with_regs(&[(1, 10), (2, 3), (0xF, 1)]);
    assert_eq!(e.execute(Instruction::SubReversed { x: 1, y: 2 }, 0), Ok(()));
    assert_eq!(e.register(1), 249);
    assert_eq!(e.register(0xF), 0);

    let mut e = with_regs(&[(1, 10), (2, 10)]);
    assert_eq!(e.execute(Instruction::SubReversed { x: 1, y: 2 }, 0), Ok(()));
    assert_eq!(e.register(1), 0);
    assert_eq!(e.register(0xF), 1);
}

#[test]
fn the_flag_wins_when_the_flag_register_is_the_target() {
    // VF = 200 + 100 would be 44, but the carry is written last
    let mut e = with_regs(&[(0xF, 200), (2, 100)]);
    assert_eq!(e.execute(Instruction::AddReg { x: 0xF, y: 2 }, 0), Ok(()));
    assert_eq!(e.register(0xF), 1);

    let mut e = with_regs(&[(0xF, 5), (2, 9)]);
    assert_eq!(e.execute(Instruction::SubReg { x: 0xF, y: 2 }, 0), Ok(()));
    assert_eq!(e.register(0xF), 0);

    let mut e = with_regs(&[(0xF, 5), (2, 9)]);
    assert_eq!(e.execute(Instruction::SubReversed { x: 0xF, y: 2 }, 0), Ok(()));
    assert_eq!(e.register(0xF), 1);
}

#[test]
fn the_operands_are_read_before_the_flag_is_written() {
    // Vy is VF: the old VF is the operand
    let mut e = with_regs(&[(1, 250), (0xF, 10)]);
    assert_eq!(e.execute(Instruction::AddReg { x: 1, y: 0xF }, 0), Ok(()));
    assert_eq!(e.register(1), 4);
    assert_eq!(e.register(0xF), 1);

    let mut e = with_regs(&[(1, 3), (0xF, 10)]);
    assert_eq!(e.execute(Instruction::SubReg { x: 1, y: 0xF }, 0), Ok(()));
    assert_eq!(e.register(1), 249);
    assert_eq!(e.register(0xF), 0);
}

#[test]
fn shift_right_puts_the_low_bit_into_the_flag() {
    let mut e = with_regs(&[(3, 0b1010_0101), (0xF, 0)]);
    assert_eq!(e.execute(Instruction::ShiftRight { x: 3 }, 0), Ok(()));
    assert_eq!(e.register(3), 0b0101_0010);
    assert_eq!(e.register(0xF), 1);

    let mut e = with_regs(&[(3, 0b1010_0100), (0xF, 1)]);
    assert_eq!(e.execute(Instruction::ShiftRight { x: 3 }, 0), Ok(()));
    assert_eq!(e.register(3), 0b0101_0010);
    assert_eq!(e.register(0xF), 0);
}

#[test]
fn shift_left_puts_the_high_bit_into_the_flag() {
    let mut e = with_regs(&[(3, 0b1010_0101), (0xF, 0)]);
    assert_eq!(e.execute(Instruction::ShiftLeft { x: 3 }, 0), Ok(()));
    assert_eq!(e.register(3), 0b0100_1010);
    assert_eq!(e.register(0xF), 1);

    let mut e = with_regs(&[(3, 0b0110_0101), (0xF, 1)]);
    assert_eq!(e.execute(Instruction::ShiftLeft { x: 3 }, 0), Ok(()));
    assert_eq!(e.register(3), 0b1100_1010);
    assert_eq!(e.register(0xF), 0);
}

#[test]
fn shifts_of_the_flag_register_leave_the_bit_that_fell_out() {
    let mut e = with_regs(&[(0xF, 0b0000_0111)]);
    assert_eq!(e.execute(Instruction::ShiftRight { x: 0xF }, 0), Ok(()));
    assert_eq!(e.register(0xF), 1);

    let mut e = with_regs(&[(0xF, 0b0000_0110)]);
    assert_eq!(e.execute(Instruction::ShiftRight { x: 0xF }, 0), Ok(()));
    assert_eq!(e.register(0xF), 0);

    let mut e = with_regs(&[(0xF, 0b1000_0001)]);
    assert_eq!(e.execute(Instruction::ShiftLeft { x: 0xF }, 0), Ok(()));
    assert_eq!(e.register(0xF), 1);

    let mut e = with_regs(&[(0xF, 0b0100_0001)]);
    assert_eq!(e.execute(Instruction::ShiftLeft { x: 0xF }, 0), Ok(()));
    assert_eq!(e.register(0xF), 0);
}

#[test]
fn random_masks_the_given_byte() {
    let mut e = machine();
    assert_eq!(e.execute(Instruction::Random { x: 2, kk: 0x0F }, 0xA7), Ok(()));
    assert_eq!(e.register(2), 0x07);
    assert_eq!(e.execute(Instruction::Random { x: 2, kk: 0xF0 }, 0xA7), Ok(()));
    assert_eq!(e.register(2), 0xA0);
    assert_eq!(e.execute(Instruction::Random { x: 2, kk: 0x00 }, 0xFF), Ok(()));
    assert_eq!(e.register(2), 0);
    assert_eq!(e.pc(), 0x206);
}

#[test]
fn run_draws_a_random_byte_and_masks_it() {
    // C30F, C400, then a jump back to the start
    let rom = vec![0xC3, 0x0F, 0xC4, 0x00, 0x12, 0x00];
    let mut e = Emulator::new(rom.into_boxed_slice()).unwrap();
    for _ in 0..50 {
        assert_eq!(e.run(None), Ok(()));
        assert!(e.register(3) <= 0x0F);
        assert_eq!(e.run(None), Ok(()));
        assert_eq!(e.register(4), 0);
        assert_eq!(e.run(None), Ok(()));
        assert_eq!(e.pc(), 0x200);
    }
}

#[test]
fn run_of_other_instructions_is_the_step() {
    // 6A97, 7AF0, 8AA4
    let rom = vec![0x6A, 0x97, 0x7A, 0xF0, 0x8A, 0xA4];
    let mut ran = Emulator::new(rom.clone().into_boxed_slice()).unwrap();
    let mut stepped = Emulator::new(rom.into_boxed_slice()).unwrap();
    for _ in 0..3 {
        assert_eq!(ran.run(None), stepped.step(None, 0x5C));
        for x in 0..16u8 {
            assert_eq!(ran.register(x), stepped.register(x));
        }
        assert_eq!(ran.pc(), stepped.pc());
    }
    assert_eq!(ran.register(0xA), 0x0E);
    assert_eq!(ran.register(0xF), 1);
}

#[test]
fn an_instruction_with_a_bad_register_is_refused_and_changes_nothing() {
    let mut e = with_regs(&[(1, 5)]);
    let pc = e.pc();
    assert_eq!(
        e.execute(Instruction::LoadImm { x: 16, kk: 1 }, 0),
        Err(EmulatorError::InvalidInstruction)
    );
    assert_eq!(
        e.execute(Instruction::AddReg { x: 1, y: 200 }, 0),
        Err(EmulatorError::InvalidInstruction)
    );
    assert_eq!(e.register(1), 5);
    assert_eq!(e.pc(), pc);
}
