use chip8_core::emulator::opcode::OpCode;
use chip8_core::emulator::random::RandomByteSource;
use chip8_core::emulator::Emulator;

/// A source of bytes that hands out the same bytes in the same order every time.
struct Replay {
    bytes: Vec<u8>,
    next: usize,
}

impl RandomByteSource for Replay {
    fn next(&mut self) -> u8 {
        let byte = self.bytes[self.next % self.bytes.len()];
        self.next += 1;
        byte
    }
}

/// The native call is refused.
#[test]
#[should_panic]
fn command_execution_test_native_call() {
    let mut e = Emulator::default();
    e.execute_opcode(OpCode::_NativeCall { target: 0 }).unwrap()
}

/// ClearScreen needs a screen, which the core has not.
#[test]
#[should_panic]
fn command_execution_test_clear_screen() {
    let mut e = Emulator::default();
    e.execute_opcode(OpCode::ClearScreen).unwrap();
}

/// Execution of Return
#[test]
fn command_execution_test_return() {
    let mut e = Emulator::default();
    e.stack.push(5);
    assert_eq!(e.execute_opcode(OpCode::Return), Ok(()));
    assert_eq!(e.program_counter, 5);
}

/// Execution of Goto
#[test]
fn command_execution_test_goto() {
    let mut e = Emulator::default();
    assert_eq!(e.execute_opcode(OpCode::Goto { target: 4 }), Ok(()));
    assert_eq!(e.program_counter, 4);
}

/// Execution of Subroutine
#[test]
fn command_execution_test_subroutine() {
    let mut e = Emulator::default();
    assert_eq!(e.execute_opcode(OpCode::Subroutine { target: 4 }), Ok(()));
    assert_eq!(e.program_counter, 4);
    assert_eq!(e.execute_opcode(OpCode::Return), Ok(()));
    assert_eq!(e.program_counter, 0);
}

/// Execution of SkipNextIfRegEqualToConst
#[test]
fn command_execution_test_skip_reg_eq_const() {
    let mut e = Emulator::default();
    e.set_reg(0, 4);
    assert_eq!(
        e.execute_opcode(OpCode::SkipNextIfRegEqualToConst {
            register: 0,
            constant: 4,
        }),
        Ok(())
    );
    assert_eq!(e.program_counter, 2);
    assert_eq!(
        e.execute_opcode(OpCode::SkipNextIfRegEqualToConst {
            register: 0,
            constant: 0,
        }),
        Ok(())
    );
    assert_eq!(e.program_counter, 2);
}

/// Execution of SkipNextIfRegNotEqualToConst
#[test]
fn command_execution_test_skip_reg_neq_const() {
    let mut e = Emulator::default();
    e.set_reg(0, 4);
    assert_eq!(
        e.execute_opcode(OpCode::SkipNextIfRegNotEqualToConst {
            register: 0,
            constant: 0,
        }),
        Ok(())
    );
    assert_eq!(e.program_counter, 2);
    assert_eq!(
        e.execute_opcode(OpCode::SkipNextIfRegNotEqualToConst {
            register: 0,
            constant: 4,
        }),
        Ok(())
    );
    assert_eq!(e.program_counter, 2);
}

/// Execution of SkipNextIfRegEqualToReg
#[test]
fn command_execution_test_skip_reg_eq_reg() {
    let mut e = Emulator::default();
    e.set_reg(0, 3);
    e.set_reg(1, 3);
    assert_eq!(
        e.execute_opcode(OpCode::SkipNextIfRegEqualToReg {
            register_x: 0,
            register_y: 1,
        }),
        Ok(())
    );
    assert_eq!(e.program_counter, 2);
    e.set_reg(1, 2);
    assert_eq!(
        e.execute_opcode(OpCode::SkipNextIfRegEqualToReg {
            register_x: 0,
            register_y: 1,
        }),
        Ok(())
    );
    assert_eq!(e.program_counter, 2);
}

/// Execution of RegSetConst
#[test]
fn command_execution_test_reg_set_const() {
    let mut e = Emulator::default();
    assert_eq!(
        e.execute_opcode(OpCode::RegSetConst {
            register: 0,
            constant: 64,
        }),
        Ok(())
    );
    assert_eq!(e.get_reg(0), 64);
}

/// Execution of RegAddConst
#[test]
fn command_execution_test_reg_add_const() {
    let mut e = Emulator::default();
    e.set_reg(0, 1);
    assert_eq!(
        e.execute_opcode(OpCode::RegAddConst {
            register: 0,
            constant: 1,
        }),
        Ok(())
    );
    assert_eq!(e.get_reg(0), 2);
}

/// Execution of RegMov
#[test]
fn command_execution_test_reg_mov() {
    let mut e = Emulator::default();
    e.set_reg(0, 3);
    assert_eq!(
        e.execute_opcode(OpCode::RegMov {
            register_x: 1,
            register_y: 0,
        }),
        Ok(())
    );
    assert_eq!(e.get_reg(0), 3);
    assert_eq!(e.get_reg(1), 3);
}

/// Execution of RegBitwiseOr
#[test]
fn command_execution_test_reg_bit_or() {
    let mut e = Emulator::default();
    e.set_reg(0, 34);
    e.set_reg(1, 224);
    assert_eq!(
        e.execute_opcode(OpCode::RegBitwiseOr {
            register_x: 0,
            register_y: 1,
        }),
        Ok(())
    );
    assert_eq!(e.get_reg(0), 34 | 224);
}

/// Execution of RegBitwiseAnd
#[test]
fn command_execution_test_reg_bit_and() {
    let mut e = Emulator::default();
    e.set_reg(0, 34);
    e.set_reg(1, 224);
    assert_eq!(
        e.execute_opcode(OpCode::RegBitwiseAnd {
            register_x: 0,
            register_y: 1,
        }),
        Ok(())
    );
    assert_eq!(e.get_reg(0), 34 & 224);
}

/// Execution of RegBitwiseXor
#[test]
fn command_execution_test_reg_bit_xor() {
    let mut e = Emulator::default();
    e.set_reg(0, 0b1100);
    e.set_reg(1, 0b1011);
    assert_eq!(
        e.execute_opcode(OpCode::RegBitwiseXor {
            register_x: 0,
            register_y: 1,
        }),
        Ok(())
    );
    assert_eq!(e.get_reg(0), 0b0111);
}

/// Execution of RegAdd
#[test]
fn command_execution_test_reg_add() {
    let mut e = Emulator::default();
    e.set_reg(0, 5);
    e.set_reg(1, 6);
    assert_eq!(
        e.execute_opcode(OpCode::RegAdd {
            register_x: 0,
            register_y: 1,
        }),
        Ok(())
    );
    assert_eq!(e.get_reg(0), 11);
}

/// Execution of RegSub
#[test]
fn command_execution_test_reg_sub() {
    let mut e = Emulator::default();
    e.set_reg(0, 6);
    e.set_reg(1, 5);
    assert_eq!(
        e.execute_opcode(OpCode::RegSub {
            register_x: 0,
            register_y: 1,
        }),
        Ok(())
    );
    assert_eq!(e.get_reg(0), 1);
}

/// Execution of RegRightShift
#[test]
fn command_execution_test_reg_rshift() {
    let mut e = Emulator::default();
    e.set_reg(0, 0b101);
    assert_eq!(e.execute_opcode(OpCode::RegRightShift { register: 0 }), Ok(()));
    assert_eq!(e.get_reg(15), 1);
    assert_eq!(e.get_reg(0), 0b10);
    e.set_reg(0, 0b100);
    assert_eq!(e.execute_opcode(OpCode::RegRightShift { register: 0 }), Ok(()));
    assert_eq!(e.get_reg(15), 0);
    assert_eq!(e.get_reg(0), 0b10);
}

/// Execution of RegReverseSub
#[test]
fn command_execution_test_reg_reverse_sub() {
    let mut e = Emulator::default();
    e.set_reg(0, 5);
    e.set_reg(1, 6);
    assert_eq!(
        e.execute_opcode(OpCode::RegReverseSub {
            register_x: 0,
            register_y: 1,
        }),
        Ok(())
    );
    assert_eq!(e.get_reg(0), 1);
}

/// Execution of RegLeftShift
#[test]
fn command_execution_test_reg_lshift() {
    let mut e = Emulator::default();
    e.set_reg(0, 0b00001000);
    assert_eq!(e.execute_opcode(OpCode::RegLeftShift { register: 0 }), Ok(()));
    assert_eq!(e.get_reg(15), 0);
    assert_eq!(e.get_reg(0), 0b10000);
    e.set_reg(0, 0b10001001);
    assert_eq!(e.execute_opcode(OpCode::RegLeftShift { register: 0 }), Ok(()));
    assert_eq!(e.get_reg(15), 1);
    assert_eq!(e.get_reg(0), 0b10010)
}

/// Execution of SkipNextIfRegNotEqualToReg
#[test]
fn command_execution_test_skip_reg_neq_reg() {
    let mut e = Emulator::default();
    e.set_reg(0, 1);
    assert_eq!(
        e.execute_opcode(OpCode::SkipNextIfRegNotEqualToReg {
            register_x: 0,
            register_y: 1,
        }),
        Ok(())
    );
    assert_eq!(e.program_counter, 2);
    e.set_reg(1, 1);
    assert_eq!(
        e.execute_opcode(OpCode::SkipNextIfRegNotEqualToReg {
            register_x: 0,
            register_y: 1,
        }),
        Ok(())
    );
    assert_eq!(e.program_counter, 2);
}

/// Execution of Mem
#[test]
fn command_execution_test_mem() {
    let mut e = Emulator::default();
    assert_eq!(e.execute_opcode(OpCode::Mem { target: 37 }), Ok(()));
    assert_eq!(e.index_register, 37);
}

/// Execution of JumpRegZero
#[test]
fn command_execution_test_jump_reg0() {
    let mut e = Emulator::default();
    e.set_reg(0, 54);
    assert_eq!(e.execute_opcode(OpCode::JumpRegZero { target: 46 }), Ok(()));
    assert_eq!(e.program_counter, 100);
}

/// Execution of RandToReg. Two random bytes may be the same byte, so the two draws
/// come from a source that replays two bytes which differ under the mask.
#[test]
fn command_execution_test_rand2reg() {
    let mut e = Emulator::default();
    let mut source = Replay {
        bytes: vec![0b1001_0011, 0b0110_0101],
        next: 0,
    };
    assert_eq!(
        e.execute_opcode_with(
            OpCode::RandToReg {
                register: 0,
                constant: 54,
            },
            &mut source
        ),
        Ok(())
    );
    assert_eq!(
        e.execute_opcode_with(
            OpCode::RandToReg {
                register: 1,
                constant: 54,
            },
            &mut source
        ),
        Ok(())
    );
    assert_ne!(e.get_reg(0), e.get_reg(1));
    assert_eq!(e.get_reg(0), 0b1001_0011 & 54);
    assert_eq!(e.get_reg(1), 0b0110_0101 & 54);
}

/// DisplaySprite needs a screen, which the core has not.
#[test]
#[should_panic]
fn command_execution_test_display_sprite() {
    let mut e = Emulator::default();
    e.execute_opcode(OpCode::DisplaySprite {
        coord_x: 0,
        coord_y: 0,
        height: 0,
    })
    .unwrap()
}

/// SkipNextIfRegKeyPressed needs a keypad, which the core has not.
#[test]
#[should_panic]
fn command_execution_test_skip_key() {
    let mut e = Emulator::default();
    e.execute_opcode(OpCode::SkipNextIfRegKeyPressed { register: 0 })
        .unwrap()
}

/// SkipNextIfRegKeyNotPressed needs a keypad, which the core has not.
#[test]
#[should_panic]
fn command_execution_test_skip_not_key() {
    let mut e = Emulator::default();
    e.execute_opcode(OpCode::SkipNextIfRegKeyNotPressed { register: 0 })
        .unwrap()
}

/// Execution of SetRegToDelayTimer
#[test]
fn command_execution_test_reg2delay() {
    let mut e = Emulator::default();
    e.delay_timer = 3;
    assert_eq!(
        e.execute_opcode(OpCode::SetRegToDelayTimer { register: 0 }),
        Ok(())
    );
    assert_eq!(e.get_reg(0), 3);
}

/// Execution of SetRegToKeyPressed
#[test]
fn command_execution_test_key2reg() {}

/// Execution of SetDelayTimerToReg
#[test]
fn command_execution_test_delay2reg() {
    let mut e = Emulator::default();
    e.set_reg(0, 45);
    assert_eq!(
        e.execute_opcode(OpCode::SetDelayTimerToReg { register: 0 }),
        Ok(())
    );
    assert_eq!(e.delay_timer, 45);
}

/// Execution of SetSoundTimerToReg
#[test]
fn command_execution_test_sound2reg() {
    let mut e = Emulator::default();
    e.set_reg(0, 45);
    assert_eq!(
        e.execute_opcode(OpCode::SetSoundTimerToReg { register: 0 }),
        Ok(())
    );
    assert_eq!(e.sound_timer, 45);
}

/// Execution of MemAddReg
#[test]
fn command_execution_test_mem_add_reg() {
    let mut e = Emulator::default();
    e.set_reg(0, 45);
    e.index_register = 5;
    assert_eq!(e.execute_opcode(OpCode::MemAddReg { register: 0 }), Ok(()));
    assert_eq!(e.index_register, 50);
}

/// MemMoveToRegChar needs the built-in font, which the core has not.
#[test]
#[should_panic]
fn command_execution_test_mem_move_char() {
    let mut e = Emulator::default();
    e.execute_opcode(OpCode::MemMoveToRegChar { register: 0 })
        .unwrap()
}

/// StoreBCD is not wired in.
#[test]
#[should_panic]
fn command_execution_test_store_bcd() {
    let mut e = Emulator::default();
    e.execute_opcode(OpCode::StoreBCD { register: 0 }).unwrap()
}

/// Execution of RegDump
#[test]
fn command_execution_test_reg_dump() {
    let mut e = Emulator::default();
    e.set_reg(0, 1);
    e.set_reg(1, 2);
    e.set_reg(2, 3);
    assert_eq!(e.execute_opcode(OpCode::RegDump { register: 2 }), Ok(()));
    assert_eq!(e.memory[0..3], [1, 2, 3])
}

/// Execution of RegLoad
#[test]
fn command_execution_test_reg_load() {
    let mut e = Emulator::default();
    e.memory[0] = 1;
    e.memory[1] = 2;
    e.memory[2] = 3;
    assert_eq!(e.execute_opcode(OpCode::RegLoad { register: 2 }), Ok(()));
    assert_eq!(e.registers[0..3], [1, 2, 3]);
}
