use chip8_core::emulator::opcode::combine;
use chip8_core::emulator::opcode::split_bytes;
use chip8_core::emulator::opcode::DecodeError;
use chip8_core::emulator::opcode::OpCode;

/// Whether the instruction word names an instruction, read off the instruction set.
fn names_an_instruction(word: u16) -> bool {
    let low = word & 0x00FF;
    match word >> 12 {
        0x8 => matches!(word & 0x000F, 0x0..=0x7 | 0xE),
        0xE => matches!(low, 0x9E | 0xA1),
        0xF => matches!(low, 0x07 | 0x0A | 0x15 | 0x18 | 0x1E | 0x29 | 0x33 | 0x55 | 0x65),
        _ => true,
    }
}

#[test]
fn combine_puts_the_first_byte_on_top() {
    assert_eq!(combine(0x12, 0x34), 0x1234);
    assert_eq!(combine(0x00, 0x00), 0x0000);
    assert_eq!(combine(0xFF, 0xFF), 0xFFFF);
    assert_eq!(combine(0x00, 0xFF), 0x00FF);
    assert_eq!(combine(0xFF, 0x00), 0xFF00);
    assert_eq!(combine(0x01, 0x02), 258);
}

#[test]
fn split_bytes_gives_high_then_low() {
    assert_eq!(split_bytes(0x1234), (0x12, 0x34));
    assert_eq!(split_bytes(0x0000), (0x00, 0x00));
    assert_eq!(split_bytes(0xFFFF), (0xFF, 0xFF));
    assert_eq!(split_bytes(0x00FF), (0x00, 0xFF));
    assert_eq!(split_bytes(0xFF00), (0xFF, 0x00));
}

#[test]
fn split_bytes_undoes_combine_on_every_word() {
    for word in 0..=u16::MAX {
        let (first_byte, second_byte) = split_bytes(word);
        assert_eq!(combine(first_byte, second_byte), word);
    }
}

#[test]
fn decode_basic_words() {
    assert_eq!(OpCode::decode(0x00, 0xE0), Ok(OpCode::ClearScreen));
    assert_eq!(OpCode::decode(0x00, 0xEE), Ok(OpCode::Return));
    assert_eq!(OpCode::decode(0x12, 0x34), Ok(OpCode::Goto { target: 0x234 }));
}

#[test]
fn decode_shift_right_names_one_register() {
    assert_eq!(
        OpCode::decode(0x81, 0x26),
        Ok(OpCode::RegRightShift { register: 1 })
    );
    assert_eq!(
        OpCode::decode(0x8A, 0xBE),
        Ok(OpCode::RegLeftShift { register: 0xA })
    );
}

#[test]
fn decode_fails_exactly_on_unknown_sub_codes() {
    for word in 0..=u16::MAX {
        let (first_byte, second_byte) = split_bytes(word);
        let decoded = OpCode::decode(first_byte, second_byte);
        if names_an_instruction(word) {
            assert!(decoded.is_ok(), "{:#06x} should decode", word);
        } else {
            assert_eq!(decoded, Err(DecodeError { instruction: word }));
        }
    }
}

#[test]
fn decode_is_total_outside_the_classes_with_sub_codes() {
    for class in [0x0u8, 0x1, 0x2, 0x3, 0x4, 0x5, 0x6, 0x7, 0x9, 0xA, 0xB, 0xC, 0xD] {
        for rest in 0..=0x0FFFu16 {
            let first_byte = (class << 4) | (rest >> 8) as u8;
            let second_byte = (rest & 0xFF) as u8;
            assert!(OpCode::decode(first_byte, second_byte).is_ok());
        }
    }
}

#[test]
fn decode_gives_the_same_result_every_time() {
    for word in 0..=u16::MAX {
        let (first_byte, second_byte) = split_bytes(word);
        assert_eq!(
            OpCode::decode(first_byte, second_byte),
            OpCode::decode(first_byte, second_byte)
        );
    }
}

#[test]
fn try_from_agrees_with_decode() {
    for word in 0..=u16::MAX {
        let (first_byte, second_byte) = split_bytes(word);
        assert_eq!(
            OpCode::try_from((first_byte, second_byte)),
            OpCode::decode(first_byte, second_byte)
        );
    }
}

#[test]
fn decode_errors_carry_the_instruction_word() {
    assert_eq!(
        OpCode::decode(0x81, 0x28),
        Err(DecodeError { instruction: 0x8128 })
    );
    assert_eq!(
        OpCode::decode(0x81, 0x2F),
        Err(DecodeError { instruction: 0x812F })
    );
    assert_eq!(
        OpCode::decode(0xE1, 0x00),
        Err(DecodeError { instruction: 0xE100 })
    );
    assert_eq!(
        OpCode::decode(0xE1, 0x9F),
        Err(DecodeError { instruction: 0xE19F })
    );
    assert_eq!(
        OpCode::decode(0xF1, 0xFF),
        Err(DecodeError { instruction: 0xF1FF })
    );
    assert_eq!(
        OpCode::decode(0xF0, 0x00),
        Err(DecodeError { instruction: 0xF000 })
    );
}

#[test]
fn native_call_takes_what_the_other_class_zero_words_leave() {
    assert_eq!(
        OpCode::decode(0x00, 0x00),
        Ok(OpCode::_NativeCall { target: 0x000 })
    );
    assert_eq!(
        OpCode::decode(0x00, 0xE1),
        Ok(OpCode::_NativeCall { target: 0x0E1 })
    );
    assert_eq!(
        OpCode::decode(0x01, 0xE0),
        Ok(OpCode::ClearScreen)
    );
    assert_eq!(
        OpCode::decode(0x0F, 0xFF),
        Ok(OpCode::_NativeCall { target: 0xFFF })
    );
}

#[test]
fn addresses_take_twelve_bits() {
    assert_eq!(OpCode::decode(0x1F, 0xFF), Ok(OpCode::Goto { target: 0xFFF }));
    assert_eq!(
        OpCode::decode(0x2A, 0xBC),
        Ok(OpCode::Subroutine { target: 0xABC })
    );
    assert_eq!(OpCode::decode(0xA0, 0x00), Ok(OpCode::Mem { target: 0x000 }));
    assert_eq!(
        OpCode::decode(0xBF, 0x0F),
        Ok(OpCode::JumpRegZero { target: 0xF0F })
    );
}

#[test]
fn skip_on_registers_ignores_the_last_digit() {
    assert_eq!(
        OpCode::decode(0x51, 0x2F),
        Ok(OpCode::SkipNextIfRegEqualToReg {
            register_x: 1,
            register_y: 2
        })
    );
    assert_eq!(
        OpCode::decode(0x9E, 0xD7),
        Ok(OpCode::SkipNextIfRegNotEqualToReg {
            register_x: 0xE,
            register_y: 0xD
        })
    );
}

#[test]
fn sprite_operands_are_single_digits() {
    assert_eq!(
        OpCode::decode(0xDF, 0xEF),
        Ok(OpCode::DisplaySprite {
            coord_x: 0xF,
            coord_y: 0xE,
            height: 0xF
        })
    );
}
