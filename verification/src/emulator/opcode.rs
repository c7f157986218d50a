use vstd::prelude::*;

verus! {

/// One CHIP-8 instruction, with the operands that belong to it.
///
/// In the encodings below each letter stands for one hexadecimal digit of the
/// 16-bit instruction word:
/// - `NNN`: a 12-bit address, held in a `u16`
/// - `NN`: an 8-bit constant
/// - `N`: a 4-bit constant, held in a `u8`
/// - `X`, `Y`: a 4-bit register index, held in a `u8`
///
/// `VX` is the register with index `X`, `VF` the flag register (index 15), `I` the
/// index register and `PC` the program counter.
#[derive(PartialEq, Eq, Structural, Copy, Clone, Debug)]
pub enum OpCode {
    /// `0NNN`: call of a native routine at `NNN`. Kept for completeness of the
    /// instruction set; it must never be executed.
    _NativeCall { target: u16 },
    /// `00E0`: clears the screen.
    ClearScreen,
    /// `00EE`: returns from a subroutine.
    Return,
    /// `1NNN`: jumps to `NNN`.
    Goto { target: u16 },
    /// `2NNN`: calls the subroutine at `NNN`.
    Subroutine { target: u16 },
    /// `3XNN`: skips the next instruction if `VX == NN`.
    SkipNextIfRegEqualToConst { register: u8, constant: u8 },
    /// `4XNN`: skips the next instruction if `VX != NN`.
    SkipNextIfRegNotEqualToConst { register: u8, constant: u8 },
    /// `5XY_`: skips the next instruction if `VX == VY`.
    SkipNextIfRegEqualToReg { register_x: u8, register_y: u8 },
    /// `6XNN`: sets `VX` to `NN`.
    RegSetConst { register: u8, constant: u8 },
    /// `7XNN`: adds `NN` to `VX` modulo 256; `VF` is left alone.
    RegAddConst { register: u8, constant: u8 },
    /// `8XY0`: sets `VX` to `VY`.
    RegMov { register_x: u8, register_y: u8 },
    /// `8XY1`: sets `VX` to `VX | VY`.
    RegBitwiseOr { register_x: u8, register_y: u8 },
    /// `8XY2`: sets `VX` to `VX & VY`.
    RegBitwiseAnd { register_x: u8, register_y: u8 },
    /// `8XY3`: sets `VX` to `VX ^ VY`.
    RegBitwiseXor { register_x: u8, register_y: u8 },
    /// `8XY4`: sets `VX` to `VX + VY` modulo 256, then `VF` to 1 on a carry, else to 0.
    RegAdd { register_x: u8, register_y: u8 },
    /// `8XY5`: sets `VX` to `VX - VY` modulo 256, then `VF` to 0 on a borrow, else to 1.
    RegSub { register_x: u8, register_y: u8 },
    /// `8X_6`: sets `VF` to the lowest bit of `VX`, then shifts `VX` right by one.
    RegRightShift { register: u8 },
    /// `8XY7`: sets `VX` to `VY - VX` modulo 256, then `VF` to 0 on a borrow, else to 1.
    RegReverseSub { register_x: u8, register_y: u8 },
    /// `8X_E`: sets `VF` to the highest bit of `VX`, then shifts `VX` left by one.
    RegLeftShift { register: u8 },
    /// `9XY_`: skips the next instruction if `VX != VY`.
    SkipNextIfRegNotEqualToReg { register_x: u8, register_y: u8 },
    /// `ANNN`: sets `I` to `NNN`.
    Mem { target: u16 },
    /// `BNNN`: jumps to `NNN + V0`, taken modulo 65536.
    JumpRegZero { target: u16 },
    /// `CXNN`: sets `VX` to a random byte masked with `NN`.
    RandToReg { register: u8, constant: u8 },
    /// `DXYN`: draws the sprite of 8 by `N` pixels found at `I` at the screen
    /// position `(VX, VY)`; `VF` reports whether a lit pixel was turned off.
    DisplaySprite { coord_x: u8, coord_y: u8, height: u8 },
    /// `EX9E`: skips the next instruction if the key named by `VX` is down.
    SkipNextIfRegKeyPressed { register: u8 },
    /// `EXA1`: skips the next instruction if the key named by `VX` is up.
    SkipNextIfRegKeyNotPressed { register: u8 },
    /// `FX07`: sets `VX` to the delay timer.
    SetRegToDelayTimer { register: u8 },
    /// `FX0A`: waits for a key press and stores the key in `VX`.
    SetRegToKeyPressed { register: u8 },
    /// `FX15`: sets the delay timer to `VX`.
    SetDelayTimerToReg { register: u8 },
    /// `FX18`: sets the sound timer to `VX`.
    SetSoundTimerToReg { register: u8 },
    /// `FX1E`: adds `VX` to `I` modulo 65536; `VF` is left alone.
    MemAddReg { register: u8 },
    /// `FX29`: sets `I` to the address of the built-in sprite for the digit in `VX`.
    MemMoveToRegChar { register: u8 },
    /// `FX33`: stores the three decimal digits of `VX` at `I`, `I + 1` and `I + 2`.
    StoreBCD { register: u8 },
    /// `FX55`: stores `V0` to `VX` inclusive in memory from address `I` on; `I` stays.
    RegDump { register: u8 },
    /// `FX65`: loads `V0` to `VX` inclusive from memory from address `I` on; `I` stays.
    RegLoad { register: u8 },
}

/// The instruction word that the decoder could not make sense of.
#[derive(PartialEq, Eq, Structural, Copy, Clone, Debug)]
pub struct DecodeError {
    /// The two bytes of the instruction, most significant first.
    pub instruction: u16,
}

impl OpCode {
    /// Every operand that names a register is a 4-bit index.
    pub open spec fn registers_in_range(self) -> bool {
        match self {
            OpCode::_NativeCall { .. } => true,
            OpCode::ClearScreen => true,
            OpCode::Return => true,
            OpCode::Goto { .. } => true,
            OpCode::Subroutine { .. } => true,
            OpCode::SkipNextIfRegEqualToConst { register, .. } => register < 16,
            OpCode::SkipNextIfRegNotEqualToConst { register, .. } => register < 16,
            OpCode::SkipNextIfRegEqualToReg { register_x, register_y } => register_x < 16
                && register_y < 16,
            OpCode::RegSetConst { register, .. } => register < 16,
            OpCode::RegAddConst { register, .. } => register < 16,
            OpCode::RegMov { register_x, register_y } => register_x < 16 && register_y < 16,
            OpCode::RegBitwiseOr { register_x, register_y } => register_x < 16 && register_y < 16,
            OpCode::RegBitwiseAnd { register_x, register_y } => register_x < 16 && register_y < 16,
            OpCode::RegBitwiseXor { register_x, register_y } => register_x < 16 && register_y < 16,
            OpCode::RegAdd { register_x, register_y } => register_x < 16 && register_y < 16,
            OpCode::RegSub { register_x, register_y } => register_x < 16 && register_y < 16,
            OpCode::RegRightShift { register } => register < 16,
            OpCode::RegReverseSub { register_x, register_y } => register_x < 16 && register_y < 16,
            OpCode::RegLeftShift { register } => register < 16,
            OpCode::SkipNextIfRegNotEqualToReg { register_x, register_y } => register_x < 16
                && register_y < 16,
            OpCode::Mem { .. } => true,
            OpCode::JumpRegZero { .. } => true,
            OpCode::RandToReg { register, .. } => register < 16,
            OpCode::DisplaySprite { coord_x, coord_y, .. } => coord_x < 16 && coord_y < 16,
            OpCode::SkipNextIfRegKeyPressed { register } => register < 16,
            OpCode::SkipNextIfRegKeyNotPressed { register } => register < 16,
            OpCode::SetRegToDelayTimer { register } => register < 16,
            OpCode::SetRegToKeyPressed { register } => register < 16,
            OpCode::SetDelayTimerToReg { register } => register < 16,
            OpCode::SetSoundTimerToReg { register } => register < 16,
            OpCode::MemAddReg { register } => register < 16,
            OpCode::MemMoveToRegChar { register } => register < 16,
            OpCode::StoreBCD { register } => register < 16,
            OpCode::RegDump { register } => register < 16,
            OpCode::RegLoad { register } => register < 16,
        }
    }

    /// Every operand fits the digits that the encoding gives it: registers and sprite
    /// heights in 4 bits, addresses in 12.
    pub open spec fn wf(self) -> bool {
        &&& self.registers_in_range()
        &&& match self {
            OpCode::_NativeCall { target } => target <= 0xFFF,
            OpCode::Goto { target } => target <= 0xFFF,
            OpCode::Subroutine { target } => target <= 0xFFF,
            OpCode::Mem { target } => target <= 0xFFF,
            OpCode::JumpRegZero { target } => target <= 0xFFF,
            OpCode::DisplaySprite { height, .. } => height < 16,
            _ => true,
        }
    }
}

/// The 16-bit word whose high byte is `first_byte` and whose low byte is `second_byte`.
pub open spec fn combine_spec(first_byte: u8, second_byte: u8) -> u16 {
    (first_byte * 256 + second_byte) as u16
}

/// Joins two bytes, most significant first, into one 16-bit word.
pub fn combine(first_byte: u8, second_byte: u8) -> (word: u16)
    ensures
        word == combine_spec(first_byte, second_byte),
{
    let high: u16 = first_byte as u16;
    let low: u16 = second_byte as u16;
    assert((high << 8) | low == high * 256 + low) by (bit_vector)
        requires
            high < 256,
            low < 256,
    ;
    (high << 8) | low
}

/// Splits a 16-bit word into its high and its low byte.
pub fn split_bytes(b: u16) -> (bytes: (u8, u8))
    ensures
        bytes.0 == b / 256,
        bytes.1 == b % 256,
        combine_spec(bytes.0, bytes.1) == b,
{
    assert((b >> 8) == b / 256) by (bit_vector);
    ((b >> 8) as u8, (b % 256) as u8)
}

/// The instruction class: the first hexadecimal digit of the instruction word.
pub open spec fn class_of(first_byte: u8) -> u8 {
    first_byte / 16
}

/// `X`: the second digit of the instruction word.
pub open spec fn x_of(first_byte: u8) -> u8 {
    first_byte % 16
}

/// `Y`: the third digit of the instruction word.
pub open spec fn y_of(second_byte: u8) -> u8 {
    second_byte / 16
}

/// `N`: the fourth digit of the instruction word.
pub open spec fn n_of(second_byte: u8) -> u8 {
    second_byte % 16
}

/// `NNN`: the last three digits of the instruction word.
pub open spec fn address_of(first_byte: u8, second_byte: u8) -> u16 {
    combine_spec(x_of(first_byte), second_byte)
}

/// Whether the two bytes encode an instruction. Only the classes `8`, `E` and `F`
/// have encodings that mean nothing.
pub open spec fn is_decodable(first_byte: u8, second_byte: u8) -> bool {
    let class = class_of(first_byte);
    let n = n_of(second_byte);
    if class == 0x8 {
        n <= 0x7 || n == 0xE
    } else if class == 0xE {
        second_byte == 0x9E || second_byte == 0xA1
    } else if class == 0xF {
        ||| second_byte == 0x07
        ||| second_byte == 0x0A
        ||| second_byte == 0x15
        ||| second_byte == 0x18
        ||| second_byte == 0x1E
        ||| second_byte == 0x29
        ||| second_byte == 0x33
        ||| second_byte == 0x55
        ||| second_byte == 0x65
    } else {
        true
    }
}

/// The instruction that an arithmetic instruction word `8XYN` encodes.
pub open spec fn decode_arithmetic(x: u8, y: u8, n: u8) -> Option<OpCode> {
    if n == 0x0 {
        Some(OpCode::RegMov { register_x: x, register_y: y })
    } else if n == 0x1 {
        Some(OpCode::RegBitwiseOr { register_x: x, register_y: y })
    } else if n == 0x2 {
        Some(OpCode::RegBitwiseAnd { register_x: x, register_y: y })
    } else if n == 0x3 {
        Some(OpCode::RegBitwiseXor { register_x: x, register_y: y })
    } else if n == 0x4 {
        Some(OpCode::RegAdd { register_x: x, register_y: y })
    } else if n == 0x5 {
        Some(OpCode::RegSub { register_x: x, register_y: y })
    } else if n == 0x6 {
        Some(OpCode::RegRightShift { register: x })
    } else if n == 0x7 {
        Some(OpCode::RegReverseSub { register_x: x, register_y: y })
    } else if n == 0xE {
        Some(OpCode::RegLeftShift { register: x })
    } else {
        None
    }
}

/// The instruction that a keypad instruction word `EXNN` encodes.
pub open spec fn decode_keypad(x: u8, nn: u8) -> Option<OpCode> {
    if nn == 0x9E {
        Some(OpCode::SkipNextIfRegKeyPressed { register: x })
    } else if nn == 0xA1 {
        Some(OpCode::SkipNextIfRegKeyNotPressed { register: x })
    } else {
        None
    }
}

/// The instruction that a timer or memory instruction word `FXNN` encodes.
pub open spec fn decode_misc(x: u8, nn: u8) -> Option<OpCode> {
    if nn == 0x07 {
        Some(OpCode::SetRegToDelayTimer { register: x })
    } else if nn == 0x0A {
        Some(OpCode::SetRegToKeyPressed { register: x })
    } else if nn == 0x15 {
        Some(OpCode::SetDelayTimerToReg { register: x })
    } else if nn == 0x18 {
        Some(OpCode::SetSoundTimerToReg { register: x })
    } else if nn == 0x1E {
        Some(OpCode::MemAddReg { register: x })
    } else if nn == 0x29 {
        Some(OpCode::MemMoveToRegChar { register: x })
    } else if nn == 0x33 {
        Some(OpCode::StoreBCD { register: x })
    } else if nn == 0x55 {
        Some(OpCode::RegDump { register: x })
    } else if nn == 0x65 {
        Some(OpCode::RegLoad { register: x })
    } else {
        None
    }
}

/// The instruction that the two bytes encode, if they encode one.
pub open spec fn instruction_of(first_byte: u8, second_byte: u8) -> Option<OpCode> {
    let class = class_of(first_byte);
    let x = x_of(first_byte);
    let y = y_of(second_byte);
    let n = n_of(second_byte);
    let nn = second_byte;
    let nnn = address_of(first_byte, second_byte);
    if class == 0x0 {
        if nn == 0xE0 {
            Some(OpCode::ClearScreen)
        } else if nn == 0xEE {
            Some(OpCode::Return)
        } else {
            Some(OpCode::_NativeCall { target: nnn })
        }
    } else if class == 0x1 {
        Some(OpCode::Goto { target: nnn })
    } else if class == 0x2 {
        Some(OpCode::Subroutine { target: nnn })
    } else if class == 0x3 {
        Some(OpCode::SkipNextIfRegEqualToConst { register: x, constant: nn })
    } else if class == 0x4 {
        Some(OpCode::SkipNextIfRegNotEqualToConst { register: x, constant: nn })
    } else if class == 0x5 {
        Some(OpCode::SkipNextIfRegEqualToReg { register_x: x, register_y: y })
    } else if class == 0x6 {
        Some(OpCode::RegSetConst { register: x, constant: nn })
    } else if class == 0x7 {
        Some(OpCode::RegAddConst { register: x, constant: nn })
    } else if class == 0x8 {
        decode_arithmetic(x, y, n)
    } else if class == 0x9 {
        Some(OpCode::SkipNextIfRegNotEqualToReg { register_x: x, register_y: y })
    } else if class == 0xA {
        Some(OpCode::Mem { target: nnn })
    } else if class == 0xB {
        Some(OpCode::JumpRegZero { target: nnn })
    } else if class == 0xC {
        Some(OpCode::RandToReg { register: x, constant: nn })
    } else if class == 0xD {
        Some(OpCode::DisplaySprite { coord_x: x, coord_y: y, height: n })
    } else if class == 0xE {
        decode_keypad(x, nn)
    } else {
        decode_misc(x, nn)
    }
}

/// What decoding the two bytes gives: the instruction they encode, or else an error
/// that carries the instruction word.
pub open spec fn decode_spec(first_byte: u8, second_byte: u8) -> Result<OpCode, DecodeError> {
    match instruction_of(first_byte, second_byte) {
        Some(opcode) => Ok(opcode),
        None => Err(DecodeError { instruction: combine_spec(first_byte, second_byte) }),
    }
}

impl OpCode {
    /// Decodes one instruction from its two bytes, most significant first.
    ///
    /// Decoding looks at the bytes alone. It fails exactly on the words of the
    /// classes `8`, `E` and `F` whose sub-code names no instruction, and a decoded
    /// instruction has every operand within the width that the encoding gives it.
    pub fn decode(first_byte: u8, second_byte: u8) -> (result: Result<OpCode, DecodeError>)
        ensures
            result == decode_spec(first_byte, second_byte),
            result is Ok <==> is_decodable(first_byte, second_byte),
            result matches Ok(opcode) ==> opcode.wf(),
    {
        let first_digit: u8 = first_byte >> 4;
        let second_digit: u8 = first_byte % 16;
        let third_digit: u8 = second_byte >> 4;
        let fourth_digit: u8 = second_byte % 16;
        let target: u16 = combine(second_digit, second_byte);
        let unknown: DecodeError = DecodeError { instruction: combine(first_byte, second_byte) };
        proof {
            assert(first_byte >> 4 == first_byte / 16) by (bit_vector);
            assert(second_byte >> 4 == second_byte / 16) by (bit_vector);
        }
        match first_digit {
            0x0 => match second_byte {
                0xE0 => Ok(OpCode::ClearScreen),
                0xEE => Ok(OpCode::Return),
                _ => Ok(OpCode::_NativeCall { target }),
            },
            0x1 => Ok(OpCode::Goto { target }),
            0x2 => Ok(OpCode::Subroutine { target }),
            0x3 => Ok(
                OpCode::SkipNextIfRegEqualToConst { register: second_digit, constant: second_byte },
            ),
            0x4 => Ok(
                OpCode::SkipNextIfRegNotEqualToConst {
                    register: second_digit,
                    constant: second_byte,
                },
            ),
            0x5 => Ok(
                OpCode::SkipNextIfRegEqualToReg {
                    register_x: second_digit,
                    register_y: third_digit,
                },
            ),
            0x6 => Ok(OpCode::RegSetConst { register: second_digit, constant: second_byte }),
            0x7 => Ok(OpCode::RegAddConst { register: second_digit, constant: second_byte }),
            0x8 => match fourth_digit {
                0x0 => Ok(OpCode::RegMov { register_x: second_digit, register_y: third_digit }),
                0x1 => Ok(
                    OpCode::RegBitwiseOr { register_x: second_digit, register_y: third_digit },
                ),
                0x2 => Ok(
                    OpCode::RegBitwiseAnd { register_x: second_digit, register_y: third_digit },
                ),
                0x3 => Ok(
                    OpCode::RegBitwiseXor { register_x: second_digit, register_y: third_digit },
                ),
                0x4 => Ok(OpCode::RegAdd { register_x: second_digit, register_y: third_digit }),
                0x5 => Ok(OpCode::RegSub { register_x: second_digit, register_y: third_digit }),
                0x6 => Ok(OpCode::RegRightShift { register: second_digit }),
                0x7 => Ok(
                    OpCode::RegReverseSub { register_x: second_digit, register_y: third_digit },
                ),
                0xE => Ok(OpCode::RegLeftShift { register: second_digit }),
                _ => Err(unknown),
            },
            0x9 => Ok(
                OpCode::SkipNextIfRegNotEqualToReg {
                    register_x: second_digit,
                    register_y: third_digit,
                },
            ),
            0xA => Ok(OpCode::Mem { target }),
            0xB => Ok(OpCode::JumpRegZero { target }),
            0xC => Ok(OpCode::RandToReg { register: second_digit, constant: second_byte }),
            0xD => Ok(
                OpCode::DisplaySprite {
                    coord_x: second_digit,
                    coord_y: third_digit,
                    height: fourth_digit,
                },
            ),
            0xE => match second_byte {
                0x9E => Ok(OpCode::SkipNextIfRegKeyPressed { register: second_digit }),
                0xA1 => Ok(OpCode::SkipNextIfRegKeyNotPressed { register: second_digit }),
                _ => Err(unknown),
            },
            _ => match second_byte {
                0x07 => Ok(OpCode::SetRegToDelayTimer { register: second_digit }),
                0x0A => Ok(OpCode::SetRegToKeyPressed { register: second_digit }),
                0x15 => Ok(OpCode::SetDelayTimerToReg { register: second_digit }),
                0x18 => Ok(OpCode::SetSoundTimerToReg { register: second_digit }),
                0x1E => Ok(OpCode::MemAddReg { register: second_digit }),
                0x29 => Ok(OpCode::MemMoveToRegChar { register: second_digit }),
                0x33 => Ok(OpCode::StoreBCD { register: second_digit }),
                0x55 => Ok(OpCode::RegDump { register: second_digit }),
                0x65 => Ok(OpCode::RegLoad { register: second_digit }),
                _ => Err(unknown),
            },
        }
    }
}

impl TryFrom<(u8, u8)> for OpCode {
    type Error = DecodeError;

    /// Decodes one instruction from its two bytes, most significant first.
    fn try_from(bytes: (u8, u8)) -> (result: Result<OpCode, DecodeError>) {
        OpCode::decode(bytes.0, bytes.1)
    }
}

impl vstd::std_specs::convert::TryFromSpecImpl<(u8, u8)> for OpCode {
    open spec fn obeys_try_from_spec() -> bool {
        true
    }

    open spec fn try_from_spec(bytes: (u8, u8)) -> Result<OpCode, DecodeError> {
        decode_spec(bytes.0, bytes.1)
    }
}

/// Decoding never fails on an instruction word of the classes `0` to `7` and `9` to
/// `D`.
pub proof fn lemma_decode_total(first_byte: u8, second_byte: u8)
    requires
        class_of(first_byte) != 0x8,
        class_of(first_byte) != 0xE,
        class_of(first_byte) != 0xF,
    ensures
        decode_spec(first_byte, second_byte) is Ok,
{
}

/// In the classes `8`, `E` and `F` decoding fails on a sub-code that names no
/// instruction, and only there; the error then carries the instruction word.
pub proof fn lemma_decode_rejects_unknown(first_byte: u8, second_byte: u8)
    ensures
        decode_spec(first_byte, second_byte) is Err <==> !is_decodable(first_byte, second_byte),
        decode_spec(first_byte, second_byte) matches Err(e) ==> e.instruction == first_byte * 256
            + second_byte,
{
}

/// Every instruction that decoding gives has its operands within the width that the
/// encoding gives them. A register index out of a decoded instruction is therefore
/// always the index of a register.
pub proof fn lemma_decoded_operands_in_range(first_byte: u8, second_byte: u8)
    ensures
        decode_spec(first_byte, second_byte) matches Ok(opcode) ==> opcode.wf()
            && opcode.registers_in_range(),
{
}

} // verus!
