use crate::emulator::opcode::OpCode;
use crate::emulator::Fault;
use crate::emulator::MachineState;
use crate::emulator::FLAG_REGISTER;
use crate::emulator::MEMORY_SIZE;
use crate::emulator::STACK_CAPACITY;
use vstd::prelude::*;

verus! {

/// The lowest 8 bits of `value`: what an 8-bit register keeps of it.
pub open spec fn low_byte(value: int) -> u8 {
    (value % 256) as u8
}

/// The lowest 16 bits of `value`: what the program counter or the index register
/// keeps of it.
pub open spec fn low_word(value: int) -> u16 {
    (value % 65536) as u16
}

impl MachineState {
    /// The machine with `flag` in the flag register, whatever was there before.
    pub open spec fn set_flag(self, flag: u8) -> MachineState {
        self.set_register(FLAG_REGISTER, flag)
    }

    /// The machine with the program counter at `target`.
    pub open spec fn jump(self, target: u16) -> MachineState {
        MachineState { program_counter: target, ..self }
    }

    /// The machine with the program counter moved on by one instruction, which is
    /// two bytes.
    pub open spec fn skip(self) -> MachineState {
        self.jump(low_word(self.program_counter + 2))
    }

    /// The machine after a conditional skip: moved on by one instruction where
    /// `condition` holds, untouched where it does not.
    pub open spec fn skip_if(self, condition: bool) -> MachineState {
        if condition {
            self.skip()
        } else {
            self
        }
    }

    /// The machine with `address` put on top of the call stack. A call stack that
    /// is at its capacity makes this a fault.
    pub open spec fn push(self, address: u16) -> Result<MachineState, Fault> {
        if self.stack.len() >= STACK_CAPACITY {
            Err(Fault::StackOverflow)
        } else {
            Ok(MachineState { stack: self.stack.push(address), ..self })
        }
    }

    /// The machine with the top of the call stack taken off, and the address that
    /// was there. An empty call stack makes this a fault.
    pub open spec fn pop(self) -> Result<(MachineState, u16), Fault> {
        if self.stack.len() == 0 {
            Err(Fault::StackUnderflow)
        } else {
            Ok((MachineState { stack: self.stack.drop_last(), ..self }, self.stack.last()))
        }
    }

    /// The machine after a call of the subroutine at `target`: the program counter
    /// goes on top of the call stack and is then set to `target`. A full call
    /// stack makes the call a fault.
    pub open spec fn call(self, target: u16) -> Result<MachineState, Fault> {
        match self.push(self.program_counter) {
            Ok(pushed) => Ok(pushed.jump(target)),
            Err(fault) => Err(fault),
        }
    }

    /// The machine after a return: the top of the call stack is taken off and
    /// becomes the program counter. An empty call stack makes the return a fault.
    pub open spec fn ret(self) -> Result<MachineState, Fault> {
        match self.pop() {
            Ok((popped, address)) => Ok(popped.jump(address)),
            Err(fault) => Err(fault),
        }
    }

    /// The machine with the registers 0 to `last` inclusive copied to memory from
    /// the address in the index register on. Where the last of them would land
    /// beyond the end of memory, nothing is copied and it is a fault.
    pub open spec fn dump_registers(self, last: u8) -> Result<MachineState, Fault> {
        let base = self.index_register as int;
        if base + last >= MEMORY_SIZE {
            Err(Fault::MemoryOutOfBounds)
        } else {
            Ok(
                MachineState {
                    memory: Seq::new(
                        self.memory.len(),
                        |address: int|
                            if base <= address <= base + last {
                                self.registers[address - base]
                            } else {
                                self.memory[address]
                            },
                    ),
                    ..self
                },
            )
        }
    }

    /// The machine with the registers 0 to `last` inclusive filled from memory from
    /// the address in the index register on. Where the last of them would be read
    /// beyond the end of memory, nothing is filled and it is a fault.
    pub open spec fn load_registers(self, last: u8) -> Result<MachineState, Fault> {
        let base = self.index_register as int;
        if base + last >= MEMORY_SIZE {
            Err(Fault::MemoryOutOfBounds)
        } else {
            Ok(
                MachineState {
                    registers: Seq::new(
                        self.registers.len(),
                        |register: int|
                            if 0 <= register <= last {
                                self.memory[base + register]
                            } else {
                                self.registers[register]
                            },
                    ),
                    ..self
                },
            )
        }
    }
}

/// What executing `opcode` makes of the machine `state`, where `random` is the byte
/// that the source of random bytes hands out: the machine afterwards, or the fault
/// that stopped the instruction.
///
/// The program counter moves only where the instruction itself jumps, calls,
/// returns or skips. Moving it on to the next instruction is left to whoever
/// fetched this one.
pub open spec fn step(state: MachineState, opcode: OpCode, random: u8) -> Result<
    MachineState,
    Fault,
> {
    match opcode {
        OpCode::_NativeCall { .. } => Err(Fault::IllegalNativeCall),
        OpCode::ClearScreen => Err(Fault::UnimplementedOperation),
        OpCode::Return => state.ret(),
        OpCode::Goto { target } => Ok(state.jump(target)),
        OpCode::Subroutine { target } => state.call(target),
        OpCode::SkipNextIfRegEqualToConst { register, constant } => Ok(
            state.skip_if(state.register(register) == constant),
        ),
        OpCode::SkipNextIfRegNotEqualToConst { register, constant } => Ok(
            state.skip_if(state.register(register) != constant),
        ),
        OpCode::SkipNextIfRegEqualToReg { register_x, register_y } => Ok(
            state.skip_if(state.register(register_x) == state.register(register_y)),
        ),
        OpCode::RegSetConst { register, constant } => Ok(state.set_register(register, constant)),
        OpCode::RegAddConst { register, constant } => Ok(
            state.set_register(register, low_byte(state.register(register) + constant)),
        ),
        OpCode::RegMov { register_x, register_y } => Ok(
            state.set_register(register_x, state.register(register_y)),
        ),
        OpCode::RegBitwiseOr { register_x, register_y } => Ok(
            state.set_register(register_x, state.register(register_x) | state.register(register_y)),
        ),
        OpCode::RegBitwiseAnd { register_x, register_y } => Ok(
            state.set_register(register_x, state.register(register_x) & state.register(register_y)),
        ),
        OpCode::RegBitwiseXor { register_x, register_y } => Ok(
            state.set_register(register_x, state.register(register_x) ^ state.register(register_y)),
        ),
        OpCode::RegAdd { register_x, register_y } => {
            let sum = state.register(register_x) + state.register(register_y);
            Ok(
                state.set_register(register_x, low_byte(sum)).set_flag(
                    if sum > 255 { 1 } else { 0 },
                ),
            )
        },
        OpCode::RegSub { register_x, register_y } => {
            let difference = state.register(register_x) - state.register(register_y);
            Ok(
                state.set_register(register_x, low_byte(difference)).set_flag(
                    if difference >= 0 { 1 } else { 0 },
                ),
            )
        },
        OpCode::RegRightShift { register } => {
            let value = state.register(register);
            Ok(state.set_flag(value % 2).set_register(register, value / 2))
        },
        OpCode::RegReverseSub { register_x, register_y } => {
            let difference = state.register(register_y) - state.register(register_x);
            Ok(
                state.set_register(register_x, low_byte(difference)).set_flag(
                    if difference >= 0 { 1 } else { 0 },
                ),
            )
        },
        OpCode::RegLeftShift { register } => {
            let value = state.register(register);
            Ok(state.set_flag(value / 128).set_register(register, low_byte(value * 2)))
        },
        OpCode::SkipNextIfRegNotEqualToReg { register_x, register_y } => Ok(
            state.skip_if(state.register(register_x) != state.register(register_y)),
        ),
        OpCode::Mem { target } => Ok(MachineState { index_register: target, ..state }),
        OpCode::JumpRegZero { target } => Ok(state.jump(low_word(target + state.register(0)))),
        OpCode::RandToReg { register, constant } => Ok(
            state.set_register(register, random & constant),
        ),
        OpCode::DisplaySprite { .. } => Err(Fault::UnimplementedOperation),
        OpCode::SkipNextIfRegKeyPressed { .. } => Err(Fault::UnimplementedOperation),
        OpCode::SkipNextIfRegKeyNotPressed { .. } => Err(Fault::UnimplementedOperation),
        OpCode::SetRegToDelayTimer { register } => Ok(
            state.set_register(register, state.delay_timer),
        ),
        OpCode::SetRegToKeyPressed { .. } => Err(Fault::UnimplementedOperation),
        OpCode::SetDelayTimerToReg { register } => Ok(
            MachineState { delay_timer: state.register(register), ..state },
        ),
        OpCode::SetSoundTimerToReg { register } => Ok(
            MachineState { sound_timer: state.register(register), ..state },
        ),
        OpCode::MemAddReg { register } => Ok(
            MachineState {
                index_register: low_word(state.index_register + state.register(register)),
                ..state
            },
        ),
        OpCode::MemMoveToRegChar { .. } => Err(Fault::UnimplementedOperation),
        OpCode::StoreBCD { .. } => Err(Fault::UnimplementedOperation),
        OpCode::RegDump { register } => state.dump_registers(register),
        OpCode::RegLoad { register } => state.load_registers(register),
    }
}

/// Whether a machine that was `before` and is `after`, together with the `result`
/// that was reported, is what an instruction with the outcome `outcome` leaves
/// behind: on success the machine that the outcome names, on a fault that fault and
/// the machine as it was.
pub open spec fn settles(
    outcome: Result<MachineState, Fault>,
    before: MachineState,
    after: MachineState,
    result: Result<(), Fault>,
) -> bool {
    match outcome {
        Ok(next) => result is Ok && after == next,
        Err(fault) => result == Err::<(), Fault>(fault) && after == before,
    }
}

/// Whether `after` and `result` are what executing `opcode` with the random byte
/// `random` leaves of a machine that was `before`.
pub open spec fn steps_to(
    before: MachineState,
    opcode: OpCode,
    random: u8,
    after: MachineState,
    result: Result<(), Fault>,
) -> bool {
    settles(step(before, opcode, random), before, after, result)
}

/// What was put on the call stack last comes off first, and leaves the call stack as
/// it was before. Putting it there needs room for one more address.
pub proof fn lemma_push_then_pop(state: MachineState, address: u16)
    requires
        state.stack.len() < STACK_CAPACITY,
    ensures
        state.push(address) matches Ok(pushed) && pushed.pop() == Ok::<
            (MachineState, u16),
            Fault,
        >((state, address)),
{
    let pushed = state.push(address).unwrap();
    assert(pushed.pop().unwrap().0.stack =~= state.stack);
}

/// A call that is followed at once by the return from it leaves the machine as it
/// was before the call: the program counter is back where it was and the call
/// stack is as deep as it was. The call itself needs room for one more return
/// address on the call stack.
pub proof fn lemma_call_then_return(
    state: MachineState,
    target: u16,
    random_at_call: u8,
    random_at_return: u8,
)
    requires
        state.stack.len() < STACK_CAPACITY,
    ensures
        step(state, OpCode::Subroutine { target }, random_at_call) matches Ok(called) && {
            &&& called.program_counter == target
            &&& called.stack.len() == state.stack.len() + 1
            &&& step(called, OpCode::Return, random_at_return) matches Ok(returned) && {
                &&& returned.program_counter == state.program_counter
                &&& returned.stack.len() == state.stack.len()
                &&& returned == state
            }
        },
{
    let called = step(state, OpCode::Subroutine { target }, random_at_call).unwrap();
    let returned = step(called, OpCode::Return, random_at_return).unwrap();
    assert(returned.stack =~= state.stack);
}

/// A return with no call under way is a stack underflow.
pub proof fn lemma_return_on_empty_stack(state: MachineState, random: u8)
    requires
        state.stack.len() == 0,
    ensures
        step(state, OpCode::Return, random) == Err::<MachineState, Fault>(Fault::StackUnderflow),
{
}

/// A call with the call stack at its capacity is a stack overflow.
pub proof fn lemma_call_on_full_stack(state: MachineState, target: u16, random: u8)
    requires
        state.stack.len() >= STACK_CAPACITY,
    ensures
        step(state, OpCode::Subroutine { target }, random) == Err::<MachineState, Fault>(
            Fault::StackOverflow,
        ),
{
}

/// No instruction takes the machine out of its bounds: after it, memory and
/// register file have their sizes still, and the call stack is within its capacity.
pub proof fn lemma_step_preserves_wf(state: MachineState, opcode: OpCode, random: u8)
    requires
        state.wf(),
        opcode.registers_in_range(),
    ensures
        step(state, opcode, random) matches Ok(next) ==> next.wf(),
{
}

/// Only the instruction that asks for a random byte depends on it: every other
/// instruction does the same whatever byte the source would give.
pub proof fn lemma_random_matters_to_rand_only(
    state: MachineState,
    opcode: OpCode,
    random: u8,
    other: u8,
)
    requires
        !(opcode is RandToReg),
    ensures
        step(state, opcode, random) == step(state, opcode, other),
{
}

} // verus!
