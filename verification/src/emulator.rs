//! The CHIP-8 machine: its state, its instruction set and how instructions act on it.

use crate::emulator::random::RNG;
use vstd::prelude::*;

/// Execution of instructions.
pub mod command_execution;
/// Instructions and their two-byte encoding.
pub mod opcode;
/// The source of random bytes.
pub mod random;
/// Access to the registers.
pub mod reg_ops;
/// What each instruction does to the machine, as a function on machine states.
pub mod semantics;

verus! {

/// The number of bytes of memory, at the addresses `0x000` to `0xFFF`.
pub const MEMORY_SIZE: usize = 4096;

/// The number of general registers.
pub const REGISTER_COUNT: usize = 16;

/// The index of the register that arithmetic and shifts use as their flag.
pub const FLAG_REGISTER: u8 = 15;

/// The number of return addresses that the call stack can hold: the depth to which
/// subroutine calls can nest.
pub const STACK_CAPACITY: usize = 12;

/// Why an instruction could not be executed. The machine is left as it was.
#[derive(PartialEq, Eq, Structural, Copy, Clone, Debug)]
pub enum Fault {
    /// A return with no call to return from.
    StackUnderflow,
    /// A call with the call stack already full.
    StackOverflow,
    /// An access to memory beyond its last byte.
    MemoryOutOfBounds,
    /// An instruction for the screen, the keypad or the built-in font, none of which
    /// this core has.
    UnimplementedOperation,
    /// The native call, which must never be executed.
    IllegalNativeCall,
}

/// The CHIP-8 machine.
pub struct Emulator {
    /// The memory. The bytes below `0x200` belong to the interpreter, programs are
    /// loaded from `0x200` on.
    pub memory: [u8; 4096],
    /// The general registers `V0` to `VF`. `VF` doubles as the flag of arithmetic
    /// and shifts.
    pub registers: [u8; 16],
    /// The index register `I`, which holds a memory address.
    pub index_register: u16,
    /// The address of the current instruction.
    pub program_counter: u16,
    /// The return addresses of the subroutine calls under way, innermost last.
    pub stack: Vec<u16>,
    /// The delay timer.
    pub delay_timer: u8,
    /// The sound timer.
    pub sound_timer: u8,
    /// The source of random bytes.
    pub rng: RNG,
}

/// The machine as a mathematical value: all of it but the source of random bytes.
#[verifier::ext_equal]
pub struct MachineState {
    /// The bytes of memory, by address.
    pub memory: Seq<u8>,
    /// The general registers, by index.
    pub registers: Seq<u8>,
    /// The index register.
    pub index_register: u16,
    /// The program counter.
    pub program_counter: u16,
    /// The call stack, innermost return address last.
    pub stack: Seq<u16>,
    /// The delay timer.
    pub delay_timer: u8,
    /// The sound timer.
    pub sound_timer: u8,
}

impl MachineState {
    /// The machine after a reset: every byte, register, counter and timer zero, no
    /// call under way.
    pub open spec fn initial() -> MachineState {
        MachineState {
            memory: Seq::new(MEMORY_SIZE as nat, |address: int| 0u8),
            registers: Seq::new(REGISTER_COUNT as nat, |register: int| 0u8),
            index_register: 0,
            program_counter: 0,
            stack: Seq::empty(),
            delay_timer: 0,
            sound_timer: 0,
        }
    }

    /// Memory and register file have their sizes, and the call stack is within its
    /// capacity.
    pub open spec fn wf(self) -> bool {
        &&& self.memory.len() == MEMORY_SIZE
        &&& self.registers.len() == REGISTER_COUNT
        &&& self.stack.len() <= STACK_CAPACITY
    }
}

impl View for Emulator {
    type V = MachineState;

    open spec fn view(&self) -> MachineState {
        MachineState {
            memory: self.memory@,
            registers: self.registers@,
            index_register: self.index_register,
            program_counter: self.program_counter,
            stack: self.stack@,
            delay_timer: self.delay_timer,
            sound_timer: self.sound_timer,
        }
    }
}

impl Emulator {
    /// The call stack is within its capacity. A machine starts out so and every
    /// instruction keeps it so.
    pub open spec fn wf(&self) -> bool {
        self@.wf()
    }
}

impl Default for Emulator {
    /// A machine after a reset, with the calling thread's generator as its source of
    /// random bytes.
    fn default() -> (emulator: Self)
        ensures
            emulator@ == MachineState::initial(),
            emulator.wf(),
    {
        let emulator = Self {
            memory: [0; 4096],
            registers: [0; 16],
            index_register: 0,
            program_counter: 0,
            stack: Vec::with_capacity(STACK_CAPACITY),
            delay_timer: 0,
            sound_timer: 0,
            rng: RNG::default(),
        };
        assert(emulator@ =~= MachineState::initial());
        emulator
    }
}

} // verus!
