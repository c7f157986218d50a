use crate::emulator::opcode::OpCode;
use crate::emulator::random::RandomByteSource;
use crate::emulator::semantics::settles;
use crate::emulator::semantics::steps_to;
use crate::emulator::Emulator;
use crate::emulator::Fault;
use crate::emulator::MachineState;
use crate::emulator::FLAG_REGISTER;
use crate::emulator::MEMORY_SIZE;
use crate::emulator::STACK_CAPACITY;
use vstd::prelude::*;

verus! {

impl Emulator {
    /// Executes `opcode`, drawing from the machine's own source of random bytes where
    /// the instruction asks for one.
    ///
    /// The machine ends as `step` says for the byte that was drawn. An instruction
    /// that draws none ends the same way whatever the source would have given. On a
    /// fault the machine is left as it was.
    pub fn execute_opcode(&mut self, opcode: OpCode) -> (result: Result<(), Fault>)
        requires
            opcode.registers_in_range(),
        ensures
            exists|random: u8| steps_to(old(self)@, opcode, random, final(self)@, result),
            !(opcode is RandToReg) ==> forall|random: u8|
                steps_to(old(self)@, opcode, random, final(self)@, result),
            opcode is RandToReg || final(self).rng == old(self).rng,
            old(self).wf() ==> final(self).wf(),
    {
        let random: u8 = match opcode {
            OpCode::RandToReg { .. } => self.rng.rand(),
            _ => 0,
        };
        self.apply_opcode(opcode, random)
    }

    /// Executes `opcode`, drawing from `source` where the instruction asks for a
    /// random byte. The machine's own source is left alone.
    pub fn execute_opcode_with<R: RandomByteSource>(
        &mut self,
        opcode: OpCode,
        source: &mut R,
    ) -> (result: Result<(), Fault>)
        requires
            opcode.registers_in_range(),
        ensures
            exists|random: u8| steps_to(old(self)@, opcode, random, final(self)@, result),
            !(opcode is RandToReg) ==> forall|random: u8|
                steps_to(old(self)@, opcode, random, final(self)@, result),
            opcode is RandToReg || *final(source) == *old(source),
            final(self).rng == old(self).rng,
            old(self).wf() ==> final(self).wf(),
    {
        let random: u8 = match opcode {
            OpCode::RandToReg { .. } => source.next(),
            _ => 0,
        };
        self.apply_opcode(opcode, random)
    }

    /// Executes `opcode` with `random` as the byte that the source of random bytes
    /// gave. The machine ends exactly as `step` says; on a fault it is left as it
    /// was.
    // All instructions are proved in one go, which takes more than the default budget.
    #[verifier::rlimit(50)]
    pub fn apply_opcode(&mut self, opcode: OpCode, random: u8) -> (result: Result<(), Fault>)
        requires
            opcode.registers_in_range(),
        ensures
            steps_to(old(self)@, opcode, random, final(self)@, result),
            final(self).rng == old(self).rng,
            old(self).wf() ==> final(self).wf(),
    {
        match opcode {
            OpCode::_NativeCall { target: _ } => Err(Fault::IllegalNativeCall),
            OpCode::ClearScreen => Err(Fault::UnimplementedOperation),
            OpCode::Return => self.ret(),
            OpCode::Goto { target } => {
                self.goto(target);
                Ok(())
            },
            OpCode::Subroutine { target } => self.subroutine(target),
            OpCode::SkipNextIfRegEqualToConst { register, constant } => {
                if self.get_reg(register) == constant {
                    self.skip()
                }
                Ok(())
            },
            OpCode::SkipNextIfRegNotEqualToConst { register, constant } => {
                if self.get_reg(register) != constant {
                    self.skip()
                }
                Ok(())
            },
            OpCode::SkipNextIfRegEqualToReg { register_x, register_y } => {
                let rx: u8 = self.get_reg(register_x);
                let ry: u8 = self.get_reg(register_y);
                if rx == ry {
                    self.skip()
                }
                Ok(())
            },
            OpCode::RegSetConst { register, constant } => {
                self.set_reg(register, constant);
                Ok(())
            },
            OpCode::RegAddConst { register, constant } => {
                let rx: u8 = self.get_reg(register);
                self.set_reg(register, rx.wrapping_add(constant));
                Ok(())
            },
            OpCode::RegMov { register_x, register_y } => {
                let ry: u8 = self.get_reg(register_y);
                self.set_reg(register_x, ry);
                Ok(())
            },
            OpCode::RegBitwiseOr { register_x, register_y } => {
                let rx: u8 = self.get_reg(register_x);
                let ry: u8 = self.get_reg(register_y);
                self.set_reg(register_x, rx | ry);
                Ok(())
            },
            OpCode::RegBitwiseAnd { register_x, register_y } => {
                let rx: u8 = self.get_reg(register_x);
                let ry: u8 = self.get_reg(register_y);
                self.set_reg(register_x, rx & ry);
                Ok(())
            },
            OpCode::RegBitwiseXor { register_x, register_y } => {
                let rx: u8 = self.get_reg(register_x);
                let ry: u8 = self.get_reg(register_y);
                self.set_reg(register_x, rx ^ ry);
                Ok(())
            },
            OpCode::RegAdd { register_x, register_y } => {
                let rx: u8 = self.get_reg(register_x);
                let ry: u8 = self.get_reg(register_y);
                self.set_reg(register_x, rx.wrapping_add(ry));
                self.set_reg(FLAG_REGISTER, if ry > 255 - rx { 1 } else { 0 });
                Ok(())
            },
            OpCode::RegSub { register_x, register_y } => {
                let rx: u8 = self.get_reg(register_x);
                let ry: u8 = self.get_reg(register_y);
                self.set_reg(register_x, rx.wrapping_sub(ry));
                self.set_reg(FLAG_REGISTER, if rx >= ry { 1 } else { 0 });
                Ok(())
            },
            OpCode::RegRightShift { register } => {
                let rx: u8 = self.get_reg(register);
                assert(rx >> 1 == rx / 2) by (bit_vector);
                self.set_reg(FLAG_REGISTER, rx % 2);
                self.set_reg(register, rx >> 1);
                Ok(())
            },
            OpCode::RegReverseSub { register_x, register_y } => {
                let rx: u8 = self.get_reg(register_x);
                let ry: u8 = self.get_reg(register_y);
                self.set_reg(register_x, ry.wrapping_sub(rx));
                self.set_reg(FLAG_REGISTER, if ry >= rx { 1 } else { 0 });
                Ok(())
            },
            OpCode::RegLeftShift { register } => {
                let rx: u8 = self.get_reg(register);
                assert(rx >> 7 == rx / 128) by (bit_vector);
                assert(rx << 1 == (rx * 2) % 256) by (bit_vector);
                self.set_reg(FLAG_REGISTER, rx >> 7);
                self.set_reg(register, rx << 1);
                Ok(())
            },
            OpCode::SkipNextIfRegNotEqualToReg { register_x, register_y } => {
                let rx: u8 = self.get_reg(register_x);
                let ry: u8 = self.get_reg(register_y);
                if rx != ry {
                    self.skip()
                }
                Ok(())
            },
            OpCode::Mem { target } => {
                self.index_register = target;
                Ok(())
            },
            OpCode::JumpRegZero { target } => {
                let offset: u16 = self.get_reg(0) as u16;
                self.goto(target.wrapping_add(offset));
                Ok(())
            },
            OpCode::RandToReg { register, constant } => {
                self.set_reg(register, random & constant);
                Ok(())
            },
            OpCode::DisplaySprite { coord_x: _, coord_y: _, height: _ } => Err(
                Fault::UnimplementedOperation,
            ),
            OpCode::SkipNextIfRegKeyPressed { register: _ } => Err(Fault::UnimplementedOperation),
            OpCode::SkipNextIfRegKeyNotPressed { register: _ } => Err(
                Fault::UnimplementedOperation,
            ),
            OpCode::SetRegToDelayTimer { register } => {
                let timer: u8 = self.delay_timer;
                self.set_reg(register, timer);
                Ok(())
            },
            OpCode::SetRegToKeyPressed { register: _ } => Err(Fault::UnimplementedOperation),
            OpCode::SetDelayTimerToReg { register } => {
                self.delay_timer = self.get_reg(register);
                Ok(())
            },
            OpCode::SetSoundTimerToReg { register } => {
                self.sound_timer = self.get_reg(register);
                Ok(())
            },
            OpCode::MemAddReg { register } => {
                let offset: u16 = self.get_reg(register) as u16;
                self.index_register = self.index_register.wrapping_add(offset);
                Ok(())
            },
            OpCode::MemMoveToRegChar { register: _ } => Err(Fault::UnimplementedOperation),
            OpCode::StoreBCD { register: _ } => Err(Fault::UnimplementedOperation),
            OpCode::RegDump { register } => self.reg_dump(register),
            OpCode::RegLoad { register } => self.reg_load(register),
        }
    }

    /// Moves the program counter to `dest`.
    pub fn goto(&mut self, dest: u16)
        ensures
            final(self)@ == old(self)@.jump(dest),
            final(self).rng == old(self).rng,
    {
        self.program_counter = dest;
    }

    /// Starts the subroutine at `dest`: puts the program counter on the call stack and
    /// moves it to `dest`. With the call stack full, reports `StackOverflow` and
    /// changes nothing.
    pub fn subroutine(&mut self, dest: u16) -> (result: Result<(), Fault>)
        ensures
            settles(old(self)@.call(dest), old(self)@, final(self)@, result),
            final(self).rng == old(self).rng,
    {
        let here: u16 = self.program_counter;
        match self.push_address(here) {
            Ok(()) => {
                self.goto(dest);
                Ok(())
            },
            Err(fault) => Err(fault),
        }
    }

    /// Returns from a subroutine: takes the top of the call stack off and moves the
    /// program counter there. With the call stack empty, reports `StackUnderflow`
    /// and changes nothing.
    pub fn ret(&mut self) -> (result: Result<(), Fault>)
        ensures
            settles(old(self)@.ret(), old(self)@, final(self)@, result),
            final(self).rng == old(self).rng,
    {
        match self.pop_address() {
            Ok(address) => {
                self.goto(address);
                Ok(())
            },
            Err(fault) => Err(fault),
        }
    }

    /// Puts `address` on top of the call stack. With the call stack at its
    /// capacity, reports `StackOverflow` and changes nothing.
    pub fn push_address(&mut self, address: u16) -> (result: Result<(), Fault>)
        ensures
            settles(old(self)@.push(address), old(self)@, final(self)@, result),
            final(self).rng == old(self).rng,
    {
        if self.stack.len() >= STACK_CAPACITY {
            return Err(Fault::StackOverflow);
        }
        self.stack.push(address);
        Ok(())
    }

    /// Takes the top of the call stack off and hands it out. With the call stack
    /// empty, reports `StackUnderflow` and changes nothing.
    pub fn pop_address(&mut self) -> (result: Result<u16, Fault>)
        ensures
            match old(self)@.pop() {
                Ok((popped, address)) => result == Ok::<u16, Fault>(address) && final(self)@
                    == popped,
                Err(fault) => result == Err::<u16, Fault>(fault) && final(self)@ == old(self)@,
            },
            final(self).rng == old(self).rng,
    {
        match self.stack.pop() {
            Some(address) => {
                assert(self@ =~= old(self)@.pop().unwrap().0);
                Ok(address)
            },
            None => Err(Fault::StackUnderflow),
        }
    }

    /// Skips the next instruction: moves the program counter on by two bytes.
    pub fn skip(&mut self)
        ensures
            final(self)@ == old(self)@.skip(),
            final(self).rng == old(self).rng,
    {
        self.program_counter = self.program_counter.wrapping_add(2);
    }

    /// Stores the registers 0 to `last` inclusive in memory, from the address in the
    /// index register on. Where they do not fit below the end of memory, reports
    /// `MemoryOutOfBounds` and stores nothing.
    pub fn reg_dump(&mut self, last: u8) -> (result: Result<(), Fault>)
        requires
            last < 16,
        ensures
            settles(old(self)@.dump_registers(last), old(self)@, final(self)@, result),
            final(self).rng == old(self).rng,
    {
        let base: usize = self.index_register as usize;
        if base + last as usize >= MEMORY_SIZE {
            return Err(Fault::MemoryOutOfBounds);
        }
        let mut i: u8 = 0;
        while i <= last
            invariant
                last < 16,
                i <= last + 1,
                base == old(self)@.index_register,
                base + last < MEMORY_SIZE,
                self.rng == old(self).rng,
                self@ == (MachineState {
                    memory: Seq::new(
                        MEMORY_SIZE as nat,
                        |address: int|
                            if base <= address < base + i {
                                old(self)@.registers[address - base]
                            } else {
                                old(self)@.memory[address]
                            },
                    ),
                    ..old(self)@
                }),
            decreases last + 1 - i,
        {
            let value: u8 = self.get_reg(i);
            self.memory[base + i as usize] = value;
            i = i + 1;
        }
        assert(self@ =~= old(self)@.dump_registers(last).unwrap());
        Ok(())
    }

    /// Fills the registers 0 to `last` inclusive from memory, from the address in the
    /// index register on. Where that reaches beyond the end of memory, reports
    /// `MemoryOutOfBounds` and fills nothing.
    pub fn reg_load(&mut self, last: u8) -> (result: Result<(), Fault>)
        requires
            last < 16,
        ensures
            settles(old(self)@.load_registers(last), old(self)@, final(self)@, result),
            final(self).rng == old(self).rng,
    {
        let base: usize = self.index_register as usize;
        if base + last as usize >= MEMORY_SIZE {
            return Err(Fault::MemoryOutOfBounds);
        }
        let mut i: u8 = 0;
        while i <= last
            invariant
                last < 16,
                i <= last + 1,
                base == old(self)@.index_register,
                base + last < MEMORY_SIZE,
                self.rng == old(self).rng,
                self@ == (MachineState {
                    registers: Seq::new(
                        16,
                        |register: int|
                            if 0 <= register < i {
                                old(self)@.memory[base + register]
                            } else {
                                old(self)@.registers[register]
                            },
                    ),
                    ..old(self)@
                }),
            decreases last + 1 - i,
        {
            let value: u8 = self.memory[base + i as usize];
            self.set_reg(i, value);
            i = i + 1;
        }
        assert(self@ =~= old(self)@.load_registers(last).unwrap());
        Ok(())
    }
}

} // verus!
