use crate::emulator::Emulator;
use crate::emulator::MachineState;
use vstd::prelude::*;

verus! {

impl MachineState {
    /// The value of the register `register`.
    pub open spec fn register(self, register: u8) -> u8 {
        self.registers[register as int]
    }

    /// The machine with `value` in the register `register` and all else as it is.
    pub open spec fn set_register(self, register: u8, value: u8) -> MachineState {
        MachineState { registers: self.registers.update(register as int, value), ..self }
    }
}

impl Emulator {
    /// Reads the register `register`.
    pub fn get_reg(&self, register: u8) -> (value: u8)
        requires
            register < 16,
        ensures
            value == self@.register(register),
    {
        self.registers[register as usize]
    }

    /// Writes `value` to the register `register`.
    pub fn set_reg(&mut self, register: u8, value: u8)
        requires
            register < 16,
        ensures
            final(self)@ == old(self)@.set_register(register, value),
            final(self).rng == old(self).rng,
    {
        self.registers[register as usize] = value;
        assert(self@ =~= old(self)@.set_register(register, value));
    }

    /// Lets `x` work on the register `register` in place: `x` is handed the
    /// register's value, and what it leaves there is the register's new value.
    pub fn reg_op<T>(&mut self, register: u8, x: T) where T: Fn(&mut u8)
        requires
            register < 16,
            forall|cell: &mut u8|
                *cell == old(self)@.register(register) ==> call_requires(x, (cell,)),
        ensures
            exists|cell: &mut u8|
                {
                    &&& *cell == old(self)@.register(register)
                    &&& call_ensures(x, (cell,), ())
                    &&& final(self)@ == old(self)@.set_register(register, *final(cell))
                },
            final(self).rng == old(self).rng,
    {
        x(&mut self.registers[register as usize]);
        assert(self@ =~= old(self)@.set_register(register, self@.register(register)));
    }
}

} // verus!
