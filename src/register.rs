//! The register handle: a register address, a target core and a buffered value.
use vstd::prelude::*;

use crate::packing::{high_half, join_halves, joined, low_half, split_value};

verus! {

/// The operands of one write instruction: the register address and the two
/// halves of the value, each in its own operand slot.
#[derive(Clone, Copy, Debug, PartialEq, Eq, Structural)]
pub struct WriteOperands {
    pub reg: u32,
    pub low: u32,
    pub high: u32,
}

/// A model-specific register on one logical CPU, with a 64-bit value buffer.
///
/// `cpu` is descriptive: the access path that executes the instructions must
/// target that core. Nothing here serialises access to the hardware register.
pub struct Msr {
    /// The address of the register.
    pub reg: u32,
    /// The logical CPU whose register is meant.
    pub cpu: u16,
    buffer: u64,
}

/// Exchanging a handle's buffered value with the hardware register.
///
/// The instructions themselves run in the caller's privileged access path:
/// `read` takes the two halves that the read instruction returned, and
/// `write` gives the operands to hand to the write instruction.
pub trait Accessor {
    /// The address of the register the handle targets.
    spec fn register_address(&self) -> u32;

    /// The logical CPU the handle targets.
    spec fn core_id(&self) -> u16;

    /// The value held in the handle's buffer.
    spec fn buffered(&self) -> u64;

    /// Stores the value that the read instruction returned as `low` and `high`
    /// halves into the buffer, and returns it.
    fn read(&mut self, low: u32, high: u32) -> (r: u64)
        ensures
            r == joined(low, high),
            final(self).buffered() == r,
            final(self).register_address() == old(self).register_address(),
            final(self).core_id() == old(self).core_id(),
    ;

    /// The operands that push the buffered value to the register: its low
    /// half and its high half, for the handle's register address.
    fn write(&self) -> (ops: WriteOperands)
        ensures
            ops.reg == self.register_address(),
            ops.low == low_half(self.buffered()),
            ops.high == high_half(self.buffered()),
    ;
}

impl Msr {
    /// A handle for register `reg` on CPU `cpu`, with a zero buffer.
    pub fn new(reg: u32, cpu: u16) -> (m: Self)
        ensures
            m.register_address() == reg,
            m.core_id() == cpu,
            m.buffered() == 0,
    {
        Msr { reg, cpu, buffer: 0 }
    }

    /// The buffered value, with no hardware access and no change to the handle.
    pub fn read_value(&mut self) -> (r: u64)
        ensures
            r == old(self).buffered(),
            *final(self) == *old(self),
    {
        self.buffer
    }

    /// Replaces the buffered value with `value`, to be pushed by a later write.
    pub fn set_value(&mut self, value: u64)
        ensures
            final(self).buffered() == value,
            final(self).register_address() == old(self).register_address(),
            final(self).core_id() == old(self).core_id(),
    {
        self.buffer = value;
    }
}

impl Accessor for Msr {
    closed spec fn register_address(&self) -> u32 {
        self.reg
    }

    closed spec fn core_id(&self) -> u16 {
        self.cpu
    }

    closed spec fn buffered(&self) -> u64 {
        self.buffer
    }

    fn read(&mut self, low: u32, high: u32) -> (r: u64) {
        self.buffer = join_halves(low, high);
        self.read_value()
    }

    fn write(&self) -> (ops: WriteOperands) {
        let (low, high) = split_value(self.buffer);
        WriteOperands { reg: self.reg, low, high }
    }
}

} // verus!
