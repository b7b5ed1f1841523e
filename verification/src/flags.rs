//! Bit-level accessors over the CPU's 8-bit status register.

use vstd::prelude::*;

use crate::cpu::Cpu;

verus! {

/// The architectural flags of the status register, by name.
///
/// `Decimal` and `Unused` are represented but carry no wired behaviour in
/// this core.
#[derive(Debug, Clone, Copy, PartialEq, Eq, Structural)]
pub enum CpuFlags {
    Carry,
    Zero,
    InterruptDisable,
    Decimal,
    BreakFlag,
    Unused,
    Overflow,
    Negative,
}

/// The bit position a flag occupies in the status register.
pub open spec fn spec_flag_bit(flag: CpuFlags) -> u8 {
    match flag {
        CpuFlags::Carry => 0,
        CpuFlags::Zero => 1,
        CpuFlags::InterruptDisable => 2,
        CpuFlags::Decimal => 3,
        CpuFlags::BreakFlag => 4,
        CpuFlags::Unused => 5,
        CpuFlags::Overflow => 6,
        CpuFlags::Negative => 7,
    }
}

/// Executable twin of `spec_flag_bit`.
fn flag_bit(flag: CpuFlags) -> (r: u8)
    ensures
        r == spec_flag_bit(flag),
{
    match flag {
        CpuFlags::Carry => 0,
        CpuFlags::Zero => 1,
        CpuFlags::InterruptDisable => 2,
        CpuFlags::Decimal => 3,
        CpuFlags::BreakFlag => 4,
        CpuFlags::Unused => 5,
        CpuFlags::Overflow => 6,
        CpuFlags::Negative => 7,
    }
}

impl Cpu {
    /// Whether the flag's bit is set in the status register.
    pub fn get_flag(&self, flag: CpuFlags) -> (r: bool)
        ensures
            r == (self.sr & (1u8 << spec_flag_bit(flag)) != 0),
    {
        self.sr & (0x1 << flag_bit(flag)) != 0
    }

    /// Sets the flag's bit in the status register; no other state changes.
    pub fn set_flag(&mut self, flag: CpuFlags)
        ensures
            final(self).sr == old(self).sr | (1u8 << spec_flag_bit(flag)),
            *final(self) == (Cpu { sr: final(self).sr, ..*old(self) }),
    {
        self.sr = self.sr | (0x1 << flag_bit(flag));
    }

    /// Clears the flag's bit in the status register; no other state
    /// changes.
    pub fn clear_flag(&mut self, flag: CpuFlags)
        ensures
            final(self).sr == old(self).sr & !(1u8 << spec_flag_bit(flag)),
            *final(self) == (Cpu { sr: final(self).sr, ..*old(self) }),
    {
        self.sr = self.sr & !(0x1 << flag_bit(flag));
    }
}

} // verus!
