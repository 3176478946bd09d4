//! The state of the machine: registers, program counter, stack pointer,
//! memory, flags and the halted indicator.

use vstd::prelude::*;

verus! {

/// The state of the machine.
///
/// Code, data and stack share the one memory. The stack lives at its high
/// end, between `STACK_MIN` and `STACK_MAX`, and grows downwards.
#[allow(clippy::upper_case_acronyms)]
#[derive(Debug, Clone, Copy)]
pub struct CPU {
    pub registers: [u8; 16],
    pub pc: u8,
    pub sp: u8,
    pub memory: [u8; 256],
    pub flags: u8,
    pub is_halted: bool,
}

/// The state of the machine as plain values.
pub struct CpuState {
    pub registers: Seq<u8>,
    pub pc: u8,
    pub sp: u8,
    pub memory: Seq<u8>,
    pub flags: u8,
    pub halted: bool,
}

impl View for CPU {
    type V = CpuState;

    open spec fn view(&self) -> CpuState {
        CpuState {
            registers: self.registers@,
            pc: self.pc,
            sp: self.sp,
            memory: self.memory@,
            flags: self.flags,
            halted: self.is_halted,
        }
    }
}

/// The flags with the bits of `bit` set.
pub open spec fn flags_set(flags: u8, bit: u8) -> u8 {
    flags | bit
}

/// The flags with the bits of `bit` cleared.
pub open spec fn flags_clear(flags: u8, bit: u8) -> u8 {
    flags & !bit
}

/// Whether any bit of `bit` is set in the flags.
pub open spec fn flags_get(flags: u8, bit: u8) -> bool {
    (flags & bit) != 0
}

/// The flags after a result: Z is set if and only if the result is zero, N
/// if and only if its highest bit is set. The other flags stay.
pub open spec fn flags_zn(flags: u8, result: u8) -> u8 {
    let z = if result == 0 {
        flags_set(flags, CPU::FLAG_Z)
    } else {
        flags_clear(flags, CPU::FLAG_Z)
    };
    if result & 0x80 == 0 {
        flags_clear(z, CPU::FLAG_N)
    } else {
        flags_set(z, CPU::FLAG_N)
    }
}

/// The flags with C set if and only if `carry` holds. The other flags stay.
pub open spec fn flags_carry(flags: u8, carry: bool) -> u8 {
    if carry {
        flags_set(flags, CPU::FLAG_C)
    } else {
        flags_clear(flags, CPU::FLAG_C)
    }
}

impl CpuState {
    /// The state of a machine that was just made.
    pub open spec fn initial() -> CpuState {
        CpuState {
            registers: Seq::new(16, |i: int| 0u8),
            pc: 0,
            sp: CPU::STACK_MAX,
            memory: Seq::new(256, |i: int| 0u8),
            flags: 0,
            halted: false,
        }
    }

    /// Sixteen registers, 256 bytes of memory.
    pub open spec fn well_formed(self) -> bool {
        self.registers.len() == 16 && self.memory.len() == 256
    }

    /// The stack pointer is within the stack.
    pub open spec fn stack_in_bounds(self) -> bool {
        CPU::STACK_MIN <= self.sp <= CPU::STACK_MAX
    }
}

impl Default for CPU {
    fn default() -> (cpu: CPU)
        ensures
            cpu@ == CpuState::initial(),
    {
        CPU::new()
    }
}

impl CPU {
    /// Zero: set when a result is zero.
    pub const FLAG_Z: u8 = 0b0000_0001;

    /// Carry: set when an operation overflowed or moved a 1 out.
    pub const FLAG_C: u8 = 0b0000_0010;

    /// Negative: set when the highest bit of a result is set.
    pub const FLAG_N: u8 = 0b0000_0100;

    /// A flag that no operation touches.
    pub const FLAG_Y: u8 = 0b0000_1000;

    /// The highest address of the stack, where the stack pointer starts.
    pub const STACK_MAX: u8 = 0xFF;

    /// The lowest address of the stack.
    pub const STACK_MIN: u8 = 0xEA;

    /// A machine with everything zero, but the stack pointer at
    /// `STACK_MAX`.
    #[must_use]
    pub fn new() -> (cpu: CPU)
        ensures
            cpu@ == CpuState::initial(),
    {
        let cpu = CPU {
            registers: [0; 16],
            pc: 0,
            sp: 0xFF,
            memory: [0; 256],
            flags: 0,
            is_halted: false,
        };
        assert(cpu@.registers =~= CpuState::initial().registers);
        assert(cpu@.memory =~= CpuState::initial().memory);
        cpu
    }

    /// Sets the flags given in `bit`.
    pub fn set_flag(&mut self, bit: u8)
        ensures
            final(self)@ == (CpuState { flags: flags_set(old(self).flags, bit), ..old(self)@ }),
    {
        self.flags |= bit;
    }

    /// Clears the flags given in `bit`.
    pub fn clear_flag(&mut self, bit: u8)
        ensures
            final(self)@ == (CpuState { flags: flags_clear(old(self).flags, bit), ..old(self)@ }),
    {
        self.flags &= !bit;
    }

    /// Whether any of the flags given in `bit` is set.
    pub fn get_flag(&self, bit: u8) -> (on: bool)
        ensures
            on == flags_get(self.flags, bit),
    {
        (self.flags & bit) != 0
    }

    /// Sets Z if and only if the result is zero, and N if and only if its
    /// highest bit is set.
    pub fn update_zn_flags(&mut self, result: u8)
        ensures
            final(self)@ == (CpuState { flags: flags_zn(old(self).flags, result), ..old(self)@ }),
    {
        match result {
            0 => self.set_flag(Self::FLAG_Z),
            _ => self.clear_flag(Self::FLAG_Z),
        }
        match result & 0x80 {
            0 => self.clear_flag(Self::FLAG_N),
            _ => self.set_flag(Self::FLAG_N),
        }
    }

    /// Sets C if and only if `carry` holds.
    pub fn update_carry_flag(&mut self, carry: bool)
        ensures
            final(self)@ == (CpuState { flags: flags_carry(old(self).flags, carry), ..old(self)@ }),
    {
        if carry {
            self.set_flag(Self::FLAG_C);
        } else {
            self.clear_flag(Self::FLAG_C);
        }
    }
}

/// After a result, Z tells whether it was zero and N whether it was 128 or
/// more; C and the fourth flag are as before.
pub proof fn lemma_flags_zn(flags: u8, result: u8)
    ensures
        flags_get(flags_zn(flags, result), CPU::FLAG_Z) == (result == 0),
        flags_get(flags_zn(flags, result), CPU::FLAG_N) == (result >= 128),
        flags_get(flags_zn(flags, result), CPU::FLAG_C) == flags_get(flags, CPU::FLAG_C),
        flags_get(flags_zn(flags, result), CPU::FLAG_Y) == flags_get(flags, CPU::FLAG_Y),
{
    assert((result & 0x80 == 0) == (result < 128)) by (bit_vector);
    assert(((flags | 1) & 1) != 0) by (bit_vector);
    assert(((flags & !1u8) & 1) == 0) by (bit_vector);
    assert((((flags | 1) | 4) & 1) != 0) by (bit_vector);
    assert((((flags | 1) & !4u8) & 1) != 0) by (bit_vector);
    assert((((flags & !1u8) | 4) & 1) == 0) by (bit_vector);
    assert((((flags & !1u8) & !4u8) & 1) == 0) by (bit_vector);
    assert((((flags | 1) | 4) & 4) != 0) by (bit_vector);
    assert((((flags & !1u8) | 4) & 4) != 0) by (bit_vector);
    assert((((flags | 1) & !4u8) & 4) == 0) by (bit_vector);
    assert((((flags & !1u8) & !4u8) & 4) == 0) by (bit_vector);
    assert((((flags | 1) | 4) & 2) == (flags & 2)) by (bit_vector);
    assert((((flags | 1) & !4u8) & 2) == (flags & 2)) by (bit_vector);
    assert((((flags & !1u8) | 4) & 2) == (flags & 2)) by (bit_vector);
    assert((((flags & !1u8) & !4u8) & 2) == (flags & 2)) by (bit_vector);
    assert((((flags | 1) | 4) & 8) == (flags & 8)) by (bit_vector);
    assert((((flags | 1) & !4u8) & 8) == (flags & 8)) by (bit_vector);
    assert((((flags & !1u8) | 4) & 8) == (flags & 8)) by (bit_vector);
    assert((((flags & !1u8) & !4u8) & 8) == (flags & 8)) by (bit_vector);
}

/// After a carry, C tells whether there was one; the other flags are as
/// before.
pub proof fn lemma_flags_carry(flags: u8, carry: bool)
    ensures
        flags_get(flags_carry(flags, carry), CPU::FLAG_C) == carry,
        flags_get(flags_carry(flags, carry), CPU::FLAG_Z) == flags_get(flags, CPU::FLAG_Z),
        flags_get(flags_carry(flags, carry), CPU::FLAG_N) == flags_get(flags, CPU::FLAG_N),
        flags_get(flags_carry(flags, carry), CPU::FLAG_Y) == flags_get(flags, CPU::FLAG_Y),
{
    assert(((flags | 2) & 2) != 0) by (bit_vector);
    assert(((flags & !2u8) & 2) == 0) by (bit_vector);
    assert(((flags | 2) & 1) == (flags & 1)) by (bit_vector);
    assert(((flags & !2u8) & 1) == (flags & 1)) by (bit_vector);
    assert(((flags | 2) & 4) == (flags & 4)) by (bit_vector);
    assert(((flags & !2u8) & 4) == (flags & 4)) by (bit_vector);
    assert(((flags | 2) & 8) == (flags & 8)) by (bit_vector);
    assert(((flags & !2u8) & 8) == (flags & 8)) by (bit_vector);
}

} // verus!
