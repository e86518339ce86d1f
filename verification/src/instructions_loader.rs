//! Instruction metadata: the immutable descriptor that records, for one
//! opcode, what bytes it consumes, how long it takes, which condition gates
//! it, and what it does to each flag. The descriptors themselves are built
//! by `lr35902_instructions_impl`; this module only defines their shape.

use vstd::prelude::*;

verus! {

/// An 8-bit register of the register file.
#[derive(Clone, Copy, Debug, PartialEq, Eq)]
pub enum Reg8 {
    A,
    B,
    C,
    D,
    E,
    H,
    L,
}

/// A 16-bit composite view of the register file, or the stack pointer.
#[derive(Clone, Copy, Debug, PartialEq, Eq)]
pub enum Reg16 {
    Af,
    Bc,
    De,
    Hl,
    Sp,
}

/// The condition gating a conditional jump, call or return. `Always` is the
/// unconditional case; the others test the Zero or Carry flag.
#[derive(Clone, Copy, Debug, PartialEq, Eq)]
pub enum Cond {
    Always,
    Z,
    Nz,
    Cy,
    Nc,
}

/// What one instruction does to one flag: forces it, computes it from the
/// result, or leaves it exactly as it was. This policy is recorded per
/// instruction, never inferred.
#[derive(Clone, Copy, Debug, PartialEq, Eq)]
pub enum FlagEffect {
    AlwaysSet,
    AlwaysReset,
    FromResult,
    Unaffected,
}

/// The immutable description of one opcode: identity, operand length in
/// bytes (opcode included), cycle cost under this core's flat charge model
/// (base, and the cheaper cost when the condition is not taken), condition,
/// and the per-flag policy.
#[derive(Clone, Copy, Debug)]
pub struct Instruction {
    pub opcode: u8,
    pub mnemonic: &'static str,
    pub length: u8,
    pub cycles: u8,
    pub cycles_not_taken: u8,
    pub condition: Cond,
    pub z: FlagEffect,
    pub n: FlagEffect,
    pub h: FlagEffect,
    pub c: FlagEffect,
}

/// A descriptor is well formed when its length is one of the three encodable
/// instruction sizes.
pub open spec fn instruction_wf(i: Instruction) -> bool {
    1 <= i.length <= 3
}

impl Instruction {
    pub fn new(
        opcode: u8,
        mnemonic: &'static str,
        length: u8,
        cycles: u8,
        cycles_not_taken: u8,
        condition: Cond,
        z: FlagEffect,
        n: FlagEffect,
        h: FlagEffect,
        c: FlagEffect,
    ) -> (r: Instruction)
        requires
            1 <= length <= 3,
        ensures
            r == (Instruction { opcode, mnemonic, length, cycles, cycles_not_taken, condition, z, n, h, c }),
            instruction_wf(r),
    {
        Instruction { opcode, mnemonic, length, cycles, cycles_not_taken, condition, z, n, h, c }
    }
}

} // verus!
