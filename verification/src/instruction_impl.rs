//! The executable side of the instruction table: the semantic operation an
//! opcode performs, paired with its descriptor. Operations are a closed sum
//! type, so the execution engine dispatches by exhaustive match and an
//! unhandled operand combination cannot exist once a table entry names its
//! operation.

use vstd::prelude::*;

use crate::instructions_loader::{Cond, FlagEffect, Instruction, Reg16, Reg8, instruction_wf};

verus! {

/// An arithmetic-logic operation on the accumulator.
#[derive(Clone, Copy, Debug, PartialEq, Eq)]
pub enum AluOp {
    Add,
    Adc,
    Sub,
    Sbc,
    And,
    Xor,
    Or,
    Cp,
}

/// A CB-prefixed operation: a shift/rotate family member, or a single-bit
/// test, reset or set.
#[derive(Clone, Copy, Debug, PartialEq, Eq)]
pub enum CbOp {
    Rlc,
    Rrc,
    Rl,
    Rr,
    Sla,
    Sra,
    Swap,
    Srl,
    BitTest(u8),
    ResBit(u8),
    SetBit(u8),
}

/// The semantic operation of one table entry. Every defined opcode maps to
/// exactly one variant; `IllegalOp` marks opcodes the hardware documents as
/// permanently invalid, and `Unimplemented` marks an entry whose semantics a
/// table deliberately leaves open (executing it is a fatal,
/// distinguishable error, not a hardware condition).
#[derive(Clone, Copy, Debug, PartialEq, Eq)]
pub enum Op {
    Nop,
    Halt,
    Stop,
    IllegalOp,
    Unimplemented,
    CbPrefix,
    LdRR(Reg8, Reg8),
    LdRD8(Reg8),
    LdRHl(Reg8),
    LdHlR(Reg8),
    LdHlD8,
    LdAInd(Reg16),
    LdIndA(Reg16),
    LdAHli,
    LdAHld,
    LdHliA,
    LdHldA,
    LdAA16,
    LdA16A,
    LdhAD8,
    LdhD8A,
    LdhAC,
    LdhCA,
    LdRrD16(Reg16),
    LdA16Sp,
    LdSpHl,
    LdHlSpD8,
    Alu(AluOp, Reg8),
    AluHl(AluOp),
    AluD8(AluOp),
    IncR(Reg8),
    DecR(Reg8),
    IncHlInd,
    DecHlInd,
    IncRr(Reg16),
    DecRr(Reg16),
    AddHlRr(Reg16),
    AddSpD8,
    Daa,
    Cpl,
    Scf,
    Ccf,
    Rlca,
    Rrca,
    Rla,
    Rra,
    Jp(Cond),
    JpHl,
    Jr(Cond),
    Call(Cond),
    Ret(Cond),
    Reti,
    Rst(u8),
    Push(Reg16),
    Pop(Reg16),
    Di,
    Ei,
    CbR(CbOp, Reg8),
    CbHl(CbOp),
}

/// Total byte length (opcode bytes included) that fetching and executing the
/// operation consumes from the instruction stream.
pub open spec fn op_length(op: Op) -> u8 {
    match op {
        Op::Stop => 2,
        Op::LdRD8(_) => 2,
        Op::LdHlD8 => 2,
        Op::LdhAD8 => 2,
        Op::LdhD8A => 2,
        Op::LdHlSpD8 => 2,
        Op::AluD8(_) => 2,
        Op::AddSpD8 => 2,
        Op::Jr(_) => 2,
        Op::CbR(_, _) => 2,
        Op::CbHl(_) => 2,
        Op::LdAA16 => 3,
        Op::LdA16A => 3,
        Op::LdRrD16(_) => 3,
        Op::LdA16Sp => 3,
        Op::Jp(_) => 3,
        Op::Call(_) => 3,
        _ => 1,
    }
}

/// Cycles charged under the flat model (4 per memory access, 4 per PC
/// redirection) when the operation's condition is taken; for unconditional
/// operations this is the only cost.
pub open spec fn op_cycles(op: Op) -> u8 {
    (4 + op_extra_fetch_cycles(op) + op_body_cycles_taken(op)) as u8
}

/// Cycles charged when the operation's condition is not taken: the operand
/// bytes are still consumed, only the redirection (and any stack work) is
/// skipped.
pub open spec fn op_cycles_not_taken(op: Op) -> u8 {
    (4 + op_extra_fetch_cycles(op) + op_body_cycles_not_taken(op)) as u8
}

/// Extra opcode-fetch cost beyond the first byte: only the CB prefix adds a
/// second opcode fetch.
pub open spec fn op_extra_fetch_cycles(op: Op) -> u8 {
    match op {
        Op::CbR(_, _) => 4,
        Op::CbHl(_) => 4,
        _ => 0,
    }
}

/// Cost the operation's own handler charges (operand fetches, data accesses,
/// redirection), with its condition taken.
pub open spec fn op_body_cycles_taken(op: Op) -> u8 {
    match op {
        Op::Stop => 4,
        Op::LdRD8(_) => 4,
        Op::LdRHl(_) => 4,
        Op::LdHlR(_) => 4,
        Op::LdHlD8 => 8,
        Op::LdAInd(_) => 4,
        Op::LdIndA(_) => 4,
        Op::LdAHli => 4,
        Op::LdAHld => 4,
        Op::LdHliA => 4,
        Op::LdHldA => 4,
        Op::LdAA16 => 12,
        Op::LdA16A => 12,
        Op::LdhAD8 => 8,
        Op::LdhD8A => 8,
        Op::LdhAC => 4,
        Op::LdhCA => 4,
        Op::LdRrD16(_) => 8,
        Op::LdA16Sp => 16,
        Op::LdHlSpD8 => 4,
        Op::AluHl(_) => 4,
        Op::AluD8(_) => 4,
        Op::IncHlInd => 8,
        Op::DecHlInd => 8,
        Op::AddSpD8 => 4,
        Op::Jp(_) => 12,
        Op::JpHl => 4,
        Op::Jr(_) => 8,
        Op::Call(_) => 20,
        Op::Ret(_) => 12,
        Op::Reti => 12,
        Op::Rst(_) => 12,
        Op::Push(_) => 8,
        Op::Pop(_) => 8,
        Op::CbHl(c) => match c {
            CbOp::BitTest(_) => 4,
            _ => 8,
        },
        _ => 0,
    }
}

/// Cost the handler charges when its condition is not taken: the operand
/// bytes alone.
pub open spec fn op_body_cycles_not_taken(op: Op) -> u8 {
    match op {
        Op::Jp(_) => 8,
        Op::Jr(_) => 4,
        Op::Call(_) => 8,
        Op::Ret(c) => if c is Always {
            12
        } else {
            0
        },
        _ => op_body_cycles_taken(op),
    }
}

/// The condition gating the operation; `Always` for everything that is not a
/// conditional jump, call or return.
pub open spec fn op_cond(op: Op) -> Cond {
    match op {
        Op::Jp(c) => c,
        Op::Jr(c) => c,
        Op::Call(c) => c,
        Op::Ret(c) => c,
        _ => Cond::Always,
    }
}

/// The per-flag policy of the operation, in the order `(Z, N, H, C)`.
pub open spec fn op_flags(op: Op) -> (FlagEffect, FlagEffect, FlagEffect, FlagEffect) {
    match op {
        Op::Alu(a, _) => alu_flags(a),
        Op::AluHl(a) => alu_flags(a),
        Op::AluD8(a) => alu_flags(a),
        Op::IncR(_) => (FlagEffect::FromResult, FlagEffect::AlwaysReset, FlagEffect::FromResult, FlagEffect::Unaffected),
        Op::IncHlInd => (FlagEffect::FromResult, FlagEffect::AlwaysReset, FlagEffect::FromResult, FlagEffect::Unaffected),
        Op::DecR(_) => (FlagEffect::FromResult, FlagEffect::AlwaysSet, FlagEffect::FromResult, FlagEffect::Unaffected),
        Op::DecHlInd => (FlagEffect::FromResult, FlagEffect::AlwaysSet, FlagEffect::FromResult, FlagEffect::Unaffected),
        Op::AddHlRr(_) => (FlagEffect::Unaffected, FlagEffect::AlwaysReset, FlagEffect::FromResult, FlagEffect::FromResult),
        Op::AddSpD8 => (FlagEffect::AlwaysReset, FlagEffect::AlwaysReset, FlagEffect::FromResult, FlagEffect::FromResult),
        Op::LdHlSpD8 => (FlagEffect::AlwaysReset, FlagEffect::AlwaysReset, FlagEffect::FromResult, FlagEffect::FromResult),
        Op::Daa => (FlagEffect::FromResult, FlagEffect::Unaffected, FlagEffect::AlwaysReset, FlagEffect::FromResult),
        Op::Cpl => (FlagEffect::Unaffected, FlagEffect::AlwaysSet, FlagEffect::AlwaysSet, FlagEffect::Unaffected),
        Op::Scf => (FlagEffect::Unaffected, FlagEffect::AlwaysReset, FlagEffect::AlwaysReset, FlagEffect::AlwaysSet),
        Op::Ccf => (FlagEffect::Unaffected, FlagEffect::AlwaysReset, FlagEffect::AlwaysReset, FlagEffect::FromResult),
        Op::Rlca => rotate_flags(),
        Op::Rrca => rotate_flags(),
        Op::Rla => rotate_flags(),
        Op::Rra => rotate_flags(),
        Op::Pop(rp) => if rp is Af {
            (FlagEffect::FromResult, FlagEffect::FromResult, FlagEffect::FromResult, FlagEffect::FromResult)
        } else {
            unaffected_flags()
        },
        Op::CbR(c, _) => cb_flags(c),
        Op::CbHl(c) => cb_flags(c),
        _ => unaffected_flags(),
    }
}

pub open spec fn unaffected_flags() -> (FlagEffect, FlagEffect, FlagEffect, FlagEffect) {
    (FlagEffect::Unaffected, FlagEffect::Unaffected, FlagEffect::Unaffected, FlagEffect::Unaffected)
}

pub open spec fn rotate_flags() -> (FlagEffect, FlagEffect, FlagEffect, FlagEffect) {
    (FlagEffect::AlwaysReset, FlagEffect::AlwaysReset, FlagEffect::AlwaysReset, FlagEffect::FromResult)
}

pub open spec fn alu_flags(a: AluOp) -> (FlagEffect, FlagEffect, FlagEffect, FlagEffect) {
    match a {
        AluOp::Add => (FlagEffect::FromResult, FlagEffect::AlwaysReset, FlagEffect::FromResult, FlagEffect::FromResult),
        AluOp::Adc => (FlagEffect::FromResult, FlagEffect::AlwaysReset, FlagEffect::FromResult, FlagEffect::FromResult),
        AluOp::Sub => (FlagEffect::FromResult, FlagEffect::AlwaysSet, FlagEffect::FromResult, FlagEffect::FromResult),
        AluOp::Sbc => (FlagEffect::FromResult, FlagEffect::AlwaysSet, FlagEffect::FromResult, FlagEffect::FromResult),
        AluOp::And => (FlagEffect::FromResult, FlagEffect::AlwaysReset, FlagEffect::AlwaysSet, FlagEffect::AlwaysReset),
        AluOp::Xor => (FlagEffect::FromResult, FlagEffect::AlwaysReset, FlagEffect::AlwaysReset, FlagEffect::AlwaysReset),
        AluOp::Or => (FlagEffect::FromResult, FlagEffect::AlwaysReset, FlagEffect::AlwaysReset, FlagEffect::AlwaysReset),
        AluOp::Cp => (FlagEffect::FromResult, FlagEffect::AlwaysSet, FlagEffect::FromResult, FlagEffect::FromResult),
    }
}

pub open spec fn cb_flags(c: CbOp) -> (FlagEffect, FlagEffect, FlagEffect, FlagEffect) {
    match c {
        CbOp::Swap => (FlagEffect::FromResult, FlagEffect::AlwaysReset, FlagEffect::AlwaysReset, FlagEffect::AlwaysReset),
        CbOp::BitTest(_) => (FlagEffect::FromResult, FlagEffect::AlwaysReset, FlagEffect::AlwaysSet, FlagEffect::Unaffected),
        CbOp::ResBit(_) => unaffected_flags(),
        CbOp::SetBit(_) => unaffected_flags(),
        _ => (FlagEffect::FromResult, FlagEffect::AlwaysReset, FlagEffect::AlwaysReset, FlagEffect::FromResult),
    }
}

/// Executable mirror of `op_length`.
pub fn compute_length(op: Op) -> (r: u8)
    ensures
        r == op_length(op),
        1 <= r <= 3,
{
    match op {
        Op::Stop => 2,
        Op::LdRD8(_) => 2,
        Op::LdHlD8 => 2,
        Op::LdhAD8 => 2,
        Op::LdhD8A => 2,
        Op::LdHlSpD8 => 2,
        Op::AluD8(_) => 2,
        Op::AddSpD8 => 2,
        Op::Jr(_) => 2,
        Op::CbR(_, _) => 2,
        Op::CbHl(_) => 2,
        Op::LdAA16 => 3,
        Op::LdA16A => 3,
        Op::LdRrD16(_) => 3,
        Op::LdA16Sp => 3,
        Op::Jp(_) => 3,
        Op::Call(_) => 3,
        _ => 1,
    }
}

/// Executable mirror of `op_extra_fetch_cycles`.
pub fn compute_extra_fetch_cycles(op: Op) -> (r: u8)
    ensures
        r == op_extra_fetch_cycles(op),
        r <= 4,
{
    match op {
        Op::CbR(_, _) => 4,
        Op::CbHl(_) => 4,
        _ => 0,
    }
}

/// Executable mirror of `op_body_cycles_taken`.
pub fn compute_body_cycles_taken(op: Op) -> (r: u8)
    ensures
        r == op_body_cycles_taken(op),
        r <= 20,
{
    match op {
        Op::Stop => 4,
        Op::LdRD8(_) => 4,
        Op::LdRHl(_) => 4,
        Op::LdHlR(_) => 4,
        Op::LdHlD8 => 8,
        Op::LdAInd(_) => 4,
        Op::LdIndA(_) => 4,
        Op::LdAHli => 4,
        Op::LdAHld => 4,
        Op::LdHliA => 4,
        Op::LdHldA => 4,
        Op::LdAA16 => 12,
        Op::LdA16A => 12,
        Op::LdhAD8 => 8,
        Op::LdhD8A => 8,
        Op::LdhAC => 4,
        Op::LdhCA => 4,
        Op::LdRrD16(_) => 8,
        Op::LdA16Sp => 16,
        Op::LdHlSpD8 => 4,
        Op::AluHl(_) => 4,
        Op::AluD8(_) => 4,
        Op::IncHlInd => 8,
        Op::DecHlInd => 8,
        Op::AddSpD8 => 4,
        Op::Jp(_) => 12,
        Op::JpHl => 4,
        Op::Jr(_) => 8,
        Op::Call(_) => 20,
        Op::Ret(_) => 12,
        Op::Reti => 12,
        Op::Rst(_) => 12,
        Op::Push(_) => 8,
        Op::Pop(_) => 8,
        Op::CbHl(c) => match c {
            CbOp::BitTest(_) => 4,
            _ => 8,
        },
        _ => 0,
    }
}

/// Executable mirror of `op_body_cycles_not_taken`.
pub fn compute_body_cycles_not_taken(op: Op) -> (r: u8)
    ensures
        r == op_body_cycles_not_taken(op),
        r <= 20,
{
    match op {
        Op::Jp(_) => 8,
        Op::Jr(_) => 4,
        Op::Call(_) => 8,
        Op::Ret(c) => if matches!(c, Cond::Always) {
            12
        } else {
            0
        },
        _ => compute_body_cycles_taken(op),
    }
}

/// Executable mirror of `op_cycles`.
pub fn compute_cycles(op: Op) -> (r: u8)
    ensures
        r == op_cycles(op),
{
    4 + compute_extra_fetch_cycles(op) + compute_body_cycles_taken(op)
}

/// Executable mirror of `op_cycles_not_taken`.
pub fn compute_cycles_not_taken(op: Op) -> (r: u8)
    ensures
        r == op_cycles_not_taken(op),
{
    4 + compute_extra_fetch_cycles(op) + compute_body_cycles_not_taken(op)
}

/// Executable mirror of `op_cond`.
pub fn compute_cond(op: Op) -> (r: Cond)
    ensures
        r == op_cond(op),
{
    match op {
        Op::Jp(c) => c,
        Op::Jr(c) => c,
        Op::Call(c) => c,
        Op::Ret(c) => c,
        _ => Cond::Always,
    }
}

/// Executable mirror of `op_flags`.
pub fn compute_flags(op: Op) -> (r: (FlagEffect, FlagEffect, FlagEffect, FlagEffect))
    ensures
        r == op_flags(op),
{
    match op {
        Op::Alu(a, _) => compute_alu_flags(a),
        Op::AluHl(a) => compute_alu_flags(a),
        Op::AluD8(a) => compute_alu_flags(a),
        Op::IncR(_) => (FlagEffect::FromResult, FlagEffect::AlwaysReset, FlagEffect::FromResult, FlagEffect::Unaffected),
        Op::IncHlInd => (FlagEffect::FromResult, FlagEffect::AlwaysReset, FlagEffect::FromResult, FlagEffect::Unaffected),
        Op::DecR(_) => (FlagEffect::FromResult, FlagEffect::AlwaysSet, FlagEffect::FromResult, FlagEffect::Unaffected),
        Op::DecHlInd => (FlagEffect::FromResult, FlagEffect::AlwaysSet, FlagEffect::FromResult, FlagEffect::Unaffected),
        Op::AddHlRr(_) => (FlagEffect::Unaffected, FlagEffect::AlwaysReset, FlagEffect::FromResult, FlagEffect::FromResult),
        Op::AddSpD8 => (FlagEffect::AlwaysReset, FlagEffect::AlwaysReset, FlagEffect::FromResult, FlagEffect::FromResult),
        Op::LdHlSpD8 => (FlagEffect::AlwaysReset, FlagEffect::AlwaysReset, FlagEffect::FromResult, FlagEffect::FromResult),
        Op::Daa => (FlagEffect::FromResult, FlagEffect::Unaffected, FlagEffect::AlwaysReset, FlagEffect::FromResult),
        Op::Cpl => (FlagEffect::Unaffected, FlagEffect::AlwaysSet, FlagEffect::AlwaysSet, FlagEffect::Unaffected),
        Op::Scf => (FlagEffect::Unaffected, FlagEffect::AlwaysReset, FlagEffect::AlwaysReset, FlagEffect::AlwaysSet),
        Op::Ccf => (FlagEffect::Unaffected, FlagEffect::AlwaysReset, FlagEffect::AlwaysReset, FlagEffect::FromResult),
        Op::Rlca => (FlagEffect::AlwaysReset, FlagEffect::AlwaysReset, FlagEffect::AlwaysReset, FlagEffect::FromResult),
        Op::Rrca => (FlagEffect::AlwaysReset, FlagEffect::AlwaysReset, FlagEffect::AlwaysReset, FlagEffect::FromResult),
        Op::Rla => (FlagEffect::AlwaysReset, FlagEffect::AlwaysReset, FlagEffect::AlwaysReset, FlagEffect::FromResult),
        Op::Rra => (FlagEffect::AlwaysReset, FlagEffect::AlwaysReset, FlagEffect::AlwaysReset, FlagEffect::FromResult),
        Op::Pop(rp) => if matches!(rp, Reg16::Af) {
            (FlagEffect::FromResult, FlagEffect::FromResult, FlagEffect::FromResult, FlagEffect::FromResult)
        } else {
            (FlagEffect::Unaffected, FlagEffect::Unaffected, FlagEffect::Unaffected, FlagEffect::Unaffected)
        },
        Op::CbR(c, _) => compute_cb_flags(c),
        Op::CbHl(c) => compute_cb_flags(c),
        _ => (FlagEffect::Unaffected, FlagEffect::Unaffected, FlagEffect::Unaffected, FlagEffect::Unaffected),
    }
}

/// Executable mirror of `alu_flags`.
pub fn compute_alu_flags(a: AluOp) -> (r: (FlagEffect, FlagEffect, FlagEffect, FlagEffect))
    ensures
        r == alu_flags(a),
{
    match a {
        AluOp::Add => (FlagEffect::FromResult, FlagEffect::AlwaysReset, FlagEffect::FromResult, FlagEffect::FromResult),
        AluOp::Adc => (FlagEffect::FromResult, FlagEffect::AlwaysReset, FlagEffect::FromResult, FlagEffect::FromResult),
        AluOp::Sub => (FlagEffect::FromResult, FlagEffect::AlwaysSet, FlagEffect::FromResult, FlagEffect::FromResult),
        AluOp::Sbc => (FlagEffect::FromResult, FlagEffect::AlwaysSet, FlagEffect::FromResult, FlagEffect::FromResult),
        AluOp::And => (FlagEffect::FromResult, FlagEffect::AlwaysReset, FlagEffect::AlwaysSet, FlagEffect::AlwaysReset),
        AluOp::Xor => (FlagEffect::FromResult, FlagEffect::AlwaysReset, FlagEffect::AlwaysReset, FlagEffect::AlwaysReset),
        AluOp::Or => (FlagEffect::FromResult, FlagEffect::AlwaysReset, FlagEffect::AlwaysReset, FlagEffect::AlwaysReset),
        AluOp::Cp => (FlagEffect::FromResult, FlagEffect::AlwaysSet, FlagEffect::FromResult, FlagEffect::FromResult),
    }
}

/// Executable mirror of `cb_flags`.
pub fn compute_cb_flags(c: CbOp) -> (r: (FlagEffect, FlagEffect, FlagEffect, FlagEffect))
    ensures
        r == cb_flags(c),
{
    match c {
        CbOp::Swap => (FlagEffect::FromResult, FlagEffect::AlwaysReset, FlagEffect::AlwaysReset, FlagEffect::AlwaysReset),
        CbOp::BitTest(_) => (FlagEffect::FromResult, FlagEffect::AlwaysReset, FlagEffect::AlwaysSet, FlagEffect::Unaffected),
        CbOp::ResBit(_) => (FlagEffect::Unaffected, FlagEffect::Unaffected, FlagEffect::Unaffected, FlagEffect::Unaffected),
        CbOp::SetBit(_) => (FlagEffect::Unaffected, FlagEffect::Unaffected, FlagEffect::Unaffected, FlagEffect::Unaffected),
        _ => (FlagEffect::FromResult, FlagEffect::AlwaysReset, FlagEffect::AlwaysReset, FlagEffect::FromResult),
    }
}

/// One table entry: the descriptor and the operation it executes. This is
/// the data-driven replacement for a handler reference: dispatch stays
/// table-driven, semantics live in the engine's exhaustive match.
#[derive(Clone, Copy, Debug)]
pub struct InstructionImpl {
    pub instruction: Instruction,
    pub op: Op,
}

/// A table entry is consistent when its recorded metadata agrees with what
/// executing its operation actually consumes and charges.
pub open spec fn entry_consistent(e: InstructionImpl) -> bool {
    &&& instruction_wf(e.instruction)
    &&& e.instruction.length == op_length(e.op)
    &&& e.instruction.cycles == op_cycles(e.op)
    &&& e.instruction.cycles_not_taken == op_cycles_not_taken(e.op)
    &&& e.instruction.condition == op_cond(e.op)
    &&& (e.instruction.z, e.instruction.n, e.instruction.h, e.instruction.c) == op_flags(e.op)
}

impl InstructionImpl {
    pub fn new(instruction: Instruction, op: Op) -> (r: InstructionImpl)
        ensures
            r.instruction == instruction,
            r.op == op,
    {
        InstructionImpl { instruction, op }
    }
}

/// Builds the compiled-in LR35902 instruction tables (main and
/// CB-prefixed).
pub fn load_instructions() -> (r: (Vec<Option<InstructionImpl>>, Vec<Option<InstructionImpl>>))
    ensures
        crate::lr35902_instructions_impl::is_lr35902_main_table(r.0@),
        crate::lr35902_instructions_impl::is_lr35902_cb_table(r.1@),
{
    crate::lr35902_instructions_impl::load_lr35902_instructions()
}

} // verus!
