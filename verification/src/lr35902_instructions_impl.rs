//! The LR35902 instruction tables: a compiled-in, data-driven description
//! of the main 256-entry opcode space and the CB-prefixed 256-entry space.
//! Every byte value has an entry; opcodes the hardware documents as
//! permanently invalid are present with the illegal operation, so absence
//! and illegality stay distinguishable outcomes.

use vstd::prelude::*;

use crate::instruction_impl::{
    compute_cond, compute_cycles, compute_cycles_not_taken, compute_flags, compute_length,
    entry_consistent, AluOp, CbOp, InstructionImpl, Op,
};
use crate::instructions_loader::{Cond, Instruction, Reg16, Reg8};

verus! {

/// The main-table opcodes the hardware documents as permanently invalid.
pub open spec fn spec_is_illegal(opcode: u8) -> bool {
    ||| opcode == 0xD3
    ||| opcode == 0xDB
    ||| opcode == 0xDD
    ||| opcode == 0xE3
    ||| opcode == 0xE4
    ||| opcode == 0xEB
    ||| opcode == 0xEC
    ||| opcode == 0xED
    ||| opcode == 0xF4
    ||| opcode == 0xFC
    ||| opcode == 0xFD
}

/// The register an operand's 3-bit code selects; code 6 is the
/// `(HL)`-indirect memory operand, not a register.
pub open spec fn spec_reg_code(code: u8) -> Option<Reg8> {
    match code {
        0 => Option::Some(Reg8::B),
        1 => Option::Some(Reg8::C),
        2 => Option::Some(Reg8::D),
        3 => Option::Some(Reg8::E),
        4 => Option::Some(Reg8::H),
        5 => Option::Some(Reg8::L),
        6 => Option::None,
        _ => Option::Some(Reg8::A),
    }
}

/// Executable mirror of `spec_reg_code`.
pub fn reg_code(code: u8) -> (r: Option<Reg8>)
    ensures
        r == spec_reg_code(code),
{
    match code {
        0 => Option::Some(Reg8::B),
        1 => Option::Some(Reg8::C),
        2 => Option::Some(Reg8::D),
        3 => Option::Some(Reg8::E),
        4 => Option::Some(Reg8::H),
        5 => Option::Some(Reg8::L),
        6 => Option::None,
        _ => Option::Some(Reg8::A),
    }
}

/// The ALU operation a 3-bit code selects in the arithmetic quadrant.
pub open spec fn spec_alu_code(code: u8) -> AluOp {
    match code {
        0 => AluOp::Add,
        1 => AluOp::Adc,
        2 => AluOp::Sub,
        3 => AluOp::Sbc,
        4 => AluOp::And,
        5 => AluOp::Xor,
        6 => AluOp::Or,
        _ => AluOp::Cp,
    }
}

/// Executable mirror of `spec_alu_code`.
pub fn alu_code(code: u8) -> (r: AluOp)
    ensures
        r == spec_alu_code(code),
{
    match code {
        0 => AluOp::Add,
        1 => AluOp::Adc,
        2 => AluOp::Sub,
        3 => AluOp::Sbc,
        4 => AluOp::And,
        5 => AluOp::Xor,
        6 => AluOp::Or,
        _ => AluOp::Cp,
    }
}

/// The operation of every main-table opcode. The two regular quadrants
/// (register-to-register loads and accumulator arithmetic) decode by bit
/// fields; the rest is enumerated.
pub open spec fn spec_main_op(opcode: u8) -> Op {
    if 0x40 <= opcode && opcode < 0x80 {
        if opcode == 0x76 {
            Op::Halt
        } else {
            let dst = spec_reg_code((((opcode - 0x40) / 8) as u8));
            let src = spec_reg_code(((opcode % 8) as u8));
            match dst {
                Option::Some(dr) => match src {
                    Option::Some(sr) => Op::LdRR(dr, sr),
                    Option::None => Op::LdRHl(dr),
                },
                Option::None => match src {
                    Option::Some(sr) => Op::LdHlR(sr),
                    Option::None => Op::Halt,
                },
            }
        }
    } else if 0x80 <= opcode && opcode < 0xC0 {
        let aop = spec_alu_code((((opcode - 0x80) / 8) as u8));
        match spec_reg_code(((opcode % 8) as u8)) {
            Option::Some(r) => Op::Alu(aop, r),
            Option::None => Op::AluHl(aop),
        }
    } else {
        match opcode {
            0x00 => Op::Nop,
            0x01 => Op::LdRrD16(Reg16::Bc),
            0x02 => Op::LdIndA(Reg16::Bc),
            0x03 => Op::IncRr(Reg16::Bc),
            0x04 => Op::IncR(Reg8::B),
            0x05 => Op::DecR(Reg8::B),
            0x06 => Op::LdRD8(Reg8::B),
            0x07 => Op::Rlca,
            0x08 => Op::LdA16Sp,
            0x09 => Op::AddHlRr(Reg16::Bc),
            0x0A => Op::LdAInd(Reg16::Bc),
            0x0B => Op::DecRr(Reg16::Bc),
            0x0C => Op::IncR(Reg8::C),
            0x0D => Op::DecR(Reg8::C),
            0x0E => Op::LdRD8(Reg8::C),
            0x0F => Op::Rrca,
            0x10 => Op::Stop,
            0x11 => Op::LdRrD16(Reg16::De),
            0x12 => Op::LdIndA(Reg16::De),
            0x13 => Op::IncRr(Reg16::De),
            0x14 => Op::IncR(Reg8::D),
            0x15 => Op::DecR(Reg8::D),
            0x16 => Op::LdRD8(Reg8::D),
            0x17 => Op::Rla,
            0x18 => Op::Jr(Cond::Always),
            0x19 => Op::AddHlRr(Reg16::De),
            0x1A => Op::LdAInd(Reg16::De),
            0x1B => Op::DecRr(Reg16::De),
            0x1C => Op::IncR(Reg8::E),
            0x1D => Op::DecR(Reg8::E),
            0x1E => Op::LdRD8(Reg8::E),
            0x1F => Op::Rra,
            0x20 => Op::Jr(Cond::Nz),
            0x21 => Op::LdRrD16(Reg16::Hl),
            0x22 => Op::LdHliA,
            0x23 => Op::IncRr(Reg16::Hl),
            0x24 => Op::IncR(Reg8::H),
            0x25 => Op::DecR(Reg8::H),
            0x26 => Op::LdRD8(Reg8::H),
            0x27 => Op::Daa,
            0x28 => Op::Jr(Cond::Z),
            0x29 => Op::AddHlRr(Reg16::Hl),
            0x2A => Op::LdAHli,
            0x2B => Op::DecRr(Reg16::Hl),
            0x2C => Op::IncR(Reg8::L),
            0x2D => Op::DecR(Reg8::L),
            0x2E => Op::LdRD8(Reg8::L),
            0x2F => Op::Cpl,
            0x30 => Op::Jr(Cond::Nc),
            0x31 => Op::LdRrD16(Reg16::Sp),
            0x32 => Op::LdHldA,
            0x33 => Op::IncRr(Reg16::Sp),
            0x34 => Op::IncHlInd,
            0x35 => Op::DecHlInd,
            0x36 => Op::LdHlD8,
            0x37 => Op::Scf,
            0x38 => Op::Jr(Cond::Cy),
            0x39 => Op::AddHlRr(Reg16::Sp),
            0x3A => Op::LdAHld,
            0x3B => Op::DecRr(Reg16::Sp),
            0x3C => Op::IncR(Reg8::A),
            0x3D => Op::DecR(Reg8::A),
            0x3E => Op::LdRD8(Reg8::A),
            0x3F => Op::Ccf,
            0xC0 => Op::Ret(Cond::Nz),
            0xC1 => Op::Pop(Reg16::Bc),
            0xC2 => Op::Jp(Cond::Nz),
            0xC3 => Op::Jp(Cond::Always),
            0xC4 => Op::Call(Cond::Nz),
            0xC5 => Op::Push(Reg16::Bc),
            0xC6 => Op::AluD8(AluOp::Add),
            0xC7 => Op::Rst(0x00),
            0xC8 => Op::Ret(Cond::Z),
            0xC9 => Op::Ret(Cond::Always),
            0xCA => Op::Jp(Cond::Z),
            0xCB => Op::CbPrefix,
            0xCC => Op::Call(Cond::Z),
            0xCD => Op::Call(Cond::Always),
            0xCE => Op::AluD8(AluOp::Adc),
            0xCF => Op::Rst(0x08),
            0xD0 => Op::Ret(Cond::Nc),
            0xD1 => Op::Pop(Reg16::De),
            0xD2 => Op::Jp(Cond::Nc),
            0xD3 => Op::IllegalOp,
            0xD4 => Op::Call(Cond::Nc),
            0xD5 => Op::Push(Reg16::De),
            0xD6 => Op::AluD8(AluOp::Sub),
            0xD7 => Op::Rst(0x10),
            0xD8 => Op::Ret(Cond::Cy),
            0xD9 => Op::Reti,
            0xDA => Op::Jp(Cond::Cy),
            0xDB => Op::IllegalOp,
            0xDC => Op::Call(Cond::Cy),
            0xDD => Op::IllegalOp,
            0xDE => Op::AluD8(AluOp::Sbc),
            0xDF => Op::Rst(0x18),
            0xE0 => Op::LdhD8A,
            0xE1 => Op::Pop(Reg16::Hl),
            0xE2 => Op::LdhCA,
            0xE3 => Op::IllegalOp,
            0xE4 => Op::IllegalOp,
            0xE5 => Op::Push(Reg16::Hl),
            0xE6 => Op::AluD8(AluOp::And),
            0xE7 => Op::Rst(0x20),
            0xE8 => Op::AddSpD8,
            0xE9 => Op::JpHl,
            0xEA => Op::LdA16A,
            0xEB => Op::IllegalOp,
            0xEC => Op::IllegalOp,
            0xED => Op::IllegalOp,
            0xEE => Op::AluD8(AluOp::Xor),
            0xEF => Op::Rst(0x28),
            0xF0 => Op::LdhAD8,
            0xF1 => Op::Pop(Reg16::Af),
            0xF2 => Op::LdhAC,
            0xF3 => Op::Di,
            0xF4 => Op::IllegalOp,
            0xF5 => Op::Push(Reg16::Af),
            0xF6 => Op::AluD8(AluOp::Or),
            0xF7 => Op::Rst(0x30),
            0xF8 => Op::LdHlSpD8,
            0xF9 => Op::LdSpHl,
            0xFA => Op::LdAA16,
            0xFB => Op::Ei,
            0xFC => Op::IllegalOp,
            0xFD => Op::IllegalOp,
            0xFE => Op::AluD8(AluOp::Cp),
            _ => Op::Rst(0x38),        }
    }
}

/// Executable mirror of `spec_main_op`.
#[verifier::rlimit(100)]
pub fn main_op(opcode: u8) -> (r: Op)
    ensures
        r == spec_main_op(opcode),
{
    if 0x40 <= opcode && opcode < 0x80 {
        if opcode == 0x76 {
            Op::Halt
        } else {
            let dst = reg_code((opcode - 0x40) / 8);
            let src = reg_code(opcode % 8);
            match dst {
                Option::Some(dr) => match src {
                    Option::Some(sr) => Op::LdRR(dr, sr),
                    Option::None => Op::LdRHl(dr),
                },
                Option::None => match src {
                    Option::Some(sr) => Op::LdHlR(sr),
                    Option::None => Op::Halt,
                },
            }
        }
    } else if 0x80 <= opcode && opcode < 0xC0 {
        let aop = alu_code((opcode - 0x80) / 8);
        match reg_code(opcode % 8) {
            Option::Some(r) => Op::Alu(aop, r),
            Option::None => Op::AluHl(aop),
        }
    } else {
        match opcode {
            0x00 => Op::Nop,
            0x01 => Op::LdRrD16(Reg16::Bc),
            0x02 => Op::LdIndA(Reg16::Bc),
            0x03 => Op::IncRr(Reg16::Bc),
            0x04 => Op::IncR(Reg8::B),
            0x05 => Op::DecR(Reg8::B),
            0x06 => Op::LdRD8(Reg8::B),
            0x07 => Op::Rlca,
            0x08 => Op::LdA16Sp,
            0x09 => Op::AddHlRr(Reg16::Bc),
            0x0A => Op::LdAInd(Reg16::Bc),
            0x0B => Op::DecRr(Reg16::Bc),
            0x0C => Op::IncR(Reg8::C),
            0x0D => Op::DecR(Reg8::C),
            0x0E => Op::LdRD8(Reg8::C),
            0x0F => Op::Rrca,
            0x10 => Op::Stop,
            0x11 => Op::LdRrD16(Reg16::De),
            0x12 => Op::LdIndA(Reg16::De),
            0x13 => Op::IncRr(Reg16::De),
            0x14 => Op::IncR(Reg8::D),
            0x15 => Op::DecR(Reg8::D),
            0x16 => Op::LdRD8(Reg8::D),
            0x17 => Op::Rla,
            0x18 => Op::Jr(Cond::Always),
            0x19 => Op::AddHlRr(Reg16::De),
            0x1A => Op::LdAInd(Reg16::De),
            0x1B => Op::DecRr(Reg16::De),
            0x1C => Op::IncR(Reg8::E),
            0x1D => Op::DecR(Reg8::E),
            0x1E => Op::LdRD8(Reg8::E),
            0x1F => Op::Rra,
            0x20 => Op::Jr(Cond::Nz),
            0x21 => Op::LdRrD16(Reg16::Hl),
            0x22 => Op::LdHliA,
            0x23 => Op::IncRr(Reg16::Hl),
            0x24 => Op::IncR(Reg8::H),
            0x25 => Op::DecR(Reg8::H),
            0x26 => Op::LdRD8(Reg8::H),
            0x27 => Op::Daa,
            0x28 => Op::Jr(Cond::Z),
            0x29 => Op::AddHlRr(Reg16::Hl),
            0x2A => Op::LdAHli,
            0x2B => Op::DecRr(Reg16::Hl),
            0x2C => Op::IncR(Reg8::L),
            0x2D => Op::DecR(Reg8::L),
            0x2E => Op::LdRD8(Reg8::L),
            0x2F => Op::Cpl,
            0x30 => Op::Jr(Cond::Nc),
            0x31 => Op::LdRrD16(Reg16::Sp),
            0x32 => Op::LdHldA,
            0x33 => Op::IncRr(Reg16::Sp),
            0x34 => Op::IncHlInd,
            0x35 => Op::DecHlInd,
            0x36 => Op::LdHlD8,
            0x37 => Op::Scf,
            0x38 => Op::Jr(Cond::Cy),
            0x39 => Op::AddHlRr(Reg16::Sp),
            0x3A => Op::LdAHld,
            0x3B => Op::DecRr(Reg16::Sp),
            0x3C => Op::IncR(Reg8::A),
            0x3D => Op::DecR(Reg8::A),
            0x3E => Op::LdRD8(Reg8::A),
            0x3F => Op::Ccf,
            0xC0 => Op::Ret(Cond::Nz),
            0xC1 => Op::Pop(Reg16::Bc),
            0xC2 => Op::Jp(Cond::Nz),
            0xC3 => Op::Jp(Cond::Always),
            0xC4 => Op::Call(Cond::Nz),
            0xC5 => Op::Push(Reg16::Bc),
            0xC6 => Op::AluD8(AluOp::Add),
            0xC7 => Op::Rst(0x00),
            0xC8 => Op::Ret(Cond::Z),
            0xC9 => Op::Ret(Cond::Always),
            0xCA => Op::Jp(Cond::Z),
            0xCB => Op::CbPrefix,
            0xCC => Op::Call(Cond::Z),
            0xCD => Op::Call(Cond::Always),
            0xCE => Op::AluD8(AluOp::Adc),
            0xCF => Op::Rst(0x08),
            0xD0 => Op::Ret(Cond::Nc),
            0xD1 => Op::Pop(Reg16::De),
            0xD2 => Op::Jp(Cond::Nc),
            0xD3 => Op::IllegalOp,
            0xD4 => Op::Call(Cond::Nc),
            0xD5 => Op::Push(Reg16::De),
            0xD6 => Op::AluD8(AluOp::Sub),
            0xD7 => Op::Rst(0x10),
            0xD8 => Op::Ret(Cond::Cy),
            0xD9 => Op::Reti,
            0xDA => Op::Jp(Cond::Cy),
            0xDB => Op::IllegalOp,
            0xDC => Op::Call(Cond::Cy),
            0xDD => Op::IllegalOp,
            0xDE => Op::AluD8(AluOp::Sbc),
            0xDF => Op::Rst(0x18),
            0xE0 => Op::LdhD8A,
            0xE1 => Op::Pop(Reg16::Hl),
            0xE2 => Op::LdhCA,
            0xE3 => Op::IllegalOp,
            0xE4 => Op::IllegalOp,
            0xE5 => Op::Push(Reg16::Hl),
            0xE6 => Op::AluD8(AluOp::And),
            0xE7 => Op::Rst(0x20),
            0xE8 => Op::AddSpD8,
            0xE9 => Op::JpHl,
            0xEA => Op::LdA16A,
            0xEB => Op::IllegalOp,
            0xEC => Op::IllegalOp,
            0xED => Op::IllegalOp,
            0xEE => Op::AluD8(AluOp::Xor),
            0xEF => Op::Rst(0x28),
            0xF0 => Op::LdhAD8,
            0xF1 => Op::Pop(Reg16::Af),
            0xF2 => Op::LdhAC,
            0xF3 => Op::Di,
            0xF4 => Op::IllegalOp,
            0xF5 => Op::Push(Reg16::Af),
            0xF6 => Op::AluD8(AluOp::Or),
            0xF7 => Op::Rst(0x30),
            0xF8 => Op::LdHlSpD8,
            0xF9 => Op::LdSpHl,
            0xFA => Op::LdAA16,
            0xFB => Op::Ei,
            0xFC => Op::IllegalOp,
            0xFD => Op::IllegalOp,
            0xFE => Op::AluD8(AluOp::Cp),
            _ => Op::Rst(0x38),        }
    }
}

/// The operation of every CB-prefixed opcode: the top two bits select
/// shift/rotate, bit test, bit reset or bit set; bits 5..3 the family
/// member or bit index; bits 2..0 the operand.
pub open spec fn spec_cb_op(opcode: u8) -> Op {
    let cop = if opcode < 0x08 {
        CbOp::Rlc
    } else if opcode < 0x10 {
        CbOp::Rrc
    } else if opcode < 0x18 {
        CbOp::Rl
    } else if opcode < 0x20 {
        CbOp::Rr
    } else if opcode < 0x28 {
        CbOp::Sla
    } else if opcode < 0x30 {
        CbOp::Sra
    } else if opcode < 0x38 {
        CbOp::Swap
    } else if opcode < 0x40 {
        CbOp::Srl
    } else if opcode < 0x80 {
        CbOp::BitTest((((opcode - 0x40) / 8) as u8))
    } else if opcode < 0xC0 {
        CbOp::ResBit((((opcode - 0x80) / 8) as u8))
    } else {
        CbOp::SetBit((((opcode - 0xC0) / 8) as u8))
    };
    match spec_reg_code(((opcode % 8) as u8)) {
        Option::Some(r) => Op::CbR(cop, r),
        Option::None => Op::CbHl(cop),
    }
}

/// Executable mirror of `spec_cb_op`.
pub fn cb_op(opcode: u8) -> (r: Op)
    ensures
        r == spec_cb_op(opcode),
{
    let cop = if opcode < 0x08 {
        CbOp::Rlc
    } else if opcode < 0x10 {
        CbOp::Rrc
    } else if opcode < 0x18 {
        CbOp::Rl
    } else if opcode < 0x20 {
        CbOp::Rr
    } else if opcode < 0x28 {
        CbOp::Sla
    } else if opcode < 0x30 {
        CbOp::Sra
    } else if opcode < 0x38 {
        CbOp::Swap
    } else if opcode < 0x40 {
        CbOp::Srl
    } else if opcode < 0x80 {
        CbOp::BitTest((opcode - 0x40) / 8)
    } else if opcode < 0xC0 {
        CbOp::ResBit((opcode - 0x80) / 8)
    } else {
        CbOp::SetBit((opcode - 0xC0) / 8)
    };
    match reg_code(opcode % 8) {
        Option::Some(r) => Op::CbR(cop, r),
        Option::None => Op::CbHl(cop),
    }
}

/// The conventional mnemonic of each main-table opcode, as a character
/// sequence.
pub open spec fn spec_main_mnemonic(opcode: u8) -> Seq<char> {
    match opcode {
        0x00 => "NOP"@,
        0x01 => "LD BC,d16"@,
        0x02 => "LD (BC),A"@,
        0x03 => "INC BC"@,
        0x04 => "INC B"@,
        0x05 => "DEC B"@,
        0x06 => "LD B,d8"@,
        0x07 => "RLCA"@,
        0x08 => "LD (a16),SP"@,
        0x09 => "ADD HL,BC"@,
        0x0A => "LD A,(BC)"@,
        0x0B => "DEC BC"@,
        0x0C => "INC C"@,
        0x0D => "DEC C"@,
        0x0E => "LD C,d8"@,
        0x0F => "RRCA"@,
        0x10 => "STOP"@,
        0x11 => "LD DE,d16"@,
        0x12 => "LD (DE),A"@,
        0x13 => "INC DE"@,
        0x14 => "INC D"@,
        0x15 => "DEC D"@,
        0x16 => "LD D,d8"@,
        0x17 => "RLA"@,
        0x18 => "JR r8"@,
        0x19 => "ADD HL,DE"@,
        0x1A => "LD A,(DE)"@,
        0x1B => "DEC DE"@,
        0x1C => "INC E"@,
        0x1D => "DEC E"@,
        0x1E => "LD E,d8"@,
        0x1F => "RRA"@,
        0x20 => "JR NZ,r8"@,
        0x21 => "LD HL,d16"@,
        0x22 => "LD (HL+),A"@,
        0x23 => "INC HL"@,
        0x24 => "INC H"@,
        0x25 => "DEC H"@,
        0x26 => "LD H,d8"@,
        0x27 => "DAA"@,
        0x28 => "JR Z,r8"@,
        0x29 => "ADD HL,HL"@,
        0x2A => "LD A,(HL+)"@,
        0x2B => "DEC HL"@,
        0x2C => "INC L"@,
        0x2D => "DEC L"@,
        0x2E => "LD L,d8"@,
        0x2F => "CPL"@,
        0x30 => "JR NC,r8"@,
        0x31 => "LD SP,d16"@,
        0x32 => "LD (HL-),A"@,
        0x33 => "INC SP"@,
        0x34 => "INC (HL)"@,
        0x35 => "DEC (HL)"@,
        0x36 => "LD (HL),d8"@,
        0x37 => "SCF"@,
        0x38 => "JR C,r8"@,
        0x39 => "ADD HL,SP"@,
        0x3A => "LD A,(HL-)"@,
        0x3B => "DEC SP"@,
        0x3C => "INC A"@,
        0x3D => "DEC A"@,
        0x3E => "LD A,d8"@,
        0x3F => "CCF"@,
        0x40 => "LD B,B"@,
        0x41 => "LD B,C"@,
        0x42 => "LD B,D"@,
        0x43 => "LD B,E"@,
        0x44 => "LD B,H"@,
        0x45 => "LD B,L"@,
        0x46 => "LD B,(HL)"@,
        0x47 => "LD B,A"@,
        0x48 => "LD C,B"@,
        0x49 => "LD C,C"@,
        0x4A => "LD C,D"@,
        0x4B => "LD C,E"@,
        0x4C => "LD C,H"@,
        0x4D => "LD C,L"@,
        0x4E => "LD C,(HL)"@,
        0x4F => "LD C,A"@,
        0x50 => "LD D,B"@,
        0x51 => "LD D,C"@,
        0x52 => "LD D,D"@,
        0x53 => "LD D,E"@,
        0x54 => "LD D,H"@,
        0x55 => "LD D,L"@,
        0x56 => "LD D,(HL)"@,
        0x57 => "LD D,A"@,
        0x58 => "LD E,B"@,
        0x59 => "LD E,C"@,
        0x5A => "LD E,D"@,
        0x5B => "LD E,E"@,
        0x5C => "LD E,H"@,
        0x5D => "LD E,L"@,
        0x5E => "LD E,(HL)"@,
        0x5F => "LD E,A"@,
        0x60 => "LD H,B"@,
        0x61 => "LD H,C"@,
        0x62 => "LD H,D"@,
        0x63 => "LD H,E"@,
        0x64 => "LD H,H"@,
        0x65 => "LD H,L"@,
        0x66 => "LD H,(HL)"@,
        0x67 => "LD H,A"@,
        0x68 => "LD L,B"@,
        0x69 => "LD L,C"@,
        0x6A => "LD L,D"@,
        0x6B => "LD L,E"@,
        0x6C => "LD L,H"@,
        0x6D => "LD L,L"@,
        0x6E => "LD L,(HL)"@,
        0x6F => "LD L,A"@,
        0x70 => "LD (HL),B"@,
        0x71 => "LD (HL),C"@,
        0x72 => "LD (HL),D"@,
        0x73 => "LD (HL),E"@,
        0x74 => "LD (HL),H"@,
        0x75 => "LD (HL),L"@,
        0x76 => "HALT"@,
        0x77 => "LD (HL),A"@,
        0x78 => "LD A,B"@,
        0x79 => "LD A,C"@,
        0x7A => "LD A,D"@,
        0x7B => "LD A,E"@,
        0x7C => "LD A,H"@,
        0x7D => "LD A,L"@,
        0x7E => "LD A,(HL)"@,
        0x7F => "LD A,A"@,
        0x80 => "ADD A,B"@,
        0x81 => "ADD A,C"@,
        0x82 => "ADD A,D"@,
        0x83 => "ADD A,E"@,
        0x84 => "ADD A,H"@,
        0x85 => "ADD A,L"@,
        0x86 => "ADD A,(HL)"@,
        0x87 => "ADD A,A"@,
        0x88 => "ADC A,B"@,
        0x89 => "ADC A,C"@,
        0x8A => "ADC A,D"@,
        0x8B => "ADC A,E"@,
        0x8C => "ADC A,H"@,
        0x8D => "ADC A,L"@,
        0x8E => "ADC A,(HL)"@,
        0x8F => "ADC A,A"@,
        0x90 => "SUB B"@,
        0x91 => "SUB C"@,
        0x92 => "SUB D"@,
        0x93 => "SUB E"@,
        0x94 => "SUB H"@,
        0x95 => "SUB L"@,
        0x96 => "SUB (HL)"@,
        0x97 => "SUB A"@,
        0x98 => "SBC A,B"@,
        0x99 => "SBC A,C"@,
        0x9A => "SBC A,D"@,
        0x9B => "SBC A,E"@,
        0x9C => "SBC A,H"@,
        0x9D => "SBC A,L"@,
        0x9E => "SBC A,(HL)"@,
        0x9F => "SBC A,A"@,
        0xA0 => "AND B"@,
        0xA1 => "AND C"@,
        0xA2 => "AND D"@,
        0xA3 => "AND E"@,
        0xA4 => "AND H"@,
        0xA5 => "AND L"@,
        0xA6 => "AND (HL)"@,
        0xA7 => "AND A"@,
        0xA8 => "XOR B"@,
        0xA9 => "XOR C"@,
        0xAA => "XOR D"@,
        0xAB => "XOR E"@,
        0xAC => "XOR H"@,
        0xAD => "XOR L"@,
        0xAE => "XOR (HL)"@,
        0xAF => "XOR A"@,
        0xB0 => "OR B"@,
        0xB1 => "OR C"@,
        0xB2 => "OR D"@,
        0xB3 => "OR E"@,
        0xB4 => "OR H"@,
        0xB5 => "OR L"@,
        0xB6 => "OR (HL)"@,
        0xB7 => "OR A"@,
        0xB8 => "CP B"@,
        0xB9 => "CP C"@,
        0xBA => "CP D"@,
        0xBB => "CP E"@,
        0xBC => "CP H"@,
        0xBD => "CP L"@,
        0xBE => "CP (HL)"@,
        0xBF => "CP A"@,
        0xC0 => "RET NZ"@,
        0xC1 => "POP BC"@,
        0xC2 => "JP NZ,a16"@,
        0xC3 => "JP a16"@,
        0xC4 => "CALL NZ,a16"@,
        0xC5 => "PUSH BC"@,
        0xC6 => "ADD A,d8"@,
        0xC7 => "RST 00H"@,
        0xC8 => "RET Z"@,
        0xC9 => "RET"@,
        0xCA => "JP Z,a16"@,
        0xCB => "PREFIX CB"@,
        0xCC => "CALL Z,a16"@,
        0xCD => "CALL a16"@,
        0xCE => "ADC A,d8"@,
        0xCF => "RST 08H"@,
        0xD0 => "RET NC"@,
        0xD1 => "POP DE"@,
        0xD2 => "JP NC,a16"@,
        0xD3 => "ILLEGAL"@,
        0xD4 => "CALL NC,a16"@,
        0xD5 => "PUSH DE"@,
        0xD6 => "SUB d8"@,
        0xD7 => "RST 10H"@,
        0xD8 => "RET C"@,
        0xD9 => "RETI"@,
        0xDA => "JP C,a16"@,
        0xDB => "ILLEGAL"@,
        0xDC => "CALL C,a16"@,
        0xDD => "ILLEGAL"@,
        0xDE => "SBC A,d8"@,
        0xDF => "RST 18H"@,
        0xE0 => "LDH (a8),A"@,
        0xE1 => "POP HL"@,
        0xE2 => "LD (C),A"@,
        0xE3 => "ILLEGAL"@,
        0xE4 => "ILLEGAL"@,
        0xE5 => "PUSH HL"@,
        0xE6 => "AND d8"@,
        0xE7 => "RST 20H"@,
        0xE8 => "ADD SP,r8"@,
        0xE9 => "JP (HL)"@,
        0xEA => "LD (a16),A"@,
        0xEB => "ILLEGAL"@,
        0xEC => "ILLEGAL"@,
        0xED => "ILLEGAL"@,
        0xEE => "XOR d8"@,
        0xEF => "RST 28H"@,
        0xF0 => "LDH A,(a8)"@,
        0xF1 => "POP AF"@,
        0xF2 => "LD A,(C)"@,
        0xF3 => "DI"@,
        0xF4 => "ILLEGAL"@,
        0xF5 => "PUSH AF"@,
        0xF6 => "OR d8"@,
        0xF7 => "RST 30H"@,
        0xF8 => "LD HL,SP+r8"@,
        0xF9 => "LD SP,HL"@,
        0xFA => "LD A,(a16)"@,
        0xFB => "EI"@,
        0xFC => "ILLEGAL"@,
        0xFD => "ILLEGAL"@,
        0xFE => "CP d8"@,
        _ => "RST 38H"@,
    }
}

/// Executable mirror of `spec_main_mnemonic`.
#[verifier::rlimit(100)]
#[verifier::spinoff_prover]
fn main_mnemonic(opcode: u8) -> (r: &'static str)
    ensures
        r@ == spec_main_mnemonic(opcode),
{
    match opcode {
        0x00 => "NOP",
        0x01 => "LD BC,d16",
        0x02 => "LD (BC),A",
        0x03 => "INC BC",
        0x04 => "INC B",
        0x05 => "DEC B",
        0x06 => "LD B,d8",
        0x07 => "RLCA",
        0x08 => "LD (a16),SP",
        0x09 => "ADD HL,BC",
        0x0A => "LD A,(BC)",
        0x0B => "DEC BC",
        0x0C => "INC C",
        0x0D => "DEC C",
        0x0E => "LD C,d8",
        0x0F => "RRCA",
        0x10 => "STOP",
        0x11 => "LD DE,d16",
        0x12 => "LD (DE),A",
        0x13 => "INC DE",
        0x14 => "INC D",
        0x15 => "DEC D",
        0x16 => "LD D,d8",
        0x17 => "RLA",
        0x18 => "JR r8",
        0x19 => "ADD HL,DE",
        0x1A => "LD A,(DE)",
        0x1B => "DEC DE",
        0x1C => "INC E",
        0x1D => "DEC E",
        0x1E => "LD E,d8",
        0x1F => "RRA",
        0x20 => "JR NZ,r8",
        0x21 => "LD HL,d16",
        0x22 => "LD (HL+),A",
        0x23 => "INC HL",
        0x24 => "INC H",
        0x25 => "DEC H",
        0x26 => "LD H,d8",
        0x27 => "DAA",
        0x28 => "JR Z,r8",
        0x29 => "ADD HL,HL",
        0x2A => "LD A,(HL+)",
        0x2B => "DEC HL",
        0x2C => "INC L",
        0x2D => "DEC L",
        0x2E => "LD L,d8",
        0x2F => "CPL",
        0x30 => "JR NC,r8",
        0x31 => "LD SP,d16",
        0x32 => "LD (HL-),A",
        0x33 => "INC SP",
        0x34 => "INC (HL)",
        0x35 => "DEC (HL)",
        0x36 => "LD (HL),d8",
        0x37 => "SCF",
        0x38 => "JR C,r8",
        0x39 => "ADD HL,SP",
        0x3A => "LD A,(HL-)",
        0x3B => "DEC SP",
        0x3C => "INC A",
        0x3D => "DEC A",
        0x3E => "LD A,d8",
        0x3F => "CCF",
        0x40 => "LD B,B",
        0x41 => "LD B,C",
        0x42 => "LD B,D",
        0x43 => "LD B,E",
        0x44 => "LD B,H",
        0x45 => "LD B,L",
        0x46 => "LD B,(HL)",
        0x47 => "LD B,A",
        0x48 => "LD C,B",
        0x49 => "LD C,C",
        0x4A => "LD C,D",
        0x4B => "LD C,E",
        0x4C => "LD C,H",
        0x4D => "LD C,L",
        0x4E => "LD C,(HL)",
        0x4F => "LD C,A",
        0x50 => "LD D,B",
        0x51 => "LD D,C",
        0x52 => "LD D,D",
        0x53 => "LD D,E",
        0x54 => "LD D,H",
        0x55 => "LD D,L",
        0x56 => "LD D,(HL)",
        0x57 => "LD D,A",
        0x58 => "LD E,B",
        0x59 => "LD E,C",
        0x5A => "LD E,D",
        0x5B => "LD E,E",
        0x5C => "LD E,H",
        0x5D => "LD E,L",
        0x5E => "LD E,(HL)",
        0x5F => "LD E,A",
        0x60 => "LD H,B",
        0x61 => "LD H,C",
        0x62 => "LD H,D",
        0x63 => "LD H,E",
        0x64 => "LD H,H",
        0x65 => "LD H,L",
        0x66 => "LD H,(HL)",
        0x67 => "LD H,A",
        0x68 => "LD L,B",
        0x69 => "LD L,C",
        0x6A => "LD L,D",
        0x6B => "LD L,E",
        0x6C => "LD L,H",
        0x6D => "LD L,L",
        0x6E => "LD L,(HL)",
        0x6F => "LD L,A",
        0x70 => "LD (HL),B",
        0x71 => "LD (HL),C",
        0x72 => "LD (HL),D",
        0x73 => "LD (HL),E",
        0x74 => "LD (HL),H",
        0x75 => "LD (HL),L",
        0x76 => "HALT",
        0x77 => "LD (HL),A",
        0x78 => "LD A,B",
        0x79 => "LD A,C",
        0x7A => "LD A,D",
        0x7B => "LD A,E",
        0x7C => "LD A,H",
        0x7D => "LD A,L",
        0x7E => "LD A,(HL)",
        0x7F => "LD A,A",
        0x80 => "ADD A,B",
        0x81 => "ADD A,C",
        0x82 => "ADD A,D",
        0x83 => "ADD A,E",
        0x84 => "ADD A,H",
        0x85 => "ADD A,L",
        0x86 => "ADD A,(HL)",
        0x87 => "ADD A,A",
        0x88 => "ADC A,B",
        0x89 => "ADC A,C",
        0x8A => "ADC A,D",
        0x8B => "ADC A,E",
        0x8C => "ADC A,H",
        0x8D => "ADC A,L",
        0x8E => "ADC A,(HL)",
        0x8F => "ADC A,A",
        0x90 => "SUB B",
        0x91 => "SUB C",
        0x92 => "SUB D",
        0x93 => "SUB E",
        0x94 => "SUB H",
        0x95 => "SUB L",
        0x96 => "SUB (HL)",
        0x97 => "SUB A",
        0x98 => "SBC A,B",
        0x99 => "SBC A,C",
        0x9A => "SBC A,D",
        0x9B => "SBC A,E",
        0x9C => "SBC A,H",
        0x9D => "SBC A,L",
        0x9E => "SBC A,(HL)",
        0x9F => "SBC A,A",
        0xA0 => "AND B",
        0xA1 => "AND C",
        0xA2 => "AND D",
        0xA3 => "AND E",
        0xA4 => "AND H",
        0xA5 => "AND L",
        0xA6 => "AND (HL)",
        0xA7 => "AND A",
        0xA8 => "XOR B",
        0xA9 => "XOR C",
        0xAA => "XOR D",
        0xAB => "XOR E",
        0xAC => "XOR H",
        0xAD => "XOR L",
        0xAE => "XOR (HL)",
        0xAF => "XOR A",
        0xB0 => "OR B",
        0xB1 => "OR C",
        0xB2 => "OR D",
        0xB3 => "OR E",
        0xB4 => "OR H",
        0xB5 => "OR L",
        0xB6 => "OR (HL)",
        0xB7 => "OR A",
        0xB8 => "CP B",
        0xB9 => "CP C",
        0xBA => "CP D",
        0xBB => "CP E",
        0xBC => "CP H",
        0xBD => "CP L",
        0xBE => "CP (HL)",
        0xBF => "CP A",
        0xC0 => "RET NZ",
        0xC1 => "POP BC",
        0xC2 => "JP NZ,a16",
        0xC3 => "JP a16",
        0xC4 => "CALL NZ,a16",
        0xC5 => "PUSH BC",
        0xC6 => "ADD A,d8",
        0xC7 => "RST 00H",
        0xC8 => "RET Z",
        0xC9 => "RET",
        0xCA => "JP Z,a16",
        0xCB => "PREFIX CB",
        0xCC => "CALL Z,a16",
        0xCD => "CALL a16",
        0xCE => "ADC A,d8",
        0xCF => "RST 08H",
        0xD0 => "RET NC",
        0xD1 => "POP DE",
        0xD2 => "JP NC,a16",
        0xD3 => "ILLEGAL",
        0xD4 => "CALL NC,a16",
        0xD5 => "PUSH DE",
        0xD6 => "SUB d8",
        0xD7 => "RST 10H",
        0xD8 => "RET C",
        0xD9 => "RETI",
        0xDA => "JP C,a16",
        0xDB => "ILLEGAL",
        0xDC => "CALL C,a16",
        0xDD => "ILLEGAL",
        0xDE => "SBC A,d8",
        0xDF => "RST 18H",
        0xE0 => "LDH (a8),A",
        0xE1 => "POP HL",
        0xE2 => "LD (C),A",
        0xE3 => "ILLEGAL",
        0xE4 => "ILLEGAL",
        0xE5 => "PUSH HL",
        0xE6 => "AND d8",
        0xE7 => "RST 20H",
        0xE8 => "ADD SP,r8",
        0xE9 => "JP (HL)",
        0xEA => "LD (a16),A",
        0xEB => "ILLEGAL",
        0xEC => "ILLEGAL",
        0xED => "ILLEGAL",
        0xEE => "XOR d8",
        0xEF => "RST 28H",
        0xF0 => "LDH A,(a8)",
        0xF1 => "POP AF",
        0xF2 => "LD A,(C)",
        0xF3 => "DI",
        0xF4 => "ILLEGAL",
        0xF5 => "PUSH AF",
        0xF6 => "OR d8",
        0xF7 => "RST 30H",
        0xF8 => "LD HL,SP+r8",
        0xF9 => "LD SP,HL",
        0xFA => "LD A,(a16)",
        0xFB => "EI",
        0xFC => "ILLEGAL",
        0xFD => "ILLEGAL",
        0xFE => "CP d8",
        _ => "RST 38H",    }
}

/// The conventional mnemonic of each CB-prefixed opcode.
pub open spec fn spec_cb_mnemonic(opcode: u8) -> Seq<char> {
    match opcode {
        0x00 => "RLC B"@,
        0x01 => "RLC C"@,
        0x02 => "RLC D"@,
        0x03 => "RLC E"@,
        0x04 => "RLC H"@,
        0x05 => "RLC L"@,
        0x06 => "RLC (HL)"@,
        0x07 => "RLC A"@,
        0x08 => "RRC B"@,
        0x09 => "RRC C"@,
        0x0A => "RRC D"@,
        0x0B => "RRC E"@,
        0x0C => "RRC H"@,
        0x0D => "RRC L"@,
        0x0E => "RRC (HL)"@,
        0x0F => "RRC A"@,
        0x10 => "RL B"@,
        0x11 => "RL C"@,
        0x12 => "RL D"@,
        0x13 => "RL E"@,
        0x14 => "RL H"@,
        0x15 => "RL L"@,
        0x16 => "RL (HL)"@,
        0x17 => "RL A"@,
        0x18 => "RR B"@,
        0x19 => "RR C"@,
        0x1A => "RR D"@,
        0x1B => "RR E"@,
        0x1C => "RR H"@,
        0x1D => "RR L"@,
        0x1E => "RR (HL)"@,
        0x1F => "RR A"@,
        0x20 => "SLA B"@,
        0x21 => "SLA C"@,
        0x22 => "SLA D"@,
        0x23 => "SLA E"@,
        0x24 => "SLA H"@,
        0x25 => "SLA L"@,
        0x26 => "SLA (HL)"@,
        0x27 => "SLA A"@,
        0x28 => "SRA B"@,
        0x29 => "SRA C"@,
        0x2A => "SRA D"@,
        0x2B => "SRA E"@,
        0x2C => "SRA H"@,
        0x2D => "SRA L"@,
        0x2E => "SRA (HL)"@,
        0x2F => "SRA A"@,
        0x30 => "SWAP B"@,
        0x31 => "SWAP C"@,
        0x32 => "SWAP D"@,
        0x33 => "SWAP E"@,
        0x34 => "SWAP H"@,
        0x35 => "SWAP L"@,
        0x36 => "SWAP (HL)"@,
        0x37 => "SWAP A"@,
        0x38 => "SRL B"@,
        0x39 => "SRL C"@,
        0x3A => "SRL D"@,
        0x3B => "SRL E"@,
        0x3C => "SRL H"@,
        0x3D => "SRL L"@,
        0x3E => "SRL (HL)"@,
        0x3F => "SRL A"@,
        0x40 => "BIT 0,B"@,
        0x41 => "BIT 0,C"@,
        0x42 => "BIT 0,D"@,
        0x43 => "BIT 0,E"@,
        0x44 => "BIT 0,H"@,
        0x45 => "BIT 0,L"@,
        0x46 => "BIT 0,(HL)"@,
        0x47 => "BIT 0,A"@,
        0x48 => "BIT 1,B"@,
        0x49 => "BIT 1,C"@,
        0x4A => "BIT 1,D"@,
        0x4B => "BIT 1,E"@,
        0x4C => "BIT 1,H"@,
        0x4D => "BIT 1,L"@,
        0x4E => "BIT 1,(HL)"@,
        0x4F => "BIT 1,A"@,
        0x50 => "BIT 2,B"@,
        0x51 => "BIT 2,C"@,
        0x52 => "BIT 2,D"@,
        0x53 => "BIT 2,E"@,
        0x54 => "BIT 2,H"@,
        0x55 => "BIT 2,L"@,
        0x56 => "BIT 2,(HL)"@,
        0x57 => "BIT 2,A"@,
        0x58 => "BIT 3,B"@,
        0x59 => "BIT 3,C"@,
        0x5A => "BIT 3,D"@,
        0x5B => "BIT 3,E"@,
        0x5C => "BIT 3,H"@,
        0x5D => "BIT 3,L"@,
        0x5E => "BIT 3,(HL)"@,
        0x5F => "BIT 3,A"@,
        0x60 => "BIT 4,B"@,
        0x61 => "BIT 4,C"@,
        0x62 => "BIT 4,D"@,
        0x63 => "BIT 4,E"@,
        0x64 => "BIT 4,H"@,
        0x65 => "BIT 4,L"@,
        0x66 => "BIT 4,(HL)"@,
        0x67 => "BIT 4,A"@,
        0x68 => "BIT 5,B"@,
        0x69 => "BIT 5,C"@,
        0x6A => "BIT 5,D"@,
        0x6B => "BIT 5,E"@,
        0x6C => "BIT 5,H"@,
        0x6D => "BIT 5,L"@,
        0x6E => "BIT 5,(HL)"@,
        0x6F => "BIT 5,A"@,
        0x70 => "BIT 6,B"@,
        0x71 => "BIT 6,C"@,
        0x72 => "BIT 6,D"@,
        0x73 => "BIT 6,E"@,
        0x74 => "BIT 6,H"@,
        0x75 => "BIT 6,L"@,
        0x76 => "BIT 6,(HL)"@,
        0x77 => "BIT 6,A"@,
        0x78 => "BIT 7,B"@,
        0x79 => "BIT 7,C"@,
        0x7A => "BIT 7,D"@,
        0x7B => "BIT 7,E"@,
        0x7C => "BIT 7,H"@,
        0x7D => "BIT 7,L"@,
        0x7E => "BIT 7,(HL)"@,
        0x7F => "BIT 7,A"@,
        0x80 => "RES 0,B"@,
        0x81 => "RES 0,C"@,
        0x82 => "RES 0,D"@,
        0x83 => "RES 0,E"@,
        0x84 => "RES 0,H"@,
        0x85 => "RES 0,L"@,
        0x86 => "RES 0,(HL)"@,
        0x87 => "RES 0,A"@,
        0x88 => "RES 1,B"@,
        0x89 => "RES 1,C"@,
        0x8A => "RES 1,D"@,
        0x8B => "RES 1,E"@,
        0x8C => "RES 1,H"@,
        0x8D => "RES 1,L"@,
        0x8E => "RES 1,(HL)"@,
        0x8F => "RES 1,A"@,
        0x90 => "RES 2,B"@,
        0x91 => "RES 2,C"@,
        0x92 => "RES 2,D"@,
        0x93 => "RES 2,E"@,
        0x94 => "RES 2,H"@,
        0x95 => "RES 2,L"@,
        0x96 => "RES 2,(HL)"@,
        0x97 => "RES 2,A"@,
        0x98 => "RES 3,B"@,
        0x99 => "RES 3,C"@,
        0x9A => "RES 3,D"@,
        0x9B => "RES 3,E"@,
        0x9C => "RES 3,H"@,
        0x9D => "RES 3,L"@,
        0x9E => "RES 3,(HL)"@,
        0x9F => "RES 3,A"@,
        0xA0 => "RES 4,B"@,
        0xA1 => "RES 4,C"@,
        0xA2 => "RES 4,D"@,
        0xA3 => "RES 4,E"@,
        0xA4 => "RES 4,H"@,
        0xA5 => "RES 4,L"@,
        0xA6 => "RES 4,(HL)"@,
        0xA7 => "RES 4,A"@,
        0xA8 => "RES 5,B"@,
        0xA9 => "RES 5,C"@,
        0xAA => "RES 5,D"@,
        0xAB => "RES 5,E"@,
        0xAC => "RES 5,H"@,
        0xAD => "RES 5,L"@,
        0xAE => "RES 5,(HL)"@,
        0xAF => "RES 5,A"@,
        0xB0 => "RES 6,B"@,
        0xB1 => "RES 6,C"@,
        0xB2 => "RES 6,D"@,
        0xB3 => "RES 6,E"@,
        0xB4 => "RES 6,H"@,
        0xB5 => "RES 6,L"@,
        0xB6 => "RES 6,(HL)"@,
        0xB7 => "RES 6,A"@,
        0xB8 => "RES 7,B"@,
        0xB9 => "RES 7,C"@,
        0xBA => "RES 7,D"@,
        0xBB => "RES 7,E"@,
        0xBC => "RES 7,H"@,
        0xBD => "RES 7,L"@,
        0xBE => "RES 7,(HL)"@,
        0xBF => "RES 7,A"@,
        0xC0 => "SET 0,B"@,
        0xC1 => "SET 0,C"@,
        0xC2 => "SET 0,D"@,
        0xC3 => "SET 0,E"@,
        0xC4 => "SET 0,H"@,
        0xC5 => "SET 0,L"@,
        0xC6 => "SET 0,(HL)"@,
        0xC7 => "SET 0,A"@,
        0xC8 => "SET 1,B"@,
        0xC9 => "SET 1,C"@,
        0xCA => "SET 1,D"@,
        0xCB => "SET 1,E"@,
        0xCC => "SET 1,H"@,
        0xCD => "SET 1,L"@,
        0xCE => "SET 1,(HL)"@,
        0xCF => "SET 1,A"@,
        0xD0 => "SET 2,B"@,
        0xD1 => "SET 2,C"@,
        0xD2 => "SET 2,D"@,
        0xD3 => "SET 2,E"@,
        0xD4 => "SET 2,H"@,
        0xD5 => "SET 2,L"@,
        0xD6 => "SET 2,(HL)"@,
        0xD7 => "SET 2,A"@,
        0xD8 => "SET 3,B"@,
        0xD9 => "SET 3,C"@,
        0xDA => "SET 3,D"@,
        0xDB => "SET 3,E"@,
        0xDC => "SET 3,H"@,
        0xDD => "SET 3,L"@,
        0xDE => "SET 3,(HL)"@,
        0xDF => "SET 3,A"@,
        0xE0 => "SET 4,B"@,
        0xE1 => "SET 4,C"@,
        0xE2 => "SET 4,D"@,
        0xE3 => "SET 4,E"@,
        0xE4 => "SET 4,H"@,
        0xE5 => "SET 4,L"@,
        0xE6 => "SET 4,(HL)"@,
        0xE7 => "SET 4,A"@,
        0xE8 => "SET 5,B"@,
        0xE9 => "SET 5,C"@,
        0xEA => "SET 5,D"@,
        0xEB => "SET 5,E"@,
        0xEC => "SET 5,H"@,
        0xED => "SET 5,L"@,
        0xEE => "SET 5,(HL)"@,
        0xEF => "SET 5,A"@,
        0xF0 => "SET 6,B"@,
        0xF1 => "SET 6,C"@,
        0xF2 => "SET 6,D"@,
        0xF3 => "SET 6,E"@,
        0xF4 => "SET 6,H"@,
        0xF5 => "SET 6,L"@,
        0xF6 => "SET 6,(HL)"@,
        0xF7 => "SET 6,A"@,
        0xF8 => "SET 7,B"@,
        0xF9 => "SET 7,C"@,
        0xFA => "SET 7,D"@,
        0xFB => "SET 7,E"@,
        0xFC => "SET 7,H"@,
        0xFD => "SET 7,L"@,
        0xFE => "SET 7,(HL)"@,
        _ => "SET 7,A"@,
    }
}

/// Executable mirror of `spec_cb_mnemonic`.
#[verifier::rlimit(100)]
#[verifier::spinoff_prover]
fn cb_mnemonic(opcode: u8) -> (r: &'static str)
    ensures
        r@ == spec_cb_mnemonic(opcode),
{
    match opcode {
        0x00 => "RLC B",
        0x01 => "RLC C",
        0x02 => "RLC D",
        0x03 => "RLC E",
        0x04 => "RLC H",
        0x05 => "RLC L",
        0x06 => "RLC (HL)",
        0x07 => "RLC A",
        0x08 => "RRC B",
        0x09 => "RRC C",
        0x0A => "RRC D",
        0x0B => "RRC E",
        0x0C => "RRC H",
        0x0D => "RRC L",
        0x0E => "RRC (HL)",
        0x0F => "RRC A",
        0x10 => "RL B",
        0x11 => "RL C",
        0x12 => "RL D",
        0x13 => "RL E",
        0x14 => "RL H",
        0x15 => "RL L",
        0x16 => "RL (HL)",
        0x17 => "RL A",
        0x18 => "RR B",
        0x19 => "RR C",
        0x1A => "RR D",
        0x1B => "RR E",
        0x1C => "RR H",
        0x1D => "RR L",
        0x1E => "RR (HL)",
        0x1F => "RR A",
        0x20 => "SLA B",
        0x21 => "SLA C",
        0x22 => "SLA D",
        0x23 => "SLA E",
        0x24 => "SLA H",
        0x25 => "SLA L",
        0x26 => "SLA (HL)",
        0x27 => "SLA A",
        0x28 => "SRA B",
        0x29 => "SRA C",
        0x2A => "SRA D",
        0x2B => "SRA E",
        0x2C => "SRA H",
        0x2D => "SRA L",
        0x2E => "SRA (HL)",
        0x2F => "SRA A",
        0x30 => "SWAP B",
        0x31 => "SWAP C",
        0x32 => "SWAP D",
        0x33 => "SWAP E",
        0x34 => "SWAP H",
        0x35 => "SWAP L",
        0x36 => "SWAP (HL)",
        0x37 => "SWAP A",
        0x38 => "SRL B",
        0x39 => "SRL C",
        0x3A => "SRL D",
        0x3B => "SRL E",
        0x3C => "SRL H",
        0x3D => "SRL L",
        0x3E => "SRL (HL)",
        0x3F => "SRL A",
        0x40 => "BIT 0,B",
        0x41 => "BIT 0,C",
        0x42 => "BIT 0,D",
        0x43 => "BIT 0,E",
        0x44 => "BIT 0,H",
        0x45 => "BIT 0,L",
        0x46 => "BIT 0,(HL)",
        0x47 => "BIT 0,A",
        0x48 => "BIT 1,B",
        0x49 => "BIT 1,C",
        0x4A => "BIT 1,D",
        0x4B => "BIT 1,E",
        0x4C => "BIT 1,H",
        0x4D => "BIT 1,L",
        0x4E => "BIT 1,(HL)",
        0x4F => "BIT 1,A",
        0x50 => "BIT 2,B",
        0x51 => "BIT 2,C",
        0x52 => "BIT 2,D",
        0x53 => "BIT 2,E",
        0x54 => "BIT 2,H",
        0x55 => "BIT 2,L",
        0x56 => "BIT 2,(HL)",
        0x57 => "BIT 2,A",
        0x58 => "BIT 3,B",
        0x59 => "BIT 3,C",
        0x5A => "BIT 3,D",
        0x5B => "BIT 3,E",
        0x5C => "BIT 3,H",
        0x5D => "BIT 3,L",
        0x5E => "BIT 3,(HL)",
        0x5F => "BIT 3,A",
        0x60 => "BIT 4,B",
        0x61 => "BIT 4,C",
        0x62 => "BIT 4,D",
        0x63 => "BIT 4,E",
        0x64 => "BIT 4,H",
        0x65 => "BIT 4,L",
        0x66 => "BIT 4,(HL)",
        0x67 => "BIT 4,A",
        0x68 => "BIT 5,B",
        0x69 => "BIT 5,C",
        0x6A => "BIT 5,D",
        0x6B => "BIT 5,E",
        0x6C => "BIT 5,H",
        0x6D => "BIT 5,L",
        0x6E => "BIT 5,(HL)",
        0x6F => "BIT 5,A",
        0x70 => "BIT 6,B",
        0x71 => "BIT 6,C",
        0x72 => "BIT 6,D",
        0x73 => "BIT 6,E",
        0x74 => "BIT 6,H",
        0x75 => "BIT 6,L",
        0x76 => "BIT 6,(HL)",
        0x77 => "BIT 6,A",
        0x78 => "BIT 7,B",
        0x79 => "BIT 7,C",
        0x7A => "BIT 7,D",
        0x7B => "BIT 7,E",
        0x7C => "BIT 7,H",
        0x7D => "BIT 7,L",
        0x7E => "BIT 7,(HL)",
        0x7F => "BIT 7,A",
        0x80 => "RES 0,B",
        0x81 => "RES 0,C",
        0x82 => "RES 0,D",
        0x83 => "RES 0,E",
        0x84 => "RES 0,H",
        0x85 => "RES 0,L",
        0x86 => "RES 0,(HL)",
        0x87 => "RES 0,A",
        0x88 => "RES 1,B",
        0x89 => "RES 1,C",
        0x8A => "RES 1,D",
        0x8B => "RES 1,E",
        0x8C => "RES 1,H",
        0x8D => "RES 1,L",
        0x8E => "RES 1,(HL)",
        0x8F => "RES 1,A",
        0x90 => "RES 2,B",
        0x91 => "RES 2,C",
        0x92 => "RES 2,D",
        0x93 => "RES 2,E",
        0x94 => "RES 2,H",
        0x95 => "RES 2,L",
        0x96 => "RES 2,(HL)",
        0x97 => "RES 2,A",
        0x98 => "RES 3,B",
        0x99 => "RES 3,C",
        0x9A => "RES 3,D",
        0x9B => "RES 3,E",
        0x9C => "RES 3,H",
        0x9D => "RES 3,L",
        0x9E => "RES 3,(HL)",
        0x9F => "RES 3,A",
        0xA0 => "RES 4,B",
        0xA1 => "RES 4,C",
        0xA2 => "RES 4,D",
        0xA3 => "RES 4,E",
        0xA4 => "RES 4,H",
        0xA5 => "RES 4,L",
        0xA6 => "RES 4,(HL)",
        0xA7 => "RES 4,A",
        0xA8 => "RES 5,B",
        0xA9 => "RES 5,C",
        0xAA => "RES 5,D",
        0xAB => "RES 5,E",
        0xAC => "RES 5,H",
        0xAD => "RES 5,L",
        0xAE => "RES 5,(HL)",
        0xAF => "RES 5,A",
        0xB0 => "RES 6,B",
        0xB1 => "RES 6,C",
        0xB2 => "RES 6,D",
        0xB3 => "RES 6,E",
        0xB4 => "RES 6,H",
        0xB5 => "RES 6,L",
        0xB6 => "RES 6,(HL)",
        0xB7 => "RES 6,A",
        0xB8 => "RES 7,B",
        0xB9 => "RES 7,C",
        0xBA => "RES 7,D",
        0xBB => "RES 7,E",
        0xBC => "RES 7,H",
        0xBD => "RES 7,L",
        0xBE => "RES 7,(HL)",
        0xBF => "RES 7,A",
        0xC0 => "SET 0,B",
        0xC1 => "SET 0,C",
        0xC2 => "SET 0,D",
        0xC3 => "SET 0,E",
        0xC4 => "SET 0,H",
        0xC5 => "SET 0,L",
        0xC6 => "SET 0,(HL)",
        0xC7 => "SET 0,A",
        0xC8 => "SET 1,B",
        0xC9 => "SET 1,C",
        0xCA => "SET 1,D",
        0xCB => "SET 1,E",
        0xCC => "SET 1,H",
        0xCD => "SET 1,L",
        0xCE => "SET 1,(HL)",
        0xCF => "SET 1,A",
        0xD0 => "SET 2,B",
        0xD1 => "SET 2,C",
        0xD2 => "SET 2,D",
        0xD3 => "SET 2,E",
        0xD4 => "SET 2,H",
        0xD5 => "SET 2,L",
        0xD6 => "SET 2,(HL)",
        0xD7 => "SET 2,A",
        0xD8 => "SET 3,B",
        0xD9 => "SET 3,C",
        0xDA => "SET 3,D",
        0xDB => "SET 3,E",
        0xDC => "SET 3,H",
        0xDD => "SET 3,L",
        0xDE => "SET 3,(HL)",
        0xDF => "SET 3,A",
        0xE0 => "SET 4,B",
        0xE1 => "SET 4,C",
        0xE2 => "SET 4,D",
        0xE3 => "SET 4,E",
        0xE4 => "SET 4,H",
        0xE5 => "SET 4,L",
        0xE6 => "SET 4,(HL)",
        0xE7 => "SET 4,A",
        0xE8 => "SET 5,B",
        0xE9 => "SET 5,C",
        0xEA => "SET 5,D",
        0xEB => "SET 5,E",
        0xEC => "SET 5,H",
        0xED => "SET 5,L",
        0xEE => "SET 5,(HL)",
        0xEF => "SET 5,A",
        0xF0 => "SET 6,B",
        0xF1 => "SET 6,C",
        0xF2 => "SET 6,D",
        0xF3 => "SET 6,E",
        0xF4 => "SET 6,H",
        0xF5 => "SET 6,L",
        0xF6 => "SET 6,(HL)",
        0xF7 => "SET 6,A",
        0xF8 => "SET 7,B",
        0xF9 => "SET 7,C",
        0xFA => "SET 7,D",
        0xFB => "SET 7,E",
        0xFC => "SET 7,H",
        0xFD => "SET 7,L",
        0xFE => "SET 7,(HL)",
        _ => "SET 7,A",    }
}

/// Builds the main-table entry for one opcode, metadata consistent with its
/// operation by construction.
pub fn main_entry(opcode: u8) -> (r: InstructionImpl)
    ensures
        r.instruction.opcode == opcode,
        r.instruction.mnemonic@ == spec_main_mnemonic(opcode),
        r.op == spec_main_op(opcode),
        entry_consistent(r),
{
    let op = main_op(opcode);
    let f = compute_flags(op);
    let instruction = Instruction::new(
        opcode,
        main_mnemonic(opcode),
        compute_length(op),
        compute_cycles(op),
        compute_cycles_not_taken(op),
        compute_cond(op),
        f.0,
        f.1,
        f.2,
        f.3,
    );
    InstructionImpl::new(instruction, op)
}

/// Builds the CB-table entry for one opcode.
pub fn cb_entry(opcode: u8) -> (r: InstructionImpl)
    ensures
        r.instruction.opcode == opcode,
        r.instruction.mnemonic@ == spec_cb_mnemonic(opcode),
        r.op == spec_cb_op(opcode),
        entry_consistent(r),
{
    let op = cb_op(opcode);
    let f = compute_flags(op);
    let instruction = Instruction::new(
        opcode,
        cb_mnemonic(opcode),
        compute_length(op),
        compute_cycles(op),
        compute_cycles_not_taken(op),
        compute_cond(op),
        f.0,
        f.1,
        f.2,
        f.3,
    );
    InstructionImpl::new(instruction, op)
}

/// Slot `i` of a main table holds the entry this module builds for opcode
/// `i`.
pub open spec fn main_entry_ok(tab: Seq<Option<InstructionImpl>>, i: int) -> bool {
    match tab[i] {
        Option::Some(e) => e.instruction.opcode == i
            && e.instruction.mnemonic@ == spec_main_mnemonic(i as u8)
            && e.op == spec_main_op(i as u8) && entry_consistent(e),
        Option::None => false,
    }
}

/// Slot `i` of a CB table holds the entry this module builds for opcode
/// `i`.
pub open spec fn cb_entry_ok(tab: Seq<Option<InstructionImpl>>, i: int) -> bool {
    match tab[i] {
        Option::Some(e) => e.instruction.opcode == i
            && e.instruction.mnemonic@ == spec_cb_mnemonic(i as u8)
            && e.op == spec_cb_op(i as u8) && entry_consistent(e),
        Option::None => false,
    }
}

/// The complete compiled-in main table: one consistent entry per opcode
/// byte value.
pub open spec fn is_lr35902_main_table(tab: Seq<Option<InstructionImpl>>) -> bool {
    &&& tab.len() == 256
    &&& forall|i: int| 0 <= i < 256 ==> #[trigger] main_entry_ok(tab, i)
}

/// The complete compiled-in CB table.
pub open spec fn is_lr35902_cb_table(tab: Seq<Option<InstructionImpl>>) -> bool {
    &&& tab.len() == 256
    &&& forall|i: int| 0 <= i < 256 ==> #[trigger] cb_entry_ok(tab, i)
}

/// Builds both instruction tables, once, before the first fetch.
pub fn load_lr35902_instructions() -> (r: (
    Vec<Option<InstructionImpl>>,
    Vec<Option<InstructionImpl>>,
))
    ensures
        is_lr35902_main_table(r.0@),
        is_lr35902_cb_table(r.1@),
{
    let mut main_table: Vec<Option<InstructionImpl>> = Vec::new();
    let mut i: usize = 0;
    while i < 256
        invariant
            i <= 256,
            main_table@.len() == i,
            forall|j: int| 0 <= j < i ==> #[trigger] main_entry_ok(main_table@, j),
        decreases 256 - i,
    {
        let e = main_entry(i as u8);
        let ghost prev = main_table@;
        main_table.push(Option::Some(e));
        proof {
            assert forall|j: int| 0 <= j < i + 1 implies #[trigger] main_entry_ok(
                main_table@,
                j,
            ) by {
                if j < i {
                    assert(main_entry_ok(prev, j));
                    assert(main_table@[j] == prev[j]);
                } else {
                    assert(main_table@[j] == Option::Some(e));
                }
            }
        }
        i = i + 1;
    }
    let mut cb_table: Vec<Option<InstructionImpl>> = Vec::new();
    let mut k: usize = 0;
    while k < 256
        invariant
            k <= 256,
            cb_table@.len() == k,
            forall|j: int| 0 <= j < k ==> #[trigger] cb_entry_ok(cb_table@, j),
        decreases 256 - k,
    {
        let e = cb_entry(k as u8);
        let ghost prev = cb_table@;
        cb_table.push(Option::Some(e));
        proof {
            assert forall|j: int| 0 <= j < k + 1 implies #[trigger] cb_entry_ok(cb_table@, j) by {
                if j < k {
                    assert(cb_entry_ok(prev, j));
                    assert(cb_table@[j] == prev[j]);
                } else {
                    assert(cb_table@[j] == Option::Some(e));
                }
            }
        }
        k = k + 1;
    }
    (main_table, cb_table)
}

/// Completeness of the main opcode space: every byte value decodes, either
/// to an implemented operation or - exactly for the documented illegal
/// opcodes - to the operation whose execution fails with the illegal-opcode
/// error. No opcode byte is silently absent, and none is left
/// unimplemented.
pub proof fn lemma_main_table_complete(tab: Seq<Option<InstructionImpl>>)
    requires
        is_lr35902_main_table(tab),
    ensures
        forall|i: int| 0 <= i < 256 ==> (#[trigger] tab[i]) is Some,
        forall|b: u8| !((#[trigger] spec_main_op(b)) is Unimplemented),
        forall|b: u8| ((#[trigger] spec_main_op(b)) is IllegalOp) <==> spec_is_illegal(b),
{
    assert forall|i: int| 0 <= i < 256 implies (#[trigger] tab[i]) is Some by {
        assert(main_entry_ok(tab, i));
    }
}

} // verus!
