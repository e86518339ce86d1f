//! The CPU core: register file, flags, cycle counter and the
//! fetch-decode-execute engine, specified against a mathematical snapshot of
//! the whole machine state.
//!
//! Cycle model: every memory access (opcode fetch, operand fetch, data read
//! or write) charges a flat 4 cycles, and a control transfer that redirects
//! `PC` away from fall-through charges 4 more. Cycle-perfect internal delays
//! of the real chip beyond this flat charge are out of scope.

use vstd::prelude::*;

use crate::bus::{Bus, spec_bus_write, spec_initial_mem};
use crate::instruction_impl::{
    AluOp, CbOp, InstructionImpl, Op, op_body_cycles_not_taken, op_body_cycles_taken, op_cond,
};
use crate::instructions_loader::{Cond, Reg16, Reg8};
use crate::lr35902_instructions_impl::{is_lr35902_cb_table, is_lr35902_main_table, main_entry_ok};
use crate::rom::Rom;

verus! {

/// A fatal condition of one run: decoding hit a byte with no table entry, a
/// permanently invalid opcode, or an entry whose semantics the table left
/// open. Each carries the offending opcode and the address it was fetched
/// from.
#[derive(Clone, Copy, Debug, PartialEq, Eq)]
pub enum CpuError {
    UnknownOpcode { opcode: u8, pc: u16 },
    IllegalOpcode { opcode: u8, pc: u16 },
    UnimplementedOperandCombination { opcode: u8, pc: u16 },
}

/// The mathematical snapshot of the machine: every register, the four
/// flags, the interrupt-master-enable and running bits, the cycle counter,
/// the most recently fetched opcode, and the contents of memory.
pub ghost struct Snap {
    pub a: u8,
    pub b: u8,
    pub c: u8,
    pub d: u8,
    pub e: u8,
    pub h: u8,
    pub l: u8,
    pub zf: bool,
    pub nf: bool,
    pub hf: bool,
    pub cf: bool,
    pub sp: u16,
    pub pc: u16,
    pub ime: bool,
    pub running: bool,
    pub cycle_count: u64,
    pub curr_opcode: u8,
    pub curr_is_cb: bool,
    pub mem: Seq<u8>,
}

// ---------------------------------------------------------------------------
// Machine arithmetic at specification level.
// ---------------------------------------------------------------------------

/// The cycle counter grows monotonically and sticks at its maximum rather
/// than wrapping.
pub open spec fn sat_add64(c: u64, n: u64) -> u64 {
    if c + n <= u64::MAX {
        (c + n) as u64
    } else {
        u64::MAX
    }
}

pub open spec fn w_add16(a: u16, k: u16) -> u16 {
    (((a + k) % 0x10000) as u16)
}

pub open spec fn w_sub16(a: u16, k: u16) -> u16 {
    (((a + 0x10000 - k) % 0x10000) as u16)
}

pub open spec fn w_inc8(v: u8) -> u8 {
    (((v + 1) % 0x100) as u8)
}

pub open spec fn w_dec8(v: u8) -> u8 {
    (((v + 0xFF) % 0x100) as u8)
}

pub open spec fn lo8(w: u16) -> u8 {
    ((w % 0x100) as u8)
}

pub open spec fn hi8(w: u16) -> u8 {
    ((w / 0x100) as u8)
}

pub open spec fn mk16(hi: u8, lo: u8) -> u16 {
    ((hi * 0x100 + lo) as u16)
}

/// The flag register byte: Zero in bit 7, Subtract in bit 6, Half-carry in
/// bit 5, Carry in bit 4; the low nibble is always zero.
pub open spec fn flags_byte(z: bool, n: bool, h: bool, c: bool) -> u8 {
    (((if z { 0x80int } else { 0 }) + (if n { 0x40int } else { 0 }) + (if h { 0x20int } else { 0 })
        + (if c { 0x10int } else { 0 })) as u8)
}

pub open spec fn flag_z_of(b: u8) -> bool {
    b / 0x80 % 2 == 1
}

pub open spec fn flag_n_of(b: u8) -> bool {
    b / 0x40 % 2 == 1
}

pub open spec fn flag_h_of(b: u8) -> bool {
    b / 0x20 % 2 == 1
}

pub open spec fn flag_c_of(b: u8) -> bool {
    b / 0x10 % 2 == 1
}

/// The byte a read of `address` returns; total over the whole address
/// space.
pub open spec fn bus_read(m: Seq<u8>, address: u16) -> u8 {
    if address < m.len() {
        m[address as int]
    } else {
        0xFF
    }
}

/// A 16-bit little-endian read: low byte at `address`, high byte above it.
pub open spec fn read16(m: Seq<u8>, address: u16) -> u16 {
    mk16(bus_read(m, w_add16(address, 1)), bus_read(m, address))
}

/// The branch target of a relative jump: the displacement byte is taken as
/// a two's-complement offset from the address after the operand.
pub open spec fn jr_target(pc: u16, d: u8) -> u16 {
    if d < 0x80 {
        w_add16(pc, d as u16)
    } else {
        w_add16(pc, (d + 0xFF00) as u16)
    }
}

/// `SP`-relative signed addition, as used by the stack-displacement loads.
pub open spec fn sp_signed_add(sp: u16, d: u8) -> u16 {
    jr_target(sp, d)
}

/// Condition evaluation, shared by relative jumps, conditional absolute
/// jumps, conditional calls and conditional returns.
pub open spec fn cond_holds(s: Snap, c: Cond) -> bool {
    match c {
        Cond::Always => true,
        Cond::Z => s.zf,
        Cond::Nz => !s.zf,
        Cond::Cy => s.cf,
        Cond::Nc => !s.cf,
    }
}

// ---------------------------------------------------------------------------
// Snapshot-level micro-operations: the building blocks every instruction's
// meaning is composed from.
// ---------------------------------------------------------------------------

pub open spec fn s_cycles(s: Snap, n: u64) -> Snap {
    Snap { cycle_count: sat_add64(s.cycle_count, n), ..s }
}

/// Value an operand fetch at `PC` yields.
pub open spec fn s_fetch8_v(s: Snap) -> u8 {
    bus_read(s.mem, s.pc)
}

/// State after one operand fetch: `PC` advanced, 4 cycles charged.
pub open spec fn s_fetch8(s: Snap) -> Snap {
    Snap { pc: w_add16(s.pc, 1), cycle_count: sat_add64(s.cycle_count, 4), ..s }
}

/// Value a 16-bit little-endian operand fetch yields.
pub open spec fn s_fetch16_v(s: Snap) -> u16 {
    read16(s.mem, s.pc)
}

/// State after a 16-bit operand fetch.
pub open spec fn s_fetch16(s: Snap) -> Snap {
    Snap { pc: w_add16(s.pc, 2), cycle_count: sat_add64(s.cycle_count, 8), ..s }
}

/// State after one data write: 4 cycles, and the bus write policy applied.
pub open spec fn s_write(s: Snap, address: u16, v: u8) -> Snap {
    Snap { mem: spec_bus_write(s.mem, address, v), cycle_count: sat_add64(s.cycle_count, 4), ..s }
}

/// State after a control transfer away from fall-through: 4 extra cycles.
pub open spec fn s_jump(s: Snap, target: u16) -> Snap {
    Snap { pc: target, cycle_count: sat_add64(s.cycle_count, 4), ..s }
}

/// A 16-bit push: high byte at `SP-1`, low byte at `SP-2`, `SP` lowered by
/// two.
pub open spec fn s_push(s: Snap, w: u16) -> Snap {
    let s1 = s_write(s, w_sub16(s.sp, 1), hi8(w));
    let s2 = s_write(s1, w_sub16(s.sp, 2), lo8(w));
    Snap { sp: w_sub16(s.sp, 2), ..s2 }
}

/// The value a 16-bit pop yields: little-endian at `SP`.
pub open spec fn s_pop_v(s: Snap) -> u16 {
    read16(s.mem, s.sp)
}

/// State after a 16-bit pop: two reads charged, `SP` raised by two.
pub open spec fn s_pop(s: Snap) -> Snap {
    Snap { sp: w_add16(s.sp, 2), cycle_count: sat_add64(s.cycle_count, 8), ..s }
}

pub open spec fn spec_reg8(s: Snap, r: Reg8) -> u8 {
    match r {
        Reg8::A => s.a,
        Reg8::B => s.b,
        Reg8::C => s.c,
        Reg8::D => s.d,
        Reg8::E => s.e,
        Reg8::H => s.h,
        Reg8::L => s.l,
    }
}

pub open spec fn spec_set_reg8(s: Snap, r: Reg8, v: u8) -> Snap {
    match r {
        Reg8::A => Snap { a: v, ..s },
        Reg8::B => Snap { b: v, ..s },
        Reg8::C => Snap { c: v, ..s },
        Reg8::D => Snap { d: v, ..s },
        Reg8::E => Snap { e: v, ..s },
        Reg8::H => Snap { h: v, ..s },
        Reg8::L => Snap { l: v, ..s },
    }
}

/// A 16-bit composite read: high register in the upper byte. `AF` composes
/// the accumulator with the flag byte.
pub open spec fn spec_reg16(s: Snap, rp: Reg16) -> u16 {
    match rp {
        Reg16::Af => mk16(s.a, flags_byte(s.zf, s.nf, s.hf, s.cf)),
        Reg16::Bc => mk16(s.b, s.c),
        Reg16::De => mk16(s.d, s.e),
        Reg16::Hl => mk16(s.h, s.l),
        Reg16::Sp => s.sp,
    }
}

/// A 16-bit composite write sets both halves; writing `AF` rebuilds the four
/// flags from the high bits of the low byte, so the low nibble of `F` can
/// never become non-zero.
pub open spec fn spec_set_reg16(s: Snap, rp: Reg16, w: u16) -> Snap {
    match rp {
        Reg16::Af => Snap {
            a: hi8(w),
            zf: flag_z_of(lo8(w)),
            nf: flag_n_of(lo8(w)),
            hf: flag_h_of(lo8(w)),
            cf: flag_c_of(lo8(w)),
            ..s
        },
        Reg16::Bc => Snap { b: hi8(w), c: lo8(w), ..s },
        Reg16::De => Snap { d: hi8(w), e: lo8(w), ..s },
        Reg16::Hl => Snap { h: hi8(w), l: lo8(w), ..s },
        Reg16::Sp => Snap { sp: w, ..s },
    }
}

// ---------------------------------------------------------------------------
// Instruction semantics at specification level. Each function takes the
// state after the opcode byte(s) were fetched and yields the state after the
// instruction's effect.
// ---------------------------------------------------------------------------

/// The accumulator ALU: result and flags of one 8-bit operation against
/// operand `v`. `Cp` computes the subtraction's flags without storing.
pub open spec fn spec_alu(s: Snap, aop: AluOp, v: u8) -> Snap {
    match aop {
        AluOp::Add => {
            let res = (((s.a + v) % 0x100) as u8);
            Snap {
                a: res,
                zf: res == 0,
                nf: false,
                hf: s.a % 16 + v % 16 > 15,
                cf: s.a + v > 0xFF,
                ..s
            }
        },
        AluOp::Adc => {
            let cin = if s.cf { 1int } else { 0 };
            let res = (((s.a + v + cin) % 0x100) as u8);
            Snap {
                a: res,
                zf: res == 0,
                nf: false,
                hf: s.a % 16 + v % 16 + cin > 15,
                cf: s.a + v + cin > 0xFF,
                ..s
            }
        },
        AluOp::Sub => {
            let res = (((s.a + 0x100 - v) % 0x100) as u8);
            Snap {
                a: res,
                zf: res == 0,
                nf: true,
                hf: v % 16 > s.a % 16,
                cf: v > s.a,
                ..s
            }
        },
        AluOp::Sbc => {
            let cin = if s.cf { 1int } else { 0 };
            let res = (((s.a + 0x200 - v - cin) % 0x100) as u8);
            Snap {
                a: res,
                zf: res == 0,
                nf: true,
                hf: v % 16 + cin > s.a % 16,
                cf: v + cin > s.a,
                ..s
            }
        },
        AluOp::And => {
            let res = s.a & v;
            Snap { a: res, zf: res == 0, nf: false, hf: true, cf: false, ..s }
        },
        AluOp::Xor => {
            let res = s.a ^ v;
            Snap { a: res, zf: res == 0, nf: false, hf: false, cf: false, ..s }
        },
        AluOp::Or => {
            let res = s.a | v;
            Snap { a: res, zf: res == 0, nf: false, hf: false, cf: false, ..s }
        },
        AluOp::Cp => {
            let res = (((s.a + 0x100 - v) % 0x100) as u8);
            Snap { zf: res == 0, nf: true, hf: v % 16 > s.a % 16, cf: v > s.a, ..s }
        },
    }
}

/// Decimal adjust of the accumulator after a BCD addition or subtraction,
/// per the documented hardware behavior.
pub open spec fn spec_daa(s: Snap) -> Snap {
    if !s.nf {
        let adj1 = if s.hf || s.a % 16 > 9 { 6int } else { 0 };
        let adj2 = if s.cf || s.a > 0x99 { 0x60int } else { 0 };
        let cout = s.cf || s.a > 0x99;
        let res = (((s.a + adj1 + adj2) % 0x100) as u8);
        Snap { a: res, zf: res == 0, hf: false, cf: cout, ..s }
    } else {
        let adj = (if s.hf { 6int } else { 0 }) + (if s.cf { 0x60int } else { 0 });
        let res = (((s.a + 0x100 - adj) % 0x100) as u8);
        Snap { a: res, zf: res == 0, hf: false, ..s }
    }
}

/// The single-bit mask `1 << b` for a bit index below 8.
pub open spec fn pow2(b: u8) -> u8 {
    if b == 0 {
        1
    } else if b == 1 {
        2
    } else if b == 2 {
        4
    } else if b == 3 {
        8
    } else if b == 4 {
        16
    } else if b == 5 {
        32
    } else if b == 6 {
        64
    } else {
        128
    }
}

/// The value a CB-prefixed operation produces from `v` (the operand's old
/// value); bit tests leave the value as it was.
pub open spec fn spec_cb_val(cop: CbOp, v: u8, cf: bool) -> u8 {
    match cop {
        CbOp::Rlc => ((v % 128 * 2 + v / 128) as u8),
        CbOp::Rrc => ((v / 2 + v % 2 * 128) as u8),
        CbOp::Rl => ((v % 128 * 2 + (if cf { 1int } else { 0 })) as u8),
        CbOp::Rr => ((v / 2 + (if cf { 128int } else { 0 })) as u8),
        CbOp::Sla => ((v % 128 * 2) as u8),
        CbOp::Sra => ((v / 2 + v / 128 * 128) as u8),
        CbOp::Swap => ((v % 16 * 16 + v / 16) as u8),
        CbOp::Srl => ((v / 2) as u8),
        CbOp::BitTest(_) => v,
        CbOp::ResBit(b) => v & !pow2(b),
        CbOp::SetBit(b) => v | pow2(b),
    }
}

/// The carry a CB shift or rotate pushes out of `v`.
pub open spec fn spec_cb_carry(cop: CbOp, v: u8) -> bool {
    match cop {
        CbOp::Rlc => v >= 128,
        CbOp::Rl => v >= 128,
        CbOp::Sla => v >= 128,
        CbOp::Rrc => v % 2 == 1,
        CbOp::Rr => v % 2 == 1,
        CbOp::Sra => v % 2 == 1,
        CbOp::Srl => v % 2 == 1,
        _ => false,
    }
}

/// Flag outcome of a CB operation applied to old value `v` with new value
/// `nv`, starting from state `s` (whose carry the bit operations keep).
pub open spec fn spec_cb_flags(s: Snap, cop: CbOp, v: u8, nv: u8) -> Snap {
    match cop {
        CbOp::BitTest(b) => Snap { zf: v & pow2(b) == 0, nf: false, hf: true, ..s },
        CbOp::ResBit(_) => s,
        CbOp::SetBit(_) => s,
        CbOp::Swap => Snap { zf: nv == 0, nf: false, hf: false, cf: false, ..s },
        _ => Snap { zf: nv == 0, nf: false, hf: false, cf: spec_cb_carry(cop, v), ..s },
    }
}

/// 8-bit increment: `Z`, `N`, `H` computed, `C` untouched.
pub open spec fn spec_inc8_flags(s: Snap, v: u8) -> Snap {
    Snap { zf: w_inc8(v) == 0, nf: false, hf: v % 16 == 15, ..s }
}

/// 8-bit decrement: `Z`, `N`, `H` computed, `C` untouched.
pub open spec fn spec_dec8_flags(s: Snap, v: u8) -> Snap {
    Snap { zf: w_dec8(v) == 0, nf: true, hf: v % 16 == 0, ..s }
}

/// The full meaning of one operation, from the state after its opcode
/// byte(s) were fetched. `IllegalOp` and `Unimplemented` never get here:
/// decode turns them into errors before any effect.
pub open spec fn spec_exec_op(s: Snap, op: Op) -> Snap {
    match op {
        Op::Nop => s,
        Op::CbPrefix => s,
        Op::IllegalOp => s,
        Op::Unimplemented => s,
        Op::Halt => Snap { running: false, ..s },
        Op::Stop => Snap { running: false, ..s_fetch8(s) },
        Op::LdRR(d, src) => spec_set_reg8(s, d, spec_reg8(s, src)),
        Op::LdRD8(r) => spec_set_reg8(s_fetch8(s), r, s_fetch8_v(s)),
        Op::LdRHl(r) => spec_set_reg8(
            s_cycles(s, 4),
            r,
            bus_read(s.mem, spec_reg16(s, Reg16::Hl)),
        ),
        Op::LdHlR(r) => s_write(s, spec_reg16(s, Reg16::Hl), spec_reg8(s, r)),
        Op::LdHlD8 => {
            let v = s_fetch8_v(s);
            let s1 = s_fetch8(s);
            s_write(s1, spec_reg16(s1, Reg16::Hl), v)
        },
        Op::LdAInd(rp) => Snap {
            a: bus_read(s.mem, spec_reg16(s, rp)),
            ..s_cycles(s, 4)
        },
        Op::LdIndA(rp) => s_write(s, spec_reg16(s, rp), s.a),
        Op::LdAHli => {
            let hl = spec_reg16(s, Reg16::Hl);
            let s1 = Snap { a: bus_read(s.mem, hl), ..s_cycles(s, 4) };
            spec_set_reg16(s1, Reg16::Hl, w_add16(hl, 1))
        },
        Op::LdAHld => {
            let hl = spec_reg16(s, Reg16::Hl);
            let s1 = Snap { a: bus_read(s.mem, hl), ..s_cycles(s, 4) };
            spec_set_reg16(s1, Reg16::Hl, w_sub16(hl, 1))
        },
        Op::LdHliA => {
            let hl = spec_reg16(s, Reg16::Hl);
            let s1 = s_write(s, hl, s.a);
            spec_set_reg16(s1, Reg16::Hl, w_add16(hl, 1))
        },
        Op::LdHldA => {
            let hl = spec_reg16(s, Reg16::Hl);
            let s1 = s_write(s, hl, s.a);
            spec_set_reg16(s1, Reg16::Hl, w_sub16(hl, 1))
        },
        Op::LdAA16 => {
            let a16 = s_fetch16_v(s);
            let s1 = s_fetch16(s);
            Snap { a: bus_read(s1.mem, a16), ..s_cycles(s1, 4) }
        },
        Op::LdA16A => {
            let a16 = s_fetch16_v(s);
            let s1 = s_fetch16(s);
            s_write(s1, a16, s.a)
        },
        Op::LdhAD8 => {
            let n = s_fetch8_v(s);
            let s1 = s_fetch8(s);
            Snap { a: bus_read(s1.mem, ((0xFF00 + n) as u16)), ..s_cycles(s1, 4) }
        },
        Op::LdhD8A => {
            let n = s_fetch8_v(s);
            let s1 = s_fetch8(s);
            s_write(s1, ((0xFF00 + n) as u16), s.a)
        },
        Op::LdhAC => Snap { a: bus_read(s.mem, ((0xFF00 + s.c) as u16)), ..s_cycles(s, 4) },
        Op::LdhCA => s_write(s, ((0xFF00 + s.c) as u16), s.a),
        Op::LdRrD16(rp) => spec_set_reg16(s_fetch16(s), rp, s_fetch16_v(s)),
        Op::LdA16Sp => {
            let a16 = s_fetch16_v(s);
            let s1 = s_fetch16(s);
            let s2 = s_write(s1, a16, lo8(s.sp));
            s_write(s2, w_add16(a16, 1), hi8(s.sp))
        },
        Op::LdSpHl => Snap { sp: spec_reg16(s, Reg16::Hl), ..s },
        Op::LdHlSpD8 => {
            let d = s_fetch8_v(s);
            let s1 = s_fetch8(s);
            let res = sp_signed_add(s.sp, d);
            Snap {
                zf: false,
                nf: false,
                hf: s.sp % 16 + d % 16 > 15,
                cf: s.sp % 0x100 + d > 0xFF,
                ..spec_set_reg16(s1, Reg16::Hl, res)
            }
        },
        Op::Alu(aop, r) => spec_alu(s, aop, spec_reg8(s, r)),
        Op::AluHl(aop) => spec_alu(
            s_cycles(s, 4),
            aop,
            bus_read(s.mem, spec_reg16(s, Reg16::Hl)),
        ),
        Op::AluD8(aop) => spec_alu(s_fetch8(s), aop, s_fetch8_v(s)),
        Op::IncR(r) => {
            let v = spec_reg8(s, r);
            spec_inc8_flags(spec_set_reg8(s, r, w_inc8(v)), v)
        },
        Op::DecR(r) => {
            let v = spec_reg8(s, r);
            spec_dec8_flags(spec_set_reg8(s, r, w_dec8(v)), v)
        },
        Op::IncHlInd => {
            let addr = spec_reg16(s, Reg16::Hl);
            let v = bus_read(s.mem, addr);
            spec_inc8_flags(s_write(s_cycles(s, 4), addr, w_inc8(v)), v)
        },
        Op::DecHlInd => {
            let addr = spec_reg16(s, Reg16::Hl);
            let v = bus_read(s.mem, addr);
            spec_dec8_flags(s_write(s_cycles(s, 4), addr, w_dec8(v)), v)
        },
        Op::IncRr(rp) => spec_set_reg16(s, rp, w_add16(spec_reg16(s, rp), 1)),
        Op::DecRr(rp) => spec_set_reg16(s, rp, w_sub16(spec_reg16(s, rp), 1)),
        Op::AddHlRr(rp) => {
            let hl = spec_reg16(s, Reg16::Hl);
            let v = spec_reg16(s, rp);
            Snap {
                nf: false,
                hf: hl % 0x1000 + v % 0x1000 > 0xFFF,
                cf: hl + v > 0xFFFF,
                ..spec_set_reg16(s, Reg16::Hl, w_add16(hl, v))
            }
        },
        Op::AddSpD8 => {
            let d = s_fetch8_v(s);
            let s1 = s_fetch8(s);
            Snap {
                sp: sp_signed_add(s.sp, d),
                zf: false,
                nf: false,
                hf: s.sp % 16 + d % 16 > 15,
                cf: s.sp % 0x100 + d > 0xFF,
                ..s1
            }
        },
        Op::Daa => spec_daa(s),
        Op::Cpl => Snap { a: ((0xFF - s.a) as u8), nf: true, hf: true, ..s },
        Op::Scf => Snap { nf: false, hf: false, cf: true, ..s },
        Op::Ccf => Snap { nf: false, hf: false, cf: !s.cf, ..s },
        Op::Rlca => Snap {
            a: ((s.a % 128 * 2 + s.a / 128) as u8),
            zf: false,
            nf: false,
            hf: false,
            cf: s.a >= 128,
            ..s
        },
        Op::Rrca => Snap {
            a: ((s.a / 2 + s.a % 2 * 128) as u8),
            zf: false,
            nf: false,
            hf: false,
            cf: s.a % 2 == 1,
            ..s
        },
        Op::Rla => Snap {
            a: ((s.a % 128 * 2 + (if s.cf { 1int } else { 0 })) as u8),
            zf: false,
            nf: false,
            hf: false,
            cf: s.a >= 128,
            ..s
        },
        Op::Rra => Snap {
            a: ((s.a / 2 + (if s.cf { 128int } else { 0 })) as u8),
            zf: false,
            nf: false,
            hf: false,
            cf: s.a % 2 == 1,
            ..s
        },
        Op::Jp(c) => {
            let t = s_fetch16_v(s);
            let s1 = s_fetch16(s);
            if cond_holds(s1, c) {
                s_jump(s1, t)
            } else {
                s1
            }
        },
        Op::JpHl => s_jump(s, spec_reg16(s, Reg16::Hl)),
        Op::Jr(c) => {
            let d = s_fetch8_v(s);
            let s1 = s_fetch8(s);
            if cond_holds(s1, c) {
                s_jump(s1, jr_target(s1.pc, d))
            } else {
                s1
            }
        },
        Op::Call(c) => {
            let t = s_fetch16_v(s);
            let s1 = s_fetch16(s);
            if cond_holds(s1, c) {
                s_jump(s_push(s1, s1.pc), t)
            } else {
                s1
            }
        },
        Op::Ret(c) => {
            if cond_holds(s, c) {
                let t = s_pop_v(s);
                s_jump(s_pop(s), t)
            } else {
                s
            }
        },
        Op::Reti => {
            let t = s_pop_v(s);
            Snap { ime: true, ..s_jump(s_pop(s), t) }
        },
        Op::Rst(t) => s_jump(s_push(s, s.pc), t as u16),
        Op::Push(rp) => s_push(s, spec_reg16(s, rp)),
        Op::Pop(rp) => {
            let v = s_pop_v(s);
            spec_set_reg16(s_pop(s), rp, v)
        },
        Op::Di => Snap { ime: false, ..s },
        Op::Ei => Snap { ime: true, ..s },
        Op::CbR(cop, r) => {
            let v = spec_reg8(s, r);
            let nv = spec_cb_val(cop, v, s.cf);
            spec_cb_flags(spec_set_reg8(s, r, nv), cop, v, nv)
        },
        Op::CbHl(cop) => {
            let addr = spec_reg16(s, Reg16::Hl);
            let v = bus_read(s.mem, addr);
            let nv = spec_cb_val(cop, v, s.cf);
            let s1 = s_cycles(s, 4);
            match cop {
                CbOp::BitTest(_) => spec_cb_flags(s1, cop, v, nv),
                _ => spec_cb_flags(s_write(s1, addr, nv), cop, v, nv),
            }
        },
    }
}

/// Cycles the operation's handler charges, beyond the opcode fetch: the
/// taken cost when its condition holds in `s`, the cheaper cost otherwise.
pub open spec fn spec_exec_cycles(s: Snap, op: Op) -> u8 {
    if cond_holds(s, op_cond(op)) {
        op_body_cycles_taken(op)
    } else {
        op_body_cycles_not_taken(op)
    }
}

// ---------------------------------------------------------------------------
// The CPU itself.
// ---------------------------------------------------------------------------

/// The LR35902 core: owns the register file, the flags, the bus and the two
/// instruction tables (main and CB-prefixed), and drives
/// fetch-decode-execute.
pub struct CPU {
    pub a: u8,
    pub b: u8,
    pub c: u8,
    pub d: u8,
    pub e: u8,
    pub h: u8,
    pub l: u8,
    pub zf: bool,
    pub nf: bool,
    pub hf: bool,
    pub cf: bool,
    pub sp: u16,
    pub pc: u16,
    pub cycle_count: u64,
    pub bus: Bus,
    pub instruction_set: Vec<Option<InstructionImpl>>,
    pub cb_instruction_set: Vec<Option<InstructionImpl>>,
    pub curr_opcode: u8,
    pub curr_is_cb: bool,
    pub ime: bool,
    pub running: bool,
}

impl View for CPU {
    type V = Snap;

    open spec fn view(&self) -> Snap {
        Snap {
            a: self.a,
            b: self.b,
            c: self.c,
            d: self.d,
            e: self.e,
            h: self.h,
            l: self.l,
            zf: self.zf,
            nf: self.nf,
            hf: self.hf,
            cf: self.cf,
            sp: self.sp,
            pc: self.pc,
            ime: self.ime,
            running: self.running,
            cycle_count: self.cycle_count,
            curr_opcode: self.curr_opcode,
            curr_is_cb: self.curr_is_cb,
            mem: self.bus@,
        }
    }
}

/// The instruction tables are immutable after construction: no operation of
/// the core ever changes them.
pub open spec fn tables_unchanged(pre: &CPU, post: &CPU) -> bool {
    &&& post.instruction_set@ == pre.instruction_set@
    &&& post.cb_instruction_set@ == pre.cb_instruction_set@
}

impl CPU {
    /// Well-formedness: every address is backed and both tables have one
    /// slot per opcode byte value.
    pub open spec fn wf(&self) -> bool {
        &&& self.bus.wf()
        &&& self.instruction_set@.len() == 256
        &&& self.cb_instruction_set@.len() == 256
    }

    /// Advances the cycle counter, saturating at its maximum.
    fn charge(&mut self, n: u64)
        ensures
            tables_unchanged(old(self), final(self)),
            final(self)@ == (Snap { cycle_count: sat_add64(old(self)@.cycle_count, n), ..old(self)@ }),
    {
        if self.cycle_count <= u64::MAX - n {
            self.cycle_count = self.cycle_count + n;
        } else {
            self.cycle_count = u64::MAX;
        }
    }

    /// One data read: charges the flat 4-cycle access cost.
    pub fn read_byte(&mut self, address: u16) -> (r: u8)
        requires
            old(self).wf(),
        ensures
            final(self).wf(),
            tables_unchanged(old(self), final(self)),
            final(self)@ == s_cycles(old(self)@, 4),
            r == bus_read(old(self)@.mem, address),
    {
        self.charge(4);
        self.bus.read_byte(address)
    }

    /// One data write: charges the flat 4-cycle access cost and applies the
    /// bus write policy.
    pub fn write_byte(&mut self, address: u16, value: u8)
        requires
            old(self).wf(),
        ensures
            final(self).wf(),
            tables_unchanged(old(self), final(self)),
            final(self)@ == s_write(old(self)@, address, value),
    {
        self.charge(4);
        self.bus.write_byte(address, value);
    }

    /// Consumes one operand byte at `PC`; `PC` wraps at the top of the
    /// address space as the hardware's does.
    pub fn read_byte_at_pc(&mut self) -> (r: u8)
        requires
            old(self).wf(),
        ensures
            final(self).wf(),
            tables_unchanged(old(self), final(self)),
            final(self)@ == s_fetch8(old(self)@),
            r == s_fetch8_v(old(self)@),
    {
        let pc = self.pc;
        let result = self.read_byte(pc);
        self.pc = wrap_add16(pc, 1);
        result
    }

    /// A 16-bit little-endian read from `address`.
    pub fn read_word(&mut self, address: u16) -> (r: u16)
        requires
            old(self).wf(),
        ensures
            final(self).wf(),
            tables_unchanged(old(self), final(self)),
            final(self)@ == s_cycles(old(self)@, 8),
            r == read16(old(self)@.mem, address),
    {
        let low = self.read_byte(address);
        let high = self.read_byte(wrap_add16(address, 1));
        mk_word(high, low)
    }

    /// Consumes a 16-bit little-endian operand at `PC`.
    pub fn read_word_at_pc(&mut self) -> (r: u16)
        requires
            old(self).wf(),
        ensures
            final(self).wf(),
            tables_unchanged(old(self), final(self)),
            final(self)@ == s_fetch16(old(self)@),
            r == s_fetch16_v(old(self)@),
    {
        let low = self.read_byte_at_pc();
        let high = self.read_byte_at_pc();
        mk_word(high, low)
    }

    /// Redirects `PC` away from fall-through, charging the 4-cycle transfer
    /// cost.
    pub fn set_pc(&mut self, value: u16)
        ensures
            tables_unchanged(old(self), final(self)),
            final(self)@ == s_jump(old(self)@, value),
    {
        self.charge(4);
        self.pc = value;
    }

    /// Sets the interrupt-master-enable bit; no vectoring is modeled.
    pub fn set_ime(&mut self, value: bool)
        ensures
            tables_unchanged(old(self), final(self)),
            final(self)@ == (Snap { ime: value, ..old(self)@ }),
    {
        self.ime = value;
    }

    // -- register file ------------------------------------------------------

    pub fn get_reg8(&self, r: Reg8) -> (v: u8)
        ensures
            v == spec_reg8(self@, r),
    {
        match r {
            Reg8::A => self.a,
            Reg8::B => self.b,
            Reg8::C => self.c,
            Reg8::D => self.d,
            Reg8::E => self.e,
            Reg8::H => self.h,
            Reg8::L => self.l,
        }
    }

    pub fn set_reg8(&mut self, r: Reg8, v: u8)
        ensures
            tables_unchanged(old(self), final(self)),
            final(self)@ == spec_set_reg8(old(self)@, r, v),
    {
        match r {
            Reg8::A => self.a = v,
            Reg8::B => self.b = v,
            Reg8::C => self.c = v,
            Reg8::D => self.d = v,
            Reg8::E => self.e = v,
            Reg8::H => self.h = v,
            Reg8::L => self.l = v,
        }
    }

    pub fn get_reg16(&self, rp: Reg16) -> (w: u16)
        ensures
            w == spec_reg16(self@, rp),
    {
        match rp {
            Reg16::Af => self.get_af(),
            Reg16::Bc => self.get_bc(),
            Reg16::De => self.get_de(),
            Reg16::Hl => self.get_hl(),
            Reg16::Sp => self.get_sp(),
        }
    }

    pub fn set_reg16(&mut self, rp: Reg16, w: u16)
        ensures
            tables_unchanged(old(self), final(self)),
            final(self)@ == spec_set_reg16(old(self)@, rp, w),
    {
        match rp {
            Reg16::Af => self.set_af(w),
            Reg16::Bc => self.set_bc(w),
            Reg16::De => self.set_de(w),
            Reg16::Hl => self.set_hl(w),
            Reg16::Sp => self.set_sp(w),
        }
    }

    pub fn get_a(&self) -> (v: u8)
        ensures
            v == self@.a,
    {
        self.a
    }

    pub fn set_a(&mut self, value: u8)
        ensures
            tables_unchanged(old(self), final(self)),
            final(self)@ == (Snap { a: value, ..old(self)@ }),
    {
        self.a = value;
    }

    pub fn get_sp(&self) -> (v: u16)
        ensures
            v == self@.sp,
    {
        self.sp
    }

    pub fn set_sp(&mut self, value: u16)
        ensures
            tables_unchanged(old(self), final(self)),
            final(self)@ == (Snap { sp: value, ..old(self)@ }),
    {
        self.sp = value;
    }

    /// The flag register byte; its low nibble is zero by construction.
    pub fn get_f(&self) -> (v: u8)
        ensures
            v == flags_byte(self@.zf, self@.nf, self@.hf, self@.cf),
    {
        (if self.zf { 0x80u8 } else { 0 }) + (if self.nf { 0x40u8 } else { 0 }) + (if self.hf {
            0x20u8
        } else {
            0
        }) + (if self.cf { 0x10u8 } else { 0 })
    }

    /// Rebuilds the four flags from a byte; only bits 7..4 are meaningful,
    /// the low nibble is discarded.
    pub fn set_f(&mut self, v: u8)
        ensures
            tables_unchanged(old(self), final(self)),
            final(self)@ == (Snap {
                zf: flag_z_of(v),
                nf: flag_n_of(v),
                hf: flag_h_of(v),
                cf: flag_c_of(v),
                ..old(self)@
            }),
    {
        self.zf = v / 0x80 % 2 == 1;
        self.nf = v / 0x40 % 2 == 1;
        self.hf = v / 0x20 % 2 == 1;
        self.cf = v / 0x10 % 2 == 1;
    }

    pub fn get_af(&self) -> (w: u16)
        ensures
            w == spec_reg16(self@, Reg16::Af),
    {
        mk_word(self.a, self.get_f())
    }

    pub fn set_af(&mut self, value: u16)
        ensures
            tables_unchanged(old(self), final(self)),
            final(self)@ == spec_set_reg16(old(self)@, Reg16::Af, value),
    {
        self.a = word_hi(value);
        let f = word_lo(value);
        self.set_f(f);
    }

    pub fn get_bc(&self) -> (w: u16)
        ensures
            w == spec_reg16(self@, Reg16::Bc),
    {
        mk_word(self.b, self.c)
    }

    pub fn set_bc(&mut self, value: u16)
        ensures
            tables_unchanged(old(self), final(self)),
            final(self)@ == spec_set_reg16(old(self)@, Reg16::Bc, value),
    {
        self.b = word_hi(value);
        self.c = word_lo(value);
    }

    pub fn get_de(&self) -> (w: u16)
        ensures
            w == spec_reg16(self@, Reg16::De),
    {
        mk_word(self.d, self.e)
    }

    pub fn set_de(&mut self, value: u16)
        ensures
            tables_unchanged(old(self), final(self)),
            final(self)@ == spec_set_reg16(old(self)@, Reg16::De, value),
    {
        self.d = word_hi(value);
        self.e = word_lo(value);
    }

    pub fn get_hl(&self) -> (w: u16)
        ensures
            w == spec_reg16(self@, Reg16::Hl),
    {
        mk_word(self.h, self.l)
    }

    pub fn set_hl(&mut self, value: u16)
        ensures
            tables_unchanged(old(self), final(self)),
            final(self)@ == spec_set_reg16(old(self)@, Reg16::Hl, value),
    {
        self.h = word_hi(value);
        self.l = word_lo(value);
    }

    // -- flags --------------------------------------------------------------

    pub fn flag_z(&self) -> (v: bool)
        ensures
            v == self@.zf,
    {
        self.zf
    }

    pub fn flag_n(&self) -> (v: bool)
        ensures
            v == self@.nf,
    {
        self.nf
    }

    pub fn flag_h(&self) -> (v: bool)
        ensures
            v == self@.hf,
    {
        self.hf
    }

    pub fn flag_c(&self) -> (v: bool)
        ensures
            v == self@.cf,
    {
        self.cf
    }

    pub fn set_z_flag(&mut self, value: bool)
        ensures
            tables_unchanged(old(self), final(self)),
            final(self)@ == (Snap { zf: value, ..old(self)@ }),
    {
        self.zf = value;
    }

    pub fn set_n_flag(&mut self, value: bool)
        ensures
            tables_unchanged(old(self), final(self)),
            final(self)@ == (Snap { nf: value, ..old(self)@ }),
    {
        self.nf = value;
    }

    pub fn set_h_flag(&mut self, value: bool)
        ensures
            tables_unchanged(old(self), final(self)),
            final(self)@ == (Snap { hf: value, ..old(self)@ }),
    {
        self.hf = value;
    }

    pub fn set_c_flag(&mut self, value: bool)
        ensures
            tables_unchanged(old(self), final(self)),
            final(self)@ == (Snap { cf: value, ..old(self)@ }),
    {
        self.cf = value;
    }

    /// Evaluates a descriptor's condition against the current flags.
    pub fn check_condition(&self, c: Cond) -> (r: bool)
        ensures
            r == cond_holds(self@, c),
    {
        match c {
            Cond::Always => true,
            Cond::Z => self.zf,
            Cond::Nz => !self.zf,
            Cond::Cy => self.cf,
            Cond::Nc => !self.cf,
        }
    }
}

// ---------------------------------------------------------------------------
// Instruction handlers. Each one is proved to realize exactly the
// corresponding arm of `spec_exec_op`, from the state after the opcode
// fetch; conditional transfers also return the cycles they charged.
// ---------------------------------------------------------------------------

impl CPU {
    fn op_ld_rr(&mut self, d: Reg8, src: Reg8)
        requires
            old(self).wf(),
        ensures
            final(self).wf(),
            tables_unchanged(old(self), final(self)),
            final(self)@ == spec_exec_op(old(self)@, Op::LdRR(d, src)),
    {
        let v = self.get_reg8(src);
        self.set_reg8(d, v);
    }

    fn op_ld_r_d8(&mut self, r: Reg8)
        requires
            old(self).wf(),
        ensures
            final(self).wf(),
            tables_unchanged(old(self), final(self)),
            final(self)@ == spec_exec_op(old(self)@, Op::LdRD8(r)),
    {
        let v = self.read_byte_at_pc();
        self.set_reg8(r, v);
    }

    fn op_ld_r_hl(&mut self, r: Reg8)
        requires
            old(self).wf(),
        ensures
            final(self).wf(),
            tables_unchanged(old(self), final(self)),
            final(self)@ == spec_exec_op(old(self)@, Op::LdRHl(r)),
    {
        let addr = self.get_hl();
        let v = self.read_byte(addr);
        self.set_reg8(r, v);
    }

    fn op_ld_hl_r(&mut self, r: Reg8)
        requires
            old(self).wf(),
        ensures
            final(self).wf(),
            tables_unchanged(old(self), final(self)),
            final(self)@ == spec_exec_op(old(self)@, Op::LdHlR(r)),
    {
        let addr = self.get_hl();
        let v = self.get_reg8(r);
        self.write_byte(addr, v);
    }

    fn op_ld_hl_d8(&mut self)
        requires
            old(self).wf(),
        ensures
            final(self).wf(),
            tables_unchanged(old(self), final(self)),
            final(self)@ == spec_exec_op(old(self)@, Op::LdHlD8),
    {
        let v = self.read_byte_at_pc();
        let addr = self.get_hl();
        self.write_byte(addr, v);
    }

    fn op_ld_a_ind(&mut self, rp: Reg16)
        requires
            old(self).wf(),
        ensures
            final(self).wf(),
            tables_unchanged(old(self), final(self)),
            final(self)@ == spec_exec_op(old(self)@, Op::LdAInd(rp)),
    {
        let addr = self.get_reg16(rp);
        let v = self.read_byte(addr);
        self.set_a(v);
    }

    fn op_ld_ind_a(&mut self, rp: Reg16)
        requires
            old(self).wf(),
        ensures
            final(self).wf(),
            tables_unchanged(old(self), final(self)),
            final(self)@ == spec_exec_op(old(self)@, Op::LdIndA(rp)),
    {
        let addr = self.get_reg16(rp);
        let v = self.a;
        self.write_byte(addr, v);
    }

    fn op_ld_a_hli(&mut self)
        requires
            old(self).wf(),
        ensures
            final(self).wf(),
            tables_unchanged(old(self), final(self)),
            final(self)@ == spec_exec_op(old(self)@, Op::LdAHli),
    {
        let hl = self.get_hl();
        let v = self.read_byte(hl);
        self.set_a(v);
        self.set_hl(wrap_add16(hl, 1));
    }

    fn op_ld_a_hld(&mut self)
        requires
            old(self).wf(),
        ensures
            final(self).wf(),
            tables_unchanged(old(self), final(self)),
            final(self)@ == spec_exec_op(old(self)@, Op::LdAHld),
    {
        let hl = self.get_hl();
        let v = self.read_byte(hl);
        self.set_a(v);
        self.set_hl(wrap_sub16(hl, 1));
    }

    fn op_ld_hli_a(&mut self)
        requires
            old(self).wf(),
        ensures
            final(self).wf(),
            tables_unchanged(old(self), final(self)),
            final(self)@ == spec_exec_op(old(self)@, Op::LdHliA),
    {
        let hl = self.get_hl();
        let v = self.a;
        self.write_byte(hl, v);
        self.set_hl(wrap_add16(hl, 1));
    }

    fn op_ld_hld_a(&mut self)
        requires
            old(self).wf(),
        ensures
            final(self).wf(),
            tables_unchanged(old(self), final(self)),
            final(self)@ == spec_exec_op(old(self)@, Op::LdHldA),
    {
        let hl = self.get_hl();
        let v = self.a;
        self.write_byte(hl, v);
        self.set_hl(wrap_sub16(hl, 1));
    }

    fn op_ld_a_a16(&mut self)
        requires
            old(self).wf(),
        ensures
            final(self).wf(),
            tables_unchanged(old(self), final(self)),
            final(self)@ == spec_exec_op(old(self)@, Op::LdAA16),
    {
        let a16 = self.read_word_at_pc();
        let v = self.read_byte(a16);
        self.set_a(v);
    }

    fn op_ld_a16_a(&mut self)
        requires
            old(self).wf(),
        ensures
            final(self).wf(),
            tables_unchanged(old(self), final(self)),
            final(self)@ == spec_exec_op(old(self)@, Op::LdA16A),
    {
        let v = self.a;
        let a16 = self.read_word_at_pc();
        self.write_byte(a16, v);
    }

    fn op_ldh_a_d8(&mut self)
        requires
            old(self).wf(),
        ensures
            final(self).wf(),
            tables_unchanged(old(self), final(self)),
            final(self)@ == spec_exec_op(old(self)@, Op::LdhAD8),
    {
        let n = self.read_byte_at_pc();
        let v = self.read_byte(0xFF00 + n as u16);
        self.set_a(v);
    }

    fn op_ldh_d8_a(&mut self)
        requires
            old(self).wf(),
        ensures
            final(self).wf(),
            tables_unchanged(old(self), final(self)),
            final(self)@ == spec_exec_op(old(self)@, Op::LdhD8A),
    {
        let v = self.a;
        let n = self.read_byte_at_pc();
        self.write_byte(0xFF00 + n as u16, v);
    }

    fn op_ldh_a_c(&mut self)
        requires
            old(self).wf(),
        ensures
            final(self).wf(),
            tables_unchanged(old(self), final(self)),
            final(self)@ == spec_exec_op(old(self)@, Op::LdhAC),
    {
        let c = self.c;
        let v = self.read_byte(0xFF00 + c as u16);
        self.set_a(v);
    }

    fn op_ldh_c_a(&mut self)
        requires
            old(self).wf(),
        ensures
            final(self).wf(),
            tables_unchanged(old(self), final(self)),
            final(self)@ == spec_exec_op(old(self)@, Op::LdhCA),
    {
        let c = self.c;
        let v = self.a;
        self.write_byte(0xFF00 + c as u16, v);
    }

    fn op_ld_rr_d16(&mut self, rp: Reg16)
        requires
            old(self).wf(),
        ensures
            final(self).wf(),
            tables_unchanged(old(self), final(self)),
            final(self)@ == spec_exec_op(old(self)@, Op::LdRrD16(rp)),
    {
        let v = self.read_word_at_pc();
        self.set_reg16(rp, v);
    }

    fn op_ld_a16_sp(&mut self)
        requires
            old(self).wf(),
        ensures
            final(self).wf(),
            tables_unchanged(old(self), final(self)),
            final(self)@ == spec_exec_op(old(self)@, Op::LdA16Sp),
    {
        let sp = self.sp;
        let a16 = self.read_word_at_pc();
        self.write_byte(a16, word_lo(sp));
        self.write_byte(wrap_add16(a16, 1), word_hi(sp));
    }

    fn op_ld_sp_hl(&mut self)
        requires
            old(self).wf(),
        ensures
            final(self).wf(),
            tables_unchanged(old(self), final(self)),
            final(self)@ == spec_exec_op(old(self)@, Op::LdSpHl),
    {
        let v = self.get_hl();
        self.sp = v;
    }

    fn op_ld_hl_sp_d8(&mut self)
        requires
            old(self).wf(),
        ensures
            final(self).wf(),
            tables_unchanged(old(self), final(self)),
            final(self)@ == spec_exec_op(old(self)@, Op::LdHlSpD8),
    {
        let sp = self.sp;
        let d = self.read_byte_at_pc();
        let res = signed_offset16(sp, d);
        self.set_hl(res);
        self.zf = false;
        self.nf = false;
        self.hf = sp % 16 + (d % 16) as u16 > 15;
        self.cf = sp % 0x100 + d as u16 > 0xFF;
    }

    fn op_add_sp_d8(&mut self)
        requires
            old(self).wf(),
        ensures
            final(self).wf(),
            tables_unchanged(old(self), final(self)),
            final(self)@ == spec_exec_op(old(self)@, Op::AddSpD8),
    {
        let sp = self.sp;
        let d = self.read_byte_at_pc();
        self.sp = signed_offset16(sp, d);
        self.zf = false;
        self.nf = false;
        self.hf = sp % 16 + (d % 16) as u16 > 15;
        self.cf = sp % 0x100 + d as u16 > 0xFF;
    }

    /// The shared ALU core: applies one operation against operand value `v`.
    #[verifier::rlimit(60)]
    fn alu_apply(&mut self, aop: AluOp, v: u8)
        ensures
            tables_unchanged(old(self), final(self)),
            final(self)@ == spec_alu(old(self)@, aop, v),
    {
        match aop {
            AluOp::Add => {
                let sum = self.a as u16 + v as u16;
                let res = (sum % 0x100) as u8;
                let hf = self.a % 16 + v % 16 > 15;
                self.a = res;
                self.zf = res == 0;
                self.nf = false;
                self.hf = hf;
                self.cf = sum > 0xFF;
            },
            AluOp::Adc => {
                let cin: u16 = if self.cf { 1 } else { 0 };
                let sum = self.a as u16 + v as u16 + cin;
                let res = (sum % 0x100) as u8;
                let hf = (self.a % 16) as u16 + (v % 16) as u16 + cin > 15;
                self.a = res;
                self.zf = res == 0;
                self.nf = false;
                self.hf = hf;
                self.cf = sum > 0xFF;
            },
            AluOp::Sub => {
                let res = ((self.a as u16 + 0x100 - v as u16) % 0x100) as u8;
                let hf = v % 16 > self.a % 16;
                let cf = v > self.a;
                self.a = res;
                self.zf = res == 0;
                self.nf = true;
                self.hf = hf;
                self.cf = cf;
            },
            AluOp::Sbc => {
                let cin: u16 = if self.cf { 1 } else { 0 };
                let res = ((self.a as u16 + 0x200 - v as u16 - cin) % 0x100) as u8;
                let hf = (v % 16) as u16 + cin > (self.a % 16) as u16;
                let cf = v as u16 + cin > self.a as u16;
                self.a = res;
                self.zf = res == 0;
                self.nf = true;
                self.hf = hf;
                self.cf = cf;
            },
            AluOp::And => {
                let res = self.a & v;
                self.a = res;
                self.zf = res == 0;
                self.nf = false;
                self.hf = true;
                self.cf = false;
            },
            AluOp::Xor => {
                let res = self.a ^ v;
                self.a = res;
                self.zf = res == 0;
                self.nf = false;
                self.hf = false;
                self.cf = false;
            },
            AluOp::Or => {
                let res = self.a | v;
                self.a = res;
                self.zf = res == 0;
                self.nf = false;
                self.hf = false;
                self.cf = false;
            },
            AluOp::Cp => {
                let res = ((self.a as u16 + 0x100 - v as u16) % 0x100) as u8;
                let hf = v % 16 > self.a % 16;
                let cf = v > self.a;
                self.zf = res == 0;
                self.nf = true;
                self.hf = hf;
                self.cf = cf;
            },
        }
    }

    fn op_alu_r(&mut self, aop: AluOp, r: Reg8)
        requires
            old(self).wf(),
        ensures
            final(self).wf(),
            tables_unchanged(old(self), final(self)),
            final(self)@ == spec_exec_op(old(self)@, Op::Alu(aop, r)),
    {
        let v = self.get_reg8(r);
        self.alu_apply(aop, v);
    }

    fn op_alu_hl(&mut self, aop: AluOp)
        requires
            old(self).wf(),
        ensures
            final(self).wf(),
            tables_unchanged(old(self), final(self)),
            final(self)@ == spec_exec_op(old(self)@, Op::AluHl(aop)),
    {
        let addr = self.get_hl();
        let v = self.read_byte(addr);
        self.alu_apply(aop, v);
    }

    fn op_alu_d8(&mut self, aop: AluOp)
        requires
            old(self).wf(),
        ensures
            final(self).wf(),
            tables_unchanged(old(self), final(self)),
            final(self)@ == spec_exec_op(old(self)@, Op::AluD8(aop)),
    {
        let v = self.read_byte_at_pc();
        self.alu_apply(aop, v);
    }

    fn op_inc_r(&mut self, r: Reg8)
        requires
            old(self).wf(),
        ensures
            final(self).wf(),
            tables_unchanged(old(self), final(self)),
            final(self)@ == spec_exec_op(old(self)@, Op::IncR(r)),
    {
        let v = self.get_reg8(r);
        let res = wrap_inc8(v);
        self.set_reg8(r, res);
        self.zf = res == 0;
        self.nf = false;
        self.hf = v % 16 == 15;
    }

    fn op_dec_r(&mut self, r: Reg8)
        requires
            old(self).wf(),
        ensures
            final(self).wf(),
            tables_unchanged(old(self), final(self)),
            final(self)@ == spec_exec_op(old(self)@, Op::DecR(r)),
    {
        let v = self.get_reg8(r);
        let res = wrap_dec8(v);
        self.set_reg8(r, res);
        self.zf = res == 0;
        self.nf = true;
        self.hf = v % 16 == 0;
    }

    fn op_inc_hl_ind(&mut self)
        requires
            old(self).wf(),
        ensures
            final(self).wf(),
            tables_unchanged(old(self), final(self)),
            final(self)@ == spec_exec_op(old(self)@, Op::IncHlInd),
    {
        let addr = self.get_hl();
        let v = self.read_byte(addr);
        let res = wrap_inc8(v);
        self.write_byte(addr, res);
        self.zf = res == 0;
        self.nf = false;
        self.hf = v % 16 == 15;
    }

    fn op_dec_hl_ind(&mut self)
        requires
            old(self).wf(),
        ensures
            final(self).wf(),
            tables_unchanged(old(self), final(self)),
            final(self)@ == spec_exec_op(old(self)@, Op::DecHlInd),
    {
        let addr = self.get_hl();
        let v = self.read_byte(addr);
        let res = wrap_dec8(v);
        self.write_byte(addr, res);
        self.zf = res == 0;
        self.nf = true;
        self.hf = v % 16 == 0;
    }

    fn op_inc_rr(&mut self, rp: Reg16)
        requires
            old(self).wf(),
        ensures
            final(self).wf(),
            tables_unchanged(old(self), final(self)),
            final(self)@ == spec_exec_op(old(self)@, Op::IncRr(rp)),
    {
        let v = self.get_reg16(rp);
        self.set_reg16(rp, wrap_add16(v, 1));
    }

    fn op_dec_rr(&mut self, rp: Reg16)
        requires
            old(self).wf(),
        ensures
            final(self).wf(),
            tables_unchanged(old(self), final(self)),
            final(self)@ == spec_exec_op(old(self)@, Op::DecRr(rp)),
    {
        let v = self.get_reg16(rp);
        self.set_reg16(rp, wrap_sub16(v, 1));
    }

    fn op_add_hl_rr(&mut self, rp: Reg16)
        requires
            old(self).wf(),
        ensures
            final(self).wf(),
            tables_unchanged(old(self), final(self)),
            final(self)@ == spec_exec_op(old(self)@, Op::AddHlRr(rp)),
    {
        let hl = self.get_hl();
        let v = self.get_reg16(rp);
        let res = wrap_add16(hl, v);
        let hf = hl % 0x1000 + v % 0x1000 > 0xFFF;
        let cf = hl as u32 + v as u32 > 0xFFFF;
        self.set_hl(res);
        self.nf = false;
        self.hf = hf;
        self.cf = cf;
    }

    fn op_daa(&mut self)
        ensures
            tables_unchanged(old(self), final(self)),
            final(self)@ == spec_exec_op(old(self)@, Op::Daa),
    {
        if !self.nf {
            let mut adjust: u8 = 0;
            let mut cout = self.cf;
            if self.hf || self.a % 16 > 9 {
                adjust = 6;
            }
            if self.cf || self.a > 0x99 {
                adjust = adjust + 0x60;
                cout = true;
            }
            let res = ((self.a as u16 + adjust as u16) % 0x100) as u8;
            self.a = res;
            self.zf = res == 0;
            self.hf = false;
            self.cf = cout;
        } else {
            let adjust: u8 = (if self.hf { 6u8 } else { 0 }) + (if self.cf { 0x60u8 } else { 0 });
            let res = ((self.a as u16 + 0x100 - adjust as u16) % 0x100) as u8;
            self.a = res;
            self.zf = res == 0;
            self.hf = false;
        }
    }

    fn op_rotate_a(&mut self, through_carry: bool, left: bool)
        ensures
            tables_unchanged(old(self), final(self)),
            final(self)@ == spec_exec_op(
                old(self)@,
                if through_carry {
                    if left {
                        Op::Rla
                    } else {
                        Op::Rra
                    }
                } else {
                    if left {
                        Op::Rlca
                    } else {
                        Op::Rrca
                    }
                },
            ),
    {
        let a = self.a;
        if left {
            let bit_in: u8 = if through_carry {
                if self.cf {
                    1
                } else {
                    0
                }
            } else {
                a / 128
            };
            self.a = a % 128 * 2 + bit_in;
            self.cf = a >= 128;
        } else {
            let bit_in: u8 = if through_carry {
                if self.cf {
                    128
                } else {
                    0
                }
            } else {
                a % 2 * 128
            };
            self.a = a / 2 + bit_in;
            self.cf = a % 2 == 1;
        }
        self.zf = false;
        self.nf = false;
        self.hf = false;
    }

    /// Writes a 16-bit value onto the stack: high byte at `SP-1`, low byte
    /// at `SP-2`, then lowers `SP` by two.
    fn push_word(&mut self, w: u16)
        requires
            old(self).wf(),
        ensures
            final(self).wf(),
            tables_unchanged(old(self), final(self)),
            final(self)@ == s_push(old(self)@, w),
    {
        let sp = self.sp;
        self.write_byte(wrap_sub16(sp, 1), word_hi(w));
        self.write_byte(wrap_sub16(sp, 2), word_lo(w));
        self.sp = wrap_sub16(sp, 2);
    }

    /// Reads a 16-bit little-endian value off the stack and raises `SP` by
    /// two.
    fn pop_word(&mut self) -> (r: u16)
        requires
            old(self).wf(),
        ensures
            final(self).wf(),
            tables_unchanged(old(self), final(self)),
            final(self)@ == s_pop(old(self)@),
            r == s_pop_v(old(self)@),
    {
        let sp = self.sp;
        let v = self.read_word(sp);
        self.sp = wrap_add16(sp, 2);
        v
    }

    fn op_jp(&mut self, c: Cond) -> (cycles: u8)
        requires
            old(self).wf(),
        ensures
            final(self).wf(),
            tables_unchanged(old(self), final(self)),
            final(self)@ == spec_exec_op(old(self)@, Op::Jp(c)),
            cycles == spec_exec_cycles(old(self)@, Op::Jp(c)),
    {
        let t = self.read_word_at_pc();
        if self.check_condition(c) {
            self.set_pc(t);
            12
        } else {
            8
        }
    }

    fn op_jp_hl(&mut self)
        requires
            old(self).wf(),
        ensures
            final(self).wf(),
            tables_unchanged(old(self), final(self)),
            final(self)@ == spec_exec_op(old(self)@, Op::JpHl),
    {
        let t = self.get_hl();
        self.set_pc(t);
    }

    fn op_jr(&mut self, c: Cond) -> (cycles: u8)
        requires
            old(self).wf(),
        ensures
            final(self).wf(),
            tables_unchanged(old(self), final(self)),
            final(self)@ == spec_exec_op(old(self)@, Op::Jr(c)),
            cycles == spec_exec_cycles(old(self)@, Op::Jr(c)),
    {
        let d = self.read_byte_at_pc();
        if self.check_condition(c) {
            let pc = self.pc;
            let t = signed_offset16(pc, d);
            self.set_pc(t);
            8
        } else {
            4
        }
    }

    fn op_call(&mut self, c: Cond) -> (cycles: u8)
        requires
            old(self).wf(),
        ensures
            final(self).wf(),
            tables_unchanged(old(self), final(self)),
            final(self)@ == spec_exec_op(old(self)@, Op::Call(c)),
            cycles == spec_exec_cycles(old(self)@, Op::Call(c)),
    {
        let t = self.read_word_at_pc();
        if self.check_condition(c) {
            let pc = self.pc;
            self.push_word(pc);
            self.set_pc(t);
            20
        } else {
            8
        }
    }

    fn op_ret(&mut self, c: Cond) -> (cycles: u8)
        requires
            old(self).wf(),
        ensures
            final(self).wf(),
            tables_unchanged(old(self), final(self)),
            final(self)@ == spec_exec_op(old(self)@, Op::Ret(c)),
            cycles == spec_exec_cycles(old(self)@, Op::Ret(c)),
    {
        if self.check_condition(c) {
            let t = self.pop_word();
            self.set_pc(t);
            12
        } else {
            0
        }
    }

    fn op_reti(&mut self)
        requires
            old(self).wf(),
        ensures
            final(self).wf(),
            tables_unchanged(old(self), final(self)),
            final(self)@ == spec_exec_op(old(self)@, Op::Reti),
    {
        let t = self.pop_word();
        self.set_pc(t);
        self.ime = true;
    }

    fn op_rst(&mut self, t: u8)
        requires
            old(self).wf(),
        ensures
            final(self).wf(),
            tables_unchanged(old(self), final(self)),
            final(self)@ == spec_exec_op(old(self)@, Op::Rst(t)),
    {
        let pc = self.pc;
        self.push_word(pc);
        self.set_pc(t as u16);
    }

    fn op_push(&mut self, rp: Reg16)
        requires
            old(self).wf(),
        ensures
            final(self).wf(),
            tables_unchanged(old(self), final(self)),
            final(self)@ == spec_exec_op(old(self)@, Op::Push(rp)),
    {
        let v = self.get_reg16(rp);
        self.push_word(v);
    }

    fn op_pop(&mut self, rp: Reg16)
        requires
            old(self).wf(),
        ensures
            final(self).wf(),
            tables_unchanged(old(self), final(self)),
            final(self)@ == spec_exec_op(old(self)@, Op::Pop(rp)),
    {
        let v = self.pop_word();
        self.set_reg16(rp, v);
    }

    /// Applies a CB operation's flag outcome, given the operand's old and
    /// new values.
    fn cb_apply_flags(&mut self, cop: CbOp, v: u8, nv: u8)
        ensures
            tables_unchanged(old(self), final(self)),
            final(self)@ == spec_cb_flags(old(self)@, cop, v, nv),
    {
        match cop {
            CbOp::BitTest(b) => {
                let mask = bit_mask(b);
                self.zf = v & mask == 0;
                self.nf = false;
                self.hf = true;
            },
            CbOp::ResBit(_) => (),
            CbOp::SetBit(_) => (),
            CbOp::Swap => {
                self.zf = nv == 0;
                self.nf = false;
                self.hf = false;
                self.cf = false;
            },
            _ => {
                let carry = match cop {
                    CbOp::Rlc | CbOp::Rl | CbOp::Sla => v >= 128,
                    _ => v % 2 == 1,
                };
                self.zf = nv == 0;
                self.nf = false;
                self.hf = false;
                self.cf = carry;
            },
        }
    }

    fn op_cb_r(&mut self, cop: CbOp, r: Reg8)
        requires
            old(self).wf(),
        ensures
            final(self).wf(),
            tables_unchanged(old(self), final(self)),
            final(self)@ == spec_exec_op(old(self)@, Op::CbR(cop, r)),
    {
        let v = self.get_reg8(r);
        let cf = self.cf;
        let nv = cb_value(cop, v, cf);
        self.set_reg8(r, nv);
        self.cb_apply_flags(cop, v, nv);
    }

    fn op_cb_hl(&mut self, cop: CbOp)
        requires
            old(self).wf(),
        ensures
            final(self).wf(),
            tables_unchanged(old(self), final(self)),
            final(self)@ == spec_exec_op(old(self)@, Op::CbHl(cop)),
    {
        let addr = self.get_hl();
        let v = self.read_byte(addr);
        let cf = self.cf;
        let nv = cb_value(cop, v, cf);
        match cop {
            CbOp::BitTest(_) => (),
            _ => self.write_byte(addr, nv),
        }
        self.cb_apply_flags(cop, v, nv);
    }
}

// ---------------------------------------------------------------------------
// Fetch, decode, execute.
// ---------------------------------------------------------------------------

/// The state after one fetch phase: the opcode byte is consumed and
/// recorded; a `0xCB` prefix consumes and records the second byte instead.
pub open spec fn spec_fetch(s: Snap) -> Snap {
    let b0 = bus_read(s.mem, s.pc);
    let s1 = Snap { pc: w_add16(s.pc, 1), cycle_count: sat_add64(s.cycle_count, 4), ..s };
    if b0 == 0xCB {
        Snap {
            pc: w_add16(s1.pc, 1),
            cycle_count: sat_add64(s1.cycle_count, 4),
            curr_opcode: bus_read(s1.mem, s1.pc),
            curr_is_cb: true,
            ..s1
        }
    } else {
        Snap { curr_opcode: b0, curr_is_cb: false, ..s1 }
    }
}

/// The address the current opcode was fetched from: `PC` minus the opcode
/// byte(s) already consumed.
pub open spec fn err_pc(s: Snap) -> u16 {
    w_sub16(s.pc, if s.curr_is_cb { 2 } else { 1 })
}

/// The decode-and-execute phase, from the state right after a fetch: a
/// missing table entry is the fatal unknown-opcode condition, an illegal or
/// deliberately open entry its own fatal condition — each halts the run and
/// reports the opcode and its fetch address, leaving all other state as the
/// fetch left it. Otherwise the operation's effect applies and its charged
/// cycles (beyond the fetch) are reported.
pub open spec fn spec_execute(
    s: Snap,
    tab: Seq<Option<InstructionImpl>>,
    cb: Seq<Option<InstructionImpl>>,
) -> (Snap, Result<u8, CpuError>) {
    let table = if s.curr_is_cb {
        cb
    } else {
        tab
    };
    match table[s.curr_opcode as int] {
        Option::None => (
            Snap { running: false, ..s },
            Result::Err(CpuError::UnknownOpcode { opcode: s.curr_opcode, pc: err_pc(s) }),
        ),
        Option::Some(e) => {
            if e.op is IllegalOp {
                (
                    Snap { running: false, ..s },
                    Result::Err(CpuError::IllegalOpcode { opcode: s.curr_opcode, pc: err_pc(s) }),
                )
            } else if e.op is Unimplemented {
                (
                    Snap { running: false, ..s },
                    Result::Err(
                        CpuError::UnimplementedOperandCombination {
                            opcode: s.curr_opcode,
                            pc: err_pc(s),
                        },
                    ),
                )
            } else {
                (spec_exec_op(s, e.op), Result::Ok(spec_exec_cycles(s, e.op)))
            }
        },
    }
}

/// One full instruction step: fetch, then decode and execute; on success
/// the reported cycles include the opcode fetch (8 for a CB prefix pair, 4
/// otherwise).
pub open spec fn spec_step(
    s: Snap,
    tab: Seq<Option<InstructionImpl>>,
    cb: Seq<Option<InstructionImpl>>,
) -> (Snap, Result<u8, CpuError>) {
    let s1 = spec_fetch(s);
    let r = spec_execute(s1, tab, cb);
    match r.1 {
        Result::Ok(k) => (
            r.0,
            Result::Ok(((k + (if s1.curr_is_cb { 8int } else { 4int })) as u8)),
        ),
        Result::Err(e) => (r.0, Result::Err(e)),
    }
}

/// Data movement, interrupt-enable toggles and the stop/halt group.
pub open spec fn is_transfer_op(op: Op) -> bool {
    match op {
        Op::Nop => true,
        Op::CbPrefix => true,
        Op::Halt => true,
        Op::Stop => true,
        Op::Di => true,
        Op::Ei => true,
        Op::LdRR(_, _) => true,
        Op::LdRD8(_) => true,
        Op::LdRHl(_) => true,
        Op::LdHlR(_) => true,
        Op::LdHlD8 => true,
        Op::LdAInd(_) => true,
        Op::LdIndA(_) => true,
        Op::LdAHli => true,
        Op::LdAHld => true,
        Op::LdHliA => true,
        Op::LdHldA => true,
        Op::LdAA16 => true,
        Op::LdA16A => true,
        Op::LdhAD8 => true,
        Op::LdhD8A => true,
        Op::LdhAC => true,
        Op::LdhCA => true,
        Op::LdRrD16(_) => true,
        Op::LdA16Sp => true,
        Op::LdSpHl => true,
        Op::LdHlSpD8 => true,
        _ => false,
    }
}

/// The arithmetic-logic group: accumulator ALU, increments, 16-bit adds, decimal adjust, flag toggles and accumulator rotates.
pub open spec fn is_arith_op(op: Op) -> bool {
    match op {
        Op::Alu(_, _) => true,
        Op::AluHl(_) => true,
        Op::AluD8(_) => true,
        Op::IncR(_) => true,
        Op::DecR(_) => true,
        Op::IncHlInd => true,
        Op::DecHlInd => true,
        Op::IncRr(_) => true,
        Op::DecRr(_) => true,
        Op::AddHlRr(_) => true,
        Op::AddSpD8 => true,
        Op::Daa => true,
        Op::Cpl => true,
        Op::Scf => true,
        Op::Ccf => true,
        Op::Rlca => true,
        Op::Rrca => true,
        Op::Rla => true,
        Op::Rra => true,
        _ => false,
    }
}

/// Control transfer, stack and CB-prefixed operations.
pub open spec fn is_control_op(op: Op) -> bool {
    match op {
        Op::Jp(_) => true,
        Op::JpHl => true,
        Op::Jr(_) => true,
        Op::Call(_) => true,
        Op::Ret(_) => true,
        Op::Reti => true,
        Op::Rst(_) => true,
        Op::Push(_) => true,
        Op::Pop(_) => true,
        Op::CbR(_, _) => true,
        Op::CbHl(_) => true,
        _ => false,
    }
}

/// Plain moves, immediate loads and mode toggles.
pub open spec fn is_transfer_direct_op(op: Op) -> bool {
    match op {
        Op::Nop => true,
        Op::CbPrefix => true,
        Op::Halt => true,
        Op::Stop => true,
        Op::Di => true,
        Op::Ei => true,
        Op::LdRR(_, _) => true,
        Op::LdRD8(_) => true,
        Op::LdRHl(_) => true,
        Op::LdHlR(_) => true,
        Op::LdHlD8 => true,
        Op::LdAInd(_) => true,
        Op::LdIndA(_) => true,
        _ => false,
    }
}

/// Memory-addressed and 16-bit loads.
pub open spec fn is_transfer_mem_op(op: Op) -> bool {
    match op {
        Op::LdAHli => true,
        Op::LdAHld => true,
        Op::LdHliA => true,
        Op::LdHldA => true,
        Op::LdAA16 => true,
        Op::LdA16A => true,
        Op::LdhAD8 => true,
        Op::LdhD8A => true,
        Op::LdhAC => true,
        Op::LdhCA => true,
        Op::LdRrD16(_) => true,
        Op::LdA16Sp => true,
        Op::LdSpHl => true,
        Op::LdHlSpD8 => true,
        _ => false,
    }
}

/// Accumulator ALU and increment/decrement operations.
pub open spec fn is_alu_op(op: Op) -> bool {
    match op {
        Op::Alu(_, _) => true,
        Op::AluHl(_) => true,
        Op::AluD8(_) => true,
        Op::IncR(_) => true,
        Op::DecR(_) => true,
        Op::IncHlInd => true,
        Op::DecHlInd => true,
        Op::IncRr(_) => true,
        Op::DecRr(_) => true,
        _ => false,
    }
}

/// 16-bit adds, decimal adjust, flag toggles and accumulator rotates.
pub open spec fn is_arith_misc_op(op: Op) -> bool {
    match op {
        Op::AddHlRr(_) => true,
        Op::AddSpD8 => true,
        Op::Daa => true,
        Op::Cpl => true,
        Op::Scf => true,
        Op::Ccf => true,
        Op::Rlca => true,
        Op::Rrca => true,
        Op::Rla => true,
        Op::Rra => true,
        _ => false,
    }
}

/// The meaning of a bounded run: repeated single steps, stopping when the
/// running flag clears (halt or fatal decode error, which is reported) or
/// the step budget is spent.
pub open spec fn spec_run(
    s: Snap,
    tab: Seq<Option<InstructionImpl>>,
    cb: Seq<Option<InstructionImpl>>,
    max_steps: u64,
) -> (Snap, Option<CpuError>)
    decreases max_steps,
{
    if !s.running || max_steps == 0 {
        (s, Option::None)
    } else {
        let stepped = spec_step(s, tab, cb);
        match stepped.1 {
            Result::Ok(_) => spec_run(stepped.0, tab, cb, ((max_steps - 1) as u64)),
            Result::Err(e) => (stepped.0, Option::Some(e)),
        }
    }
}

/// The power-on state: `PC = 0x0100`, `SP = 0xFFFE`, registers and flags
/// clear, interrupts enabled, the first opcode pre-read for diagnostics.
pub open spec fn spec_power_on(mem: Seq<u8>) -> Snap {
    Snap {
        a: 0,
        b: 0,
        c: 0,
        d: 0,
        e: 0,
        h: 0,
        l: 0,
        zf: false,
        nf: false,
        hf: false,
        cf: false,
        sp: 0xFFFE,
        pc: 0x100,
        ime: true,
        running: true,
        cycle_count: 0,
        curr_opcode: if bus_read(mem, 0x100) == 0xCB {
            bus_read(mem, 0x101)
        } else {
            bus_read(mem, 0x100)
        },
        curr_is_cb: bus_read(mem, 0x100) == 0xCB,
        mem,
    }
}

impl CPU {
    /// Builds a core around a cartridge image with caller-supplied tables,
    /// in the power-on state.
    pub fn with_tables(
        rom: Rom,
        instruction_set: Vec<Option<InstructionImpl>>,
        cb_instruction_set: Vec<Option<InstructionImpl>>,
    ) -> (r: CPU)
        requires
            instruction_set@.len() == 256,
            cb_instruction_set@.len() == 256,
        ensures
            r.wf(),
            r.instruction_set@ == instruction_set@,
            r.cb_instruction_set@ == cb_instruction_set@,
            r@ == spec_power_on(spec_initial_mem(rom@)),
    {
        let bus = Bus::new(rom);
        let b0 = bus.read_byte(0x100);
        let curr_is_cb = b0 == 0xCB;
        let curr_opcode = if curr_is_cb {
            bus.read_byte(0x101)
        } else {
            b0
        };
        CPU {
            a: 0,
            b: 0,
            c: 0,
            d: 0,
            e: 0,
            h: 0,
            l: 0,
            zf: false,
            nf: false,
            hf: false,
            cf: false,
            sp: 0xFFFE,
            pc: 0x100,
            cycle_count: 0,
            bus,
            instruction_set,
            cb_instruction_set,
            curr_opcode,
            curr_is_cb,
            ime: true,
            running: true,
        }
    }

    /// Builds a core around a cartridge image for the given CPU model; only
    /// the `LR35902` is known, any other identifier is a fatal
    /// configuration error the caller must rule out.
    pub fn new(rom: Rom, cpu_type: String) -> (r: CPU)
        requires
            cpu_type@ == "LR35902"@,
        ensures
            r.wf(),
            is_lr35902_main_table(r.instruction_set@),
            is_lr35902_cb_table(r.cb_instruction_set@),
            r@ == spec_power_on(spec_initial_mem(rom@)),
    {
        let tables = crate::instruction_factory::load_instructions(cpu_type);
        CPU::with_tables(rom, tables.0, tables.1)
    }

    /// The fetch phase: consumes the opcode byte at `PC` (two bytes for a
    /// `0xCB` prefix, whose second byte selects the CB table) and records
    /// what was fetched.
    pub fn fetch(&mut self)
        requires
            old(self).wf(),
        ensures
            final(self).wf(),
            tables_unchanged(old(self), final(self)),
            final(self)@ == spec_fetch(old(self)@),
    {
        let b0 = self.read_byte_at_pc();
        if b0 == 0xCB {
            let b1 = self.read_byte_at_pc();
            self.curr_opcode = b1;
            self.curr_is_cb = true;
        } else {
            self.curr_opcode = b0;
            self.curr_is_cb = false;
        }
    }

    /// The decode-and-execute phase: resolves the fetched opcode against
    /// the appropriate table and applies the operation's effect, or halts
    /// the run with the fatal decode error.
    pub fn execute(&mut self) -> (r: Result<u8, CpuError>)
        requires
            old(self).wf(),
        ensures
            final(self).wf(),
            tables_unchanged(old(self), final(self)),
            ({
                let (s2, res) = spec_execute(
                    old(self)@,
                    old(self).instruction_set@,
                    old(self).cb_instruction_set@,
                );
                final(self)@ == s2 && r == res
            }),
            r matches Result::Ok(k) ==> k <= 20,
    {
        let entry_opt = if self.curr_is_cb {
            self.cb_instruction_set[self.curr_opcode as usize]
        } else {
            self.instruction_set[self.curr_opcode as usize]
        };
        let opcode = self.curr_opcode;
        let pc_fetch = wrap_sub16(self.pc, if self.curr_is_cb { 2 } else { 1 });
        match entry_opt {
            Option::None => {
                self.running = false;
                Result::Err(CpuError::UnknownOpcode { opcode, pc: pc_fetch })
            },
            Option::Some(entry) => match entry.op {
                Op::IllegalOp => {
                    self.running = false;
                    Result::Err(CpuError::IllegalOpcode { opcode, pc: pc_fetch })
                },
                Op::Unimplemented => {
                    self.running = false;
                    Result::Err(CpuError::UnimplementedOperandCombination { opcode, pc: pc_fetch })
                },
                other => Result::Ok(self.dispatch(other)),
            },
        }
    }

    /// Applies one implemented operation's effect and returns the cycles
    /// its handler charged.
    fn dispatch(&mut self, op: Op) -> (r: u8)
        requires
            old(self).wf(),
            !(op is IllegalOp),
            !(op is Unimplemented),
        ensures
            final(self).wf(),
            tables_unchanged(old(self), final(self)),
            final(self)@ == spec_exec_op(old(self)@, op),
            r == spec_exec_cycles(old(self)@, op),
            r <= 20,
    {
        match op {
            Op::Nop | Op::CbPrefix | Op::Halt | Op::Stop | Op::Di | Op::Ei | Op::LdRR(_, _) | Op::LdRD8(_) | Op::LdRHl(_) | Op::LdHlR(_) | Op::LdHlD8 | Op::LdAInd(_) | Op::LdIndA(_) | Op::LdAHli | Op::LdAHld | Op::LdHliA | Op::LdHldA | Op::LdAA16 | Op::LdA16A | Op::LdhAD8 | Op::LdhD8A | Op::LdhAC | Op::LdhCA | Op::LdRrD16(_) | Op::LdA16Sp | Op::LdSpHl | Op::LdHlSpD8 => self.dispatch_transfer(op),
            Op::Alu(_, _) | Op::AluHl(_) | Op::AluD8(_) | Op::IncR(_) | Op::DecR(_) | Op::IncHlInd | Op::DecHlInd | Op::IncRr(_) | Op::DecRr(_) | Op::AddHlRr(_) | Op::AddSpD8 | Op::Daa | Op::Cpl | Op::Scf | Op::Ccf | Op::Rlca | Op::Rrca | Op::Rla | Op::Rra => self.dispatch_arith(op),
            _ => self.dispatch_control(op),
        }
    }

    /// Routes a data-movement operation to its sub-group.
    fn dispatch_transfer(&mut self, op: Op) -> (r: u8)
        requires
            old(self).wf(),
            is_transfer_op(op),
        ensures
            final(self).wf(),
            tables_unchanged(old(self), final(self)),
            final(self)@ == spec_exec_op(old(self)@, op),
            r == spec_exec_cycles(old(self)@, op),
            r <= 20,
    {
        match op {
            Op::Nop | Op::CbPrefix | Op::Halt | Op::Stop | Op::Di | Op::Ei | Op::LdRR(_, _) | Op::LdRD8(_) | Op::LdRHl(_) | Op::LdHlR(_) | Op::LdHlD8 | Op::LdAInd(_) | Op::LdIndA(_) => self.dispatch_transfer_direct(op),
            _ => self.dispatch_transfer_mem(op),
        }
    }

    /// Dispatch for plain moves, immediate loads and mode toggles.
    #[verifier::rlimit(100)]
    #[verifier::spinoff_prover]
    fn dispatch_transfer_direct(&mut self, op: Op) -> (r: u8)
        requires
            old(self).wf(),
            is_transfer_direct_op(op),
        ensures
            final(self).wf(),
            tables_unchanged(old(self), final(self)),
            final(self)@ == spec_exec_op(old(self)@, op),
            r == spec_exec_cycles(old(self)@, op),
            r <= 20,
    {
        match op {
                Op::Nop => 0,
                Op::CbPrefix => 0,
                Op::Halt => {
                    self.running = false;
                    0
                },
                Op::Stop => {
                    let _skipped = self.read_byte_at_pc();
                    self.running = false;
                    4
                },
                Op::LdRR(d, src) => {
                    self.op_ld_rr(d, src);
                    0
                },
                Op::LdRD8(reg) => {
                    self.op_ld_r_d8(reg);
                    4
                },
                Op::LdRHl(reg) => {
                    self.op_ld_r_hl(reg);
                    4
                },
                Op::LdHlR(reg) => {
                    self.op_ld_hl_r(reg);
                    4
                },
                Op::LdHlD8 => {
                    self.op_ld_hl_d8();
                    8
                },
                Op::LdAInd(rp) => {
                    self.op_ld_a_ind(rp);
                    4
                },
                Op::LdIndA(rp) => {
                    self.op_ld_ind_a(rp);
                    4
                },
                Op::Di => {
                    self.set_ime(false);
                    0
                },
                Op::Ei => {
                    self.set_ime(true);
                    0
                },
                _ => 0,
        }
    }

    /// Dispatch for the memory-addressed and 16-bit loads.
    #[verifier::rlimit(100)]
    #[verifier::spinoff_prover]
    fn dispatch_transfer_mem(&mut self, op: Op) -> (r: u8)
        requires
            old(self).wf(),
            is_transfer_mem_op(op),
        ensures
            final(self).wf(),
            tables_unchanged(old(self), final(self)),
            final(self)@ == spec_exec_op(old(self)@, op),
            r == spec_exec_cycles(old(self)@, op),
            r <= 20,
    {
        match op {
                Op::LdAHli => {
                    self.op_ld_a_hli();
                    4
                },
                Op::LdAHld => {
                    self.op_ld_a_hld();
                    4
                },
                Op::LdHliA => {
                    self.op_ld_hli_a();
                    4
                },
                Op::LdHldA => {
                    self.op_ld_hld_a();
                    4
                },
                Op::LdAA16 => {
                    self.op_ld_a_a16();
                    12
                },
                Op::LdA16A => {
                    self.op_ld_a16_a();
                    12
                },
                Op::LdhAD8 => {
                    self.op_ldh_a_d8();
                    8
                },
                Op::LdhD8A => {
                    self.op_ldh_d8_a();
                    8
                },
                Op::LdhAC => {
                    self.op_ldh_a_c();
                    4
                },
                Op::LdhCA => {
                    self.op_ldh_c_a();
                    4
                },
                Op::LdRrD16(rp) => {
                    self.op_ld_rr_d16(rp);
                    8
                },
                Op::LdA16Sp => {
                    self.op_ld_a16_sp();
                    16
                },
                Op::LdSpHl => {
                    self.op_ld_sp_hl();
                    0
                },
                Op::LdHlSpD8 => {
                    self.op_ld_hl_sp_d8();
                    4
                },
                _ => 0,
        }
    }

    /// Routes an arithmetic-logic operation to its sub-group.
    fn dispatch_arith(&mut self, op: Op) -> (r: u8)
        requires
            old(self).wf(),
            is_arith_op(op),
        ensures
            final(self).wf(),
            tables_unchanged(old(self), final(self)),
            final(self)@ == spec_exec_op(old(self)@, op),
            r == spec_exec_cycles(old(self)@, op),
            r <= 20,
    {
        match op {
            Op::Alu(_, _) | Op::AluHl(_) | Op::AluD8(_) | Op::IncR(_) | Op::DecR(_) | Op::IncHlInd | Op::DecHlInd | Op::IncRr(_) | Op::DecRr(_) => self.dispatch_alu(op),
            _ => self.dispatch_arith_misc(op),
        }
    }

    /// Dispatch for the accumulator ALU and increment/decrement family.
    #[verifier::rlimit(100)]
    #[verifier::spinoff_prover]
    fn dispatch_alu(&mut self, op: Op) -> (r: u8)
        requires
            old(self).wf(),
            is_alu_op(op),
        ensures
            final(self).wf(),
            tables_unchanged(old(self), final(self)),
            final(self)@ == spec_exec_op(old(self)@, op),
            r == spec_exec_cycles(old(self)@, op),
            r <= 20,
    {
        match op {
                Op::Alu(aop, reg) => {
                    self.op_alu_r(aop, reg);
                    0
                },
                Op::AluHl(aop) => {
                    self.op_alu_hl(aop);
                    4
                },
                Op::AluD8(aop) => {
                    self.op_alu_d8(aop);
                    4
                },
                Op::IncR(reg) => {
                    self.op_inc_r(reg);
                    0
                },
                Op::DecR(reg) => {
                    self.op_dec_r(reg);
                    0
                },
                Op::IncHlInd => {
                    self.op_inc_hl_ind();
                    8
                },
                Op::DecHlInd => {
                    self.op_dec_hl_ind();
                    8
                },
                Op::IncRr(rp) => {
                    self.op_inc_rr(rp);
                    0
                },
                Op::DecRr(rp) => {
                    self.op_dec_rr(rp);
                    0
                },
                _ => 0,
        }
    }

    /// Dispatch for 16-bit adds, decimal adjust, flag toggles and rotates.
    #[verifier::rlimit(100)]
    #[verifier::spinoff_prover]
    fn dispatch_arith_misc(&mut self, op: Op) -> (r: u8)
        requires
            old(self).wf(),
            is_arith_misc_op(op),
        ensures
            final(self).wf(),
            tables_unchanged(old(self), final(self)),
            final(self)@ == spec_exec_op(old(self)@, op),
            r == spec_exec_cycles(old(self)@, op),
            r <= 20,
    {
        match op {
                Op::AddHlRr(rp) => {
                    self.op_add_hl_rr(rp);
                    0
                },
                Op::AddSpD8 => {
                    self.op_add_sp_d8();
                    4
                },
                Op::Daa => {
                    self.op_daa();
                    0
                },
                Op::Cpl => {
                    self.a = 0xFF - self.a;
                    self.nf = true;
                    self.hf = true;
                    0
                },
                Op::Scf => {
                    self.nf = false;
                    self.hf = false;
                    self.cf = true;
                    0
                },
                Op::Ccf => {
                    self.nf = false;
                    self.hf = false;
                    self.cf = !self.cf;
                    0
                },
                Op::Rlca => {
                    self.op_rotate_a(false, true);
                    0
                },
                Op::Rrca => {
                    self.op_rotate_a(false, false);
                    0
                },
                Op::Rla => {
                    self.op_rotate_a(true, true);
                    0
                },
                Op::Rra => {
                    self.op_rotate_a(true, false);
                    0
                },
                _ => 0,
        }
    }

    /// Dispatch for the control-transfer, stack and CB group.
    #[verifier::rlimit(100)]
    #[verifier::spinoff_prover]
    fn dispatch_control(&mut self, op: Op) -> (r: u8)
        requires
            old(self).wf(),
            is_control_op(op),
        ensures
            final(self).wf(),
            tables_unchanged(old(self), final(self)),
            final(self)@ == spec_exec_op(old(self)@, op),
            r == spec_exec_cycles(old(self)@, op),
            r <= 20,
    {
        match op {
                Op::Jp(c) => self.op_jp(c),
                Op::JpHl => {
                    self.op_jp_hl();
                    4
                },
                Op::Jr(c) => self.op_jr(c),
                Op::Call(c) => self.op_call(c),
                Op::Ret(c) => self.op_ret(c),
                Op::Reti => {
                    self.op_reti();
                    12
                },
                Op::Rst(t) => {
                    self.op_rst(t);
                    12
                },
                Op::Push(rp) => {
                    self.op_push(rp);
                    8
                },
                Op::Pop(rp) => {
                    self.op_pop(rp);
                    8
                },
                Op::CbR(cop, reg) => {
                    self.op_cb_r(cop, reg);
                    0
                },
                Op::CbHl(cop) => {
                    self.op_cb_hl(cop);
                    if matches!(cop, CbOp::BitTest(_)) {
                        4
                    } else {
                        8
                    }
                },
                _ => 0,
        }
    }

    /// One full instruction step: fetch, decode, execute. Returns the
    /// cycles the instruction charged, or the fatal decode error, which
    /// also clears the running flag.
    pub fn step(&mut self) -> (r: Result<u8, CpuError>)
        requires
            old(self).wf(),
        ensures
            final(self).wf(),
            tables_unchanged(old(self), final(self)),
            ({
                let (s2, res) = spec_step(
                    old(self)@,
                    old(self).instruction_set@,
                    old(self).cb_instruction_set@,
                );
                final(self)@ == s2 && r == res
            }),
    {
        self.fetch();
        let is_cb = self.curr_is_cb;
        let body = self.execute();
        match body {
            Result::Ok(k) => Result::Ok(k + (if is_cb { 8 } else { 4 })),
            Result::Err(e) => Result::Err(e),
        }
    }

    /// Runs up to `max_steps` instruction steps, a thin wrapper over
    /// repeated `step` calls: it stops early when an instruction clears the
    /// running flag (halt), or when a fatal decode error ends the run, in
    /// which case that error is returned.
    pub fn run(&mut self, max_steps: u64) -> (r: Option<CpuError>)
        requires
            old(self).wf(),
        ensures
            final(self).wf(),
            tables_unchanged(old(self), final(self)),
            ({
                let (s2, res) = spec_run(
                    old(self)@,
                    old(self).instruction_set@,
                    old(self).cb_instruction_set@,
                    max_steps,
                );
                final(self)@ == s2 && r == res
            }),
            r is Some ==> !final(self)@.running,
    {
        let mut steps_left: u64 = max_steps;
        while self.running && steps_left > 0
            invariant
                self.wf(),
                tables_unchanged(old(self), self),
                steps_left <= max_steps,
                spec_run(
                    old(self)@,
                    old(self).instruction_set@,
                    old(self).cb_instruction_set@,
                    max_steps,
                ) == spec_run(
                    self@,
                    old(self).instruction_set@,
                    old(self).cb_instruction_set@,
                    steps_left,
                ),
            decreases steps_left,
        {
            let res = self.step();
            match res {
                Result::Err(e) => {
                    return Option::Some(e);
                },
                Result::Ok(_) => (),
            }
            steps_left = steps_left - 1;
        }
        Option::None
    }
}

// ---------------------------------------------------------------------------
// Executable machine arithmetic, each mirroring its specification exactly.
// ---------------------------------------------------------------------------

/// The two's-complement displacement add shared by relative jumps and the
/// `SP`-relative loads.
pub fn signed_offset16(base: u16, d: u8) -> (r: u16)
    ensures
        r == jr_target(base, d),
{
    if d < 0x80 {
        wrap_add16(base, d as u16)
    } else {
        wrap_add16(base, 0xFF00 + d as u16)
    }
}

pub fn bit_mask(b: u8) -> (r: u8)
    ensures
        r == pow2(b),
{
    if b == 0 {
        1
    } else if b == 1 {
        2
    } else if b == 2 {
        4
    } else if b == 3 {
        8
    } else if b == 4 {
        16
    } else if b == 5 {
        32
    } else if b == 6 {
        64
    } else {
        128
    }
}

/// The result value of a CB operation against old value `v` with incoming
/// carry `cf`.
pub fn cb_value(cop: CbOp, v: u8, cf: bool) -> (r: u8)
    ensures
        r == spec_cb_val(cop, v, cf),
{
    match cop {
        CbOp::Rlc => v % 128 * 2 + v / 128,
        CbOp::Rrc => v / 2 + v % 2 * 128,
        CbOp::Rl => v % 128 * 2 + (if cf { 1 } else { 0 }),
        CbOp::Rr => v / 2 + (if cf { 128 } else { 0 }),
        CbOp::Sla => v % 128 * 2,
        CbOp::Sra => v / 2 + v / 128 * 128,
        CbOp::Swap => v % 16 * 16 + v / 16,
        CbOp::Srl => v / 2,
        CbOp::BitTest(_) => v,
        CbOp::ResBit(b) => v & !bit_mask(b),
        CbOp::SetBit(b) => v | bit_mask(b),
    }
}

pub fn wrap_add16(a: u16, k: u16) -> (r: u16)
    ensures
        r == w_add16(a, k),
{
    (((a as u32 + k as u32) % 0x10000) as u16)
}

pub fn wrap_sub16(a: u16, k: u16) -> (r: u16)
    ensures
        r == w_sub16(a, k),
{
    (((a as u32 + 0x10000 - k as u32) % 0x10000) as u16)
}

pub fn wrap_inc8(v: u8) -> (r: u8)
    ensures
        r == w_inc8(v),
{
    (((v as u16 + 1) % 0x100) as u8)
}

pub fn wrap_dec8(v: u8) -> (r: u8)
    ensures
        r == w_dec8(v),
{
    (((v as u16 + 0xFF) % 0x100) as u8)
}

pub fn mk_word(hi: u8, lo: u8) -> (r: u16)
    ensures
        r == mk16(hi, lo),
{
    (hi as u16) * 0x100 + (lo as u16)
}

pub fn word_lo(w: u16) -> (r: u8)
    ensures
        r == lo8(w),
{
    ((w % 0x100) as u8)
}

pub fn word_hi(w: u16) -> (r: u8)
    ensures
        r == hi8(w),
{
    ((w / 0x100) as u8)
}

// ---------------------------------------------------------------------------
// Laws of the engine.
// ---------------------------------------------------------------------------

/// `NOP` leaves every register, every flag and `SP` (and memory) unchanged,
/// advances `PC` by exactly one, and charges exactly 4 cycles — in every
/// state whose next opcode byte is `0x00`.
pub proof fn lemma_nop_step(
    s: Snap,
    tab: Seq<Option<InstructionImpl>>,
    cb: Seq<Option<InstructionImpl>>,
)
    requires
        is_lr35902_main_table(tab),
        bus_read(s.mem, s.pc) == 0x00,
    ensures
        spec_step(s, tab, cb) == ((
            Snap {
                pc: w_add16(s.pc, 1),
                cycle_count: sat_add64(s.cycle_count, 4),
                curr_opcode: 0x00,
                curr_is_cb: false,
                ..s
            },
            Result::<u8, CpuError>::Ok(4),
        )),
{
    assert(main_entry_ok(tab, 0));
}

/// `JR NZ,r8` consumes its displacement byte whether or not the branch is
/// taken: with the Zero flag clear, `PC` moves to the displaced target
/// (relative to the address after the operand) and 12 cycles are charged;
/// with the Zero flag set, `PC` falls through to that same address and 8
/// cycles are charged. Flags, registers, `SP` and memory are untouched
/// either way.
pub proof fn lemma_jr_nz_step(
    s: Snap,
    tab: Seq<Option<InstructionImpl>>,
    cb: Seq<Option<InstructionImpl>>,
)
    requires
        is_lr35902_main_table(tab),
        bus_read(s.mem, s.pc) == 0x20,
    ensures
        ({
            let d = bus_read(s.mem, w_add16(s.pc, 1));
            let fall_through = w_add16(s.pc, 2);
            let target = if !s.zf {
                jr_target(fall_through, d)
            } else {
                fall_through
            };
            let cost: u64 = if !s.zf {
                12
            } else {
                8
            };
            spec_step(s, tab, cb) == ((
                Snap {
                    pc: target,
                    cycle_count: sat_add64(s.cycle_count, cost),
                    curr_opcode: 0x20,
                    curr_is_cb: false,
                    ..s
                },
                Result::<u8, CpuError>::Ok(cost as u8),
            ))
        }),
{
    assert(main_entry_ok(tab, 0x20));
    assert(w_add16(w_add16(s.pc, 1), 1) == w_add16(s.pc, 2));
}

/// `LD BC,d16` loads its two operand bytes little-endian (`C` first byte,
/// `B` second, so `BC` is the encoded word), advances `PC` by three in all,
/// leaves every flag, every other register, `SP` and memory unchanged, and
/// charges exactly 12 cycles. The cycle bound keeps the saturating counter
/// in its exact range.
pub proof fn lemma_ld_bc_d16_step(
    s: Snap,
    tab: Seq<Option<InstructionImpl>>,
    cb: Seq<Option<InstructionImpl>>,
)
    requires
        is_lr35902_main_table(tab),
        bus_read(s.mem, s.pc) == 0x01,
        s.cycle_count <= u64::MAX - 12,
    ensures
        spec_step(s, tab, cb) == ((
            Snap {
                b: bus_read(s.mem, w_add16(s.pc, 2)),
                c: bus_read(s.mem, w_add16(s.pc, 1)),
                pc: w_add16(s.pc, 3),
                cycle_count: ((s.cycle_count + 12) as u64),
                curr_opcode: 0x01,
                curr_is_cb: false,
                ..s
            },
            Result::<u8, CpuError>::Ok(12),
        )),
{
    assert(main_entry_ok(tab, 1));
    let lo = bus_read(s.mem, w_add16(s.pc, 1));
    let hi = bus_read(s.mem, w_add16(s.pc, 2));
    assert(w_add16(w_add16(s.pc, 1), 1) == w_add16(s.pc, 2));
    assert(w_add16(w_add16(s.pc, 1), 2) == w_add16(s.pc, 3));
    assert(hi8(mk16(hi, lo)) == hi);
    assert(lo8(mk16(hi, lo)) == lo);
}

/// `JP a16` redirects `PC` to its little-endian operand word in every
/// state, whatever the flags hold; flags, registers, `SP` and memory are
/// unchanged and exactly 16 cycles are charged. The cycle bound keeps the
/// saturating counter in its exact range.
pub proof fn lemma_jp_a16_step(
    s: Snap,
    tab: Seq<Option<InstructionImpl>>,
    cb: Seq<Option<InstructionImpl>>,
)
    requires
        is_lr35902_main_table(tab),
        bus_read(s.mem, s.pc) == 0xC3,
        s.cycle_count <= u64::MAX - 16,
    ensures
        spec_step(s, tab, cb) == ((
            Snap {
                pc: mk16(bus_read(s.mem, w_add16(s.pc, 2)), bus_read(s.mem, w_add16(s.pc, 1))),
                cycle_count: ((s.cycle_count + 16) as u64),
                curr_opcode: 0xC3,
                curr_is_cb: false,
                ..s
            },
            Result::<u8, CpuError>::Ok(16),
        )),
{
    assert(main_entry_ok(tab, 0xC3));
    assert(w_add16(w_add16(s.pc, 1), 1) == w_add16(s.pc, 2));
}

/// No operation can leave the flag register's low nibble non-zero: the
/// packed flag byte always has its four low bits clear.
pub proof fn lemma_flag_byte_low_nibble_zero(z: bool, n: bool, h: bool, c: bool)
    ensures
        flags_byte(z, n, h, c) % 16 == 0,
{
}

/// Rebuilding the four flags from their packed byte gives the byte back:
/// the low nibble is zero by construction.
pub proof fn lemma_flags_byte_roundtrip(z: bool, n: bool, h: bool, c: bool)
    ensures
        flag_z_of(flags_byte(z, n, h, c)) == z,
        flag_n_of(flags_byte(z, n, h, c)) == n,
        flag_h_of(flags_byte(z, n, h, c)) == h,
        flag_c_of(flags_byte(z, n, h, c)) == c,
{
}

/// Pushing any 16-bit register pair and popping it back leaves the pair
/// bit-identical and returns `SP` to its pre-push value, whenever the two
/// stack bytes land in writable memory. (`AF` included: the flag byte's low
/// nibble is zero by construction, so the pop's masking changes nothing.)
#[verifier::rlimit(100)]
#[verifier::spinoff_prover]
pub proof fn lemma_push_pop_roundtrip(s: Snap, rp: Reg16)
    requires
        s.mem.len() == 0x10000,
        w_sub16(s.sp, 1) >= 0x8000,
        w_sub16(s.sp, 2) >= 0x8000,
    ensures
        ({
            let pushed = spec_exec_op(s, Op::Push(rp));
            let popped = spec_exec_op(pushed, Op::Pop(rp));
            &&& spec_reg16(popped, rp) == spec_reg16(s, rp)
            &&& popped.sp == s.sp
        }),
{
    let w = spec_reg16(s, rp);
    let pushed = spec_exec_op(s, Op::Push(rp));
    assert(w_sub16(s.sp, 1) != w_sub16(s.sp, 2));
    assert(pushed.mem[w_sub16(s.sp, 1) as int] == hi8(w));
    assert(pushed.mem[w_sub16(s.sp, 2) as int] == lo8(w));
    assert(s_pop_v(pushed) == mk16(hi8(w), lo8(w)));
    assert(mk16(hi8(w), lo8(w)) == w);
    if rp is Af {
        let f = flags_byte(s.zf, s.nf, s.hf, s.cf);
        assert(lo8(w) == f);
        assert(hi8(w) == s.a);
        lemma_flags_byte_roundtrip(s.zf, s.nf, s.hf, s.cf);
    }
}

} // verus!
