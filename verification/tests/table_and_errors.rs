//! The instruction tables and the fatal decode conditions: completeness of
//! the main table, the illegal-opcode set, descriptor metadata, and the
//! three distinguishable error outcomes.

use lr35902::cpu::{CpuError, CPU};
use lr35902::instruction_factory::load_instructions;
use lr35902::instruction_impl::{InstructionImpl, Op};
use lr35902::instructions_loader::{Cond, FlagEffect, Instruction};
use lr35902::lr35902_instructions_impl::{cb_entry, load_lr35902_instructions, main_entry};
use lr35902::rom::Rom;

const ILLEGAL: [u8; 11] = [
    0xD3, 0xDB, 0xDD, 0xE3, 0xE4, 0xEB, 0xEC, 0xED, 0xF4, 0xFC, 0xFD,
];

fn boot(code: &[u8]) -> CPU {
    let mut raw = vec![0u8; 0x8000];
    for (i, b) in code.iter().enumerate() {
        raw[0x100 + i] = *b;
    }
    CPU::new(Rom::new(raw), "LR35902".to_string())
}

fn empty_table() -> Vec<Option<InstructionImpl>> {
    let mut t: Vec<Option<InstructionImpl>> = Vec::new();
    for _ in 0..256 {
        t.push(None);
    }
    t
}

#[test]
fn every_main_opcode_has_an_entry_and_none_is_left_open() {
    let (main_table, cb_table) = load_lr35902_instructions();
    assert_eq!(main_table.len(), 256);
    assert_eq!(cb_table.len(), 256);
    for i in 0..256usize {
        let e = main_table[i].as_ref().expect("main entry missing");
        assert_eq!(e.instruction.opcode as usize, i);
        assert!(!matches!(e.op, Op::Unimplemented));
        let illegal = ILLEGAL.contains(&(i as u8));
        assert_eq!(matches!(e.op, Op::IllegalOp), illegal, "opcode {i:#04X}");
        let c = cb_table[i].as_ref().expect("cb entry missing");
        assert_eq!(c.instruction.opcode as usize, i);
        assert!(!matches!(c.op, Op::IllegalOp | Op::Unimplemented));
    }
}

#[test]
fn descriptor_metadata_of_known_opcodes() {
    let (main_table, _) = load_lr35902_instructions();
    let nop = main_table[0x00].as_ref().unwrap();
    assert_eq!(nop.instruction.mnemonic, "NOP");
    assert_eq!(nop.instruction.length, 1);
    assert_eq!(nop.instruction.cycles, 4);

    let ld_bc = main_table[0x01].as_ref().unwrap();
    assert_eq!(ld_bc.instruction.mnemonic, "LD BC,d16");
    assert_eq!(ld_bc.instruction.length, 3);
    assert_eq!(ld_bc.instruction.cycles, 12);

    let jr_nz = main_table[0x20].as_ref().unwrap();
    assert_eq!(jr_nz.instruction.mnemonic, "JR NZ,r8");
    assert_eq!(jr_nz.instruction.length, 2);
    assert_eq!(jr_nz.instruction.cycles, 12);
    assert_eq!(jr_nz.instruction.cycles_not_taken, 8);
    assert_eq!(jr_nz.instruction.condition, Cond::Nz);

    let inc_b = main_table[0x04].as_ref().unwrap();
    assert_eq!(inc_b.instruction.z, FlagEffect::FromResult);
    assert_eq!(inc_b.instruction.n, FlagEffect::AlwaysReset);
    assert_eq!(inc_b.instruction.h, FlagEffect::FromResult);
    assert_eq!(inc_b.instruction.c, FlagEffect::Unaffected);

    let call = main_table[0xCD].as_ref().unwrap();
    assert_eq!(call.instruction.mnemonic, "CALL a16");
    assert_eq!(call.instruction.cycles, 24);

    let ld_b_c = main_table[0x41].as_ref().unwrap();
    assert_eq!(ld_b_c.instruction.mnemonic, "LD B,C");
    assert!(matches!(
        ld_b_c.op,
        Op::LdRR(
            lr35902::instructions_loader::Reg8::B,
            lr35902::instructions_loader::Reg8::C
        )
    ));
}

#[test]
fn cb_descriptor_metadata() {
    let (_, cb_table) = load_lr35902_instructions();
    let swap_a = cb_table[0x37].as_ref().unwrap();
    assert_eq!(swap_a.instruction.mnemonic, "SWAP A");
    assert_eq!(swap_a.instruction.length, 2);
    assert_eq!(swap_a.instruction.cycles, 8);
    let bit0_hl = cb_table[0x46].as_ref().unwrap();
    assert_eq!(bit0_hl.instruction.mnemonic, "BIT 0,(HL)");
    assert_eq!(bit0_hl.instruction.cycles, 12);
    let res0_hl = cb_table[0x86].as_ref().unwrap();
    assert_eq!(res0_hl.instruction.mnemonic, "RES 0,(HL)");
    assert_eq!(res0_hl.instruction.cycles, 16);
}

#[test]
fn factory_builds_the_same_tables() {
    let (main_table, cb_table) = load_instructions("LR35902".to_string());
    assert_eq!(main_table.len(), 256);
    assert_eq!(cb_table.len(), 256);
    assert!(main_table[0xC3].as_ref().unwrap().instruction.mnemonic == "JP a16");
    let (m2, c2) = lr35902::instruction_impl::load_instructions();
    assert_eq!(m2.len(), 256);
    assert_eq!(c2.len(), 256);
}

#[test]
fn illegal_opcode_halts_with_its_address() {
    let mut cpu = boot(&[0x00, 0xDB]);
    cpu.step().unwrap();
    let r = cpu.step();
    assert_eq!(r, Err(CpuError::IllegalOpcode { opcode: 0xDB, pc: 0x101 }));
    assert!(!cpu.running);
}

#[test]
fn unknown_opcode_on_an_incomplete_table_reports_fetch_address() {
    let mut raw = vec![0u8; 0x8000];
    raw[0x100] = 0xFC;
    let mut main_table = empty_table();
    main_table[0x00] = Some(main_entry(0x00));
    let mut cpu = CPU::with_tables(Rom::new(raw), main_table, empty_table());
    let r = cpu.run(10);
    assert_eq!(r, Some(CpuError::UnknownOpcode { opcode: 0xFC, pc: 0x100 }));
    assert!(!cpu.running);
    assert_eq!(cpu.pc, 0x101, "only the fetch's own PC advance happened");
    assert_eq!(cpu.sp, 0xFFFE);
    assert_eq!(
        (cpu.a, cpu.b, cpu.c, cpu.d, cpu.e, cpu.h, cpu.l),
        (0, 0, 0, 0, 0, 0, 0)
    );
}

#[test]
fn unknown_cb_opcode_on_an_empty_cb_table() {
    let mut raw = vec![0u8; 0x8000];
    raw[0x100] = 0xCB;
    raw[0x101] = 0x41;
    let mut main_table = empty_table();
    for i in 0..256usize {
        main_table[i] = Some(main_entry(i as u8));
    }
    let mut cpu = CPU::with_tables(Rom::new(raw), main_table, empty_table());
    let r = cpu.step();
    assert_eq!(r, Err(CpuError::UnknownOpcode { opcode: 0x41, pc: 0x100 }));
    assert!(!cpu.running);
}

#[test]
fn a_deliberately_open_entry_is_its_own_error() {
    let mut raw = vec![0u8; 0x8000];
    raw[0x100] = 0x00;
    let mut main_table = empty_table();
    let descriptor = Instruction::new(
        0x00,
        "NOP",
        1,
        4,
        4,
        Cond::Always,
        FlagEffect::Unaffected,
        FlagEffect::Unaffected,
        FlagEffect::Unaffected,
        FlagEffect::Unaffected,
    );
    main_table[0x00] = Some(InstructionImpl::new(descriptor, Op::Unimplemented));
    let mut cpu = CPU::with_tables(Rom::new(raw), main_table, empty_table());
    let r = cpu.step();
    assert_eq!(
        r,
        Err(CpuError::UnimplementedOperandCombination { opcode: 0x00, pc: 0x100 })
    );
    assert!(!cpu.running);
}

#[test]
fn cb_prefixed_execution_uses_the_cb_table() {
    let mut raw = vec![0u8; 0x8000];
    raw[0x100] = 0xCB;
    raw[0x101] = 0x37;
    let mut main_table = empty_table();
    let mut cb_table = empty_table();
    for i in 0..256usize {
        main_table[i] = Some(main_entry(i as u8));
        cb_table[i] = Some(cb_entry(i as u8));
    }
    let mut cpu = CPU::with_tables(Rom::new(raw), main_table, cb_table);
    cpu.a = 0xA5;
    let r = cpu.step();
    assert_eq!(r, Ok(8));
    assert_eq!(cpu.a, 0x5A);
}
