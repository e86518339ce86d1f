//! Flag semantics of the arithmetic, logic, rotate and CB-prefixed
//! families, each against a hand-computed expected outcome.

use lr35902::cpu::CPU;
use lr35902::rom::Rom;

fn boot(code: &[u8]) -> CPU {
    let mut raw = vec![0u8; 0x8000];
    for (i, b) in code.iter().enumerate() {
        raw[0x100 + i] = *b;
    }
    CPU::new(Rom::new(raw), "LR35902".to_string())
}

#[test]
fn add_a_b_with_full_and_half_carry() {
    let mut cpu = boot(&[0x80]);
    cpu.a = 0x3A;
    cpu.b = 0xC6;
    assert_eq!(cpu.step(), Ok(4));
    assert_eq!(cpu.a, 0x00);
    assert!(cpu.zf && cpu.hf && cpu.cf);
    assert!(!cpu.nf);
}

#[test]
fn adc_chains_the_incoming_carry() {
    let mut cpu = boot(&[0x88]);
    cpu.a = 0x0F;
    cpu.b = 0x00;
    cpu.cf = true;
    cpu.step().unwrap();
    assert_eq!(cpu.a, 0x10);
    assert!(cpu.hf, "carry into bit 4 counts the carry-in");
    assert!(!cpu.cf && !cpu.zf && !cpu.nf);
}

#[test]
fn sub_sets_subtract_and_borrow_flags() {
    let mut cpu = boot(&[0x90]);
    cpu.a = 0x10;
    cpu.b = 0x20;
    cpu.step().unwrap();
    assert_eq!(cpu.a, 0xF0);
    assert!(cpu.nf && cpu.cf);
    assert!(!cpu.zf && !cpu.hf);
}

#[test]
fn sbc_borrows_through_the_carry() {
    let mut cpu = boot(&[0x98]);
    cpu.a = 0x10;
    cpu.b = 0x0F;
    cpu.cf = true;
    cpu.step().unwrap();
    assert_eq!(cpu.a, 0x00);
    assert!(cpu.zf && cpu.nf && cpu.hf);
    assert!(!cpu.cf);
}

#[test]
fn and_sets_half_carry_and_clears_carry() {
    let mut cpu = boot(&[0xA1]);
    cpu.a = 0xF0;
    cpu.c = 0x0F;
    cpu.cf = true;
    cpu.step().unwrap();
    assert_eq!(cpu.a, 0x00);
    assert!(cpu.zf && cpu.hf);
    assert!(!cpu.nf && !cpu.cf);
}

#[test]
fn xor_a_with_itself_zeroes_everything() {
    let mut cpu = boot(&[0xAF]);
    cpu.a = 0x5C;
    cpu.cf = true;
    cpu.step().unwrap();
    assert_eq!(cpu.a, 0x00);
    assert!(cpu.zf);
    assert!(!cpu.nf && !cpu.hf && !cpu.cf);
}

#[test]
fn or_clears_the_other_flags() {
    let mut cpu = boot(&[0xB2]);
    cpu.a = 0x10;
    cpu.d = 0x01;
    cpu.nf = true;
    cpu.hf = true;
    cpu.cf = true;
    cpu.step().unwrap();
    assert_eq!(cpu.a, 0x11);
    assert!(!cpu.zf && !cpu.nf && !cpu.hf && !cpu.cf);
}

#[test]
fn cp_compares_without_storing() {
    let mut cpu = boot(&[0xFE, 0x3C]);
    cpu.a = 0x3C;
    assert_eq!(cpu.step(), Ok(8));
    assert_eq!(cpu.a, 0x3C);
    assert!(cpu.zf && cpu.nf);
    assert!(!cpu.hf && !cpu.cf);
}

#[test]
fn cp_sets_carry_when_operand_is_larger() {
    let mut cpu = boot(&[0xB8]);
    cpu.a = 0x05;
    cpu.b = 0x06;
    cpu.step().unwrap();
    assert!(cpu.cf && cpu.nf && cpu.hf);
    assert!(!cpu.zf);
    assert_eq!(cpu.a, 0x05);
}

#[test]
fn alu_against_hl_indirect_reads_memory() {
    let mut cpu = boot(&[0x86]);
    cpu.set_hl(0x9000);
    cpu.bus.write_byte(0x9000, 0x22);
    cpu.a = 0x11;
    assert_eq!(cpu.step(), Ok(8));
    assert_eq!(cpu.a, 0x33);
}

#[test]
fn dec_to_zero_sets_zero_and_subtract() {
    let mut cpu = boot(&[0x05]);
    cpu.b = 0x01;
    cpu.step().unwrap();
    assert_eq!(cpu.b, 0x00);
    assert!(cpu.zf && cpu.nf);
    assert!(!cpu.hf);
}

#[test]
fn dec_from_zero_wraps_with_half_borrow() {
    let mut cpu = boot(&[0x3D]);
    cpu.a = 0x00;
    cpu.step().unwrap();
    assert_eq!(cpu.a, 0xFF);
    assert!(cpu.nf && cpu.hf);
    assert!(!cpu.zf);
}

#[test]
fn inc_dec_of_memory_at_hl() {
    let mut cpu = boot(&[0x34, 0x35]);
    cpu.set_hl(0x9000);
    cpu.bus.write_byte(0x9000, 0x0F);
    assert_eq!(cpu.step(), Ok(12));
    assert_eq!(cpu.bus.read_byte(0x9000), 0x10);
    assert!(cpu.hf && !cpu.zf && !cpu.nf);
    assert_eq!(cpu.step(), Ok(12));
    assert_eq!(cpu.bus.read_byte(0x9000), 0x0F);
    assert!(cpu.nf);
}

#[test]
fn sixteen_bit_inc_and_dec_touch_no_flags() {
    let mut cpu = boot(&[0x03, 0x0B]);
    cpu.set_bc(0xFFFF);
    cpu.zf = true;
    cpu.step().unwrap();
    assert_eq!(cpu.get_bc(), 0x0000);
    assert!(cpu.zf, "INC rr leaves flags alone");
    cpu.step().unwrap();
    assert_eq!(cpu.get_bc(), 0xFFFF);
    assert!(cpu.zf);
}

#[test]
fn add_hl_rr_computes_carries_and_leaves_zero_alone() {
    let mut cpu = boot(&[0x09]);
    cpu.set_hl(0x0FFF);
    cpu.set_bc(0x0001);
    cpu.zf = true;
    assert_eq!(cpu.step(), Ok(4));
    assert_eq!(cpu.get_hl(), 0x1000);
    assert!(cpu.hf, "carry out of bit 11");
    assert!(!cpu.cf && !cpu.nf);
    assert!(cpu.zf, "Zero is unaffected by 16-bit ADD");
}

#[test]
fn add_hl_rr_full_carry_wraps() {
    let mut cpu = boot(&[0x29]);
    cpu.set_hl(0x8000);
    cpu.step().unwrap();
    assert_eq!(cpu.get_hl(), 0x0000);
    assert!(cpu.cf);
    assert!(!cpu.hf);
}

#[test]
fn add_sp_r8_uses_low_byte_carry_rules() {
    let mut cpu = boot(&[0xE8, 0xFE]);
    cpu.sp = 0xFFFE;
    assert_eq!(cpu.step(), Ok(8));
    assert_eq!(cpu.sp, 0xFFFC);
    assert!(cpu.hf && cpu.cf);
    assert!(!cpu.zf && !cpu.nf);
}

#[test]
fn ld_hl_sp_r8_loads_displaced_stack_pointer() {
    let mut cpu = boot(&[0xF8, 0x02]);
    cpu.sp = 0xFFF8;
    assert_eq!(cpu.step(), Ok(8));
    assert_eq!(cpu.get_hl(), 0xFFFA);
    assert_eq!(cpu.sp, 0xFFF8);
    assert!(!cpu.zf && !cpu.nf && !cpu.hf && !cpu.cf);
}

#[test]
fn daa_adjusts_bcd_addition() {
    let mut cpu = boot(&[0x80, 0x27]);
    cpu.a = 0x45;
    cpu.b = 0x38;
    cpu.step().unwrap();
    assert_eq!(cpu.a, 0x7D);
    cpu.step().unwrap();
    assert_eq!(cpu.a, 0x83);
    assert!(!cpu.cf && !cpu.hf);
}

#[test]
fn daa_after_bcd_subtraction() {
    let mut cpu = boot(&[0x90, 0x27]);
    cpu.a = 0x42;
    cpu.b = 0x13;
    cpu.step().unwrap();
    assert_eq!(cpu.a, 0x2F);
    cpu.step().unwrap();
    assert_eq!(cpu.a, 0x29);
}

#[test]
fn cpl_complements_accumulator() {
    let mut cpu = boot(&[0x2F]);
    cpu.a = 0x35;
    cpu.step().unwrap();
    assert_eq!(cpu.a, 0xCA);
    assert!(cpu.nf && cpu.hf);
}

#[test]
fn scf_and_ccf_drive_the_carry() {
    let mut cpu = boot(&[0x37, 0x3F, 0x3F]);
    cpu.step().unwrap();
    assert!(cpu.cf);
    cpu.step().unwrap();
    assert!(!cpu.cf);
    cpu.step().unwrap();
    assert!(cpu.cf);
}

#[test]
fn rlca_rotates_around() {
    let mut cpu = boot(&[0x07]);
    cpu.a = 0x85;
    cpu.step().unwrap();
    assert_eq!(cpu.a, 0x0B);
    assert!(cpu.cf);
    assert!(!cpu.zf && !cpu.nf && !cpu.hf);
}

#[test]
fn rla_rotates_through_carry() {
    let mut cpu = boot(&[0x17]);
    cpu.a = 0x95;
    cpu.cf = true;
    cpu.step().unwrap();
    assert_eq!(cpu.a, 0x2B);
    assert!(cpu.cf);
}

#[test]
fn rrca_and_rra_rotate_right() {
    let mut cpu = boot(&[0x0F, 0x1F]);
    cpu.a = 0x01;
    cpu.step().unwrap();
    assert_eq!(cpu.a, 0x80);
    assert!(cpu.cf);
    cpu.a = 0x02;
    cpu.cf = false;
    cpu.step().unwrap();
    assert_eq!(cpu.a, 0x01);
    assert!(!cpu.cf);
}

#[test]
fn cb_swap_exchanges_nibbles() {
    let mut cpu = boot(&[0xCB, 0x37]);
    cpu.a = 0xF1;
    let r = cpu.step();
    assert_eq!(r, Ok(8));
    assert_eq!(cpu.a, 0x1F);
    assert!(!cpu.zf && !cpu.cf);
    assert_eq!(cpu.pc, 0x102);
}

#[test]
fn cb_bit_test_reports_a_clear_bit() {
    let mut cpu = boot(&[0xCB, 0x7C]);
    cpu.set_hl(0x7F00);
    cpu.cf = true;
    cpu.step().unwrap();
    assert!(cpu.zf, "bit 7 of H is clear");
    assert!(cpu.hf && !cpu.nf);
    assert!(cpu.cf, "BIT leaves carry alone");
}

#[test]
fn cb_set_and_res_drive_single_bits() {
    let mut cpu = boot(&[0xCB, 0xC7, 0xCB, 0x87]);
    cpu.a = 0x00;
    cpu.step().unwrap();
    assert_eq!(cpu.a, 0x01);
    cpu.step().unwrap();
    assert_eq!(cpu.a, 0x00);
}

#[test]
fn cb_srl_shifts_into_carry() {
    let mut cpu = boot(&[0xCB, 0x38]);
    cpu.b = 0x01;
    cpu.step().unwrap();
    assert_eq!(cpu.b, 0x00);
    assert!(cpu.zf && cpu.cf);
}

#[test]
fn cb_sra_preserves_the_sign_bit() {
    let mut cpu = boot(&[0xCB, 0x28]);
    cpu.b = 0x81;
    cpu.step().unwrap();
    assert_eq!(cpu.b, 0xC0);
    assert!(cpu.cf);
}

#[test]
fn cb_rl_on_memory_at_hl() {
    let mut cpu = boot(&[0xCB, 0x16]);
    cpu.set_hl(0x9000);
    cpu.bus.write_byte(0x9000, 0x80);
    cpu.cf = false;
    let r = cpu.step();
    assert_eq!(r, Ok(16));
    assert_eq!(cpu.bus.read_byte(0x9000), 0x00);
    assert!(cpu.zf && cpu.cf);
}

#[test]
fn cb_bit_on_memory_charges_less_than_a_write_back() {
    let mut cpu = boot(&[0xCB, 0x46]);
    cpu.set_hl(0x9000);
    cpu.bus.write_byte(0x9000, 0x01);
    let r = cpu.step();
    assert_eq!(r, Ok(12));
    assert!(!cpu.zf);
}
