//! Single-step semantics: program counter movement, operand consumption,
//! stack behavior and cycle charges of representative instructions.

use lr35902::cpu::{CpuError, CPU};
use lr35902::rom::Rom;

/// A CPU over a cartridge whose bytes from `0x0100` on are `code`.
fn boot(code: &[u8]) -> CPU {
    let mut raw = vec![0u8; 0x8000];
    for (i, b) in code.iter().enumerate() {
        raw[0x100 + i] = *b;
    }
    CPU::new(Rom::new(raw), "LR35902".to_string())
}

#[test]
fn nop_advances_pc_only_and_charges_four_cycles() {
    let mut cpu = boot(&[0x00]);
    let r = cpu.step();
    assert_eq!(r, Ok(4));
    assert_eq!(cpu.pc, 0x101);
    assert_eq!(cpu.cycle_count, 4);
    assert_eq!(cpu.sp, 0xFFFE);
    assert_eq!(
        (cpu.a, cpu.b, cpu.c, cpu.d, cpu.e, cpu.h, cpu.l),
        (0, 0, 0, 0, 0, 0, 0)
    );
    assert_eq!((cpu.zf, cpu.nf, cpu.hf, cpu.cf), (false, false, false, false));
    assert!(cpu.running);
}

#[test]
fn ld_bc_d16_is_little_endian() {
    let mut cpu = boot(&[0x01, 0x34, 0x12]);
    cpu.zf = true;
    cpu.cf = true;
    let r = cpu.step();
    assert_eq!(r, Ok(12));
    assert_eq!(cpu.b, 0x12);
    assert_eq!(cpu.c, 0x34);
    assert_eq!(cpu.get_bc(), 0x1234);
    assert_eq!(cpu.pc, 0x103);
    assert!(cpu.zf && cpu.cf);
}

#[test]
fn jp_a16_is_unconditional() {
    let mut cpu = boot(&[0xC3, 0x50, 0x01]);
    cpu.nf = true;
    cpu.cf = true;
    let r = cpu.step();
    assert_eq!(r, Ok(16));
    assert_eq!(cpu.pc, 0x0150);
    assert_eq!((cpu.zf, cpu.nf, cpu.hf, cpu.cf), (false, true, false, true));
}

#[test]
fn jr_nz_taken_displaces_from_after_operand() {
    let mut cpu = boot(&[0x20, 0x05]);
    cpu.zf = false;
    let r = cpu.step();
    assert_eq!(r, Ok(12));
    assert_eq!(cpu.pc, 0x102 + 5);
}

#[test]
fn jr_nz_not_taken_still_consumes_displacement() {
    let mut cpu = boot(&[0x20, 0xFB]);
    cpu.zf = true;
    let r = cpu.step();
    assert_eq!(r, Ok(8));
    assert_eq!(cpu.pc, 0x102);
}

#[test]
fn jr_negative_displacement_goes_backwards() {
    let mut cpu = boot(&[0x00, 0x00, 0x18, 0xFC]);
    cpu.step().unwrap();
    cpu.step().unwrap();
    let r = cpu.step();
    assert_eq!(r, Ok(12));
    assert_eq!(cpu.pc, 0x100);
}

#[test]
fn inc_b_from_ff_wraps_and_sets_zero_and_half_carry() {
    let mut cpu = boot(&[0x04]);
    cpu.b = 0xFF;
    cpu.cf = true;
    cpu.step().unwrap();
    assert_eq!(cpu.b, 0x00);
    assert!(cpu.zf);
    assert!(!cpu.nf);
    assert!(cpu.hf);
    assert!(cpu.cf, "carry must be unaffected by INC");
}

#[test]
fn call_pushes_return_address_little_endian() {
    let mut cpu = boot(&[0xCD, 0x00, 0x02]);
    let r = cpu.step();
    assert_eq!(r, Ok(24));
    assert_eq!(cpu.sp, 0xFFFC);
    assert_eq!(cpu.pc, 0x0200);
    assert_eq!(cpu.bus.read_byte(0xFFFC), 0x03);
    assert_eq!(cpu.bus.read_byte(0xFFFD), 0x01);
}

#[test]
fn ret_returns_to_pushed_address() {
    let mut raw = vec![0u8; 0x8000];
    raw[0x100..0x103].copy_from_slice(&[0xCD, 0x00, 0x02]);
    raw[0x200] = 0xC9;
    let mut cpu = CPU::new(Rom::new(raw), "LR35902".to_string());
    cpu.step().unwrap();
    let r = cpu.step();
    assert_eq!(r, Ok(16));
    assert_eq!(cpu.pc, 0x0103);
    assert_eq!(cpu.sp, 0xFFFE);
}

#[test]
fn conditional_ret_not_taken_charges_fetch_only() {
    let mut cpu = boot(&[0xC0]);
    cpu.zf = true;
    let r = cpu.step();
    assert_eq!(r, Ok(4));
    assert_eq!(cpu.pc, 0x101);
    assert_eq!(cpu.sp, 0xFFFE);
}

#[test]
fn push_pop_bc_round_trip_is_bit_identical() {
    let mut cpu = boot(&[0xC5, 0xC1]);
    cpu.set_bc(0xBEEF);
    let r1 = cpu.step();
    assert_eq!(r1, Ok(12));
    assert_eq!(cpu.sp, 0xFFFC);
    let r2 = cpu.step();
    assert_eq!(r2, Ok(12));
    assert_eq!(cpu.get_bc(), 0xBEEF);
    assert_eq!(cpu.sp, 0xFFFE);
}

#[test]
fn pop_af_masks_low_nibble_of_flags() {
    let mut cpu = boot(&[0xC5, 0xF1]);
    cpu.set_bc(0x12FF);
    cpu.step().unwrap();
    cpu.step().unwrap();
    assert_eq!(cpu.a, 0x12);
    assert_eq!(cpu.get_f(), 0xF0);
    assert_eq!(cpu.get_af(), 0x12F0);
}

#[test]
fn rst_pushes_and_jumps_to_vector() {
    let mut cpu = boot(&[0xEF]);
    let r = cpu.step();
    assert_eq!(r, Ok(16));
    assert_eq!(cpu.pc, 0x0028);
    assert_eq!(cpu.sp, 0xFFFC);
    assert_eq!(cpu.bus.read_byte(0xFFFC), 0x01);
    assert_eq!(cpu.bus.read_byte(0xFFFD), 0x01);
}

#[test]
fn di_clears_ime_and_ei_sets_it() {
    let mut cpu = boot(&[0xF3, 0xFB]);
    assert!(cpu.ime);
    assert_eq!(cpu.step(), Ok(4));
    assert!(!cpu.ime);
    assert_eq!(cpu.step(), Ok(4));
    assert!(cpu.ime);
}

#[test]
fn halt_stops_the_run_loop() {
    let mut cpu = boot(&[0x76]);
    let r = cpu.step();
    assert_eq!(r, Ok(4));
    assert!(!cpu.running);
}

#[test]
fn stop_consumes_its_padding_byte() {
    let mut cpu = boot(&[0x10, 0x00]);
    let r = cpu.step();
    assert_eq!(r, Ok(8));
    assert_eq!(cpu.pc, 0x102);
    assert!(!cpu.running);
}

#[test]
fn ld_a16_a_stores_accumulator_at_absolute_address() {
    let mut cpu = boot(&[0xEA, 0x00, 0x90]);
    cpu.a = 0x7E;
    let r = cpu.step();
    assert_eq!(r, Ok(16));
    assert_eq!(cpu.bus.read_byte(0x9000), 0x7E);
    assert_eq!(cpu.pc, 0x103);
}

#[test]
fn ld_sp_d16_loads_stack_pointer() {
    let mut cpu = boot(&[0x31, 0xF0, 0xDF]);
    let r = cpu.step();
    assert_eq!(r, Ok(12));
    assert_eq!(cpu.sp, 0xDFF0);
}

#[test]
fn ld_a16_sp_stores_stack_pointer_little_endian() {
    let mut cpu = boot(&[0x08, 0x00, 0x90]);
    cpu.sp = 0xABCD;
    let r = cpu.step();
    assert_eq!(r, Ok(20));
    assert_eq!(cpu.bus.read_byte(0x9000), 0xCD);
    assert_eq!(cpu.bus.read_byte(0x9001), 0xAB);
}

#[test]
fn ldh_writes_and_reads_the_high_page() {
    let mut cpu = boot(&[0xE0, 0x80, 0xF0, 0x80]);
    cpu.a = 0x5A;
    assert_eq!(cpu.step(), Ok(12));
    assert_eq!(cpu.bus.read_byte(0xFF80), 0x5A);
    cpu.a = 0x00;
    assert_eq!(cpu.step(), Ok(12));
    assert_eq!(cpu.a, 0x5A);
}

#[test]
fn ld_hl_plus_a_stores_and_increments_hl() {
    let mut cpu = boot(&[0x22, 0x32]);
    cpu.set_hl(0x9FFF);
    cpu.a = 0x11;
    assert_eq!(cpu.step(), Ok(8));
    assert_eq!(cpu.bus.read_byte(0x9FFF), 0x11);
    assert_eq!(cpu.get_hl(), 0xA000);
    cpu.a = 0x22;
    assert_eq!(cpu.step(), Ok(8));
    assert_eq!(cpu.bus.read_byte(0xA000), 0x22);
    assert_eq!(cpu.get_hl(), 0x9FFF);
}

#[test]
fn jp_hl_jumps_to_register_value() {
    let mut cpu = boot(&[0xE9]);
    cpu.set_hl(0x0180);
    let r = cpu.step();
    assert_eq!(r, Ok(8));
    assert_eq!(cpu.pc, 0x0180);
}

#[test]
fn run_executes_until_halt() {
    let mut cpu = boot(&[0x00, 0x00, 0x76]);
    let r = cpu.run(10);
    assert_eq!(r, None);
    assert!(!cpu.running);
    assert_eq!(cpu.cycle_count, 12);
}

#[test]
fn run_reports_fatal_decode_error() {
    let mut cpu = boot(&[0x00, 0xD3]);
    let r = cpu.run(10);
    assert_eq!(
        r,
        Some(CpuError::IllegalOpcode { opcode: 0xD3, pc: 0x101 })
    );
    assert!(!cpu.running);
}

#[test]
fn run_equals_repeated_single_steps() {
    let program = [0x01, 0x34, 0x12, 0x04, 0xC3, 0x00, 0x01];
    let mut by_run = boot(&program);
    let mut by_steps = boot(&program);
    assert_eq!(by_run.run(3), None);
    for _ in 0..3 {
        by_steps.step().unwrap();
    }
    assert_eq!(by_run.get_bc(), by_steps.get_bc());
    assert_eq!(by_run.pc, by_steps.pc);
    assert_eq!(by_run.cycle_count, by_steps.cycle_count);
    assert_eq!(by_run.get_f(), by_steps.get_f());
    assert_eq!(by_run.pc, 0x0100, "the jump led back to the start");
}

#[test]
fn run_with_no_fuel_does_nothing() {
    let mut cpu = boot(&[0x00]);
    let r = cpu.run(0);
    assert_eq!(r, None);
    assert_eq!(cpu.pc, 0x100);
    assert_eq!(cpu.cycle_count, 0);
}

#[test]
fn conditional_call_not_taken_consumes_operand() {
    let mut cpu = boot(&[0xC4, 0x00, 0x02]);
    cpu.zf = true;
    assert_eq!(cpu.step(), Ok(12));
    assert_eq!(cpu.pc, 0x103);
    assert_eq!(cpu.sp, 0xFFFE);
}

#[test]
fn reti_returns_and_enables_interrupts() {
    let mut raw = vec![0u8; 0x8000];
    raw[0x100..0x103].copy_from_slice(&[0xCD, 0x00, 0x02]);
    raw[0x200] = 0xD9;
    let mut cpu = CPU::new(Rom::new(raw), "LR35902".to_string());
    cpu.ime = false;
    cpu.step().unwrap();
    assert_eq!(cpu.step(), Ok(16));
    assert_eq!(cpu.pc, 0x0103);
    assert!(cpu.ime);
}

#[test]
fn ld_bc_indirect_a_stores_through_the_pair() {
    let mut cpu = boot(&[0x02]);
    cpu.set_bc(0x9100);
    cpu.a = 0x66;
    assert_eq!(cpu.step(), Ok(8));
    assert_eq!(cpu.bus.read_byte(0x9100), 0x66);
}

#[test]
fn ld_a_de_indirect_loads_through_the_pair() {
    let mut raw = vec![0u8; 0x8000];
    raw[0x100] = 0x1A;
    raw[0x300] = 0x77;
    let mut cpu = CPU::new(Rom::new(raw), "LR35902".to_string());
    cpu.set_de(0x0300);
    assert_eq!(cpu.step(), Ok(8));
    assert_eq!(cpu.a, 0x77);
}

#[test]
fn ld_register_quadrant_moves_and_memory_forms() {
    let mut cpu = boot(&[0x41, 0x70, 0x4E]);
    cpu.c = 0x42;
    cpu.set_hl(0x9200);
    assert_eq!(cpu.step(), Ok(4));
    assert_eq!(cpu.b, 0x42);
    assert_eq!(cpu.step(), Ok(8));
    assert_eq!(cpu.bus.read_byte(0x9200), 0x42);
    cpu.bus.write_byte(0x9200, 0x13);
    assert_eq!(cpu.step(), Ok(8));
    assert_eq!(cpu.c, 0x13);
}

#[test]
fn ld_r_d8_loads_immediates() {
    let mut cpu = boot(&[0x3E, 0xAB, 0x26, 0x91]);
    assert_eq!(cpu.step(), Ok(8));
    assert_eq!(cpu.a, 0xAB);
    assert_eq!(cpu.step(), Ok(8));
    assert_eq!(cpu.h, 0x91);
}

#[test]
fn ld_sp_hl_copies_the_pair() {
    let mut cpu = boot(&[0xF9]);
    cpu.set_hl(0xD000);
    assert_eq!(cpu.step(), Ok(4));
    assert_eq!(cpu.sp, 0xD000);
}

#[test]
fn power_on_state_matches_the_hardware_convention() {
    let cpu = boot(&[0x42]);
    assert_eq!(cpu.pc, 0x0100);
    assert_eq!(cpu.sp, 0xFFFE);
    assert_eq!(cpu.cycle_count, 0);
    assert!(cpu.ime);
    assert!(cpu.running);
    assert_eq!(cpu.curr_opcode, 0x42);
    assert!(!cpu.curr_is_cb);
}
