use ferrum::cpu::opcodes::{cb_opcode, opcode};
use ferrum::cpu::registers::{Reg16, Reg8};
use ferrum::gb::GameBoy;

/// A 32 KiB ROM-only image with `program` at the entry point 0x0100.
fn image(program: &[u8]) -> Vec<u8> {
    let mut rom = vec![0u8; 0x8000];
    rom[0x147] = 0x00;
    for (i, b) in program.iter().enumerate() {
        rom[0x100 + i] = *b;
    }
    rom
}

fn boot(program: &[u8]) -> GameBoy {
    GameBoy::power_on(image(program)).unwrap()
}

#[test]
fn nop_advances_pc_by_one_in_four_cycles() {
    let mut gb = boot(&[0x00]);
    assert_eq!(gb.cpu.reg.pc, 0x0100);
    assert_eq!(gb.cpu.cycle(), 4);
    assert_eq!(gb.cpu.reg.pc, 0x0101);
}

#[test]
fn ld_bc_immediate_loads_word() {
    let mut gb = boot(&[0x01, 0x34, 0x12]);
    assert_eq!(gb.cpu.cycle(), 12);
    assert_eq!(gb.cpu.reg.read16(Reg16::BC), 0x1234);
    assert_eq!(gb.cpu.reg.pc, 0x0103);
}

#[test]
fn post_boot_registers() {
    let gb = boot(&[]);
    assert_eq!(gb.cpu.reg.read16(Reg16::AF), 0x01B0);
    assert_eq!(gb.cpu.reg.read16(Reg16::BC), 0x0013);
    assert_eq!(gb.cpu.reg.read16(Reg16::DE), 0x00D8);
    assert_eq!(gb.cpu.reg.read16(Reg16::HL), 0x014D);
    assert_eq!(gb.cpu.reg.read16(Reg16::SP), 0xFFFE);
}

#[test]
fn vblank_is_serviced_before_lcd_stat() {
    let mut gb = boot(&[0x00]);
    gb.cpu.mmu.write8(0xFF0F, 0b0000_0011);
    gb.cpu.mmu.write8(0xFFFF, 0b0000_0011);
    gb.cpu.ime = true;
    assert_eq!(gb.cpu.handle_interrupts(), 16);
    assert_eq!(gb.cpu.reg.pc, 0x0040);
    assert_eq!(gb.cpu.mmu.read8(0xFF0F), 0b0000_0010);
    assert!(!gb.cpu.ime);
    assert_eq!(gb.cpu.reg.sp, 0xFFFC);
    assert_eq!(gb.cpu.mmu.read16(0xFFFC), 0x0100);
}

#[test]
fn pending_interrupt_is_serviced_before_fetch() {
    let mut gb = boot(&[0x00]);
    gb.cpu.mmu.write8(0xFFFF, 0x04);
    gb.cpu.mmu.write8(0xFF0F, 0x04);
    gb.cpu.ime = true;
    assert_eq!(gb.cpu.cycle(), 16);
    assert_eq!(gb.cpu.reg.pc, 0x0050);
    assert_eq!(gb.cpu.mmu.read8(0xFF0F) & 0x04, 0);
    assert_eq!(gb.cpu.cycle(), 4);
    assert_eq!(gb.cpu.reg.pc, 0x0051);
}

#[test]
fn ei_takes_effect_after_next_instruction() {
    let mut gb = boot(&[0xFB, 0x00, 0x00]);
    gb.cpu.mmu.write8(0xFFFF, 0x01);
    gb.cpu.mmu.write8(0xFF0F, 0x01);
    assert_eq!(gb.cpu.cycle(), 4);
    assert_eq!(gb.cpu.reg.pc, 0x0101);
    assert!(!gb.cpu.ime);
    assert_eq!(gb.cpu.cycle(), 4);
    assert_eq!(gb.cpu.reg.pc, 0x0102);
    assert!(gb.cpu.ime);
    assert_eq!(gb.cpu.cycle(), 16);
    assert_eq!(gb.cpu.reg.pc, 0x0040);
}

#[test]
fn di_cancels_pending_ei() {
    let mut gb = boot(&[0xFB, 0xF3, 0x00]);
    gb.cpu.mmu.write8(0xFFFF, 0x01);
    gb.cpu.mmu.write8(0xFF0F, 0x01);
    gb.cpu.cycle();
    gb.cpu.cycle();
    assert_eq!(gb.cpu.cycle(), 4);
    assert_eq!(gb.cpu.reg.pc, 0x0103);
}

#[test]
fn halt_waits_until_interrupt_pending() {
    let mut gb = boot(&[0x76, 0x00]);
    assert_eq!(gb.cpu.cycle(), 4);
    assert!(gb.cpu.halt);
    assert_eq!(gb.cpu.cycle(), 1);
    assert_eq!(gb.cpu.reg.pc, 0x0101);
    gb.cpu.mmu.write8(0xFFFF, 0x01);
    gb.cpu.mmu.write8(0xFF0F, 0x01);
    assert_eq!(gb.cpu.cycle(), 4);
    assert!(!gb.cpu.halt);
    assert_eq!(gb.cpu.reg.pc, 0x0102);
}

#[test]
fn halt_with_ime_services_the_interrupt() {
    let mut gb = boot(&[0x76, 0x00]);
    gb.cpu.ime = true;
    gb.cpu.cycle();
    gb.cpu.mmu.write8(0xFFFF, 0x02);
    gb.cpu.mmu.write8(0xFF0F, 0x02);
    assert_eq!(gb.cpu.cycle(), 16);
    assert!(!gb.cpu.halt);
    assert_eq!(gb.cpu.reg.pc, 0x0048);
    assert_eq!(gb.cpu.mmu.read16(gb.cpu.reg.sp), 0x0101);
}

#[test]
fn add8_sets_zero_half_carry_and_carry() {
    let mut gb = boot(&[]);
    gb.cpu.reg.a = 0x3A;
    gb.cpu.alu_add8(0xC6);
    assert_eq!(gb.cpu.reg.a, 0x00);
    assert!(gb.cpu.reg.zf() && gb.cpu.reg.hf() && gb.cpu.reg.cf() && !gb.cpu.reg.nf());
    gb.cpu.reg.a = 0x0F;
    gb.cpu.alu_add8(0x01);
    assert_eq!(gb.cpu.reg.a, 0x10);
    assert!(!gb.cpu.reg.zf() && gb.cpu.reg.hf() && !gb.cpu.reg.cf());
    gb.cpu.reg.a = 0xF0;
    gb.cpu.alu_add8(0x20);
    assert_eq!(gb.cpu.reg.a, 0x10);
    assert!(!gb.cpu.reg.zf() && !gb.cpu.reg.hf() && gb.cpu.reg.cf());
}

#[test]
fn daa_after_subtraction_with_half_carry_subtracts_six() {
    let mut gb = boot(&[]);
    gb.cpu.reg.a = 0x10;
    gb.cpu.alu_sub8(0x01);
    assert_eq!(gb.cpu.reg.a, 0x0F);
    assert!(gb.cpu.reg.nf() && gb.cpu.reg.hf() && !gb.cpu.reg.cf());
    gb.cpu.alu_daa();
    assert_eq!(gb.cpu.reg.a, 0x09);
    assert!(!gb.cpu.reg.hf() && !gb.cpu.reg.cf());
}

#[test]
fn daa_after_bcd_addition() {
    let mut gb = boot(&[]);
    gb.cpu.reg.a = 0x45;
    gb.cpu.alu_add8(0x38);
    gb.cpu.alu_daa();
    assert_eq!(gb.cpu.reg.a, 0x83);
    gb.cpu.reg.a = 0x99;
    gb.cpu.alu_add8(0x01);
    gb.cpu.alu_daa();
    assert_eq!(gb.cpu.reg.a, 0x00);
    assert!(gb.cpu.reg.zf() && gb.cpu.reg.cf());
}

#[test]
fn cp_sets_carry_when_a_is_smaller() {
    let mut gb = boot(&[]);
    gb.cpu.reg.a = 0x10;
    gb.cpu.alu_cp8(0x20);
    assert_eq!(gb.cpu.reg.a, 0x10);
    assert!(gb.cpu.reg.cf() && gb.cpu.reg.nf() && !gb.cpu.reg.zf());
    gb.cpu.alu_cp8(0x10);
    assert!(gb.cpu.reg.zf() && !gb.cpu.reg.cf());
}

#[test]
fn sbc_borrows_carry() {
    let mut gb = boot(&[]);
    gb.cpu.reg.a = 0x00;
    gb.cpu.reg.set_cf(true);
    gb.cpu.alu_sbc8(0x00);
    assert_eq!(gb.cpu.reg.a, 0xFF);
    assert!(gb.cpu.reg.cf() && gb.cpu.reg.hf());
}

#[test]
fn call_and_return() {
    // CALL 0x0150; at 0x0150: RET
    let mut program = vec![0u8; 0x60];
    program[0] = 0xCD;
    program[1] = 0x50;
    program[2] = 0x01;
    program[0x50] = 0xC9;
    let mut gb = boot(&program);
    assert_eq!(gb.cpu.cycle(), 24);
    assert_eq!(gb.cpu.reg.pc, 0x0150);
    assert_eq!(gb.cpu.reg.sp, 0xFFFC);
    assert_eq!(gb.cpu.cycle(), 16);
    assert_eq!(gb.cpu.reg.pc, 0x0103);
    assert_eq!(gb.cpu.reg.sp, 0xFFFE);
}

#[test]
fn conditional_jumps_take_different_times() {
    // Z is set after power-up: JP NZ falls through, JR Z is taken backwards.
    let mut gb = boot(&[0xC2, 0x00, 0x02, 0x28, 0xFB]);
    assert_eq!(gb.cpu.cycle(), 12);
    assert_eq!(gb.cpu.reg.pc, 0x0103);
    assert_eq!(gb.cpu.cycle(), 12);
    assert_eq!(gb.cpu.reg.pc, 0x0100);
}

#[test]
fn ld_hl_increment_and_memory_operand() {
    // LD HL,0xC000; LD A,0x42; LD (HL+),A; DEC HL; INC (HL); LD B,(HL)
    let mut gb = boot(&[0x21, 0x00, 0xC0, 0x3E, 0x42, 0x22, 0x2B, 0x34, 0x46]);
    gb.cpu.cycle();
    gb.cpu.cycle();
    gb.cpu.cycle();
    assert_eq!(gb.cpu.reg.read16(Reg16::HL), 0xC001);
    assert_eq!(gb.cpu.mmu.read8(0xC000), 0x42);
    gb.cpu.cycle();
    assert_eq!(gb.cpu.cycle(), 12);
    assert_eq!(gb.cpu.mmu.read8(0xC000), 0x43);
    assert_eq!(gb.cpu.cycle(), 8);
    assert_eq!(gb.cpu.reg.read8(Reg8::B), 0x43);
}

#[test]
fn push_pop_af_keeps_flag_low_nibble_clear() {
    // LD BC,0x12FF; PUSH BC; POP AF
    let mut gb = boot(&[0x01, 0xFF, 0x12, 0xC5, 0xF1]);
    gb.cpu.cycle();
    assert_eq!(gb.cpu.cycle(), 16);
    assert_eq!(gb.cpu.cycle(), 12);
    assert_eq!(gb.cpu.reg.read16(Reg16::AF), 0x12F0);
    assert_eq!(gb.cpu.reg.read8(Reg8::F), 0xF0);
}

#[test]
fn cb_swap_and_bit() {
    // LD A,0xF1; SWAP A; BIT 7,A
    let mut gb = boot(&[0x3E, 0xF1, 0xCB, 0x37, 0xCB, 0x7F]);
    gb.cpu.cycle();
    assert_eq!(gb.cpu.cycle(), 8);
    assert_eq!(gb.cpu.reg.a, 0x1F);
    assert_eq!(gb.cpu.cycle(), 8);
    assert!(gb.cpu.reg.zf());
    assert!(gb.cpu.reg.hf());
}

#[test]
fn rotates_and_bit_ops() {
    let mut gb = boot(&[]);
    gb.cpu.reg.set_cf(false);
    assert_eq!(gb.cpu.alu_rlc(0x85), 0x0B);
    assert!(gb.cpu.reg.cf());
    assert_eq!(gb.cpu.alu_rr(0x01), 0x80);
    assert!(gb.cpu.reg.cf());
    assert_eq!(gb.cpu.alu_sra(0x81), 0xC0);
    assert_eq!(gb.cpu.alu_srl(0x81), 0x40);
    assert_eq!(gb.cpu.alu_sla(0x81), 0x02);
    assert_eq!(gb.cpu.alu_res(7, 0xFF), 0x7F);
    assert_eq!(gb.cpu.alu_set(0, 0x00), 0x01);
}

#[test]
fn rst_pushes_and_jumps() {
    let mut gb = boot(&[0xEF]);
    assert_eq!(gb.cpu.cycle(), 16);
    assert_eq!(gb.cpu.reg.pc, 0x0028);
    assert_eq!(gb.cpu.mmu.read16(0xFFFC), 0x0101);
}

#[test]
fn add_sp_signed_offset() {
    // ADD SP,-2
    let mut gb = boot(&[0xE8, 0xFE]);
    assert_eq!(gb.cpu.cycle(), 16);
    assert_eq!(gb.cpu.reg.sp, 0xFFFC);
    assert!(!gb.cpu.reg.zf());
}

#[test]
fn register_pairs_round_trip() {
    let mut gb = boot(&[]);
    gb.cpu.reg.write16(Reg16::DE, 0xBEEF);
    assert_eq!(gb.cpu.reg.read8(Reg8::D), 0xBE);
    assert_eq!(gb.cpu.reg.read8(Reg8::E), 0xEF);
    gb.cpu.reg.write8(Reg8::F, 0xFF);
    assert_eq!(gb.cpu.reg.read8(Reg8::F), 0xF0);
    gb.cpu.reg.inc_pc(0xFFFF);
    assert_eq!(gb.cpu.reg.pc, 0x00FF);
}

#[test]
fn opcode_table_entries() {
    assert_eq!(opcode(0x01).length, 3);
    assert_eq!(opcode(0x01).cycles, 12);
    assert_eq!(opcode(0x00).cycles, 4);
    assert_eq!(opcode(0xCD).cycles, 24);
    assert_eq!(opcode(0x7E).cycles, 8);
    assert_eq!(cb_opcode(0x46).cycles, 12);
    assert_eq!(cb_opcode(0x86).cycles, 16);
    assert_eq!(cb_opcode(0x11).cycles, 8);
}

#[test]
fn run_ticks_reaches_budget() {
    let mut gb = boot(&[]);
    let t = gb.run_ticks(1000);
    assert!(t >= 1000 && t < 1064);
}

#[test]
fn stack_pointer_wraps() {
    // LD SP,0x0001; PUSH BC
    let mut gb = boot(&[0x31, 0x01, 0x00, 0xC5]);
    gb.cpu.cycle();
    assert_eq!(gb.cpu.cycle(), 16);
    assert_eq!(gb.cpu.reg.sp, 0xFFFF);
}

#[test]
fn relative_jump_backwards() {
    let mut gb = boot(&[]);
    gb.cpu.reg.pc = 0xC000;
    gb.cpu.mmu.write8(0xC000, 0x18);
    gb.cpu.mmu.write8(0xC001, 0x80);
    assert_eq!(gb.cpu.cycle(), 12);
    assert_eq!(gb.cpu.reg.pc, 0xBF82);
}
