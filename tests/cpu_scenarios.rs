use crusty_boy::cpu::{StepError, CPU};
use crusty_boy::gpu::TilePixelValue::{DarkGray, LightGray};
use crusty_boy::registers::{FlagsRegister, Reg16};

fn machine_with(program: &[u8]) -> CPU {
    let mut cpu = CPU::new();
    for (i, b) in program.iter().enumerate() {
        cpu.mem_bus.write_byte(0x0100 + i as u16, *b);
    }
    cpu.pc = 0x0100;
    cpu.rom_size = 32;
    cpu
}

fn run(cpu: &mut CPU, steps: usize) {
    for _ in 0..steps {
        cpu.step().unwrap();
    }
}

#[test]
fn add_wraps_to_zero_with_all_carries() {
    let mut cpu = machine_with(&[0x3E, 0x3C, 0x06, 0xC4, 0x80]);
    run(&mut cpu, 3);
    assert_eq!(cpu.regs.a, 0x00);
    assert_eq!(
        cpu.regs.flags,
        FlagsRegister { zero: true, subtract: false, half_carry: true, carry: true }
    );
    assert_eq!(cpu.pc, 0x0105);
}

#[test]
fn load_through_hl_increment_fills_tile_row() {
    let mut cpu = machine_with(&[0x21, 0x00, 0x80, 0x3E, 0x55, 0x22, 0x3E, 0xAA, 0x77]);
    run(&mut cpu, 5);
    assert_eq!(cpu.mem_bus.gpu.vram[0], 0x55);
    assert_eq!(cpu.mem_bus.gpu.vram[1], 0xAA);
    assert_eq!(cpu.regs.get_vreg_value(Reg16::HL).0, 0x8001);
    assert_eq!(
        cpu.mem_bus.gpu.tileset[0..8].to_vec(),
        vec![DarkGray, LightGray, DarkGray, LightGray, DarkGray, LightGray, DarkGray, LightGray]
    );
}

#[test]
fn push_then_pop_moves_pair_and_restores_sp() {
    let mut cpu = machine_with(&[0x31, 0xFE, 0xFF, 0x01, 0x34, 0x12, 0xC5, 0xD1]);
    run(&mut cpu, 4);
    assert_eq!(cpu.regs.get_vreg_value(Reg16::DE).0, 0x1234);
    assert_eq!(cpu.regs.sp, 0xFFFE);
}

#[test]
fn compare_sets_borrow_flags_and_keeps_a() {
    let mut cpu = machine_with(&[0x3E, 0x01, 0xFE, 0x02]);
    run(&mut cpu, 2);
    assert_eq!(cpu.regs.a, 0x01);
    assert_eq!(
        cpu.regs.flags,
        FlagsRegister { zero: false, subtract: true, half_carry: true, carry: true }
    );
}

#[test]
fn relative_jump_back_loops_when_not_zero() {
    let mut cpu = CPU::new();
    cpu.mem_bus.write_byte(0x0150, 0x20);
    cpu.mem_bus.write_byte(0x0151, 0xFE);
    cpu.pc = 0x0150;
    cpu.rom_size = 32;
    cpu.regs.flags.zero = false;
    cpu.step().unwrap();
    assert_eq!(cpu.pc, 0x0150);

    cpu.regs.flags.zero = true;
    cpu.step().unwrap();
    assert_eq!(cpu.pc, 0x0152);
}

#[test]
fn push_pop_of_af_drops_low_nibble() {
    let mut cpu = machine_with(&[0x01, 0xFF, 0x12, 0xC5, 0xF1, 0xF5, 0xD1]);
    run(&mut cpu, 5);
    assert_eq!(cpu.regs.get_vreg_value(Reg16::AF).0, 0x12F0);
    assert_eq!(cpu.regs.get_vreg_value(Reg16::DE).0, 0x12F0);
    assert_eq!(cpu.regs.sp, 0xFFFE);
}

#[test]
fn unknown_opcode_stops_with_address_and_byte() {
    let mut cpu = machine_with(&[0x00, 0xD9]);
    cpu.step().unwrap();
    assert_eq!(
        cpu.step(),
        Err(StepError::UnknownOpcode { address: 0x0101, opcode: 0xD9, prefixed: false })
    );
    assert_eq!(cpu.pc, 0x0101);
}

#[test]
fn exit_opcode_reports_exit_and_halts() {
    let mut cpu = machine_with(&[0xD3]);
    assert_eq!(cpu.step(), Err(StepError::Exit { address: 0x0100 }));
    assert!(cpu.is_halted);
}

#[test]
fn halt_stops_further_steps() {
    let mut cpu = machine_with(&[0x76, 0x3C]);
    cpu.step().unwrap();
    assert!(cpu.is_halted);
    assert_eq!(cpu.pc, 0x0100);
    cpu.step().unwrap();
    assert_eq!(cpu.regs.a, 0);
    assert_eq!(cpu.pc, 0x0100);
}

#[test]
fn running_past_rom_end_halts() {
    let mut cpu = machine_with(&[]);
    cpu.rom_size = 0;
    cpu.step().unwrap();
    assert!(cpu.is_halted);
    assert_eq!(cpu.pc, 0x0101);
}

#[test]
fn adc_and_sbc_fold_the_carry() {
    // SCF; LD A,0xFF; ADC A,0x00 -> 0x00 with Z, H, C
    let mut cpu = machine_with(&[0x37, 0x3E, 0xFF, 0xCE, 0x00]);
    run(&mut cpu, 3);
    assert_eq!(cpu.regs.a, 0x00);
    assert_eq!(
        cpu.regs.flags,
        FlagsRegister { zero: true, subtract: false, half_carry: true, carry: true }
    );
    // SCF; LD A,0x00; SBC A,0x00 -> 0xFF with N, H, C
    let mut cpu = machine_with(&[0x37, 0x3E, 0x00, 0xDE, 0x00]);
    run(&mut cpu, 3);
    assert_eq!(cpu.regs.a, 0xFF);
    assert_eq!(
        cpu.regs.flags,
        FlagsRegister { zero: false, subtract: true, half_carry: true, carry: true }
    );
}

#[test]
fn inc_and_dec_keep_carry() {
    // SCF; LD B,0x0F; INC B; LD C,0x10; DEC C
    let mut cpu = machine_with(&[0x37, 0x06, 0x0F, 0x04]);
    run(&mut cpu, 3);
    assert_eq!(cpu.regs.b, 0x10);
    assert_eq!(
        cpu.regs.flags,
        FlagsRegister { zero: false, subtract: false, half_carry: true, carry: true }
    );
    let mut cpu = machine_with(&[0x37, 0x0E, 0x01, 0x0D]);
    run(&mut cpu, 3);
    assert_eq!(cpu.regs.c, 0x00);
    assert_eq!(
        cpu.regs.flags,
        FlagsRegister { zero: true, subtract: true, half_carry: false, carry: true }
    );
}

#[test]
fn sixteen_bit_inc_wraps_without_flags() {
    // LD HL,0xFFFF; INC HL; DEC BC
    let mut cpu = machine_with(&[0x21, 0xFF, 0xFF, 0x23, 0x0B]);
    run(&mut cpu, 3);
    assert_eq!(cpu.regs.get_vreg_value(Reg16::HL).0, 0x0000);
    assert_eq!(cpu.regs.get_vreg_value(Reg16::BC).0, 0xFFFF);
    assert_eq!(cpu.regs.flags, FlagsRegister::new());
}

#[test]
fn inc_through_hl_changes_memory() {
    // LD HL,0xC000; LD (HL),0xFF; INC (HL)
    let mut cpu = machine_with(&[0x21, 0x00, 0xC0, 0x36, 0xFF, 0x34]);
    run(&mut cpu, 3);
    assert_eq!(cpu.mem_bus.read_byte(0xC000), 0x00);
    assert_eq!(cpu.regs.get_vreg_value(Reg16::HL).0, 0xC000);
    assert!(cpu.regs.flags.zero && cpu.regs.flags.half_carry);
}

#[test]
fn add_hl_sets_half_and_full_carry() {
    // LD HL,0x8FFF; LD BC,0x7001; ADD HL,BC
    let mut cpu = machine_with(&[0x21, 0xFF, 0x8F, 0x01, 0x01, 0x70, 0x09]);
    run(&mut cpu, 3);
    assert_eq!(cpu.regs.get_vreg_value(Reg16::HL).0, 0x0000);
    assert_eq!(
        cpu.regs.flags,
        FlagsRegister { zero: false, subtract: false, half_carry: true, carry: true }
    );
}

#[test]
fn rotate_a_clears_zero() {
    // LD A,0x80; RLCA
    let mut cpu = machine_with(&[0x3E, 0x80, 0x07]);
    run(&mut cpu, 2);
    assert_eq!(cpu.regs.a, 0x01);
    assert_eq!(
        cpu.regs.flags,
        FlagsRegister { zero: false, subtract: false, half_carry: false, carry: true }
    );
    // XOR A; RRA -> A stays 0, Z forced clear
    let mut cpu = machine_with(&[0xAF, 0x1F]);
    run(&mut cpu, 2);
    assert_eq!(cpu.regs.a, 0x00);
    assert!(!cpu.regs.flags.zero);
}

#[test]
fn prefixed_ops_take_two_bytes() {
    // LD B,0x81; SRA B; SWAP B; SRL B; BIT 7,B
    let mut cpu = machine_with(&[0x06, 0x81, 0xCB, 0x28, 0xCB, 0x30, 0xCB, 0x38, 0xCB, 0x78]);
    run(&mut cpu, 2);
    assert_eq!(cpu.regs.b, 0xC0);
    assert!(cpu.regs.flags.carry);
    assert_eq!(cpu.pc, 0x0104);
    run(&mut cpu, 1);
    assert_eq!(cpu.regs.b, 0x0C);
    assert!(!cpu.regs.flags.carry);
    run(&mut cpu, 1);
    assert_eq!(cpu.regs.b, 0x06);
    run(&mut cpu, 1);
    assert!(cpu.regs.flags.zero && cpu.regs.flags.half_carry && !cpu.regs.flags.subtract);
    assert_eq!(cpu.pc, 0x010A);
}

#[test]
fn set_and_reset_on_hl_act_on_memory() {
    // LD HL,0xC000; SET 3,(HL); RES 3,(HL); SET 0,(HL)
    let mut cpu = machine_with(&[0x21, 0x00, 0xC0, 0xCB, 0xDE, 0xCB, 0x9E, 0xCB, 0xC6]);
    run(&mut cpu, 2);
    assert_eq!(cpu.mem_bus.read_byte(0xC000), 0x08);
    assert_eq!(cpu.regs.get_vreg_value(Reg16::HL).0, 0xC000);
    run(&mut cpu, 2);
    assert_eq!(cpu.mem_bus.read_byte(0xC000), 0x01);
}

#[test]
fn call_and_return() {
    // CALL 0x0200 ; at 0x0200: RET
    let mut cpu = machine_with(&[0xCD, 0x00, 0x02]);
    cpu.mem_bus.write_byte(0x0200, 0xC9);
    cpu.step().unwrap();
    assert_eq!(cpu.pc, 0x0200);
    assert_eq!(cpu.regs.sp, 0xFFFC);
    assert_eq!(cpu.mem_bus.read_byte(0xFFFD), 0x01);
    assert_eq!(cpu.mem_bus.read_byte(0xFFFC), 0x03);
    cpu.step().unwrap();
    assert_eq!(cpu.pc, 0x0103);
    assert_eq!(cpu.regs.sp, 0xFFFE);
}

#[test]
fn conditional_jumps_not_taken_skip_operands() {
    // JP Z,0x1234 (Z clear); CALL C,0x1234 (C clear); RET Z
    let mut cpu = machine_with(&[0xCA, 0x34, 0x12, 0xDC, 0x34, 0x12, 0xC8]);
    run(&mut cpu, 3);
    assert_eq!(cpu.pc, 0x0107);
    assert_eq!(cpu.regs.sp, 0xFFFE);
}

#[test]
fn absolute_jump_taken() {
    let mut cpu = machine_with(&[0xC3, 0x34, 0x12]);
    cpu.step().unwrap();
    assert_eq!(cpu.pc, 0x1234);
}

#[test]
fn pop_at_stack_top_gives_zero() {
    let mut cpu = CPU::new();
    cpu.regs.sp = 0xFFFE;
    assert_eq!(cpu.pop(), 0);
    assert_eq!(cpu.regs.sp, 0xFFFE);
}

#[test]
fn flag_operations() {
    // SCF; CCF; LD A,0x0F; CPL
    let mut cpu = machine_with(&[0x37, 0x3F, 0x3E, 0x0F, 0x2F]);
    run(&mut cpu, 2);
    assert!(!cpu.regs.flags.carry);
    run(&mut cpu, 2);
    assert_eq!(cpu.regs.a, 0xF0);
    assert!(cpu.regs.flags.subtract && cpu.regs.flags.half_carry);
}

#[test]
fn logic_operations_set_flags() {
    // LD A,0xF0; AND 0x0F -> 0 (Z, H); OR 0x03; XOR 0x03
    let mut cpu = machine_with(&[0x3E, 0xF0, 0xE6, 0x0F, 0xF6, 0x03, 0xEE, 0x03]);
    run(&mut cpu, 2);
    assert_eq!(cpu.regs.a, 0);
    assert_eq!(
        cpu.regs.flags,
        FlagsRegister { zero: true, subtract: false, half_carry: true, carry: false }
    );
    run(&mut cpu, 1);
    assert_eq!(cpu.regs.a, 0x03);
    assert_eq!(cpu.regs.flags, FlagsRegister::new());
    run(&mut cpu, 1);
    assert_eq!(cpu.regs.a, 0);
    assert!(cpu.regs.flags.zero);
}

#[test]
fn load_a_through_hl_decrement() {
    // LD HL,0xC001; LD (HL),0x42 ; LD A,(HL-)
    let mut cpu = machine_with(&[0x21, 0x01, 0xC0, 0x36, 0x42, 0x3A]);
    run(&mut cpu, 3);
    assert_eq!(cpu.regs.a, 0x42);
    assert_eq!(cpu.regs.get_vreg_value(Reg16::HL).0, 0xC000);
}

#[test]
fn primitive_arithmetic_flags() {
    let mut cpu = CPU::new();
    assert_eq!(cpu.gb_sub(0x10, 0x10), 0);
    assert!(cpu.regs.flags.zero && cpu.regs.flags.subtract && !cpu.regs.flags.carry);
    assert_eq!(cpu.gb_sub(0x10, 0x01), 0x0F);
    assert!(cpu.regs.flags.half_carry && !cpu.regs.flags.carry && !cpu.regs.flags.zero);
    assert_eq!(cpu.gb_add(0x0F, 0x01), 0x10);
    assert!(cpu.regs.flags.half_carry && !cpu.regs.flags.carry);
    assert_eq!(cpu.gb_add(0xF0, 0x20), 0x10);
    assert!(!cpu.regs.flags.half_carry && cpu.regs.flags.carry);
    cpu.regs.flags.zero = true;
    assert_eq!(cpu.gb_add16(0x0FFF, 0x0001), 0x1000);
    assert!(cpu.regs.flags.half_carry && !cpu.regs.flags.carry && cpu.regs.flags.zero);
    assert_eq!(cpu.gb_sub16(0x0000, 0x0001), 0xFFFF);
    assert!(cpu.regs.flags.half_carry && cpu.regs.flags.carry && cpu.regs.flags.subtract);
}
