use crusty_boy::display::{draw_vram_to_framebuffer, FRAMEBUFFER_SIZE, SCREEN_WIDTH};
use crusty_boy::entry::{process, setup, ENTRY_POINT};
use crusty_boy::gpu::{tile_from_bytes, tile_to_string, TilePixelValue, GPU};
use crusty_boy::instructions::{Instruction, JumpTypes};
use crusty_boy::memory::MemoryBus;
use crusty_boy::registers::{FlagsRegister, Reg, Reg16, Registers};
use crusty_boy::rom::ROM;

const NINTENDO_LOGO: [u8; 48] = [
    0xCE, 0xED, 0x66, 0x66, 0xCC, 0x0D, 0x00, 0x0B, 0x03, 0x73, 0x00, 0x83, 0x00, 0x0C, 0x00, 0x0D,
    0x00, 0x08, 0x11, 0x1F, 0x88, 0x89, 0x00, 0x0E, 0xDC, 0xCC, 0x6E, 0xE6, 0xDD, 0xDD, 0xD9, 0x99,
    0xBB, 0xBB, 0x67, 0x63, 0x6E, 0x0E, 0xEC, 0xCC, 0xDD, 0xDC, 0x99, 0x9F, 0xBB, 0xB9, 0x33, 0x3E,
];

fn test_image() -> Vec<u8> {
    let mut data = vec![0u8; 0x8000];
    data[0x0104..0x0134].copy_from_slice(&NINTENDO_LOGO);
    data[0x0134..0x0138].copy_from_slice(b"TEST");
    data[0x014D] = 0xA7;
    data
}

#[test]
fn header_checksum_of_logo_and_title_matches_stored_byte() {
    let data = test_image();
    let rom = ROM::parse(&data).unwrap();
    assert_eq!(rom.header_checksum, 0xA7);
    assert_eq!(rom.header_checksum, rom.data[0x014D]);
    assert_eq!(ROM::get_header_checksum(&data), 0xA7);
}

#[test]
fn header_fields_are_parsed() {
    let mut data = test_image();
    data[0x0147] = 0x13;
    data[0x0148] = 0x02;
    data[0x014A] = 0x01;
    data[0x014C] = 0x07;
    let rom = ROM::parse(&data).unwrap();
    assert_eq!(rom.name, "TEST");
    assert_eq!(rom.size, 128);
    assert_eq!(rom.cartridge_type, 0x13);
    assert_eq!(ROM::get_cartridge_type_name(rom.cartridge_type), "MBC3+RAM+BATTERY");
    assert_eq!(rom.region, "WORLD");
    assert_eq!(rom.version, 0x07);
    assert_eq!(rom.data.len(), 0x8000);
}

#[test]
fn short_image_is_refused_and_long_one_cut() {
    assert!(ROM::parse(&vec![0u8; 0x014F]).is_none());
    assert!(ROM::parse(&vec![0u8; 0x0150]).is_some());
    let rom = ROM::parse(&vec![1u8; 0x12000]).unwrap();
    assert_eq!(rom.data.len(), 0x10000);
}

#[test]
fn title_stops_at_nul_or_sixteen_bytes() {
    let mut data = vec![0u8; 0x0150];
    data[0x0134..0x0137].copy_from_slice(b"ABC");
    data[0x0138] = b'Z';
    assert_eq!(ROM::get_rom_name(&data), "ABC");
    data[0x0134..0x0144].copy_from_slice(b"ABCDEFGHIJKLMNOP");
    data[0x0144] = b'Q';
    assert_eq!(ROM::get_rom_name(&data), "ABCDEFGHIJKLMNOP");
    let empty = vec![0u8; 0x0150];
    assert_eq!(ROM::get_rom_name(&empty), "");
}

#[test]
fn rom_size_region_and_type_tables() {
    assert_eq!(ROM::get_rom_size(0), 32);
    assert_eq!(ROM::get_rom_size(5), 1024);
    assert_eq!(ROM::get_rom_size(255), usize::MAX);
    assert_eq!(ROM::get_region(0), "JAPAN");
    assert_eq!(ROM::get_region(1), "WORLD");
    assert_eq!(ROM::get_region(7), "UNKNOWN");
    assert_eq!(ROM::get_cartridge_type_name(0x00), "ROM ONLY");
    assert_eq!(ROM::get_cartridge_type_name(0xFF), "HuC1+RAM+BATTERY");
    assert_eq!(ROM::get_cartridge_type_name(0x04), "UnkownType");
}

#[test]
fn placeholder_rom() {
    let rom = ROM::new();
    assert_eq!(rom.name, "UNKNOWN");
    assert_eq!(rom.size, 0);
    assert_eq!(rom.region, "NOWHERE");
    assert_eq!(rom.data.len(), 0xFFFF);
}

#[test]
fn setup_loads_image_and_process_runs_it() {
    let mut data = test_image();
    // 0x0100: LD A,0x05; DEC A; JR NZ,-3; HALT
    data[0x0100..0x0106].copy_from_slice(&[0x3E, 0x05, 0x3D, 0x20, 0xFD, 0x76]);
    let rom = ROM::parse(&data).unwrap();
    let mut cpu = setup(&rom);
    assert_eq!(cpu.pc, ENTRY_POINT);
    assert_eq!(cpu.rom_size, 32);
    assert_eq!(cpu.mem_bus.read_byte(0x0104), 0xFD);
    assert_eq!(process(&mut cpu, 3), Ok(()));
    assert!(!cpu.is_halted);
    assert_eq!(process(&mut cpu, 100), Ok(()));
    assert!(cpu.is_halted);
    assert_eq!(cpu.regs.a, 0);
    assert_eq!(cpu.pc, 0x0105);
}

#[test]
fn decoder_tables() {
    assert_eq!(Instruction::from_byte(0x00, false), Some(Instruction::NOP));
    assert_eq!(Instruction::from_byte(0x76, false), Some(Instruction::HALT));
    assert_eq!(Instruction::from_byte(0x55, false), Some(Instruction::LD(Reg::D, Reg::L)));
    assert_eq!(
        Instruction::from_byte(0x56, false),
        Some(Instruction::LD(Reg::D, Reg::Addr(Reg16::HL)))
    );
    assert_eq!(Instruction::from_byte(0x34, false), Some(Instruction::INC(Reg::Addr(Reg16::HL))));
    assert_eq!(Instruction::from_byte(0x23, false), Some(Instruction::INC(Reg::HL)));
    assert_eq!(Instruction::from_byte(0x31, false), Some(Instruction::LD(Reg::SP, Reg::D16)));
    assert_eq!(Instruction::from_byte(0xFE, false), Some(Instruction::CP(Reg::D8)));
    assert_eq!(Instruction::from_byte(0x20, false), Some(Instruction::JR(JumpTypes::NotZero)));
    assert_eq!(Instruction::from_byte(0xF1, false), Some(Instruction::POP(Reg16::AF)));
    assert_eq!(Instruction::from_byte(0xCB, false), None);
    assert_eq!(Instruction::from_byte(0x27, false), None);
    assert_eq!(Instruction::from_byte(0x06, true), Some(Instruction::RLC(Reg::Addr(Reg16::HL))));
    assert_eq!(Instruction::from_byte(0x7C, true), Some(Instruction::BIT(Reg::H, 7)));
    assert_eq!(Instruction::from_byte(0xBF, true), Some(Instruction::RESET(Reg::A, 7)));
    assert_eq!(Instruction::from_byte(0xC0, true), Some(Instruction::SET(Reg::B, 0)));
    assert_eq!(Instruction::from_byte_prefixed(0x37), Some(Instruction::SWAP(Reg::A)));
    assert_eq!(Instruction::from_byte_not_prefixed(0xD3), Some(Instruction::EXIT));
}

#[test]
fn decoder_covers_every_documented_opcode() {
    let gaps: [u8; 33] = [
        0x08, 0x27, 0xC7, 0xCB, 0xCF, 0xD7, 0xD9, 0xDB, 0xDD, 0xDF, 0xE0, 0xE2, 0xE3, 0xE4, 0xE7,
        0xE8, 0xE9, 0xEA, 0xEB, 0xEC, 0xED, 0xEF, 0xF0, 0xF2, 0xF3, 0xF7, 0xF8, 0xF9, 0xFA, 0xFB,
        0xFC, 0xFD, 0xFF,
    ];
    for op in 0..=255u8 {
        assert!(Instruction::from_byte(op, true).is_some());
        assert_eq!(Instruction::from_byte(op, false).is_none(), gaps.contains(&op));
    }
}

#[test]
fn pair_write_read_back() {
    let mut regs = Registers::new();
    for (p, v, back) in [
        (Reg16::BC, 0xBEEFu16, 0xBEEFu16),
        (Reg16::DE, 0x0001, 0x0001),
        (Reg16::HL, 0xFFFF, 0xFFFF),
        (Reg16::SP, 0x1234, 0x1234),
        (Reg16::AF, 0xABCD, 0xABC0),
    ] {
        regs.set_vreg(p, v);
        assert_eq!(regs.get_vreg_value(p), (back, p));
    }
    regs.set_vreg(Reg16::HL, 0x00FF);
    assert_eq!(regs.get_vreg_value(Reg16::HLI).0, 0x0100);
    assert_eq!(regs.get_vreg_value(Reg16::HLD).0, 0x00FE);
    assert_eq!(regs.h, 0x00);
    assert_eq!(regs.l, 0xFF);
    regs.set_vreg_liberal(Reg::B, Reg::C, 0x4321);
    assert_eq!((regs.b, regs.c), (0x43, 0x21));
    regs.set_vreg_liberal(Reg::A, Reg::FLAGS, 0x99FF);
    assert_eq!(regs.get_reg_value(Reg::FLAGS), (0xF0, Reg::FLAGS));
    assert_eq!(regs.get_reg_value(Reg::A).0, 0x99);
    regs.set_reg(Reg::E, 0x5A);
    assert_eq!(regs.e, 0x5A);
    assert!(regs.reg8_can_be_reg16(Reg::SP));
    assert!(!regs.reg8_can_be_reg16(Reg::A));
    assert_eq!(Reg::from(Reg16::DE), Reg::DE);
    assert_eq!(Reg::HLI.to_pair(), Some(Reg16::HLI));
    assert_eq!(Reg::D8.to_pair(), None);
}

#[test]
fn flag_byte_round_trip() {
    for b in 0..=255u8 {
        let f = FlagsRegister::from_u8(b);
        assert_eq!(f.into_u8(), b & 0xF0);
        assert_eq!(FlagsRegister::from_u8(f.into_u8()), f);
    }
    let f = FlagsRegister { zero: true, subtract: false, half_carry: true, carry: false };
    assert_eq!(f.into_u8(), 0xA0);
}

#[test]
fn registers_start_at_power_on_values() {
    let regs = Registers::new();
    assert_eq!(regs.sp, 0xFFFE);
    assert_eq!(regs.get_vreg_value(Reg16::AF).0, 0);
}

#[test]
fn tile_cache_matches_batch_decode_after_writes() {
    let mut gpu = GPU::new();
    let writes: [(usize, u8); 7] =
        [(0, 0x3C), (1, 0x7E), (17, 0xFF), (0x17FF, 0x81), (0x1800, 0x12), (2, 0xAA), (0, 0x00)];
    for (i, v) in writes {
        gpu.vram_write_byte(i, v);
    }
    for t in 0..384 {
        let bytes = gpu.vram[t * 16..t * 16 + 16].to_vec();
        let tile = tile_from_bytes(bytes);
        assert_eq!(tile.pixels, gpu.tileset[t * 64..t * 64 + 64].to_vec());
    }
    assert_eq!(gpu.vram_read_byte(0x1800), 0x12);
}

#[test]
fn tile_row_decoding_uses_manual_shades() {
    let mut bytes = vec![0u8; 16];
    bytes[0] = 0b1010_0000;
    bytes[1] = 0b1100_0000;
    let tile = tile_from_bytes(bytes);
    assert_eq!(tile.pixel(0, 0), TilePixelValue::Black);
    assert_eq!(tile.pixel(0, 1), TilePixelValue::DarkGray);
    assert_eq!(tile.pixel(0, 2), TilePixelValue::LightGray);
    assert_eq!(tile.pixel(0, 3), TilePixelValue::White);
}

#[test]
fn tile_lookup_by_index_in_both_modes() {
    let mut gpu = GPU::new();
    gpu.vram_write_byte(0x0010, 0xFF);
    gpu.vram_write_byte(0x0800, 0xFF);
    gpu.vram_write_byte(0x1010, 0xFF);
    gpu.vram_write_byte(0x0FF0, 0xFF);
    let lit = TilePixelValue::LightGray;
    assert_eq!(gpu.get_tile(1, true).pixel(0, 0), lit);
    assert_eq!(gpu.get_tile(128, true).pixel(0, 0), lit);
    assert_eq!(gpu.get_tile(1, false).pixel(0, 0), lit);
    assert_eq!(gpu.get_tile(128, false).pixel(0, 0), lit);
    assert_eq!(gpu.get_tile(255, false).pixel(0, 0), lit);
    assert_eq!(gpu.get_tile(0, false).pixel(0, 0), TilePixelValue::White);
}

#[test]
fn tile_text_picture() {
    let mut bytes = vec![0u8; 16];
    bytes[0] = 0xFF;
    bytes[3] = 0x0F;
    let text = tile_to_string(&tile_from_bytes(bytes));
    let lines: Vec<&str> = text.split('\n').collect();
    assert_eq!(lines.len(), 9);
    assert_eq!(lines[0], "\u{2591}".repeat(8));
    assert_eq!(lines[1], format!("{}{}", " ".repeat(4), "\u{2592}".repeat(4)));
    assert_eq!(lines[2], " ".repeat(8));
    assert_eq!(lines[8], "");
}

#[test]
fn bus_routes_vram_window() {
    let mut bus = MemoryBus::new();
    bus.write_byte(0x8000, 0x11);
    bus.write_byte(0x97FE, 0x22);
    bus.write_byte(0x97FF, 0x33);
    bus.write_byte(0xFFFF, 0x44);
    assert_eq!(bus.gpu.vram[0], 0x11);
    assert_eq!(bus.gpu.vram[0x17FE], 0x22);
    assert_eq!(bus.memory[0x97FF], 0x33);
    assert_eq!(bus.gpu.vram[0x17FF], 0x00);
    assert_eq!(bus.read_byte(0x97FF), 0x33);
    assert_eq!(bus.read_byte(0xFFFF), 0x44);
    bus.load_image(&vec![9u8; 0x9000]);
    assert_eq!(bus.memory[0x8000], 9);
    assert_eq!(bus.read_byte(0x0123), 9);
    assert_eq!(bus.read_byte(0x8000), 0x11);
    assert_eq!(bus.read_byte(0x8FFF), 0);
}

#[test]
fn framebuffer_shows_cached_tiles_magnified() {
    let mut gpu = GPU::new();
    gpu.vram_write_byte(0x0000, 0x80);
    gpu.vram_write_byte(0x0011, 0x80);
    let mut framebuffer = vec![7u32; FRAMEBUFFER_SIZE];
    draw_vram_to_framebuffer(&gpu, &mut framebuffer);
    assert_eq!(framebuffer[0], 0xAAAAAA);
    assert_eq!(framebuffer[2 * SCREEN_WIDTH + 2], 0xAAAAAA);
    assert_eq!(framebuffer[3], 0xFFFFFF);
    assert_eq!(framebuffer[24], 0x555555);
    assert_eq!(framebuffer[FRAMEBUFFER_SIZE - 1], 0xFFFFFF);
}

#[test]
fn register_reference_writes_through() {
    let mut regs = Registers::new();
    let (r, tag) = regs.get_reg(Reg::H);
    *r = 0x77;
    assert_eq!(tag, Reg::H);
    assert_eq!(regs.h, 0x77);
    assert_eq!(regs.get_vreg_value(Reg16::HL).0, 0x7700);
}

#[test]
fn execute_returns_next_pc_without_moving_pc() {
    let mut cpu = crusty_boy::cpu::CPU::new();
    cpu.pc = 0xC000;
    cpu.mem_bus.write_byte(0xC001, 0x42);
    assert_eq!(cpu.execute(Instruction::LD(Reg::B, Reg::D8)), 0xC002);
    assert_eq!(cpu.regs.b, 0x42);
    assert_eq!(cpu.pc, 0xC000);
    assert_eq!(cpu.ld(Reg::B, Reg::Addr(Reg16::BC)), 0xC001);
    assert_eq!(cpu.mem_bus.read_byte(0x4200), 0x42);
    cpu.inc(Reg::SP);
    assert_eq!(cpu.regs.sp, 0xFFFF);
    cpu.dev(Reg::B);
    assert_eq!(cpu.regs.b, 0x41);
    cpu.set(Reg::A, 7);
    assert_eq!(cpu.regs.a, 0x80);
    assert_eq!(cpu.jump(false), 0xC003);
    assert_eq!(cpu.relative_jump(true), 0xC044);
    assert_eq!(cpu.read_next_word(), 0x0042);
    assert_eq!(cpu.get_jump_condition(JumpTypes::Carry), (false, JumpTypes::Carry));
}

