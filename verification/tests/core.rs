use dmg_core::cartridge;
use dmg_core::cartridge::Cartridge;
use dmg_core::cartridge::CartridgeError;
use dmg_core::clock::Clock;
use dmg_core::cpu::CPU;
use dmg_core::gpu::GPU;
use dmg_core::input::Input;
use dmg_core::input::Key;
use dmg_core::input::KeyType;
use dmg_core::instructions::Instruction;
use dmg_core::memory::MemoryBus;
use dmg_core::registers::Registers;

const LOGO: [u8; 48] = [
    0xCE, 0xED, 0x66, 0x66, 0xCC, 0x0D, 0x00, 0x0B, 0x03, 0x73, 0x00, 0x83, 0x00, 0x0C, 0x00,
    0x0D, 0x00, 0x08, 0x11, 0x1F, 0x88, 0x89, 0x00, 0x0E, 0xDC, 0xCC, 0x6E, 0xE6, 0xDD, 0xDD,
    0xD9, 0x99, 0xBB, 0xBB, 0x67, 0x63, 0x6E, 0x0E, 0xEC, 0xCC, 0xDD, 0xDC, 0x99, 0x9F, 0xBB,
    0xB9, 0x33, 0x3E,
];

fn rom_image(mbc: u8, rom_size: u8, ram_size: u8, banks: usize) -> Vec<u8> {
    let mut bytes = vec![0u8; banks * 0x4000];
    bytes[0x104..0x134].copy_from_slice(&LOGO);
    bytes[0x147] = mbc;
    bytes[0x148] = rom_size;
    bytes[0x149] = ram_size;
    bytes
}

fn cpu_with_program(program: &[u8]) -> CPU {
    let mut bytes = rom_image(0x00, 0x00, 0x00, 2);
    bytes[0x150..0x150 + program.len()].copy_from_slice(program);
    let cart = cartridge::new(bytes).expect("valid image");
    CPU {
        registers: Registers::new(),
        pc: 0x150,
        bus: MemoryBus::new(cart),
        sp: 0xFFFE,
        interrupt_master_enable: false,
        halt: false,
        ei: 0,
        di: 0,
        cycle: 0,
        fault: None,
    }
}

#[test]
fn adc_with_carry() {
    let mut cpu = cpu_with_program(&[0xCE, 0xC6]);
    cpu.registers.a = 0x3A;
    cpu.registers.f.carry = true;
    let m = cpu.run();
    assert_eq!(m, 2);
    assert_eq!(cpu.registers.a, 0x01);
    assert!(!cpu.registers.f.zero);
    assert!(!cpu.registers.f.subtract);
    assert!(cpu.registers.f.half_carry);
    assert!(cpu.registers.f.carry);
}

#[test]
fn hl_load_with_decrement() {
    let mut cpu = cpu_with_program(&[0x3A]);
    cpu.registers.set_hl(0x8001);
    cpu.bus.write_byte(0x8001, 0x77);
    cpu.run();
    assert_eq!(cpu.registers.a, 0x77);
    assert_eq!(cpu.registers.get_hl(), 0x8000);
}

#[test]
fn conditional_call_not_taken() {
    let mut cpu = cpu_with_program(&[0xCC, 0x34, 0x12]);
    cpu.registers.f.zero = false;
    let sp = cpu.sp;
    let m = cpu.run();
    assert_eq!(cpu.pc, 0x153);
    assert_eq!(cpu.sp, sp);
    assert_eq!(m, 3);
}

#[test]
fn interrupt_dispatch() {
    let mut cpu = cpu_with_program(&[0x00]);
    cpu.interrupt_master_enable = true;
    cpu.bus.interrupt_flags = 0x05;
    cpu.bus.interrupt_enabled = 0x04;
    cpu.sp = 0xFFFE;
    let m = cpu.run();
    assert_eq!(cpu.pc, 0x50);
    assert_eq!(cpu.sp, 0xFFFC);
    assert!(!cpu.interrupt_master_enable);
    assert_eq!(cpu.bus.interrupt_flags, 0x01);
    assert_eq!(m, 5);
}

#[test]
fn mbc5_bank_switch() {
    let mut bytes = rom_image(0x19, 0x05, 0x00, 64);
    bytes[0x02 * 0x4000 + 0x10] = 0xAB;
    let cart = cartridge::new(bytes).expect("valid image");
    let mut bus = MemoryBus::new(cart);
    bus.write_byte(0x2000, 0x42);
    bus.write_byte(0x3000, 0x01);
    // the effective bank is 0x142 mod 64 = 2
    assert_eq!(bus.read_byte(0x4010), 0xAB);
    match &bus.rom {
        Cartridge::Mbc5(m) => assert_eq!(m.rombank, 0x02),
        _ => panic!("expected the fifth bank controller"),
    }
}

#[test]
fn oam_dma() {
    let mut cpu = cpu_with_program(&[0x00]);
    for i in 0..160u16 {
        cpu.bus.write_byte(0xC000 + i, i as u8);
    }
    cpu.bus.write_byte(0xFF46, 0xC0);
    for i in 0..160usize {
        assert_eq!(cpu.bus.gpu.oam[i], i as u8);
    }
}

#[test]
fn hram_round_trip() {
    let mut cpu = cpu_with_program(&[0x00]);
    for v in [0u8, 1, 0x7F, 0x80, 0xAB, 0xFF] {
        cpu.bus.write_byte(0xFF80, v);
        assert_eq!(cpu.bus.read_byte(0xFF80), v);
        cpu.bus.write_byte(0xFFFE, v ^ 0x55);
        assert_eq!(cpu.bus.read_byte(0xFFFE), v ^ 0x55);
    }
}

#[test]
fn echo_ram_mirrors_wram() {
    let mut cpu = cpu_with_program(&[0x00]);
    cpu.bus.write_byte(0xC123, 0xAB);
    assert_eq!(cpu.bus.read_byte(0xE123), 0xAB);
    cpu.bus.write_byte(0xE200, 0x55);
    assert_eq!(cpu.bus.read_byte(0xC200), 0x55);
}

#[test]
fn push_pop_af_round_trip() {
    let mut cpu = cpu_with_program(&[0xF5, 0xF1]);
    cpu.registers.a = 0x12;
    cpu.registers.f.zero = true;
    cpu.registers.f.carry = true;
    let sp = cpu.sp;
    let af = cpu.registers.get_af();
    cpu.run();
    cpu.run();
    assert_eq!(cpu.registers.get_af(), af);
    assert_eq!(cpu.registers.a, 0x12);
    assert!(cpu.registers.f.zero && cpu.registers.f.carry);
    assert!(!cpu.registers.f.subtract && !cpu.registers.f.half_carry);
    assert_eq!(cpu.sp, sp);
}

#[test]
fn flag_byte_low_nibble_zero() {
    let mut cpu = cpu_with_program(&[0x00]);
    cpu.registers.f.zero = true;
    cpu.registers.f.subtract = true;
    cpu.registers.f.half_carry = true;
    cpu.registers.f.carry = true;
    assert_eq!(cpu.registers.f.to_byte(), 0xF0);
    assert_eq!(cpu.registers.get_af() & 0x000F, 0);
    cpu.registers.set_af(0x12FF);
    assert_eq!(cpu.registers.get_af(), 0x12F0);
}

#[test]
fn daa_after_bcd_add() {
    let mut cpu = cpu_with_program(&[0xC6, 0x38, 0x27]);
    cpu.registers.a = 0x45;
    cpu.run();
    cpu.run();
    assert_eq!(cpu.registers.a, 0x83);
    assert!(!cpu.registers.f.carry);

    let mut cpu = cpu_with_program(&[0xC6, 0x90, 0x27]);
    cpu.registers.a = 0x90;
    cpu.run();
    cpu.run();
    assert_eq!(cpu.registers.a, 0x80);
    assert!(cpu.registers.f.carry);
}

#[test]
fn jr_displacements() {
    let mut cpu = cpu_with_program(&[0x18, 0xFE]);
    cpu.run();
    assert_eq!(cpu.pc, 0x150);

    let mut cpu = cpu_with_program(&[0x18, 0x7F]);
    cpu.run();
    assert_eq!(cpu.pc, 0x150 + 2 + 127);

    let mut cpu = cpu_with_program(&[0x18, 0x80]);
    cpu.run();
    assert_eq!(cpu.pc, 0x150 + 2 - 128);
}

#[test]
fn inc_dec_boundaries() {
    let mut cpu = cpu_with_program(&[0x04]);
    cpu.registers.b = 0xFF;
    cpu.run();
    assert_eq!(cpu.registers.b, 0x00);
    assert!(cpu.registers.f.zero);
    assert!(cpu.registers.f.half_carry);
    assert!(!cpu.registers.f.subtract);

    let mut cpu = cpu_with_program(&[0x05]);
    cpu.registers.b = 0x00;
    cpu.run();
    assert_eq!(cpu.registers.b, 0xFF);
    assert!(!cpu.registers.f.zero);
    assert!(cpu.registers.f.subtract);
    assert!(cpu.registers.f.half_carry);
}

#[test]
fn div_counts_once_per_256_tcycles() {
    let mut c = Clock::new();
    c.run(256);
    assert_eq!(c.div, 1);
    c.run(128);
    assert_eq!(c.div, 1);
    c.run(128);
    assert_eq!(c.div, 2);
}

#[test]
fn tima_counts_at_selected_period() {
    let mut c = Clock::new();
    c.write(0xFF07, 0x04);
    c.run(3 * 1024);
    assert_eq!(c.tima, 3);
    assert_eq!(c.interrupt, 0);
    c.write(0xFF05, 0xFF);
    c.write(0xFF06, 0x23);
    c.run(1024);
    assert_eq!(c.tima, 0x23);
    assert_eq!(c.interrupt, 0x04);
}

#[test]
fn div_write_resets_divider() {
    let mut c = Clock::new();
    c.run(300);
    assert_eq!(c.div, 1);
    c.write(0xFF04, 0x77);
    assert_eq!(c.read(0xFF04), 0);
    c.run(255);
    assert_eq!(c.div, 0);
    c.run(1);
    assert_eq!(c.div, 1);
}

#[test]
fn ly_advances_and_wraps() {
    let mut g = GPU::new();
    g.run(114);
    assert_eq!(g.ly, 1);
    g.write_lcd_reg(0xFF44, 153);
    g.run(114);
    assert_eq!(g.ly, 0);
}

#[test]
fn vblank_fires_entering_line_144() {
    let mut g = GPU::new();
    g.write_lcd_reg(0xFF44, 143);
    g.run(114);
    assert_eq!(g.ly, 144);
    assert_eq!(g.interrupt & 0x01, 0x01);
    assert!(g.frame_ready);
    let frame = g.take_frame();
    assert_eq!(frame.len(), 160 * 144);
    assert!(!g.frame_ready);
}

#[test]
fn joypad_matrix_active_low() {
    let mut input = Input::new();
    input.key_event(Key { key_type: KeyType::Right, is_down: true });
    assert_eq!(input.interrupt, 0x10);
    input.write(0x20);
    // bit 4 low selects the direction column; Right is pressed, so its bit reads 0
    assert_eq!(input.read() & 0x0F, 0x0E);
    input.key_event(Key { key_type: KeyType::Right, is_down: false });
    input.write(0x20);
    assert_eq!(input.read() & 0x0F, 0x0F);
}

#[test]
fn cartridge_header_errors() {
    assert!(matches!(
        cartridge::new(vec![0u8; 0x100]),
        Err(CartridgeError::InvalidCartridge)
    ));

    let mut bad_logo = rom_image(0x00, 0x00, 0x00, 2);
    bad_logo[0x104] = 0x00;
    assert!(matches!(cartridge::new(bad_logo), Err(CartridgeError::InvalidCartridge)));

    let unsupported = rom_image(0x05, 0x00, 0x00, 2);
    assert!(matches!(
        cartridge::new(unsupported),
        Err(CartridgeError::UnsupportedCartridge)
    ));

    let mut wrong_len = rom_image(0x00, 0x01, 0x00, 2);
    wrong_len[0x148] = 0x01; // declares 4 banks but the image holds 2
    assert!(matches!(cartridge::new(wrong_len), Err(CartridgeError::InvalidCartridge)));
}

#[test]
fn header_checksum_recomputed() {
    let mut bytes = rom_image(0x00, 0x00, 0x00, 2);
    let mut sum: u8 = 0;
    for a in 0x134..=0x14C {
        sum = sum.wrapping_sub(bytes[a]).wrapping_sub(1);
    }
    bytes[0x14D] = sum;
    assert_eq!(cartridge::calculate_checksum(&bytes), bytes[0x14D]);
}

#[test]
fn mbc5_battery_ram_round_trip() {
    let bytes = rom_image(0x1B, 0x05, 0x03, 64);
    let cart = cartridge::new(bytes).expect("valid image");
    assert!(cart.battery_backed());
    let mut bus = MemoryBus::new(cart);
    bus.write_byte(0x0000, 0x0A); // enable RAM
    bus.write_byte(0x4000, 0x02); // RAM bank 2
    bus.write_byte(0xA005, 0x99);
    assert_eq!(bus.read_byte(0xA005), 0x99);
    let saved = bus.rom.external_ram();
    assert_eq!(saved.len(), 4 * 0x2000);
    assert_eq!(saved[2 * 0x2000 + 5], 0x99);
    assert!(bus.rom.load_external_ram(vec![0x11; 4 * 0x2000]));
    assert_eq!(bus.read_byte(0xA005), 0x11);
    assert!(!bus.rom.load_external_ram(vec![0; 3]));
}

#[test]
fn ram_disabled_reads_open_bus() {
    let bytes = rom_image(0x1A, 0x05, 0x03, 64);
    let cart = cartridge::new(bytes).expect("valid image");
    let mut bus = MemoryBus::new(cart);
    assert_eq!(bus.read_byte(0xA000), 0xFF);
    bus.write_byte(0xA000, 0x42); // dropped while disabled
    bus.write_byte(0x0000, 0x0A);
    assert_eq!(bus.read_byte(0xA000), 0x00);
}

#[test]
fn prohibited_range_is_silent() {
    let mut cpu = cpu_with_program(&[0x00]);
    assert_eq!(cpu.bus.read_byte(0xFEA0), 0xFF);
    assert_eq!(cpu.bus.read_byte(0xFEFF), 0xFF);
    cpu.bus.write_byte(0xFEA0, 0x12);
    assert_eq!(cpu.bus.read_byte(0xFEA0), 0xFF);
}

#[test]
fn decoder_tables() {
    assert_eq!(Instruction::from_byte(0x00, false), (Some(Instruction::Nop), 1));
    let (i, c) = Instruction::from_byte(0x76, false);
    assert_eq!(i, Some(Instruction::Halt));
    assert_eq!(c, 1);
    let (i, _) = Instruction::from_byte(0xD3, false);
    assert_eq!(i, None);
    let (_, c) = Instruction::from_byte(0x06, true);
    assert_eq!(c, 4); // RLC (HL) takes four M-cycles
}

#[test]
fn unknown_opcode_latches_fault() {
    let mut cpu = cpu_with_program(&[0xD3]);
    cpu.run();
    let fault = cpu.fault.expect("undefined opcode must fault");
    assert_eq!(fault.pc, 0x150);
    assert_eq!(fault.opcode, 0xD3);
    assert!(!fault.prefixed);
}

#[test]
fn halt_wakes_on_pending_interrupt() {
    let mut cpu = cpu_with_program(&[0x76, 0x00]);
    cpu.run();
    assert!(cpu.halt);
    let m = cpu.run();
    assert_eq!(m, 1); // idling while halted
    cpu.bus.interrupt_flags = 0x01;
    cpu.bus.interrupt_enabled = 0x01;
    cpu.run();
    assert!(!cpu.halt);
}

#[test]
fn ei_enables_after_following_instruction() {
    let mut cpu = cpu_with_program(&[0xFB, 0x00, 0x00]);
    cpu.run(); // EI
    assert!(!cpu.interrupt_master_enable);
    cpu.run(); // the following instruction completes
    assert!(!cpu.interrupt_master_enable);
    cpu.run();
    assert!(cpu.interrupt_master_enable);
}

#[test]
fn mbc1_banking() {
    let mut bytes = rom_image(0x01, 0x01, 0x00, 4);
    bytes[0x02 * 0x4000 + 0x20] = 0x5A;
    let cart = cartridge::new(bytes).expect("valid image");
    let mut bus = MemoryBus::new(cart);
    bus.write_byte(0x2000, 0x02);
    assert_eq!(bus.read_byte(0x4020), 0x5A);
    bus.write_byte(0x2000, 0x00); // a zero selector reads as bank 1
    match &bus.rom {
        Cartridge::Mbc1(m) => assert_eq!(m.rombank, 1),
        _ => panic!("expected the first bank controller"),
    }
}

#[test]
fn background_scanline_renders_tile_row() {
    let mut g = GPU::new();
    // tile 0 row 0: all pixels color id 3
    g.write_vram(0x8000, 0xFF);
    g.write_vram(0x8001, 0xFF);
    g.write_lcd_reg(0xFF47, 0b11100100); // identity palette
    g.write_lcd_reg(0xFF44, 143); // advancing enters line 144 after rendering nothing
    g.write_lcd_reg(0xFF44, 0);
    g.run(114); // completes line 0, renders line 1
    // line 1 uses tile row 1 which is zero: color id 0 is white
    assert_eq!(g.screen_buffer[160], 0xFFFFFF);
}
