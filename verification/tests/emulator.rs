use rust_emu::bus::{Bus, Button, Select};
use rust_emu::controller::Controller;
use rust_emu::cpu::interrupts::{JOYPAD, TIMER, VBLANK};
use rust_emu::cpu::value::Value;
use rust_emu::cpu::{CPUState, Stage, CPU};
use rust_emu::emu::{disassemble, format_listings, gen_il, str_il, Emu, InstrListing};
use rust_emu::framebuffer::PixelData;
use rust_emu::gpu::BackgroundPalette;
use rust_emu::instructions::{decode, instr_data_length, Instr, Register};
use rust_emu::location::{Address, Read};
use rust_emu::texture::Tile;

#[test]
fn listing_text_is_address_mnemonic_and_data() {
    let mem = [0x00, 0x3E, 0x12, 0xC3, 0x34, 0x12];
    let listings = disassemble(&mem);
    assert_eq!(listings.len(), 3);
    assert_eq!(listings[1].addr, 1);
    assert_eq!(listings[1].data, Some(0x12));
    assert_eq!(listings[2].data, Some(0x1234));
    assert_eq!(
        format_listings(&listings),
        "0000: NOP\n0001: LD A, n (0012)\n0003: JP nn (1234)"
    );
    assert_eq!(str_il(&gen_il(&mem)), format_listings(&listings));
}

#[test]
fn operand_cut_short_by_the_end_has_no_data() {
    let mem = [0xC3, 0x34];
    let listings = disassemble(&mem);
    assert_eq!(listings.len(), 1);
    assert_eq!(listings[0].data, None);
    assert_eq!(listings[0].to_string(), "0000: JP nn");
    assert_eq!(format_listings(&[]), "");
}

#[test]
fn mnemonics() {
    assert_eq!(decode(0xFF).to_string(), "RST 38H");
    assert_eq!(decode(0x20).to_string(), "JR FlagNZ, e");
    assert_eq!(decode(0x22).to_string(), "LD [HL], A (HL+)");
    assert_eq!(decode(0x08).to_string(), "LD [nn], SP");
    assert_eq!(decode(0xE2).to_string(), "LD [FF00+C], A");
    assert_eq!(decode(0xCB).to_string(), "CB");
    assert_eq!(Instr::from(0x76u8), Instr::Halt);
    assert_eq!(instr_data_length(0x01), 2);
    assert_eq!(instr_data_length(0x18), 1);
    assert_eq!(instr_data_length(0x00), 0);
}

#[test]
fn listing_display_with_data() {
    let l = InstrListing { instr: Instr::Call(None), data: Some(0xABCD), addr: 0x0150 };
    assert_eq!(l.to_string(), "0150: CALL nn (ABCD)");
}

#[test]
fn palette_text() {
    assert_eq!(
        BackgroundPalette(0xE4).to_string(),
        "0b11100100\n(Black)(Dark Gray)(Light Gray)(White)"
    );
    assert_eq!(BackgroundPalette(0x03).to_string(), "0b000011\n(White)(White)(White)(Black)");
    assert_eq!(BackgroundPalette(0x40).to_string(), "0b1000000\n(Light Gray)(White)(White)(White)");
}

#[test]
fn boot_step_only_changes_state() {
    let mut cpu = CPU::new();
    let mut bus = Bus::new(&[], None);
    cpu.state = CPUState::Boot;
    cpu.step(&mut bus);
    assert_eq!(cpu.state, CPUState::Running(Stage::Fetch));
    assert_eq!(bus.mclock(), 0);
}

#[test]
fn start_values_are_loaded_without_boot_rom() {
    let mut emu = Emu::new(&[], None);
    emu.step();
    assert_eq!(emu.cpu.registers.a, 0x11);
    assert_eq!(emu.cpu.registers.f, 0xB0);
    assert_eq!(emu.cpu.registers.sp, 0xFFFE);
    assert_eq!(emu.cpu.registers.pc, 0x101);
    assert_eq!(emu.cpu.op_addr, 0x100);
    assert_eq!(emu.bus.read(0xFF40), 0x91);
    assert_eq!(emu.bus.read(0xFF47), 0xFC);
    assert!(!emu.bus.rom_start_signal);
    assert_eq!(emu.cpu.state, CPUState::Running(Stage::Execute));
}

#[test]
fn run_until_stops_at_the_target() {
    let mut emu = Emu::new(&[], None);
    let clock = emu.run_until(100);
    assert_eq!(clock, 100);
    assert_eq!(emu.bus.mclock(), emu.bus.timer.mclock);
    assert_eq!(emu.cpu.registers.pc, 0x100 + 100);
    assert_eq!(emu.run_until(50), 100);
}

#[test]
fn view_is_the_chunk_around_pc() {
    let emu = Emu::new(&[], None);
    let v = emu.view();
    assert_eq!(v.len(), 10);
    assert_eq!(v[0].addr, 0);
    assert_eq!(v[9].addr, 9);
}

#[test]
fn interrupt_of_highest_priority_is_serviced() {
    let mut cpu = CPU::new();
    let mut bus = Bus::new(&[], None);
    cpu.registers.pc = 0x1234;
    cpu.registers.sp = 0xFFFE;
    cpu.state = CPUState::Interrupted(Stage::Fetch);
    bus.ime = 1;
    bus.int_enabled = VBLANK | TIMER;
    bus.int_flags = VBLANK | TIMER;
    cpu.step(&mut bus);
    assert_eq!(cpu.op_addr, 0x40);
    assert_eq!(cpu.registers.pc, 0x41);
    assert_eq!(cpu.state, CPUState::Running(Stage::Execute));
    assert_eq!(bus.int_flags & VBLANK, 0);
    assert_eq!(bus.int_flags & TIMER, TIMER);
    assert_eq!(bus.ime, 0);
    assert_eq!(bus.read(0xFFFD), 0x12);
    assert_eq!(bus.read(0xFFFC), 0x34);
    assert_eq!(bus.mclock(), 5);
}

#[test]
fn halted_cpu_waits_for_an_interrupt() {
    let mut cpu = CPU::new();
    let mut bus = Bus::new(&[], None);
    cpu.state = CPUState::Halted;
    cpu.step(&mut bus);
    assert_eq!(cpu.state, CPUState::Halted);
    assert_eq!(bus.mclock(), 1);
    bus.int_enabled = JOYPAD;
    bus.int_flags = JOYPAD;
    cpu.step(&mut bus);
    assert_eq!(cpu.state, CPUState::Running(Stage::Execute));
}

#[test]
fn joypad_buttons() {
    let mut bus = Bus::new(&[], None);
    bus.release_buttons();
    bus.press(Button::A);
    assert_eq!(bus.keypresses & 0x0F, 0b1110);
    assert_eq!(bus.int_flags & JOYPAD, JOYPAD);
    bus.press(Button::Down);
    assert_eq!(bus.directions & 0x0F, 0b0111);
    bus.write(0xFF00, 0x10);
    assert_eq!(bus.select, Select::Buttons);
    assert_eq!(bus.read(0xFF00) & 0x0F, 0b1110);
    bus.release_buttons();
    assert_eq!(bus.keypresses & 0x0F, 0x0F);
}

#[test]
fn serial_output_collects_characters() {
    let mut bus = Bus::new(&[], None);
    bus.write(0xFF01, b'O');
    bus.write(0xFF02, 0x81);
    bus.write(0xFF01, b'K');
    bus.write(0xFF02, 0x81);
    assert_eq!(bus.io, "OK");
}

#[test]
fn tile_decoding() {
    // Row 0: low plane 0xFF, high 0x00 -> index 1 everywhere; row 1: index 3 everywhere.
    let mut data = [0u8; 16];
    data[0] = 0xFF;
    data[2] = 0xFF;
    data[3] = 0xFF;
    let tile = Tile::construct(0xE4, &data);
    assert_eq!(tile.texture()[0][0], 0x88C0_70FF);
    assert_eq!(tile.texture()[1][7], 0x0818_20FF);
    assert_eq!(tile.texture()[2][3], 0xE0F8_D0FF);
    let short = Tile::construct(0xE4, &data[..2]);
    assert_eq!(short.texture[1][0], 0);
    let sprite = Tile::sprite_construct(0xE4, &data);
    assert_eq!(sprite.texture[2][0], 0xE0F8_D000);
    assert_eq!(sprite.texture[1][0], 0x0818_20FF);
    assert_eq!(Tile::range(32), 32..48);
}

#[test]
fn tile_write_matches_decoding() {
    let mut data = [0u8; 16];
    for (i, b) in data.iter_mut().enumerate() {
        *b = (i as u8).wrapping_mul(37);
    }
    let tile = Tile::construct(0x1B, &data);
    let mut pixels = PixelData::zeros(24, 16);
    Tile::write(0x1B, &mut pixels, (1, 2), &data);
    for y in 0..8 {
        for x in 0..8 {
            assert_eq!(pixels.get(16 + y, 8 + x), tile.texture[y][x]);
        }
    }
    assert_eq!(pixels.get(0, 0), 0);
    assert_eq!(pixels.rows(), 24);
    assert_eq!(pixels.cols(), 16);
}

#[test]
fn controller_from_a_closure() {
    let mut n = 0u8;
    let mut f = || {
        n += 1;
        Ok::<u8, String>(n)
    };
    assert_eq!(f.cycle(), Ok(1));
    assert_eq!(f.cycle(), Ok(2));
}

#[test]
fn operand_values_and_locations() {
    assert_eq!(Value::from(5u8).into_byte(), 5);
    assert_eq!(Value::from(0x1234u16).into_word(), 0x1234);
    assert_eq!(u8::from(Read::Word(0x1234)), 0x34);
    assert_eq!(u16::from(Read::Byte(0x12)), 0x12);
    assert_eq!(Read::from(7u8), Read::Byte(7));
    assert!(Register::HL.is_word_register());
    assert!(!Register::AF.is_word_register());
    assert!(Address::Register(Register::SP).is_word_register());
    assert!(!Address::Memory(Register::HL).is_word_register());
}

#[test]
fn timer_interrupt_goes_before_serial() {
    let mut cpu = CPU::new();
    let mut bus = Bus::new(&[], None);
    cpu.registers.sp = 0xFFFE;
    cpu.state = CPUState::Interrupted(Stage::Fetch);
    bus.ime = 1;
    bus.int_enabled = 0x1F;
    bus.int_flags = TIMER | 0x08;
    cpu.step(&mut bus);
    assert_eq!(cpu.op_addr, 0x50);
    assert_eq!(bus.int_flags & TIMER, 0);
    assert_eq!(bus.int_flags & 0x08, 0x08);
}

struct Unset;

impl Controller for Unset {
    type Output = u8;
}

#[test]
fn controller_without_setup_fails() {
    let mut c = Unset;
    assert_eq!(c.cycle(), Err(String::from("Controller not initialized.")));
}

#[test]
fn halt_takes_its_fetch_then_halts() {
    let mut cpu = CPU::new();
    let mut bus = Bus::new(&[0x76], None);
    bus.rom_start_signal = false;
    bus.int_enabled = JOYPAD;
    cpu.step(&mut bus);
    assert_eq!(cpu.state, CPUState::Running(Stage::Execute));
    assert_eq!(bus.mclock(), 1);
    cpu.step(&mut bus);
    assert_eq!(cpu.state, CPUState::Halted);
    assert_eq!(bus.mclock(), 1);
    cpu.step(&mut bus);
    assert_eq!(cpu.state, CPUState::Halted);
    assert_eq!(bus.mclock(), 2);
}

#[test]
fn halt_with_no_interrupt_enabled_goes_on() {
    let mut cpu = CPU::new();
    let mut bus = Bus::new(&[0x76], None);
    bus.rom_start_signal = false;
    cpu.step(&mut bus);
    cpu.step(&mut bus);
    assert_eq!(cpu.state, CPUState::Running(Stage::Fetch));
    assert_eq!(bus.mclock(), 1);
}

#[test]
fn state_text_matches_the_formats() {
    let mut emu = Emu::new(&[], None);
    let _ = emu.run_until(300);
    let r = &emu.cpu.registers;
    assert_eq!(
        r.to_string(),
        format!(
            "PC:{:04x} SP:{:04x} A:{:02x} F:{:04b} B:{:02x} C:{:02x} D:{:02x} E:{:02x} H:{:02x} L:{:02x}",
            r.pc, r.sp, r.a, r.f, r.b, r.c, r.d, r.e, r.h, r.l
        )
    );
    assert_eq!(emu.cpu.to_string(), r.to_string());
    let t = &emu.bus.timer;
    assert_eq!(
        t.to_string(),
        format!(
            "DIV:{:02x} TIMA:{:02x} TMA:{:02x} TAC:{:?} ({}) internal:{:016b}",
            t.div(),
            t.tima,
            t.tma,
            t.clock_speed(),
            if t.is_enabled() { "ON" } else { "OFF" },
            t.internal
        )
    );
    let b = &emu.bus;
    assert_eq!(
        b.to_string(),
        format!(
            "CLK: {}, IE: {:08b}, IF: {:08b}\n[TIMER]: {}\n[BTNS]: {:08b}\n[ARWS]: {:08b}",
            b.mclock(),
            b.int_enabled,
            b.int_flags,
            t.to_string(),
            b.keypresses,
            b.directions
        )
    );
    let g = &emu.bus.gpu;
    assert_eq!(
        g.to_string(),
        format!(
            "LCDC: {:08b}\nLCD On: {}, \nWindow Tile Map Display Select: {:04X}-{:04X}\nWindow Display Enable: {} \nBG+Window Tile Data Select: {:04X}-{:04X}\nBG Tile Map Display Select: {:04X}-{:04X}\nSprite Size: {:?} \nSprite Display Enable: {} \nBG Display: {}\nSTAT: {:08b}",
            0x91u8, true, 0x9800, 0x9BFF, false, 0x0000, 0x0FFF, 0x9800, 0x9BFF, g.sprite_size(), false, true, g.lcdstat
        )
    );
}

#[test]
fn checked_run_ends_where_run_until_ends() {
    let mut checked = Emu::new(&[], None);
    let mut plain = Emu::new(&[], None);
    assert!(checked.can_step());
    assert_eq!(checked.run_until_checked(100), Some(100));
    assert_eq!(plain.run_until(100), 100);
    assert_eq!(checked.cpu.registers.pc, plain.cpu.registers.pc);
    assert_eq!(checked.cpu.registers.a, plain.cpu.registers.a);
    assert_eq!(checked.cpu.registers.sp, plain.cpu.registers.sp);
    assert_eq!(checked.cpu.state, plain.cpu.state);
    assert_eq!(checked.bus.timer.mclock, plain.bus.timer.mclock);
    assert_eq!(checked.run_until_checked(50), Some(100));
}

#[test]
fn checked_run_stops_before_a_write_to_ly() {
    let mut rom = vec![0u8; 0x200];
    // LD A, 0xFF; LDH (0x44), A
    rom[0x100] = 0x3E;
    rom[0x101] = 0xFF;
    rom[0x102] = 0xE0;
    rom[0x103] = 0x44;
    let mut emu = Emu::new(&rom, None);
    assert_eq!(emu.run_until_checked(1000), None);
    assert_eq!(emu.cpu.state, CPUState::Running(Stage::Execute));
    assert_eq!(emu.cpu.opcode, 0xE0);
    assert_eq!(emu.cpu.op_addr, 0x102);
    assert_eq!(emu.cpu.registers.a, 0xFF);
    assert!(!emu.can_step());
    assert_eq!(emu.bus.mclock(), 3);
}

#[test]
fn checked_run_takes_a_write_elsewhere_in_io() {
    let mut rom = vec![0u8; 0x200];
    // LD A, 0x07; LDH (0x45), A  (LYC, next to LY)
    rom[0x100] = 0x3E;
    rom[0x101] = 0x07;
    rom[0x102] = 0xE0;
    rom[0x103] = 0x45;
    let mut emu = Emu::new(&rom, None);
    assert_eq!(emu.run_until_checked(10), Some(10));
    assert_eq!(emu.bus.read(0xFF45), 0x07);
}

#[test]
fn checked_run_stops_before_an_invalid_opcode() {
    let mut rom = vec![0u8; 0x200];
    rom[0x100] = 0xD3;
    let mut emu = Emu::new(&rom, None);
    assert_eq!(emu.run_until_checked(1000), None);
    assert_eq!(emu.cpu.state, CPUState::Running(Stage::Execute));
    assert_eq!(decode(emu.cpu.opcode), Instr::Invalid);
    assert_eq!(emu.bus.mclock(), 1);
}
