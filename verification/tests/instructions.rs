use rust_emu::bus::Bus;
use rust_emu::cpu::CPU;
use rust_emu::instructions::cb::swap_nibbles;
use rust_emu::instructions::jp::jr;
use rust_emu::instructions::ld;
use rust_emu::instructions::Flag;
use rust_emu::operand::{Dst8, Reg8, Src8};

#[test]
fn test_swap_nibbles() {
    assert_eq!(swap_nibbles(0x12), 0x21);
    assert_eq!(swap_nibbles(0xAB), 0xBA);
    assert_eq!(swap_nibbles(0x00), 0x00);
    assert_eq!(swap_nibbles(0xFF), 0xFF);
}

#[test]
fn jr_negative_offset() {
    let mut cpu = CPU::new();
    // A boot ROM is mapped, so the low addresses read from it.
    let bootrom = [0u8; 0x100];
    let mut bus = Bus::new(&[], Some(&bootrom));
    cpu.registers.pc = 0x000A + 1;
    bus.bootrom[0x0007] = 0x76;
    bus.bootrom[0x000A] = 0x20;
    bus.bootrom[0x000B] = 0xFB; // -5

    assert_eq!(cpu.registers.pc, 0x000B);
    jr(Some(Flag::FlagNZ), &mut cpu, &mut bus);
    assert_eq!(cpu.registers.pc, 0x0007);
}

#[test]
fn ld8_reg_to_reg() {
    let mut cpu = CPU::new();
    let mut bus = Bus::new(&[], None);
    cpu.registers.a = 5;
    cpu.registers.b = 8;
    assert_eq!(cpu.registers.a, 0x5);
    ld::ld8(Dst8::Reg(Reg8::A), Src8::Reg(Reg8::B), &mut cpu, &mut bus);
    assert_eq!(cpu.registers.a, 0x8);
}
