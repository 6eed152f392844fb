use rust_emu::bus::Bus;
use rust_emu::cpu::{swapped_nibbles, CPU};
use rust_emu::instructions::alu::{add, ccf, cp, cpl, daa, scf, sub};
use rust_emu::instructions::decode;
use rust_emu::operand::Src8;
use rust_emu::instructions::cb::swap_nibbles;
use rust_emu::operand::{Reg16, Reg8};
use rust_emu::registers::{flags, RegisterState};

#[test]
fn set_r8_reads_back_and_leaves_others() {
    let mut reg = RegisterState::new();
    reg.b = 0x99;
    reg.set_r8(Reg8::C, 0x42);
    assert_eq!(reg.get_r8(Reg8::C), 0x42);
    assert_eq!(reg.get_r8(Reg8::B), 0x99);
    reg.set_r8(Reg8::F, 0xAB);
    assert_eq!(reg.get_r8(Reg8::F), 0xA0);
}

#[test]
fn set_r16_leaves_other_pairs() {
    let mut reg = RegisterState::new();
    reg.set_r16(Reg16::DE, 0xBEEF);
    reg.set_r16(Reg16::BC, 0x1234);
    assert_eq!(reg.get_r16(Reg16::DE), 0xBEEF);
    assert_eq!(reg.get_r16(Reg16::BC), 0x1234);
    assert_eq!(reg.get_r16(Reg16::HL), 0);
}

#[test]
fn inc_then_dec_restores_pair() {
    let mut reg = RegisterState::new();
    reg.set_r16(Reg16::HL, 0xFFFF);
    reg.inc_r16(Reg16::HL);
    reg.dec_r16(Reg16::HL);
    assert_eq!(reg.get_r16(Reg16::HL), 0xFFFF);
}

#[test]
fn inc_then_dec_of_af_loses_the_low_nibble() {
    let mut reg = RegisterState::new();
    reg.set_r16(Reg16::AF, 0x1200);
    reg.inc_r16(Reg16::AF);
    assert_eq!(reg.get_r16(Reg16::AF), 0x1200);
    reg.dec_r16(Reg16::AF);
    assert_eq!(reg.get_r16(Reg16::AF), 0x11F0);
}

#[test]
fn one_flag_setter_keeps_the_others() {
    let mut reg = RegisterState::new();
    reg.f = flags(true, false, true, false);
    reg.set_cf(true);
    assert!(reg.flg_z() && !reg.flg_n() && reg.flg_h() && reg.flg_c());
    reg.set_zf(false);
    assert!(!reg.flg_z() && reg.flg_h() && reg.flg_c());
    assert_eq!(reg.f & 0x0F, 0);
}

#[test]
fn swapping_nibbles_twice_is_identity() {
    for b in 0..=255u8 {
        assert_eq!(swap_nibbles(swap_nibbles(b)), b);
        assert_eq!(swapped_nibbles(b), swap_nibbles(b));
    }
    assert_eq!(swapped_nibbles(0x3C), 0xC3);
}

#[test]
fn cpl_twice_restores_a() {
    let mut cpu = CPU::new();
    cpu.registers.a = 0x5A;
    cpl(&mut cpu);
    assert_eq!(cpu.registers.a, 0xA5);
    cpl(&mut cpu);
    assert_eq!(cpu.registers.a, 0x5A);
    assert!(cpu.registers.flg_n() && cpu.registers.flg_h());
}

#[test]
fn scf_then_ccf_clears_carry() {
    let mut cpu = CPU::new();
    cpu.registers.f = flags(true, true, true, false);
    scf(&mut cpu);
    assert!(cpu.registers.flg_c() && cpu.registers.flg_z());
    assert!(!cpu.registers.flg_n() && !cpu.registers.flg_h());
    ccf(&mut cpu);
    assert!(!cpu.registers.flg_c());
    ccf(&mut cpu);
    assert!(cpu.registers.flg_c());
}

#[test]
fn ram_reads_back_what_was_written() {
    let mut bus = Bus::new(&[], None);
    bus.write(0xC000, 0x42);
    bus.write(0xFF80, 0x17);
    bus.write(0xA123, 0x99);
    assert_eq!(bus.read(0xC000), 0x42);
    assert_eq!(bus.read(0xFF80), 0x17);
    assert_eq!(bus.read(0xA123), 0x99);
    assert_eq!(bus.read(0xC001), 0x00);
}

#[test]
fn io_registers_read_back() {
    let mut bus = Bus::new(&[], None);
    bus.write(0xFF07, 0x05); // TAC keeps three bits, the rest read 1
    assert_eq!(bus.read(0xFF07), 0xFD);
    bus.write(0xFF06, 0x77); // TMA
    assert_eq!(bus.read(0xFF06), 0x77);
    bus.write(0xFFFF, 0x1F); // IE
    assert_eq!(bus.read(0xFFFF), 0x1F);
    bus.write(0xFF42, 0x33); // SCY
    assert_eq!(bus.read(0xFF42), 0x33);
    bus.write(0xFF04, 0x99); // DIV resets
    assert_eq!(bus.read(0xFF04), 0x00);
}

#[test]
fn push_then_pop_gives_the_word_back() {
    let mut cpu = CPU::new();
    let mut bus = Bus::new(&[], None);
    cpu.registers.sp = 0xFFFE;
    cpu.push_stack(0xBEEF, &mut bus);
    assert_eq!(cpu.registers.sp, 0xFFFC);
    assert_eq!(bus.read(0xFFFD), 0xBE);
    assert_eq!(bus.read(0xFFFC), 0xEF);
    let v = cpu.pop_stack(&mut bus);
    assert_eq!(v, 0xBEEF);
    assert_eq!(cpu.registers.sp, 0xFFFE);
    assert_eq!(bus.mclock(), 4);
}

#[test]
fn daa_gives_bcd_sums_and_differences() {
    let cases_add = [(0x45u8, 0x38u8, 0x83u8, false), (0x99, 0x01, 0x00, true), (0x50, 0x50, 0x00, true), (0x09, 0x09, 0x18, false)];
    for (x, y, want, carry) in cases_add {
        let mut cpu = CPU::new();
        let mut bus = Bus::new(&[], None);
        cpu.registers.a = x;
        cpu.registers.b = y;
        add(Src8::Reg(Reg8::B), &mut cpu, &mut bus);
        daa(&mut cpu);
        assert_eq!(cpu.registers.a, want);
        assert_eq!(cpu.registers.flg_c(), carry);
        assert_eq!(cpu.registers.flg_z(), want == 0);
        assert!(!cpu.registers.flg_h());
    }
    let cases_sub = [(0x10u8, 0x01u8, 0x09u8, false), (0x01, 0x02, 0x99, true), (0x42, 0x42, 0x00, false)];
    for (x, y, want, borrow) in cases_sub {
        let mut cpu = CPU::new();
        let mut bus = Bus::new(&[], None);
        cpu.registers.a = x;
        cpu.registers.b = y;
        sub(Src8::Reg(Reg8::B), &mut cpu, &mut bus);
        daa(&mut cpu);
        assert_eq!(cpu.registers.a, want);
        assert_eq!(cpu.registers.flg_c(), borrow);
        assert!(cpu.registers.flg_n());
    }
}

#[test]
fn cp_sets_the_flags_sub_would() {
    for (x, y) in [(0x42u8, 0x42u8), (0x42, 0x10), (0x10, 0x42), (0x1F, 0x0F)] {
        let (mut c1, mut b1) = (CPU::new(), Bus::new(&[], None));
        let (mut c2, mut b2) = (CPU::new(), Bus::new(&[], None));
        c1.registers.a = x;
        c1.registers.c = y;
        c2.registers.a = x;
        c2.registers.c = y;
        cp(Src8::Reg(Reg8::C), &mut c1, &mut b1);
        sub(Src8::Reg(Reg8::C), &mut c2, &mut b2);
        assert_eq!(c1.registers.a, x);
        assert_eq!(c1.registers.f, c2.registers.f);
        assert_eq!(b1.mclock(), b2.mclock());
    }
}

#[test]
fn reads_consume_immediate_bytes() {
    let mut cpu = CPU::new();
    let mut bus = Bus::new(&[0x00, 0x34, 0x12], None);
    cpu.registers.pc = 1;
    assert_eq!(Src8::MemImm.imm_bytes(), 2);
    Src8::MemImm.read(&mut cpu, &mut bus);
    assert_eq!(cpu.registers.pc, 3);
    assert_eq!(bus.mclock(), 3);
    Src8::Reg(Reg8::A).read(&mut cpu, &mut bus);
    assert_eq!(bus.mclock(), 3);
}

#[test]
fn running_an_instruction_passes_its_operands() {
    let mut cpu = CPU::new();
    let mut bus = Bus::new(&[0x01, 0xCD, 0xAB], None);
    cpu.registers.pc = 1; // after the fetch of LD BC, nn
    let i = decode(0x01);
    assert_eq!(i.length(), 3);
    let _ = i.run(&mut cpu, &mut bus);
    assert_eq!(cpu.registers.pc, 3);
    assert_eq!(cpu.registers.get_r16(Reg16::BC), 0xABCD);
}

#[test]
fn cycles_only_add_interrupt_requests() {
    let mut bus = Bus::new(&[], None);
    bus.int_flags = 0x1F;
    bus.generic_cycle();
    assert_eq!(bus.int_flags & 0x1F, 0x1F);
}
