use rust_emu::bus::Bus;
use rust_emu::cpu::{CPUState, Stage, CPU};

// Opcode timings in T-cycles; 0 marks an instruction of variable timing.
const EXPECTED_TICKS: [usize; 256] = [
    4, 12, 8, 8, 4, 4, 8, 4, 20, 8, 8, 8, 4, 4, 8, 4, 4, 12, 8, 8, 4, 4, 8, 4, 12, 8, 8, 8, 4, 4,
    8, 4, 0, 12, 8, 8, 4, 4, 8, 4, 0, 8, 8, 8, 4, 4, 8, 4, 0, 12, 8, 8, 12, 12, 12, 4, 0, 8, 8, 8,
    4, 4, 8, 4, 4, 4, 4, 4, 4, 4, 8, 4, 4, 4, 4, 4, 4, 4, 8, 4, 4, 4, 4, 4, 4, 4, 8, 4, 4, 4, 4, 4,
    4, 4, 8, 4, 4, 4, 4, 4, 4, 4, 8, 4, 4, 4, 4, 4, 4, 4, 8, 4, 8, 8, 8, 8, 8, 8, 4, 8, 4, 4, 4, 4,
    4, 4, 8, 4, 4, 4, 4, 4, 4, 4, 8, 4, 4, 4, 4, 4, 4, 4, 8, 4, 4, 4, 4, 4, 4, 4, 8, 4, 4, 4, 4, 4,
    4, 4, 8, 4, 4, 4, 4, 4, 4, 4, 8, 4, 4, 4, 4, 4, 4, 4, 8, 4, 4, 4, 4, 4, 4, 4, 8, 4, 4, 4, 4, 4,
    4, 4, 8, 4, 0, 12, 0, 16, 0, 16, 8, 16, 0, 16, 0, 0, 0, 24, 8, 16, 0, 12, 0, 0, 0, 16, 8, 16,
    0, 16, 0, 0, 0, 0, 8, 16, 12, 12, 8, 0, 0, 16, 8, 16, 16, 4, 16, 0, 0, 0, 8, 16, 12, 12, 8, 4,
    0, 16, 8, 16, 12, 8, 16, 4, 0, 0, 8, 16,
];

/// M-cycles from the fetch of `op` (at address 0) until the CPU is back at a fetch.
fn time_instr(op: u8) -> usize {
    let mut cpu = CPU::new();
    let bootrom = [0u8; 0x100];
    let mut bus = Bus::new(&[], Some(&bootrom));
    bus.in_bios = 1;
    bus.memory[0] = op;
    let before = bus.mclock();
    let mut prev = cpu.state;
    for _ in 0..10 {
        if prev == CPUState::Running(Stage::Execute) && cpu.state == CPUState::Running(Stage::Fetch) {
            break;
        }
        prev = cpu.state;
        cpu.step(&mut bus);
    }
    bus.mclock() - before
}

#[test]
fn ticks_expected() {
    let mut wrong = Vec::new();
    for op in 0..=255u8 {
        let ticks = EXPECTED_TICKS[op as usize];
        if ticks == 0 {
            continue;
        }
        let t = time_instr(op);
        if t != ticks / 4 {
            wrong.push((op, t, ticks / 4));
        }
    }
    assert!(wrong.is_empty(), "{wrong:?}");
}
