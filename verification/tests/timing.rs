use rust_emu::cpu::interrupts::{TIMER, VBLANK};
use rust_emu::gpu::{GpuMode, SpriteSize, GPU, LCDC};
use rust_emu::timer::{ClockSpeed, Timer};

#[test]
fn tima_counts_at_the_selected_rate() {
    let mut t = Timer::new();
    let mut flags = 0u8;
    t.write_tac(0x05); // enabled, 262144 Hz: a TIMA tick every 16 T-cycles
    assert_eq!(t.read_tac(), 0xFD);
    assert!(t.is_enabled());
    assert_eq!(t.clock_speed(), ClockSpeed::Hz262144);
    assert_eq!(t.clock_speed().frequency(), 262_144);
    for _ in 0..3 {
        t.tick(&mut flags);
    }
    assert_eq!(t.tima, 0);
    t.tick(&mut flags);
    assert_eq!(t.tima, 1);
    assert_eq!(t.mclock, 4);
    assert_eq!(flags, 0);
}

#[test]
fn tima_overflow_reloads_and_requests_interrupt() {
    let mut t = Timer::new();
    let mut flags = 0u8;
    t.write_tac(0x05);
    t.tima = 0xFF;
    t.tma = 0x10;
    for _ in 0..4 {
        t.tick(&mut flags);
    }
    assert_eq!(t.tima, 0x10);
    assert_eq!(flags & TIMER, TIMER);
}

#[test]
fn stopped_timer_only_moves_div() {
    let mut t = Timer::new();
    let mut flags = 0u8;
    t.write_tac(0x01);
    for _ in 0..64 {
        t.tick(&mut flags);
    }
    assert_eq!(t.tima, 0);
    assert_eq!(t.div(), 1);
    assert_eq!(t.read_div(), 1);
    t.write_div(0x55);
    assert_eq!(t.read_div(), 0);
    assert_eq!(ClockSpeed::Hz4096.frequency(), 4096);
}

#[test]
fn lcd_off_does_nothing() {
    let mut g = GPU::new();
    let mut flag = 0u8;
    for _ in 0..1000 {
        g.cycle(&mut flag);
    }
    assert_eq!(g.clock, 0);
    assert_eq!(g.scanline, 0);
    assert_eq!(flag, 0);
}

#[test]
fn vblank_starts_after_144_lines() {
    let mut g = GPU::new();
    g.lcdc = LCDC::from_bits_retain(0x91);
    let mut flag = 0u8;
    for _ in 0..(144 * 456 - 1) {
        g.cycle(&mut flag);
    }
    assert_eq!(flag & VBLANK, 0);
    assert_eq!(g.scanline, 143);
    g.cycle(&mut flag);
    assert_eq!(flag & VBLANK, VBLANK);
    assert_eq!(g.scanline, 144);
    assert_eq!(g.mode, GpuMode::VBlank);
    assert_eq!(g.vblank_count, 1);
}

#[test]
fn first_line_is_drawn_from_tile_zero() {
    let mut g = GPU::new();
    g.lcdc = LCDC::from_bits_retain(0x91);
    g.bgrdpal = 0xE4;
    // Tile 0, every row: low plane set, high plane clear -> colour index 1.
    for row in 0..8 {
        g.vram[row * 2] = 0xFF;
    }
    let mut flag = 0u8;
    for _ in 0..(80 + 172) {
        g.cycle(&mut flag);
    }
    assert_eq!(g.mode, GpuMode::HBlank);
    for x in 0..160 {
        assert_eq!(g.framebuffer.get(0, x), 0x88C0_70FF);
    }
    assert_eq!(g.framebuffer.get(1, 0), 0);
}

#[test]
fn sprite_size_follows_lcdc_bit_2() {
    let mut g = GPU::new();
    assert_eq!(g.sprite_size(), SpriteSize::Square);
    g.lcdc = LCDC::from_bits_retain(rust_emu::gpu::OBJ_SIZE);
    assert_eq!(g.sprite_size(), SpriteSize::Tall);
}
