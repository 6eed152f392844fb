//! The memory bus: the address map, memory-mapped I/O registers, OAM DMA,
//! and the M-cycle clock that drives the PPU and the timer.

pub mod addr;

use crate::framebuffer::pixel_shape;
use crate::gpu::{self, lemma_cycle_keeps_inv, GpuView, GPU, LCDC};
use crate::cpu::interrupts::JOYPAD;
use crate::registers::wrap16;
use crate::timer::{addr as timer_addr, Timer};
use crate::text::{append_bin_padded, append_dec, bin_text, bin_width, dec_text};
use vstd::prelude::*;

verus! {

/// Which half of the joypad the program selected through 0xFF00.
#[derive(Debug, Clone, Copy, PartialEq, Eq, Structural)]
pub enum Select {
    Buttons,
    Directions,
    Neither,
}

/// A joypad button. The direction pad reads through 0xFF00 with
/// `Select::Directions`, the other four with `Select::Buttons`.
#[derive(Debug, Clone, Copy, PartialEq, Eq, Structural)]
pub enum Button {
    Down,
    Up,
    Left,
    Right,
    Start,
    Select,
    A,
    B,
}

impl Button {
    /// Whether the button is on the direction pad.
    pub open spec fn is_direction(self) -> bool {
        self is Down || self is Up || self is Left || self is Right
    }

    /// The button's line in its half of the joypad register.
    pub open spec fn mask(self) -> u8 {
        match self {
            Button::Down | Button::Start => 0b1000,
            Button::Up | Button::Select => 0b0100,
            Button::Left | Button::B => 0b0010,
            Button::Right | Button::A => 0b0001,
        }
    }
}

/// Number of bytes an OAM DMA transfer copies.
pub const DMA_LENGTH: u16 = 0xA0;

/// Abstract state of the bus.
pub struct BusView {
    pub memory: Seq<u8>,
    pub bootrom: Seq<u8>,
    pub in_bios: u8,
    pub int_enabled: u8,
    pub int_flags: u8,
    pub mclock: usize,
    pub ime: u8,
    pub select: Select,
    pub directions: u8,
    pub keypresses: u8,
    pub gpu: GpuView,
    pub rom_start_signal: bool,
    pub timer: Timer,
    pub io: Seq<char>,
}

// Global emu struct.
pub struct Bus {
    pub memory: Vec<u8>,
    pub bootrom: Vec<u8>,
    pub in_bios: u8,
    pub int_enabled: u8,
    pub int_flags: u8,
    /// CPU clock M-cycles
    pub mclock: usize,
    pub ime: u8,
    pub select: Select,
    pub directions: u8,
    pub keypresses: u8,
    pub gpu: GPU,
    pub rom_start_signal: bool,
    pub timer: Timer,
    pub io: String,
}

impl View for Bus {
    type V = BusView;

    open spec fn view(&self) -> BusView {
        BusView {
            memory: self.memory@,
            bootrom: self.bootrom@,
            in_bios: self.in_bios,
            int_enabled: self.int_enabled,
            int_flags: self.int_flags,
            mclock: self.mclock,
            ime: self.ime,
            select: self.select,
            directions: self.directions,
            keypresses: self.keypresses,
            gpu: self.gpu@,
            rom_start_signal: self.rom_start_signal,
            timer: self.timer,
            io: self.io@,
        }
    }
}

/// The joypad selection a write of `value` to 0xFF00 makes.
pub open spec fn select_for(value: u8) -> Select {
    if value & 0x30 == 0x10 {
        Select::Buttons
    } else if value & 0x30 == 0x20 {
        Select::Directions
    } else {
        Select::Neither
    }
}

/// Addresses that are plain work RAM, echo RAM or high RAM: a write stores
/// the byte in main memory and nothing else happens.
pub open spec fn is_ram(address: u16) -> bool {
    (0xA000 <= address <= 0xFDFF || 0xFEA0 <= address <= 0xFF7F || 0xFF81 <= address <= 0xFFFE)
        && address != timer_addr::DIV && address != timer_addr::TAC && address
        != timer_addr::TIMA && address != timer_addr::TMA && !(0xFF40 <= address <= 0xFF4B)
        && address != addr::IF && address != addr::BOOTROM_DISABLE && address != addr::JOYPAD
        && address != addr::SERIAL_CTRL
}

/// The bus `Bus::new` makes: `rom` at address 0 and zeros after it; with a
/// boot ROM it is mapped in, without one it is skipped and the start-up
/// values are due; every register, counter and the PPU in their initial state.
pub open spec fn initial_bus(rom: Seq<u8>, bootrom: Option<Seq<u8>>) -> BusView {
    BusView {
        memory: rom + Seq::new((0x10000 - rom.len()) as nat, |i: int| 0u8),
        bootrom: match bootrom {
            Some(b) => b,
            None => Seq::new(0x100, |i: int| 0u8),
        },
        in_bios: if bootrom is Some {
            0
        } else {
            1
        },
        int_enabled: 0,
        int_flags: 0,
        mclock: 0,
        ime: 0,
        select: Select::Buttons,
        directions: 0,
        keypresses: 0,
        gpu: gpu::initial_view(),
        rom_start_signal: bootrom is None,
        timer: Timer::spec_new(),
        io: Seq::empty(),
    }
}

impl BusView {
    /// What every bus operation keeps: memory sizes, a consistent PPU, and a
    /// frame counter no ahead of the cycle counter.
    pub open spec fn inv(self) -> bool {
        &&& self.memory.len() == 0x10000
        &&& self.bootrom.len() == 0x100
        &&& self.gpu.inv()
        &&& self.gpu.vblank_count <= self.mclock
    }

    /// Both cycle counters can advance `n` more times without overflow.
    pub open spec fn room(self, n: int) -> bool {
        &&& self.mclock + n <= usize::MAX
        &&& self.timer.mclock + n <= usize::MAX
    }

    /// One M-cycle: the clock ticks, the PPU and then the timer advance,
    /// each possibly requesting an interrupt.
    #[verifier::opaque]
    pub open spec fn cycle(self) -> BusView {
        let (g, f1) = self.gpu.cycle_spec(self.int_flags);
        let (t, f2) = self.timer.tick_spec(f1);
        BusView { mclock: (self.mclock + 1) as usize, gpu: g, timer: t, int_flags: f2, ..self }
    }

    /// The byte a read of `address` returns (no time passes).
    #[verifier::opaque]
    pub open spec fn read(self, address: u16) -> u8 {
        if address <= 0x00FF && self.in_bios == 0 {
            self.bootrom[address as int]
        } else if address == timer_addr::DIV {
            self.timer.spec_div()
        } else if address == timer_addr::TAC {
            self.timer.spec_read_tac()
        } else if address == timer_addr::TMA {
            self.timer.tma
        } else if address == timer_addr::TIMA {
            self.timer.tima
        } else if address == gpu::LCDC_ADDR {
            self.gpu.lcdc
        } else if address == gpu::STAT_ADDR {
            self.gpu.lcdstat
        } else if address == gpu::SCY_ADDR {
            self.gpu.scrolly
        } else if address == gpu::SCX_ADDR {
            self.gpu.scrollx
        } else if address == gpu::LY_ADDR {
            self.gpu.scanline
        } else if address == gpu::BGP_ADDR {
            self.gpu.bgrdpal
        } else if address == gpu::WY_ADDR {
            self.gpu.windowy
        } else if address == gpu::WX_ADDR {
            self.gpu.windowx
        } else if address == addr::IE {
            self.int_enabled
        } else if address == addr::IF {
            self.int_flags
        } else if address == addr::JOYPAD {
            match self.select {
                Select::Buttons => self.keypresses,
                Select::Directions => self.directions,
                Select::Neither => 0xFF,
            }
        } else if gpu::VRAM_START_U16 <= address <= gpu::VRAM_END_U16 {
            self.gpu.vram[address - 0x8000]
        } else if gpu::OAM_START_U16 <= address <= gpu::OAM_END_U16 {
            self.gpu.oam[address - 0xFE00]
        } else {
            self.memory[address as int]
        }
    }

    /// `k` steps of an OAM DMA transfer from main memory at `src`: each
    /// copies one byte and takes one M-cycle.
    #[verifier::opaque]
    pub open spec fn dma(self, src: int, k: nat) -> BusView
        decreases k,
    {
        if k == 0 {
            self
        } else {
            let b = self.dma(src, (k - 1) as nat);
            let i = k - 1;
            BusView {
                gpu: GpuView { oam: b.gpu.oam.update(i, b.memory[src + i]), ..b.gpu },
                ..b
            }.cycle()
        }
    }

    /// The bus after a write of `value` to `address` (time passes only for DMA).
    #[verifier::opaque]
    pub open spec fn write(self, address: u16, value: u8) -> BusView {
        if address <= 0x00FF && self.in_bios == 0 {
            self
        } else if address == timer_addr::DIV {
            BusView { timer: self.timer.with_internal(0), ..self }
        } else if address == timer_addr::TAC {
            BusView { timer: self.timer.with_tac_written(value), ..self }
        } else if address == timer_addr::TIMA {
            BusView { timer: self.timer.with_tima(value), ..self }
        } else if address == timer_addr::TMA {
            BusView { timer: Timer { tma: value, ..self.timer }, ..self }
        } else if address == gpu::LCDC_ADDR {
            BusView { gpu: GpuView { lcdc: value, ..self.gpu }, ..self }
        } else if address == gpu::STAT_ADDR {
            BusView { gpu: GpuView { lcdstat: value, ..self.gpu }, ..self }
        } else if address == gpu::SCY_ADDR {
            BusView { gpu: GpuView { scrolly: value, ..self.gpu }, ..self }
        } else if address == gpu::SCX_ADDR {
            BusView { gpu: GpuView { scrollx: value, ..self.gpu }, ..self }
        } else if address == gpu::LY_ADDR {
            BusView { gpu: GpuView { scanline: value, ..self.gpu }, ..self }
        } else if address == gpu::DMA_ADDR {
            self.dma(value * 256, DMA_LENGTH as nat)
        } else if address == gpu::BGP_ADDR {
            BusView { gpu: GpuView { bgrdpal: value, ..self.gpu }, ..self }
        } else if address == gpu::OBP0_ADDR {
            BusView { gpu: GpuView { obj0pal: value, ..self.gpu }, ..self }
        } else if address == gpu::OBP1_ADDR {
            BusView { gpu: GpuView { obj1pal: value, ..self.gpu }, ..self }
        } else if address == gpu::WY_ADDR {
            BusView { gpu: GpuView { windowy: value, ..self.gpu }, ..self }
        } else if address == gpu::WX_ADDR {
            BusView { gpu: GpuView { windowx: value, ..self.gpu }, ..self }
        } else if address == addr::IE {
            BusView { int_enabled: value, ..self }
        } else if address == addr::IF {
            BusView { int_flags: value, ..self }
        } else if address == addr::BOOTROM_DISABLE {
            BusView {
                rom_start_signal: if value != 0 {
                    true
                } else {
                    self.rom_start_signal
                },
                in_bios: value,
                ..self
            }
        } else if address == addr::JOYPAD {
            BusView { select: select_for(value), ..self }
        } else if address == addr::SERIAL_DATA || address == addr::HRAM_START {
            BusView { memory: self.memory.update(address as int, value), ..self }
        } else if address == addr::SERIAL_CTRL {
            BusView {
                io: if value == 0x81 {
                    self.io.push(self.memory[addr::SERIAL_DATA as int] as char)
                } else {
                    self.io
                },
                memory: self.memory.update(address as int, value),
                ..self
            }
        } else if gpu::VRAM_START_U16 <= address <= gpu::VRAM_END_U16 {
            BusView {
                gpu: GpuView { vram: self.gpu.vram.update(address - 0x8000, value), ..self.gpu },
                ..self
            }
        } else if gpu::OAM_START_U16 <= address <= gpu::OAM_END_U16 {
            BusView {
                gpu: GpuView { oam: self.gpu.oam.update(address - 0xFE00, value), ..self.gpu },
                ..self
            }
        } else if (0xA000 <= address <= 0xFDFF) || (0xFEA0 <= address <= 0xFF7F) || (0xFF81
            <= address <= 0xFFFE) {
            BusView { memory: self.memory.update(address as int, value), ..self }
        } else {
            self
        }
    }

    /// A write the PPU can take: a value written to LY must be a scanline
    /// that fits the current mode (`gpu::scanline_fits`).
    ///
    /// The register itself would store any byte, and the write alone does no
    /// harm. What follows it does: outside vertical blank, a line of 144 or
    /// more is the next one drawn (at once, or after the line count moves on
    /// from horizontal blank), and the PPU then stores pixels in a frame row
    /// that does not exist, which panics; in vertical blank, a line of 154 or
    /// more never meets the end of the blank, and the line count overflows.
    /// Every function of the PPU keeps the scanline fitting the mode, so the
    /// one place where a value that does not fit can come in is this write:
    /// the restriction stands here, and not at each draw. `CPU::step_clear`
    /// tests for a step that makes no write to LY at all.
    pub open spec fn write_ok(self, address: u16, value: u8) -> bool {
        address == gpu::LY_ADDR ==> gpu::scanline_fits(self.gpu.mode, value)
    }

    /// M-cycles a write to `address` takes on its own (a DMA transfer takes 160).
    pub open spec fn write_cost(address: u16) -> int {
        if address == gpu::DMA_ADDR {
            DMA_LENGTH as int
        } else {
            0
        }
    }

    /// A read after one M-cycle: the new bus and the byte.
    pub open spec fn read_cycle(self, address: u16) -> (BusView, u8) {
        (self.cycle(), self.cycle().read(address))
    }

    /// A write after one M-cycle.
    pub open spec fn write_cycle(self, address: u16, value: u8) -> BusView {
        self.cycle().write(address, value)
    }

    /// A write after one M-cycle that the PPU can take.
    pub open spec fn write_cycle_ok(self, address: u16, value: u8) -> bool {
        self.cycle().write_ok(address, value)
    }
}

/// An M-cycle keeps the bus invariant and advances both cycle counters by one.
pub proof fn lemma_cycle(b: BusView)
    requires
        b.inv(),
        b.room(1),
    ensures
        b.cycle().inv(),
        b.cycle().mclock == b.mclock + 1,
        b.cycle().timer.mclock == b.timer.mclock + 1,
        b.cycle().memory == b.memory,
        b.cycle().bootrom == b.bootrom,
        b.cycle().in_bios == b.in_bios,
        b.cycle().int_enabled == b.int_enabled,
        b.cycle().ime == b.ime,
        b.cycle().select == b.select,
        b.cycle().io == b.io,
        b.cycle().gpu.mode == b.gpu.cycle_spec(b.int_flags).0.mode,
        b.cycle().gpu.oam.len() == b.gpu.oam.len(),
{
    reveal(BusView::cycle);
    lemma_cycle_keeps_inv(b.gpu, b.int_flags);
    b.timer.lemma_tick_mclock(b.gpu.cycle_spec(b.int_flags).1);
}

/// Every request bit of `old` is still set in `new`.
pub open spec fn keeps_requests(old: u8, new: u8) -> bool {
    old & !new == 0
}

/// Keeping requests is reflexive and transitive, and adding a bit keeps them.
proof fn lemma_keeps_requests(x: u8, y: u8, z: u8, bit: u8)
    ensures
        keeps_requests(x, x),
        keeps_requests(x, x | bit),
        keeps_requests(x, y) && keeps_requests(y, z) ==> keeps_requests(x, z),
{
    assert(x & !x == 0 && x & !(x | bit) == 0 && ((x & !y == 0 && y & !z == 0) ==> x & !z == 0))
        by (bit_vector);
}

/// The timer's counter steps only ever add the TIMER request.
proof fn lemma_timer_keeps_requests(t: Timer, f: u8, k: nat)
    ensures
        keeps_requests(f, t.advance_spec(f, k).1),
    decreases k,
{
    if k == 0 {
        lemma_keeps_requests(f, f, f, 0);
    } else {
        lemma_timer_keeps_requests(t, f, (k - 1) as nat);
        let (t1, f1) = t.advance_spec(f, (k - 1) as nat);
        let f2 = t1.update_spec(f1, wrap16(t1.internal + 1)).1;
        lemma_keeps_requests(f1, f1, f1, crate::cpu::interrupts::TIMER);
        lemma_keeps_requests(f, f1, f2, 0);
    }
}

/// An M-cycle only adds interrupt requests (VBLANK from the PPU, TIMER
/// from the timer); it never clears one.
pub proof fn law_cycle_keeps_requests(b: BusView)
    ensures
        keeps_requests(b.int_flags, b.cycle().int_flags),
{
    reveal(BusView::cycle);
    let (g, f1) = b.gpu.cycle_spec(b.int_flags);
    lemma_keeps_requests(b.int_flags, b.int_flags, b.int_flags, crate::cpu::interrupts::VBLANK);
    assert(keeps_requests(b.int_flags, f1));
    let t = b.timer.with_mclock_bumped();
    lemma_timer_keeps_requests(t, f1, 4);
    lemma_keeps_requests(b.int_flags, f1, b.timer.tick_spec(f1).1, 0);
}

/// A DMA of `k` steps keeps the invariant and takes `k` M-cycles.
pub proof fn lemma_dma(b: BusView, src: int, k: nat)
    requires
        b.inv(),
        b.room(k as int),
        k <= 0x100,
    ensures
        b.dma(src, k).inv(),
        b.dma(src, k).mclock == b.mclock + k,
        b.dma(src, k).timer.mclock == b.timer.mclock + k,
        b.dma(src, k).memory == b.memory,
    decreases k,
{
    reveal(BusView::dma);
    if k > 0 {
        lemma_dma(b, src, (k - 1) as nat);
        let p = b.dma(src, (k - 1) as nat);
        let q = BusView {
            gpu: GpuView { oam: p.gpu.oam.update(k - 1, p.memory[src + k - 1]), ..p.gpu },
            ..p
        };
        lemma_cycle(q);
    }
}

/// After `k` steps of a DMA transfer from `src`, the first `k` bytes of
/// the sprite table are copies of main memory from `src` on, and the rest
/// are as they were.
proof fn lemma_dma_copies(b: BusView, src: int, k: nat, i: int)
    requires
        b.inv(),
        b.room(k as int),
        k <= 0x100,
        0 <= i < 0x100,
    ensures
        b.dma(src, k).gpu.oam[i] == if i < k {
            b.memory[src + i]
        } else {
            b.gpu.oam[i]
        },
    decreases k,
{
    reveal(BusView::dma);
    if k > 0 {
        lemma_dma_copies(b, src, (k - 1) as nat, i);
        lemma_dma(b, src, (k - 1) as nat);
        let p = b.dma(src, (k - 1) as nat);
        let q = BusView {
            gpu: GpuView { oam: p.gpu.oam.update(k - 1, p.memory[src + k - 1]), ..p.gpu },
            ..p
        };
        reveal(BusView::cycle);
    }
}

/// OAM DMA: writing `v` to 0xFF46 copies the 160 bytes of memory from
/// `v * 0x100` on into the sprite table (OAM), in 160 M-cycles; the rest of
/// the table and main memory are unchanged.
pub proof fn law_oam_dma(b: BusView, v: u8, i: int)
    requires
        b.inv(),
        b.room(160),
        0 <= i < 0x100,
    ensures
        b.write(0xFF46, v).gpu.oam[i] == if i < 160 {
            b.memory[v * 256 + i]
        } else {
            b.gpu.oam[i]
        },
        b.write(0xFF46, v).memory == b.memory,
        b.write(0xFF46, v).mclock == b.mclock + 160,
{
    reveal(BusView::write);
    lemma_dma_copies(b, v * 256, 160, i);
    lemma_dma(b, v * 256, 160);
}

/// A write the PPU can take keeps the invariant and takes `write_cost` M-cycles.
pub proof fn lemma_write(b: BusView, address: u16, value: u8)
    requires
        b.inv(),
        b.room(BusView::write_cost(address)),
        b.write_ok(address, value),
    ensures
        b.write(address, value).inv(),
        b.write(address, value).mclock == b.mclock + BusView::write_cost(address),
        b.write(address, value).timer.mclock == b.timer.mclock + BusView::write_cost(address),
{
    reveal(BusView::write);
    if address == gpu::DMA_ADDR && !(address <= 0x00FF && b.in_bios == 0) {
        lemma_dma(b, value * 256, DMA_LENGTH as nat);
    }
}

// ============================================================================
// Laws of the address map
// ============================================================================

/// A write to RAM stores the byte in main memory and changes nothing else.
pub proof fn lemma_ram_write(b: BusView, address: u16, value: u8)
    requires
        is_ram(address),
    ensures
        b.write(address, value) == (BusView { memory: b.memory.update(address as int, value), ..b }),
{
    reveal(BusView::write);
}

/// A read of RAM returns the byte in main memory.
pub proof fn lemma_ram_read(b: BusView, address: u16)
    requires
        is_ram(address),
    ensures
        b.read(address) == b.memory[address as int],
{
    reveal(BusView::read);
}

/// A byte written to RAM reads back as written, and the write changes what
/// no other address reads.
pub proof fn law_ram_read_back(b: BusView, address: u16, value: u8, other: u16)
    requires
        b.inv(),
        is_ram(address),
    ensures
        b.write(address, value).read(address) == value,
        other != address ==> b.write(address, value).read(other) == b.read(other),
{
    lemma_ram_write(b, address, value);
    lemma_ram_read(b.write(address, value), address);
    reveal(BusView::read);
}

/// A byte written to video RAM (0x8000-0x9FFF) lands in the PPU's tile and
/// map memory at its offset from 0x8000, which is what the PPU draws from,
/// and reads back as written; one written to OAM (0xFE00-0xFE9F) lands in
/// the sprite table at its offset from 0xFE00 in the same way. Main memory
/// is untouched by either. A byte written to 0xFF48 or 0xFF49 becomes the
/// sprite palette OBP0 or OBP1. A write to cartridge ROM (0x0100-0x7FFF)
/// changes nothing.
pub proof fn law_video_write(b: BusView, address: u16, value: u8)
    requires
        b.inv(),
    ensures
        0x8000 <= address <= 0x9FFF ==> {
            let w = b.write(address, value);
            &&& w.read(address) == value
            &&& w.gpu.vram[address - 0x8000] == value
            &&& w.gpu.vram.len() == b.gpu.vram.len()
            &&& forall|i: int| 0 <= i < b.gpu.vram.len() && i != address - 0x8000
                ==> w.gpu.vram[i] == b.gpu.vram[i]
            &&& w.memory == b.memory
        },
        0xFE00 <= address <= 0xFE9F ==> {
            let w = b.write(address, value);
            &&& w.read(address) == value
            &&& w.gpu.oam[address - 0xFE00] == value
            &&& w.gpu.oam.len() == b.gpu.oam.len()
            &&& forall|i: int| 0 <= i < b.gpu.oam.len() && i != address - 0xFE00
                ==> w.gpu.oam[i] == b.gpu.oam[i]
            &&& w.memory == b.memory
        },
        address == 0xFF48 ==> b.write(address, value).gpu.obj0pal == value,
        address == 0xFF49 ==> b.write(address, value).gpu.obj1pal == value,
        0x0100 <= address < 0x8000 ==> b.write(address, value) == b,
{
    reveal(BusView::write);
    reveal(BusView::read);
}

/// The joypad register (0xFF00): writing it with bit 4 set and bit 5 clear
/// selects the buttons, and it then reads the button lines, A, B, Select
/// and Start in bits 0 to 3; with bit 5 set and bit 4 clear it selects the
/// directions and reads Right, Left, Up and Down in bits 0 to 3; with both
/// set or both clear it reads 0xFF.
pub proof fn law_joypad_lines(b: BusView, value: u8)
    requires
        b.inv(),
    ensures
        Button::A.mask() == 1 && Button::B.mask() == 2 && Button::Select.mask() == 4
            && Button::Start.mask() == 8,
        Button::Right.mask() == 1 && Button::Left.mask() == 2 && Button::Up.mask() == 4
            && Button::Down.mask() == 8,
        !Button::A.is_direction() && !Button::B.is_direction() && !Button::Select.is_direction()
            && !Button::Start.is_direction(),
        Button::Right.is_direction() && Button::Left.is_direction() && Button::Up.is_direction()
            && Button::Down.is_direction(),
        ({
            let r = b.write(addr::JOYPAD, value).read(addr::JOYPAD);
            &&& value & 0x30 == 0x10 ==> r == b.keypresses
            &&& value & 0x30 == 0x20 ==> r == b.directions
            &&& (value & 0x30 == 0 || value & 0x30 == 0x30) ==> r == 0xFF
        }),
{
    reveal(BusView::write);
    reveal(BusView::read);
}

/// The plain I/O registers (LCDC, STAT, SCY, SCX, LY, BGP, WY, WX, TIMA,
/// TMA, IF and IE) read back what was written to them; TAC reads back its
/// low three bits with the upper five set; DIV reads 0 after any write.
pub proof fn law_register_read_back(b: BusView, address: u16, value: u8)
    requires
        b.inv(),
    ensures
        (address == gpu::LCDC_ADDR || address == gpu::STAT_ADDR || address == gpu::SCY_ADDR
            || address == gpu::SCX_ADDR || address == gpu::LY_ADDR || address == gpu::BGP_ADDR
            || address == gpu::WY_ADDR || address == gpu::WX_ADDR || address == timer_addr::TIMA
            || address == timer_addr::TMA || address == addr::IF || address == addr::IE) ==> b.write(
            address,
            value,
        ).read(address) == value,
        address == timer_addr::TAC ==> b.write(address, value).read(address) == 0xF8 | (value & 0x07),
        address == timer_addr::DIV ==> b.write(address, value).read(address) == 0,
{
    reveal(BusView::write);
    reveal(BusView::read);
    assert((value & 0x07) & 0x07 == value & 0x07) by (bit_vector);
}


impl Bus {
    /// The bus's memories have their sizes and its PPU is consistent.
    pub open spec fn wf(&self) -> bool {
        &&& self.gpu.wf()
        &&& self@.inv()
    }

    /// The M-cycle counter.
    pub fn mclock(&self) -> (r: usize)
        ensures
            r == self.mclock,
    {
        self.mclock
    }

    /// A bus holding `rom` at address 0 (the rest of memory zero). With a
    /// boot ROM of 256 bytes it starts mapped over 0x0000-0x00FF; without
    /// one the boot ROM is skipped and the start-up register values are due.
    ///
    /// The boot image is read by the caller. A front end that must run the
    /// boot ROM stops when it cannot read one (the emulator's front end
    /// does); `None` is the path that starts a cartridge directly, as the
    /// unit tests do.
    pub fn new(rom_vec: &[u8], bootrom_data: Option<&[u8]>) -> (r: Self)
        requires
            rom_vec@.len() <= 0x10000,
            bootrom_data is Some ==> bootrom_data->0@.len() == 0x100,
        ensures
            r.wf(),
            r@ == initial_bus(
                rom_vec@,
                match bootrom_data {
                    Some(b) => Some(b@),
                    None => None,
                },
            ),
            r@.memory == rom_vec@ + Seq::new((0x10000 - rom_vec@.len()) as nat, |i: int| 0u8),
            r@.bootrom == (match bootrom_data {
                Some(b) => b@,
                None => Seq::new(0x100, |i: int| 0u8),
            }),
            r.in_bios == (if bootrom_data is Some { 0u8 } else { 1u8 }),
            r.rom_start_signal == (bootrom_data is None),
            r.int_enabled == 0,
            r.int_flags == 0,
            r.mclock == 0,
            r.ime == 0,
            r.select == Select::Buttons,
            r.directions == 0,
            r.keypresses == 0,
            r.timer == Timer::spec_new(),
            r.io@ == Seq::<char>::empty(),
            r.gpu@ == gpu::initial_view(),
    {
        let mut memory = vec![0u8; 0x10000];
        let mut bootrom = vec![0u8; 0x100];
        let mut in_bios: u8 = 0;
        let mut rom_start_signal = false;
        match bootrom_data {
            Some(data) => {
                let mut i: usize = 0;
                while i < 0x100
                    invariant
                        0 <= i <= 0x100,
                        data@.len() == 0x100,
                        bootrom@.len() == 0x100,
                        forall|j: int| 0 <= j < i ==> bootrom@[j] == data@[j],
                    decreases 0x100 - i,
                {
                    bootrom.set(i, data[i]);
                    i += 1;
                }
                assert(bootrom@ =~= data@);
            },
            None => {
                in_bios = 1;
                rom_start_signal = true;
                assert(bootrom@ =~= Seq::new(0x100, |i: int| 0u8));
            },
        }
        let mut i: usize = 0;
        while i < rom_vec.len()
            invariant
                0 <= i <= rom_vec@.len(),
                rom_vec@.len() <= 0x10000,
                memory@.len() == 0x10000,
                forall|j: int| 0 <= j < i ==> memory@[j] == rom_vec@[j],
                forall|j: int| rom_vec@.len() <= j < 0x10000 ==> memory@[j] == 0u8,
            decreases rom_vec@.len() - i,
        {
            memory.set(i, rom_vec[i]);
            i += 1;
        }
        assert(memory@ =~= rom_vec@ + Seq::new((0x10000 - rom_vec@.len()) as nat, |i: int| 0u8));
        Bus {
            memory,
            bootrom,
            in_bios,
            int_enabled: 0,
            int_flags: 0,
            mclock: 0,
            ime: 0,
            select: Select::Buttons,
            directions: 0,
            keypresses: 0,
            gpu: GPU::new(),
            rom_start_signal,
            timer: Timer::new(),
            io: String::new(),
        }
    }

    /// Set the interrupt master enable.
    pub fn enable_interrupts(&mut self)
        ensures
            final(self)@ == (BusView { ime: 1, ..old(self)@ }),
            final(self).gpu.framebuffer == old(self).gpu.framebuffer,
    {
        self.ime = 1;
    }

    /// Clear the interrupt master enable.
    pub fn disable_interrupts(&mut self)
        ensures
            final(self)@ == (BusView { ime: 0, ..old(self)@ }),
            final(self).gpu.framebuffer == old(self).gpu.framebuffer,
    {
        self.ime = 0;
    }

    /// Clear the requested interrupt bits of `flag` in IF.
    pub fn ack_interrupt(&mut self, flag: u8)
        ensures
            final(self)@ == (BusView { int_flags: old(self).int_flags & !flag, ..old(self)@ }),
            final(self).gpu.framebuffer == old(self).gpu.framebuffer,
    {
        self.int_flags = self.int_flags & !flag;
    }

    /// Release every joypad button: all eight lines read 1 again.
    pub fn release_buttons(&mut self)
        ensures
            final(self)@ == (BusView {
                directions: old(self).directions | 0x0F,
                keypresses: old(self).keypresses | 0x0F,
                ..old(self)@
            }),
            final(self).gpu.framebuffer == old(self).gpu.framebuffer,
    {
        self.directions |= 0x0F;
        self.keypresses |= 0x0F;
    }

    /// Press a joypad button: its line goes to 0 and the joypad interrupt
    /// is requested.
    pub fn press(&mut self, button: Button)
        ensures
            final(self)@ == (if button.is_direction() {
                BusView {
                    directions: old(self).directions & !button.mask(),
                    int_flags: old(self).int_flags | JOYPAD,
                    ..old(self)@
                }
            } else {
                BusView {
                    keypresses: old(self).keypresses & !button.mask(),
                    int_flags: old(self).int_flags | JOYPAD,
                    ..old(self)@
                }
            }),
            final(self).gpu.framebuffer == old(self).gpu.framebuffer,
    {
        match button {
            Button::Down => self.directions &= !0b1000,
            Button::Up => self.directions &= !0b0100,
            Button::Left => self.directions &= !0b0010,
            Button::Right => self.directions &= !0b0001,
            Button::Start => self.keypresses &= !0b1000,
            Button::Select => self.keypresses &= !0b0100,
            Button::A => self.keypresses &= !0b0001,
            Button::B => self.keypresses &= !0b0010,
        }
        self.int_flags |= JOYPAD;
    }

    /// Advance emulation by 1 M-cycle (4 T-cycles)
    pub fn generic_cycle(&mut self)
        requires
            old(self).wf(),
            old(self)@.room(1),
        ensures
            final(self).wf(),
            final(self)@ == old(self)@.cycle(),
            final(self).mclock == old(self).mclock + 1,
            final(self).timer.mclock == old(self).timer.mclock + 1,
            keeps_requests(old(self).int_flags, final(self).int_flags),
    {
        proof {
            law_cycle_keeps_requests(self@);
            lemma_cycle(self@);
            reveal(BusView::cycle);
        }
        self.mclock += 1;
        self.gpu.cycle(&mut self.int_flags);
        self.timer.tick(&mut self.int_flags);
    }

    /// One M-cycle, then the byte at `addr`.
    pub fn read_cycle(&mut self, addr: u16) -> (r: u8)
        requires
            old(self).wf(),
            old(self)@.room(1),
        ensures
            final(self).wf(),
            (final(self)@, r) == old(self)@.read_cycle(addr),
            final(self).mclock == old(self).mclock + 1,
            final(self).timer.mclock == old(self).timer.mclock + 1,
    {
        self.generic_cycle();
        self.read(addr)
    }

    /// One M-cycle, then the byte at `0xFF00 + addr`.
    pub fn read_cycle_high(&mut self, addr: u8) -> (r: u8)
        requires
            old(self).wf(),
            old(self)@.room(1),
        ensures
            final(self).wf(),
            (final(self)@, r) == old(self)@.read_cycle((0xFF00 + addr) as u16),
            final(self).mclock == old(self).mclock + 1,
            final(self).timer.mclock == old(self).timer.mclock + 1,
    {
        self.generic_cycle();
        assert(0xFF00u16 | (addr as u16) == 0xFF00u16 + (addr as u16)) by (bit_vector);
        self.read(0xFF00 | (addr as u16))
    }

    /// One M-cycle, then a write of `value` to `addr`.
    pub fn write_cycle(&mut self, addr: u16, value: u8)
        requires
            old(self).wf(),
            old(self)@.room(1 + BusView::write_cost(addr)),
            old(self)@.write_cycle_ok(addr, value),
        ensures
            final(self).wf(),
            final(self)@ == old(self)@.write_cycle(addr, value),
            final(self).mclock == old(self).mclock + 1 + BusView::write_cost(addr),
            final(self).timer.mclock == old(self).timer.mclock + 1 + BusView::write_cost(addr),
    {
        self.generic_cycle();
        self.write(addr, value);
    }

    /// The byte a read of `address` returns.
    #[allow(clippy::match_same_arms)]
    pub fn read(&self, address: u16) -> (r: u8)
        requires
            self.wf(),
        ensures
            r == self@.read(address),
    {
        reveal(BusView::read);
        if address <= 0x00FF && self.in_bios == 0 {
            // Bootrom overlay
            self.bootrom[address as usize]
        } else if address == timer_addr::DIV {
            // Timer registers
            self.timer.read_div()
        } else if address == timer_addr::TAC {
            self.timer.read_tac()
        } else if address == timer_addr::TMA {
            self.timer.tma
        } else if address == timer_addr::TIMA {
            self.timer.tima
        } else if address == gpu::LCDC_ADDR {
            // GPU registers
            self.gpu.lcdc.bits()
        } else if address == gpu::STAT_ADDR {
            self.gpu.lcdstat
        } else if address == gpu::SCY_ADDR {
            self.gpu.scrolly
        } else if address == gpu::SCX_ADDR {
            self.gpu.scrollx
        } else if address == gpu::LY_ADDR {
            self.gpu.scanline
        } else if address == gpu::BGP_ADDR {
            self.gpu.bgrdpal
        } else if address == gpu::WY_ADDR {
            self.gpu.windowy
        } else if address == gpu::WX_ADDR {
            self.gpu.windowx
        } else if address == addr::IE {
            // Interrupt registers
            self.int_enabled
        } else if address == addr::IF {
            self.int_flags
        } else if address == addr::JOYPAD {
            // Joypad
            match self.select {
                Select::Buttons => self.keypresses,
                Select::Directions => self.directions,
                Select::Neither => 0xFF,
            }
        } else if gpu::VRAM_START_U16 <= address && address <= gpu::VRAM_END_U16 {
            // VRAM and OAM
            self.gpu.byte_at(address)
        } else if gpu::OAM_START_U16 <= address && address <= gpu::OAM_END_U16 {
            self.gpu.oam[(address - 0xFE00) as usize]
        } else {
            // Everything else from main memory
            self.memory[address as usize]
        }
    }

    /// OAM DMA: copy 160 bytes of main memory from `src_start` into OAM, one
    /// M-cycle per byte.
    fn dma_transfer(&mut self, src_start: u16)
        requires
            old(self).wf(),
            old(self)@.room(DMA_LENGTH as int),
            src_start as int % 256 == 0,
        ensures
            final(self).wf(),
            final(self)@ == old(self)@.dma(src_start as int, DMA_LENGTH as nat),
    {
        let ghost b0 = self@;
        proof {
            reveal_with_fuel(BusView::dma, 1);
        }
        let mut i: u16 = 0;
        while i < DMA_LENGTH
            invariant
                0 <= i <= DMA_LENGTH,
                src_start as int % 256 == 0,
                b0.inv(),
                b0.room(DMA_LENGTH as int),
                self.wf(),
                self@ == b0.dma(src_start as int, i as nat),
                self.mclock == b0.mclock + i,
                self.timer.mclock == b0.timer.mclock + i,
                self.memory@ == b0.memory,
            decreases DMA_LENGTH - i,
        {
            proof {
                lemma_dma(b0, src_start as int, i as nat);
                lemma_dma(b0, src_start as int, (i + 1) as nat);
                reveal(BusView::dma);
            }
            let byte = self.memory[(src_start + i) as usize];
            self.gpu.oam.set(i as usize, byte);
            self.generic_cycle();
            i += 1;
        }
    }

    /// Write `value` to `address`, with the side effects of the I/O register there.
    #[allow(clippy::match_same_arms)]
    pub fn write(&mut self, address: u16, value: u8)
        requires
            old(self).wf(),
            old(self)@.room(BusView::write_cost(address)),
            old(self)@.write_ok(address, value),
        ensures
            final(self).wf(),
            final(self)@ == old(self)@.write(address, value),
            final(self).mclock == old(self).mclock + BusView::write_cost(address),
            final(self).timer.mclock == old(self).timer.mclock + BusView::write_cost(address),
    {
        proof {
            lemma_write(self@, address, value);
            reveal(BusView::write);
        }
        if address <= 0x00FF && self.in_bios == 0 {
            // Bootrom area is read-only when bootrom is active
        } else if address == timer_addr::DIV {
            // Timer registers
            self.timer.write_div(value);
        } else if address == timer_addr::TAC {
            self.timer.write_tac(value);
        } else if address == timer_addr::TIMA {
            self.timer.tima = value;
        } else if address == timer_addr::TMA {
            self.timer.tma = value;
        } else if address == gpu::LCDC_ADDR {
            // GPU registers
            self.gpu.lcdc = LCDC::from_bits_retain(value);
        } else if address == gpu::STAT_ADDR {
            self.gpu.lcdstat = value;
        } else if address == gpu::SCY_ADDR {
            self.gpu.scrolly = value;
        } else if address == gpu::SCX_ADDR {
            self.gpu.scrollx = value;
        } else if address == gpu::LY_ADDR {
            self.gpu.scanline = value;
        } else if address == gpu::DMA_ADDR {
            // OAM DMA Transfer
            let src_start = (value as u16) * 256;
            self.dma_transfer(src_start);
        } else if address == gpu::BGP_ADDR {
            self.gpu.bgrdpal = value;
        } else if address == gpu::OBP0_ADDR {
            self.gpu.obj0pal = value;
        } else if address == gpu::OBP1_ADDR {
            self.gpu.obj1pal = value;
        } else if address == gpu::WY_ADDR {
            self.gpu.windowy = value;
        } else if address == gpu::WX_ADDR {
            self.gpu.windowx = value;
        } else if address == addr::IE {
            // Interrupt registers
            self.int_enabled = value;
        } else if address == addr::IF {
            self.int_flags = value;
        } else if address == addr::BOOTROM_DISABLE {
            // Bootrom disable
            if value != 0 && !self.rom_start_signal {
                self.rom_start_signal = true;
            }
            self.in_bios = value;
        } else if address == addr::JOYPAD {
            // Joypad
            self.select = if value & 0x30 == 0x10 {
                Select::Buttons
            } else if value & 0x30 == 0x20 {
                Select::Directions
            } else {
                Select::Neither
            };
        } else if address == addr::SERIAL_DATA || address == addr::HRAM_START {
            // Serial I/O
            self.memory.set(address as usize, value);
        } else if address == addr::SERIAL_CTRL {
            if value == 0x81 {
                let ch = self.memory[addr::SERIAL_DATA as usize] as char;
                push_char(&mut self.io, ch);
            }
            self.memory.set(address as usize, value);
        } else if gpu::VRAM_START_U16 <= address && address <= gpu::VRAM_END_U16 {
            // VRAM
            self.gpu.vram.set((address - 0x8000) as usize, value);
        } else if gpu::OAM_START_U16 <= address && address <= gpu::OAM_END_U16 {
            // OAM
            self.gpu.oam.set((address - 0xFE00) as usize, value);
        } else if (0xA000 <= address && address <= 0xFDFF) || (0xFEA0 <= address && address
            <= 0xFF7F) || (0xFF81 <= address && address <= 0xFFFE) {
            // RAM (WRAM, Echo RAM, HRAM) - everything else above 0x9FFF except OAM
            self.memory.set(address as usize, value);
        } else {
            // ROM area writes (mapper control - ignored for now) and unused areas
        }
    }
}

impl Bus {
    /// `CLK: <clock>, IE: <8 bits>, IF: <8 bits>`, then the timer, the
    /// buttons and the directions, one per line.
    pub open spec fn text(&self) -> Seq<char> {
        "CLK: "@ + dec_text(self.mclock as nat) + ", IE: "@ + bin_text(
            self.int_enabled as nat,
            bin_width(self.int_enabled as nat, 8),
        ) + ", IF: "@ + bin_text(self.int_flags as nat, bin_width(self.int_flags as nat, 8))
            + "\n[TIMER]: "@ + self.timer.text() + "\n[BTNS]: "@ + bin_text(
            self.keypresses as nat,
            bin_width(self.keypresses as nat, 8),
        ) + "\n[ARWS]: "@ + bin_text(self.directions as nat, bin_width(self.directions as nat, 8))
    }

    /// The bus state as text.
    pub fn to_string(&self) -> (r: String)
        ensures
            r@ == self.text(),
    {
        let mut s = String::from_str("CLK: ");
        append_dec(&mut s, self.mclock);
        s.append(", IE: ");
        append_bin_padded(&mut s, self.int_enabled as u16, 8);
        s.append(", IF: ");
        append_bin_padded(&mut s, self.int_flags as u16, 8);
        s.append("\n[TIMER]: ");
        s.append(self.timer.to_string().as_str());
        s.append("\n[BTNS]: ");
        append_bin_padded(&mut s, self.keypresses as u16, 8);
        s.append("\n[ARWS]: ");
        append_bin_padded(&mut s, self.directions as u16, 8);
        assert(s@ =~= self.text());
        s
    }
}

/// `String::push`: appends one character.
#[verifier::external_body]
fn push_char(s: &mut String, c: char)
    ensures
        final(s)@ == old(s)@.push(c),
{
    s.push(c);
}

} // verus!
