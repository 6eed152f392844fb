# rust_emu

A Game Boy (DMG) emulator core whose behaviour is stated in Verus contracts
and proved.

## Layout

- `src/` — the verified library
  - `registers.rs` — the register file, flag helpers and their laws
  - `operand.rs` — typed operands, how they read and write, their text
  - `instructions.rs` and `instructions/` — the opcode table, instruction
    execution (ALU, CB-prefixed, jumps, loads, stack) and mnemonics
  - `cpu.rs` and `cpu/` — the fetch/execute state machine, interrupt
    servicing, the start-up state, the stack laws
  - `bus.rs` — the address map, I/O registers, OAM DMA, the joypad and the
    M-cycle clock that drives the PPU and the timer
  - `gpu.rs`, `framebuffer.rs`, `texture.rs` — the scanline PPU, the pixel
    grid (an `ndarray` array behind a few trusted wrappers) and 8x8 tiles
  - `timer.rs` — DIV/TIMA/TMA/TAC with falling-edge detection
  - `emu.rs` — the emulator, runs to a target clock, disassembly listings
  - `text.rs` — hexadecimal and binary digits for listings
- `tests/` — unit tests, and scenario tests of the laws
- `app/` — the SDL front end: command line, file loading, window, debugger
