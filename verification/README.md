# gba_emu

A Game Boy Advance emulator whose core is verified with Verus.

## Layout

- `src/` — the verified library
  - `bus.rs` — memory map, I/O registers and their side effects, DMA, timers,
    interrupts; `bus_laws.rs` — read-after-write, interrupt, read-only-register and
    timer-additivity properties
  - `cpu.rs` — ARM7TDMI core (ARM and THUMB), exceptions and the BIOS calls
    emulated without a BIOS image; `cpu_laws.rs` — mode banking, flags, BIOS-call
    properties
  - `ppu.rs` — scanline clock, VBlank, and rendering of text, affine and bitmap
    backgrounds and of sprites; `ppu_laws.rs` — the scanline clock and which rows a
    scanline draws
  - `input.rs`, `timers.rs` — buttons and timer clocking
  - `gba.rs` — the console run frame by frame; `gba_laws.rs` — BIOS stall hand-off,
    every frame reaching VBlank, headless frames matching rendered ones
  - `cli.rs` — command-line arguments
  - `progress.rs`, `session.rs` — per-frame progress checks, speed, window scale,
    keys, BIOS watchdog
  - `launcher.rs`, `launcher_view.rs`, `canvas.rs` — the game launcher's state and
    its drawing (rectangles and 8x8 font text)
- `tests/` — tests run against the compiled library
- `app/` — the program: argument and file reading, the windows (minifb), printing,
  and the launcher background gradient (floating point)

Every function of `src/` carries a contract in terms of abstract models (`BusState`,
`CpuState`, `PpuState`, `GbaState`, `LauncherView`, sequences of pixels) and is
proved by Verus; the `*_laws.rs` files state properties across operations.

## Build and run

```bash
cargo run -- --rom <path-to-rom.gba> [--bios <bios.bin>] [--frames <N>]
```

`--rom` is required unless `--launcher` asks for the game launcher. See `--help`
for all options. With `GBA_STRICT_UNKNOWN=1` an instruction the core does not decode
stops the program with its encoding and address.
