# selectnes

The cartridge, PPU-bus and file-format core of a NES emulator, written in
Verus with its behaviour stated in contracts and proved.

## Layout

- `src/` — the verified library
  - `mapper_base.rs`: nametable arrangements, cartridge work RAM and the
    `Mapper` trait, whose boards describe their behaviour over an abstract state
  - `mapper000.rs` (NROM), `mapper001.rs` (MMC1), `mapper002.rs` (UxROM),
    `mapper003.rs` (CNROM), `mapper004.rs` (MMC3), `mapper009.rs` (MMC2),
    `mapper010.rs` (MMC4), `mapper163.rs` (Nanjing): the boards, with their laws
  - `game_save.rs`: battery-backed work RAM
  - `rom.rs`: the iNES header, cutting an image into PRG and CHR ROM, and
    the `Cartridge` enum that dispatches to its board
  - `ppubus.rs`: the PPU address space (pattern tables, nametables with
    their mirroring, palette RAM) and its read-after-write laws
  - `palettes.rs`, `pal_file.rs`: colour themes and the JASC / raw `.pal` reader
  - `opcodes.rs`, `text.rs`: the 6502 opcode table entries and number parsing
  - `bus.rs`: decoding of CPU addresses onto the system bus, the memory
    side of that bus (CPU RAM and its mirrors, the test registers, the
    cartridge, little-endian words) and the `TickResult` interrupt report
  - `terminal.rs`, `input.rs`, `draw.rs`, `dock_state.rs`: the message log,
    keyboard and controller input, script colours and panel titles
  - `script_trace.rs`: the line trace that a running script records
- `tests/` — tests run against the compiled library
- `app/` — file access, the shared message log and serde copies of the
  palette types, around the library
