# atari2600

An Atari 2600 emulator core whose behaviour is stated in Verus contracts and
proved: the MOS 6507 processor, the RIOT (6532) RAM/timer/ports, the TIA's
beam, playfield, players, missiles, ball, collisions and sound registers,
cartridge mapping (2K, 4K, F8 bank switching), and the bus between them.

- `src/` — the verified library. Each chip has a model (`View`) and spec
  functions that say what every operation does; the executable code is
  proved against them. `cpu.rs` holds the opcode table (`decode_spec`) and
  the instruction semantics (`execute_s`, `step_s`); `tia.rs` the colour-clock
  model (`clock_s`, `write_s`); `console.rs` the frame loop (`run_s`).
- `tests/` — scenarios run against the compiled library.
- `app/` — the desktop front end (command line, window, keyboard, audio
  synthesis), which is not verified.

The front end draws with `pixels` and plays sound through `rodio` behind an
`audio` feature. Neither crate, nor the feature, is declared in `Cargo.toml`,
which covers the library, its tests and the rest of the front end; building
the window and the sound output takes adding them (`rodio` also needs the
ALSA development headers on Linux). `bitflags` is listed but unused: the
status register is the library's own `Flags` type.
