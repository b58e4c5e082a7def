# chip8eframe

The verified core of a desktop front end for a Chip-8 emulator.

- `src/instruction.rs`: the Chip-8 instruction set as an enum, the decoder from two
  instruction bytes, and the laws relating it to the standard encoding.
- `src/about.rs`: the human readable description of each instruction (`About::chip_8_decode`)
  and the "About" text.
- `src/digits.rs`: decimal and upper-case hex formatting, specified as Rust's `{}`, `{:X}`
  and `{:0wX}` write them.
- `src/display.rs`: the frame buffer laid out as a grid of pixel cells.
- `src/panels.rs`: the texts of the "Compute Info" and "Control Flow" windows.
- `src/app_state.rs`, `src/config_window.rs`: the front-end state (windows, run / pause,
  single step) and the per-frame decision whether the emulator runs.
- `app/`: the egui/eframe window, sound and keyboard, around the library.
