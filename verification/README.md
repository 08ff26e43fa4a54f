# nes_rs

The parts of a NES emulator — CPU, PPU, APU, cartridge mappers, controllers and front-end
input decisions — with their behaviour stated in Verus contracts and proved. The system bus
that wires them together, and a program that runs them, are not part of it.

## Layout

- `src/cpu/`: the 6502 CPU — registers, stack, flags, addressing modes, the opcode table
  and the instructions, each specified over a mathematical CPU state.
- `src/ppu/`: the picture processing unit — its registers, name table mirroring, PPUDATA
  reads and writes, sprite evaluation and the per-cycle `tick`.
- `src/rendering/`: frames, scanlines, tiles, the background and sprite renderers, and the
  small overlay frames (FPS counter, icon, custom tile maps).
- `src/apu/`: the audio processing unit — pulse, triangle, noise and delta modulation
  channels, envelopes, sweeps, length counters and the frame sequencer. It reports integer
  channel levels; mixing them into a signal is floating point and lives in `app/`.
- `src/mappers/`: NROM, CNROM and MMC1 cartridge mappers.
- `src/controller.rs`, `src/front_end/`: the controller shift register and the front end's
  input decisions (key maps, actions, recording and replay).
- `src/ring_buffer.rs`: a fixed-capacity FIFO.
- `app/`: a small command line program — argument handling, palette and save-RAM file
  access, and the floating-point audio mixing of channel levels; it does not run an emulator.
- `tests/`: the tests, run against the compiled library.

Properties that span several calls are public proof functions named `law_*`.
