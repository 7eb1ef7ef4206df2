# Euphrates, verified

An emulator library for the Sega Master System, Game Gear and SG-1000,
written in Verus: the library's functions state what they do in contracts,
and Verus proves that the code meets them. What is taken on trust is the
host's clock: the declaration of its time type and the wrapper that reads
it.

Layout:

- `src/hardware/z80/`: the Z80 processor, an instruction at a time, with
  the algebraic laws of its instructions (`laws.rs`).
- `src/hardware/sms_vdp.rs` and `src/hardware/sms_vdp/`: the video chip,
  its ports, its line drawing in every mode (`graphics.rs`) and a tile view
  for debugging (`debug.rs`).
- `src/hardware/sn76489.rs`: the sound chip and how its samples are sent to
  a sound device.
- `src/hardware/sms_memory.rs`: the memory and its mappers, as a plain state.
- `src/virtual_memory.rs` and `src/virtual_memory/sms.rs`: the same memory
  through page mapping, where each slot of the address space is mapped onto
  physical memories; it is proved to read and write like the plain state.
- `src/hardware/sms_io.rs`, `sms_irq.rs`, `sms_player_input.rs`,
  `sms_roms.rs`: ports, interrupts, controls and ROM images.
- `src/systems/`: a whole machine, its saved state, emulating it a frame at
  a time (`sms/frame.rs`: each line the VDP draws and its time passes, the
  Z80 runs as long as the line takes, and the frame's sound goes to the
  sound device), recording and playback, and a user interface around it.
- `src/host_multimedia.rs`: the traits a host's screen and sound device
  implement, with spec functions for what their operations do.
- `app/`: a command line program that runs a ROM for a number of frames
  without screen or sound, in real time if asked; the program waits
  between frames, the library says until when.
- `tests/`: the tests.
