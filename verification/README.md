# nulldc

A Dreamcast emulator core around the SuperH SH-4 CPU, written in Verus:
the instruction semantics, the decoder and disassembler tables, the memory
map, the on-chip peripherals (area 7 registers, timers, interrupt
controller), the AICA DSP, and the debugger server's request handling, each
with a contract proved by Verus.

## Layout

- `src/` — the verified library.
  - `bits`, `alu`, `regs` — bit lemmas, integer instructions, SR/FPSCR.
  - `mem`, `cpu` — little-endian buffers, the 256-region memory map, the
    CPU context, branches, interrupt entry.
  - `intc`, `p4` — interrupt controller, area 7 registers and timers.
  - `exec`, `isa`, `dec`, `disasm`, `interp` — per-instruction execution,
    opcode tables, disassembly, the step and the run loop.
  - `dreamcast` — the machine: boot, memory views, listings, registers.
  - `dsp`, `pvr`, `memdata`, `recorder` — AICA DSP, framebuffer formats,
    access widths, the multiply recorder.
  - `debugger`, `device_tree`, `debug_rpc`, `rpc`, `mock_data`, `keyed`,
    `numfmt`, `text`, `opdiff` — the debugger server state, its device tree,
    ticks and requests, and the text helpers they use.
- `tests/` — tests on concrete values.
- `app/` — the program: loads a binary into system RAM, runs the CPU in
  slices (carrying out the floating-point instructions on the host FPU),
  and serves the debugger protocol over WebSocket (JSON-RPC).
