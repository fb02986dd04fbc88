//! A SuperH SH-4 CPU core and Dreamcast machine model: instruction semantics,
//! decoder tables, memory map, on-chip peripherals and the AICA DSP.

pub mod bits;
pub mod alu;
pub mod regs;
pub mod mem;
pub mod intc;
pub mod p4;
pub mod dsp;
pub mod cpu;
pub mod exec;
pub mod dec;
pub mod isa;
pub mod disasm;
pub mod interp;
pub mod dreamcast;
pub mod keyed;
pub mod numfmt;
pub mod debugger;
pub mod device_tree;
pub mod mock_data;
pub mod debug_rpc;
pub mod rpc;
pub mod pvr;
pub mod recorder;
pub mod memdata;
pub mod text;
pub mod opdiff;
