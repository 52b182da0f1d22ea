//! An interpreted emulator core for a 64-bit RISC-V hart (RV64IMA with
//! machine/supervisor CSRs), with every instruction's effect stated as a
//! contract over a mathematical model of the processor and memory state.

pub mod emulator;
