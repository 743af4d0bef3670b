//! Instruction interpreter for the CPU of a classic 8-bit handheld console.
//!
//! The crate models the register file, the status flags, the 64 KiB memory
//! bus and the fetch-decode-execute step, and proves each operation against
//! a mathematical description of the machine state.

pub mod cpu;
