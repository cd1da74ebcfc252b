//! A user-mode emulator core for the 32-bit RISC-V integer ISA with the
//! multiply/divide extension (RV32IM): register file, byte-addressable
//! little-endian memory, instruction decoder and the fetch-decode-execute
//! engine, each with a machine-checked contract.

pub mod arith;
pub mod registers;
pub mod semantics;
pub mod memory;
pub mod interfaces;
pub mod laws;
pub mod instructions;
pub mod utils;
pub mod vm;
