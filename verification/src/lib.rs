//! A cycle-level emulator of the RV32I instruction set: instruction encoding and decoding,
//! the two-stage (CVE2) and five-stage pipelines, memory-mapped I/O and a UART.
pub mod hex;
pub mod assembler;
pub mod editor;
pub mod emulator;
pub mod isa;
pub mod tester;
