//! Execution core of an RV32I instruction-set simulator.
//!
//! The crate decodes 32-bit instruction words, dispatches them over the
//! opcode/funct3/funct7 hierarchy, and applies each instruction's effect to an
//! architectural register file, a program counter and a byte-addressable
//! memory region.  Every instruction's semantics is stated against a
//! mathematical view of the machine state and proved.

pub mod cpu;
pub mod exception;
pub mod memory;
pub mod opcode;
pub mod registers;
