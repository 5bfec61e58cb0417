use vstd::prelude::*;

verus! {

/// The recoverable error conditions the core can report.
///
/// `IllegalInstruction` marks an `(opcode, funct3, funct7)` combination (or,
/// for the ECALL/EBREAK pair, an immediate) outside the defined dispatch
/// table.  `MemoryFault` marks a load, store or fetch whose effective address
/// lies outside the backing memory region; it is raised by the bus and
/// propagated unchanged by the core.
#[derive(Clone, Copy, Debug, PartialEq, Eq, Structural)]
pub enum Exception {
    IllegalInstruction,
    MemoryFault,
}

} // verus!
