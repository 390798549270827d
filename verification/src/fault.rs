//! The ways in which a running program can bring the machine to a stop.

use vstd::prelude::*;

verus! {

/// A condition that ends the run. After a fault the machine's state is that
/// of an instruction cut short, and stepping on from it means nothing.
#[derive(Debug, Clone, Copy, PartialEq, Eq, Structural)]
pub enum Fault {
    /// The byte `opcode`, fetched at `pc`, encodes no instruction.
    Decode { pc: u16, opcode: u8 },
    /// A read of an address that nothing answers.
    UnmappedRead(u16),
    /// A write to an address that takes none.
    UnmappedWrite(u16),
    /// The program counter `pc` differs from what the reference trace
    /// `expected` at step `tick`.
    ReferenceMismatch { pc: u16, expected: u16, tick: usize },
    /// The reference trace has no entry for step `tick`.
    ReferenceExhausted { tick: usize },
}

} // verus!
