//! The value a disassembler hands back for one decoded instruction. The
//! decoding itself is an external collaborator: it consumes a byte buffer
//! read through `Process::read_memory_clean` and a base address, and yields
//! values of this shape.
use vstd::prelude::*;

use crate::breakpoints::VirtAddr;

verus! {

/// One decoded instruction of the inferior.
#[derive(Debug)]
pub struct Instruction {
    /// The instruction's address in the inferior.
    pub va: VirtAddr,
    /// Its disassembled text.
    pub text: String,
    /// Its raw opcode bytes, as read from the inferior.
    pub opcodes: Vec<u8>,
}

impl Instruction {
    /// Package one decoded instruction.
    pub fn new(va: VirtAddr, text: String, opcodes: Vec<u8>) -> (r: Instruction)
        ensures
            r.va == va,
            r.text == text,
            r.opcodes == opcodes,
    {
        Instruction { va, text, opcodes }
    }
}

} // verus!
