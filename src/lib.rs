//! Execution core of a 16-bit instruction-set computer: word-addressed memory,
//! a register file, an instruction decoder and a fetch-decode-execute engine.
use vstd::prelude::*;

pub mod word;
pub mod registers;
pub mod memory;
pub mod opcode;
pub mod machine;
pub mod laws;

verus! {

} // verus!
