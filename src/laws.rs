//! Properties of the decoder and the engine, proved over the state model.
use crate::machine::{MachineError, MachineState};
use crate::opcode::{decode_word, Opcode};
use crate::registers::{RegisterIndex, FLAG_ZERO, LINK_SLOT};
use crate::word::word_add;
use vstd::prelude::*;

verus! {

/// Decoding is total and deterministic: every word decodes, equal words
/// decode to the same instruction, and every register it names is one of
/// R0..R7.
pub proof fn decode_total_deterministic(w1: u16, w2: u16)
    requires
        w1 == w2,
    ensures
        decode_word(w1) == decode_word(w2),
        decode_word(w1).registers_general(),
{
    let w = w1;
    assert(((w >> 9u16) & 7) < 8) by (bit_vector);
    assert(((w >> 6u16) & 7) < 8) by (bit_vector);
    assert(((w >> 0u16) & 7) < 8) by (bit_vector);
}

/// Exactly the selectors 1000 and 1101 decode to an illegal instruction.
pub proof fn illegal_selectors(w: u16)
    ensures
        decode_word(w).is_illegal() <==> (w >> 12 == 8 || w >> 12 == 13),
{
}

/// Writing a register and reading it back gives the value written; every
/// other register and all of memory keep their values.
pub proof fn register_write_read(s: MachineState, r: RegisterIndex, v: u16)
    requires
        s.wf(),
        r.valid(),
    ensures
        s.set_reg(r, v).reg(r) == v,
        s.set_reg(r, v).wf(),
        s.set_reg(r, v).memory == s.memory,
        forall|q: RegisterIndex| q.valid() && q != r ==> #[trigger] s.set_reg(r, v).reg(q) == s.reg(q),
{
}

/// A Store followed by a Load of the same cell leaves the loaded register
/// holding the stored register's original value. Each instruction addresses
/// its offset from the PC past itself.
pub proof fn store_load_round_trip(s: MachineState)
    requires
        s.wf(),
        s.fetch() is Store,
        s.next().fetch() is Load,
        word_add(word_add(s.pc(), 1), s.fetch()->Store_pc_offset9) == word_add(
            word_add(s.next().pc(), 1),
            s.next().fetch()->Load_pc_offset9,
        ),
    ensures
        s.next().next().reg(s.next().fetch()->Load_dr) == s.reg(s.fetch()->Store_sr),
{
    decode_total_deterministic(s.read(s.pc()), s.read(s.pc()));
    let t = s.next();
    assert(t.wf());
    decode_total_deterministic(t.read(t.pc()), t.read(t.pc()));
}

/// A Branch taken on the Zero flag moves the PC by its sign-extended offset
/// from the address after the Branch, not from the Branch's own address.
pub proof fn branch_on_zero(s: MachineState)
    requires
        s.wf(),
        s.fetch() is Branch,
        s.cond() == FLAG_ZERO,
        s.fetch()->Branch_mask & FLAG_ZERO != 0,
    ensures
        s.next().pc() == word_add(word_add(s.pc(), 1), s.fetch()->Branch_pc_offset9),
        s.next().memory == s.memory,
{
}

/// A Trap saves the address of the following instruction in R7 and jumps to
/// the address held in the vector's table entry.
pub proof fn trap_links_and_dispatches(s: MachineState)
    requires
        s.wf(),
        s.fetch() is Trap,
    ensures
        s.next().reg(RegisterIndex(LINK_SLOT)) == word_add(s.pc(), 1),
        s.next().pc() == s.read(s.fetch()->Trap_vector),
        s.next().memory == s.memory,
{
}

/// A reserved or unused selector is reported as `IllegalOpcode` and leaves
/// registers and memory unchanged.
pub proof fn illegal_opcode_changes_nothing(s: MachineState)
    requires
        s.wf(),
        s.read(s.pc()) >> 12 == 8 || s.read(s.pc()) >> 12 == 13,
    ensures
        s.outcome() == Err::<Opcode, MachineError>(MachineError::IllegalOpcode),
        s.next() == s,
{
}

} // verus!
