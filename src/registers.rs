//! The register file: eight general-purpose registers, the program counter
//! and the condition flags.
use vstd::prelude::*;

verus! {

/// Number of register slots: R0..R7, then PC, then COND.
pub const REGISTER_COUNT: usize = 10;

/// Condition flag set after a positive result.
pub const FLAG_POSITIVE: u16 = 0b001;

/// Condition flag set after a zero result.
pub const FLAG_ZERO: u16 = 0b010;

/// Condition flag set after a negative result.
pub const FLAG_NEGATIVE: u16 = 0b100;

/// Names one register slot. Slots 0..=7 are R0..R7, 8 is PC, 9 is COND.
#[derive(Debug, Clone, Copy, PartialEq, Eq, Structural, PartialOrd, Ord, Hash)]
pub struct RegisterIndex(pub u8);

/// The program counter.
pub const PC_SLOT: u8 = 8;

/// The condition flags.
pub const COND_SLOT: u8 = 9;

/// The link register written by subroutine calls and traps.
pub const LINK_SLOT: u8 = 7;

impl RegisterIndex {
    /// The index names one of the ten register slots.
    pub open spec fn valid(self) -> bool {
        self.0 < 10
    }
}

impl Default for RegisterIndex {
    fn default() -> (r: RegisterIndex)
        ensures
            r.0 == 0,
    {
        RegisterIndex(0)
    }
}

/// The condition flag that summarises `v`: negative when its top bit is set.
pub open spec fn flag_of(v: u16) -> u16 {
    if v == 0 {
        FLAG_ZERO
    } else if v >= 0x8000 {
        FLAG_NEGATIVE
    } else {
        FLAG_POSITIVE
    }
}

/// The condition flag that summarises `v`.
pub fn flag_for(v: u16) -> (r: u16)
    ensures
        r == flag_of(v),
{
    if v == 0 {
        FLAG_ZERO
    } else if v >= 0x8000 {
        FLAG_NEGATIVE
    } else {
        FLAG_POSITIVE
    }
}

/// Storage for the ten register slots.
#[derive(Debug, Clone)]
pub(crate) struct RegisterCluster {
    pub(crate) registers: Vec<u16>,
}

impl RegisterCluster {
    pub(crate) open spec fn view(&self) -> Seq<u16> {
        self.registers@
    }

    pub(crate) open spec fn wf(&self) -> bool {
        self.registers@.len() == REGISTER_COUNT
    }

    pub(crate) fn get(&self, r: RegisterIndex) -> (v: u16)
        requires
            self.wf(),
            r.valid(),
        ensures
            v == self.view()[r.0 as int],
    {
        self.registers[r.0 as usize]
    }

    pub(crate) fn set(&mut self, r: RegisterIndex, v: u16)
        requires
            old(self).wf(),
            r.valid(),
        ensures
            final(self).wf(),
            final(self).view() == old(self).view().update(r.0 as int, v),
    {
        self.registers.set(r.0 as usize, v);
    }
}

impl RegisterCluster {
    /// Every register zero, PC and COND included.
    pub(crate) fn new() -> (r: RegisterCluster)
        ensures
            r.wf(),
            r.view() == Seq::new(REGISTER_COUNT as nat, |i: int| 0u16),
    {
        let mut registers: Vec<u16> = Vec::new();
        let mut i: usize = 0;
        while i < REGISTER_COUNT
            invariant
                i <= REGISTER_COUNT,
                registers@ == Seq::new(i as nat, |k: int| 0u16),
            decreases REGISTER_COUNT - i,
        {
            registers.push(0);
            i = i + 1;
            assert(registers@ =~= Seq::new(i as nat, |k: int| 0u16));
        }
        RegisterCluster { registers }
    }
}

} // verus!
