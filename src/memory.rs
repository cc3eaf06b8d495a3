//! Word-addressed memory covering the whole 16-bit address space.
use vstd::prelude::*;

verus! {

/// Number of addressable words.
pub const MEMORY_SIZE: usize = 0x1_0000;

/// `mem` with `block` copied in from address `offset` on.
pub open spec fn splice(mem: Seq<u16>, block: Seq<u16>, offset: int) -> Seq<u16> {
    Seq::new(
        mem.len(),
        |i: int|
            if offset <= i < offset + block.len() {
                block[i - offset]
            } else {
                mem[i]
            },
    )
}

/// The fixed store of 2^16 words.
#[derive(Debug, Clone)]
pub(crate) struct Memory {
    pub(crate) ram: Vec<u16>,
}

impl Memory {
    pub(crate) open spec fn view(&self) -> Seq<u16> {
        self.ram@
    }

    pub(crate) open spec fn wf(&self) -> bool {
        self.ram@.len() == MEMORY_SIZE
    }

    /// Memory with every word zero.
    pub(crate) fn new() -> (m: Memory)
        ensures
            m.wf(),
            m.view() == Seq::new(MEMORY_SIZE as nat, |i: int| 0u16),
    {
        let mut ram: Vec<u16> = Vec::new();
        let mut i: usize = 0;
        while i < MEMORY_SIZE
            invariant
                i <= MEMORY_SIZE,
                ram@ == Seq::new(i as nat, |k: int| 0u16),
            decreases MEMORY_SIZE - i,
        {
            ram.push(0);
            i = i + 1;
            assert(ram@ =~= Seq::new(i as nat, |k: int| 0u16));
        }
        Memory { ram }
    }

    /// Copies `block` in from `offset`. Nothing is written unless the whole
    /// block fits below the end of the address space.
    pub(crate) fn load(&mut self, block: &[u16], offset: u16) -> (ok: bool)
        requires
            old(self).wf(),
        ensures
            final(self).wf(),
            ok == (offset as int + block@.len() <= MEMORY_SIZE),
            ok ==> final(self).view() == splice(old(self).view(), block@, offset as int),
            !ok ==> final(self).view() == old(self).view(),
    {
        if block.len() > MEMORY_SIZE - offset as usize {
            return false;
        }
        let start = offset as usize;
        let mut i: usize = 0;
        while i < block.len()
            invariant
                self.wf(),
                start == offset as usize,
                start + block@.len() <= MEMORY_SIZE,
                i <= block@.len(),
                self.view() == splice(old(self).view(), block@.subrange(0, i as int), start as int),
            decreases block@.len() - i,
        {
            self.ram.set(start + i, block[i]);
            i = i + 1;
            assert(self.view() =~= splice(old(self).view(), block@.subrange(0, i as int), start as int));
        }
        assert(block@.subrange(0, block@.len() as int) =~= block@);
        true
    }

    pub(crate) fn read(&self, addr: u16) -> (v: u16)
        requires
            self.wf(),
        ensures
            v == self.view()[addr as int],
    {
        self.ram[addr as usize]
    }

    pub(crate) fn write(&mut self, addr: u16, v: u16)
        requires
            old(self).wf(),
        ensures
            final(self).wf(),
            final(self).view() == old(self).view().update(addr as int, v),
    {
        self.ram.set(addr as usize, v);
    }
}

} // verus!
