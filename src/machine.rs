//! The execution engine: a machine that owns memory and registers and runs
//! one fetch-decode-execute cycle per step.
use crate::memory::{splice, Memory, MEMORY_SIZE};
use crate::opcode::{decode, decode_word, Opcode};
use crate::registers::{
    flag_for, flag_of, RegisterCluster, RegisterIndex, COND_SLOT, LINK_SLOT, PC_SLOT,
    REGISTER_COUNT,
};
use crate::word::{word_add, add_words};
use vstd::prelude::*;

verus! {

/// Errors reported by the machine.
#[derive(Debug, Clone, Copy, PartialEq, Eq, Structural)]
pub enum MachineError {
    /// A block to load runs past the end of the address space.
    OutOfBoundsLoad,
    /// The fetched word has a reserved or unused selector.
    IllegalOpcode,
}

/// The architectural state: ten register slots and 2^16 memory words.
pub struct MachineState {
    pub registers: Seq<u16>,
    pub memory: Seq<u16>,
}

impl MachineState {
    pub open spec fn wf(self) -> bool {
        self.registers.len() == REGISTER_COUNT && self.memory.len() == MEMORY_SIZE
    }

    pub open spec fn reg(self, r: RegisterIndex) -> u16 {
        self.registers[r.0 as int]
    }

    pub open spec fn pc(self) -> u16 {
        self.registers[PC_SLOT as int]
    }

    pub open spec fn cond(self) -> u16 {
        self.registers[COND_SLOT as int]
    }

    pub open spec fn read(self, addr: u16) -> u16 {
        self.memory[addr as int]
    }

    pub open spec fn set_reg(self, r: RegisterIndex, v: u16) -> MachineState {
        MachineState { registers: self.registers.update(r.0 as int, v), memory: self.memory }
    }

    pub open spec fn set_pc(self, v: u16) -> MachineState {
        self.set_reg(RegisterIndex(PC_SLOT), v)
    }

    pub open spec fn write(self, addr: u16, v: u16) -> MachineState {
        MachineState { registers: self.registers, memory: self.memory.update(addr as int, v) }
    }

    /// Writes a data result to `dr` and sets COND from its sign.
    pub open spec fn set_result(self, dr: RegisterIndex, v: u16) -> MachineState {
        self.set_reg(dr, v).set_reg(RegisterIndex(COND_SLOT), flag_of(v))
    }

    /// Saves the PC in R7, then jumps to `target`.
    pub open spec fn link_and_jump(self, target: u16) -> MachineState {
        self.set_reg(RegisterIndex(LINK_SLOT), self.pc()).set_pc(target)
    }

    /// The effect of `op` on a state whose PC already points past it.
    pub open spec fn execute(self, op: Opcode) -> MachineState {
        match op {
            Opcode::Branch { mask, pc_offset9 } => if mask & self.cond() != 0 {
                self.set_pc(word_add(self.pc(), pc_offset9))
            } else {
                self
            },
            Opcode::Add { dr, sr1, sr2 } => self.set_result(
                dr,
                word_add(self.reg(sr1), self.reg(sr2)),
            ),
            Opcode::AddImmediate { dr, sr1, imm5 } => self.set_result(
                dr,
                word_add(self.reg(sr1), imm5),
            ),
            Opcode::Load { dr, pc_offset9 } => self.set_result(
                dr,
                self.read(word_add(self.pc(), pc_offset9)),
            ),
            Opcode::Store { sr, pc_offset9 } => self.write(
                word_add(self.pc(), pc_offset9),
                self.reg(sr),
            ),
            Opcode::JumpRegister { base } => self.link_and_jump(self.reg(base)),
            Opcode::JumpRegisterRelative { pc_offset11 } => self.link_and_jump(
                word_add(self.pc(), pc_offset11),
            ),
            Opcode::And { dr, sr1, sr2 } => self.set_result(dr, self.reg(sr1) & self.reg(sr2)),
            Opcode::AndImmediate { dr, sr1, imm5 } => self.set_result(dr, self.reg(sr1) & imm5),
            Opcode::LoadRegister { dr, base, offset6 } => self.set_result(
                dr,
                self.read(word_add(self.reg(base), offset6)),
            ),
            Opcode::StoreRegister { sr, base, offset6 } => self.write(
                word_add(self.reg(base), offset6),
                self.reg(sr),
            ),
            Opcode::Not { dr, sr } => self.set_result(dr, !self.reg(sr)),
            Opcode::LoadIndirect { dr, pc_offset9 } => self.set_result(
                dr,
                self.read(self.read(word_add(self.pc(), pc_offset9))),
            ),
            Opcode::StoreIndirect { sr, pc_offset9 } => self.write(
                self.read(word_add(self.pc(), pc_offset9)),
                self.reg(sr),
            ),
            Opcode::Jump { base } => self.set_pc(self.reg(base)),
            Opcode::LoadEffectiveAddress { dr, pc_offset9 } => self.set_result(
                dr,
                word_add(self.pc(), pc_offset9),
            ),
            Opcode::Trap { vector } => self.link_and_jump(self.read(vector)),
            Opcode::Unused | Opcode::Reserved => self,
        }
    }

    /// The instruction at the PC.
    pub open spec fn fetch(self) -> Opcode {
        decode_word(self.read(self.pc()))
    }

    /// The state after one step: an illegal selector changes nothing; any
    /// other instruction runs with the PC already advanced by one word.
    pub open spec fn next(self) -> MachineState {
        if self.fetch().is_illegal() {
            self
        } else {
            self.set_pc(word_add(self.pc(), 1)).execute(self.fetch())
        }
    }

    /// What one step reports.
    pub open spec fn outcome(self) -> Result<Opcode, MachineError> {
        if self.fetch().is_illegal() {
            Err(MachineError::IllegalOpcode)
        } else {
            Ok(self.fetch())
        }
    }
}

/// A simulated computer: memory plus register file, exclusively owned.
#[derive(Debug, Clone)]
pub struct Machine {
    mem: Memory,
    registers: RegisterCluster,
}

impl View for Machine {
    type V = MachineState;

    closed spec fn view(&self) -> MachineState {
        MachineState { registers: self.registers.view(), memory: self.mem.view() }
    }
}

impl Machine {
    /// A machine with all memory and every register, PC and COND included, zero.
    pub fn new() -> (m: Machine)
        ensures
            m@.wf(),
            m@.registers == Seq::new(REGISTER_COUNT as nat, |i: int| 0u16),
            m@.memory == Seq::new(MEMORY_SIZE as nat, |i: int| 0u16),
    {
        Machine { mem: Memory::new(), registers: RegisterCluster::new() }
    }

    /// Copies `block` into memory from address `offset` on. Fails with
    /// `OutOfBoundsLoad`, changing nothing, when the block does not fit below
    /// the end of the address space.
    pub fn load(&mut self, block: &[u16], offset: u16) -> (r: Result<(), MachineError>)
        requires
            old(self)@.wf(),
        ensures
            final(self)@.wf(),
            final(self)@.registers == old(self)@.registers,
            r is Ok <==> offset as int + block@.len() <= MEMORY_SIZE,
            r is Err ==> r == Err::<(), MachineError>(MachineError::OutOfBoundsLoad),
            r is Ok ==> final(self)@.memory == splice(old(self)@.memory, block@, offset as int),
            r is Err ==> final(self)@.memory == old(self)@.memory,
    {
        if self.mem.load(block, offset) {
            Ok(())
        } else {
            Err(MachineError::OutOfBoundsLoad)
        }
    }

    /// The value held in register slot `r`.
    pub fn read_register(&self, r: RegisterIndex) -> (v: u16)
        requires
            self@.wf(),
            r.valid(),
        ensures
            v == self@.reg(r),
    {
        self.registers.get(r)
    }

    /// Sets register slot `r` to `v`; nothing else changes.
    pub fn write_register(&mut self, r: RegisterIndex, v: u16)
        requires
            old(self)@.wf(),
            r.valid(),
        ensures
            final(self)@ == old(self)@.set_reg(r, v),
            final(self)@.wf(),
    {
        self.registers.set(r, v);
    }

    /// The program counter.
    pub fn pc(&self) -> (v: u16)
        requires
            self@.wf(),
        ensures
            v == self@.pc(),
    {
        self.registers.get(RegisterIndex(PC_SLOT))
    }

    /// Sets the program counter, the entry point for the next step.
    pub fn set_pc(&mut self, v: u16)
        requires
            old(self)@.wf(),
        ensures
            final(self)@ == old(self)@.set_pc(v),
            final(self)@.wf(),
    {
        self.registers.set(RegisterIndex(PC_SLOT), v);
    }

    /// The condition flags.
    pub fn cond(&self) -> (v: u16)
        requires
            self@.wf(),
        ensures
            v == self@.cond(),
    {
        self.registers.get(RegisterIndex(COND_SLOT))
    }

    /// The word at `addr`.
    pub fn read_memory(&self, addr: u16) -> (v: u16)
        requires
            self@.wf(),
        ensures
            v == self@.read(addr),
    {
        self.mem.read(addr)
    }

    /// Sets the word at `addr`; nothing else changes.
    pub fn write_memory(&mut self, addr: u16, v: u16)
        requires
            old(self)@.wf(),
        ensures
            final(self)@ == old(self)@.write(addr, v),
            final(self)@.wf(),
    {
        self.mem.write(addr, v);
    }

    /// Writes a data result to `dr` and sets COND from its sign.
    fn set_result(&mut self, dr: RegisterIndex, v: u16)
        requires
            old(self)@.wf(),
            dr.valid(),
        ensures
            final(self)@ == old(self)@.set_result(dr, v),
            final(self)@.wf(),
    {
        self.registers.set(dr, v);
        let flag = flag_for(v);
        self.registers.set(RegisterIndex(COND_SLOT), flag);
    }

    /// Saves the PC in R7, then jumps to `target`.
    fn link_and_jump(&mut self, target: u16)
        requires
            old(self)@.wf(),
        ensures
            final(self)@ == old(self)@.link_and_jump(target),
            final(self)@.wf(),
    {
        let pc = self.registers.get(RegisterIndex(PC_SLOT));
        self.registers.set(RegisterIndex(LINK_SLOT), pc);
        self.registers.set(RegisterIndex(PC_SLOT), target);
    }

    /// Carries out `op` on a machine whose PC already points past it.
    fn execute(&mut self, op: Opcode)
        requires
            old(self)@.wf(),
            op.registers_general(),
        ensures
            final(self)@ == old(self)@.execute(op),
            final(self)@.wf(),
    {
        let pc = self.registers.get(RegisterIndex(PC_SLOT));
        match op {
            Opcode::Branch { mask, pc_offset9 } => {
                let cond = self.registers.get(RegisterIndex(COND_SLOT));
                if mask & cond != 0 {
                    self.registers.set(RegisterIndex(PC_SLOT), add_words(pc, pc_offset9));
                }
            },
            Opcode::Add { dr, sr1, sr2 } => {
                let a = self.registers.get(sr1);
                let b = self.registers.get(sr2);
                self.set_result(dr, add_words(a, b));
            },
            Opcode::AddImmediate { dr, sr1, imm5 } => {
                let a = self.registers.get(sr1);
                self.set_result(dr, add_words(a, imm5));
            },
            Opcode::Load { dr, pc_offset9 } => {
                let v = self.mem.read(add_words(pc, pc_offset9));
                self.set_result(dr, v);
            },
            Opcode::Store { sr, pc_offset9 } => {
                let v = self.registers.get(sr);
                self.mem.write(add_words(pc, pc_offset9), v);
            },
            Opcode::JumpRegister { base } => {
                let target = self.registers.get(base);
                self.link_and_jump(target);
            },
            Opcode::JumpRegisterRelative { pc_offset11 } => {
                self.link_and_jump(add_words(pc, pc_offset11));
            },
            Opcode::And { dr, sr1, sr2 } => {
                let a = self.registers.get(sr1);
                let b = self.registers.get(sr2);
                self.set_result(dr, a & b);
            },
            Opcode::AndImmediate { dr, sr1, imm5 } => {
                let a = self.registers.get(sr1);
                self.set_result(dr, a & imm5);
            },
            Opcode::LoadRegister { dr, base, offset6 } => {
                let b = self.registers.get(base);
                let v = self.mem.read(add_words(b, offset6));
                self.set_result(dr, v);
            },
            Opcode::StoreRegister { sr, base, offset6 } => {
                let b = self.registers.get(base);
                let v = self.registers.get(sr);
                self.mem.write(add_words(b, offset6), v);
            },
            Opcode::Not { dr, sr } => {
                let a = self.registers.get(sr);
                self.set_result(dr, !a);
            },
            Opcode::LoadIndirect { dr, pc_offset9 } => {
                let addr = self.mem.read(add_words(pc, pc_offset9));
                let v = self.mem.read(addr);
                self.set_result(dr, v);
            },
            Opcode::StoreIndirect { sr, pc_offset9 } => {
                let addr = self.mem.read(add_words(pc, pc_offset9));
                let v = self.registers.get(sr);
                self.mem.write(addr, v);
            },
            Opcode::Jump { base } => {
                let target = self.registers.get(base);
                self.registers.set(RegisterIndex(PC_SLOT), target);
            },
            Opcode::LoadEffectiveAddress { dr, pc_offset9 } => {
                self.set_result(dr, add_words(pc, pc_offset9));
            },
            Opcode::Trap { vector } => {
                let target = self.mem.read(vector);
                self.link_and_jump(target);
            },
            Opcode::Unused | Opcode::Reserved => {},
        }
    }

    /// Runs one fetch-decode-execute cycle. The PC is advanced by one word
    /// before the instruction runs, so PC-relative offsets count from the
    /// next instruction. A reserved or unused selector is reported as
    /// `IllegalOpcode` and leaves the machine unchanged; otherwise the
    /// decoded instruction is returned.
    pub fn step(&mut self) -> (r: Result<Opcode, MachineError>)
        requires
            old(self)@.wf(),
        ensures
            final(self)@.wf(),
            final(self)@ == old(self)@.next(),
            r == old(self)@.outcome(),
    {
        let pc = self.registers.get(RegisterIndex(PC_SLOT));
        let word = self.mem.read(pc);
        let op = decode(word);
        match op {
            Opcode::Unused | Opcode::Reserved => {
                return Err(MachineError::IllegalOpcode);
            },
            _ => {},
        }
        self.registers.set(RegisterIndex(PC_SLOT), add_words(pc, 1));
        self.execute(op);
        Ok(op)
    }
}

} // verus!
