//! Decoding of instruction words into tagged instructions.
use crate::registers::RegisterIndex;
use crate::word::{sign_extend, sign_extend_spec};
use vstd::arithmetic::power2::{lemma2_to64, pow2};
use vstd::prelude::*;

verus! {

/// A decoded instruction. Offsets and immediates are held already
/// sign-extended to a full word.
#[derive(Debug, Clone, Copy, PartialEq, Eq, Structural, PartialOrd, Ord, Hash)]
pub enum Opcode {
    /// Conditional PC-relative branch; `mask` holds the n, z, p bits.
    Branch { mask: u16, pc_offset9: u16 },
    Add { dr: RegisterIndex, sr1: RegisterIndex, sr2: RegisterIndex },
    AddImmediate { dr: RegisterIndex, sr1: RegisterIndex, imm5: u16 },
    Load { dr: RegisterIndex, pc_offset9: u16 },
    Store { sr: RegisterIndex, pc_offset9: u16 },
    /// Subroutine call through a base register. The target is read before
    /// R7 receives the return address, so a call through R7 jumps to R7's
    /// earlier value.
    JumpRegister { base: RegisterIndex },
    /// Subroutine call to a PC-relative address.
    JumpRegisterRelative { pc_offset11: u16 },
    And { dr: RegisterIndex, sr1: RegisterIndex, sr2: RegisterIndex },
    AndImmediate { dr: RegisterIndex, sr1: RegisterIndex, imm5: u16 },
    LoadRegister { dr: RegisterIndex, base: RegisterIndex, offset6: u16 },
    StoreRegister { sr: RegisterIndex, base: RegisterIndex, offset6: u16 },
    Unused,
    Not { dr: RegisterIndex, sr: RegisterIndex },
    LoadIndirect { dr: RegisterIndex, pc_offset9: u16 },
    StoreIndirect { sr: RegisterIndex, pc_offset9: u16 },
    Jump { base: RegisterIndex },
    Reserved,
    LoadEffectiveAddress { dr: RegisterIndex, pc_offset9: u16 },
    Trap { vector: u16 },
}

/// The general register named by the three bits of `w` from bit `shift` up.
pub open spec fn reg_at(w: u16, shift: u16) -> RegisterIndex {
    RegisterIndex(((w >> shift) & 7) as u8)
}

/// The low `width` bits of `w`, sign-extended.
pub open spec fn signed_low(w: u16, width: nat) -> u16 {
    sign_extend_spec((w as int % pow2(width) as int) as u16, width)
}

/// The instruction that the word `w` encodes; bits 15-12 select the opcode.
pub open spec fn decode_word(w: u16) -> Opcode {
    let op = w >> 12;
    if op == 0 {
        Opcode::Branch { mask: (w >> 9) & 7, pc_offset9: signed_low(w, 9) }
    } else if op == 1 {
        if (w >> 5) & 1 == 1 {
            Opcode::AddImmediate { dr: reg_at(w, 9), sr1: reg_at(w, 6), imm5: signed_low(w, 5) }
        } else {
            Opcode::Add { dr: reg_at(w, 9), sr1: reg_at(w, 6), sr2: reg_at(w, 0) }
        }
    } else if op == 2 {
        Opcode::Load { dr: reg_at(w, 9), pc_offset9: signed_low(w, 9) }
    } else if op == 3 {
        Opcode::Store { sr: reg_at(w, 9), pc_offset9: signed_low(w, 9) }
    } else if op == 4 {
        if (w >> 11) & 1 == 1 {
            Opcode::JumpRegisterRelative { pc_offset11: signed_low(w, 11) }
        } else {
            Opcode::JumpRegister { base: reg_at(w, 6) }
        }
    } else if op == 5 {
        if (w >> 5) & 1 == 1 {
            Opcode::AndImmediate { dr: reg_at(w, 9), sr1: reg_at(w, 6), imm5: signed_low(w, 5) }
        } else {
            Opcode::And { dr: reg_at(w, 9), sr1: reg_at(w, 6), sr2: reg_at(w, 0) }
        }
    } else if op == 6 {
        Opcode::LoadRegister { dr: reg_at(w, 9), base: reg_at(w, 6), offset6: signed_low(w, 6) }
    } else if op == 7 {
        Opcode::StoreRegister { sr: reg_at(w, 9), base: reg_at(w, 6), offset6: signed_low(w, 6) }
    } else if op == 8 {
        Opcode::Unused
    } else if op == 9 {
        Opcode::Not { dr: reg_at(w, 9), sr: reg_at(w, 6) }
    } else if op == 10 {
        Opcode::LoadIndirect { dr: reg_at(w, 9), pc_offset9: signed_low(w, 9) }
    } else if op == 11 {
        Opcode::StoreIndirect { sr: reg_at(w, 9), pc_offset9: signed_low(w, 9) }
    } else if op == 12 {
        Opcode::Jump { base: reg_at(w, 6) }
    } else if op == 13 {
        Opcode::Reserved
    } else if op == 14 {
        Opcode::LoadEffectiveAddress { dr: reg_at(w, 9), pc_offset9: signed_low(w, 9) }
    } else {
        Opcode::Trap { vector: w & 0xff }
    }
}

impl Opcode {
    /// Every register that the instruction names is one of R0..R7.
    pub open spec fn registers_general(self) -> bool {
        match self {
            Opcode::Add { dr, sr1, sr2 } => dr.0 < 8 && sr1.0 < 8 && sr2.0 < 8,
            Opcode::AddImmediate { dr, sr1, .. } => dr.0 < 8 && sr1.0 < 8,
            Opcode::Load { dr, .. } => dr.0 < 8,
            Opcode::Store { sr, .. } => sr.0 < 8,
            Opcode::JumpRegister { base } => base.0 < 8,
            Opcode::And { dr, sr1, sr2 } => dr.0 < 8 && sr1.0 < 8 && sr2.0 < 8,
            Opcode::AndImmediate { dr, sr1, .. } => dr.0 < 8 && sr1.0 < 8,
            Opcode::LoadRegister { dr, base, .. } => dr.0 < 8 && base.0 < 8,
            Opcode::StoreRegister { sr, base, .. } => sr.0 < 8 && base.0 < 8,
            Opcode::Not { dr, sr } => dr.0 < 8 && sr.0 < 8,
            Opcode::LoadIndirect { dr, .. } => dr.0 < 8,
            Opcode::StoreIndirect { sr, .. } => sr.0 < 8,
            Opcode::Jump { base } => base.0 < 8,
            Opcode::LoadEffectiveAddress { dr, .. } => dr.0 < 8,
            _ => true,
        }
    }

    /// The selector holds no defined instruction.
    pub open spec fn is_illegal(self) -> bool {
        self is Unused || self is Reserved
    }
}

/// Bit 5 chooses the immediate form of Add and And.
pub fn use_immediate_mode(w: u16) -> (r: bool)
    ensures
        r == ((w >> 5) & 1 == 1),
{
    (w >> 5) & 1 == 1
}

/// The register field at bits `shift + 2 ..= shift`.
pub fn read_register_field(w: u16, shift: u16) -> (r: RegisterIndex)
    requires
        shift <= 13,
    ensures
        r == reg_at(w, shift),
        r.0 < 8,
{
    let bits: u16 = (w >> shift) & 7;
    assert(((w >> shift) & 7) < 8) by (bit_vector);
    RegisterIndex(bits as u8)
}

/// Destination (or source for stores) register, bits 11-9.
pub fn read_dr(w: u16) -> (r: RegisterIndex)
    ensures
        r == reg_at(w, 9),
        r.0 < 8,
{
    read_register_field(w, 9)
}

/// First source (or base) register, bits 8-6.
pub fn read_sr1(w: u16) -> (r: RegisterIndex)
    ensures
        r == reg_at(w, 6),
        r.0 < 8,
{
    read_register_field(w, 6)
}

/// Second source register, bits 2-0.
pub fn read_sr2(w: u16) -> (r: RegisterIndex)
    ensures
        r == reg_at(w, 0),
        r.0 < 8,
{
    read_register_field(w, 0)
}

/// The low `width` bits of `w`, sign-extended to a word.
pub fn read_signed_field(w: u16, width: u16) -> (r: u16)
    requires
        1 <= width <= 15,
    ensures
        r == signed_low(w, width as nat),
{
    proof {
        lemma2_to64();
        vstd::arithmetic::power2::lemma_pow2_strictly_increases(width as nat, 16);
        vstd::bits::lemma_u32_shl_is_mul(1, width as u32);
    }
    let span: u32 = 1u32 << (width as u32);
    let low: u16 = ((w as u32) % span) as u16;
    sign_extend(low, width)
}

/// The 5-bit immediate of Add and And, bits 4-0, sign-extended.
pub fn read_imm5(w: u16) -> (r: u16)
    ensures
        r == signed_low(w, 5),
{
    read_signed_field(w, 5)
}

/// The 9-bit PC-relative offset, bits 8-0, sign-extended.
pub fn read_pc_offset9(w: u16) -> (r: u16)
    ensures
        r == signed_low(w, 9),
{
    read_signed_field(w, 9)
}

/// Decodes one instruction word. Every word decodes, and the result depends
/// on the word alone.
pub fn decode(w: u16) -> (r: Opcode)
    ensures
        r == decode_word(w),
        r.registers_general(),
{
    let op: u16 = w >> 12;
    if op == 0 {
        Opcode::Branch { mask: (w >> 9) & 7, pc_offset9: read_pc_offset9(w) }
    } else if op == 1 {
        if use_immediate_mode(w) {
            Opcode::AddImmediate { dr: read_dr(w), sr1: read_sr1(w), imm5: read_imm5(w) }
        } else {
            Opcode::Add { dr: read_dr(w), sr1: read_sr1(w), sr2: read_sr2(w) }
        }
    } else if op == 2 {
        Opcode::Load { dr: read_dr(w), pc_offset9: read_pc_offset9(w) }
    } else if op == 3 {
        Opcode::Store { sr: read_dr(w), pc_offset9: read_pc_offset9(w) }
    } else if op == 4 {
        if (w >> 11) & 1 == 1 {
            Opcode::JumpRegisterRelative { pc_offset11: read_signed_field(w, 11) }
        } else {
            Opcode::JumpRegister { base: read_sr1(w) }
        }
    } else if op == 5 {
        if use_immediate_mode(w) {
            Opcode::AndImmediate { dr: read_dr(w), sr1: read_sr1(w), imm5: read_imm5(w) }
        } else {
            Opcode::And { dr: read_dr(w), sr1: read_sr1(w), sr2: read_sr2(w) }
        }
    } else if op == 6 {
        Opcode::LoadRegister { dr: read_dr(w), base: read_sr1(w), offset6: read_signed_field(w, 6) }
    } else if op == 7 {
        Opcode::StoreRegister { sr: read_dr(w), base: read_sr1(w), offset6: read_signed_field(w, 6) }
    } else if op == 8 {
        Opcode::Unused
    } else if op == 9 {
        Opcode::Not { dr: read_dr(w), sr: read_sr1(w) }
    } else if op == 10 {
        Opcode::LoadIndirect { dr: read_dr(w), pc_offset9: read_pc_offset9(w) }
    } else if op == 11 {
        Opcode::StoreIndirect { sr: read_dr(w), pc_offset9: read_pc_offset9(w) }
    } else if op == 12 {
        Opcode::Jump { base: read_sr1(w) }
    } else if op == 13 {
        Opcode::Reserved
    } else if op == 14 {
        Opcode::LoadEffectiveAddress { dr: read_dr(w), pc_offset9: read_pc_offset9(w) }
    } else {
        Opcode::Trap { vector: w & 0xff }
    }
}

impl From<u16> for Opcode {
    fn from(value: u16) -> (r: Opcode) {
        decode(value)
    }
}

impl vstd::std_specs::convert::FromSpecImpl<u16> for Opcode {
    open spec fn obeys_from_spec() -> bool {
        true
    }

    open spec fn from_spec(v: u16) -> Opcode {
        decode_word(v)
    }
}

} // verus!
