use lc3_vm::machine::{Machine, MachineError};
use lc3_vm::opcode::{decode, Opcode};
use lc3_vm::registers::{RegisterIndex, FLAG_NEGATIVE, FLAG_POSITIVE, FLAG_ZERO};
use lc3_vm::word::sign_extend;

const ORIGIN: u16 = 0x3000;

fn r(i: u8) -> RegisterIndex {
    RegisterIndex(i)
}

fn machine_with(program: &[u16]) -> Machine {
    let mut m = Machine::new();
    m.load(program, ORIGIN).unwrap();
    m.set_pc(ORIGIN);
    m
}

#[test]
fn new_machine_is_zeroed() {
    let m = Machine::new();
    for i in 0..10u8 {
        assert_eq!(m.read_register(r(i)), 0);
    }
    assert_eq!(m.pc(), 0);
    assert_eq!(m.cond(), 0);
    assert_eq!(m.read_memory(0), 0);
    assert_eq!(m.read_memory(0xFFFF), 0);
}

#[test]
fn decode_is_deterministic() {
    for w in [0x0000u16, 0x1283, 0x127F, 0x3205, 0x8000, 0xD123, 0xF025, 0xFFFF] {
        assert_eq!(decode(w), decode(w));
        assert_eq!(Opcode::from(w), decode(w));
    }
}

#[test]
fn decode_fields() {
    assert_eq!(decode(0x1283), Opcode::Add { dr: r(1), sr1: r(2), sr2: r(3) });
    assert_eq!(decode(0x127F), Opcode::AddImmediate { dr: r(1), sr1: r(1), imm5: 0xFFFF });
    assert_eq!(decode(0x05FE), Opcode::Branch { mask: 0b010, pc_offset9: 0xFFFE });
    assert_eq!(decode(0x4FFF), Opcode::JumpRegisterRelative { pc_offset11: 0xFFFF });
    assert_eq!(decode(0x4080), Opcode::JumpRegister { base: r(2) });
    assert_eq!(decode(0x6A7F), Opcode::LoadRegister { dr: r(5), base: r(1), offset6: 0xFFFF });
    assert_eq!(decode(0x967F), Opcode::Not { dr: r(3), sr: r(1) });
    assert_eq!(decode(0xC1C0), Opcode::Jump { base: r(7) });
    assert_eq!(decode(0xF025), Opcode::Trap { vector: 0x25 });
    assert_eq!(decode(0x8FFF), Opcode::Unused);
    assert_eq!(decode(0xD000), Opcode::Reserved);
}

#[test]
fn sign_extension_per_width() {
    assert_eq!(sign_extend(0x1F, 5), 0xFFFF);
    assert_eq!(sign_extend(0x0F, 5), 0x000F);
    assert_eq!(sign_extend(0x10, 5), 0xFFF0);
    assert_eq!(sign_extend(0x20, 6), 0xFFE0);
    assert_eq!(sign_extend(0x1F, 6), 0x001F);
    assert_eq!(sign_extend(0x100, 9), 0xFF00);
    assert_eq!(sign_extend(0x0FF, 9), 0x00FF);
    assert_eq!(sign_extend(0x400, 11), 0xFC00);
    assert_eq!(sign_extend(0x3FF, 11), 0x03FF);
}

#[test]
fn register_write_then_read() {
    let mut m = Machine::new();
    for i in 0..10u8 {
        let v = 0x1111u16.wrapping_mul(i as u16 + 1);
        m.write_register(r(i), v);
        assert_eq!(m.read_register(r(i)), v);
    }
    assert_eq!(m.read_register(r(0)), 0x1111);
}

#[test]
fn add_registers() {
    let mut m = machine_with(&[0x1283]);
    m.write_register(r(2), 3);
    m.write_register(r(3), 4);
    assert_eq!(m.step(), Ok(Opcode::Add { dr: r(1), sr1: r(2), sr2: r(3) }));
    assert_eq!(m.read_register(r(1)), 7);
    assert_eq!(m.cond(), FLAG_POSITIVE);
    assert_eq!(m.pc(), ORIGIN + 1);
}

#[test]
fn add_immediate_negative() {
    let mut m = machine_with(&[0x127F]);
    m.write_register(r(1), 5);
    m.step().unwrap();
    assert_eq!(m.read_register(r(1)), 4);
    assert_eq!(m.cond(), FLAG_POSITIVE);
}

#[test]
fn add_wraps_to_zero() {
    let mut m = machine_with(&[0x1261]);
    m.write_register(r(1), 0xFFFF);
    m.step().unwrap();
    assert_eq!(m.read_register(r(1)), 0);
    assert_eq!(m.cond(), FLAG_ZERO);
}

#[test]
fn and_not_set_flags() {
    // AND R0,R0,#0 ; NOT R1,R0 ; AND R2,R1,R3
    let mut m = machine_with(&[0x5020, 0x923F, 0x5443]);
    m.write_register(r(0), 0x1234);
    m.write_register(r(3), 0x00F0);
    m.step().unwrap();
    assert_eq!(m.read_register(r(0)), 0);
    assert_eq!(m.cond(), FLAG_ZERO);
    m.step().unwrap();
    assert_eq!(m.read_register(r(1)), 0xFFFF);
    assert_eq!(m.cond(), FLAG_NEGATIVE);
    m.step().unwrap();
    assert_eq!(m.read_register(r(2)), 0x00F0);
    assert_eq!(m.cond(), FLAG_POSITIVE);
}

#[test]
fn store_then_load_round_trip() {
    // ST R1,#5 stores at 0x3006; LD R2,#4 reads 0x3002 + 4 = 0x3006.
    let mut m = machine_with(&[0x3205, 0x2404]);
    m.write_register(r(1), 0xBEEF);
    m.step().unwrap();
    assert_eq!(m.read_memory(0x3006), 0xBEEF);
    m.step().unwrap();
    assert_eq!(m.read_register(r(2)), 0xBEEF);
    assert_eq!(m.cond(), FLAG_NEGATIVE);
}

#[test]
fn register_relative_and_indirect_access() {
    // STR R1,R2,#-1 ; LDR R3,R2,#-1 ; STI R1,#1 ; LDI R4,#0 ; .FILL 0x4000
    let mut m = machine_with(&[0x72BF, 0x66BF, 0xB201, 0xA800, 0x4000]);
    m.write_register(r(1), 42);
    m.write_register(r(2), 0x5000);
    m.step().unwrap();
    assert_eq!(m.read_memory(0x4FFF), 42);
    m.step().unwrap();
    assert_eq!(m.read_register(r(3)), 42);
    m.step().unwrap();
    assert_eq!(m.read_memory(0x4000), 42);
    m.step().unwrap();
    assert_eq!(m.read_register(r(4)), 42);
}

#[test]
fn load_effective_address() {
    // LEA R5,#-3 at 0x3000 gives 0x3001 - 3.
    let mut m = machine_with(&[0xEBFD]);
    m.step().unwrap();
    assert_eq!(m.read_register(r(5)), 0x2FFE);
    assert_eq!(m.cond(), FLAG_POSITIVE);
}

#[test]
fn branch_counts_from_incremented_pc() {
    // AND R0,R0,#0 ; BRz #3
    let mut m = machine_with(&[0x5020, 0x0403]);
    m.step().unwrap();
    m.step().unwrap();
    assert_eq!(m.pc(), 0x3005);

    // AND R0,R0,#0 ; BRz #-2
    let mut m = machine_with(&[0x5020, 0x05FE]);
    m.step().unwrap();
    m.step().unwrap();
    assert_eq!(m.pc(), 0x3000);
}

#[test]
fn branch_not_taken() {
    // AND R0,R0,#0 ; BRnp #3
    let mut m = machine_with(&[0x5020, 0x0A03]);
    m.step().unwrap();
    m.step().unwrap();
    assert_eq!(m.pc(), 0x3002);
}

#[test]
fn jumps_and_subroutine_calls() {
    // JSR #4 ; then at 0x3005: JSRR R2 ; at 0x6000: JMP R7
    let mut m = machine_with(&[0x4804]);
    m.load(&[0x4080], 0x3005).unwrap();
    m.load(&[0xC1C0], 0x6000).unwrap();
    m.write_register(r(2), 0x6000);
    m.step().unwrap();
    assert_eq!(m.pc(), 0x3005);
    assert_eq!(m.read_register(r(7)), 0x3001);
    m.step().unwrap();
    assert_eq!(m.pc(), 0x6000);
    assert_eq!(m.read_register(r(7)), 0x3006);
    m.step().unwrap();
    assert_eq!(m.pc(), 0x3006);
}

#[test]
fn trap_saves_return_and_jumps_through_table() {
    let mut m = machine_with(&[0xF025]);
    m.load(&[0x1000], 0x25).unwrap();
    assert_eq!(m.step(), Ok(Opcode::Trap { vector: 0x25 }));
    assert_eq!(m.read_register(r(7)), 0x3001);
    assert_eq!(m.pc(), 0x1000);
    assert_eq!(m.read_memory(0x25), 0x1000);
}

#[test]
fn load_past_end_fails_and_changes_nothing() {
    let mut m = Machine::new();
    m.write_memory(0xFFFE, 7);
    m.write_memory(0xFFFF, 8);
    assert_eq!(m.load(&[1, 2, 3], 0xFFFE), Err(MachineError::OutOfBoundsLoad));
    assert_eq!(m.read_memory(0xFFFE), 7);
    assert_eq!(m.read_memory(0xFFFF), 8);
    assert_eq!(m.read_memory(0x0000), 0);
    assert_eq!(m.load(&[1, 2], 0xFFFE), Ok(()));
    assert_eq!(m.read_memory(0xFFFE), 1);
    assert_eq!(m.read_memory(0xFFFF), 2);
    assert_eq!(m.load(&[], 0xFFFF), Ok(()));
}

#[test]
fn illegal_opcodes_report_and_change_nothing() {
    for w in [0x8000u16, 0x8FFF, 0xD000, 0xDABC] {
        let mut m = machine_with(&[w]);
        m.write_register(r(1), 9);
        let before = (m.pc(), m.cond(), m.read_register(r(1)), m.read_memory(ORIGIN));
        assert_eq!(m.step(), Err(MachineError::IllegalOpcode));
        let after = (m.pc(), m.cond(), m.read_register(r(1)), m.read_memory(ORIGIN));
        assert_eq!(before, after);
    }
}
