use rsmisc::arithmetic_operation::ArithmeticOperation;
use rsmisc::error::{ErrorKind, RsmiscError};
use rsmisc::instruction::{Instruction, Opcode};
use rsmisc::operand::Operand;
use rsmisc::rsmisc::Rsmisc;

const HALT: u8 = 0x0;
const ADD: u8 = 0x1;
const SUB: u8 = 0x2;
const MUL: u8 = 0x3;
const DIV: u8 = 0x4;
const MOV: u8 = 0x5;
const LD: u8 = 0x6;
const ULD: u8 = 0x7;
const BZ: u8 = 0x8;
const SWI: u8 = 0x9;
const CALL: u8 = 0xA;
const RET: u8 = 0xB;

// Operand indices in the combination byte.
const R1: u8 = 0;
const R2: u8 = 1;
const R3: u8 = 2;
const IP: u8 = 4;
const CT: u8 = 5;
const MA: u8 = 6;

fn word(op: u8, target: u8, source: u8, target_imm: u16, source_imm: u16) -> Vec<u8> {
    let comb = target * 7 + source;
    vec![
        op,
        comb,
        (target_imm >> 8) as u8,
        (target_imm & 0xff) as u8,
        (source_imm >> 8) as u8,
        (source_imm & 0xff) as u8,
    ]
}

fn program(words: &[Vec<u8>]) -> Rsmisc {
    let bytes: Vec<u8> = words.iter().flatten().copied().collect();
    Rsmisc::new(&bytes).unwrap()
}

fn kind(r: Result<bool, RsmiscError>) -> ErrorKind {
    r.unwrap_err().kind
}

#[test]
fn decode_fields_big_endian() {
    let i = Instruction::from(0x05_0C_1234_5678u64);
    assert!(matches!(i.op_code, Opcode::MOV));
    assert_eq!(i.target, Operand::R2);
    assert_eq!(i.source, Operand::CT);
    assert_eq!(i.target_imm, 0x1234);
    assert_eq!(i.source_imm, 0x5678);
}

#[test]
fn decode_ignores_bits_above_48() {
    let i = Instruction::from(0xABCD_0A_06_0001_0002u64);
    assert!(matches!(i.op_code, Opcode::CALL));
    assert_eq!(i.target, Operand::R1);
    assert_eq!(i.source, Operand::MA);
    assert_eq!(i.target_imm, 1);
    assert_eq!(i.source_imm, 2);
}

#[test]
fn decode_unknown_opcode_is_nop() {
    let i = Instruction::from(0xFF_00_0000_0000u64);
    assert!(matches!(i.op_code, Opcode::NOP));
    let i = Instruction::from(0x0C_00_0000_0000u64);
    assert!(matches!(i.op_code, Opcode::NOP));
}

#[test]
fn decode_then_encode_gives_the_word_back() {
    let codes = [0x0u64, 0x1, 0x5, 0x8, 0xB];
    for op in codes {
        for comb in [0u64, 7, 23, 40, 48] {
            let w = (op << 40) | (comb << 32) | (0xBEEFu64 << 16) | 0x0102u64;
            let i = Instruction::from(w);
            let op_byte = i.op_code as u64;
            let t = operand_index(i.target);
            let s = operand_index(i.source);
            let back = (op_byte << 40)
                | ((t * 7 + s) << 32)
                | ((i.target_imm as u64) << 16)
                | (i.source_imm as u64);
            assert_eq!(back, w);
        }
    }
}

fn operand_index(o: Operand) -> u64 {
    match o {
        Operand::R1 => 0,
        Operand::R2 => 1,
        Operand::R3 => 2,
        Operand::R4 => 3,
        Operand::IP => 4,
        Operand::CT => 5,
        Operand::MA => 6,
    }
}

#[test]
fn combination_byte_is_a_bijection() {
    let order = [
        Operand::R1,
        Operand::R2,
        Operand::R3,
        Operand::R4,
        Operand::IP,
        Operand::CT,
        Operand::MA,
    ];
    for t in 0..7u8 {
        for s in 0..7u8 {
            let c = t * 7 + s;
            assert_eq!(Operand::get_combination_target(c), order[t as usize]);
            assert_eq!(Operand::get_combination_source(c), order[s as usize]);
        }
    }
}

#[test]
fn combination_target_falls_back_to_r1() {
    assert_eq!(Operand::get_combination_target(49), Operand::R1);
    assert_eq!(Operand::get_combination_target(255), Operand::R1);
    assert_eq!(Operand::get_combination_source(255), Operand::R4);
}

#[test]
fn add_wraps_around() {
    let mut m = program(&[word(ADD, CT, CT, 0xFFFF, 0x0001), word(HALT, 0, 0, 0, 0)]);
    assert_eq!(m.execute_next(false).unwrap(), true);
    assert_eq!(m.stack(), &[0x0000]);
    assert_eq!(m.ip(), 6);
    assert_eq!(m.execute_next(false).unwrap(), false);
}

#[test]
fn sub_wraps_around() {
    let mut m = program(&[word(SUB, CT, CT, 0x0000, 0x0001)]);
    assert_eq!(m.execute_next(false).unwrap(), true);
    assert_eq!(m.stack(), &[0xFFFF]);
}

#[test]
fn mul_wraps_around() {
    let mut m = program(&[word(MUL, CT, CT, 0x0100, 0x0100), word(MUL, CT, CT, 7, 6)]);
    m.execute_next(false).unwrap();
    m.execute_next(false).unwrap();
    assert_eq!(m.stack(), &[0x0000, 42]);
}

#[test]
fn div_truncates_and_reports_division_by_zero() {
    let mut m = program(&[word(DIV, CT, CT, 7, 2), word(DIV, CT, CT, 7, 0)]);
    m.execute_next(false).unwrap();
    assert_eq!(m.stack(), &[3]);
    let e = m.execute_next(false).unwrap_err();
    assert_eq!(e.kind, ErrorKind::DivisionByZero);
    assert_eq!(e.code, -7);
    assert_eq!(e.address, 6);
    assert_eq!(m.stack(), &[3]);
    assert_eq!(m.ip(), 6);
}

#[test]
fn arithmetic_unit_formulas() {
    assert_eq!(ArithmeticOperation::Add.apply(0xFFFF, 2), Some(1));
    assert_eq!(ArithmeticOperation::Sub.apply(3, 5), Some(0xFFFE));
    assert_eq!(ArithmeticOperation::Mul.apply(0x8000, 2), Some(0));
    assert_eq!(ArithmeticOperation::Div.apply(100, 7), Some(14));
    assert_eq!(ArithmeticOperation::Div.apply(100, 0), None);
}

#[test]
fn arithmetic_reads_registers_and_memory_without_popping() {
    // ADD R1, [0x0C]; the word at 0x0C is 0x0102.
    let mut m = program(&[word(ADD, R1, MA, 0, 0x000C), word(HALT, 0, 0, 0, 0), vec![0x01, 0x02]]);
    m.set_register(0, 0x10);
    m.execute_next(false).unwrap();
    assert_eq!(m.stack(), &[0x0112]);
    assert_eq!(m.register(0), 0x10);
}

#[test]
fn call_then_return_resumes_after_the_call() {
    let mut m = program(&[
        word(CALL, CT, 0, 0x000C, 0),
        word(HALT, 0, 0, 0, 0),
        word(RET, 0, 0, 0, 0),
    ]);
    assert_eq!(m.execute_next(false).unwrap(), true);
    assert_eq!(m.ip(), 0x0C);
    assert_eq!(m.call_stack(), &[6]);
    assert_eq!(m.execute_next(false).unwrap(), true);
    assert_eq!(m.ip(), 6);
    assert!(m.call_stack().is_empty());
    assert_eq!(m.execute_next(false).unwrap(), false);
}

#[test]
fn call_to_address_zero() {
    let mut m = program(&[word(NOP_BYTE, 0, 0, 0, 0), word(CALL, CT, 0, 0, 0)]);
    m.execute_next(false).unwrap();
    m.execute_next(false).unwrap();
    assert_eq!(m.ip(), 0);
    assert_eq!(m.call_stack(), &[12]);
}

const NOP_BYTE: u8 = 0x0C;

#[test]
fn uld_on_empty_stack_underflows() {
    let mut m = program(&[word(ULD, R2, 0, 0, 0)]);
    m.set_register(1, 9);
    let e = m.execute_next(false).unwrap_err();
    assert_eq!(e.kind, ErrorKind::StackUnderflow);
    assert_eq!(e.code, -4);
    assert_eq!(m.register(0), 0);
    assert_eq!(m.register(1), 9);
    assert_eq!(m.ip(), 0);
}

#[test]
fn ret_on_empty_call_stack_faults() {
    let mut m = program(&[word(NOP_BYTE, 0, 0, 0, 0), word(RET, 0, 0, 0, 0)]);
    m.execute_next(false).unwrap();
    let e = m.execute_next(false).unwrap_err();
    assert_eq!(e.kind, ErrorKind::CallStackEmpty);
    assert_eq!(e.code, -2);
    assert_eq!(e.address, 6);
    assert_eq!(m.ip(), 6);
}

#[test]
fn ld_uld_halt_moves_r1_into_r2() {
    let mut m = program(&[word(LD, R1, 0, 0, 0), word(ULD, R2, 0, 0, 0), word(HALT, 0, 0, 0, 0)]);
    m.set_register(0, 0x2A);
    assert_eq!(m.execute_next(false).unwrap(), true);
    assert_eq!(m.execute_next(false).unwrap(), true);
    assert_eq!(m.execute_next(false).unwrap(), false);
    assert_eq!(m.register(1), 0x2A);
    assert!(m.stack().is_empty());
}

#[test]
fn swi_prints_r1_in_decimal() {
    let mut m = program(&[word(MOV, R1, CT, 0, 7), word(SWI, CT, 0, 0x1, 0)]);
    m.execute_next(false).unwrap();
    m.execute_next(false).unwrap();
    assert_eq!(m.take_output(), "7");
    assert_eq!(m.take_output(), "");
}

#[test]
fn swi_decimal_of_preloaded_r1() {
    let mut m = program(&[word(SWI, CT, 0, 0x1, 0)]);
    m.set_register(0, 7);
    m.execute_next(false).unwrap();
    assert_eq!(m.take_output(), "7");
    let mut m = program(&[word(SWI, CT, 0, 0x1, 0)]);
    m.set_register(0, 65535);
    m.execute_next(false).unwrap();
    assert_eq!(m.take_output(), "65535");
}

#[test]
fn swi_prints_r1_as_a_character() {
    let mut m = program(&[word(SWI, CT, 0, 0x0, 0), word(SWI, CT, 0, 0x0, 0)]);
    m.set_register(0, 0x41);
    m.execute_next(false).unwrap();
    m.set_register(0, 0xD800);
    m.execute_next(false).unwrap();
    assert_eq!(m.take_output(), "A");
}

#[test]
fn swi_unknown_code_is_unimplemented() {
    let mut m = program(&[word(SWI, CT, 0, 0x2, 0)]);
    let e = m.execute_next(false).unwrap_err();
    assert_eq!(e.kind, ErrorKind::UnimplementedInterrupt);
    assert_eq!(e.code, -3);
}

#[test]
fn bz_jumps_when_zero() {
    let mut m = program(&[word(BZ, R1, CT, 0, 0x0018)]);
    assert_eq!(m.execute_next(false).unwrap(), true);
    assert_eq!(m.ip(), 0x0018);
}

#[test]
fn bz_falls_through_when_not_zero() {
    let mut m = program(&[word(BZ, R1, CT, 0, 0x0018)]);
    m.set_register(0, 5);
    assert_eq!(m.execute_next(false).unwrap(), true);
    assert_eq!(m.ip(), 6);
}

#[test]
fn mov_into_constant_or_memory_is_invalid() {
    let mut m = program(&[word(MOV, CT, CT, 0, 1)]);
    assert_eq!(kind(m.execute_next(false)), ErrorKind::InvalidMoveTarget);
    let mut m = program(&[word(MOV, MA, CT, 0, 1)]);
    let e = m.execute_next(false).unwrap_err();
    assert_eq!(e.kind, ErrorKind::InvalidMoveTarget);
    assert_eq!(e.code, -6);
}

#[test]
fn mov_into_registers_and_ip() {
    let mut m = program(&[word(MOV, R3, CT, 0, 0x1234), word(MOV, IP, CT, 0, 0x0100)]);
    m.execute_next(false).unwrap();
    assert_eq!(m.register(2), 0x1234);
    m.execute_next(false).unwrap();
    assert_eq!(m.ip(), 0x0106);
}

#[test]
fn uld_into_constant_is_invalid_after_popping() {
    let mut m = program(&[word(LD, CT, 0, 5, 0), word(ULD, CT, 0, 0, 0)]);
    m.execute_next(false).unwrap();
    let e = m.execute_next(false).unwrap_err();
    assert_eq!(e.kind, ErrorKind::InvalidUnloadTarget);
    assert_eq!(e.code, -5);
    assert!(m.stack().is_empty());
}

#[test]
fn uld_into_memory_stores_big_endian() {
    let mut m = program(&[word(LD, CT, 0, 0xABCD, 0), word(ULD, MA, 0, 0x0100, 0), word(LD, MA, 0, 0x0100, 0)]);
    m.execute_next(false).unwrap();
    m.execute_next(false).unwrap();
    assert_eq!(m.memory_byte(0x0100), 0xAB);
    assert_eq!(m.memory_byte(0x0101), 0xCD);
    m.execute_next(false).unwrap();
    assert_eq!(m.stack(), &[0xABCD]);
}

#[test]
fn uld_into_last_byte_is_a_memory_fault() {
    let mut m = program(&[word(LD, CT, 0, 1, 0), word(ULD, MA, 0, 0xFFFF, 0)]);
    m.execute_next(false).unwrap();
    assert_eq!(kind(m.execute_next(false)), ErrorKind::MemoryFault);
}

#[test]
fn memory_bounds() {
    let mut m = program(&[word(HALT, 0, 0, 0, 0)]);
    assert!(m.load_48(0xFFFA).is_ok());
    assert_eq!(m.load_48(0xFFFB).unwrap_err().kind, ErrorKind::MemoryFault);
    assert!(m.load_16(0xFFFE).is_ok());
    assert_eq!(m.load_16(0xFFFF).unwrap_err().kind, ErrorKind::MemoryFault);
    assert!(m.store_16(0xFFFE, 0x1234).is_ok());
    assert_eq!(m.load_16(0xFFFE).unwrap(), 0x1234);
    let e = m.store_16(0xFFFF, 1).unwrap_err();
    assert_eq!(e.kind, ErrorKind::MemoryFault);
    assert_eq!(e.code, -8);
}

#[test]
fn load_48_reads_big_endian() {
    let m = program(&[vec![1, 2, 3, 4, 5, 6]]);
    assert_eq!(m.load_48(0).unwrap(), 0x0102_0304_0506);
    assert_eq!(m.load_16(1).unwrap(), 0x0203);
}

#[test]
fn fetch_past_end_is_a_memory_fault() {
    let mut m = program(&[word(MOV, IP, CT, 0, 0xFFF6)]);
    m.execute_next(false).unwrap();
    assert_eq!(m.ip(), 0xFFFC);
    assert_eq!(kind(m.execute_next(false)), ErrorKind::MemoryFault);
}

#[test]
fn program_larger_than_memory_is_refused() {
    let big = vec![0u8; 0x10001];
    assert_eq!(Rsmisc::new(&big).err().unwrap().kind, ErrorKind::MemoryFault);
    let full = vec![7u8; 0x10000];
    let m = Rsmisc::new(&full).unwrap();
    assert_eq!(m.memory_byte(0xFFFF), 7);
}

#[test]
fn nop_changes_only_ip() {
    let mut m = program(&[word(0xEE, 0, 0, 0, 0)]);
    assert_eq!(m.execute_next(false).unwrap(), true);
    assert_eq!(m.ip(), 6);
    assert!(m.stack().is_empty());
}

#[test]
fn operand_display() {
    assert_eq!(Operand::CT.display(0x2a), "#2A");
    assert_eq!(Operand::MA.display(0xbeef), "BEEF");
    assert_eq!(Operand::MA.display(0), "0");
    assert_eq!(Operand::R3.display(5), "R3");
    assert_eq!(Operand::IP.display(5), "IP");
}

#[test]
fn instruction_text() {
    let i = Instruction::from(0x01_05_0000_002Au64);
    assert_eq!(i.to_string(), "ADD R1 #2A");
    let i = Instruction::from(0x07_2A_0100_0000u64);
    assert_eq!(i.to_string(), "ULD 100");
    assert_eq!(Instruction::from(0x0B_00_0000_0000u64).to_string(), "RET");
    assert_eq!(Instruction::from(0x09_23_0001_0000u64).to_string(), "SWI #1");
}

#[test]
fn trace_line_precedes_the_effect() {
    let mut m = program(&[word(ADD, R1, CT, 0, 0x2A), word(SWI, CT, 0, 1, 0)]);
    m.execute_next(true).unwrap();
    m.set_register(0, 12);
    m.execute_next(true).unwrap();
    assert_eq!(m.take_output(), "0x0:\t ADD R1 #2A\n0x6:\t SWI #1\n12");
}

#[test]
fn trace_is_written_even_when_the_step_faults() {
    let mut m = program(&[word(RET, 0, 0, 0, 0)]);
    assert!(m.execute_next(true).is_err());
    assert_eq!(m.take_output(), "0x0:\t RET\n");
}

#[test]
fn machine_state_dump() {
    let m = program(&[word(HALT, 0, 0, 0, 0)]);
    assert_eq!(
        m.to_string(),
        "| Machine state\n|\n| CS: -\t\tCSP: 0x0\n| S: -\t\tSP: 0x0\n| R1: 0x0\tR2: 0x0\n| R3: 0x0\tR4: 0x0\n| IP: 0x0"
    );
    let mut m = program(&[word(LD, CT, 0, 0xAB, 0), word(CALL, CT, 0, 0x20, 0)]);
    m.set_register(3, 0x1F);
    m.execute_next(false).unwrap();
    m.execute_next(false).unwrap();
    assert_eq!(
        m.to_string(),
        "| Machine state\n|\n| CS: 0xc\tCSP: 0x1\n| S: 0xab\tSP: 0x1\n| R1: 0x0\tR2: 0x0\n| R3: 0x0\tR4: 0x1f\n| IP: 0x20"
    );
}

#[test]
fn error_message() {
    let e = RsmiscError::new(ErrorKind::CallStackEmpty, 0x1a);
    assert_eq!(e.code, -2);
    assert_eq!(e.message(), "CALL_STACK_EMPTY (at 0x1a)");
    let e = RsmiscError::new(ErrorKind::DivisionByZero, 0);
    assert_eq!(e.message(), "DIVISION_BY_ZERO (at 0x0)");
}
