use vstd::prelude::*;
use crate::operand::{Operand, operand_index, operand_of_index, operand_text};
use crate::text::{push_char, push_str};

verus! {

/// The operation selector of an instruction. Bytes that name no operation
/// decode to `NOP`.
#[derive(Clone, Copy, Debug, PartialEq, Eq, Structural)]
pub enum Opcode {
    HALT,
    ADD,
    SUB,
    MUL,
    DIV,
    MOV,
    LD,
    ULD,
    BZ,
    SWI,
    CALL,
    RET,
    NOP,
}

/// A decoded instruction: an opcode, the target and source operands, and
/// the immediate of each side.
#[derive(Clone, Copy, Debug, PartialEq, Eq, Structural)]
pub struct Instruction {
    pub op_code: Opcode,
    pub target: Operand,
    pub source: Operand,
    pub target_imm: u16,
    pub source_imm: u16,
}

/// The opcode that byte `b` selects.
pub open spec fn opcode_of_byte(b: u8) -> Opcode {
    if b == 0x0 {
        Opcode::HALT
    } else if b == 0x1 {
        Opcode::ADD
    } else if b == 0x2 {
        Opcode::SUB
    } else if b == 0x3 {
        Opcode::MUL
    } else if b == 0x4 {
        Opcode::DIV
    } else if b == 0x5 {
        Opcode::MOV
    } else if b == 0x6 {
        Opcode::LD
    } else if b == 0x7 {
        Opcode::ULD
    } else if b == 0x8 {
        Opcode::BZ
    } else if b == 0x9 {
        Opcode::SWI
    } else if b == 0xA {
        Opcode::CALL
    } else if b == 0xB {
        Opcode::RET
    } else {
        Opcode::NOP
    }
}

/// The byte that encodes an opcode (`NOP` is written as 0xC).
pub open spec fn opcode_byte(op: Opcode) -> u8 {
    match op {
        Opcode::HALT => 0x0,
        Opcode::ADD => 0x1,
        Opcode::SUB => 0x2,
        Opcode::MUL => 0x3,
        Opcode::DIV => 0x4,
        Opcode::MOV => 0x5,
        Opcode::LD => 0x6,
        Opcode::ULD => 0x7,
        Opcode::BZ => 0x8,
        Opcode::SWI => 0x9,
        Opcode::CALL => 0xA,
        Opcode::RET => 0xB,
        Opcode::NOP => 0xC,
    }
}

/// Byte 0 of a 48-bit word (its most significant byte): the opcode.
pub open spec fn word_opcode(w: u64) -> u8 {
    ((w >> 40u64) & 0xffu64) as u8
}

/// Byte 1 of a 48-bit word: the operand combination.
pub open spec fn word_combination(w: u64) -> u8 {
    ((w >> 32u64) & 0xffu64) as u8
}

/// Bytes 2 and 3 of a 48-bit word, big-endian: the target immediate.
pub open spec fn word_target_imm(w: u64) -> u16 {
    ((w >> 16u64) & 0xffffu64) as u16
}

/// Bytes 4 and 5 of a 48-bit word, big-endian: the source immediate.
pub open spec fn word_source_imm(w: u64) -> u16 {
    (w & 0xffffu64) as u16
}

/// The instruction that a 48-bit word encodes; bits above the 48th are ignored.
pub open spec fn decode(w: u64) -> Instruction {
    Instruction {
        op_code: opcode_of_byte(word_opcode(w)),
        target: operand_of_index(word_combination(w) as int / 7),
        source: operand_of_index(word_combination(w) as int % 7),
        target_imm: word_target_imm(w),
        source_imm: word_source_imm(w),
    }
}

/// The 48-bit word that writes an instruction.
pub open spec fn encode(i: Instruction) -> u64 {
    let comb = (operand_index(i.target) * 7 + operand_index(i.source)) as u64;
    ((opcode_byte(i.op_code) as u64) << 40u64) | (comb << 32u64) | ((i.target_imm as u64) << 16u64)
        | (i.source_imm as u64)
}

/// How many operands an opcode's text shows.
pub open spec fn operand_count(op: Opcode) -> int {
    match op {
        Opcode::HALT | Opcode::RET | Opcode::NOP => 0,
        Opcode::LD | Opcode::ULD | Opcode::SWI | Opcode::CALL => 1,
        _ => 2,
    }
}

/// The mnemonic of an opcode.
pub open spec fn opcode_name(op: Opcode) -> Seq<char> {
    match op {
        Opcode::HALT => "HALT"@,
        Opcode::ADD => "ADD"@,
        Opcode::SUB => "SUB"@,
        Opcode::MUL => "MUL"@,
        Opcode::DIV => "DIV"@,
        Opcode::MOV => "MOV"@,
        Opcode::LD => "LD"@,
        Opcode::ULD => "ULD"@,
        Opcode::BZ => "BZ"@,
        Opcode::SWI => "SWI"@,
        Opcode::CALL => "CALL"@,
        Opcode::RET => "RET"@,
        Opcode::NOP => "NOP"@,
    }
}

/// The text of an instruction: its mnemonic, then the operands that it
/// shows, each after one space.
pub open spec fn instruction_text(i: Instruction) -> Seq<char> {
    opcode_name(i.op_code) + (if operand_count(i.op_code) >= 1 {
        seq![' '] + operand_text(i.target, i.target_imm)
    } else {
        Seq::empty()
    }) + (if operand_count(i.op_code) >= 2 {
        seq![' '] + operand_text(i.source, i.source_imm)
    } else {
        Seq::empty()
    })
}

impl From<u64> for Instruction {
    /// Decodes a 48-bit instruction word.
    fn from(tword: u64) -> Instruction {
        let op = ((tword >> 40u64) & 0xffu64) as u8;
        let operand_combination = ((tword >> 32u64) & 0xffu64) as u8;
        let target_imm = ((tword >> 16u64) & 0xffffu64) as u16;
        let source_imm = (tword & 0xffffu64) as u16;
        let op_code = match op {
            0x0 => Opcode::HALT,
            0x1 => Opcode::ADD,
            0x2 => Opcode::SUB,
            0x3 => Opcode::MUL,
            0x4 => Opcode::DIV,
            0x5 => Opcode::MOV,
            0x6 => Opcode::LD,
            0x7 => Opcode::ULD,
            0x8 => Opcode::BZ,
            0x9 => Opcode::SWI,
            0xA => Opcode::CALL,
            0xB => Opcode::RET,
            _ => Opcode::NOP,
        };
        Instruction {
            op_code,
            target: Operand::get_combination_target(operand_combination),
            source: Operand::get_combination_source(operand_combination),
            target_imm,
            source_imm,
        }
    }
}

impl vstd::std_specs::convert::FromSpecImpl<u64> for Instruction {
    open spec fn obeys_from_spec() -> bool {
        true
    }

    open spec fn from_spec(v: u64) -> Instruction {
        decode(v)
    }
}

impl Instruction {
    /// Appends the text of this instruction to `s`.
    pub fn push_text(&self, s: &mut String)
        ensures
            final(s)@ == old(s)@ + instruction_text(*self),
    {
        let name = match self.op_code {
            Opcode::HALT => "HALT",
            Opcode::ADD => "ADD",
            Opcode::SUB => "SUB",
            Opcode::MUL => "MUL",
            Opcode::DIV => "DIV",
            Opcode::MOV => "MOV",
            Opcode::LD => "LD",
            Opcode::ULD => "ULD",
            Opcode::BZ => "BZ",
            Opcode::SWI => "SWI",
            Opcode::CALL => "CALL",
            Opcode::RET => "RET",
            Opcode::NOP => "NOP",
        };
        push_str(s, name);
        let ghost after_name = s@;
        let shown: u8 = match self.op_code {
            Opcode::HALT | Opcode::RET | Opcode::NOP => 0,
            Opcode::LD | Opcode::ULD | Opcode::SWI | Opcode::CALL => 1,
            _ => 2,
        };
        if shown >= 1 {
            push_char(s, ' ');
            self.target.push_text(s, self.target_imm);
        }
        let ghost after_target = s@;
        if shown >= 2 {
            push_char(s, ' ');
            self.source.push_text(s, self.source_imm);
        }
        assert(s@ =~= old(s)@ + instruction_text(*self));
    }

    /// The text of this instruction, e.g. `ADD R1 #2A`.
    pub fn to_string(&self) -> (r: String)
        ensures
            r@ == instruction_text(*self),
    {
        let mut s = String::new();
        self.push_text(&mut s);
        assert(s@ =~= instruction_text(*self));
        s
    }
}

/// Decoding a 48-bit word whose opcode byte names an operation (at most
/// 0xB) and whose combination byte names a pair of operands (at most 48),
/// then encoding the instruction again, gives back the same word.
pub proof fn lemma_decode_encode_round_trip(w: u64)
    requires
        w < 0x1_0000_0000_0000u64,
        word_opcode(w) <= 0xB,
        word_combination(w) <= 48,
    ensures
        encode(decode(w)) == w,
{
    let b0 = word_opcode(w);
    let b1 = word_combination(w);
    let t = word_target_imm(w);
    let s = word_source_imm(w);
    assert(opcode_byte(opcode_of_byte(b0)) == b0);
    lemma_combination_round_trip(b1 as int / 7, b1 as int % 7);
    assert(operand_index(operand_of_index(b1 as int / 7)) * 7 + operand_index(operand_of_index(b1 as int % 7)) == b1);
    assert(((b0 as u64) << 40u64) | ((b1 as u64) << 32u64) | ((t as u64) << 16u64) | (s as u64) == w)
        by (bit_vector)
        requires
            w < 0x1_0000_0000_0000u64,
            b0 == ((w >> 40u64) & 0xffu64) as u8,
            b1 == ((w >> 32u64) & 0xffu64) as u8,
            t == ((w >> 16u64) & 0xffffu64) as u16,
            s == (w & 0xffffu64) as u16,
    ;
}

/// For a target index and a source index each below seven, the combination
/// byte `target * 7 + source` decodes to the operands of those indices, and
/// the indices of those operands give the byte back.
pub proof fn lemma_combination_round_trip(target: int, source: int)
    requires
        0 <= target < 7,
        0 <= source < 7,
    ensures
        operand_of_index((target * 7 + source) / 7) == operand_of_index(target),
        operand_of_index((target * 7 + source) % 7) == operand_of_index(source),
        operand_index(operand_of_index(target)) == target,
        operand_index(operand_of_index(source)) == source,
{
    assert((target * 7 + source) / 7 == target);
    assert((target * 7 + source) % 7 == source);
}

} // verus!
