use vstd::prelude::*;
use crate::text::{hex_upper, push_char, push_digits, push_str};

verus! {

/// What an instruction field refers to: a register, the instruction
/// pointer, an immediate constant, or the memory word at an immediate address.
#[derive(Clone, Copy, Debug, PartialEq, Eq, Structural)]
pub enum Operand {
    R1,
    R2,
    R3,
    R4,
    IP,
    CT,
    MA,
}

/// Which of an instruction's two fields an operand is taken from.
#[derive(Clone, Copy, Debug, PartialEq, Eq, Structural)]
pub enum OperandType {
    TARGET,
    SOURCE,
}

/// The number of operand kinds: the radix of the operand-combination byte.
pub const OPERAND_COUNT: u8 = 7;

/// The operand with index `i` in the order R1, R2, R3, R4, IP, CT, MA;
/// any other index falls back to R1.
pub open spec fn operand_of_index(i: int) -> Operand {
    if i == 0 {
        Operand::R1
    } else if i == 1 {
        Operand::R2
    } else if i == 2 {
        Operand::R3
    } else if i == 3 {
        Operand::R4
    } else if i == 4 {
        Operand::IP
    } else if i == 5 {
        Operand::CT
    } else if i == 6 {
        Operand::MA
    } else {
        Operand::R1
    }
}

/// The index of an operand in the order R1, R2, R3, R4, IP, CT, MA.
pub open spec fn operand_index(o: Operand) -> int {
    match o {
        Operand::R1 => 0,
        Operand::R2 => 1,
        Operand::R3 => 2,
        Operand::R4 => 3,
        Operand::IP => 4,
        Operand::CT => 5,
        Operand::MA => 6,
    }
}

/// The name of a register or of the instruction pointer.
pub open spec fn operand_name(o: Operand) -> Seq<char> {
    match o {
        Operand::R1 => seq!['R', '1'],
        Operand::R2 => seq!['R', '2'],
        Operand::R3 => seq!['R', '3'],
        Operand::R4 => seq!['R', '4'],
        Operand::IP => seq!['I', 'P'],
        Operand::CT => seq!['C', 'T'],
        Operand::MA => seq!['M', 'A'],
    }
}

/// How an operand is written: `#<hex>` for a constant, `<hex>` for a memory
/// word, and the bare name otherwise.
pub open spec fn operand_text(o: Operand, imm: u16) -> Seq<char> {
    match o {
        Operand::CT => seq!['#'] + hex_upper(imm as nat),
        Operand::MA => hex_upper(imm as nat),
        _ => operand_name(o),
    }
}

impl Operand {
    /// The target operand of a combination byte: the quotient by seven.
    pub fn get_combination_target(operand_combination: u8) -> (r: Operand)
        ensures
            r == operand_of_index(operand_combination as int / 7),
    {
        match operand_combination / OPERAND_COUNT {
            0 => Operand::R1,
            1 => Operand::R2,
            2 => Operand::R3,
            3 => Operand::R4,
            4 => Operand::IP,
            5 => Operand::CT,
            6 => Operand::MA,
            _ => Operand::R1,
        }
    }

    /// The source operand of a combination byte: the remainder by seven.
    pub fn get_combination_source(operand_combination: u8) -> (r: Operand)
        ensures
            r == operand_of_index(operand_combination as int % 7),
    {
        match operand_combination % OPERAND_COUNT {
            0 => Operand::R1,
            1 => Operand::R2,
            2 => Operand::R3,
            3 => Operand::R4,
            4 => Operand::IP,
            5 => Operand::CT,
            6 => Operand::MA,
            _ => Operand::R1,
        }
    }

    /// Appends the text of this operand, with immediate `imm`, to `s`.
    pub fn push_text(&self, s: &mut String, imm: u16)
        ensures
            final(s)@ == old(s)@ + operand_text(*self, imm),
    {
        match self {
            Operand::CT => {
                push_char(s, '#');
                push_digits(s, imm as u64, 16, true);
                assert(s@ =~= old(s)@ + operand_text(*self, imm));
            },
            Operand::MA => {
                push_digits(s, imm as u64, 16, true);
            },
            _ => {
                let name = match self {
                    Operand::R1 => "R1",
                    Operand::R2 => "R2",
                    Operand::R3 => "R3",
                    Operand::R4 => "R4",
                    _ => "IP",
                };
                proof {
                    reveal_strlit("R1");
                    reveal_strlit("R2");
                    reveal_strlit("R3");
                    reveal_strlit("R4");
                    reveal_strlit("IP");
                }
                push_str(s, name);
                assert(s@ =~= old(s)@ + operand_text(*self, imm));
            },
        }
    }

    /// The text of this operand with immediate `imm`.
    pub fn display(&self, imm: u16) -> (r: String)
        ensures
            r@ == operand_text(*self, imm),
    {
        let mut s = String::new();
        self.push_text(&mut s, imm);
        assert(s@ =~= operand_text(*self, imm));
        s
    }
}

} // verus!
