//! The opcode table: which byte selects which instruction.

use vstd::prelude::*;

verus! {

/// `BRK`, implied addressing: halts the run.
pub const BRK: u8 = 0x00;

/// `LDA`, immediate addressing: loads the next program byte into the accumulator.
pub const LDA_IMMEDIATE: u8 = 0xA9;

/// `TAX`, implied addressing: copies the accumulator into the index register.
pub const TAX: u8 = 0xAA;

/// `INX`, implied addressing: increments the index register.
pub const INX: u8 = 0xE8;

/// An instruction of the table, with its addressing mode.
#[derive(Clone, Copy, Debug, PartialEq, Eq, Structural)]
pub enum Instruction {
    /// Halt.
    Brk,
    /// Load the accumulator from the operand byte that follows the opcode.
    LdaImmediate,
    /// Transfer the accumulator to the index register.
    Tax,
    /// Increment the index register.
    Inx,
}

/// The table itself: the instruction that `opcode` selects, or `None` where
/// the table has no entry for it.
pub open spec fn decoded(opcode: u8) -> Option<Instruction> {
    if opcode == BRK {
        Some(Instruction::Brk)
    } else if opcode == LDA_IMMEDIATE {
        Some(Instruction::LdaImmediate)
    } else if opcode == TAX {
        Some(Instruction::Tax)
    } else if opcode == INX {
        Some(Instruction::Inx)
    } else {
        None
    }
}

impl Instruction {
    /// The number of operand bytes that follow the opcode in the program.
    pub open spec fn operand_len(self) -> nat {
        match self {
            Instruction::LdaImmediate => 1,
            Instruction::Brk | Instruction::Tax | Instruction::Inx => 0,
        }
    }

    /// The byte that selects this instruction.
    pub open spec fn opcode(self) -> u8 {
        match self {
            Instruction::Brk => BRK,
            Instruction::LdaImmediate => LDA_IMMEDIATE,
            Instruction::Tax => TAX,
            Instruction::Inx => INX,
        }
    }
}

/// Looks `opcode` up in the table.
pub fn decode(opcode: u8) -> (entry: Option<Instruction>)
    ensures
        entry == decoded(opcode),
{
    match opcode {
        BRK => Some(Instruction::Brk),
        LDA_IMMEDIATE => Some(Instruction::LdaImmediate),
        TAX => Some(Instruction::Tax),
        INX => Some(Instruction::Inx),
        _ => None,
    }
}

/// Each instruction is found again under its own opcode, and under no other.
pub proof fn lemma_decode_inverts_opcode(opcode: u8, instruction: Instruction)
    ensures
        decoded(instruction.opcode()) == Some(instruction),
        decoded(opcode) == Some(instruction) <==> opcode == instruction.opcode(),
{
}

} // verus!
