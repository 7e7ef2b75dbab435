//! The register file and the instruction handlers.

use vstd::prelude::*;
use crate::flags::{with_zero_and_negative, NEGATIVE, ZERO};

verus! {

/// The register file of one processor.
#[derive(Clone, Copy, Debug, PartialEq, Eq, Structural)]
pub struct CPU {
    /// The accumulator.
    pub register_a: u8,
    /// The index register X.
    pub register_x: u8,
    /// The status bitfield, laid out as in [`crate::flags`].
    pub status: u8,
    /// Offset in the program of the next byte to fetch.
    pub program_counter: u16,
}

/// A condition that ends a run without a halt.
#[derive(Clone, Copy, Debug, PartialEq, Eq, Structural)]
pub enum Fault {
    /// The program counter referred to no byte of the program; `index` is the
    /// value it held.
    OutOfBounds { index: u16 },
    /// The fetched byte selects no instruction of the table.
    UnimplementedOpcode { opcode: u8 },
}

/// Where the loop stands after one cycle.
#[derive(Clone, Copy, Debug, PartialEq, Eq, Structural)]
pub enum State {
    /// The instruction is done; the next one is to be fetched.
    Fetching,
    /// A halt instruction was executed.
    Halted,
}

impl CPU {
    /// The register file with Zero and Negative rewritten from `result`.
    pub open spec fn flagged(self, result: u8) -> CPU {
        CPU { status: with_zero_and_negative(self.status, result), ..self }
    }

    /// The register file after `LDA` with the operand `value`.
    pub open spec fn after_lda(self, value: u8) -> CPU {
        CPU { register_a: value, ..self }.flagged(value)
    }

    /// The register file after `TAX`.
    pub open spec fn after_tax(self) -> CPU {
        CPU { register_x: self.register_a, ..self }.flagged(self.register_a)
    }

    /// The register file after `INX`: the index register counts modulo 256.
    pub open spec fn after_inx(self) -> CPU {
        let x = ((self.register_x + 1) % 256) as u8;
        CPU { register_x: x, ..self }.flagged(x)
    }

    /// The register file with the program counter moved on by one byte,
    /// modulo 65536.
    pub open spec fn advanced(self) -> CPU {
        CPU { program_counter: ((self.program_counter + 1) % 0x1_0000) as u16, ..self }
    }

    /// The register file with the program counter back at the first byte.
    pub open spec fn restarted(self) -> CPU {
        CPU { program_counter: 0, ..self }
    }

    /// A register file with every register zero.
    pub fn new() -> (cpu: CPU)
        ensures
            cpu == (CPU { register_a: 0, register_x: 0, status: 0, program_counter: 0 }),
    {
        CPU { register_a: 0, register_x: 0, status: 0, program_counter: 0 }
    }

    /// Rewrites the Zero and Negative flags from `result`: Zero is set exactly
    /// when `result` is zero, Negative is bit 7 of `result`. Nothing else
    /// changes, in the status byte or outside it.
    pub fn update_zero_and_negative_flags(&mut self, result: u8)
        ensures
            *final(self) == old(self).flagged(result),
    {
        let before = self.status;
        if result == 0 {
            self.status = self.status | ZERO;
        } else {
            self.status = self.status & !ZERO;
        }
        if result & NEGATIVE != 0 {
            self.status = self.status | NEGATIVE;
        } else {
            self.status = self.status & !NEGATIVE;
        }
        proof {
            assert(result == 0 ==> (before | ZERO) & !NEGATIVE == (before & !(ZERO | NEGATIVE))
                | ZERO | (result & NEGATIVE)) by (bit_vector);
            assert(result != 0 && result & NEGATIVE == 0 ==> (before & !ZERO) & !NEGATIVE == (before
                & !(ZERO | NEGATIVE)) | 0u8 | (result & NEGATIVE)) by (bit_vector);
            assert(result & NEGATIVE != 0 ==> result != 0 && (before & !ZERO) | NEGATIVE == (before
                & !(ZERO | NEGATIVE)) | 0u8 | (result & NEGATIVE)) by (bit_vector);
        }
    }

    /// `LDA`: loads `value` into the accumulator and sets the flags from it.
    pub fn lda(&mut self, value: u8)
        ensures
            *final(self) == old(self).after_lda(value),
    {
        self.register_a = value;
        self.update_zero_and_negative_flags(self.register_a);
    }

    /// `TAX`: copies the accumulator into the index register and sets the
    /// flags from it.
    pub fn tax(&mut self)
        ensures
            *final(self) == old(self).after_tax(),
    {
        self.register_x = self.register_a;
        self.update_zero_and_negative_flags(self.register_x);
    }

    /// `INX`: adds one to the index register, 255 being followed by 0, and
    /// sets the flags from the new value.
    pub fn inx(&mut self)
        ensures
            *final(self) == old(self).after_inx(),
    {
        self.register_x = self.register_x.wrapping_add(1);
        self.update_zero_and_negative_flags(self.register_x);
    }
}

} // verus!
