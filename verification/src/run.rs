//! The fetch-decode-execute loop: one cycle, and cycles repeated until a halt
//! or a fault.

use vstd::prelude::*;
use crate::cpu::{Fault, State, CPU};
use crate::opcode::{decode, decoded, Instruction};

verus! {

impl CPU {
    /// One cycle of the loop on `program`: the register file it leaves and how
    /// it ends.
    ///
    /// The opcode is fetched at the program counter, which moves past it. An
    /// instruction with an operand fetches it the same way. A fetch beyond the
    /// end of the program is a fault that leaves the register file as it was
    /// before that fetch; an opcode without an entry in the table is a fault
    /// that leaves the program counter behind the opcode.
    pub open spec fn after_cycle(self, program: Seq<u8>) -> (CPU, Result<State, Fault>) {
        if self.program_counter >= program.len() {
            (self, Err(Fault::OutOfBounds { index: self.program_counter }))
        } else {
            let opcode = program[self.program_counter as int];
            let fetched = self.advanced();
            match decoded(opcode) {
                None => (fetched, Err(Fault::UnimplementedOpcode { opcode })),
                Some(Instruction::Brk) => (fetched, Ok(State::Halted)),
                Some(Instruction::LdaImmediate) => if fetched.program_counter >= program.len() {
                    (fetched, Err(Fault::OutOfBounds { index: fetched.program_counter }))
                } else {
                    (
                        fetched.advanced().after_lda(program[fetched.program_counter as int]),
                        Ok(State::Fetching),
                    )
                },
                Some(Instruction::Tax) => (fetched.after_tax(), Ok(State::Fetching)),
                Some(Instruction::Inx) => (fetched.after_inx(), Ok(State::Fetching)),
            }
        }
    }

    /// Whether the cycle from this register file is followed by another.
    pub open spec fn goes_on(self, program: Seq<u8>) -> bool {
        self.after_cycle(program).1 == Ok::<State, Fault>(State::Fetching)
    }

    /// Whether cycles repeated from this register file reach a halt or a fault
    /// in at most `cycles` cycles.
    pub open spec fn run_ends_within(self, program: Seq<u8>, cycles: nat) -> bool
        decreases cycles,
    {
        cycles > 0 && (self.goes_on(program) ==> self.after_cycle(program).0.run_ends_within(
            program,
            (cycles - 1) as nat,
        ))
    }

    /// Whether cycles repeated from this register file reach a halt or a fault
    /// at all.
    ///
    /// Every run on a program of at most 65535 bytes does
    /// ([`CPU::lemma_run_on_short_program_ends`]). On a longer one the program
    /// counter can wrap and the loop go round for ever.
    pub open spec fn run_ends(self, program: Seq<u8>) -> bool {
        exists|cycles: nat| self.run_ends_within(program, cycles)
    }

    /// Whether the run ends with its cycle number `cycles`, counted from one:
    /// within that many cycles, and not within one less.
    pub open spec fn run_ends_at(self, program: Seq<u8>, cycles: nat) -> bool {
        self.run_ends_within(program, cycles) && !self.run_ends_within(
            program,
            (cycles - 1) as nat,
        )
    }

    /// The number of cycles in a run that ends.
    pub open spec fn run_length(self, program: Seq<u8>) -> nat {
        choose|cycles: nat| self.run_ends_at(program, cycles)
    }

    /// Cycles repeated from this register file until a halt or a fault: the
    /// register file at that point, and `Ok` for a halt or the fault.
    ///
    /// Says nothing of a run that does not end.
    pub open spec fn after_run(self, program: Seq<u8>) -> (CPU, Result<(), Fault>)
        decreases self.run_length(program),
        when self.run_ends(program)
        via Self::after_run_decreases
    {
        let (next, end) = self.after_cycle(program);
        match end {
            Ok(State::Fetching) => next.after_run(program),
            Ok(State::Halted) => (next, Ok(())),
            Err(fault) => (next, Err(fault)),
        }
    }

    /// Reads the byte at the program counter and moves the counter past it.
    /// Where the counter refers to no byte of `program`, nothing is read and
    /// nothing changes.
    fn fetch(&mut self, program: &Vec<u8>) -> (byte: Result<u8, Fault>)
        ensures
            old(self).program_counter < program@.len() ==> byte == Ok::<u8, Fault>(
                program@[old(self).program_counter as int],
            ) && *final(self) == old(self).advanced(),
            old(self).program_counter >= program@.len() ==> byte == Err::<u8, Fault>(
                Fault::OutOfBounds { index: old(self).program_counter },
            ) && *final(self) == *old(self),
    {
        let at = self.program_counter;
        if (at as usize) < program.len() {
            self.program_counter = at.wrapping_add(1);
            Ok(program[at as usize])
        } else {
            Err(Fault::OutOfBounds { index: at })
        }
    }

    /// Runs one cycle: fetches an opcode, looks it up and executes the
    /// instruction it selects, operand included.
    ///
    /// Returns the state the loop is in afterwards, or the fault that ended
    /// the cycle; the register file is then as [`CPU::after_cycle`] says.
    pub fn step(&mut self, program: &Vec<u8>) -> (end: Result<State, Fault>)
        ensures
            (*final(self), end) == old(self).after_cycle(program@),
    {
        let opcode = match self.fetch(program) {
            Ok(byte) => byte,
            Err(fault) => return Err(fault),
        };
        match decode(opcode) {
            None => Err(Fault::UnimplementedOpcode { opcode }),
            Some(Instruction::Brk) => Ok(State::Halted),
            Some(Instruction::LdaImmediate) => {
                match self.fetch(program) {
                    Ok(value) => {
                        self.lda(value);
                        Ok(State::Fetching)
                    },
                    Err(fault) => Err(fault),
                }
            },
            Some(Instruction::Tax) => {
                self.tax();
                Ok(State::Fetching)
            },
            Some(Instruction::Inx) => {
                self.inx();
                Ok(State::Fetching)
            },
        }
    }

    /// Runs `program` from its first byte until it halts or faults.
    ///
    /// The program counter is set to zero, the other registers are taken as
    /// they are. Returns `Ok` after a halt instruction and the fault
    /// otherwise; either way the register file is left as it was when the run
    /// ended.
    ///
    /// The run has to be one that ends, which every run on a program of at
    /// most 65535 bytes is. On a longer program the program counter can wrap
    /// and the loop go round for ever; such a program is run here where its
    /// run is known to end, and cycle by cycle with [`CPU::step`] where it is
    /// not.
    pub fn interpret(&mut self, program: Vec<u8>) -> (end: Result<(), Fault>)
        requires
            program@.len() <= u16::MAX || old(self).restarted().run_ends(program@),
        ensures
            old(self).restarted().run_ends(program@),
            (*final(self), end) == old(self).restarted().after_run(program@),
    {
        self.program_counter = 0;
        proof {
            if program@.len() <= u16::MAX {
                self.lemma_run_on_short_program_ends(program@);
            }
        }
        loop
            invariant
                old(self).restarted().run_ends(program@),
                self.run_ends(program@),
                self.after_run(program@) == old(self).restarted().after_run(program@),
            decreases self.run_length(program@),
        {
            proof {
                if self.goes_on(program@) {
                    self.lemma_run_goes_on(program@);
                }
            }
            match self.step(&program) {
                Ok(State::Fetching) => {},
                Ok(State::Halted) => return Ok(()),
                Err(fault) => return Err(fault),
            }
        }
    }

    #[via_fn]
    proof fn after_run_decreases(self, program: Seq<u8>) {
        if self.goes_on(program) {
            self.lemma_run_goes_on(program);
        }
    }

    /// A bound on the length of a run stays one when it grows.
    pub proof fn lemma_run_ends_within_more(self, program: Seq<u8>, cycles: nat, more: nat)
        requires
            self.run_ends_within(program, cycles),
            cycles <= more,
        ensures
            self.run_ends_within(program, more),
        decreases cycles,
    {
        if self.goes_on(program) {
            self.after_cycle(program).0.lemma_run_ends_within_more(
                program,
                (cycles - 1) as nat,
                (more - 1) as nat,
            );
        }
    }

    /// A run that ends within some number of cycles has a length: the one
    /// bound that is accepted while the bound below it is not. It is at least
    /// one and at most the given number.
    pub proof fn lemma_run_length(self, program: Seq<u8>, cycles: nat)
        requires
            self.run_ends_within(program, cycles),
        ensures
            self.run_ends(program),
            1 <= self.run_length(program) <= cycles,
            self.run_ends_at(program, self.run_length(program)),
        decreases cycles,
    {
        let below = (cycles - 1) as nat;
        if self.run_ends_within(program, below) {
            self.lemma_run_length(program, below);
        } else {
            assert(self.run_ends_at(program, cycles));
            let length = self.run_length(program);
            if length > cycles {
                self.lemma_run_ends_within_more(program, cycles, (length - 1) as nat);
            }
        }
    }

    /// A run that ends and whose first cycle is followed by another: the rest
    /// of it ends too, and is one cycle shorter.
    pub proof fn lemma_run_goes_on(self, program: Seq<u8>)
        requires
            self.run_ends(program),
            self.goes_on(program),
        ensures
            self.after_cycle(program).0.run_ends(program),
            self.after_cycle(program).0.run_length(program) + 1 == self.run_length(program),
    {
        let next = self.after_cycle(program).0;
        let some = choose|cycles: nat| self.run_ends_within(program, cycles);
        self.lemma_run_length(program, some);
        let length = self.run_length(program);
        let rest = (length - 1) as nat;
        assert(next.run_ends_within(program, rest));
        next.lemma_run_length(program, rest);
        let shorter = next.run_length(program);
        if shorter < rest {
            assert(self.run_ends_within(program, shorter + 1));
            self.lemma_run_ends_within_more(program, shorter + 1, rest);
        }
    }

    /// On a program of at most 65535 bytes every run ends, whatever the
    /// register file holds: each cycle either ends the run or moves the
    /// program counter forward, and the counter cannot pass the end of the
    /// program.
    pub proof fn lemma_run_on_short_program_ends(self, program: Seq<u8>)
        requires
            program.len() <= u16::MAX,
        ensures
            self.run_ends(program),
            self.run_length(program) <= 1 + program.len(),
    {
        self.lemma_short_program_bound(program);
        self.lemma_run_length(program, self.short_program_bound(program));
    }

    /// A bound on the cycles that are left on a program of at most 65535
    /// bytes: one for each byte from the program counter on, and one more.
    spec fn short_program_bound(self, program: Seq<u8>) -> nat {
        if self.program_counter < program.len() {
            (program.len() - self.program_counter + 1) as nat
        } else {
            1
        }
    }

    /// The run ends within the bound of [`CPU::short_program_bound`].
    proof fn lemma_short_program_bound(self, program: Seq<u8>)
        requires
            program.len() <= u16::MAX,
        ensures
            self.run_ends_within(program, self.short_program_bound(program)),
        decreases self.short_program_bound(program),
    {
        if self.goes_on(program) {
            let next = self.after_cycle(program).0;
            next.lemma_short_program_bound(program);
            next.lemma_run_ends_within_more(
                program,
                next.short_program_bound(program),
                (self.short_program_bound(program) - 1) as nat,
            );
        }
    }
}

} // verus!
