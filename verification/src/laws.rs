//! What holds of every cycle and every run, proved from the definitions in
//! [`crate::cpu`], [`crate::flags`], [`crate::opcode`] and [`crate::run`].

use vstd::prelude::*;
use crate::cpu::{Fault, State, CPU};
use crate::flags::{
    lemma_negative_flag_tracks_result, lemma_other_flags_untouched, lemma_zero_flag_tracks_result,
    negative_flag, zero_flag, NEGATIVE, ZERO,
};
use crate::opcode::{decoded, BRK, LDA_IMMEDIATE, TAX};

verus! {

/// A run of `LDA v; BRK` halts with `v` in the accumulator, the Zero flag set
/// exactly when `v` is zero and the Negative flag set exactly when bit 7 of
/// `v` is. The index register is not touched, and the program counter stands
/// behind the `BRK`.
pub proof fn lemma_lda_then_brk(cpu: CPU, program: Seq<u8>, v: u8)
    requires
        3 <= program.len(),
        program[0] == LDA_IMMEDIATE,
        program[1] == v,
        program[2] == BRK,
    ensures
        cpu.restarted().run_ends(program),
        ({
            let (end, result) = cpu.restarted().after_run(program);
            &&& result == Ok::<(), Fault>(())
            &&& end.register_a == v
            &&& zero_flag(end.status) <==> v == 0
            &&& negative_flag(end.status) <==> v & NEGATIVE != 0
            &&& end.register_x == cpu.register_x
            &&& end.program_counter == 3
        }),
{
    let start = cpu.restarted();
    let loaded = start.after_cycle(program).0;
    assert(loaded.run_ends_within(program, 1));
    assert(start.run_ends_within(program, 2));
    reveal_with_fuel(CPU::after_run, 2);
    lemma_zero_flag_tracks_result(cpu.status, v);
    lemma_negative_flag_tracks_result(cpu.status, v);
}

/// A run of `TAX; BRK` halts with the accumulator's value `v` in the index
/// register as well, the Zero flag set exactly when `v` is zero and the
/// Negative flag set exactly when bit 7 of `v` is.
pub proof fn lemma_tax_then_brk(cpu: CPU, program: Seq<u8>)
    requires
        2 <= program.len(),
        program[0] == TAX,
        program[1] == BRK,
    ensures
        cpu.restarted().run_ends(program),
        ({
            let v = cpu.register_a;
            let (end, result) = cpu.restarted().after_run(program);
            &&& result == Ok::<(), Fault>(())
            &&& end.register_x == v
            &&& end.register_a == v
            &&& zero_flag(end.status) <==> v == 0
            &&& negative_flag(end.status) <==> v & NEGATIVE != 0
            &&& end.program_counter == 2
        }),
{
    let start = cpu.restarted();
    let moved = start.after_cycle(program).0;
    assert(moved.run_ends_within(program, 1));
    assert(start.run_ends_within(program, 2));
    reveal_with_fuel(CPU::after_run, 2);
    lemma_zero_flag_tracks_result(cpu.status, cpu.register_a);
    lemma_negative_flag_tracks_result(cpu.status, cpu.register_a);
}

/// A program whose first byte is `BRK` halts at once: the accumulator, the
/// index register and the status byte are what they were, and the program
/// counter stands behind the one byte that was fetched.
pub proof fn lemma_brk_first_halts_at_once(cpu: CPU, program: Seq<u8>)
    requires
        1 <= program.len(),
        program[0] == BRK,
    ensures
        cpu.restarted().run_ends(program),
        cpu.restarted().after_run(program) == (
            CPU { program_counter: 1, ..cpu },
            Ok::<(), Fault>(()),
        ),
{
    assert(cpu.restarted().run_ends_within(program, 1));
}

/// A cycle that fetches a byte without an entry in the opcode table ends in
/// the fault that names that byte. No register but the program counter
/// changes, no operand is read, and the loop does not go on.
pub proof fn lemma_unknown_opcode_is_a_fault(cpu: CPU, program: Seq<u8>)
    requires
        cpu.program_counter < program.len(),
        decoded(program[cpu.program_counter as int]) is None,
    ensures
        cpu.after_cycle(program) == (
            cpu.advanced(),
            Err::<State, Fault>(
                Fault::UnimplementedOpcode { opcode: program[cpu.program_counter as int] },
            ),
        ),
        cpu.run_ends(program),
        cpu.after_run(program) == (
            cpu.advanced(),
            Err::<(), Fault>(
                Fault::UnimplementedOpcode { opcode: program[cpu.program_counter as int] },
            ),
        ),
{
    assert(cpu.run_ends_within(program, 1));
}

/// How a cycle ends, and on which programs.
///
/// It halts exactly at a `BRK`. It reports an unimplemented opcode exactly at
/// a byte without an entry in the table. It reports an out-of-bounds fetch
/// exactly where the program counter refers to no byte, or refers to the last
/// byte and that byte is an instruction with an operand. A cycle that ends
/// the run changes no register but the program counter.
pub proof fn lemma_cycle_end(cpu: CPU, program: Seq<u8>)
    ensures
        ({
            let (next, end) = cpu.after_cycle(program);
            let at = cpu.program_counter as int;
            &&& end == Ok::<State, Fault>(State::Halted) <==> at < program.len() && program[at]
                == BRK
            &&& end matches Err(Fault::UnimplementedOpcode { opcode }) ==> at < program.len()
                && program[at] == opcode
            &&& end is Err && end->Err_0 is UnimplementedOpcode <==> at < program.len() && decoded(
                program[at],
            ) is None
            &&& end matches Err(Fault::OutOfBounds { index }) ==> index == next.program_counter
                && index >= program.len()
            &&& end is Err && end->Err_0 is OutOfBounds <==> at >= program.len() || (program[at]
                == LDA_IMMEDIATE && cpu.advanced().program_counter >= program.len())
            &&& !cpu.goes_on(program) ==> next.register_a == cpu.register_a && next.register_x
                == cpu.register_x && next.status == cpu.status
        }),
{
}

/// A cycle moves the program counter past what it fetched and no further: by
/// one for the opcode, and by the number of operand bytes of the instruction
/// where the cycle is followed by another.
pub proof fn lemma_cycle_moves_counter_past_instruction(cpu: CPU, program: Seq<u8>)
    requires
        cpu.goes_on(program),
    ensures
        decoded(program[cpu.program_counter as int]) is Some,
        cpu.after_cycle(program).0.program_counter == (cpu.program_counter + 1 + decoded(
            program[cpu.program_counter as int],
        )->0.operand_len()) % 0x1_0000,
{
}

/// `INX` counts modulo 256: 255 is followed by 0, every other value by the
/// next one. The Zero flag is then set exactly after 255, the Negative flag
/// exactly after 127 to 254. Nothing else changes.
pub proof fn lemma_inx_counts_modulo_256(cpu: CPU)
    ensures
        ({
            let x = cpu.register_x;
            let next = cpu.after_inx();
            &&& next.register_x == if x == 0xFF { 0 } else { x + 1 }
            &&& zero_flag(next.status) <==> x == 0xFF
            &&& negative_flag(next.status) <==> 0x7F <= x < 0xFF
            &&& next.register_a == cpu.register_a
            &&& next.program_counter == cpu.program_counter
        }),
{
    let x = cpu.after_inx().register_x;
    lemma_zero_flag_tracks_result(cpu.status, x);
    lemma_negative_flag_tracks_result(cpu.status, x);
}

/// No cycle changes a status bit other than Zero and Negative.
pub proof fn lemma_cycle_keeps_other_flags(cpu: CPU, program: Seq<u8>)
    ensures
        cpu.after_cycle(program).0.status & !(ZERO | NEGATIVE) == cpu.status & !(ZERO | NEGATIVE),
{
    let x = ((cpu.register_x + 1) % 256) as u8;
    lemma_other_flags_untouched(cpu.status, x);
    lemma_other_flags_untouched(cpu.status, cpu.register_a);
    if cpu.program_counter < program.len() {
        let fetched = cpu.advanced();
        if fetched.program_counter < program.len() {
            lemma_other_flags_untouched(cpu.status, program[fetched.program_counter as int]);
        }
    }
}

/// No run changes a status bit other than Zero and Negative, and a run that
/// reports an unimplemented opcode names a byte without an entry in the
/// table.
pub proof fn lemma_run_end(cpu: CPU, program: Seq<u8>)
    requires
        cpu.run_ends(program),
    ensures
        ({
            let (end, result) = cpu.after_run(program);
            &&& end.status & !(ZERO | NEGATIVE) == cpu.status & !(ZERO | NEGATIVE)
            &&& result matches Err(Fault::UnimplementedOpcode { opcode }) ==> decoded(opcode) is None
        }),
    decreases cpu.run_length(program),
{
    lemma_cycle_keeps_other_flags(cpu, program);
    if cpu.goes_on(program) {
        cpu.lemma_run_goes_on(program);
        lemma_run_end(cpu.after_cycle(program).0, program);
    }
}

/// How a run ends on a program of at most 65535 bytes, and where.
///
/// From a program counter inside the program or at its end, the run leaves
/// the counter inside the program or at its end, and never behind where it
/// was. If the run halts, the last byte fetched was `BRK`. If it reports an
/// unimplemented opcode, that opcode is the last byte fetched. If it reports
/// an out-of-bounds fetch, the index is the program's length, where the
/// counter still stands.
pub proof fn lemma_short_run_end(cpu: CPU, program: Seq<u8>)
    requires
        program.len() <= u16::MAX,
        cpu.program_counter <= program.len(),
    ensures
        cpu.run_ends(program),
        ({
            let (end, result) = cpu.after_run(program);
            &&& cpu.program_counter <= end.program_counter <= program.len()
            &&& match result {
                Ok(()) => cpu.program_counter < end.program_counter && program[end.program_counter
                    - 1] == BRK,
                Err(Fault::UnimplementedOpcode { opcode }) => cpu.program_counter
                    < end.program_counter && program[end.program_counter - 1] == opcode,
                Err(Fault::OutOfBounds { index }) => index == program.len() && end.program_counter
                    == index,
            }
        }),
    decreases program.len() - cpu.program_counter,
{
    cpu.lemma_run_on_short_program_ends(program);
    if cpu.goes_on(program) {
        lemma_short_run_end(cpu.after_cycle(program).0, program);
    }
}

} // verus!
