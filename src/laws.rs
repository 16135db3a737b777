use vstd::prelude::*;
use crate::arith::lemma_rem_scale;
use crate::model::{
    apply, decode_spec, default_memory, fetched, pow10, power_on, reset_state, shift_right,
    shifted, step_result, trunc_div, trunc_rem, CardiacError, Instruction, MachineView,
    MEMORY_SIZE, RETURN_CELL, RETURN_DEFAULT,
};

verus! {

proof fn lemma_pow10_positive(n: nat)
    ensures
        pow10(n) > 0,
    decreases n,
{
    if n > 0 {
        lemma_pow10_positive((n - 1) as nat);
    }
}

/// A step that succeeds moves the target to the operand address for JMP and
/// HRS, and for TAC when the flag records a negative value; for every other
/// instruction it moves the target one cell past the fetched one.
pub proof fn law_step_target(s: MachineView)
    requires
        step_result(s) is Ok,
    ensures
        ({
            let opcode = trunc_div(fetched(s), 100);
            let addr = trunc_rem(fetched(s), 100);
            step_result(s)->Ok_0.target as int == if opcode == 8 || opcode == 9 || (opcode == 3
                && !s.flag) {
                addr
            } else {
                s.target + 1
            }
        }),
{
}

/// Storing the accumulator and loading the same cell back leaves the low
/// three digits of the accumulator, sign kept, in both the cell and the
/// accumulator; doing it a second time changes nothing.
pub proof fn law_store_then_load(s: MachineView, addr: int)
    requires
        0 <= addr < MEMORY_SIZE,
        s.memory.len() == MEMORY_SIZE,
    ensures
        ({
            let kept = trunc_rem(s.accumulator as int, 1000);
            let t = apply(apply(s, Instruction::Sto, addr)->Ok_0, Instruction::Cla, addr)->Ok_0;
            &&& t.accumulator == kept
            &&& t.memory[addr] == kept
            &&& t.flag == (kept >= 0)
            &&& apply(apply(t, Instruction::Sto, addr)->Ok_0, Instruction::Cla, addr)->Ok_0 == t
        }),
{
    let kept = trunc_rem(s.accumulator as int, 1000);
    let t = apply(apply(s, Instruction::Sto, addr)->Ok_0, Instruction::Cla, addr)->Ok_0;
    assert(trunc_rem(kept, 1000) == kept);
    let again = apply(apply(t, Instruction::Sto, addr)->Ok_0, Instruction::Cla, addr)->Ok_0;
    assert(again.memory =~= t.memory);
}

/// A shift by `left` and `right` digits equals a shift by no digits (which
/// keeps four digits), then `left` multiplications by ten kept to four
/// digits, then `right` divisions by ten.
pub proof fn law_shift_stages(a: int, left: nat, right: nat)
    ensures
        shifted(a, left, right) == shift_right(
            trunc_rem(shifted(a, 0, 0) * pow10(left), 10000),
            right,
        ),
{
    assert(shifted(a, 0, 0) == trunc_rem(a, 10000));
    lemma_pow10_positive(left);
    lemma_rem_scale(a, pow10(left), 10000);
}

/// JMP records `800 + target` in the return cell unless the target is 100,
/// in which case memory is left alone; either way it goes to its operand.
pub proof fn law_jump_return_cell(s: MachineView, addr: int)
    requires
        0 <= addr < MEMORY_SIZE,
        s.memory.len() == MEMORY_SIZE,
        s.target <= MEMORY_SIZE,
    ensures
        ({
            let t = apply(s, Instruction::Jmp, addr)->Ok_0;
            &&& t.target == addr
            &&& s.target != 100 ==> t.memory[RETURN_CELL as int] == RETURN_DEFAULT + s.target
            &&& s.target != 100 ==> forall|i: int|
                0 <= i < MEMORY_SIZE && i != RETURN_CELL ==> #[trigger] t.memory[i] == s.memory[i]
            &&& s.target == 100 ==> t.memory == s.memory
        }),
{
}

/// A word whose opcode digit names no instruction stops the step with
/// `UndecodedOpcode`; the machine, target included, is left as it was.
pub proof fn law_undecoded_opcode(s: MachineView)
    requires
        s.target < MEMORY_SIZE,
        s.memory.len() == MEMORY_SIZE,
        decode_spec(trunc_div(fetched(s), 100)) is None,
    ensures
        step_result(s) == Err::<MachineView, CardiacError>(CardiacError::UndecodedOpcode),
{
}

/// After reset the registers, decks and run state are as at power-on and
/// memory is what it was; clearing memory then, or before, gives the
/// power-on machine.
pub proof fn law_reset_and_clear(s: MachineView)
    ensures
        reset_state(s).memory == s.memory,
        (MachineView { memory: s.memory, ..power_on() }) == reset_state(s),
        (MachineView { memory: default_memory(), ..reset_state(s) }) == power_on(),
        reset_state(MachineView { memory: default_memory(), ..s }) == power_on(),
{
}

} // verus!
