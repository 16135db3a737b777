use std::collections::HashMap;
use vstd::prelude::*;
use crate::arith::{decode, div_toward_zero, lemma_rem_scale, rem_toward_zero};
use crate::card_in_range;
use crate::model::{
    apply, default_memory, follows, keys_below, loaded, pow10, power_on, program_in_range,
    reset_state, shift_right, step_result, trunc_rem, CardiacError, Instruction, MachineView,
    MEMORY_SIZE, RETURN_CELL, RETURN_DEFAULT,
};

verus! {

/// A decimal computer with one accumulator, 100 memory cells and decks of
/// input and output cards.
pub struct Assembler {
    memory: [i32; 100],
    accumulator: i32,
    target: u32,
    flag: bool,
    step: i32,
    input_deck: Vec<i32>,
    output_deck: Vec<i32>,
    run: bool,
}

impl View for Assembler {
    type V = MachineView;

    closed spec fn view(&self) -> MachineView {
        MachineView {
            memory: self.memory@,
            accumulator: self.accumulator,
            target: self.target,
            flag: self.flag,
            step: self.step,
            input_deck: self.input_deck@,
            output_deck: self.output_deck@,
            run: self.run,
        }
    }
}

/// Memory at power-on.
fn default_cells() -> (r: [i32; 100])
    ensures
        r@ == default_memory(),
{
    let mut cells: [i32; 100] = [0; 100];
    cells[0] = 1;
    cells[RETURN_CELL] = RETURN_DEFAULT;
    assert(cells@ =~= default_memory());
    cells
}

impl Assembler {
    /// A machine at power-on: default memory, cleared registers, empty decks,
    /// not running.
    pub fn new() -> (r: Self)
        ensures
            r@ == power_on(),
    {
        let r = Assembler {
            memory: default_cells(),
            accumulator: 0,
            target: 0,
            flag: true,
            step: 0,
            input_deck: Vec::new(),
            output_deck: Vec::new(),
            run: false,
        };
        assert(r@.input_deck =~= Seq::<i32>::empty());
        assert(r@.output_deck =~= Seq::<i32>::empty());
        r
    }

    /// Registers, decks and run state back to power-on; memory kept.
    pub fn reset(&mut self)
        ensures
            final(self)@ == reset_state(old(self)@),
    {
        self.target = 0;
        self.step = 0;
        self.accumulator = 0;
        self.input_deck = Vec::new();
        self.output_deck = Vec::new();
        self.flag = true;
        self.run = false;
        assert(self@.input_deck =~= Seq::<i32>::empty());
        assert(self@.output_deck =~= Seq::<i32>::empty());
    }

    /// Memory back to its power-on layout; everything else kept.
    pub fn clear_memory(&mut self)
        ensures
            final(self)@ == (MachineView { memory: default_memory(), ..old(self)@ }),
    {
        self.memory = [0; 100];
        self.memory[0] = 1;
        self.memory[RETURN_CELL] = RETURN_DEFAULT;
        assert(self.memory@ =~= default_memory());
    }

    /// INP: take the card at the tail of the input deck into `address`, or 0
    /// when the deck is empty; cell 0 is never written.
    fn inp(&mut self, address: usize) -> (r: Result<(), CardiacError>)
        requires
            address < MEMORY_SIZE,
        ensures
            follows(r, old(self)@, final(self)@, apply(old(self)@, Instruction::Inp, address as int)),
    {
        if address == 0 {
            return Ok(());
        }
        let n = self.input_deck.len();
        if n == 0 {
            self.memory[address] = 0;
            Ok(())
        } else {
            let value = self.input_deck[n - 1];
            if !card_in_range(value) {
                Err(CardiacError::MalformedInputValue)
            } else {
                self.input_deck.pop();
                self.memory[address] = value;
                Ok(())
            }
        }
    }

    /// CLA: load the accumulator from `address`.
    fn cla(&mut self, address: usize)
        requires
            address < MEMORY_SIZE,
        ensures
            final(self)@ == apply(old(self)@, Instruction::Cla, address as int)->Ok_0,
    {
        let value = self.memory[address];
        self.accumulator = value;
        self.flag = value >= 0;
    }

    /// ADD: add the cell at `address`; the flag takes the operand's sign.
    fn add(&mut self, address: usize) -> (r: Result<(), CardiacError>)
        requires
            address < MEMORY_SIZE,
        ensures
            follows(r, old(self)@, final(self)@, apply(old(self)@, Instruction::Add, address as int)),
    {
        let value = self.memory[address];
        match self.accumulator.checked_add(value) {
            Some(sum) => {
                self.accumulator = sum;
                self.flag = value >= 0;
                Ok(())
            },
            None => Err(CardiacError::ArithmeticOverflow),
        }
    }

    /// TAC: jump to `address` when the flag records a negative value.
    fn tac(&mut self, address: usize)
        requires
            address < MEMORY_SIZE,
            old(self).target <= MEMORY_SIZE,
        ensures
            final(self)@ == apply(old(self)@, Instruction::Tac, address as int)->Ok_0,
    {
        if !self.flag {
            self.jmp(address);
        }
    }

    /// SFT: shift the accumulator `address / 10` digits left, keep four
    /// digits, then shift it `address % 10` digits right.
    fn sft(&mut self, address: usize)
        requires
            address < MEMORY_SIZE,
        ensures
            final(self)@ == apply(old(self)@, Instruction::Sft, address as int)->Ok_0,
    {
        let left = address / 10;
        let right = address % 10;
        let ghost start = self.accumulator as int;
        let mut acc: i32 = rem_toward_zero(self.accumulator, 10000);
        let mut i: usize = 0;
        while i < left
            invariant
                i <= left,
                acc == trunc_rem(start * pow10(i as nat), 10000),
                -10000 < acc < 10000,
            decreases left - i,
        {
            proof {
                lemma_rem_scale(start * pow10(i as nat), 10, 10000);
                assert(start * pow10((i + 1) as nat) == start * pow10(i as nat) * 10)
                    by (nonlinear_arith)
                    requires
                        pow10((i + 1) as nat) == 10 * pow10(i as nat),
                ;
            }
            acc = rem_toward_zero(acc * 10, 10000);
            i = i + 1;
        }
        let ghost kept = acc as int;
        let mut j: usize = 0;
        while j < right
            invariant
                j <= right,
                shift_right(acc as int, (right - j) as nat) == shift_right(kept, right as nat),
                -10000 < acc < 10000,
            decreases right - j,
        {
            acc = div_toward_zero(acc, 10);
            j = j + 1;
        }
        self.accumulator = acc;
    }

    /// OUT: append the cell at `address` to the output deck.
    fn out(&mut self, address: usize)
        requires
            address < MEMORY_SIZE,
        ensures
            final(self)@ == apply(old(self)@, Instruction::Out, address as int)->Ok_0,
    {
        let value = self.memory[address];
        self.output_deck.push(value);
    }

    /// STO: store the low three digits of the accumulator at `address`.
    fn sto(&mut self, address: usize)
        requires
            address < MEMORY_SIZE,
        ensures
            final(self)@ == apply(old(self)@, Instruction::Sto, address as int)->Ok_0,
    {
        self.memory[address] = rem_toward_zero(self.accumulator, 1000);
    }

    /// SUB: subtract the cell at `address`; the flag takes the result's sign.
    fn sub(&mut self, address: usize) -> (r: Result<(), CardiacError>)
        requires
            address < MEMORY_SIZE,
        ensures
            follows(r, old(self)@, final(self)@, apply(old(self)@, Instruction::Sub, address as int)),
    {
        let value = self.memory[address];
        match self.accumulator.checked_sub(value) {
            Some(diff) => {
                self.accumulator = diff;
                self.flag = diff >= 0;
                Ok(())
            },
            None => Err(CardiacError::ArithmeticOverflow),
        }
    }

    /// JMP: write the return jump into the return cell, then go to `address`.
    fn jmp(&mut self, address: usize)
        requires
            address < MEMORY_SIZE,
            old(self).target <= MEMORY_SIZE,
        ensures
            final(self)@ == apply(old(self)@, Instruction::Jmp, address as int)->Ok_0,
    {
        if self.target != 100 {
            self.memory[RETURN_CELL] = RETURN_DEFAULT + self.target as i32;
        }
        self.target = address as u32;
    }

    /// HRS: go to `address` and stop running.
    fn hrs(&mut self, address: usize)
        requires
            address < MEMORY_SIZE,
        ensures
            final(self)@ == apply(old(self)@, Instruction::Hrs, address as int)->Ok_0,
    {
        self.target = address as u32;
        self.run = false;
    }

    /// Runs one fetch-decode-execute cycle. On error the machine is left as
    /// it was.
    pub fn next_step(&mut self) -> (r: Result<(), CardiacError>)
        ensures
            follows(r, old(self)@, final(self)@, step_result(old(self)@)),
    {
        if self.target >= 100 {
            return Err(CardiacError::AddressOutOfRange);
        }
        let word = self.memory[self.target as usize];
        let opcode = div_toward_zero(word, 100);
        let address = rem_toward_zero(word, 100);
        let op = match decode(opcode) {
            Some(op) => op,
            None => return Err(CardiacError::UndecodedOpcode),
        };
        if address < 0 {
            return Err(CardiacError::AddressOutOfRange);
        }
        if self.step == i32::MAX {
            return Err(CardiacError::ArithmeticOverflow);
        }
        let addr = address as usize;
        let previous = self.target;
        self.target = previous + 1;
        let outcome = match op {
            Instruction::Inp => self.inp(addr),
            Instruction::Cla => {
                self.cla(addr);
                Ok(())
            },
            Instruction::Add => self.add(addr),
            Instruction::Tac => {
                self.tac(addr);
                Ok(())
            },
            Instruction::Sft => {
                self.sft(addr);
                Ok(())
            },
            Instruction::Out => {
                self.out(addr);
                Ok(())
            },
            Instruction::Sto => {
                self.sto(addr);
                Ok(())
            },
            Instruction::Sub => self.sub(addr),
            Instruction::Jmp => {
                self.jmp(addr);
                Ok(())
            },
            Instruction::Hrs => {
                self.hrs(addr);
                Ok(())
            },
        };
        match outcome {
            Ok(()) => {
                self.step = self.step + 1;
                Ok(())
            },
            Err(e) => {
                self.target = previous;
                Err(e)
            },
        }
    }

    /// Writes each value of `program` into the cell its key names. When a key
    /// is not a memory address nothing is written.
    pub fn load_program(&mut self, program: HashMap<u32, i32>) -> (r: Result<(), CardiacError>)
        ensures
            follows(
                r,
                old(self)@,
                final(self)@,
                if program_in_range(program@) {
                    Ok(MachineView { memory: loaded(old(self)@.memory, program@), ..old(self)@ })
                } else {
                    Err(CardiacError::AddressOutOfRange)
                },
            ),
    {
        let mut cells: [i32; 100] = self.memory;
        let mut found: usize = 0;
        let mut i: usize = 0;
        assert(keys_below(program@, 0) =~= Set::<u32>::empty());
        while i < MEMORY_SIZE
            invariant
                i <= MEMORY_SIZE,
                found <= i,
                found == keys_below(program@, i as int).len(),
                keys_below(program@, i as int).finite(),
                cells@.len() == MEMORY_SIZE,
                forall|j: int|
                    0 <= j < MEMORY_SIZE ==> #[trigger] cells@[j] == if j < i
                        && program@.contains_key(j as u32) {
                        program@[j as u32]
                    } else {
                        self.memory@[j]
                    },
            decreases MEMORY_SIZE - i,
        {
            let key: u32 = i as u32;
            let ghost before = keys_below(program@, i as int);
            match program.get(&key) {
                Some(value) => {
                    cells[i] = *value;
                    assert(keys_below(program@, i + 1) =~= before.insert(key));
                    found = found + 1;
                },
                None => {
                    assert(keys_below(program@, i + 1) =~= before);
                },
            }
            i = i + 1;
        }
        proof {
            let below = keys_below(program@, MEMORY_SIZE as int);
            assert(below.subset_of(program@.dom()));
            if program_in_range(program@) {
                assert(below =~= program@.dom());
            } else if found == program@.len() {
                vstd::set_lib::lemma_subset_equality(below, program@.dom());
                let k = choose|k: u32| program@.contains_key(k) && !(k < MEMORY_SIZE);
                assert(!below.contains(k));
            }
        }
        if found != program.len() {
            return Err(CardiacError::AddressOutOfRange);
        }
        self.memory = cells;
        assert(self.memory@ =~= loaded(old(self)@.memory, program@));
        Ok(())
    }

    /// Whether the machine is running.
    pub fn check_run(&self) -> (r: bool)
        ensures
            r == self@.run,
    {
        self.run
    }

    pub fn set_run(&mut self, value: bool)
        ensures
            final(self)@ == (MachineView { run: value, ..old(self)@ }),
    {
        self.run = value
    }

    pub fn set_target(&mut self, target: u32)
        ensures
            final(self)@ == (MachineView { target, ..old(self)@ }),
    {
        self.target = target
    }

    /// The program counter, open to editing.
    pub fn get_target(&mut self) -> (r: &mut u32)
        ensures
            *r == old(self)@.target,
            final(self)@ == (MachineView { target: *final(r), ..old(self)@ }),
    {
        &mut self.target
    }

    pub fn get_step(&mut self) -> (r: i32)
        ensures
            r == old(self)@.step,
            final(self)@ == old(self)@,
    {
        self.step
    }

    pub fn get_accumulator(&mut self) -> (r: i32)
        ensures
            r == old(self)@.accumulator,
            final(self)@ == old(self)@,
    {
        self.accumulator
    }

    pub fn get_flag(&mut self) -> (r: bool)
        ensures
            r == old(self)@.flag,
            final(self)@ == old(self)@,
    {
        self.flag
    }

    pub fn get_output_card(&self) -> (r: &Vec<i32>)
        ensures
            r@ == self@.output_deck,
    {
        &self.output_deck
    }

    pub fn get_input_card(&self) -> (r: &Vec<i32>)
        ensures
            r@ == self@.input_deck,
    {
        &self.input_deck
    }

    /// Puts a card at the head of the input deck; INP reads from the tail,
    /// so cards are read in the order they were added.
    pub fn add_input(&mut self, value: i32)
        ensures
            final(self)@ == (MachineView {
                input_deck: seq![value] + old(self)@.input_deck,
                ..old(self)@
            }),
    {
        self.input_deck.insert(0, value);
        assert(self.input_deck@ =~= seq![value] + old(self)@.input_deck);
    }

    pub fn get_memory(&self) -> (r: &[i32; 100])
        ensures
            r@ == self@.memory,
    {
        &self.memory
    }

    /// One memory cell, open to editing.
    pub fn get_memory_cell(&mut self, index: usize) -> (r: &mut i32)
        requires
            index < MEMORY_SIZE,
        ensures
            *r == old(self)@.memory[index as int],
            final(self)@ == (MachineView {
                memory: old(self)@.memory.update(index as int, *final(r)),
                ..old(self)@
            }),
    {
        &mut self.memory[index]
    }

    pub fn update_cell(&mut self, address: u32, instruction: i32)
        requires
            address < MEMORY_SIZE,
        ensures
            final(self)@ == (MachineView {
                memory: old(self)@.memory.update(address as int, instruction),
                ..old(self)@
            }),
    {
        self.memory[address as usize] = instruction;
    }
}

} // verus!
