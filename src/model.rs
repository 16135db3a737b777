use vstd::prelude::*;

verus! {

/// Number of memory cells.
pub const MEMORY_SIZE: usize = 100;

/// Address of the cell that holds the return jump of a subroutine.
pub const RETURN_CELL: usize = 99;

/// Power-on content of the return cell: a jump to cell 0.
pub const RETURN_DEFAULT: i32 = 800;

/// Why one step of the machine could not be carried out.
#[derive(Clone, Copy, Debug, PartialEq, Eq, Structural)]
pub enum CardiacError {
    /// A memory or load address lies outside 0..=99.
    AddressOutOfRange,
    /// The opcode digit of the fetched word names no instruction.
    UndecodedOpcode,
    /// A value taken from the input deck lies outside -999..=999.
    MalformedInputValue,
    /// The accumulator or the step counter would leave the range of `i32`.
    ArithmeticOverflow,
}

/// The ten operations of the machine, one per opcode digit.
#[derive(Clone, Copy, Debug, PartialEq, Eq, Structural)]
pub enum Instruction {
    Inp,
    Cla,
    Add,
    Tac,
    Sft,
    Out,
    Sto,
    Sub,
    Jmp,
    Hrs,
}

/// Abstract state of the machine.
pub struct MachineView {
    pub memory: Seq<i32>,
    pub accumulator: i32,
    pub target: u32,
    pub flag: bool,
    pub step: i32,
    pub input_deck: Seq<i32>,
    pub output_deck: Seq<i32>,
    pub run: bool,
}

/// Quotient rounded toward zero, as Rust's `/` computes it.
pub open spec fn trunc_div(a: int, m: int) -> int {
    if a >= 0 {
        a / m
    } else {
        -((-a) / m)
    }
}

/// Remainder carrying the sign of the dividend, as Rust's `%` computes it.
pub open spec fn trunc_rem(a: int, m: int) -> int {
    if a >= 0 {
        a % m
    } else {
        -((-a) % m)
    }
}

pub open spec fn fits_i32(a: int) -> bool {
    i32::MIN <= a <= i32::MAX
}

pub open spec fn is_card_value(v: int) -> bool {
    -999 <= v <= 999
}

pub open spec fn pow10(n: nat) -> int
    decreases n,
{
    if n == 0 {
        1
    } else {
        10 * pow10((n - 1) as nat)
    }
}

/// `a` divided by ten, `n` times, each time rounding toward zero.
pub open spec fn shift_right(a: int, n: nat) -> int
    decreases n,
{
    if n == 0 {
        a
    } else {
        shift_right(trunc_div(a, 10), (n - 1) as nat)
    }
}

/// Decimal shift of the accumulator: `left` digits up, kept to four
/// digits, then `right` digits down.
pub open spec fn shifted(a: int, left: nat, right: nat) -> int {
    shift_right(trunc_rem(a * pow10(left), 10000), right)
}

/// The instruction named by an opcode digit.
pub open spec fn decode_spec(opcode: int) -> Option<Instruction> {
    if opcode == 0 {
        Some(Instruction::Inp)
    } else if opcode == 1 {
        Some(Instruction::Cla)
    } else if opcode == 2 {
        Some(Instruction::Add)
    } else if opcode == 3 {
        Some(Instruction::Tac)
    } else if opcode == 4 {
        Some(Instruction::Sft)
    } else if opcode == 5 {
        Some(Instruction::Out)
    } else if opcode == 6 {
        Some(Instruction::Sto)
    } else if opcode == 7 {
        Some(Instruction::Sub)
    } else if opcode == 8 {
        Some(Instruction::Jmp)
    } else if opcode == 9 {
        Some(Instruction::Hrs)
    } else {
        None
    }
}

/// Memory at power-on: zero everywhere but the constant 1 in cell 0 and a
/// jump to cell 0 in the return cell.
pub open spec fn default_memory() -> Seq<i32> {
    Seq::new(
        MEMORY_SIZE as nat,
        |i: int|
            if i == 0 {
                1i32
            } else if i == RETURN_CELL {
                RETURN_DEFAULT
            } else {
                0i32
            },
    )
}

pub open spec fn power_on() -> MachineView {
    MachineView {
        memory: default_memory(),
        accumulator: 0,
        target: 0,
        flag: true,
        step: 0,
        input_deck: Seq::empty(),
        output_deck: Seq::empty(),
        run: false,
    }
}

/// State after `reset`: registers and decks as at power-on, memory kept.
pub open spec fn reset_state(s: MachineView) -> MachineView {
    MachineView { memory: s.memory, ..power_on() }
}

/// JMP: record the return jump in the return cell unless the target already
/// points past the last cell, then go to `addr`.
pub open spec fn jump(s: MachineView, addr: int) -> MachineView {
    MachineView {
        memory: if s.target != 100 {
            s.memory.update(RETURN_CELL as int, (RETURN_DEFAULT + s.target) as i32)
        } else {
            s.memory
        },
        target: addr as u32,
        ..s
    }
}

/// Effect of one instruction on address `addr`, the target already advanced.
pub open spec fn apply(s: MachineView, op: Instruction, addr: int) -> Result<
    MachineView,
    CardiacError,
> {
    match op {
        Instruction::Inp => {
            if addr == 0 {
                Ok(s)
            } else if s.input_deck.len() == 0 {
                Ok(MachineView { memory: s.memory.update(addr, 0), ..s })
            } else if !is_card_value(s.input_deck.last() as int) {
                Err(CardiacError::MalformedInputValue)
            } else {
                Ok(
                    MachineView {
                        memory: s.memory.update(addr, s.input_deck.last()),
                        input_deck: s.input_deck.drop_last(),
                        ..s
                    },
                )
            }
        },
        Instruction::Cla => Ok(
            MachineView { accumulator: s.memory[addr], flag: s.memory[addr] >= 0, ..s },
        ),
        Instruction::Add => {
            let sum = s.accumulator + s.memory[addr];
            if !fits_i32(sum) {
                Err(CardiacError::ArithmeticOverflow)
            } else {
                Ok(MachineView { accumulator: sum as i32, flag: s.memory[addr] >= 0, ..s })
            }
        },
        Instruction::Tac => {
            if !s.flag {
                Ok(jump(s, addr))
            } else {
                Ok(s)
            }
        },
        Instruction::Sft => Ok(
            MachineView {
                accumulator: shifted(
                    s.accumulator as int,
                    (addr / 10) as nat,
                    (addr % 10) as nat,
                ) as i32,
                ..s
            },
        ),
        Instruction::Out => Ok(MachineView { output_deck: s.output_deck.push(s.memory[addr]), ..s }),
        Instruction::Sto => Ok(
            MachineView {
                memory: s.memory.update(addr, trunc_rem(s.accumulator as int, 1000) as i32),
                ..s
            },
        ),
        Instruction::Sub => {
            let diff = s.accumulator - s.memory[addr];
            if !fits_i32(diff) {
                Err(CardiacError::ArithmeticOverflow)
            } else {
                Ok(MachineView { accumulator: diff as i32, flag: diff >= 0, ..s })
            }
        },
        Instruction::Jmp => Ok(jump(s, addr)),
        Instruction::Hrs => Ok(MachineView { target: addr as u32, run: false, ..s }),
    }
}

/// The word at the current target.
pub open spec fn fetched(s: MachineView) -> int {
    s.memory[s.target as int] as int
}

/// One fetch-decode-execute cycle. On error nothing changes.
pub open spec fn step_result(s: MachineView) -> Result<MachineView, CardiacError> {
    if s.target >= MEMORY_SIZE {
        Err(CardiacError::AddressOutOfRange)
    } else {
        let word = fetched(s);
        let opcode = trunc_div(word, 100);
        let addr = trunc_rem(word, 100);
        match decode_spec(opcode) {
            None => Err(CardiacError::UndecodedOpcode),
            Some(op) => {
                if addr < 0 {
                    Err(CardiacError::AddressOutOfRange)
                } else if s.step == i32::MAX {
                    Err(CardiacError::ArithmeticOverflow)
                } else {
                    let advanced = MachineView { target: (s.target + 1) as u32, ..s };
                    match apply(advanced, op, addr) {
                        Ok(t) => Ok(MachineView { step: (s.step + 1) as i32, ..t }),
                        Err(e) => Err(e),
                    }
                }
            },
        }
    }
}

/// `after` and `r` are what an operation whose model outcome is `expected`
/// leaves behind, starting from `before`: the new state on success, the
/// error and an unchanged state on failure.
pub open spec fn follows(
    r: Result<(), CardiacError>,
    before: MachineView,
    after: MachineView,
    expected: Result<MachineView, CardiacError>,
) -> bool {
    match expected {
        Ok(t) => r == Ok::<(), CardiacError>(()) && after == t,
        Err(e) => r == Err::<(), CardiacError>(e) && after == before,
    }
}

/// Memory after loading `program` over `mem`: each listed address takes its
/// value, the others keep theirs.
pub open spec fn loaded(mem: Seq<i32>, program: Map<u32, i32>) -> Seq<i32> {
    Seq::new(
        mem.len(),
        |i: int|
            if program.contains_key(i as u32) {
                program[i as u32]
            } else {
                mem[i]
            },
    )
}

/// The addresses of `program` below `n`.
pub open spec fn keys_below(program: Map<u32, i32>, n: int) -> Set<u32> {
    program.dom().filter(|k: u32| k < n)
}

pub open spec fn program_in_range(program: Map<u32, i32>) -> bool {
    forall|k: u32| #[trigger] program.contains_key(k) ==> k < MEMORY_SIZE
}

} // verus!
