use std::collections::HashMap;

use cardiac_core::{card_in_range, Assembler, CardiacError};

fn run_to_halt(assembler: &mut Assembler) {
    assembler.set_run(true);
    while assembler.check_run() {
        assembler.next_step().unwrap();
    }
}

/// A machine whose accumulator holds `value`, loaded by CLA from cell 50.
fn with_accumulator(value: i32) -> Assembler {
    let mut assembler = Assembler::new();
    assembler.update_cell(50, value);
    assembler.update_cell(10, 150);
    assembler.set_target(10);
    assembler.next_step().unwrap();
    assert_eq!(assembler.get_accumulator(), value);
    assembler
}

/// Runs the single instruction `word` placed in cell 20.
fn run_one(assembler: &mut Assembler, word: i32) -> Result<(), CardiacError> {
    assembler.update_cell(20, word);
    assembler.set_target(20);
    assembler.next_step()
}

#[test]
fn test_assembler_hello_world() {
    let mut assembler: Assembler = Assembler::new();

    let code: HashMap<u32, i32> = HashMap::from([
        (22, 100),
        (23, 410),
        (24, 644),
        (25, 144),
        (26, 544),
        (27, 700),
        (28, 330),
        (29, 824),
        (30, 900),
    ]);
    assembler.load_program(code).unwrap();

    assembler.set_target(22);

    run_to_halt(&mut assembler);

    let result: &Vec<i32> = assembler.get_output_card();
    let expected_result: &Vec<i32> = &Vec::from([10, 9, 8, 7, 6, 5, 4, 3, 2, 1, 0]);

    assert_eq!(result, expected_result)
}

#[test]
fn test_assembler_sum_two_nums() {
    let mut assembler: Assembler = Assembler::new();

    let code: HashMap<u32, i32> = HashMap::from([
        (10, 3),
        (11, 004),
        (12, 103),
        (13, 204),
        (14, 605),
        (15, 505),
        (16, 900),
    ]);
    assembler.load_program(code).unwrap();

    assembler.set_target(10);

    assembler.add_input(5);
    assembler.add_input(8);

    run_to_halt(&mut assembler);

    let result: &Vec<i32> = assembler.get_output_card();
    let expected_result: &Vec<i32> = &Vec::from([13]);

    assert_eq!(result, expected_result)
}

#[test]
fn power_on_state() {
    let mut assembler = Assembler::new();
    let memory = assembler.get_memory();
    assert_eq!(memory[0], 1);
    assert_eq!(memory[99], 800);
    assert!(memory[1..99].iter().all(|&c| c == 0));
    assert_eq!(assembler.get_accumulator(), 0);
    assert!(assembler.get_flag());
    assert_eq!(*assembler.get_target(), 0);
    assert_eq!(assembler.get_step(), 0);
    assert!(assembler.get_input_card().is_empty());
    assert!(assembler.get_output_card().is_empty());
    assert!(!assembler.check_run());
}

#[test]
fn input_cards_are_read_in_the_order_added() {
    let mut assembler = Assembler::new();
    assembler.add_input(5);
    assembler.add_input(8);
    assert_eq!(assembler.get_input_card(), &vec![8, 5]);
    run_one(&mut assembler, 30).unwrap();
    assert_eq!(assembler.get_memory()[30], 5);
    assert_eq!(assembler.get_input_card(), &vec![8]);
    run_one(&mut assembler, 31).unwrap();
    assert_eq!(assembler.get_memory()[31], 8);
    assert!(assembler.get_input_card().is_empty());
}

#[test]
fn input_from_an_empty_deck_stores_zero() {
    let mut assembler = Assembler::new();
    assembler.update_cell(30, 77);
    run_one(&mut assembler, 30).unwrap();
    assert_eq!(assembler.get_memory()[30], 0);
}

#[test]
fn input_into_cell_zero_does_nothing() {
    let mut assembler = Assembler::new();
    assembler.add_input(42);
    run_one(&mut assembler, 0).unwrap();
    assert_eq!(assembler.get_memory()[0], 1);
    assert_eq!(assembler.get_input_card(), &vec![42]);
    assert_eq!(*assembler.get_target(), 21);
    assert_eq!(assembler.get_step(), 1);
}

#[test]
fn malformed_input_card_is_reported() {
    let mut assembler = Assembler::new();
    assembler.add_input(1000);
    assert_eq!(run_one(&mut assembler, 30), Err(CardiacError::MalformedInputValue));
    assert_eq!(assembler.get_input_card(), &vec![1000]);
    assert_eq!(assembler.get_memory()[30], 0);
    assert_eq!(*assembler.get_target(), 20);
    assert_eq!(assembler.get_step(), 0);
}

#[test]
fn card_range() {
    assert!(card_in_range(999));
    assert!(card_in_range(-999));
    assert!(card_in_range(0));
    assert!(!card_in_range(1000));
    assert!(!card_in_range(-1000));
}

#[test]
fn clear_and_add_sets_flag_from_value() {
    let mut assembler = with_accumulator(-7);
    assert!(!assembler.get_flag());
    let mut assembler2 = with_accumulator(0);
    assert!(assembler2.get_flag());
    assert_eq!(assembler.get_step(), 1);
}

#[test]
fn add_flag_follows_the_operand() {
    let mut assembler = with_accumulator(5);
    assembler.update_cell(51, -3);
    run_one(&mut assembler, 251).unwrap();
    assert_eq!(assembler.get_accumulator(), 2);
    assert!(!assembler.get_flag());

    let mut assembler = with_accumulator(-5);
    assembler.update_cell(51, 3);
    run_one(&mut assembler, 251).unwrap();
    assert_eq!(assembler.get_accumulator(), -2);
    assert!(assembler.get_flag());
}

#[test]
fn subtract_flag_follows_the_result() {
    let mut assembler = with_accumulator(5);
    assembler.update_cell(51, 8);
    run_one(&mut assembler, 751).unwrap();
    assert_eq!(assembler.get_accumulator(), -3);
    assert!(!assembler.get_flag());

    let mut assembler = with_accumulator(5);
    assembler.update_cell(51, -8);
    run_one(&mut assembler, 751).unwrap();
    assert_eq!(assembler.get_accumulator(), 13);
    assert!(assembler.get_flag());
}

#[test]
fn accumulator_may_exceed_three_digits() {
    let mut assembler = with_accumulator(999);
    assembler.update_cell(51, 999);
    run_one(&mut assembler, 251).unwrap();
    assert_eq!(assembler.get_accumulator(), 1998);
}

#[test]
fn accumulator_overflow_is_reported() {
    let mut assembler = with_accumulator(i32::MAX);
    assert_eq!(run_one(&mut assembler, 200), Err(CardiacError::ArithmeticOverflow));
    assert_eq!(assembler.get_accumulator(), i32::MAX);
    assert_eq!(*assembler.get_target(), 20);

    let mut assembler = with_accumulator(i32::MIN);
    assert_eq!(run_one(&mut assembler, 700), Err(CardiacError::ArithmeticOverflow));
    assert_eq!(assembler.get_accumulator(), i32::MIN);
}

#[test]
fn test_jumps_only_on_negative_flag() {
    let mut assembler = with_accumulator(-1);
    run_one(&mut assembler, 340).unwrap();
    assert_eq!(*assembler.get_target(), 40);
    assert_eq!(assembler.get_memory()[99], 821);

    let mut assembler = with_accumulator(1);
    run_one(&mut assembler, 340).unwrap();
    assert_eq!(*assembler.get_target(), 21);
    assert_eq!(assembler.get_memory()[99], 800);
}

#[test]
fn test_reads_the_latched_flag() {
    // OUT leaves the flag as CLA set it.
    let mut assembler = with_accumulator(-1);
    run_one(&mut assembler, 550).unwrap();
    assert!(!assembler.get_flag());
    run_one(&mut assembler, 340).unwrap();
    assert_eq!(*assembler.get_target(), 40);
}

#[test]
fn shift_left_then_right() {
    let mut assembler = with_accumulator(999);
    run_one(&mut assembler, 421).unwrap();
    assert_eq!(assembler.get_accumulator(), 990);

    let mut assembler = with_accumulator(1234);
    run_one(&mut assembler, 410).unwrap();
    assert_eq!(assembler.get_accumulator(), 2340);

    let mut assembler = with_accumulator(-1234);
    run_one(&mut assembler, 410).unwrap();
    assert_eq!(assembler.get_accumulator(), -2340);

    let mut assembler = with_accumulator(123);
    run_one(&mut assembler, 403).unwrap();
    assert_eq!(assembler.get_accumulator(), 0);
}

#[test]
fn shift_by_nothing_keeps_four_digits() {
    let mut assembler = with_accumulator(12345);
    run_one(&mut assembler, 400).unwrap();
    assert_eq!(assembler.get_accumulator(), 2345);
}

#[test]
fn shift_in_stages_matches_one_shift() {
    let mut direct = with_accumulator(-4567);
    run_one(&mut direct, 432).unwrap();

    let mut staged = with_accumulator(-4567);
    run_one(&mut staged, 400).unwrap();
    let mut value = staged.get_accumulator();
    for _ in 0..3 {
        value = (value * 10) % 10_000;
    }
    for _ in 0..2 {
        value /= 10;
    }
    assert_eq!(direct.get_accumulator(), value);
    assert_eq!(value, -70);
}

#[test]
fn shift_of_a_large_accumulator() {
    let mut assembler = with_accumulator(i32::MAX);
    run_one(&mut assembler, 490).unwrap();
    assert_eq!(assembler.get_accumulator(), 0);

    let mut assembler = with_accumulator(i32::MAX);
    run_one(&mut assembler, 410).unwrap();
    assert_eq!(assembler.get_accumulator(), 6470);
}

#[test]
fn output_appends_the_cell() {
    let mut assembler = Assembler::new();
    assembler.update_cell(60, -5);
    run_one(&mut assembler, 560).unwrap();
    run_one(&mut assembler, 500).unwrap();
    assert_eq!(assembler.get_output_card(), &vec![-5, 1]);
}

#[test]
fn store_keeps_three_digits() {
    let mut assembler = with_accumulator(1234);
    run_one(&mut assembler, 660).unwrap();
    assert_eq!(assembler.get_memory()[60], 234);

    let mut assembler = with_accumulator(-1234);
    run_one(&mut assembler, 660).unwrap();
    assert_eq!(assembler.get_memory()[60], -234);
}

#[test]
fn store_then_load_round_trip() {
    let mut assembler = with_accumulator(5678);
    run_one(&mut assembler, 660).unwrap();
    run_one(&mut assembler, 160).unwrap();
    assert_eq!(assembler.get_accumulator(), 678);
    assert!(assembler.get_flag());
    run_one(&mut assembler, 660).unwrap();
    run_one(&mut assembler, 160).unwrap();
    assert_eq!(assembler.get_accumulator(), 678);
    assert_eq!(assembler.get_memory()[60], 678);
}

#[test]
fn jump_records_return_address() {
    let mut assembler = Assembler::new();
    run_one(&mut assembler, 842).unwrap();
    assert_eq!(*assembler.get_target(), 42);
    assert_eq!(assembler.get_memory()[99], 821);
}

#[test]
fn jump_from_the_return_cell_keeps_it() {
    let mut assembler = Assembler::new();
    assembler.update_cell(99, 842);
    assembler.set_target(99);
    assembler.next_step().unwrap();
    assert_eq!(*assembler.get_target(), 42);
    assert_eq!(assembler.get_memory()[99], 842);
}

#[test]
fn subroutine_returns_through_cell_99() {
    let mut assembler = Assembler::new();
    let code: HashMap<u32, i32> = HashMap::from([
        (10, 850),
        (11, 900),
        (50, 199),
        (51, 653),
        (52, 500),
        (53, 0),
    ]);
    assembler.load_program(code).unwrap();
    assembler.set_target(10);
    run_to_halt(&mut assembler);
    assert_eq!(assembler.get_output_card(), &vec![1]);
    assert_eq!(assembler.get_memory()[53], 811);
    assert_eq!(assembler.get_memory()[99], 854);
    assert_eq!(*assembler.get_target(), 0);
    assert_eq!(assembler.get_step(), 6);
}

#[test]
fn halt_sets_target_and_stops() {
    let mut assembler = Assembler::new();
    assembler.set_run(true);
    run_one(&mut assembler, 977).unwrap();
    assert!(!assembler.check_run());
    assert_eq!(*assembler.get_target(), 77);
}

#[test]
fn undecoded_opcode_stops_without_advancing() {
    let mut assembler = Assembler::new();
    assert_eq!(run_one(&mut assembler, 1000), Err(CardiacError::UndecodedOpcode));
    assert_eq!(*assembler.get_target(), 20);
    assert_eq!(assembler.get_step(), 0);

    assert_eq!(run_one(&mut assembler, -150), Err(CardiacError::UndecodedOpcode));
    assert_eq!(*assembler.get_target(), 20);
}

#[test]
fn negative_address_is_out_of_range() {
    let mut assembler = Assembler::new();
    assert_eq!(run_one(&mut assembler, -5), Err(CardiacError::AddressOutOfRange));
    assert_eq!(*assembler.get_target(), 20);
}

#[test]
fn target_past_memory_is_out_of_range() {
    let mut assembler = Assembler::new();
    assembler.set_target(100);
    assert_eq!(assembler.next_step(), Err(CardiacError::AddressOutOfRange));
    assert_eq!(*assembler.get_target(), 100);
}

#[test]
fn step_counts_instructions() {
    let mut assembler = Assembler::new();
    run_one(&mut assembler, 500).unwrap();
    run_one(&mut assembler, 500).unwrap();
    assert_eq!(assembler.get_step(), 2);
}

#[test]
fn load_program_overwrites_listed_cells_only() {
    let mut assembler = Assembler::new();
    assembler.update_cell(5, 55);
    let code: HashMap<u32, i32> = HashMap::from([(0, 7), (99, 123), (40, -1)]);
    assembler.load_program(code).unwrap();
    let memory = assembler.get_memory();
    assert_eq!(memory[0], 7);
    assert_eq!(memory[99], 123);
    assert_eq!(memory[40], -1);
    assert_eq!(memory[5], 55);
}

#[test]
fn load_program_rejects_address_100() {
    let mut assembler = Assembler::new();
    let code: HashMap<u32, i32> = HashMap::from([(10, 5), (100, 1)]);
    assert_eq!(assembler.load_program(code), Err(CardiacError::AddressOutOfRange));
    assert_eq!(assembler.get_memory()[10], 0);
}

#[test]
fn load_program_keeps_registers() {
    let mut assembler = with_accumulator(12);
    assembler.add_input(3);
    assembler.load_program(HashMap::from([(1, 2)])).unwrap();
    assert_eq!(assembler.get_accumulator(), 12);
    assert_eq!(assembler.get_input_card(), &vec![3]);
    assert_eq!(*assembler.get_target(), 11);
}

#[test]
fn reset_keeps_memory() {
    let mut assembler = Assembler::new();
    let code: HashMap<u32, i32> = HashMap::from([(10, 3), (11, 103), (12, 503), (13, 700)]);
    assembler.load_program(code).unwrap();
    assembler.add_input(-9);
    assembler.add_input(4);
    assembler.set_target(10);
    assembler.set_run(true);
    for _ in 0..4 {
        assembler.next_step().unwrap();
    }
    assert_eq!(assembler.get_accumulator(), -10);
    assembler.reset();
    assert_eq!(assembler.get_accumulator(), 0);
    assert!(assembler.get_flag());
    assert_eq!(*assembler.get_target(), 0);
    assert_eq!(assembler.get_step(), 0);
    assert!(assembler.get_input_card().is_empty());
    assert!(assembler.get_output_card().is_empty());
    assert!(!assembler.check_run());
    let memory = assembler.get_memory();
    assert_eq!(memory[3], -9);
    assert_eq!(memory[10], 3);
    assert_eq!(memory[13], 700);
}

#[test]
fn clear_memory_restores_layout() {
    let mut assembler = Assembler::new();
    assembler.update_cell(0, 5);
    assembler.update_cell(99, 0);
    assembler.update_cell(42, 42);
    assembler.add_input(1);
    assembler.clear_memory();
    let memory = assembler.get_memory();
    assert_eq!(memory[0], 1);
    assert_eq!(memory[99], 800);
    assert_eq!(memory[42], 0);
    assert_eq!(assembler.get_input_card(), &vec![1]);
}

#[test]
fn editing_through_references() {
    let mut assembler = Assembler::new();
    *assembler.get_memory_cell(7) = 321;
    *assembler.get_target() = 7;
    assert_eq!(assembler.get_memory()[7], 321);
    assert_eq!(*assembler.get_memory_cell(7), 321);
    assert_eq!(*assembler.get_target(), 7);
}
