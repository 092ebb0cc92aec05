use rubefunge_93::errors::BefungeError;
use rubefunge_93::interpreter::{direction_from_index, Interpreter};
use rubefunge_93::machine::{Action, Direction, OutputItem};
use rubefunge_93::program::Program;

const STEPS: u64 = 1_000_000;

fn rows(lines: &[&str]) -> Vec<Vec<char>> {
    lines.iter().map(|l| l.chars().collect()).collect()
}

fn interpreter(values: Vec<u32>, lines: &[&str]) -> Interpreter {
    Interpreter::from_program(Program::new(values, rows(lines)))
}

#[test]
fn starts_at_the_top_left_with_no_output() {
    let i = interpreter(vec![], &["@"]);
    assert_eq!(i.position(), [0, 0]);
    assert_eq!(i.output().len(), 0);
}

#[test]
fn halts_on_the_halt_instruction() {
    let mut i = interpreter(vec![], &["@"]);
    assert_eq!(i.execute(STEPS), Ok(true));
    assert_eq!(i.position(), [0, 0]);
}

#[test]
fn runs_out_of_steps_on_a_program_that_never_halts() {
    let mut i = interpreter(vec![], &[" "]);
    assert_eq!(i.execute(50), Ok(false));
}

#[test]
fn a_step_limit_of_zero_takes_no_step() {
    let mut i = interpreter(vec![], &["@"]);
    assert_eq!(i.execute(0), Ok(false));
}

#[test]
fn an_empty_grid_faults_at_the_first_fetch() {
    let mut i = interpreter(vec![], &[]);
    assert_eq!(i.execute(STEPS), Err(BefungeError::IndexError));
}

#[test]
fn digits_push_their_numeric_value() {
    let mut i = interpreter(vec![], &["7.@"]);
    assert_eq!(i.execute(STEPS), Ok(true));
    assert_eq!(i.output().len(), 1);
    assert_eq!(i.output()[0], OutputItem::Number(7));
}

#[test]
fn addition_pops_two_and_pushes_their_sum() {
    let mut i = interpreter(vec![], &["49+.@"]);
    assert_eq!(i.execute(STEPS), Ok(true));
    assert_eq!(i.output()[0], OutputItem::Number(13));
}

#[test]
fn subtraction_is_second_popped_minus_first_popped() {
    // Pushing 3 then 9 and applying '-' computes 3 - 9, which wraps as an
    // unsigned 32-bit value.
    let mut i = interpreter(vec![], &[]);
    assert_eq!(i.process_instruction('3', 0), Ok(Action::Nothing));
    assert_eq!(i.process_instruction('9', 0), Ok(Action::Nothing));
    assert_eq!(i.process_instruction('-', 0), Ok(Action::Nothing));
    assert_eq!(i.process_instruction('.', 0), Ok(Action::Nothing));
    assert_eq!(i.output()[0], OutputItem::Number(3u32.wrapping_sub(9)));
}

#[test]
fn subtraction_in_push_order() {
    let mut i = interpreter(vec![], &["93-.@"]);
    assert_eq!(i.execute(STEPS), Ok(true));
    assert_eq!(i.output()[0], OutputItem::Number(6));
}

#[test]
fn multiplication_pops_two_and_pushes_their_product() {
    let mut i = interpreter(vec![], &["67*.@"]);
    assert_eq!(i.execute(STEPS), Ok(true));
    assert_eq!(i.output()[0], OutputItem::Number(42));
}

#[test]
fn division_is_second_popped_over_first_popped() {
    let mut i = interpreter(vec![], &["93/.@"]);
    assert_eq!(i.execute(STEPS), Ok(true));
    assert_eq!(i.output()[0], OutputItem::Number(3));
}

#[test]
fn modulo_is_second_popped_modulo_first_popped() {
    let mut i = interpreter(vec![], &["94%.@"]);
    assert_eq!(i.execute(STEPS), Ok(true));
    assert_eq!(i.output()[0], OutputItem::Number(1));
}

#[test]
fn division_by_zero_is_an_arithmetic_fault() {
    let mut i = interpreter(vec![], &["90/@"]);
    assert_eq!(i.execute(STEPS), Err(BefungeError::ArithmeticError));
}

#[test]
fn modulo_by_zero_is_an_arithmetic_fault() {
    let mut i = interpreter(vec![], &["90%@"]);
    assert_eq!(i.execute(STEPS), Err(BefungeError::ArithmeticError));
}

#[test]
fn logical_not_maps_zero_to_one() {
    let mut i = interpreter(vec![], &["0!.@"]);
    assert_eq!(i.execute(STEPS), Ok(true));
    assert_eq!(i.output()[0], OutputItem::Number(1));
}

#[test]
fn logical_not_maps_nonzero_to_zero() {
    let mut i = interpreter(vec![], &["5!.@"]);
    assert_eq!(i.execute(STEPS), Ok(true));
    assert_eq!(i.output()[0], OutputItem::Number(0));
}

#[test]
fn greater_than_compares_in_push_order() {
    let mut i = interpreter(vec![], &["73`.@"]);
    assert_eq!(i.execute(STEPS), Ok(true));
    assert_eq!(i.output()[0], OutputItem::Number(1));

    let mut i = interpreter(vec![], &["37`.@"]);
    assert_eq!(i.execute(STEPS), Ok(true));
    assert_eq!(i.output()[0], OutputItem::Number(0));
}

#[test]
fn horizontal_conditional_picks_right_on_zero() {
    let mut i = interpreter(vec![], &[]);
    assert_eq!(i.process_instruction('0', 0), Ok(Action::Nothing));
    assert_eq!(i.process_instruction('_', 0), Ok(Action::ChangeDir(Direction::Right)));
    assert_eq!(i.process_instruction('1', 0), Ok(Action::Nothing));
    assert_eq!(i.process_instruction('_', 0), Ok(Action::ChangeDir(Direction::Left)));
}

#[test]
fn vertical_conditional_picks_down_on_zero() {
    let mut i = interpreter(vec![], &[]);
    assert_eq!(i.process_instruction('0', 0), Ok(Action::Nothing));
    assert_eq!(i.process_instruction('|', 0), Ok(Action::ChangeDir(Direction::Down)));
    assert_eq!(i.process_instruction('1', 0), Ok(Action::Nothing));
    assert_eq!(i.process_instruction('|', 0), Ok(Action::ChangeDir(Direction::Up)));
}

#[test]
fn random_direction_follows_the_draw() {
    let mut i = interpreter(vec![], &[]);
    assert_eq!(i.process_instruction('?', 0), Ok(Action::ChangeDir(Direction::Right)));
    assert_eq!(i.process_instruction('?', 1), Ok(Action::ChangeDir(Direction::Left)));
    assert_eq!(i.process_instruction('?', 2), Ok(Action::ChangeDir(Direction::Up)));
    assert_eq!(i.process_instruction('?', 3), Ok(Action::ChangeDir(Direction::Down)));
}

#[test]
fn a_draw_outside_the_range_is_an_internal_fault() {
    let mut i = interpreter(vec![], &[]);
    assert_eq!(i.process_instruction('?', 9), Err(BefungeError::InternalError));
    assert_eq!(direction_from_index(4), Err(BefungeError::InternalError));
    assert_eq!(direction_from_index(3), Ok(Direction::Down));
}

#[test]
fn discard_drops_exactly_one_value() {
    let mut i = interpreter(vec![], &["12$.@"]);
    assert_eq!(i.execute(STEPS), Ok(true));
    assert_eq!(i.output().len(), 1);
    assert_eq!(i.output()[0], OutputItem::Number(1));
}

#[test]
fn duplicate_then_print_twice() {
    let mut i = interpreter(vec![], &["5:..@"]);
    assert_eq!(i.execute(STEPS), Ok(true));
    assert_eq!(i.output().len(), 2);
    assert_eq!(i.output()[0], OutputItem::Number(5));
    assert_eq!(i.output()[1], OutputItem::Number(5));
}

#[test]
fn swap_then_print_in_swapped_order() {
    let mut i = interpreter(vec![], &["39\\..@"]);
    assert_eq!(i.execute(STEPS), Ok(true));
    // After the swap 3 sits on top of 9, so 3 prints first.
    assert_eq!(i.output().len(), 2);
    assert_eq!(i.output()[0], OutputItem::Number(3));
    assert_eq!(i.output()[1], OutputItem::Number(9));
}

#[test]
fn character_output_prints_the_codepoint() {
    let mut i = interpreter(vec![], &["88*,@"]);
    assert_eq!(i.execute(STEPS), Ok(true));
    assert_eq!(i.output()[0], OutputItem::Character('@'));
}

#[test]
fn character_output_of_a_surrogate_is_an_index_fault() {
    let mut i = interpreter(vec![55296], &["&,@"]);
    assert_eq!(i.execute(STEPS), Err(BefungeError::IndexError));
}

#[test]
fn string_mode_pushes_codepoints_in_order() {
    let mut i = interpreter(vec![], &["\"abc\",,,@"]);
    assert_eq!(i.execute(STEPS), Ok(true));
    // Popped and printed top first: the codepoints went on in the order
    // a, b, c, and the quotes themselves were not pushed.
    assert_eq!(i.output().len(), 3);
    assert_eq!(i.output()[0], OutputItem::Character('c'));
    assert_eq!(i.output()[1], OutputItem::Character('b'));
    assert_eq!(i.output()[2], OutputItem::Character('a'));
}

#[test]
fn string_mode_pushes_a_digit_as_its_codepoint() {
    let mut i = interpreter(vec![], &["\"1\",@"]);
    assert_eq!(i.execute(STEPS), Ok(true));
    assert_eq!(i.output()[0], OutputItem::Character('1'));
}

#[test]
fn trampoline_skips_the_next_cell() {
    let mut i = interpreter(vec![], &["#x@"]);
    assert_eq!(i.execute(STEPS), Ok(true));
    // The skipped cell was never dispatched; the pointer halted beyond it.
    assert_eq!(i.position(), [0, 2]);
    assert_eq!(i.output().len(), 0);
}

#[test]
fn right_wrap_returns_to_column_zero() {
    let mut i = interpreter(vec![], &["ab"]);
    i.update_pos();
    assert_eq!(i.position(), [0, 1]);
    i.update_pos();
    assert_eq!(i.position(), [0, 0]);
}

#[test]
fn left_wrap_returns_to_the_last_column() {
    let mut i = interpreter(vec![], &["<@x"]);
    // '<' turns the pointer left; it wraps to the last column, passes the
    // no-op, and halts on '@'.
    assert_eq!(i.execute(STEPS), Ok(true));
    assert_eq!(i.position(), [0, 1]);
    i.update_pos();
    assert_eq!(i.position(), [0, 0]);
    i.update_pos();
    assert_eq!(i.position(), [0, 2]);
}

#[test]
fn rows_of_different_lengths_wrap_independently() {
    // The pointer drops into the second row and turns left there; the
    // wrap uses that row's own length of three, not the first row's one.
    let mut i = interpreter(vec![], &["v", "<@x"]);
    assert_eq!(i.execute(STEPS), Ok(true));
    assert_eq!(i.position(), [1, 1]);
}

#[test]
fn upward_wrap_returns_to_the_last_row() {
    // '^' at the top row wraps the pointer to the bottom row.
    let mut i = interpreter(vec![], &["^", "@"]);
    assert_eq!(i.execute(STEPS), Ok(true));
    assert_eq!(i.position(), [1, 0]);
}

#[test]
fn downward_wrap_returns_to_the_first_row() {
    let mut i = interpreter(vec![], &["v", "@"]);
    assert_eq!(i.execute(STEPS), Ok(true));
    assert_eq!(i.position(), [1, 0]);
    // The halted pointer sits on the last row moving down; one more
    // advancement wraps it back to the first row.
    i.update_pos();
    assert_eq!(i.position(), [0, 0]);
}

#[test]
fn get_reads_a_cell_as_a_codepoint() {
    let mut i = interpreter(vec![], &["03g.@"]);
    assert_eq!(i.execute(STEPS), Ok(true));
    // Cell (0, 3) holds '.', codepoint 46.
    assert_eq!(i.output()[0], OutputItem::Number(46));
}

#[test]
fn get_out_of_bounds_is_an_index_fault() {
    let mut i = interpreter(vec![], &["99g@"]);
    assert_eq!(i.execute(STEPS), Err(BefungeError::IndexError));
}

#[test]
fn put_writes_a_halt_ahead_and_the_pointer_halts_there() {
    // Pushes v = 64 ('@'), y = 0, x = 9, writes '@' over the 'x' at
    // (0, 9), and steps onto it.
    let mut i = interpreter(vec![], &["88*033*p x"]);
    assert_eq!(i.execute(STEPS), Ok(true));
    assert_eq!(i.position(), [0, 9]);
    assert_eq!(i.output().len(), 0);
}

#[test]
fn put_out_of_bounds_is_an_index_fault() {
    let mut i = interpreter(vec![], &["88*099*p@"]);
    assert_eq!(i.execute(STEPS), Err(BefungeError::IndexError));
}

#[test]
fn input_pushes_the_next_supplied_value() {
    let mut i = interpreter(vec![42], &["&.@"]);
    assert_eq!(i.execute(STEPS), Ok(true));
    assert_eq!(i.output()[0], OutputItem::Number(42));
}

#[test]
fn tilde_reads_the_supplied_values_like_ampersand() {
    let mut i = interpreter(vec![1, 2], &["&~..@"]);
    assert_eq!(i.execute(STEPS), Ok(true));
    assert_eq!(i.output()[0], OutputItem::Number(2));
    assert_eq!(i.output()[1], OutputItem::Number(1));
}

#[test]
fn input_exhaustion_is_a_distinct_fault_not_a_default() {
    let mut i = interpreter(vec![], &["&@"]);
    assert_eq!(i.execute(STEPS), Err(BefungeError::EmptyInputError));
    assert_eq!(i.output().len(), 0);
}

#[test]
fn wrapped_row_with_a_random_branch_prints_one_number() {
    // One toroidal row; the single random-direction branch may wander,
    // but every exit path prints exactly one number and halts.
    let mut i = interpreter(vec![0], &["1248::+1> #+?\\#_.@"]);
    assert_eq!(i.execute(STEPS), Ok(true));
    assert_eq!(i.output().len(), 1);
    assert!(matches!(i.output()[0], OutputItem::Number(_)));
}

#[test]
fn unknown_characters_are_no_ops() {
    let mut i = interpreter(vec![], &["z =7.@"]);
    assert_eq!(i.execute(STEPS), Ok(true));
    assert_eq!(i.output().len(), 1);
    assert_eq!(i.output()[0], OutputItem::Number(7));
}
