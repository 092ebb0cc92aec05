use rubefunge_93::errors::BefungeError;
use rubefunge_93::program::Program;

fn rows(lines: &[&str]) -> Vec<Vec<char>> {
    lines.iter().map(|l| l.chars().collect()).collect()
}

#[test]
fn lines_and_chars_in_line_follow_the_jagged_grid() {
    let p = Program::new(vec![], rows(&["abc", "de", ""]));
    assert_eq!(p.lines(), 3);
    assert_eq!(p.chars_in_line(0), 3);
    assert_eq!(p.chars_in_line(1), 2);
    assert_eq!(p.chars_in_line(2), 0);
}

#[test]
fn next_value_drains_front_to_back_then_fails() {
    let mut p = Program::new(vec![5, 6], rows(&["@"]));
    assert_eq!(p.next_value(), Ok(5));
    assert_eq!(p.next_value(), Ok(6));
    assert_eq!(p.next_value(), Err(BefungeError::EmptyInputError));
    // The queue is never refilled.
    assert_eq!(p.next_value(), Err(BefungeError::EmptyInputError));
}

#[test]
fn get_instruction_char_reads_in_bounds_cells() {
    let p = Program::new(vec![], rows(&["abc", "de"]));
    assert_eq!(p.get_instruction_char([0, 2]), Ok('c'));
    assert_eq!(p.get_instruction_char([1, 0]), Ok('d'));
}

#[test]
fn get_instruction_char_rejects_out_of_bounds_cells() {
    let p = Program::new(vec![], rows(&["abc", "de"]));
    // Column beyond its own row, even though a longer row exists.
    assert_eq!(p.get_instruction_char([1, 2]), Err(BefungeError::IndexError));
    assert_eq!(p.get_instruction_char([2, 0]), Err(BefungeError::IndexError));
}

#[test]
fn set_instruction_char_overwrites_one_cell() {
    let mut p = Program::new(vec![], rows(&["abc"]));
    assert_eq!(p.set_instruction_char([0, 1], '@'), Ok(()));
    assert_eq!(p.get_instruction_char([0, 0]), Ok('a'));
    assert_eq!(p.get_instruction_char([0, 1]), Ok('@'));
    assert_eq!(p.get_instruction_char([0, 2]), Ok('c'));
}

#[test]
fn set_instruction_char_rejects_out_of_bounds_cells() {
    let mut p = Program::new(vec![], rows(&["abc"]));
    assert_eq!(p.set_instruction_char([0, 3], '@'), Err(BefungeError::IndexError));
    assert_eq!(p.set_instruction_char([1, 0], '@'), Err(BefungeError::IndexError));
    // The grid is unchanged by a rejected write.
    assert_eq!(p.get_instruction_char([0, 0]), Ok('a'));
}
