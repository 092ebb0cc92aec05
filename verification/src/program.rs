use vstd::prelude::*;

use crate::errors::BefungeError;

verus! {

/// The mathematical content of a program: its grid of single characters,
/// row by row (rows may differ in length — the grid is jagged), and the
/// queue of supplied input values, front first.
pub ghost struct ProgramView {
    pub grid: Seq<Seq<char>>,
    pub values: Seq<u32>,
}

/// The rows of a character grid, each seen as a sequence.
pub open spec fn grid_view(rows: Seq<Vec<char>>) -> Seq<Seq<char>> {
    Seq::new(rows.len(), |i: int| rows[i]@)
}

/// An indexable, mutable two-dimensional character grid plus a FIFO queue
/// of pre-supplied numeric input values. The grid is mutated in place by
/// the running program itself; the value queue is drained front-to-back
/// and never refilled.
pub struct Program {
    values: Vec<u32>,
    instructions: Vec<Vec<char>>,
}

impl View for Program {
    type V = ProgramView;

    closed spec fn view(&self) -> ProgramView {
        ProgramView { grid: grid_view(self.instructions@), values: self.values@ }
    }
}

impl Program {
    /// Creates a program from supplied input values and grid rows.
    pub fn new(values: Vec<u32>, instructions: Vec<Vec<char>>) -> (p: Program)
        ensures
            p@.values == values@,
            p@.grid == grid_view(instructions@),
    {
        Program { values, instructions }
    }

    /// The number of rows in the grid.
    pub fn lines(&self) -> (n: usize)
        ensures
            n == self@.grid.len(),
    {
        self.instructions.len()
    }

    /// The number of characters in the given row. Rows are independently
    /// sized.
    pub fn chars_in_line(&self, line: usize) -> (n: usize)
        requires
            line < self@.grid.len(),
        ensures
            n == self@.grid[line as int].len(),
    {
        self.instructions[line].len()
    }

    /// Removes and returns the first element of the supplied-value queue.
    /// An exhausted queue is a caller-visible failure, distinct from the
    /// stack's silent-zero policy: input exhaustion is a program-authoring
    /// error, not a normal runtime condition.
    pub fn next_value(&mut self) -> (r: Result<u32, BefungeError>)
        ensures
            old(self)@.grid == final(self)@.grid,
            old(self)@.values.len() > 0 ==> r == Ok::<u32, BefungeError>(old(self)@.values[0])
                && final(self)@.values == old(self)@.values.drop_first(),
            old(self)@.values.len() == 0 ==> r == Err::<u32, BefungeError>(
                BefungeError::EmptyInputError,
            ) && final(self)@ == old(self)@,
    {
        if self.values.len() == 0 {
            Err(BefungeError::EmptyInputError)
        } else {
            let v = self.values.remove(0);
            Ok(v)
        }
    }

    /// Returns the character at `pos` (row, then column), or `IndexError`
    /// when the position lies outside the grid: the component performs a
    /// direct bounds-driven lookup and no clamping.
    pub fn get_instruction_char(&self, pos: [usize; 2]) -> (r: Result<char, BefungeError>)
        ensures
            pos[0] < self@.grid.len() && pos[1] < self@.grid[pos[0] as int].len() ==> r
                == Ok::<char, BefungeError>(self@.grid[pos[0] as int][pos[1] as int]),
            !(pos[0] < self@.grid.len() && pos[1] < self@.grid[pos[0] as int].len()) ==> r
                == Err::<char, BefungeError>(BefungeError::IndexError),
    {
        if pos[0] < self.instructions.len() {
            let row = &self.instructions[pos[0]];
            if pos[1] < row.len() {
                Ok(row[pos[1]])
            } else {
                Err(BefungeError::IndexError)
            }
        } else {
            Err(BefungeError::IndexError)
        }
    }

    /// Overwrites the character at `pos` (row, then column), enabling
    /// self-modifying programs, or returns `IndexError` when the position
    /// lies outside the grid. A write takes effect immediately on the next
    /// read from that cell.
    pub fn set_instruction_char(&mut self, pos: [usize; 2], c: char) -> (r: Result<
        (),
        BefungeError,
    >)
        ensures
            old(self)@.values == final(self)@.values,
            pos[0] < old(self)@.grid.len() && pos[1] < old(self)@.grid[pos[0] as int].len() ==> r
                == Ok::<(), BefungeError>(()) && final(self)@.grid == old(self)@.grid.update(
                pos[0] as int,
                old(self)@.grid[pos[0] as int].update(pos[1] as int, c),
            ),
            !(pos[0] < old(self)@.grid.len() && pos[1] < old(self)@.grid[pos[0] as int].len())
                ==> r == Err::<(), BefungeError>(BefungeError::IndexError) && final(self)@ == old(
                self,
            )@,
    {
        if pos[0] < self.instructions.len() {
            if pos[1] < self.instructions[pos[0]].len() {
                self.instructions[pos[0]][pos[1]] = c;
                proof {
                    assert(self@.grid =~~= old(self)@.grid.update(
                        pos[0] as int,
                        old(self)@.grid[pos[0] as int].update(pos[1] as int, c),
                    ));
                }
                Ok(())
            } else {
                Err(BefungeError::IndexError)
            }
        } else {
            Err(BefungeError::IndexError)
        }
    }
}

} // verus!
