use vstd::prelude::*;

use crate::errors::BefungeError;
use crate::machine::{
    direction_of_draw, execute_matches, lemma_run_snoc, process_matches, run, spec_advance,
    spec_apply, spec_step, valid_codepoint, valid_draws, Action, Direction, MachineState,
    OutputItem, RunOutcome, State, StepOutcome,
};
use crate::program::Program;
use crate::stack::Stack;

verus! {

/// Relies on `char::from_u32`: the result is the character with the given
/// scalar value, and `None` exactly when the value is a surrogate or lies
/// above the greatest code point.
pub assume_specification[ char::from_u32 ](i: u32) -> (r: Option<char>)
    ensures
        valid_codepoint(i) <==> r is Some,
        r matches Some(c) ==> c == i as char && c as u32 == i,
;

/// Relies on rand's `thread_rng` and `Rng::gen_range`: a draw from the
/// half-open range below four, so the result is always one of 0, 1, 2, 3.
#[verifier::external_body]
fn random_dir_index() -> (r: u32)
    ensures
        r < 4,
{
    rand::Rng::gen_range(&mut rand::thread_rng(), 0..4u32)
}

/// The direction a random draw selects, in the order right, left, up,
/// down. A draw outside the expected range is a fatal internal invariant
/// violation, never silently coerced.
pub fn direction_from_index(index: u32) -> (r: Result<Direction, BefungeError>)
    ensures
        index < 4 ==> r == Ok::<Direction, BefungeError>(direction_of_draw(index)),
        index >= 4 ==> r == Err::<Direction, BefungeError>(BefungeError::InternalError),
{
    if index == 0 {
        Ok(Direction::Right)
    } else if index == 1 {
        Ok(Direction::Left)
    } else if index == 2 {
        Ok(Direction::Up)
    } else if index == 3 {
        Ok(Direction::Down)
    } else {
        Err(BefungeError::InternalError)
    }
}

/// The interpreter: a stack, a mutable program, a current position, a
/// current direction, a current mode, and the output emitted so far. It
/// implements the fetch-decode-execute loop.
pub struct Interpreter {
    stack: Stack,
    direction: Direction,
    state: State,
    pos: [usize; 2],
    program: Program,
    output: Vec<OutputItem>,
}

impl View for Interpreter {
    type V = MachineState;

    closed spec fn view(&self) -> MachineState {
        MachineState {
            stack: self.stack@,
            direction: self.direction,
            mode: self.state,
            row: self.pos[0] as int,
            col: self.pos[1] as int,
            grid: self.program@.grid,
            values: self.program@.values,
            output: self.output@,
        }
    }
}

impl Interpreter {
    /// Creates an interpreter for the given program: empty stack, position
    /// at the top left corner, moving right, in normal mode, with nothing
    /// yet output.
    pub fn from_program(program: Program) -> (r: Interpreter)
        ensures
            r@ == (MachineState {
                stack: Seq::<u32>::empty(),
                direction: Direction::Right,
                mode: State::Normal,
                row: 0,
                col: 0,
                grid: program@.grid,
                values: program@.values,
                output: Seq::<OutputItem>::empty(),
            }),
    {
        Interpreter {
            stack: Stack::default(),
            direction: Direction::Right,
            state: State::Normal,
            pos: [0, 0],
            program,
            output: Vec::new(),
        }
    }

    /// The current position of the instruction pointer: row, then column.
    pub fn position(&self) -> (r: [usize; 2])
        ensures
            r[0] == self@.row && r[1] == self@.col,
    {
        self.pos
    }

    /// The output emitted so far, in execution order.
    pub fn output(&self) -> (r: &Vec<OutputItem>)
        ensures
            r@ == self@.output,
    {
        &self.output
    }

    /// Drives the program: read the character under the pointer, interpret
    /// it, apply the resulting action, advance the pointer — twice after a
    /// trampoline, not at all on a halt — and repeat. Returns `Ok(true)`
    /// when the program halted, `Ok(false)` when the step limit ran out
    /// first, and the fault that ended the run otherwise. The contract
    /// relates the whole call to the small-step semantics: for some
    /// sequence of random draws, one per step taken, the machine went from
    /// its initial state to its final state exactly as `run` prescribes.
    #[verifier::loop_isolation(false)]
    pub fn execute(&mut self, max_steps: u64) -> (r: Result<bool, BefungeError>)
        ensures
            exists|draws: Seq<u32>|
                #[trigger] execute_matches(old(self)@, draws, max_steps, final(self)@, r),
    {
        let ghost s0 = self@;
        let ghost mut draws: Seq<u32> = Seq::empty();
        let mut steps: u64 = 0;
        while steps < max_steps
            invariant
                steps <= max_steps,
                draws.len() == steps,
                valid_draws(draws),
                run(s0, draws) == RunOutcome::Running(self@),
            decreases max_steps - steps,
        {
            let ghost pre = self@;
            let c = match self.program.get_instruction_char(self.pos) {
                Ok(c) => c,
                Err(e) => {
                    proof {
                        lemma_run_snoc(s0, draws, 0u32);
                        draws = draws.push(0u32);
                        assert(spec_step(pre, 0u32) == StepOutcome::Fault(
                            pre,
                            BefungeError::IndexError,
                        ));
                        assert(execute_matches(
                            s0,
                            draws,
                            max_steps,
                            self@,
                            Err::<bool, BefungeError>(e),
                        ));
                    }
                    return Err(e);
                },
            };
            let d: u32 = if self.state == State::Normal && c == '?' {
                random_dir_index()
            } else {
                0
            };
            let act = match self.process_instruction(c, d) {
                Ok(a) => a,
                Err(e) => {
                    proof {
                        assert(spec_step(pre, d) == StepOutcome::Fault(self@, e));
                        lemma_run_snoc(s0, draws, d);
                        draws = draws.push(d);
                        assert(execute_matches(
                            s0,
                            draws,
                            max_steps,
                            self@,
                            Err::<bool, BefungeError>(e),
                        ));
                    }
                    return Err(e);
                },
            };
            let ghost mid = self@;
            if let Action::End = act {
                proof {
                    assert(spec_step(pre, d) == StepOutcome::Halted(self@));
                    lemma_run_snoc(s0, draws, d);
                    draws = draws.push(d);
                    assert(execute_matches(
                        s0,
                        draws,
                        max_steps,
                        self@,
                        Ok::<bool, BefungeError>(true),
                    ));
                }
                return Ok(true);
            }
            match act {
                Action::ChangeDir(dir) => self.direction = dir,
                Action::ChangeState(st) => self.state = st,
                _ => {},
            }
            proof {
                assert(self@ == spec_apply(mid, act));
            }
            self.update_pos();
            if let Action::Trampoline = act {
                self.update_pos();
            }
            proof {
                assert(spec_step(pre, d) == StepOutcome::Next(self@));
                lemma_run_snoc(s0, draws, d);
                draws = draws.push(d);
            }
            steps = steps + 1;
        }
        proof {
            assert(execute_matches(s0, draws, max_steps, self@, Ok::<bool, BefungeError>(false)));
        }
        Ok(false)
    }

    /// Interprets one character under the current mode and applies its
    /// immediate effects to the stack, the grid, the input queue and the
    /// output, returning the action still to be applied by the loop. The
    /// random draw is consulted only by the random-direction instruction;
    /// the caller supplies it so that every outcome of the random source
    /// is covered.
    pub fn process_instruction(&mut self, instruction: char, draw: u32) -> (r: Result<
        Action,
        BefungeError,
    >)
        ensures
            process_matches(old(self)@, instruction, draw, final(self)@, r),
    {
        match self.state {
            State::StringCapture => {
                if instruction == '"' {
                    Ok(Action::ChangeState(State::Normal))
                } else {
                    self.stack.push(instruction as u32);
                    Ok(Action::Nothing)
                }
            },
            State::Normal => {
                let u: u32 = instruction as u32;
                if 48 <= u && u <= 57 {
                    self.stack.push(u - 48);
                    Ok(Action::Nothing)
                } else {
                    match instruction {
                        '+' => {
                            let a = self.stack.pop();
                            let b = self.stack.pop();
                            self.stack.push(b.wrapping_add(a));
                            Ok(Action::Nothing)
                        },
                        '-' => {
                            let a = self.stack.pop();
                            let b = self.stack.pop();
                            self.stack.push(b.wrapping_sub(a));
                            Ok(Action::Nothing)
                        },
                        '*' => {
                            let a = self.stack.pop();
                            let b = self.stack.pop();
                            self.stack.push(b.wrapping_mul(a));
                            Ok(Action::Nothing)
                        },
                        '/' => {
                            let a = self.stack.pop();
                            let b = self.stack.pop();
                            if a == 0 {
                                Err(BefungeError::ArithmeticError)
                            } else {
                                self.stack.push(b / a);
                                Ok(Action::Nothing)
                            }
                        },
                        '%' => {
                            let a = self.stack.pop();
                            let b = self.stack.pop();
                            if a == 0 {
                                Err(BefungeError::ArithmeticError)
                            } else {
                                self.stack.push(b % a);
                                Ok(Action::Nothing)
                            }
                        },
                        '!' => {
                            let a = self.stack.pop();
                            self.stack.push(if a == 0 { 1 } else { 0 });
                            Ok(Action::Nothing)
                        },
                        '`' => {
                            let a = self.stack.pop();
                            let b = self.stack.pop();
                            self.stack.push(if b > a { 1 } else { 0 });
                            Ok(Action::Nothing)
                        },
                        '>' => Ok(Action::ChangeDir(Direction::Right)),
                        '<' => Ok(Action::ChangeDir(Direction::Left)),
                        '^' => Ok(Action::ChangeDir(Direction::Up)),
                        'v' => Ok(Action::ChangeDir(Direction::Down)),
                        '?' => {
                            match direction_from_index(draw) {
                                Ok(dir) => Ok(Action::ChangeDir(dir)),
                                Err(e) => Err(e),
                            }
                        },
                        '_' => {
                            let a = self.stack.pop();
                            if a == 0 {
                                Ok(Action::ChangeDir(Direction::Right))
                            } else {
                                Ok(Action::ChangeDir(Direction::Left))
                            }
                        },
                        '|' => {
                            let a = self.stack.pop();
                            if a == 0 {
                                Ok(Action::ChangeDir(Direction::Down))
                            } else {
                                Ok(Action::ChangeDir(Direction::Up))
                            }
                        },
                        '"' => Ok(Action::ChangeState(State::StringCapture)),
                        ':' => {
                            self.stack.duplicate_top();
                            Ok(Action::Nothing)
                        },
                        '\\' => {
                            self.stack.switch_top();
                            Ok(Action::Nothing)
                        },
                        '$' => {
                            self.stack.pop();
                            Ok(Action::Nothing)
                        },
                        '.' => {
                            let a = self.stack.pop();
                            self.output.push(OutputItem::Number(a));
                            Ok(Action::Nothing)
                        },
                        ',' => {
                            let a = self.stack.pop();
                            match char::from_u32(a) {
                                Some(c) => {
                                    self.output.push(OutputItem::Character(c));
                                    Ok(Action::Nothing)
                                },
                                None => Err(BefungeError::IndexError),
                            }
                        },
                        '#' => Ok(Action::Trampoline),
                        'p' => {
                            let x = self.stack.pop();
                            let y = self.stack.pop();
                            let v = self.stack.pop();
                            match char::from_u32(v) {
                                Some(c) => {
                                    match self.program.set_instruction_char(
                                        [y as usize, x as usize],
                                        c,
                                    ) {
                                        Ok(_) => Ok(Action::Nothing),
                                        Err(e) => Err(e),
                                    }
                                },
                                None => Err(BefungeError::IndexError),
                            }
                        },
                        'g' => {
                            let x = self.stack.pop();
                            let y = self.stack.pop();
                            match self.program.get_instruction_char([y as usize, x as usize]) {
                                Ok(c) => {
                                    self.stack.push(c as u32);
                                    Ok(Action::Nothing)
                                },
                                Err(e) => Err(e),
                            }
                        },
                        '&' | '~' => {
                            match self.program.next_value() {
                                Ok(val) => {
                                    self.stack.push(val);
                                    Ok(Action::Nothing)
                                },
                                Err(e) => Err(e),
                            }
                        },
                        '@' => Ok(Action::End),
                        _ => Ok(Action::Nothing),
                    }
                }
            },
        }
    }

    /// Advances the instruction pointer one cell in the current direction,
    /// with toroidal wrap: past an edge it reappears at the opposite edge
    /// of the same row or column. The wrap width is the current row's
    /// length, so rows of different lengths wrap independently.
    pub fn update_pos(&mut self)
        requires
            0 < old(self)@.grid.len(),
            old(self)@.row < old(self)@.grid.len(),
            (old(self)@.direction == Direction::Right || old(self)@.direction == Direction::Left)
                ==> old(self)@.col < old(self)@.grid[old(self)@.row].len(),
        ensures
            final(self)@ == spec_advance(old(self)@),
    {
        match self.direction {
            Direction::Right => {
                if self.pos[1] == self.program.chars_in_line(self.pos[0]) - 1 {
                    self.pos[1] = 0;
                } else {
                    self.pos[1] = self.pos[1] + 1;
                }
            },
            Direction::Left => {
                if self.pos[1] == 0 {
                    self.pos[1] = self.program.chars_in_line(self.pos[0]) - 1;
                } else {
                    self.pos[1] = self.pos[1] - 1;
                }
            },
            Direction::Up => {
                if self.pos[0] == 0 {
                    self.pos[0] = self.program.lines() - 1;
                } else {
                    self.pos[0] = self.pos[0] - 1;
                }
            },
            Direction::Down => {
                if self.pos[0] == self.program.lines() - 1 {
                    self.pos[0] = 0;
                } else {
                    self.pos[0] = self.pos[0] + 1;
                }
            },
        }
    }
}

} // verus!
