use vstd::prelude::*;

use crate::errors::BefungeError;
use crate::stack::{spec_duplicate_top, spec_pop, spec_switch_top};

verus! {

/// The direction in which the instruction pointer moves. Exactly one
/// direction is active at any time.
#[derive(Clone, Copy, PartialEq, Eq, Structural, Debug)]
pub enum Direction {
    /// Moving up.
    Up,
    /// Moving down.
    Down,
    /// Moving left.
    Left,
    /// Moving right.
    Right,
}

/// The mode of the interpreter. It changes the meaning of every character
/// read: dispatch table versus literal-push-as-codepoint.
#[derive(Clone, Copy, PartialEq, Eq, Structural, Debug)]
pub enum State {
    /// Normal dispatch mode.
    Normal,
    /// String-capture mode: characters are pushed as their codepoints.
    StringCapture,
}

/// The result of interpreting one character: a pure data value describing
/// an effect still to be applied by the interpreter's loop. It never itself
/// mutates state.
#[derive(Clone, Copy, PartialEq, Eq, Structural, Debug)]
pub enum Action {
    /// Change the direction of pointer movement.
    ChangeDir(Direction),
    /// Change the mode of the interpreter.
    ChangeState(State),
    /// Skip the next instruction character without executing it.
    Trampoline,
    /// Take no action.
    Nothing,
    /// End the program.
    End,
}

/// One element of the textual output: a number to be printed in decimal,
/// or a single character, each followed by a space when rendered.
#[derive(Clone, Copy, PartialEq, Eq, Structural, Debug)]
pub enum OutputItem {
    /// Decimal numeric output.
    Number(u32),
    /// Character output.
    Character(char),
}

/// The whole observable state of a running machine: the stack, the
/// instruction pointer (position and direction), the mode, the mutable
/// grid, the remaining supplied input values, and the output emitted so
/// far.
#[verifier::ext_equal]
pub ghost struct MachineState {
    pub stack: Seq<u32>,
    pub direction: Direction,
    pub mode: State,
    pub row: int,
    pub col: int,
    pub grid: Seq<Seq<char>>,
    pub values: Seq<u32>,
    pub output: Seq<OutputItem>,
}

/// What interpreting a single character leaves behind: a successor state
/// and an action still to apply, or a state and the fault that ended the
/// run.
pub ghost enum ProcessOutcome {
    Go(MachineState, Action),
    Fail(MachineState, BefungeError),
}

/// A whole step of the machine: a successor state, a halted final state,
/// or a faulted final state.
pub ghost enum StepOutcome {
    Next(MachineState),
    Halted(MachineState),
    Fault(MachineState, BefungeError),
}

/// The pointer lies within the jagged grid: its row exists and its column
/// lies within that row.
pub open spec fn in_bounds(m: MachineState) -> bool {
    0 <= m.row < m.grid.len() && 0 <= m.col < m.grid[m.row].len()
}

/// A decimal digit character.
pub open spec fn is_digit(c: char) -> bool {
    48 <= c as u32 <= 57
}

/// A numeric value that denotes a Unicode scalar value, so that a
/// character can be made from it.
pub open spec fn valid_codepoint(v: u32) -> bool {
    v < 0xD800 || (0xE000 <= v && v <= 0x10FFFF)
}

/// The direction picked for a random draw: the four directions in the
/// order right, left, up, down.
pub open spec fn direction_of_draw(d: u32) -> Direction {
    if d == 0 {
        Direction::Right
    } else if d == 1 {
        Direction::Left
    } else if d == 2 {
        Direction::Up
    } else {
        Direction::Down
    }
}

/// What interpreting the character `c` does to the machine state `s`, as a
/// function of the random draw `d` (consulted only by the random-direction
/// instruction). In string-capture mode every character is pushed as its
/// codepoint, except the quote, which returns to normal mode without being
/// pushed. In normal mode the instruction table applies; an unknown
/// character is a no-op, so dispatch is total.
pub open spec fn spec_process(s: MachineState, c: char, d: u32) -> ProcessOutcome {
    if s.mode == State::StringCapture {
        if c == '"' {
            ProcessOutcome::Go(s, Action::ChangeState(State::Normal))
        } else {
            ProcessOutcome::Go(
                MachineState { stack: s.stack.push(c as u32), ..s },
                Action::Nothing,
            )
        }
    } else if is_digit(c) {
        ProcessOutcome::Go(
            MachineState { stack: s.stack.push((c as u32 - 48) as u32), ..s },
            Action::Nothing,
        )
    } else if c == '+' || c == '-' || c == '*' || c == '/' || c == '%' || c == '`' {
        let (a, st1) = spec_pop(s.stack);
        let (b, st2) = spec_pop(st1);
        if (c == '/' || c == '%') && a == 0 {
            ProcessOutcome::Fail(
                MachineState { stack: st2, ..s },
                BefungeError::ArithmeticError,
            )
        } else {
            let v = if c == '+' {
                b.wrapping_add(a)
            } else if c == '-' {
                b.wrapping_sub(a)
            } else if c == '*' {
                b.wrapping_mul(a)
            } else if c == '/' {
                (b / a) as u32
            } else if c == '%' {
                (b % a) as u32
            } else {
                if b > a {
                    1u32
                } else {
                    0u32
                }
            };
            ProcessOutcome::Go(
                MachineState { stack: st2.push(v), ..s },
                Action::Nothing,
            )
        }
    } else if c == '!' {
        let (a, st1) = spec_pop(s.stack);
        ProcessOutcome::Go(
            MachineState {
                stack: st1.push(if a == 0 { 1u32 } else { 0u32 }),
                ..s
            },
            Action::Nothing,
        )
    } else if c == '>' {
        ProcessOutcome::Go(s, Action::ChangeDir(Direction::Right))
    } else if c == '<' {
        ProcessOutcome::Go(s, Action::ChangeDir(Direction::Left))
    } else if c == '^' {
        ProcessOutcome::Go(s, Action::ChangeDir(Direction::Up))
    } else if c == 'v' {
        ProcessOutcome::Go(s, Action::ChangeDir(Direction::Down))
    } else if c == '?' {
        if d < 4 {
            ProcessOutcome::Go(s, Action::ChangeDir(direction_of_draw(d)))
        } else {
            ProcessOutcome::Fail(s, BefungeError::InternalError)
        }
    } else if c == '_' {
        let (a, st1) = spec_pop(s.stack);
        ProcessOutcome::Go(
            MachineState { stack: st1, ..s },
            Action::ChangeDir(
                if a == 0 {
                    Direction::Right
                } else {
                    Direction::Left
                },
            ),
        )
    } else if c == '|' {
        let (a, st1) = spec_pop(s.stack);
        ProcessOutcome::Go(
            MachineState { stack: st1, ..s },
            Action::ChangeDir(
                if a == 0 {
                    Direction::Down
                } else {
                    Direction::Up
                },
            ),
        )
    } else if c == '"' {
        ProcessOutcome::Go(s, Action::ChangeState(State::StringCapture))
    } else if c == ':' {
        ProcessOutcome::Go(
            MachineState { stack: spec_duplicate_top(s.stack), ..s },
            Action::Nothing,
        )
    } else if c == '\\' {
        ProcessOutcome::Go(
            MachineState { stack: spec_switch_top(s.stack), ..s },
            Action::Nothing,
        )
    } else if c == '$' {
        let (a, st1) = spec_pop(s.stack);
        ProcessOutcome::Go(MachineState { stack: st1, ..s }, Action::Nothing)
    } else if c == '.' {
        let (a, st1) = spec_pop(s.stack);
        ProcessOutcome::Go(
            MachineState {
                stack: st1,
                output: s.output.push(OutputItem::Number(a)),
                ..s
            },
            Action::Nothing,
        )
    } else if c == ',' {
        let (a, st1) = spec_pop(s.stack);
        if valid_codepoint(a) {
            ProcessOutcome::Go(
                MachineState {
                    stack: st1,
                    output: s.output.push(OutputItem::Character(a as char)),
                    ..s
                },
                Action::Nothing,
            )
        } else {
            ProcessOutcome::Fail(
                MachineState { stack: st1, ..s },
                BefungeError::IndexError,
            )
        }
    } else if c == '#' {
        ProcessOutcome::Go(s, Action::Trampoline)
    } else if c == 'p' {
        let (x, st1) = spec_pop(s.stack);
        let (y, st2) = spec_pop(st1);
        let (v, st3) = spec_pop(st2);
        if !valid_codepoint(v) {
            ProcessOutcome::Fail(
                MachineState { stack: st3, ..s },
                BefungeError::IndexError,
            )
        } else if y < s.grid.len() && x < s.grid[y as int].len() {
            ProcessOutcome::Go(
                MachineState {
                    stack: st3,
                    grid: s.grid.update(
                        y as int,
                        s.grid[y as int].update(x as int, v as char),
                    ),
                    ..s
                },
                Action::Nothing,
            )
        } else {
            ProcessOutcome::Fail(
                MachineState { stack: st3, ..s },
                BefungeError::IndexError,
            )
        }
    } else if c == 'g' {
        let (x, st1) = spec_pop(s.stack);
        let (y, st2) = spec_pop(st1);
        if y < s.grid.len() && x < s.grid[y as int].len() {
            ProcessOutcome::Go(
                MachineState {
                    stack: st2.push(s.grid[y as int][x as int] as u32),
                    ..s
                },
                Action::Nothing,
            )
        } else {
            ProcessOutcome::Fail(
                MachineState { stack: st2, ..s },
                BefungeError::IndexError,
            )
        }
    } else if c == '&' || c == '~' {
        if s.values.len() == 0 {
            ProcessOutcome::Fail(s, BefungeError::EmptyInputError)
        } else {
            ProcessOutcome::Go(
                MachineState {
                    stack: s.stack.push(s.values[0]),
                    values: s.values.drop_first(),
                    ..s
                },
                Action::Nothing,
            )
        }
    } else if c == '@' {
        ProcessOutcome::Go(s, Action::End)
    } else {
        ProcessOutcome::Go(s, Action::Nothing)
    }
}

/// The state change an action asks for: a new direction or a new mode;
/// every other action leaves the state as it is.
pub open spec fn spec_apply(s: MachineState, a: Action) -> MachineState {
    match a {
        Action::ChangeDir(d) => MachineState { direction: d, ..s },
        Action::ChangeState(m) => MachineState { mode: m, ..s },
        _ => s,
    }
}

/// One advancement of the pointer with toroidal wrap. The wrap width is
/// the current row's length, not a grid-wide maximum: rows of different
/// lengths wrap independently.
pub open spec fn spec_advance(s: MachineState) -> MachineState {
    match s.direction {
        Direction::Right => MachineState {
            col: if s.col == s.grid[s.row].len() - 1 {
                0
            } else {
                s.col + 1
            },
            ..s
        },
        Direction::Left => MachineState {
            col: if s.col == 0 {
                s.grid[s.row].len() - 1
            } else {
                s.col - 1
            },
            ..s
        },
        Direction::Up => MachineState {
            row: if s.row == 0 {
                s.grid.len() - 1
            } else {
                s.row - 1
            },
            ..s
        },
        Direction::Down => MachineState {
            row: if s.row == s.grid.len() - 1 {
                0
            } else {
                s.row + 1
            },
            ..s
        },
    }
}

/// One full turn of the fetch-decode-execute loop: read the character
/// under the pointer (a pointer outside the grid is a fault), interpret
/// it, apply the resulting action, and advance the pointer — twice for a
/// trampoline, so the skipped cell is never dispatched, and not at all on
/// a halt.
pub open spec fn spec_step(s: MachineState, d: u32) -> StepOutcome {
    if !in_bounds(s) {
        StepOutcome::Fault(s, BefungeError::IndexError)
    } else {
        let c = s.grid[s.row][s.col];
        match spec_process(s, c, d) {
            ProcessOutcome::Fail(s2, e) => StepOutcome::Fault(s2, e),
            ProcessOutcome::Go(s2, a) => {
                if a == Action::End {
                    StepOutcome::Halted(s2)
                } else {
                    let s3 = spec_apply(s2, a);
                    if a == Action::Trampoline {
                        StepOutcome::Next(spec_advance(spec_advance(s3)))
                    } else {
                        StepOutcome::Next(spec_advance(s3))
                    }
                }
            },
        }
    }
}

/// Toroidal wrap of the pointer: moving right from the last column of its
/// row lands it at column zero of the same row, and moving left from
/// column zero lands it at the last column of the same row.
pub proof fn lemma_toroidal_wrap(s: MachineState)
    requires
        in_bounds(s),
    ensures
        s.direction == Direction::Right && s.col == s.grid[s.row].len() - 1 ==> spec_advance(s)
            == (MachineState { col: 0, ..s }),
        s.direction == Direction::Left && s.col == 0 ==> spec_advance(s) == (MachineState {
            col: s.grid[s.row].len() - 1,
            ..s
        }),
{
}

/// String-capture semantics: while capturing, any character other than the
/// quote is pushed as its codepoint and capture continues; the quote
/// itself is not pushed and returns the machine to normal mode.
pub proof fn lemma_string_capture(s: MachineState, c: char, d: u32)
    requires
        s.mode == State::StringCapture,
    ensures
        c != '"' ==> spec_process(s, c, d) == ProcessOutcome::Go(
            (MachineState { stack: s.stack.push(c as u32), ..s }),
            Action::Nothing,
        ),
        c == '"' ==> spec_process(s, c, d) == ProcessOutcome::Go(
            s,
            Action::ChangeState(State::Normal),
        ),
{
}

/// The outcome of running for a bounded number of steps: still running in
/// the given state, halted in it, or faulted in it.
pub ghost enum RunOutcome {
    Running(MachineState),
    Halted(MachineState),
    Faulted(MachineState, BefungeError),
}

/// A step outcome seen as a run outcome.
pub open spec fn step_to_run(o: StepOutcome) -> RunOutcome {
    match o {
        StepOutcome::Next(s) => RunOutcome::Running(s),
        StepOutcome::Halted(s) => RunOutcome::Halted(s),
        StepOutcome::Fault(s, e) => RunOutcome::Faulted(s, e),
    }
}

/// Running the machine from `s`, taking one step per element of `draws`
/// (each element is the random draw that step would consult). The run
/// stops early at a halt or a fault.
pub open spec fn run(s: MachineState, draws: Seq<u32>) -> RunOutcome
    decreases draws.len(),
{
    if draws.len() == 0 {
        RunOutcome::Running(s)
    } else {
        match spec_step(s, draws[0]) {
            StepOutcome::Next(s2) => run(s2, draws.drop_first()),
            StepOutcome::Halted(s2) => RunOutcome::Halted(s2),
            StepOutcome::Fault(s2, e) => RunOutcome::Faulted(s2, e),
        }
    }
}

/// Every draw lies below four, as the random source promises.
pub open spec fn valid_draws(draws: Seq<u32>) -> bool {
    forall|i: int| 0 <= i < draws.len() ==> draws[i] < 4
}

/// What interpreting one character promises: the machine went from `pre`
/// to `post` and returned `r` exactly as `spec_process` prescribes for the
/// draw `d`.
pub open spec fn process_matches(
    pre: MachineState,
    c: char,
    d: u32,
    post: MachineState,
    r: Result<Action, BefungeError>,
) -> bool {
    match spec_process(pre, c, d) {
        ProcessOutcome::Go(s2, a) => r == Ok::<Action, BefungeError>(a) && post == s2,
        ProcessOutcome::Fail(s2, e) => r == Err::<Action, BefungeError>(e) && post == s2,
    }
}

/// What a whole run promises: for the draws that actually occurred — at
/// most one per step, each below four — the machine went from `pre` to
/// `post` and halted, faulted, or ran out of steps exactly as `run`
/// prescribes.
pub open spec fn execute_matches(
    pre: MachineState,
    draws: Seq<u32>,
    max_steps: u64,
    post: MachineState,
    r: Result<bool, BefungeError>,
) -> bool {
    valid_draws(draws) && draws.len() <= max_steps && (match r {
        Ok(halted) => if halted {
            run(pre, draws) == RunOutcome::Halted(post)
        } else {
            draws.len() == max_steps && run(pre, draws) == RunOutcome::Running(post)
        },
        Err(e) => run(pre, draws) == RunOutcome::Faulted(post, e),
    })
}

/// Extending a run by one step: if the machine is still running after
/// `draws`, one more draw takes it exactly one step further.
pub proof fn lemma_run_snoc(s: MachineState, draws: Seq<u32>, d: u32)
    requires
        run(s, draws) is Running,
    ensures
        run(s, draws.push(d)) == (match run(s, draws) {
            RunOutcome::Running(m) => step_to_run(spec_step(m, d)),
            o => o,
        }),
    decreases draws.len(),
{
    if draws.len() == 0 {
        assert(draws.push(d)[0] == d);
        assert(draws.push(d).drop_first() =~= Seq::<u32>::empty());
        match spec_step(s, d) {
            StepOutcome::Next(s2) => {
                assert(run(s2, draws.push(d).drop_first()) == RunOutcome::Running(s2));
            },
            _ => {},
        }
    } else {
        assert(draws.push(d)[0] == draws[0]);
        assert(draws.push(d).drop_first() =~= draws.drop_first().push(d));
        match spec_step(s, draws[0]) {
            StepOutcome::Next(s2) => {
                assert(run(s, draws) == run(s2, draws.drop_first()));
                lemma_run_snoc(s2, draws.drop_first(), d);
                assert(run(s, draws.push(d)) == run(s2, draws.drop_first().push(d)));
            },
            StepOutcome::Halted(s2) => {
                assert(run(s, draws) == RunOutcome::Halted(s2));
            },
            StepOutcome::Fault(s2, e) => {
                assert(run(s, draws) == RunOutcome::Faulted(s2, e));
            },
        }
    }
}

} // verus!
