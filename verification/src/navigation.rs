//! The focus-navigation and exit-confirmation state machines.

use vstd::prelude::*;
use crate::grid::{grid_pos, COLUMNS_AMOUNT, ROWS_AMOUNT};

verus! {

/// A key-press event, already classified: the four directions move the
/// focus, a quit-intent drives the exit confirmation, and anything else is
/// ignored here.
#[derive(Clone, Copy, Debug, PartialEq, Eq, Structural)]
pub enum Input {
    Up,
    Right,
    Down,
    Left,
    Quit,
    Other,
}

/// Whether an input moves the focus.
pub open spec fn is_directional(input: Input) -> bool {
    input == Input::Up || input == Input::Right || input == Input::Down || input == Input::Left
}

/// The cell a directional input aims at from (i, j); any other input stays.
pub open spec fn step_target(i: int, j: int, input: Input) -> (int, int) {
    match input {
        Input::Up => (i - 1, j),
        Input::Down => (i + 1, j),
        Input::Left => (i, j - 1),
        Input::Right => (i, j + 1),
        _ => (i, j),
    }
}

/// Whether cell (i, j) of the occupancy matrix holds an element.
pub open spec fn occupied_in(m: Seq<Seq<bool>>, i: int, j: int) -> bool {
    m[i][j]
}

/// The focus cursor as a pair of mathematical integers.
pub open spec fn focus_view(c: Option<(usize, usize)>) -> Option<(int, int)> {
    match c {
        Some(p) => Some((p.0 as int, p.1 as int)),
        None => None,
    }
}

/// The focus cursor after one input.  A non-directional input changes
/// nothing.  The first directional input focuses cell (0, 0) unconditionally.
/// A later directional input moves to the cell it aims at only when that
/// cell is on the grid and occupied; otherwise the cursor stays.
pub open spec fn next_focus(m: Seq<Seq<bool>>, cur: Option<(int, int)>, input: Input) -> Option<
    (int, int),
> {
    if !is_directional(input) {
        cur
    } else {
        match cur {
            None => Some((0int, 0int)),
            Some(p) => {
                let c = step_target(p.0, p.1, input);
                if grid_pos(c.0, c.1) && occupied_in(m, c.0, c.1) {
                    Some(c)
                } else {
                    Some(p)
                }
            },
        }
    }
}

/// The exit-confirmation flag after one input: a quit-intent raises it, and
/// nothing ever lowers it.
pub open spec fn exit_after(should_exit: bool, input: Input) -> bool {
    should_exit || input == Input::Quit
}

/// Whether one input ends the process: a quit-intent while the confirmation
/// flag is already up.
pub open spec fn quit_terminates(should_exit: bool, input: Input) -> bool {
    input == Input::Quit && should_exit
}

/// The whole interactive state: the exit-confirmation flag, the focus
/// cursor, and the occupancy of the grid.
pub struct AppState {
    pub should_exit: bool,
    pub focused_cell: Option<(usize, usize)>,
    /// True at (i, j) when the grid holds an element there.
    pub cells_matrix: Vec<Vec<bool>>,
}

impl AppState {
    /// The occupancy matrix always spans the whole grid, and the cursor,
    /// when present, stays on the grid.
    pub open spec fn wf(&self) -> bool {
        &&& self.cells_matrix@.len() == ROWS_AMOUNT
        &&& forall|i: int|
            0 <= i < ROWS_AMOUNT ==> (#[trigger] self.cells_matrix@[i])@.len() == COLUMNS_AMOUNT
        &&& match self.focused_cell {
            Some(p) => p.0 < ROWS_AMOUNT && p.1 < COLUMNS_AMOUNT,
            None => true,
        }
    }

    /// The occupancy matrix as a sequence of rows.
    pub open spec fn spec_matrix(&self) -> Seq<Seq<bool>> {
        self.cells_matrix.deep_view()
    }

    /// A fresh state: not confirming an exit, no cell focused, and an
    /// all-empty occupancy matrix waiting for the grid.
    pub fn new() -> (s: Self)
        ensures
            s.wf(),
            !s.should_exit,
            s.focused_cell is None,
            forall|i: int, j: int| grid_pos(i, j) ==> !occupied_in(s.spec_matrix(), i, j),
    {
        let mut m: Vec<Vec<bool>> = Vec::new();
        let mut i: usize = 0;
        while i < ROWS_AMOUNT
            invariant
                i <= ROWS_AMOUNT,
                m@.len() == i,
                forall|i2: int| 0 <= i2 < i ==> (#[trigger] m@[i2])@.len() == COLUMNS_AMOUNT,
                forall|i2: int, j: int|
                    0 <= i2 < i && 0 <= j < COLUMNS_AMOUNT ==> !(#[trigger] m@[i2]@[j]),
            decreases ROWS_AMOUNT - i,
        {
            let mut row: Vec<bool> = Vec::new();
            let mut j: usize = 0;
            while j < COLUMNS_AMOUNT
                invariant
                    j <= COLUMNS_AMOUNT,
                    row@.len() == j,
                    forall|j2: int| 0 <= j2 < j ==> !(#[trigger] row@[j2]),
                decreases COLUMNS_AMOUNT - j,
            {
                row.push(false);
                j += 1;
            }
            m.push(row);
            i += 1;
        }
        AppState { should_exit: false, focused_cell: None, cells_matrix: m }
    }
}

/// Decrement an index, reporting whether it wrapped below zero.
pub fn overflowing_dec(index: &mut usize) -> (overflowed: bool)
    ensures
        overflowed == (*old(index) == 0),
        *old(index) == 0 ==> *final(index) == usize::MAX,
        *old(index) > 0 ==> *final(index) == *old(index) - 1,
{
    if *index == 0 {
        *index = usize::MAX;
        true
    } else {
        *index = *index - 1;
        false
    }
}

/// Increment an index below its upper bound, reporting whether it reached
/// the bound.
pub fn overflowing_inc(index: &mut usize, upper_bound: usize) -> (overflowed: bool)
    requires
        *old(index) < upper_bound,
    ensures
        *final(index) == *old(index) + 1,
        overflowed == (*final(index) == upper_bound),
{
    *index = *index + 1;
    *index == upper_bound
}

/// Apply one classified input to the state.  The focus moves as
/// [`next_focus`] says, the exit-confirmation flag rises as [`exit_after`]
/// says, the occupancy matrix never changes, and the result asks the caller
/// to terminate exactly on a quit-intent that was already being confirmed.
pub fn handle_key_press(state: &mut AppState, input: Input) -> (terminate: bool)
    requires
        old(state).wf(),
    ensures
        final(state).wf(),
        final(state).cells_matrix == old(state).cells_matrix,
        focus_view(final(state).focused_cell) == next_focus(
            old(state).spec_matrix(),
            focus_view(old(state).focused_cell),
            input,
        ),
        final(state).should_exit == exit_after(old(state).should_exit, input),
        terminate == quit_terminates(old(state).should_exit, input),
{
    if matches!(input, Input::Up | Input::Right | Input::Down | Input::Left) {
        match state.focused_cell {
            Some((i0, j0)) => {
                let mut i = i0;
                let mut j = j0;
                let within_matrix_bounds = !(match input {
                    Input::Up => overflowing_dec(&mut i),
                    Input::Right => overflowing_inc(&mut j, COLUMNS_AMOUNT),
                    Input::Down => overflowing_inc(&mut i, ROWS_AMOUNT),
                    // only Left reaches this arm: the guard admits
                    // directional inputs alone
                    _ => overflowing_dec(&mut j),
                });
                if within_matrix_bounds && state.cells_matrix[i][j] {
                    state.focused_cell = Some((i, j));
                }
            },
            None => {
                state.focused_cell = Some((0, 0));
            },
        }
    }
    if matches!(input, Input::Quit) {
        if state.should_exit {
            return true;
        } else {
            state.should_exit = true;
        }
    }
    false
}

/// From a focused cell on a boundary row or column, an input toward that
/// boundary never changes the cursor.
pub proof fn lemma_navigation_bounds(m: Seq<Seq<bool>>, i: int, j: int)
    requires
        grid_pos(i, j),
        occupied_in(m, i, j),
    ensures
        i == 0 ==> next_focus(m, Some((i, j)), Input::Up) == Some((i, j)),
        i == ROWS_AMOUNT - 1 ==> next_focus(m, Some((i, j)), Input::Down) == Some((i, j)),
        j == 0 ==> next_focus(m, Some((i, j)), Input::Left) == Some((i, j)),
        j == COLUMNS_AMOUNT - 1 ==> next_focus(m, Some((i, j)), Input::Right) == Some((i, j)),
{
}

/// From a focused cell, a directional input toward an adjacent empty cell
/// leaves the cursor unchanged; toward an adjacent occupied cell it moves
/// the cursor there.
pub proof fn lemma_navigation_occupancy(m: Seq<Seq<bool>>, i: int, j: int, input: Input)
    requires
        grid_pos(i, j),
        occupied_in(m, i, j),
        is_directional(input),
        grid_pos(step_target(i, j, input).0, step_target(i, j, input).1),
    ensures
        !occupied_in(m, step_target(i, j, input).0, step_target(i, j, input).1) ==> next_focus(
            m,
            Some((i, j)),
            input,
        ) == Some((i, j)),
        occupied_in(m, step_target(i, j, input).0, step_target(i, j, input).1) ==> next_focus(
            m,
            Some((i, j)),
            input,
        ) == Some(step_target(i, j, input)),
{
}

/// From an unfocused state, any one directional input focuses cell (0, 0).
pub proof fn lemma_first_focus(m: Seq<Seq<bool>>, input: Input)
    requires
        is_directional(input),
    ensures
        next_focus(m, None, input) == Some((0int, 0int)),
{
}

/// Starting without a pending confirmation, one quit-intent only raises the
/// confirmation flag and does not terminate; a second consecutive
/// quit-intent terminates.
pub proof fn lemma_exit_sequence()
    ensures
        !quit_terminates(false, Input::Quit),
        exit_after(false, Input::Quit),
        quit_terminates(exit_after(false, Input::Quit), Input::Quit),
{
}

} // verus!
