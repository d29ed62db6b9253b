//! The grid placement engine: a dense 9 x 18 matrix of optional elements.

use vstd::prelude::*;
use crate::loader::LoadedElement;
use crate::ratom::Ratom;

verus! {

/// Rows of the display grid: the seven periods plus the two f-block rows.
pub const ROWS_AMOUNT: usize = 9;

/// Columns of the display grid: the eighteen groups.
pub const COLUMNS_AMOUNT: usize = 18;

/// Cells of the display grid.
pub const CELLS_AMOUNT: usize = ROWS_AMOUNT * COLUMNS_AMOUNT;

/// Whether (i, j) addresses a cell of the grid.
pub open spec fn grid_pos(i: int, j: int) -> bool {
    0 <= i < ROWS_AMOUNT && 0 <= j < COLUMNS_AMOUNT
}

/// Index of cell (i, j) in row-major order.
pub open spec fn cell_index(i: int, j: int) -> int {
    i * COLUMNS_AMOUNT + j
}

/// Distinct cells have distinct row-major indices.
pub proof fn lemma_cell_index_injective(i1: int, j1: int, i2: int, j2: int)
    requires
        grid_pos(i1, j1),
        grid_pos(i2, j2),
        cell_index(i1, j1) == cell_index(i2, j2),
    ensures
        i1 == i2 && j1 == j2,
{
}

/// The cell a record aims at.  The f-block ranges override the record's own
/// period and group: lanthanides fill row 7 and actinides row 8, in order of
/// atomic number.  Any other record needs an explicit group; one without has
/// no cell of its own.
pub open spec fn target_cell(number: u8, period: u8, group: Option<u8>) -> Option<(int, int)> {
    if 57 <= number <= 71 {
        Some((7int, number - 57))
    } else if 89 <= number <= 103 {
        Some((8int, number - 89))
    } else {
        match group {
            Some(g) => Some(((period - 1) as int, (g - 1) as int)),
            None => None,
        }
    }
}

/// The cell a loaded record aims at.
pub open spec fn spec_target(r: LoadedElement) -> Option<(int, int)> {
    target_cell(r.element.spec_number(), r.period, r.group)
}

/// The cell a record aims at lies on the grid.  Rule three relies on the
/// data collaborator handing over periods 1 to 7 and groups 1 to 18.
pub open spec fn target_in_grid(r: LoadedElement) -> bool {
    match spec_target(r) {
        Some(p) => grid_pos(p.0, p.1),
        None => true,
    }
}

/// Compute the cell a record aims at; matches [`target_cell`].
pub fn compute_target_cell(number: u8, period: u8, group: Option<u8>) -> (r: Option<
    (usize, usize),
>)
    requires
        match target_cell(number, period, group) {
            Some(p) => grid_pos(p.0, p.1),
            None => true,
        },
    ensures
        match r {
            Some(p) => target_cell(number, period, group) == Some((p.0 as int, p.1 as int)),
            None => target_cell(number, period, group) is None,
        },
{
    if 57 <= number && number <= 71 {
        Some((7, (number - 57) as usize))
    } else if 89 <= number && number <= 103 {
        Some((8, (number - 89) as usize))
    } else {
        match group {
            Some(g) => Some((((period - 1) as usize), ((g - 1) as usize))),
            None => None,
        }
    }
}

/// An earlier record already aims at the same cell.
pub open spec fn collides_earlier(s: Seq<LoadedElement>, k: int) -> bool {
    exists|k2: int| 0 <= k2 < k && #[trigger] spec_target(s[k2]) == spec_target(s[k])
}

/// Record k cannot be placed: it has no cell of its own, or its cell is
/// already taken.
pub open spec fn problem_at(s: Seq<LoadedElement>, k: int) -> bool {
    spec_target(s[k]) is None || collides_earlier(s, k)
}

/// Every record gets a cell of its own.
pub open spec fn all_placeable(s: Seq<LoadedElement>) -> bool {
    forall|k: int| 0 <= k < s.len() ==> !(#[trigger] problem_at(s, k))
}

/// Record k is the first that cannot be placed.
pub open spec fn is_first_problem(s: Seq<LoadedElement>, k: int) -> bool {
    &&& 0 <= k < s.len()
    &&& problem_at(s, k)
    &&& forall|k2: int| 0 <= k2 < k ==> !(#[trigger] problem_at(s, k2))
}

/// Why placing the elements failed.
#[derive(Debug)]
pub enum PlacementError {
    /// The record with this symbol has no cell of its own.
    Unplaceable(String),
    /// Two records aim at this (row, column); a defensive check, since the
    /// legitimate data never produces one.
    Collision(usize, usize),
}

/// The error that the first unplaceable record earns.
pub open spec fn error_for(s: Seq<LoadedElement>, k: int, e: PlacementError) -> bool {
    match spec_target(s[k]) {
        None => e matches PlacementError::Unplaceable(sym) && sym@ == s[k].element.spec_symbol(),
        Some(p) => e matches PlacementError::Collision(ci, cj) && ci == p.0 && cj == p.1,
    }
}

/// A dense 9 x 18 matrix of optional elements; its dimensions never change,
/// and an empty cell is a real gap in the periodic table.
#[derive(Debug)]
pub struct Grid {
    cells: Vec<Option<Ratom>>,
}

impl Grid {
    /// The cells in row-major order.
    pub closed spec fn spec_cells(&self) -> Seq<Option<Ratom>> {
        self.cells@
    }

    /// The grid always holds one slot per cell, and every occupant is a
    /// validated element.
    pub open spec fn wf(&self) -> bool {
        &&& self.spec_cells().len() == CELLS_AMOUNT
        &&& forall|t: int|
            0 <= t < CELLS_AMOUNT ==> (#[trigger] self.spec_cells()[t] matches Some(a) ==> a.wf())
    }

    /// The occupant of cell (i, j).
    pub open spec fn cell(&self, i: int, j: int) -> Option<Ratom> {
        self.spec_cells()[cell_index(i, j)]
    }

    /// Whether cell (i, j) holds an element.
    pub open spec fn occupied(&self, i: int, j: int) -> bool {
        self.cell(i, j) is Some
    }

    /// Read cell (i, j).
    pub fn get(&self, i: usize, j: usize) -> (r: &Option<Ratom>)
        requires
            self.wf(),
            i < ROWS_AMOUNT,
            j < COLUMNS_AMOUNT,
        ensures
            *r == self.cell(i as int, j as int),
    {
        &self.cells[i * COLUMNS_AMOUNT + j]
    }

    /// The occupancy of every cell, row by row; navigation and rendering
    /// read the grid through this.
    pub fn occupancy_matrix(&self) -> (m: Vec<Vec<bool>>)
        requires
            self.wf(),
        ensures
            m@.len() == ROWS_AMOUNT,
            forall|i: int| 0 <= i < ROWS_AMOUNT ==> (#[trigger] m@[i])@.len() == COLUMNS_AMOUNT,
            forall|i: int, j: int|
                grid_pos(i, j) ==> (#[trigger] m@[i]@[j]) == self.occupied(i, j),
    {
        let mut m: Vec<Vec<bool>> = Vec::new();
        let mut i: usize = 0;
        while i < ROWS_AMOUNT
            invariant
                self.wf(),
                i <= ROWS_AMOUNT,
                m@.len() == i,
                forall|i2: int| 0 <= i2 < i ==> (#[trigger] m@[i2])@.len() == COLUMNS_AMOUNT,
                forall|i2: int, j: int|
                    0 <= i2 < i && 0 <= j < COLUMNS_AMOUNT ==> (#[trigger] m@[i2]@[j])
                        == self.occupied(i2, j),
            decreases ROWS_AMOUNT - i,
        {
            let mut row: Vec<bool> = Vec::new();
            let mut j: usize = 0;
            while j < COLUMNS_AMOUNT
                invariant
                    self.wf(),
                    i < ROWS_AMOUNT,
                    j <= COLUMNS_AMOUNT,
                    row@.len() == j,
                    forall|j2: int|
                        0 <= j2 < j ==> (#[trigger] row@[j2]) == self.occupied(i as int, j2),
                decreases COLUMNS_AMOUNT - j,
            {
                row.push(self.get(i, j).is_some());
                j += 1;
            }
            m.push(row);
            i += 1;
        }
        m
    }
}

/// Cell (i, j) of the grid holds exactly what the first n records aim at it:
/// occupied when one of them aims there, and then by that record's element.
spec fn prefix_cell_matches(
    s: Seq<LoadedElement>,
    n: int,
    cells: Seq<Option<Ratom>>,
    i: int,
    j: int,
) -> bool {
    &&& ((cells[cell_index(i, j)] is Some) <==> exists|k: int|
        0 <= k < n && #[trigger] spec_target(s[k]) == Some((i, j)))
    &&& forall|k: int|
        0 <= k < n && #[trigger] spec_target(s[k]) == Some((i, j)) ==> cells[cell_index(i, j)]
            == Some(s[k].element)
}

/// Cell (i, j) of the grid holds exactly what the records aim at it.
pub open spec fn cell_matches(s: Seq<LoadedElement>, g: Grid, i: int, j: int) -> bool {
    &&& (g.occupied(i, j) <==> exists|k: int|
        0 <= k < s.len() && #[trigger] spec_target(s[k]) == Some((i, j)))
    &&& forall|k: int|
        0 <= k < s.len() && #[trigger] spec_target(s[k]) == Some((i, j)) ==> g.cell(i, j) == Some(
            s[k].element,
        )
}

/// Place every record's element on its cell.  Succeeds exactly when every
/// record gets a cell of its own; the grid then holds each element at the
/// cell its record aims at and nothing anywhere else.  Otherwise the first
/// record that cannot be placed decides the error: no cell of its own gives
/// [`PlacementError::Unplaceable`] with its symbol, a taken cell gives
/// [`PlacementError::Collision`] with that cell.
pub fn place_elements(records: &Vec<LoadedElement>) -> (r: Result<Grid, PlacementError>)
    requires
        forall|k: int| 0 <= k < records@.len() ==> target_in_grid(#[trigger] records@[k]),
        forall|k: int| 0 <= k < records@.len() ==> (#[trigger] records@[k]).element.wf(),
    ensures
        r is Ok <==> all_placeable(records@),
        r matches Ok(g) ==> g.wf() && (forall|i: int, j: int|
            grid_pos(i, j) ==> #[trigger] cell_matches(records@, g, i, j)),
        r matches Err(e) ==> exists|k: int|
            #[trigger] is_first_problem(records@, k) && error_for(records@, k, e),
{
    let ghost s = records@;
    let mut cells: Vec<Option<Ratom>> = Vec::new();
    let mut t: usize = 0;
    while t < CELLS_AMOUNT
        invariant
            t <= CELLS_AMOUNT,
            cells@.len() == t,
            forall|t2: int| 0 <= t2 < t ==> (#[trigger] cells@[t2]) is None,
        decreases CELLS_AMOUNT - t,
    {
        cells.push(None);
        t += 1;
    }

    let mut n: usize = 0;
    while n < records.len()
        invariant
            s == records@,
            n <= s.len(),
            cells@.len() == CELLS_AMOUNT,
            forall|k: int| 0 <= k < s.len() ==> target_in_grid(#[trigger] s[k]),
            forall|k: int| 0 <= k < s.len() ==> (#[trigger] s[k]).element.wf(),
            forall|k: int| 0 <= k < n ==> !(#[trigger] problem_at(s, k)),
            forall|i: int, j: int|
                grid_pos(i, j) ==> #[trigger] prefix_cell_matches(s, n as int, cells@, i, j),
            forall|t2: int|
                0 <= t2 < CELLS_AMOUNT ==> (#[trigger] cells@[t2] matches Some(a) ==> a.wf()),
        decreases s.len() - n,
    {
        let rec = &records[n];
        match compute_target_cell(rec.element.get_number(), rec.period, rec.group) {
            None => {
                proof {
                    assert(is_first_problem(s, n as int));
                }
                return Err(PlacementError::Unplaceable(rec.element.get_symbol().to_owned()));
            },
            Some((ci, cj)) => {
                proof {
                    assert(target_in_grid(s[n as int]));
                    assert(grid_pos(ci as int, cj as int));
                }
                let idx = ci * COLUMNS_AMOUNT + cj;
                if cells[idx].is_some() {
                    proof {
                        assert(prefix_cell_matches(s, n as int, cells@, ci as int, cj as int));
                        assert(collides_earlier(s, n as int));
                        assert(is_first_problem(s, n as int));
                    }
                    return Err(PlacementError::Collision(ci, cj));
                }
                let ghost old_cells = cells@;
                cells.set(idx, Some(rec.element.clone()));
                proof {
                    assert(prefix_cell_matches(s, n as int, old_cells, ci as int, cj as int));
                    assert(!collides_earlier(s, n as int));
                    assert(!problem_at(s, n as int));
                    assert forall|i: int, j: int| grid_pos(i, j) implies #[trigger]
                        prefix_cell_matches(s, n + 1, cells@, i, j) by {
                        assert(prefix_cell_matches(s, n as int, old_cells, i, j));
                        if i == ci as int && j == cj as int {
                            assert(spec_target(s[n as int]) == Some((i, j)));
                        } else {
                            if cell_index(i, j) == cell_index(ci as int, cj as int) {
                                lemma_cell_index_injective(i, j, ci as int, cj as int);
                            }
                            assert(cells@[cell_index(i, j)] == old_cells[cell_index(i, j)]);
                            if exists|k: int|
                                0 <= k < n + 1 && #[trigger] spec_target(s[k]) == Some((i, j)) {
                                let k = choose|k: int|
                                    0 <= k < n + 1 && #[trigger] spec_target(s[k]) == Some(
                                        (i, j),
                                    );
                                assert(k < n);
                            }
                        }
                    }
                }
                n += 1;
            },
        }
    }
    let g = Grid { cells };
    proof {
        assert forall|i: int, j: int| grid_pos(i, j) implies #[trigger]
            cell_matches(s, g, i, j) by {
            assert(prefix_cell_matches(s, n as int, g.spec_cells(), i, j));
        }
        assert(g.wf());
    }
    Ok(g)
}

/// On a fully placeable input no two records aim at the same cell, so the
/// placement is a bijection between the records and the occupied cells.
pub proof fn lemma_placement_injective(s: Seq<LoadedElement>, k1: int, k2: int)
    requires
        all_placeable(s),
        0 <= k1 < s.len(),
        0 <= k2 < s.len(),
        spec_target(s[k1]) == spec_target(s[k2]),
    ensures
        k1 == k2,
{
    if k1 < k2 {
        assert(collides_earlier(s, k2));
        assert(problem_at(s, k2));
    } else if k2 < k1 {
        assert(collides_earlier(s, k1));
        assert(problem_at(s, k1));
    }
}

} // verus!
