use vstd::prelude::*;

verus! {

/// What a cell holds.
#[derive(PartialEq, Eq, Structural, Clone, Copy, Debug)]
pub enum Mark {
    X,
    O,
    Empty,
}

/// Linear index of the cell at column `col` and row `row`.
pub open spec fn cell_index(col: int, row: int) -> int {
    col + row * 3
}

/// Both coordinates name a column or row of the 3x3 grid.
pub open spec fn in_bounds(col: int, row: int) -> bool {
    0 <= col <= 2 && 0 <= row <= 2
}

/// The three cells `i`, `j`, `k` hold the same mark, and it is not `Empty`.
pub open spec fn line_owned(b: Seq<Mark>, i: int, j: int, k: int) -> bool {
    b[i] != Mark::Empty && b[i] == b[j] && b[j] == b[k]
}

/// Some row, column or diagonal holds three identical non-empty marks.
pub open spec fn has_winning_line(b: Seq<Mark>) -> bool {
    ||| line_owned(b, 0, 1, 2)
    ||| line_owned(b, 3, 4, 5)
    ||| line_owned(b, 6, 7, 8)
    ||| line_owned(b, 0, 3, 6)
    ||| line_owned(b, 1, 4, 7)
    ||| line_owned(b, 2, 5, 8)
    ||| line_owned(b, 0, 4, 8)
    ||| line_owned(b, 6, 4, 2)
}

/// No cell is `Empty`.
pub open spec fn all_filled(b: Seq<Mark>) -> bool {
    forall|i: int| 0 <= i < b.len() ==> b[i] != Mark::Empty
}

/// Number of non-empty cells among the first `n`.
pub open spec fn filled_count(b: Seq<Mark>, n: int) -> nat
    decreases n,
{
    if n <= 0 {
        0
    } else {
        filled_count(b, n - 1) + if b[n - 1] != Mark::Empty { 1nat } else { 0nat }
    }
}

/// Number of non-empty cells of the board.
pub open spec fn filled(b: Seq<Mark>) -> nat {
    filled_count(b, b.len() as int)
}

/// `after` is `before` with exactly one previously empty cell now holding `m`.
pub open spec fn placed_once(before: Seq<Mark>, after: Seq<Mark>, m: Mark) -> bool {
    &&& after.len() == before.len()
    &&& exists|i: int|
        0 <= i < before.len() && before[i] == Mark::Empty && after == before.update(i, m)
}

/// Putting a non-empty mark on an empty cell below `n` adds one to the count of the first `n`.
pub proof fn lemma_count_update(b: Seq<Mark>, i: int, m: Mark, n: int)
    requires
        0 <= i < b.len(),
        0 <= n <= b.len(),
        b[i] == Mark::Empty,
        m != Mark::Empty,
    ensures
        filled_count(b.update(i, m), n) == filled_count(b, n) + if i < n { 1nat } else { 0nat },
    decreases n,
{
    if n > 0 {
        lemma_count_update(b, i, m, n - 1);
    }
}

/// The count of the first `n` cells is at most `n`, and equals `n` only when
/// none of them is empty.
pub proof fn lemma_count_bound(b: Seq<Mark>, n: int)
    requires
        0 <= n <= b.len(),
    ensures
        filled_count(b, n) <= n,
        filled_count(b, n) == n ==> forall|j: int| 0 <= j < n ==> b[j] != Mark::Empty,
    decreases n,
{
    if n > 0 {
        lemma_count_bound(b, n - 1);
    }
}

/// A placement fills exactly one more cell.
pub proof fn lemma_placed_once_fills_one(before: Seq<Mark>, after: Seq<Mark>, m: Mark)
    requires
        placed_once(before, after, m),
        m != Mark::Empty,
    ensures
        filled(after) == filled(before) + 1,
{
    let i = choose|i: int|
        0 <= i < before.len() && before[i] == Mark::Empty && after == before.update(i, m);
    lemma_count_update(before, i, m, before.len() as int);
}

/// Placing a non-empty mark on an empty cell leaves that mark there, and the
/// cell is then occupied, so a second placement on it is refused and changes
/// nothing.
pub proof fn lemma_place_then_read(b: Seq<Mark>, col: int, row: int, m: Mark)
    requires
        b.len() == 9,
        in_bounds(col, row),
        b[cell_index(col, row)] == Mark::Empty,
        m != Mark::Empty,
    ensures
        b.update(cell_index(col, row), m)[cell_index(col, row)] == m,
        b.update(cell_index(col, row), m)[cell_index(col, row)] != Mark::Empty,
{
}

/// Each of the eight lines, filled with one non-empty mark, wins; the empty
/// board does not.
pub proof fn lemma_winning_lines(b: Seq<Mark>, m: Mark)
    requires
        b.len() == 9,
        m != Mark::Empty,
    ensures
        forall|row: int|
            0 <= row <= 2 && b[cell_index(0, row)] == m && b[cell_index(1, row)] == m
                && b[cell_index(2, row)] == m ==> has_winning_line(b),
        forall|col: int|
            0 <= col <= 2 && b[cell_index(col, 0)] == m && b[cell_index(col, 1)] == m
                && b[cell_index(col, 2)] == m ==> has_winning_line(b),
        b[0] == m && b[4] == m && b[8] == m ==> has_winning_line(b),
        b[2] == m && b[4] == m && b[6] == m ==> has_winning_line(b),
        !has_winning_line(Seq::new(9, |i: int| Mark::Empty)),
{
    assert forall|row: int|
        0 <= row <= 2 && b[cell_index(0, row)] == m && b[cell_index(1, row)] == m
            && b[cell_index(2, row)] == m implies has_winning_line(b) by {
        if row == 0 {
            assert(line_owned(b, 0, 1, 2));
        } else if row == 1 {
            assert(line_owned(b, 3, 4, 5));
        } else {
            assert(line_owned(b, 6, 7, 8));
        }
    }
    assert forall|col: int|
        0 <= col <= 2 && b[cell_index(col, 0)] == m && b[cell_index(col, 1)] == m
            && b[cell_index(col, 2)] == m implies has_winning_line(b) by {
        if col == 0 {
            assert(line_owned(b, 0, 3, 6));
        } else if col == 1 {
            assert(line_owned(b, 1, 4, 7));
        } else {
            assert(line_owned(b, 2, 5, 8));
        }
    }
    if b[2] == m && b[4] == m && b[6] == m {
        assert(line_owned(b, 6, 4, 2));
    }
    let e = Seq::new(9, |i: int| Mark::Empty);
    assert(e[0] == Mark::Empty && e[1] == Mark::Empty && e[2] == Mark::Empty);
    assert(e[3] == Mark::Empty && e[4] == Mark::Empty && e[5] == Mark::Empty);
    assert(e[6] == Mark::Empty && e[7] == Mark::Empty && e[8] == Mark::Empty);
}

/// The 3x3 grid of marks, stored row by row from row 0.
pub struct Board {
    cells: Vec<Mark>,
}

impl View for Board {
    type V = Seq<Mark>;

    closed spec fn view(&self) -> Seq<Mark> {
        self.cells@
    }
}

impl Board {
    /// The board always has nine cells.
    pub open spec fn wf(&self) -> bool {
        self@.len() == 9
    }

    /// An all-empty board.
    pub fn new() -> (r: Board)
        ensures
            r.wf(),
            r@ == Seq::new(9, |i: int| Mark::Empty),
    {
        let r = Board { cells: vec![Mark::Empty; 9] };
        assert(r@ =~= Seq::new(9, |i: int| Mark::Empty));
        r
    }

    /// The mark at column `col`, row `row`.
    pub fn get(&self, col: usize, row: usize) -> (r: Mark)
        requires
            self.wf(),
            in_bounds(col as int, row as int),
        ensures
            r == self@[cell_index(col as int, row as int)],
    {
        self.cells[col + row * 3]
    }

    /// Places `mark` at the cell if it is empty; tells whether it did.
    pub fn set(&mut self, col: usize, row: usize, mark: Mark) -> (r: bool)
        requires
            old(self).wf(),
            in_bounds(col as int, row as int),
        ensures
            final(self).wf(),
            r == (old(self)@[cell_index(col as int, row as int)] == Mark::Empty),
            r ==> final(self)@ == old(self)@.update(cell_index(col as int, row as int), mark),
            !r ==> final(self)@ == old(self)@,
    {
        if self.get(col, row) == Mark::Empty {
            self.cells.set(col + row * 3, mark);
            true
        } else {
            false
        }
    }

    /// Whether some row, column or diagonal holds three identical marks.
    pub fn is_won(&self) -> (r: bool)
        requires
            self.wf(),
        ensures
            r == has_winning_line(self@),
    {
        self.owns_line(0, 1, 2) || self.owns_line(3, 4, 5) || self.owns_line(6, 7, 8)
            || self.owns_line(0, 3, 6) || self.owns_line(1, 4, 7) || self.owns_line(2, 5, 8)
            || self.owns_line(0, 4, 8) || self.owns_line(6, 4, 2)
    }

    /// Whether the cells `i`, `j`, `k` hold the same non-empty mark.
    fn owns_line(&self, i: usize, j: usize, k: usize) -> (r: bool)
        requires
            self.wf(),
            i < 9,
            j < 9,
            k < 9,
        ensures
            r == line_owned(self@, i as int, j as int, k as int),
    {
        self.cells[i] != Mark::Empty && self.cells[i] == self.cells[j] && self.cells[j] == self.cells[k]
    }

    /// Whether no cell is empty.
    pub fn is_full(&self) -> (r: bool)
        requires
            self.wf(),
        ensures
            r == all_filled(self@),
    {
        let mut i: usize = 0;
        while i < self.cells.len()
            invariant
                i <= self.cells@.len(),
                forall|j: int| 0 <= j < i ==> self.cells@[j] != Mark::Empty,
            decreases self.cells@.len() - i,
        {
            if self.cells[i] == Mark::Empty {
                return false;
            }
            i += 1;
        }
        true
    }
}

} // verus!
