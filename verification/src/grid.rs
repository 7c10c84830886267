//! The board as a mathematical object: three rows of three cells, the eight
//! lines that win a game, and what it means for the board to be full.

use vstd::prelude::*;
use crate::marks::TileState;

verus! {

/// The cells of a board, row by row.
pub type Grid = Seq<Seq<TileState>>;

/// `row` and `col` name a cell of the board.
pub open spec fn in_range(row: int, col: int) -> bool {
    0 <= row < 3 && 0 <= col < 3
}

/// `g` has three rows of three cells each.
pub open spec fn is_grid(g: Grid) -> bool {
    &&& g.len() == 3
    &&& g[0].len() == 3
    &&& g[1].len() == 3
    &&& g[2].len() == 3
}

/// The board on which nothing has been placed.
pub open spec fn empty_grid() -> Grid {
    Seq::new(3, |row: int| Seq::new(3, |col: int| TileState::Empty))
}

/// The board `g` with the cell at `row`, `col` replaced by `t`.
pub open spec fn place(g: Grid, row: int, col: int, t: TileState) -> Grid {
    g.update(row, g[row].update(col, t))
}

/// The `k`-th cell of one of the eight lines. Lines 0 to 2 are the rows,
/// 3 to 5 the columns, 6 runs from the top left corner to the bottom right
/// one, and 7 from the bottom left corner to the top right one.
pub open spec fn line_cell(line: int, k: int) -> (int, int) {
    if line < 3 {
        (line, k)
    } else if line < 6 {
        (k, line - 3)
    } else if line == 6 {
        (k, k)
    } else {
        (2 - k, k)
    }
}

/// The mark at the `k`-th cell of a line.
pub open spec fn line_mark(g: Grid, line: int, k: int) -> TileState {
    g[line_cell(line, k).0][line_cell(line, k).1]
}

/// All three cells of the line hold `t`.
pub open spec fn line_filled(g: Grid, line: int, t: TileState) -> bool {
    &&& line_mark(g, line, 0) == t
    &&& line_mark(g, line, 1) == t
    &&& line_mark(g, line, 2) == t
}

/// One of the eight lines holds `t` in all its cells.
pub open spec fn has_line(g: Grid, t: TileState) -> bool {
    exists|line: int| 0 <= line < 8 && #[trigger] line_filled(g, line, t)
}

/// The cell at `row`, `col` lies on the line.
pub open spec fn on_line(line: int, row: int, col: int) -> bool {
    exists|k: int| 0 <= k < 3 && #[trigger] line_cell(line, k) == (row, col)
}

/// No cell of the board is empty.
pub open spec fn is_full(g: Grid) -> bool {
    forall|row: int, col: int| in_range(row, col) ==> #[trigger] g[row][col] != TileState::Empty
}

/// One for a marked cell, nothing for an empty one.
pub open spec fn tally(t: TileState) -> nat {
    if t == TileState::Empty {
        0
    } else {
        1
    }
}

/// The number of marked cells in a row.
pub open spec fn row_marks(r: Seq<TileState>) -> nat {
    tally(r[0]) + tally(r[1]) + tally(r[2])
}

/// The number of marked cells on the board.
pub open spec fn marks(g: Grid) -> nat {
    row_marks(g[0]) + row_marks(g[1]) + row_marks(g[2])
}

/// A line is held by `t` exactly when one of the eight is: the three rows,
/// the three columns or the two diagonals.
pub proof fn lemma_has_line_cases(g: Grid, t: TileState)
    ensures
        has_line(g, t) <==> ({
            ||| line_filled(g, 0, t)
            ||| line_filled(g, 1, t)
            ||| line_filled(g, 2, t)
            ||| line_filled(g, 3, t)
            ||| line_filled(g, 4, t)
            ||| line_filled(g, 5, t)
            ||| line_filled(g, 6, t)
            ||| line_filled(g, 7, t)
        }),
{
    if has_line(g, t) {
        let line = choose|line: int| 0 <= line < 8 && #[trigger] line_filled(g, line, t);
        assert(line == 0 || line == 1 || line == 2 || line == 3 || line == 4 || line == 5 || line
            == 6 || line == 7);
    }
}

/// The empty board has three rows of three empty cells: no mark is counted
/// on it and no line is held.
pub proof fn lemma_empty_grid()
    ensures
        is_grid(empty_grid()),
        forall|row: int, col: int|
            in_range(row, col) ==> #[trigger] empty_grid()[row][col] == TileState::Empty,
        marks(empty_grid()) == 0,
        !is_full(empty_grid()),
        forall|t: TileState| t != TileState::Empty ==> !#[trigger] has_line(empty_grid(), t),
{
    let g = empty_grid();
    assert(g[0][0] == TileState::Empty);
    assert forall|t: TileState| t != TileState::Empty implies !#[trigger] has_line(g, t) by {
        lemma_has_line_cases(g, t);
    }
}

/// Placing a mark changes the one cell and no other.
pub proof fn lemma_place(g: Grid, row: int, col: int, t: TileState)
    requires
        is_grid(g),
        in_range(row, col),
    ensures
        is_grid(place(g, row, col, t)),
        place(g, row, col, t)[row][col] == t,
        forall|r: int, c: int|
            in_range(r, c) && !(r == row && c == col) ==> #[trigger] place(g, row, col, t)[r][c]
                == g[r][c],
{
}

/// A mark placed on an empty cell is one mark more on the board.
pub proof fn lemma_place_marks(g: Grid, row: int, col: int, t: TileState)
    requires
        is_grid(g),
        in_range(row, col),
        g[row][col] == TileState::Empty,
        t != TileState::Empty,
    ensures
        marks(place(g, row, col, t)) == marks(g) + 1,
{
    lemma_place(g, row, col, t);
    let h = place(g, row, col, t);
    assert(forall|r: int, c: int|
        in_range(r, c) ==> #[trigger] h[r][c] == (if r == row && c == col {
            t
        } else {
            g[r][c]
        }));
    assert(in_range(0, 0) && in_range(0, 1) && in_range(0, 2));
    assert(in_range(1, 0) && in_range(1, 1) && in_range(1, 2));
    assert(in_range(2, 0) && in_range(2, 1) && in_range(2, 2));
}

/// The board is full exactly when it bears nine marks, and it never bears
/// more.
pub proof fn lemma_full_marks(g: Grid)
    requires
        is_grid(g),
    ensures
        marks(g) <= 9,
        is_full(g) <==> marks(g) == 9,
{
    if is_full(g) {
        assert(in_range(0, 0) && in_range(0, 1) && in_range(0, 2));
        assert(in_range(1, 0) && in_range(1, 1) && in_range(1, 2));
        assert(in_range(2, 0) && in_range(2, 1) && in_range(2, 2));
        assert(g[0][0] != TileState::Empty && g[0][1] != TileState::Empty && g[0][2]
            != TileState::Empty);
        assert(g[1][0] != TileState::Empty && g[1][1] != TileState::Empty && g[1][2]
            != TileState::Empty);
        assert(g[2][0] != TileState::Empty && g[2][1] != TileState::Empty && g[2][2]
            != TileState::Empty);
    }
}

/// A mark placed off a line leaves the line as it was; placed on it, the
/// line is held by that mark exactly when its two other cells already were.
pub proof fn lemma_place_line(g: Grid, row: int, col: int, t: TileState, line: int, u: TileState)
    requires
        is_grid(g),
        in_range(row, col),
        0 <= line < 8,
    ensures
        !on_line(line, row, col) ==> (line_filled(place(g, row, col, t), line, u) <==> line_filled(
            g,
            line,
            u,
        )),
        on_line(line, row, col) && u != t ==> !line_filled(place(g, row, col, t), line, u),
        on_line(line, row, col) ==> (line_filled(place(g, row, col, t), line, t) <==> forall|k: int|
            0 <= k < 3 && line_cell(line, k) != (row, col) ==> #[trigger] line_mark(g, line, k)
                == t),
{
    lemma_place(g, row, col, t);
    let h = place(g, row, col, t);
    assert(in_range(line_cell(line, 0).0, line_cell(line, 0).1));
    assert(in_range(line_cell(line, 1).0, line_cell(line, 1).1));
    assert(in_range(line_cell(line, 2).0, line_cell(line, 2).1));
    if on_line(line, row, col) {
        let k = choose|k: int| 0 <= k < 3 && #[trigger] line_cell(line, k) == (row, col);
        assert(line_mark(h, line, k) == t);
        assert(k == 0 || k == 1 || k == 2);
    } else {
        assert(line_cell(line, 0) != (row, col));
        assert(line_cell(line, 1) != (row, col));
        assert(line_cell(line, 2) != (row, col));
    }
}

} // verus!
