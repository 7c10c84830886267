//! What the rules of play imply, proved once for every game.

use vstd::prelude::*;
use crate::game::{BoardMsg, GameState};
use crate::grid::{
    empty_grid,
    has_line,
    in_range,
    is_full,
    is_grid,
    lemma_empty_grid,
    lemma_full_marks,
    lemma_has_line_cases,
    lemma_place,
    lemma_place_line,
    lemma_place_marks,
    line_cell,
    line_filled,
    line_mark,
    on_line,
    place,
};
use crate::marks::{EndType, PlayerTurn, TileState};

verus! {

/// A new game is consistent: its board is empty, `X` is to move and nothing
/// is decided.
pub proof fn lemma_initial_consistent()
    ensures
        GameState::initial().consistent(),
        GameState::initial().placed() == 0,
        GameState::initial().turn == PlayerTurn::X,
        GameState::initial().winner is None,
        forall|row: int, col: int|
            in_range(row, col) ==> #[trigger] GameState::initial().cells[row][col]
                == TileState::Empty,
{
    lemma_empty_grid();
    assert(!has_line(empty_grid(), TileState::X));
    assert(!has_line(empty_grid(), TileState::O));
}

/// A mark placed on an empty cell gives no line to a mark other than the
/// one placed, if that mark held none before.
proof fn lemma_place_no_line(g: crate::grid::Grid, row: int, col: int, t: TileState, u: TileState)
    requires
        is_grid(g),
        in_range(row, col),
        u != t,
        !has_line(g, u),
    ensures
        !has_line(place(g, row, col, t), u),
{
    let h = place(g, row, col, t);
    lemma_has_line_cases(g, u);
    lemma_has_line_cases(h, u);
    lemma_place_line(g, row, col, t, 0, u);
    lemma_place_line(g, row, col, t, 1, u);
    lemma_place_line(g, row, col, t, 2, u);
    lemma_place_line(g, row, col, t, 3, u);
    lemma_place_line(g, row, col, t, 4, u);
    lemma_place_line(g, row, col, t, 5, u);
    lemma_place_line(g, row, col, t, 6, u);
    lemma_place_line(g, row, col, t, 7, u);
}

/// A click on the board keeps a consistent game consistent.
pub proof fn lemma_click_consistent(s: GameState, row: int, col: int)
    requires
        s.consistent(),
        in_range(row, col),
    ensures
        s.click(row, col).consistent(),
{
    if s.accepts(row, col) {
        let t = s.turn.tile();
        let u = s.turn.opponent().tile();
        lemma_place(s.cells, row, col, t);
        lemma_place_no_line(s.cells, row, col, t, u);
    } else {
        lemma_initial_consistent();
    }
}

/// Every state that clicks on the board lead to from a consistent one is
/// consistent. So is every state that play reaches from a new game.
pub proof fn lemma_play_consistent(s: GameState, moves: Seq<(int, int)>)
    requires
        s.consistent(),
        GameState::on_board(moves),
    ensures
        s.play(moves).consistent(),
    decreases moves.len(),
{
    if moves.len() > 0 {
        let earlier = moves.drop_last();
        assert forall|i: int| 0 <= i < earlier.len() implies in_range(
            (#[trigger] earlier[i]).0,
            earlier[i].1,
        ) by {
            assert(earlier[i] == moves[i]);
        }
        lemma_play_consistent(s, earlier);
        assert(moves.last() == moves[moves.len() - 1]);
        lemma_click_consistent(s.play(earlier), moves.last().0, moves.last().1);
    }
}

/// Clicks that each place a mark are clicks on the board.
pub proof fn lemma_placed_on_board(s: GameState, moves: Seq<(int, int)>)
    requires
        s.all_placed(moves),
    ensures
        GameState::on_board(moves),
    decreases moves.len(),
{
    if moves.len() > 0 {
        let earlier = moves.drop_last();
        lemma_placed_on_board(s, earlier);
        assert forall|i: int| 0 <= i < moves.len() implies in_range(
            (#[trigger] moves[i]).0,
            moves[i].1,
        ) by {
            if i < earlier.len() {
                assert(earlier[i] == moves[i]);
            } else {
                assert(moves[i] == moves.last());
            }
        }
    }
}

/// The turn alternates: while every click places a mark, the player to
/// move after an even number of clicks is the one who began, and after an
/// odd number the opponent. A new game begins with `X`, so the marks go
/// down in the order X, O, X, and so on.
pub proof fn law_turn_alternates(s: GameState, moves: Seq<(int, int)>)
    requires
        s.all_placed(moves),
    ensures
        s.play(moves).turn == (if moves.len() % 2 == 0 {
            s.turn
        } else {
            s.turn.opponent()
        }),
        s == GameState::initial() ==> s.play(moves).turn == (if moves.len() % 2 == 0 {
            PlayerTurn::X
        } else {
            PlayerTurn::O
        }),
    decreases moves.len(),
{
    if moves.len() > 0 {
        law_turn_alternates(s, moves.drop_last());
    }
}

/// A mark, once placed, stays: a click that places a mark fills the cell
/// clicked and leaves every other cell as it was. Only a new game empties a
/// cell.
pub proof fn law_marks_stay(s: GameState, row: int, col: int)
    requires
        is_grid(s.cells),
        in_range(row, col),
        s.accepts(row, col),
    ensures
        s.click(row, col).cells[row][col] == s.turn.tile(),
        forall|r: int, c: int|
            in_range(r, c) && !(r == row && c == col) ==> #[trigger] s.click(row, col).cells[r][c]
                == s.cells[r][c],
        forall|r: int, c: int|
            in_range(r, c) && s.cells[r][c] != TileState::Empty ==> #[trigger] s.click(
                row,
                col,
            ).cells[r][c] == s.cells[r][c],
{
    lemma_place(s.cells, row, col, s.turn.tile());
}

/// A game is won by the move that completes a line, and not before. While
/// the game is open neither player holds any of the eight lines. A click
/// that places a mark fills a line exactly when the cell lies on the line
/// and the line's two other cells already bear the mover's mark; the game
/// is then won by the mover, and it is won in no other way. The opponent
/// never wins by it.
pub proof fn law_win_on_completed_line(s: GameState, row: int, col: int, line: int)
    requires
        s.consistent(),
        in_range(row, col),
        s.accepts(row, col),
        0 <= line < 8,
    ensures
        !line_filled(s.cells, line, TileState::X),
        !line_filled(s.cells, line, TileState::O),
        line_filled(s.click(row, col).cells, line, s.turn.tile()) <==> on_line(line, row, col)
            && forall|k: int|
            0 <= k < 3 && line_cell(line, k) != (row, col) ==> #[trigger] line_mark(
                s.cells,
                line,
                k,
            ) == s.turn.tile(),
        line_filled(s.click(row, col).cells, line, s.turn.tile()) ==> s.click(row, col).winner
            == Some(s.turn.victory()),
        s.click(row, col).winner == Some(s.turn.victory()) <==> has_line(
            s.click(row, col).cells,
            s.turn.tile(),
        ),
        s.click(row, col).winner != Some(s.turn.opponent().victory()),
{
    let t = s.turn.tile();
    assert(!line_filled(s.cells, line, TileState::X));
    assert(!line_filled(s.cells, line, TileState::O));
    lemma_place_line(s.cells, row, col, t, line, t);
}

/// In a game played from the start, in which every click has placed a mark,
/// the last of them wins the game exactly when it has completed one of the
/// eight lines, whichever it is, and no line was held before it. The winner
/// is the player who placed that mark.
pub proof fn law_win_in_play(moves: Seq<(int, int)>, line: int)
    requires
        GameState::initial().all_placed(moves),
        moves.len() > 0,
        0 <= line < 8,
    ensures
        GameState::initial().play(moves.drop_last()).winner is None,
        !line_filled(GameState::initial().play(moves.drop_last()).cells, line, TileState::X),
        !line_filled(GameState::initial().play(moves.drop_last()).cells, line, TileState::O),
        line_filled(
            GameState::initial().play(moves).cells,
            line,
            GameState::initial().play(moves.drop_last()).turn.tile(),
        ) ==> GameState::initial().play(moves).winner == Some(
            GameState::initial().play(moves.drop_last()).turn.victory(),
        ),
        GameState::initial().play(moves).winner == Some(
            GameState::initial().play(moves.drop_last()).turn.victory(),
        ) <==> has_line(
            GameState::initial().play(moves).cells,
            GameState::initial().play(moves.drop_last()).turn.tile(),
        ),
        GameState::initial().play(moves).winner != Some(
            GameState::initial().play(moves.drop_last()).turn.opponent().victory(),
        ),
{
    let start = GameState::initial();
    let earlier = moves.drop_last();
    lemma_initial_consistent();
    lemma_placed_on_board(start, earlier);
    lemma_play_consistent(start, earlier);
    law_win_on_completed_line(start.play(earlier), moves.last().0, moves.last().1, line);
}

/// A click that places a mark adds one to the marks on the board, and the
/// board is full exactly when it bears nine.
pub proof fn lemma_click_counts(s: GameState, row: int, col: int)
    requires
        is_grid(s.cells),
        in_range(row, col),
        s.accepts(row, col),
    ensures
        is_grid(s.click(row, col).cells),
        s.click(row, col).placed() == s.placed() + 1,
        is_full(s.click(row, col).cells) <==> s.click(row, col).placed() == 9,
{
    let t = s.turn.tile();
    lemma_place(s.cells, row, col, t);
    lemma_place_marks(s.cells, row, col, t);
    lemma_full_marks(s.click(row, col).cells);
}

/// A game is drawn by the move that fills the board without completing a
/// line: a click that places a mark ends the game in a draw exactly when
/// the board is then full, which is when it bears nine marks, and neither
/// player holds a line.
pub proof fn law_draw_on_full_board(s: GameState, row: int, col: int)
    requires
        s.consistent(),
        in_range(row, col),
        s.accepts(row, col),
    ensures
        s.click(row, col).winner == Some(EndType::Draw) <==> ({
            &&& is_full(s.click(row, col).cells)
            &&& !has_line(s.click(row, col).cells, TileState::X)
            &&& !has_line(s.click(row, col).cells, TileState::O)
        }),
        s.click(row, col).winner == Some(EndType::Draw) <==> ({
            &&& s.click(row, col).placed() == 9
            &&& !has_line(s.click(row, col).cells, TileState::X)
            &&& !has_line(s.click(row, col).cells, TileState::O)
        }),
{
    lemma_click_consistent(s, row, col);
    lemma_click_counts(s, row, col);
}

/// While every click places a mark, the marks on the board are as many as
/// the clicks since the game was new.
pub proof fn lemma_marks_counted(moves: Seq<(int, int)>)
    requires
        GameState::initial().all_placed(moves),
    ensures
        is_grid(GameState::initial().play(moves).cells),
        GameState::initial().play(moves).placed() == moves.len(),
        moves.len() <= 9,
    decreases moves.len(),
{
    let start = GameState::initial();
    if moves.len() > 0 {
        let earlier = moves.drop_last();
        lemma_marks_counted(earlier);
        lemma_click_counts(start.play(earlier), moves.last().0, moves.last().1);
        lemma_full_marks(start.play(moves).cells);
    } else {
        lemma_initial_consistent();
    }
}

/// A draw comes with the ninth mark and not before: in a game in which
/// every click has placed a mark, the game is drawn exactly when nine marks
/// have been placed and neither player holds a line.
pub proof fn law_draw_on_ninth_mark(moves: Seq<(int, int)>)
    requires
        GameState::initial().all_placed(moves),
    ensures
        GameState::initial().play(moves).winner == Some(EndType::Draw) <==> ({
            &&& moves.len() == 9
            &&& !has_line(GameState::initial().play(moves).cells, TileState::X)
            &&& !has_line(GameState::initial().play(moves).cells, TileState::O)
        }),
{
    let start = GameState::initial();
    lemma_initial_consistent();
    lemma_placed_on_board(start, moves);
    lemma_play_consistent(start, moves);
    lemma_marks_counted(moves);
    lemma_full_marks(start.play(moves).cells);
}

/// A reset gives a new game whatever came before, so a second reset changes
/// nothing.
pub proof fn law_reset_restores(s: GameState)
    ensures
        s.apply(BoardMsg::Reset) == GameState::initial(),
        s.apply(BoardMsg::Reset).apply(BoardMsg::Reset) == s.apply(BoardMsg::Reset),
{
}

/// A click on a marked cell, or on any cell of a game that has ended,
/// gives a new game.
pub proof fn law_click_restarts(s: GameState, row: int, col: int)
    requires
        in_range(row, col),
        s.cells[row][col] != TileState::Empty || s.winner is Some,
    ensures
        s.click(row, col) == GameState::initial(),
{
}

/// An ending stays until the game starts anew: once a game is won or
/// drawn, no click places a further mark.
pub proof fn law_ending_is_final(s: GameState, row: int, col: int)
    requires
        s.winner is Some,
    ensures
        !s.accepts(row, col),
        s.click(row, col) == GameState::initial(),
{
}

} // verus!
