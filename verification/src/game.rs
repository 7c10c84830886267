//! The rules of play: the state of a game, and how a click or a reset
//! changes it.

use vstd::prelude::*;
use crate::grid::{Grid, empty_grid, has_line, in_range, is_full, is_grid, marks, place};
use crate::marks::{EndType, PlayerTurn, TileState};

verus! {

/// What a player can ask of the board: to click the cell in a row and a
/// column, both counted from zero, or to start afresh.
#[derive(Debug, Clone, Copy, PartialEq, Eq, Hash, Structural)]
pub enum BoardMsg {
    TileClicked(usize, usize),
    Reset,
}

impl BoardMsg {
    /// The message can be acted on: a click must name a cell of the board.
    pub open spec fn valid(self) -> bool {
        match self {
            BoardMsg::TileClicked(row, col) => in_range(row as int, col as int),
            BoardMsg::Reset => true,
        }
    }
}

/// How the game stands once `mover` has placed a mark and the board is `g`:
/// won if `mover` holds a line, drawn if not and the board is full, and
/// still open otherwise. Only the lines of `mover` are looked at.
pub open spec fn outcome(g: Grid, mover: PlayerTurn) -> Option<EndType> {
    if has_line(g, mover.tile()) {
        Some(mover.victory())
    } else if is_full(g) {
        Some(EndType::Draw)
    } else {
        None
    }
}

/// The state of a game: the cells, the player to move, and the ending once
/// there is one.
pub struct GameState {
    pub cells: Grid,
    pub turn: PlayerTurn,
    pub winner: Option<EndType>,
}

impl GameState {
    /// The state in which every game starts: an empty board, `X` to move,
    /// nothing decided.
    pub open spec fn initial() -> GameState {
        GameState { cells: empty_grid(), turn: PlayerTurn::X, winner: None }
    }

    /// A click on this cell places a mark. A click on a marked cell, or on
    /// any cell of a finished game, starts a new game instead.
    pub open spec fn accepts(self, row: int, col: int) -> bool {
        self.cells[row][col] == TileState::Empty && self.winner is None
    }

    /// The state after a click on the cell at `row`, `col`. Where the click
    /// places a mark, it is the mark of the player to move, the game is
    /// judged for that player, and the turn passes, also when the game has
    /// just ended.
    pub open spec fn click(self, row: int, col: int) -> GameState {
        if self.accepts(row, col) {
            let cells = place(self.cells, row, col, self.turn.tile());
            GameState { cells, turn: self.turn.opponent(), winner: outcome(cells, self.turn) }
        } else {
            GameState::initial()
        }
    }

    /// The state after a message that can be acted on.
    pub open spec fn apply(self, msg: BoardMsg) -> GameState {
        match msg {
            BoardMsg::TileClicked(row, col) => self.click(row as int, col as int),
            BoardMsg::Reset => GameState::initial(),
        }
    }

    /// What holds of every state that play can reach: the board has its
    /// shape, and the ending that is recorded is the one that the board
    /// shows. An open game has no line held and an empty cell left; a won
    /// game has a line of the winner and none of the loser; a drawn game has
    /// a full board and no line.
    pub open spec fn consistent(self) -> bool {
        &&& is_grid(self.cells)
        &&& self.winner is None ==> !is_full(self.cells)
        &&& self.winner == Some(EndType::Draw) ==> is_full(self.cells)
        &&& has_line(self.cells, TileState::X) <==> self.winner == Some(EndType::XWin)
        &&& has_line(self.cells, TileState::O) <==> self.winner == Some(EndType::OWin)
    }

    /// The state after the clicks of `moves`, one after the other.
    pub open spec fn play(self, moves: Seq<(int, int)>) -> GameState
        decreases moves.len(),
    {
        if moves.len() == 0 {
            self
        } else {
            self.play(moves.drop_last()).click(moves.last().0, moves.last().1)
        }
    }

    /// Every click of `moves` names a cell of the board.
    pub open spec fn on_board(moves: Seq<(int, int)>) -> bool {
        forall|i: int| 0 <= i < moves.len() ==> in_range((#[trigger] moves[i]).0, moves[i].1)
    }

    /// Every click of `moves` places a mark: it names an empty cell of the
    /// board while the game is still open.
    pub open spec fn all_placed(self, moves: Seq<(int, int)>) -> bool
        decreases moves.len(),
    {
        moves.len() > 0 ==> {
            &&& self.all_placed(moves.drop_last())
            &&& in_range(moves.last().0, moves.last().1)
            &&& self.play(moves.drop_last()).accepts(moves.last().0, moves.last().1)
        }
    }

    /// The number of marks on the board.
    pub open spec fn placed(self) -> nat {
        marks(self.cells)
    }
}

} // verus!
