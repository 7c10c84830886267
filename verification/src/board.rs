//! The board that a program holds: it takes the players' messages and keeps
//! the game to the rules.

use vstd::prelude::*;
use crate::game::{BoardMsg, GameState, outcome};
use crate::grid::{
    has_line,
    in_range,
    is_full,
    is_grid,
    lemma_has_line_cases,
    line_filled,
    place,
};
use crate::laws::{lemma_click_consistent, lemma_initial_consistent};
use crate::marks::{EndType, PlayerTurn, TileState};

verus! {

/// A click named a cell that the board does not have. The board is left as
/// it was.
#[derive(Debug, Clone, Copy, PartialEq, Eq, Hash, Structural)]
pub struct PreconditionViolation {
    pub row: usize,
    pub col: usize,
}

/// A game in progress or just ended.
#[derive(Debug, PartialEq, Eq)]
pub struct Board {
    winner: Option<EndType>,
    current_turn: PlayerTurn,
    /// The cells, row by row from the top, each row from the left.
    board: [[TileState; 3]; 3],
}

impl View for Board {
    type V = GameState;

    closed spec fn view(&self) -> GameState {
        GameState {
            cells: Seq::new(3, |row: int| Seq::new(3, |col: int| self.board[row][col])),
            turn: self.current_turn,
            winner: self.winner,
        }
    }
}

impl Clone for Board {
    /// A second board in the same state.
    fn clone(&self) -> (b: Board)
        ensures
            b == *self,
    {
        Board { winner: self.winner, current_turn: self.current_turn, board: self.board }
    }
}

impl Board {
    /// The cells of every board are three rows of three.
    pub proof fn lemma_shape(&self)
        ensures
            is_grid(self@.cells),
    {
    }

    /// A board on which a new game starts.
    pub fn create() -> (b: Board)
        ensures
            b@ == GameState::initial(),
            b@.consistent(),
    {
        let b = Board {
            winner: None,
            current_turn: PlayerTurn::X,
            board: [
                [TileState::Empty, TileState::Empty, TileState::Empty],
                [TileState::Empty, TileState::Empty, TileState::Empty],
                [TileState::Empty, TileState::Empty, TileState::Empty],
            ],
        };
        proof {
            assert(b@.cells =~~= GameState::initial().cells);
            lemma_initial_consistent();
        }
        b
    }

    /// Starts a new game, whatever the state of the old one.
    pub fn reset(&mut self)
        ensures
            final(self)@ == GameState::initial(),
            final(self)@.consistent(),
    {
        self.board = [
            [TileState::Empty, TileState::Empty, TileState::Empty],
            [TileState::Empty, TileState::Empty, TileState::Empty],
            [TileState::Empty, TileState::Empty, TileState::Empty],
        ];
        self.winner = None;
        self.current_turn = PlayerTurn::X;
        proof {
            assert(self@.cells =~~= GameState::initial().cells);
            lemma_initial_consistent();
        }
    }

    /// Judges the board for the player whose turn it is: a line of that
    /// player's marks is a win, a full board without one a draw, and
    /// anything else leaves the game open. The other player's lines are not
    /// looked at.
    pub fn check_win(&self) -> (end: Option<EndType>)
        ensures
            end == outcome(self@.cells, self@.turn),
    {
        let p = self.current_turn.mark();
        let end_type = self.current_turn.win();
        let ghost g = self@.cells;
        proof {
            lemma_has_line_cases(g, p);
        }

        for i in 0..3usize
            invariant
                g == self@.cells,
                p == self@.turn.tile(),
                end_type == self@.turn.victory(),
                forall|j: int| 0 <= j < i ==> !#[trigger] line_filled(g, j, p),
                forall|j: int| 0 <= j < i ==> !#[trigger] line_filled(g, 3 + j, p),
        {
            if self.board[i][0] == p && self.board[i][1] == p && self.board[i][2] == p {
                assert(line_filled(g, i as int, p));
                return Some(end_type);
            }
            if self.board[0][i] == p && self.board[1][i] == p && self.board[2][i] == p {
                assert(line_filled(g, 3 + i, p));
                return Some(end_type);
            }
        }

        if self.board[0][0] == p && self.board[1][1] == p && self.board[2][2] == p {
            assert(line_filled(g, 6, p));
            return Some(end_type);
        }
        if self.board[2][0] == p && self.board[1][1] == p && self.board[0][2] == p {
            assert(line_filled(g, 7, p));
            return Some(end_type);
        }
        assert(!has_line(g, p)) by {
            assert(!line_filled(g, 0, p) && !line_filled(g, 1, p) && !line_filled(g, 2, p));
            assert(!line_filled(g, 3 + 0int, p) && !line_filled(g, 3 + 1int, p) && !line_filled(
                g,
                3 + 2int,
                p,
            ));
            assert(!line_filled(g, 6, p) && !line_filled(g, 7, p));
        }

        let mut no_more_turns = true;
        for row in 0..3usize
            invariant
                g == self@.cells,
                no_more_turns <==> forall|r: int, c: int|
                    0 <= r < row && 0 <= c < 3 ==> #[trigger] g[r][c] != TileState::Empty,
        {
            for col in 0..3usize
                invariant
                    row < 3,
                    g == self@.cells,
                    no_more_turns <==> {
                        &&& forall|r: int, c: int|
                            0 <= r < row && 0 <= c < 3 ==> #[trigger] g[r][c] != TileState::Empty
                        &&& forall|c: int|
                            0 <= c < col ==> #[trigger] g[row as int][c] != TileState::Empty
                    },
            {
                if self.board[row][col] == TileState::Empty {
                    assert(g[row as int][col as int] == TileState::Empty);
                    no_more_turns = false;
                }
            }
        }
        assert(no_more_turns <==> is_full(g));

        if no_more_turns {
            return Some(EndType::Draw);
        }
        None
    }

    /// Handles a click on the cell at `row`, `col`, both counted from zero.
    ///
    /// On an empty cell of an open game the click places the mark of the
    /// player to move, the game is judged for that player, and the turn
    /// passes. On a marked cell, or on any cell once the game has ended, it
    /// starts a new game. Either way the board has changed and `Ok(true)`
    /// asks for it to be drawn again. A click outside the board is refused
    /// and changes nothing. A consistent game stays consistent.
    pub fn activate(&mut self, row: usize, col: usize) -> (res: Result<bool, PreconditionViolation>)
        ensures
            res is Ok <==> in_range(row as int, col as int),
            res is Ok ==> res == Ok::<bool, PreconditionViolation>(true) && final(self)@ == old(
                self,
            )@.click(row as int, col as int),
            res is Ok && !old(self)@.accepts(row as int, col as int) ==> final(self)@
                == GameState::initial(),
            res is Ok && old(self)@.accepts(row as int, col as int) ==> final(self)@.turn == old(
                self,
            )@.turn.opponent(),
            res is Err ==> res == Err::<bool, PreconditionViolation>(
                PreconditionViolation { row, col },
            ) && final(self)@ == old(self)@,
            old(self)@.consistent() ==> final(self)@.consistent(),
    {
        if row >= 3 || col >= 3 {
            return Err(PreconditionViolation { row, col });
        }
        proof {
            if self@.consistent() {
                lemma_click_consistent(self@, row as int, col as int);
            }
        }
        if self.board[row][col] != TileState::Empty || self.winner.is_some() {
            self.reset();
            Ok(true)
        } else {
            self.board[row][col] = self.current_turn.mark();
            proof {
                assert(self@.cells =~~= place(
                    old(self)@.cells,
                    row as int,
                    col as int,
                    old(self)@.turn.tile(),
                ));
            }
            self.winner = self.check_win();
            self.current_turn = self.current_turn.other();
            Ok(true)
        }
    }

    /// Handles one message: a click as `activate` does, a reset as `reset`
    /// does. `Ok(true)` asks for the board to be drawn again; a click
    /// outside the board is refused and changes nothing. A consistent game
    /// stays consistent.
    pub fn update(&mut self, msg: BoardMsg) -> (res: Result<bool, PreconditionViolation>)
        ensures
            res is Ok <==> msg.valid(),
            res is Ok ==> res == Ok::<bool, PreconditionViolation>(true) && final(self)@ == old(
                self,
            )@.apply(msg),
            msg == BoardMsg::Reset ==> final(self)@ == GameState::initial(),
            msg matches BoardMsg::TileClicked(row, col) && in_range(row as int, col as int) && !old(
                self,
            )@.accepts(row as int, col as int) ==> final(self)@ == GameState::initial(),
            res is Err ==> final(self)@ == old(self)@ && (msg matches BoardMsg::TileClicked(
                row,
                col,
            ) && res == Err::<bool, PreconditionViolation>(PreconditionViolation { row, col })),
            old(self)@.consistent() ==> final(self)@.consistent(),
    {
        match msg {
            BoardMsg::TileClicked(row, col) => self.activate(row, col),
            BoardMsg::Reset => {
                self.reset();
                Ok(true)
            },
        }
    }

    /// What the cell at `row`, `col` holds, or `None` where the board has no
    /// such cell.
    pub fn tile(&self, row: usize, col: usize) -> (t: Option<TileState>)
        ensures
            t == (if in_range(row as int, col as int) {
                Some(self@.cells[row as int][col as int])
            } else {
                None
            }),
    {
        if row < 3 && col < 3 {
            Some(self.board[row][col])
        } else {
            None
        }
    }

    /// How the game ended, or `None` while it is open.
    pub fn winner(&self) -> (w: Option<EndType>)
        ensures
            w == self@.winner,
    {
        self.winner
    }

    /// The player to move.
    pub fn current_turn(&self) -> (p: PlayerTurn)
        ensures
            p == self@.turn,
    {
        self.current_turn
    }
}

} // verus!
