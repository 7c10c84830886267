//! The marks on the board, the two players and the ways a game ends.

use vstd::prelude::*;

verus! {

/// What one cell of the board holds.
#[derive(Debug, Clone, Copy, PartialEq, Eq, Hash, Structural)]
pub enum TileState {
    Empty,
    X,
    O,
}

impl TileState {
    /// The character shown for a cell: a blank for an empty one, the
    /// player's letter for a marked one.
    pub open spec fn glyph(self) -> char {
        match self {
            TileState::Empty => ' ',
            TileState::X => 'X',
            TileState::O => 'O',
        }
    }

    #[verifier::when_used_as_spec(glyph)]
    pub fn to_ch(self) -> (c: char)
        ensures
            c == self.glyph(),
    {
        match self {
            TileState::Empty => ' ',
            TileState::X => 'X',
            TileState::O => 'O',
        }
    }
}

/// The player whose turn it is. `X` moves first.
#[derive(Debug, Clone, Copy, PartialEq, Eq, Hash, Structural)]
pub enum PlayerTurn {
    X,
    O,
}

/// How a finished game ended.
#[derive(Debug, Clone, Copy, PartialEq, Eq, Hash, Structural)]
pub enum EndType {
    XWin,
    OWin,
    Draw,
}

impl PlayerTurn {
    /// The opponent of `self`.
    pub open spec fn opponent(self) -> PlayerTurn {
        match self {
            PlayerTurn::X => PlayerTurn::O,
            PlayerTurn::O => PlayerTurn::X,
        }
    }

    /// The mark that `self` places on the board.
    pub open spec fn tile(self) -> TileState {
        match self {
            PlayerTurn::X => TileState::X,
            PlayerTurn::O => TileState::O,
        }
    }

    /// The ending in which `self` has won.
    pub open spec fn victory(self) -> EndType {
        match self {
            PlayerTurn::X => EndType::XWin,
            PlayerTurn::O => EndType::OWin,
        }
    }

    /// The other player. Passing the turn twice gives it back.
    #[verifier::when_used_as_spec(opponent)]
    pub fn other(self) -> (p: PlayerTurn)
        ensures
            p == self.opponent(),
            p != self,
            p.opponent() == self,
    {
        match self {
            PlayerTurn::O => PlayerTurn::X,
            PlayerTurn::X => PlayerTurn::O,
        }
    }

    /// The mark of this player. It is never `Empty`, and the two players'
    /// marks differ.
    #[verifier::when_used_as_spec(tile)]
    pub fn mark(self) -> (t: TileState)
        ensures
            t == self.tile(),
            t != TileState::Empty,
            t != self.opponent().tile(),
    {
        match self {
            PlayerTurn::X => TileState::X,
            PlayerTurn::O => TileState::O,
        }
    }

    /// The ending that a completed line of this player's marks gives.
    #[verifier::when_used_as_spec(victory)]
    pub fn win(self) -> (e: EndType)
        ensures
            e == self.victory(),
            e != EndType::Draw,
            e != self.opponent().victory(),
    {
        match self {
            PlayerTurn::X => EndType::XWin,
            PlayerTurn::O => EndType::OWin,
        }
    }
}

} // verus!
