use tictactoe::{Board, BoardMsg, EndType, PlayerTurn, TileState};

fn click_all(board: &mut Board, cells: &[(usize, usize)]) {
    for &(row, col) in cells {
        assert_eq!(board.update(BoardMsg::TileClicked(row, col)), Ok(true));
    }
}

fn assert_new_game(board: &Board) {
    for row in 0..3 {
        for col in 0..3 {
            assert_eq!(board.tile(row, col), Some(TileState::Empty));
        }
    }
    assert_eq!(board.current_turn(), PlayerTurn::X);
    assert_eq!(board.winner(), None);
    assert_eq!(*board, Board::create());
}

#[test]
fn reset_of_a_new_game_changes_nothing() {
    let mut board = Board::create();
    board.reset();
    assert_new_game(&board);
}

#[test]
fn reset_in_mid_game_gives_a_new_game() {
    let mut board = Board::create();
    click_all(&mut board, &[(0, 0), (1, 1), (2, 2)]);
    board.reset();
    assert_new_game(&board);
}

#[test]
fn reset_of_a_won_game_gives_a_new_game() {
    let mut board = Board::create();
    click_all(&mut board, &[(0, 0), (1, 1), (0, 1), (1, 0), (0, 2)]);
    assert_eq!(board.winner(), Some(EndType::XWin));
    board.reset();
    assert_new_game(&board);
}

#[test]
fn reset_of_a_drawn_game_gives_a_new_game() {
    let mut board = Board::create();
    click_all(
        &mut board,
        &[(0, 0), (0, 1), (0, 2), (1, 1), (1, 0), (1, 2), (2, 1), (2, 0), (2, 2)],
    );
    assert_eq!(board.winner(), Some(EndType::Draw));
    board.reset();
    assert_new_game(&board);
}

#[test]
fn reset_twice_is_reset_once() {
    let mut board = Board::create();
    click_all(&mut board, &[(1, 1), (0, 0)]);
    board.reset();
    let once = board.clone();
    board.reset();
    assert_eq!(board, once);
    assert_new_game(&board);
}

#[test]
fn reset_message_gives_a_new_game_and_asks_for_a_redraw() {
    let mut board = Board::create();
    click_all(&mut board, &[(0, 0), (1, 1)]);
    assert_eq!(board.update(BoardMsg::Reset), Ok(true));
    assert_new_game(&board);
}

#[test]
fn click_on_own_mark_starts_a_new_game() {
    let mut board = Board::create();
    click_all(&mut board, &[(0, 0), (1, 1)]);
    // X clicks the cell that X marked.
    assert_eq!(board.update(BoardMsg::TileClicked(0, 0)), Ok(true));
    assert_new_game(&board);
}

#[test]
fn click_on_opponents_mark_starts_a_new_game() {
    let mut board = Board::create();
    click_all(&mut board, &[(0, 0)]);
    // O clicks the cell that X marked.
    assert_eq!(board.activate(0, 0), Ok(true));
    assert_new_game(&board);
}

#[test]
fn click_on_empty_cell_after_a_win_starts_a_new_game() {
    let mut board = Board::create();
    click_all(&mut board, &[(0, 0), (1, 1), (0, 1), (1, 0), (0, 2)]);
    assert_eq!(board.winner(), Some(EndType::XWin));
    assert_eq!(board.tile(2, 2), Some(TileState::Empty));
    assert_eq!(board.update(BoardMsg::TileClicked(2, 2)), Ok(true));
    assert_new_game(&board);
}

#[test]
fn click_on_marked_cell_after_a_win_starts_a_new_game() {
    let mut board = Board::create();
    click_all(&mut board, &[(0, 0), (1, 1), (0, 1), (1, 0), (0, 2)]);
    assert_eq!(board.update(BoardMsg::TileClicked(0, 0)), Ok(true));
    assert_new_game(&board);
}

#[test]
fn click_after_a_draw_starts_a_new_game() {
    let mut board = Board::create();
    click_all(
        &mut board,
        &[(0, 0), (0, 1), (0, 2), (1, 1), (1, 0), (1, 2), (2, 1), (2, 0), (2, 2)],
    );
    assert_eq!(board.winner(), Some(EndType::Draw));
    assert_eq!(board.update(BoardMsg::TileClicked(1, 1)), Ok(true));
    assert_new_game(&board);
}

#[test]
fn play_goes_on_after_a_restart() {
    let mut board = Board::create();
    click_all(&mut board, &[(0, 0), (0, 0), (1, 1)]);
    assert_eq!(board.tile(0, 0), Some(TileState::Empty));
    assert_eq!(board.tile(1, 1), Some(TileState::X));
    assert_eq!(board.current_turn(), PlayerTurn::O);
}
