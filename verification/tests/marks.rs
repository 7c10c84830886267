use tictactoe::{EndType, PlayerTurn, TileState};

#[test]
fn empty_tile_shows_as_blank() {
    assert_eq!(TileState::Empty.to_ch(), ' ');
}

#[test]
fn marked_tiles_show_their_letter() {
    assert_eq!(TileState::X.to_ch(), 'X');
    assert_eq!(TileState::O.to_ch(), 'O');
}

#[test]
fn other_player_of_x_is_o() {
    assert_eq!(PlayerTurn::X.other(), PlayerTurn::O);
}

#[test]
fn other_player_of_o_is_x() {
    assert_eq!(PlayerTurn::O.other(), PlayerTurn::X);
}

#[test]
fn passing_the_turn_twice_gives_it_back() {
    assert_eq!(PlayerTurn::X.other().other(), PlayerTurn::X);
    assert_eq!(PlayerTurn::O.other().other(), PlayerTurn::O);
}

#[test]
fn each_player_places_their_own_mark() {
    assert_eq!(PlayerTurn::X.mark(), TileState::X);
    assert_eq!(PlayerTurn::O.mark(), TileState::O);
    assert_ne!(PlayerTurn::X.mark(), TileState::Empty);
    assert_ne!(PlayerTurn::O.mark(), TileState::Empty);
}

#[test]
fn each_player_wins_in_their_own_name() {
    assert_eq!(PlayerTurn::X.win(), EndType::XWin);
    assert_eq!(PlayerTurn::O.win(), EndType::OWin);
}
