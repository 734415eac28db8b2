use tictactoe::coordinate::Coordinate;
use tictactoe::errors::TttError;

#[test]
fn invalid_entry_quotes_the_entry() {
    let error = TttError::InvalidEntry(String::from("d1"));
    assert_eq!(error.message(), "Entry \"d1\" is not a valid input.");
}

#[test]
fn used_space_names_the_cell() {
    let error = TttError::UsedSpace(Coordinate::new(0, 2));
    assert_eq!(error.message(), "Coord \"(y=0, x=2)\" has already been used.");
}

#[test]
fn duplicate_entry_names_the_cell() {
    let error = TttError::DuplicateEntry(Coordinate::new(1, 1));
    assert_eq!(
        error.message(),
        "Fatal Logic Error.  Coord (y=1, x=1) was duplicated.  Debug required"
    );
}

#[test]
fn no_player_names_the_id() {
    assert_eq!(TttError::NoPlayer(3).message(), "No player with id 3");
    assert_eq!(TttError::NoPlayer(0).message(), "No player with id 0");
    assert_eq!(TttError::NoPlayer(255).message(), "No player with id 255");
}

#[test]
fn states_over_says_game_over() {
    assert_eq!(TttError::StatesOver.message(), "Game over\n");
}

#[test]
fn clone_keeps_the_variant_and_what_it_holds() {
    let error = TttError::InvalidEntry(String::from("zz"));
    assert!(matches!(error.clone(), TttError::InvalidEntry(text) if text == "zz"));
    let error = TttError::UsedSpace(Coordinate::new(2, 1));
    assert!(matches!(error.clone(), TttError::UsedSpace(c) if c == Coordinate::new(2, 1)));
    let error = TttError::DuplicateEntry(Coordinate::new(2, 1));
    assert!(matches!(error.clone(), TttError::DuplicateEntry(c) if c == Coordinate::new(2, 1)));
    assert!(matches!(TttError::NoPlayer(9).clone(), TttError::NoPlayer(9)));
    assert!(matches!(TttError::StatesOver.clone(), TttError::StatesOver));
}
