use tictactoe::board::Board;
use tictactoe::coordinate::Coordinate;
use tictactoe::errors::TttError;

fn at(y: i8, x: i8) -> Coordinate<i8> {
    Coordinate::new(y, x)
}

fn board_with(first: &[(i8, i8)], second: &[(i8, i8)]) -> Board {
    let mut board = Board::new();
    for &(y, x) in first {
        board.update(1, at(y, x)).unwrap();
    }
    for &(y, x) in second {
        board.update(2, at(y, x)).unwrap();
    }
    board
}

fn claimed(board: &Board) -> usize {
    board.render().iter().filter(|mark| **mark != " ").count()
}

#[test]
fn new_board_is_empty() {
    let board = Board::new();
    assert_eq!(board.render(), vec![" "; 9]);
    assert!(!board.is_full().unwrap());
    assert!(!board.check_win(1).unwrap());
    assert!(!board.check_win(2).unwrap());
    assert!(matches!(board.get_name(1), Err(TttError::NoPlayer(1))));
}

#[test]
fn default_board_is_a_new_board() {
    let board = Board::default();
    assert_eq!(board.render(), vec![" "; 9]);
    assert!(!board.is_full().unwrap());
    assert!(board.check_win(0).unwrap());
}

#[test]
fn update_gives_the_cell_to_the_player() {
    let mut board = Board::new();
    assert!(board.update(1, at(0, 0)).is_ok());
    assert!(board.update(2, at(1, 2)).is_ok());
    assert_eq!(board.get_coord(0, 0).unwrap(), "X");
    assert_eq!(board.get_coord(1, 2).unwrap(), "O");
    assert_eq!(board.get_coord(2, 2).unwrap(), " ");
    assert_eq!(
        board.render(),
        vec!["X", " ", " ", " ", " ", "O", " ", " ", " "]
    );
}

#[test]
fn every_cell_has_one_owner_after_each_move() {
    let mut board = Board::new();
    let moves = [
        (1, 0, 0),
        (2, 0, 1),
        (1, 0, 2),
        (2, 1, 1),
        (1, 1, 0),
        (2, 1, 2),
        (1, 2, 1),
        (2, 2, 0),
        (1, 2, 2),
    ];
    let mut expected: Vec<&str> = vec![" "; 9];
    for (count, &(player, y, x)) in moves.iter().enumerate() {
        board.update(player, at(y, x)).unwrap();
        expected[(y * 3 + x) as usize] = if player == 1 { "X" } else { "O" };
        assert_eq!(board.render(), expected);
        assert_eq!(claimed(&board), count + 1);
    }
}

#[test]
fn update_refuses_a_claimed_cell_and_changes_nothing() {
    let mut board = board_with(&[(0, 0)], &[(1, 1)]);
    let before = board.render();
    for player in [0u8, 1, 2, 3, 255] {
        assert!(matches!(
            board.update(player, at(0, 0)),
            Err(TttError::UsedSpace(c)) if c == at(0, 0)
        ));
        assert!(matches!(
            board.update(player, at(1, 1)),
            Err(TttError::UsedSpace(c)) if c == at(1, 1)
        ));
        assert_eq!(board.render(), before);
    }
    assert!(!board.is_full().unwrap());
}

#[test]
fn update_refuses_a_place_off_the_board() {
    let mut board = Board::new();
    for (y, x) in [(3, 0), (0, 3), (-1, 0), (0, -1), (5, 5), (-128, 127)] {
        assert!(matches!(
            board.update(1, at(y, x)),
            Err(TttError::UsedSpace(c)) if c == at(y, x)
        ));
    }
    assert_eq!(board.render(), vec![" "; 9]);
}

#[test]
fn update_refuses_an_unknown_player_and_changes_nothing() {
    let mut board = Board::new();
    assert!(matches!(board.update(0, at(1, 1)), Err(TttError::NoPlayer(0))));
    assert!(matches!(board.update(3, at(1, 1)), Err(TttError::NoPlayer(3))));
    assert!(matches!(board.update(255, at(1, 1)), Err(TttError::NoPlayer(255))));
    assert_eq!(board.render(), vec![" "; 9]);
    assert!(board.update(1, at(1, 1)).is_ok());
    assert_eq!(board.get_coord(1, 1).unwrap(), "X");
}

#[test]
fn each_row_wins() {
    for y in 0..3 {
        let board = board_with(&[(y, 0), (y, 1), (y, 2)], &[]);
        assert!(board.check_win(1).unwrap());
        assert!(!board.check_win(2).unwrap());
    }
}

#[test]
fn each_column_wins() {
    for x in 0..3 {
        let board = board_with(&[], &[(0, x), (1, x), (2, x)]);
        assert!(board.check_win(2).unwrap());
        assert!(!board.check_win(1).unwrap());
    }
}

#[test]
fn both_diagonals_win() {
    let board = board_with(&[(0, 0), (1, 1), (2, 2)], &[]);
    assert!(board.check_win(1).unwrap());
    let board = board_with(&[(2, 0), (1, 1), (0, 2)], &[]);
    assert!(board.check_win(1).unwrap());
}

#[test]
fn a_line_wins_in_whatever_order_it_was_taken() {
    let board = board_with(&[(2, 2), (0, 0), (1, 1)], &[(0, 1)]);
    assert!(board.check_win(1).unwrap());
    let board = board_with(&[(0, 1)], &[(1, 2), (1, 0), (1, 1)]);
    assert!(board.check_win(2).unwrap());
}

#[test]
fn two_in_a_line_do_not_win() {
    let board = board_with(&[(0, 0), (0, 1), (1, 2), (2, 0)], &[(0, 2), (1, 0), (1, 1)]);
    assert!(!board.check_win(1).unwrap());
    assert!(!board.check_win(2).unwrap());
}

#[test]
fn a_line_shared_between_the_players_wins_for_neither() {
    let board = board_with(&[(0, 0), (0, 1)], &[(0, 2)]);
    assert!(!board.check_win(1).unwrap());
    assert!(!board.check_win(2).unwrap());
}

#[test]
fn check_win_knows_three_owners() {
    let board = board_with(&[(0, 0)], &[(1, 1)]);
    assert!(board.check_win(0).unwrap());
    assert!(matches!(board.check_win(3), Err(TttError::NoPlayer(3))));
    assert!(matches!(board.check_win(255), Err(TttError::NoPlayer(255))));
    let board = board_with(&[(0, 0), (1, 1), (2, 2)], &[(0, 2), (2, 0), (0, 1), (1, 0)]);
    assert!(!board.check_win(0).unwrap());
}

#[test]
fn board_is_full_when_nine_cells_are_claimed() {
    let mut board = Board::new();
    let cells = [
        (1, 0, 0),
        (2, 0, 1),
        (1, 0, 2),
        (2, 1, 1),
        (1, 1, 0),
        (2, 1, 2),
        (1, 2, 1),
        (2, 2, 0),
    ];
    for &(player, y, x) in cells.iter() {
        assert!(!board.is_full().unwrap());
        board.update(player, at(y, x)).unwrap();
    }
    assert_eq!(claimed(&board), 8);
    assert!(!board.is_full().unwrap());
    board.update(1, at(2, 2)).unwrap();
    assert_eq!(claimed(&board), 9);
    assert!(board.is_full().unwrap());
    assert!(!board.check_win(1).unwrap());
    assert!(!board.check_win(2).unwrap());
}

#[test]
fn names_are_kept_by_player_id() {
    let mut board = Board::new();
    board.set_name(1, String::from("Ann"));
    board.set_name(2, String::from("Bob"));
    assert_eq!(board.get_name(1).unwrap(), "Ann");
    assert_eq!(board.get_name(2).unwrap(), "Bob");
    assert!(matches!(board.get_name(0), Err(TttError::NoPlayer(0))));
    assert!(matches!(board.get_name(3), Err(TttError::NoPlayer(3))));
    board.set_name(1, String::from("Cy"));
    assert_eq!(board.get_name(1).unwrap(), "Cy");
    assert_eq!(board.render(), vec![" "; 9]);
}

#[test]
fn marks_outside_the_board_are_blank() {
    let board = board_with(&[(0, 0)], &[(2, 2)]);
    assert_eq!(board.get_coord(3, 3).unwrap(), " ");
    assert_eq!(board.get_coord(-1, 0).unwrap(), " ");
}

fn drawing(marks: [[char; 3]; 3]) -> String {
    let mut text = String::from("     a b c\n");
    text += &format!(
        "    {}{}{}{}{}{}{}\n",
        '\u{2554}', '\u{2550}', '\u{2564}', '\u{2550}', '\u{2564}', '\u{2550}', '\u{2557}'
    );
    for (y, row) in marks.iter().enumerate() {
        text += &format!(
            "   {}{}{}{}{}{}{}{}\n",
            y + 1,
            '\u{2551}',
            row[0],
            '\u{2502}',
            row[1],
            '\u{2502}',
            row[2],
            '\u{2551}'
        );
        if y < 2 {
            text += &format!(
                "    {}{}{}{}{}{}{}\n",
                '\u{255F}', '\u{2500}', '\u{253C}', '\u{2500}', '\u{253C}', '\u{2500}', '\u{2562}'
            );
        }
    }
    text += &format!(
        "    {}{}{}{}{}{}{}\n",
        '\u{255A}', '\u{2550}', '\u{2567}', '\u{2550}', '\u{2567}', '\u{2550}', '\u{255D}'
    );
    text
}

#[test]
fn display_draws_an_empty_board() {
    let board = Board::new();
    assert_eq!(board.display().unwrap(), drawing([[' '; 3]; 3]));
    assert_eq!(board.display().unwrap().lines().count(), 8);
}

#[test]
fn display_draws_the_marks_in_their_cells() {
    let board = board_with(&[(0, 0), (1, 1), (2, 1)], &[(0, 2), (2, 0)]);
    assert_eq!(
        board.display().unwrap(),
        drawing([['X', ' ', 'O'], [' ', 'X', ' '], ['O', 'X', ' ']])
    );
}

#[test]
fn clone_is_a_board_of_its_own() {
    let mut board = board_with(&[(0, 0)], &[(1, 1)]);
    board.set_name(1, String::from("Ann"));
    let mut copy = board.clone();
    assert_eq!(copy.render(), board.render());
    assert_eq!(copy.get_name(1).unwrap(), "Ann");
    copy.update(1, at(0, 1)).unwrap();
    copy.update(1, at(0, 2)).unwrap();
    assert!(copy.check_win(1).unwrap());
    assert!(!board.check_win(1).unwrap());
    assert_eq!(board.get_coord(0, 1).unwrap(), " ");
}
