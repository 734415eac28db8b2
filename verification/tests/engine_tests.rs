use tictactoe::action::Action;
use tictactoe::engine::GameEngine;
use tictactoe::errors::TttError;
use tictactoe::game_states::{GameEnterInfo, GamePlayerWin, GameStage};
use tictactoe::player_move_states::MoveState;

/// Drives the engine as a console would, with `lines` for what the players type.
/// Stops when the match is over or the lines have run out, and says what was shown.
fn play(engine: &mut GameEngine, lines: &[&str]) -> (bool, Vec<String>) {
    let mut shown = Vec::new();
    let mut read = 0;
    loop {
        let line = match engine.action().unwrap() {
            Action::Ask(text) => {
                if read == lines.len() {
                    return (false, shown);
                }
                shown.push(text);
                read += 1;
                lines[read - 1]
            },
            Action::Show(text) => {
                shown.push(text);
                ""
            },
            Action::Proceed => "",
        };
        if !engine.step(line).unwrap() {
            return (true, shown);
        }
    }
}

#[test]
fn a_match_begins_with_the_name_of_player_one() {
    let engine = GameEngine::new();
    assert!(matches!(&engine.state, GameStage::EnterInfo(GameEnterInfo { player_id: 1 })));
    assert_eq!(engine.board.render(), vec![" "; 9]);
    match engine.action() {
        Ok(Action::Ask(text)) => assert_eq!(text, "Player 1: Please enter your name:"),
        other => panic!("{:?}", other),
    }
}

#[test]
fn both_names_are_taken_before_the_first_turn() {
    let mut engine = GameEngine::new();
    assert!(engine.step("Ann\n").unwrap());
    assert!(matches!(&engine.state, GameStage::EnterInfo(GameEnterInfo { player_id: 2 })));
    assert!(engine.step(" Bob \n").unwrap());
    assert_eq!(engine.board.get_name(1).unwrap(), "Ann");
    assert_eq!(engine.board.get_name(2).unwrap(), "Bob");
    match &engine.state {
        GameStage::PlayerMove(turn) => {
            assert_eq!(turn.player_id, 1);
            assert!(matches!(&turn.state, MoveState::Request(request) if request.player_id == 1));
        },
        other => panic!("{:?}", other),
    }
}

#[test]
fn three_in_the_first_column_win_for_player_one() {
    let mut engine = GameEngine::new();
    let (over, _) = play(&mut engine, &["Ann\n", "Bob\n", "a1\n", "b1\n", "a2\n", "b2\n"]);
    assert!(!over);
    assert!(!engine.board.check_win(1).unwrap());
    assert!(matches!(&engine.state, GameStage::PlayerMove(turn) if turn.player_id == 1));

    let (over, shown) = play(&mut engine, &["a3\n"]);
    assert!(over);
    assert!(engine.board.check_win(1).unwrap());
    assert!(!engine.board.check_win(2).unwrap());
    assert!(matches!(&engine.state, GameStage::PlayerWin(GamePlayerWin { player_id: 1 })));
    assert_eq!(
        engine.board.render(),
        vec!["X", "O", " ", "X", "O", " ", "X", " ", " "]
    );
    assert_eq!(shown.len(), 2);
    assert_eq!(
        shown[1],
        format!(
            "\n\nP1: Ann is the winner!\nThe final board state is:\n\n{}",
            engine.board.display().unwrap()
        )
    );
}

#[test]
fn the_state_after_the_winning_move_is_the_win() {
    let mut engine = GameEngine::new();
    play(&mut engine, &["Ann", "Bob", "a1", "c1", "a2", "c3"]);
    assert!(engine.step("a3").unwrap());
    assert!(engine.step("").unwrap());
    assert!(matches!(&engine.state, GameStage::PlayerMove(turn) if turn.player_id == 1));
    assert!(engine.step("").unwrap());
    assert!(engine.board.check_win(1).unwrap());
    assert!(matches!(&engine.state, GameStage::PlayerWin(GamePlayerWin { player_id: 1 })));
    assert!(!engine.step("").unwrap());
    assert!(matches!(&engine.state, GameStage::PlayerWin(GamePlayerWin { player_id: 1 })));
}

#[test]
fn player_two_can_win_too() {
    let mut engine = GameEngine::new();
    let (over, _) = play(&mut engine, &["Ann", "Bob", "a1", "b2", "a2", "a3", "c3", "c1"]);
    assert!(over);
    assert!(engine.board.check_win(2).unwrap());
    assert!(!engine.board.check_win(1).unwrap());
    assert!(matches!(&engine.state, GameStage::PlayerWin(GamePlayerWin { player_id: 2 })));
}

#[test]
fn nine_moves_without_a_line_end_in_a_draw() {
    let mut engine = GameEngine::new();
    let lines = ["Ann", "Bob", "a1", "b1", "c1", "b2", "a2", "c2", "b3", "a3", "c3"];
    let (over, shown) = play(&mut engine, &lines);
    assert!(over);
    assert!(engine.board.is_full().unwrap());
    assert!(!engine.board.check_win(1).unwrap());
    assert!(!engine.board.check_win(2).unwrap());
    assert!(matches!(&engine.state, GameStage::PlayerDraw(_)));
    assert_eq!(
        engine.board.render(),
        vec!["X", "O", "X", "X", "O", "O", "O", "X", "X"]
    );
    assert_eq!(
        shown[shown.len() - 1],
        format!(
            "\n\nThe game ended in a draw!\nThe final board state is:\n\n{}",
            engine.board.display().unwrap()
        )
    );
}

#[test]
fn a_ninth_move_that_completes_a_line_is_a_win() {
    let mut engine = GameEngine::new();
    let lines = ["Ann", "Bob", "a1", "b1", "b2", "a2", "c1", "a3", "b3", "c2", "c3"];
    let (over, _) = play(&mut engine, &lines);
    assert!(over);
    assert!(engine.board.is_full().unwrap());
    assert!(matches!(&engine.state, GameStage::PlayerWin(GamePlayerWin { player_id: 1 })));
}

#[test]
fn refused_entries_keep_the_turn_with_the_same_player() {
    let mut engine = GameEngine::new();
    let lines = ["Ann", "Bob", "a1", "a1", "zz", "", "A1", "b2"];
    let (over, shown) = play(&mut engine, &lines);
    assert!(!over);
    assert_eq!(engine.board.render(), vec!["X", " ", " ", " ", "O", " ", " ", " ", " "]);
    assert!(matches!(&engine.state, GameStage::PlayerMove(turn) if turn.player_id == 1));
    assert_eq!(
        shown[4],
        "P2: Coord \"(y=0, x=0)\" has already been used. Bob, please enter a valid space: "
    );
    assert_eq!(
        shown[5],
        "P2: Entry \"zz\" is not a valid input. Bob, please enter a valid space: "
    );
    assert_eq!(shown[6], "P2: Entry \"\" is not a valid input. Bob, please enter a valid space: ");
    assert_eq!(
        shown[7],
        "P2: Coord \"(y=0, x=0)\" has already been used. Bob, please enter a valid space: "
    );
}

#[test]
fn the_same_cell_twice_then_another_completes_the_turn() {
    let mut engine = GameEngine::new();
    play(&mut engine, &["Ann", "Bob", "a1", "c3"]);
    for _ in 0..2 {
        assert!(engine.step("a1").unwrap());
        assert!(engine.step("").unwrap());
        assert!(engine.step("").unwrap());
        match &engine.state {
            GameStage::PlayerMove(turn) => {
                assert_eq!(turn.player_id, 1);
                assert!(matches!(
                    &turn.state,
                    MoveState::ReRequest(again)
                        if matches!(again.input_err, TttError::UsedSpace(c) if c.y == 0 && c.x == 0)
                ));
            },
            other => panic!("{:?}", other),
        }
    }
    assert!(engine.step("b1").unwrap());
    assert!(engine.step("").unwrap());
    assert!(engine.step("").unwrap());
    assert!(matches!(
        &engine.state,
        GameStage::PlayerMove(turn)
            if turn.player_id == 2 && matches!(turn.state, MoveState::Request(_))
    ));
    assert_eq!(engine.board.render(), vec!["X", "X", " ", " ", " ", " ", " ", " ", "O"]);
}

#[test]
fn a_failing_step_leaves_the_state_in_place() {
    let mut engine = GameEngine::new();
    engine.state = GameStage::PlayerWin(GamePlayerWin::new(2));
    assert!(matches!(engine.action(), Err(TttError::NoPlayer(2))));
    assert!(matches!(engine.step(""), Err(TttError::NoPlayer(2))));
    assert!(matches!(&engine.state, GameStage::PlayerWin(GamePlayerWin { player_id: 2 })));
}
