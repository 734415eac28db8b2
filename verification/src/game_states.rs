//! The game state machine: the players register, take turns, and the match ends
//! with a winner or in a draw.

use vstd::prelude::*;
use vstd::string::StringExecFns;
use crate::action::{Action, ActionView};
use crate::board::{Board, BoardView};
use crate::errors::{outcome, ErrorView, TttError};
use crate::player_move_states::{MoveState, MoveStateView, PlayerMoveRequest, PlayerMoveState};
use crate::text::{numeral, numeral_text, trim, trimmed};

verus! {

/// How many players a match has.
pub const MAX_PLAYERS: u8 = 2;

/// Asks a player for a name and registers it.
#[derive(Debug)]
pub struct GameEnterInfo {
    pub player_id: u8,
}

/// One player's turn. It holds the state that the move-input machine has reached.
#[derive(Debug)]
pub struct GamePlayerMove {
    pub player_id: u8,
    pub state: MoveState,
}

/// The match is over and this player has won.
#[derive(Debug)]
pub struct GamePlayerWin {
    pub player_id: u8,
}

/// The match is over and nobody has won.
#[derive(Debug)]
pub struct GamePlayerDraw {}

/// A state of the game machine.
#[derive(Debug)]
pub enum GameStage {
    EnterInfo(GameEnterInfo),
    PlayerMove(GamePlayerMove),
    PlayerWin(GamePlayerWin),
    PlayerDraw(GamePlayerDraw),
}

/// A state of the game machine, its texts taken as sequences of characters.
pub enum GameStageView {
    EnterInfo { player_id: u8 },
    PlayerMove { player_id: u8, state: MoveStateView },
    PlayerWin { player_id: u8 },
    PlayerDraw,
}

/// What a player is shown when asked for a name.
pub open spec fn enter_info_text(player_id: u8) -> Seq<char> {
    "Player "@ + numeral(player_id as nat) + ": Please enter your name:"@
}

/// What is shown when a player has won.
pub open spec fn win_text(board: BoardView, player_id: u8, name: Seq<char>) -> Seq<char> {
    "\n\nP"@ + numeral(player_id as nat) + ": "@ + name
        + " is the winner!\nThe final board state is:\n\n"@ + board.display()
}

/// What is shown when the match ends in a draw.
pub open spec fn draw_text(board: BoardView) -> Seq<char> {
    "\n\nThe game ended in a draw!\nThe final board state is:\n\n"@ + board.display()
}

/// The player whose turn comes after that of `player_id`.
pub open spec fn next_player(player_id: u8) -> u8 {
    ((player_id % MAX_PLAYERS) + 1) as u8
}

impl GameStageView {
    /// The state in which a turn of `player_id` begins.
    pub open spec fn turn_of(player_id: u8) -> GameStageView {
        GameStageView::PlayerMove { player_id, state: MoveStateView::Request { player_id } }
    }

    /// What the driver has to do before the state runs.
    pub open spec fn action(self, board: BoardView) -> Result<ActionView, ErrorView> {
        match self {
            GameStageView::EnterInfo { player_id } => Ok(
                ActionView::Ask(enter_info_text(player_id)),
            ),
            GameStageView::PlayerMove { state, .. } => state.action(board),
            GameStageView::PlayerWin { player_id } => match board.get_name(player_id) {
                Ok(name) => Ok(ActionView::Show(win_text(board, player_id, name))),
                Err(error) => Err(error),
            },
            GameStageView::PlayerDraw => Ok(ActionView::Show(draw_text(board))),
        }
    }

    /// What the state does with the line that was read, and the board afterwards.
    /// `Ok(None)` says that the state has done its work and `next` is to be asked;
    /// `Ok(Some(..))` is the same turn, one step further.
    ///
    /// - `EnterInfo` registers the line, without the white space at its ends, as
    ///   the player's name.
    /// - `PlayerMove` makes one step of the move-input machine. Its end,
    ///   `StatesOver`, is the end of the turn; any other error is passed on.
    /// - `PlayerWin` needs the winner's name and fails with `NoPlayer` without it.
    /// - `PlayerDraw` has nothing to do.
    pub open spec fn run(self, board: BoardView, line: Seq<char>) -> (
        Result<Option<GameStageView>, ErrorView>,
        BoardView,
    ) {
        match self {
            GameStageView::EnterInfo { player_id } => (
                Ok(None),
                board.set_name(player_id, trim(line)),
            ),
            GameStageView::PlayerMove { player_id, state } => match state.run(board, line) {
                (Ok(state), after) => (
                    Ok(Some(GameStageView::PlayerMove { player_id, state })),
                    after,
                ),
                (Err(ErrorView::StatesOver), after) => (Ok(None), after),
                (Err(error), after) => (Err(error), after),
            },
            GameStageView::PlayerWin { player_id } => match board.get_name(player_id) {
                Ok(_) => (Ok(None), board),
                Err(error) => (Err(error), board),
            },
            GameStageView::PlayerDraw => (Ok(None), board),
        }
    }

    /// The transition table of the game machine.
    ///
    /// - After `EnterInfo` comes `EnterInfo` for the next player while there is
    ///   one, then the first turn of player 1.
    /// - After a turn the player who moved has won, if a winning line is theirs;
    ///   else the match is drawn, if the board is full; else the other player is
    ///   to move. The win is looked for first: the move that fills the board and
    ///   completes a line wins.
    /// - `PlayerWin` and `PlayerDraw` end the machine with `StatesOver`.
    pub open spec fn next(self, board: BoardView) -> Result<GameStageView, ErrorView> {
        match self {
            GameStageView::EnterInfo { player_id } => if player_id < MAX_PLAYERS {
                Ok(GameStageView::EnterInfo { player_id: (player_id + 1) as u8 })
            } else {
                Ok(GameStageView::turn_of(1))
            },
            GameStageView::PlayerMove { player_id, .. } => match board.check_win(player_id) {
                Err(error) => Err(error),
                Ok(true) => Ok(GameStageView::PlayerWin { player_id }),
                Ok(false) => if board.is_full() {
                    Ok(GameStageView::PlayerDraw)
                } else {
                    Ok(GameStageView::turn_of(next_player(player_id)))
                },
            },
            GameStageView::PlayerWin { .. } => Err(ErrorView::StatesOver),
            GameStageView::PlayerDraw => Err(ErrorView::StatesOver),
        }
    }
}

/// A win is looked for before a draw: whoever has a winning line after their move
/// has won, whether or not the board is full.
pub proof fn lemma_win_comes_before_draw(turn: GameStageView, board: BoardView)
    requires
        turn is PlayerMove,
        turn->PlayerMove_player_id <= 2,
    ensures
        board.has_line(turn->PlayerMove_player_id) <==> turn.next(board) == Ok::<
            GameStageView,
            ErrorView,
        >(GameStageView::PlayerWin { player_id: turn->PlayerMove_player_id }),
        !board.has_line(turn->PlayerMove_player_id) && board.is_full() <==> turn.next(board)
            == Ok::<GameStageView, ErrorView>(GameStageView::PlayerDraw),
{
}

impl View for GameEnterInfo {
    type V = GameStageView;

    open spec fn view(&self) -> GameStageView {
        GameStageView::EnterInfo { player_id: self.player_id }
    }
}

impl View for GamePlayerMove {
    type V = GameStageView;

    open spec fn view(&self) -> GameStageView {
        GameStageView::PlayerMove { player_id: self.player_id, state: self.state@ }
    }
}

impl View for GamePlayerWin {
    type V = GameStageView;

    open spec fn view(&self) -> GameStageView {
        GameStageView::PlayerWin { player_id: self.player_id }
    }
}

impl View for GamePlayerDraw {
    type V = GameStageView;

    open spec fn view(&self) -> GameStageView {
        GameStageView::PlayerDraw
    }
}

impl View for GameStage {
    type V = GameStageView;

    open spec fn view(&self) -> GameStageView {
        match self {
            GameStage::EnterInfo(state) => state@,
            GameStage::PlayerMove(state) => state@,
            GameStage::PlayerWin(state) => state@,
            GameStage::PlayerDraw(state) => state@,
        }
    }
}

impl DeepView for GameStage {
    type V = GameStageView;

    open spec fn deep_view(&self) -> GameStageView {
        self@
    }
}

/// A state of the game machine. The driver shows what `action` gives, reads a line
/// where it asks for one, and calls `run` with it until the state has done its
/// work; `next` then names the state that follows.
pub trait GameState: View<V = GameStageView> + Sized {
    fn action(&self, board: &Board) -> (result: Result<Action, TttError>)
        ensures
            outcome(result) == self@.action(board@),
    ;

    fn run(&self, board: &mut Board, line: &str) -> (result: Result<Option<GameStage>, TttError>)
        requires
            old(board).wf(),
        ensures
            final(board).wf(),
            (outcome(result), final(board)@) == self@.run(old(board)@, line@),
    ;

    fn next(&self, board: &Board) -> (result: Result<GameStage, TttError>)
        requires
            board.wf(),
        ensures
            outcome(result) == self@.next(board@),
    ;
}

impl GameEnterInfo {
    pub fn new(player_id: u8) -> (state: Self)
        ensures
            state.player_id == player_id,
    {
        Self { player_id }
    }
}

impl GamePlayerMove {
    /// The turn of `player_id`, at its beginning.
    pub fn new(player_id: u8) -> (state: Self)
        ensures
            state@ == GameStageView::turn_of(player_id),
    {
        Self { player_id, state: MoveState::Request(PlayerMoveRequest::new(player_id)) }
    }
}

impl GamePlayerWin {
    pub fn new(player_id: u8) -> (state: Self)
        ensures
            state.player_id == player_id,
    {
        Self { player_id }
    }
}

impl GamePlayerDraw {
    pub fn new() -> (state: Self) {
        Self {  }
    }
}

impl GameState for GameEnterInfo {
    fn action(&self, board: &Board) -> (result: Result<Action, TttError>) {
        let mut text = String::from_str("Player ");
        text.append(numeral_text(self.player_id).as_str());
        text.append(": Please enter your name:");
        Ok(Action::Ask(text))
    }

    fn run(&self, board: &mut Board, line: &str) -> (result: Result<Option<GameStage>, TttError>) {
        let name = trimmed(line);
        board.set_name(self.player_id, name);
        Ok(None)
    }

    fn next(&self, board: &Board) -> (result: Result<GameStage, TttError>) {
        if self.player_id < MAX_PLAYERS {
            Ok(GameStage::EnterInfo(GameEnterInfo::new(self.player_id + 1)))
        } else {
            Ok(GameStage::PlayerMove(GamePlayerMove::new(1)))
        }
    }
}

impl GameState for GamePlayerMove {
    fn action(&self, board: &Board) -> (result: Result<Action, TttError>) {
        self.state.action(board)
    }

    fn run(&self, board: &mut Board, line: &str) -> (result: Result<Option<GameStage>, TttError>) {
        match self.state.run(board, line) {
            Err(TttError::StatesOver) => Ok(None),
            Err(error) => Err(error),
            Ok(state) => Ok(
                Some(GameStage::PlayerMove(GamePlayerMove { player_id: self.player_id, state })),
            ),
        }
    }

    fn next(&self, board: &Board) -> (result: Result<GameStage, TttError>) {
        let next_id = (self.player_id % MAX_PLAYERS) + 1;
        let won = match board.check_win(self.player_id) {
            Ok(won) => won,
            Err(error) => {
                return Err(error);
            },
        };
        let full = match board.is_full() {
            Ok(full) => full,
            Err(error) => {
                return Err(error);
            },
        };
        match (won, full) {
            (true, _) => Ok(GameStage::PlayerWin(GamePlayerWin::new(self.player_id))),
            (false, true) => Ok(GameStage::PlayerDraw(GamePlayerDraw::new())),
            (false, false) => Ok(GameStage::PlayerMove(GamePlayerMove::new(next_id))),
        }
    }
}

impl GameState for GamePlayerWin {
    fn action(&self, board: &Board) -> (result: Result<Action, TttError>) {
        let name = match board.get_name(self.player_id) {
            Ok(name) => name,
            Err(error) => {
                return Err(error);
            },
        };
        let drawing = match board.display() {
            Ok(drawing) => drawing,
            Err(error) => {
                return Err(error);
            },
        };
        let mut text = String::from_str("\n\nP");
        text.append(numeral_text(self.player_id).as_str());
        text.append(": ");
        text.append(name.as_str());
        text.append(" is the winner!\nThe final board state is:\n\n");
        text.append(drawing.as_str());
        Ok(Action::Show(text))
    }

    fn run(&self, board: &mut Board, line: &str) -> (result: Result<Option<GameStage>, TttError>) {
        match board.get_name(self.player_id) {
            Ok(_) => Ok(None),
            Err(error) => Err(error),
        }
    }

    fn next(&self, board: &Board) -> (result: Result<GameStage, TttError>) {
        Err(TttError::StatesOver)
    }
}

impl GameState for GamePlayerDraw {
    fn action(&self, board: &Board) -> (result: Result<Action, TttError>) {
        let drawing = match board.display() {
            Ok(drawing) => drawing,
            Err(error) => {
                return Err(error);
            },
        };
        let mut text = String::from_str(
            "\n\nThe game ended in a draw!\nThe final board state is:\n\n",
        );
        text.append(drawing.as_str());
        Ok(Action::Show(text))
    }

    fn run(&self, board: &mut Board, line: &str) -> (result: Result<Option<GameStage>, TttError>) {
        Ok(None)
    }

    fn next(&self, board: &Board) -> (result: Result<GameStage, TttError>) {
        Err(TttError::StatesOver)
    }
}

impl GameState for GameStage {
    fn action(&self, board: &Board) -> (result: Result<Action, TttError>) {
        match self {
            GameStage::EnterInfo(state) => state.action(board),
            GameStage::PlayerMove(state) => state.action(board),
            GameStage::PlayerWin(state) => state.action(board),
            GameStage::PlayerDraw(state) => state.action(board),
        }
    }

    fn run(&self, board: &mut Board, line: &str) -> (result: Result<Option<GameStage>, TttError>) {
        match self {
            GameStage::EnterInfo(state) => state.run(board, line),
            GameStage::PlayerMove(state) => state.run(board, line),
            GameStage::PlayerWin(state) => state.run(board, line),
            GameStage::PlayerDraw(state) => state.run(board, line),
        }
    }

    fn next(&self, board: &Board) -> (result: Result<GameStage, TttError>) {
        match self {
            GameStage::EnterInfo(state) => state.next(board),
            GameStage::PlayerMove(state) => state.next(board),
            GameStage::PlayerWin(state) => state.next(board),
            GameStage::PlayerDraw(state) => state.next(board),
        }
    }
}

} // verus!
