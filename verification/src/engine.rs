//! The engine of a match: the board and the state that the game machine has
//! reached. A driver shows what `action` asks for, reads a line where one is
//! wanted, and hands it to `step`, until `step` says that the match is over.

use vstd::prelude::*;
use crate::action::{Action, ActionView};
use crate::board::{Board, BoardView};
use crate::errors::{outcome, ErrorView, TttError};
use crate::game_states::{GameEnterInfo, GameStage, GameStageView, GameState};

verus! {

pub struct GameEngine {
    pub state: GameStage,
    pub board: Board,
}

/// What an engine holds: the state of the game machine and the board.
pub struct EngineView {
    pub state: GameStageView,
    pub board: BoardView,
}

impl EngineView {
    /// The engine before anything has happened: player 1 is to be asked for a name,
    /// and the board is empty.
    pub open spec fn start() -> EngineView {
        EngineView { state: GameStageView::EnterInfo { player_id: 1 }, board: BoardView::start() }
    }

    /// What the driver has to do before the next step.
    pub open spec fn action(self) -> Result<ActionView, ErrorView> {
        self.state.action(self.board)
    }

    /// One step: the state runs on the line that was read; when it has done its
    /// work, the state that follows takes its place. The result is `Ok(true)` while
    /// the match goes on and `Ok(false)` when a final state has run. An error
    /// leaves the state in place.
    pub open spec fn step(self, line: Seq<char>) -> (Result<bool, ErrorView>, EngineView) {
        match self.state.run(self.board, line) {
            (Err(error), board) => (Err(error), EngineView { state: self.state, board }),
            (Ok(Some(state)), board) => (Ok(true), EngineView { state, board }),
            (Ok(None), board) => match self.state.next(board) {
                Ok(state) => (Ok(true), EngineView { state, board }),
                Err(ErrorView::StatesOver) => (Ok(false), EngineView { state: self.state, board }),
                Err(error) => (Err(error), EngineView { state: self.state, board }),
            },
        }
    }
}

impl EngineView {
    /// What holds of an engine throughout a match: every cell of the board has
    /// exactly one owner; the state names player 1 or 2; whoever is asked for a
    /// move, or has won, is registered, and so is the other player once the turns
    /// have begun.
    pub open spec fn sound(self) -> bool {
        &&& self.board.valid()
        &&& match self.state {
            GameStageView::EnterInfo { player_id } => {
                &&& 1 <= player_id <= 2
                &&& player_id == 2 ==> self.board.names.contains_key(1)
            },
            GameStageView::PlayerMove { player_id, state } => {
                &&& 1 <= player_id <= 2
                &&& state.player_id() == player_id
                &&& self.board.names.contains_key(1)
                &&& self.board.names.contains_key(2)
            },
            GameStageView::PlayerWin { player_id } => {
                &&& 1 <= player_id <= 2
                &&& self.board.names.contains_key(player_id)
            },
            GameStageView::PlayerDraw => true,
        }
    }
}

/// A match begins in a sound engine.
pub proof fn lemma_start_is_sound()
    ensures
        EngineView::start().sound(),
{
}

/// In a sound engine nothing fails, whatever the players type: the action can be
/// told, the step succeeds, and the engine after it is sound again. So no error
/// arises in a match that began at the start.
pub proof fn lemma_match_never_fails(engine: EngineView, line: Seq<char>)
    requires
        engine.sound(),
    ensures
        engine.action() is Ok,
        engine.step(line).0 is Ok,
        engine.step(line).1.sound(),
{
}

impl View for GameEngine {
    type V = EngineView;

    open spec fn view(&self) -> EngineView {
        EngineView { state: self.state@, board: self.board@ }
    }
}

impl GameEngine {
    /// The invariant of an engine: that of its board.
    pub open spec fn wf(&self) -> bool {
        self.board.wf()
    }

    /// An engine at the start of a match.
    pub fn new() -> (engine: Self)
        ensures
            engine.wf(),
            engine@ == EngineView::start(),
    {
        Self { state: GameStage::EnterInfo(GameEnterInfo::new(1)), board: Board::new() }
    }

    /// What the driver has to show, and whether it has to read a line, before the
    /// next call of `step`.
    pub fn action(&self) -> (result: Result<Action, TttError>)
        ensures
            outcome(result) == self@.action(),
    {
        self.state.action(&self.board)
    }

    /// Makes one step with the line that was read; a state that asked for none
    /// takes no notice of it. `Ok(true)`: the match goes on. `Ok(false)`: it is
    /// over. An error is fatal.
    pub fn step(&mut self, line: &str) -> (result: Result<bool, TttError>)
        requires
            old(self).wf(),
        ensures
            final(self).wf(),
            (outcome(result), final(self)@) == old(self)@.step(line@),
    {
        match self.state.run(&mut self.board, line) {
            Err(error) => {
                return Err(error);
            },
            Ok(Some(state)) => {
                self.state = state;
                return Ok(true);
            },
            Ok(None) => {},
        }
        match self.state.next(&self.board) {
            Err(TttError::StatesOver) => Ok(false),
            Err(error) => Err(error),
            Ok(state) => {
                self.state = state;
                Ok(true)
            },
        }
    }
}

} // verus!
