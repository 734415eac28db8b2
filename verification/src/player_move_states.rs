//! The move-input state machine: it asks a player for a move, reads the answer,
//! checks it against the board, and asks again until a legal move is made.

use vstd::prelude::*;
use vstd::string::StringExecFns;
use crate::action::{Action, ActionView};
use crate::board::{on_board, Board, BoardView};
use crate::coordinate::Coordinate;
use crate::errors::{outcome, ErrorView, TttError};
use crate::text::{is_space, numeral, numeral_text, trim, trim_end, trim_start, trimmed};

verus! {

/// The column that a letter names: `a`, `b` or `c`, in either case.
pub open spec fn column_of(letter: char) -> Option<i8> {
    if letter == 'a' || letter == 'A' {
        Some(0i8)
    } else if letter == 'b' || letter == 'B' {
        Some(1i8)
    } else if letter == 'c' || letter == 'C' {
        Some(2i8)
    } else {
        None
    }
}

/// The row that a digit names: `1`, `2` or `3`.
pub open spec fn row_of(digit: char) -> Option<i8> {
    if digit == '1' {
        Some(0i8)
    } else if digit == '2' {
        Some(1i8)
    } else if digit == '3' {
        Some(2i8)
    } else {
        None
    }
}

/// The cell that `text` names: between white space, a column letter followed by a
/// row digit, and nothing else.
pub open spec fn move_of(text: Seq<char>) -> Option<Coordinate<i8>> {
    let entry = trim(text);
    if entry.len() == 2 && column_of(entry[0]) is Some && row_of(entry[1]) is Some {
        Some(Coordinate { y: row_of(entry[1])->0, x: column_of(entry[0])->0 })
    } else {
        None
    }
}

fn column(letter: char) -> (x: Option<i8>)
    ensures
        x == column_of(letter),
{
    if letter == 'a' || letter == 'A' {
        Some(0)
    } else if letter == 'b' || letter == 'B' {
        Some(1)
    } else if letter == 'c' || letter == 'C' {
        Some(2)
    } else {
        None
    }
}

fn row(digit: char) -> (y: Option<i8>)
    ensures
        y == row_of(digit),
{
    if digit == '1' {
        Some(0)
    } else if digit == '2' {
        Some(1)
    } else if digit == '3' {
        Some(2)
    } else {
        None
    }
}

/// Reads a move such as `a1` or ` B3 `. Any text is accepted; one that names no
/// cell gives `None`.
pub fn parse_move(text: &str) -> (coord: Option<Coordinate<i8>>)
    ensures
        coord == move_of(text@),
{
    let entry = trimmed(text);
    let entry = entry.as_str();
    if entry.unicode_len() != 2 {
        return None;
    }
    match (column(entry.get_char(0)), row(entry.get_char(1))) {
        (Some(x), Some(y)) => Some(Coordinate::new(y, x)),
        _ => None,
    }
}

/// A text names a cell exactly when, between white space, it is one of the letters
/// `a`, `b`, `c`, small or capital, followed by one of the digits `1`, `2`, `3`; and
/// the cell that it names is on the board.
pub proof fn lemma_move_syntax(text: Seq<char>)
    ensures
        move_of(text) is Some <==> {
            let entry = trim(text);
            &&& entry.len() == 2
            &&& "AaBbCc"@.contains(entry[0])
            &&& "123"@.contains(entry[1])
        },
        move_of(text) matches Some(coord) ==> on_board(coord),
{
    reveal_strlit("AaBbCc");
    reveal_strlit("123");
    let letters = "AaBbCc"@;
    let digits = "123"@;
    assert(letters[0] == 'A' && letters[1] == 'a' && letters[2] == 'B' && letters[3] == 'b'
        && letters[4] == 'C' && letters[5] == 'c');
    assert(digits[0] == '1' && digits[1] == '2' && digits[2] == '3');
}

/// `letter` with a capital of the Latin alphabet turned into its small letter.
pub open spec fn fold_case(letter: char) -> char {
    if 'A' <= letter <= 'Z' {
        (letter as int + 32) as char
    } else {
        letter
    }
}

/// Whether two texts differ in nothing but the case of their letters.
pub open spec fn same_but_case(a: Seq<char>, b: Seq<char>) -> bool {
    &&& a.len() == b.len()
    &&& forall|i: int| 0 <= i < a.len() ==> fold_case(#[trigger] a[i]) == fold_case(b[i])
}

proof fn lemma_trim_start_same_but_case(a: Seq<char>, b: Seq<char>)
    requires
        same_but_case(a, b),
    ensures
        same_but_case(trim_start(a), trim_start(b)),
    decreases a.len(),
{
    if a.len() > 0 && is_space(a[0]) {
        lemma_trim_start_same_but_case(a.drop_first(), b.drop_first());
    }
}

proof fn lemma_trim_end_same_but_case(a: Seq<char>, b: Seq<char>)
    requires
        same_but_case(a, b),
    ensures
        same_but_case(trim_end(a), trim_end(b)),
    decreases a.len(),
{
    if a.len() > 0 && is_space(a.last()) {
        lemma_trim_end_same_but_case(a.drop_last(), b.drop_last());
    }
}

/// Reading a move takes no notice of the case of the letters: two texts that
/// differ in case alone name the same cell, or both name none.
pub proof fn lemma_parse_ignores_case(a: Seq<char>, b: Seq<char>)
    requires
        same_but_case(a, b),
    ensures
        move_of(a) == move_of(b),
{
    lemma_trim_start_same_but_case(a, b);
    lemma_trim_end_same_but_case(trim_start(a), trim_start(b));
}

/// Asks the player for a move.
#[derive(Debug)]
pub struct PlayerMoveRequest {
    pub player_id: u8,
}

/// Asks the player again, after an entry that was refused.
#[derive(Debug)]
pub struct PlayerMoveReRequest {
    pub player_id: u8,
    pub input_err: TttError,
}

/// Holds what the player typed, to be read as a move.
#[derive(Debug)]
pub struct PlayerMoveParse {
    pub player_id: u8,
    pub text: String,
}

/// Holds the cell that the player named, to be taken on the board.
#[derive(Debug)]
pub struct PlayerMoveCheck {
    pub player_id: u8,
    pub coord: Coordinate<i8>,
}

/// A state of the move-input machine.
#[derive(Debug)]
pub enum MoveState {
    Request(PlayerMoveRequest),
    ReRequest(PlayerMoveReRequest),
    Parse(PlayerMoveParse),
    Check(PlayerMoveCheck),
}

/// A state of the move-input machine, its texts taken as sequences of characters.
pub enum MoveStateView {
    Request { player_id: u8 },
    ReRequest { player_id: u8, input_err: ErrorView },
    Parse { player_id: u8, text: Seq<char> },
    Check { player_id: u8, coord: Coordinate<i8> },
}

/// What a player is shown when a move is asked for the first time in a turn.
pub open spec fn request_text(board: BoardView, player_id: u8, name: Seq<char>) -> Seq<char> {
    "\nThe current board state is:\n\n"@ + board.display() + "\nP"@ + numeral(player_id as nat)
        + ": "@ + name + " is up next.\nPlease enter your next move (e.g. a1, b2):"@
}

/// What a player is shown after an entry that was refused.
pub open spec fn rerequest_text(player_id: u8, input_err: ErrorView, name: Seq<char>) -> Seq<
    char,
> {
    "P"@ + numeral(player_id as nat) + ": "@ + input_err.message() + " "@ + name
        + ", please enter a valid space: "@
}

impl MoveStateView {
    /// The player whose move the machine is after.
    pub open spec fn player_id(self) -> u8 {
        match self {
            MoveStateView::Request { player_id } => player_id,
            MoveStateView::ReRequest { player_id, .. } => player_id,
            MoveStateView::Parse { player_id, .. } => player_id,
            MoveStateView::Check { player_id, .. } => player_id,
        }
    }

    /// What the driver has to do before the state runs. The two states that ask
    /// need the player's name and fail with `NoPlayer` where none is registered;
    /// the other two need nothing.
    pub open spec fn action(self, board: BoardView) -> Result<ActionView, ErrorView> {
        match self {
            MoveStateView::Request { player_id } => match board.get_name(player_id) {
                Ok(name) => Ok(ActionView::Ask(request_text(board, player_id, name))),
                Err(error) => Err(error),
            },
            MoveStateView::ReRequest { player_id, input_err } => match board.get_name(player_id) {
                Ok(name) => Ok(ActionView::Ask(rerequest_text(player_id, input_err, name))),
                Err(error) => Err(error),
            },
            MoveStateView::Parse { .. } => Ok(ActionView::Proceed),
            MoveStateView::Check { .. } => Ok(ActionView::Proceed),
        }
    }

    /// The transition table: from a state, the board and the line that was read
    /// (of which only the asking states take notice) to the next state or the end
    /// of the machine, and the board afterwards.
    ///
    /// - `Request` and `ReRequest` pass the line on to `Parse`.
    /// - `Parse` goes to `Check` with the cell that its text names, or to
    ///   `ReRequest` with `InvalidEntry` where it names none.
    /// - `Check` takes the cell. Taken, the machine ends with `StatesOver`; a cell
    ///   that is not free leads to `ReRequest` with `UsedSpace`; any other error
    ///   ends the machine.
    pub open spec fn run(self, board: BoardView, line: Seq<char>) -> (
        Result<MoveStateView, ErrorView>,
        BoardView,
    ) {
        match self {
            MoveStateView::Request { player_id } => match board.get_name(player_id) {
                Ok(_) => (Ok(MoveStateView::Parse { player_id, text: line }), board),
                Err(error) => (Err(error), board),
            },
            MoveStateView::ReRequest { player_id, .. } => match board.get_name(player_id) {
                Ok(_) => (Ok(MoveStateView::Parse { player_id, text: line }), board),
                Err(error) => (Err(error), board),
            },
            MoveStateView::Parse { player_id, text } => match move_of(text) {
                Some(coord) => (Ok(MoveStateView::Check { player_id, coord }), board),
                None => (
                    Ok(
                        MoveStateView::ReRequest {
                            player_id,
                            input_err: ErrorView::InvalidEntry(text),
                        },
                    ),
                    board,
                ),
            },
            MoveStateView::Check { player_id, coord } => match board.update(player_id, coord) {
                (Ok(_), after) => (Err(ErrorView::StatesOver), after),
                (Err(ErrorView::UsedSpace(used)), after) => (
                    Ok(
                        MoveStateView::ReRequest {
                            player_id,
                            input_err: ErrorView::UsedSpace(used),
                        },
                    ),
                    after,
                ),
                (Err(error), after) => (Err(error), after),
            },
        }
    }
}

/// No error about what a player typed leaves the machine: an entry that cannot be
/// read, or that names a cell that is not free, leads to a state that asks again.
pub proof fn lemma_input_errors_stay_inside(
    state: MoveStateView,
    board: BoardView,
    line: Seq<char>,
)
    ensures
        !(state.run(board, line).0 matches Err(ErrorView::InvalidEntry(_))),
        !(state.run(board, line).0 matches Err(ErrorView::UsedSpace(_))),
        state.run(board, line).0 matches Ok(next) ==> next.player_id() == state.player_id(),
{
}

/// The machine ends with `StatesOver` exactly when it has just given one free cell
/// to player 1 or 2, the player it serves. In every other case the board is left
/// as it was.
pub proof fn lemma_turn_commits_one_move(
    state: MoveStateView,
    board: BoardView,
    line: Seq<char>,
)
    ensures
        state.run(board, line).0 == Err::<MoveStateView, ErrorView>(ErrorView::StatesOver) <==> {
            &&& state matches MoveStateView::Check { player_id, coord }
            &&& board.occupancy[0].contains(coord)
            &&& (player_id == 1 || player_id == 2)
        },
        state.run(board, line).0 == Err::<MoveStateView, ErrorView>(ErrorView::StatesOver)
            ==> state.run(board, line).1 == board.claim(state.player_id(), state->Check_coord),
        state.run(board, line).0 != Err::<MoveStateView, ErrorView>(ErrorView::StatesOver)
            ==> state.run(board, line).1 == board,
{
}

impl View for PlayerMoveRequest {
    type V = MoveStateView;

    open spec fn view(&self) -> MoveStateView {
        MoveStateView::Request { player_id: self.player_id }
    }
}

impl View for PlayerMoveReRequest {
    type V = MoveStateView;

    open spec fn view(&self) -> MoveStateView {
        MoveStateView::ReRequest { player_id: self.player_id, input_err: self.input_err@ }
    }
}

impl View for PlayerMoveParse {
    type V = MoveStateView;

    open spec fn view(&self) -> MoveStateView {
        MoveStateView::Parse { player_id: self.player_id, text: self.text@ }
    }
}

impl View for PlayerMoveCheck {
    type V = MoveStateView;

    open spec fn view(&self) -> MoveStateView {
        MoveStateView::Check { player_id: self.player_id, coord: self.coord }
    }
}

impl View for MoveState {
    type V = MoveStateView;

    open spec fn view(&self) -> MoveStateView {
        match self {
            MoveState::Request(state) => state@,
            MoveState::ReRequest(state) => state@,
            MoveState::Parse(state) => state@,
            MoveState::Check(state) => state@,
        }
    }
}

impl DeepView for MoveState {
    type V = MoveStateView;

    open spec fn deep_view(&self) -> MoveStateView {
        self@
    }
}

/// A state of the move-input machine. The driver shows what `action` gives, reads a
/// line where it asks for one, and calls `run` with it.
pub trait PlayerMoveState: View<V = MoveStateView> + Sized {
    fn action(&self, board: &Board) -> (result: Result<Action, TttError>)
        ensures
            outcome(result) == self@.action(board@),
    ;

    fn run(&self, board: &mut Board, line: &str) -> (result: Result<MoveState, TttError>)
        requires
            old(board).wf(),
        ensures
            final(board).wf(),
            (outcome(result), final(board)@) == self@.run(old(board)@, line@),
    ;
}

impl PlayerMoveRequest {
    pub fn new(player_id: u8) -> (state: Self)
        ensures
            state.player_id == player_id,
    {
        Self { player_id }
    }
}

impl PlayerMoveReRequest {
    pub fn new(player_id: u8, input_err: TttError) -> (state: Self)
        ensures
            state.player_id == player_id,
            state.input_err == input_err,
    {
        Self { player_id, input_err }
    }
}

impl PlayerMoveParse {
    pub fn new(player_id: u8, text: String) -> (state: Self)
        ensures
            state.player_id == player_id,
            state.text == text,
    {
        Self { player_id, text }
    }
}

impl PlayerMoveCheck {
    pub fn new(player_id: u8, coord: Coordinate<i8>) -> (state: Self)
        ensures
            state.player_id == player_id,
            state.coord == coord,
    {
        Self { player_id, coord }
    }
}

impl PlayerMoveState for PlayerMoveRequest {
    fn action(&self, board: &Board) -> (result: Result<Action, TttError>) {
        let name = match board.get_name(self.player_id) {
            Ok(name) => name,
            Err(error) => {
                return Err(error);
            },
        };
        let drawing = match board.display() {
            Ok(drawing) => drawing,
            Err(error) => {
                return Err(error);
            },
        };
        let mut text = String::from_str("\nThe current board state is:\n\n");
        text.append(drawing.as_str());
        text.append("\nP");
        text.append(numeral_text(self.player_id).as_str());
        text.append(": ");
        text.append(name.as_str());
        text.append(" is up next.\nPlease enter your next move (e.g. a1, b2):");
        Ok(Action::Ask(text))
    }

    fn run(&self, board: &mut Board, line: &str) -> (result: Result<MoveState, TttError>) {
        match board.get_name(self.player_id) {
            Ok(_) => Ok(
                MoveState::Parse(PlayerMoveParse::new(self.player_id, String::from_str(line))),
            ),
            Err(error) => Err(error),
        }
    }
}

impl PlayerMoveState for PlayerMoveReRequest {
    fn action(&self, board: &Board) -> (result: Result<Action, TttError>) {
        let name = match board.get_name(self.player_id) {
            Ok(name) => name,
            Err(error) => {
                return Err(error);
            },
        };
        let mut text = String::from_str("P");
        text.append(numeral_text(self.player_id).as_str());
        text.append(": ");
        text.append(self.input_err.message().as_str());
        text.append(" ");
        text.append(name.as_str());
        text.append(", please enter a valid space: ");
        Ok(Action::Ask(text))
    }

    fn run(&self, board: &mut Board, line: &str) -> (result: Result<MoveState, TttError>) {
        match board.get_name(self.player_id) {
            Ok(_) => Ok(
                MoveState::Parse(PlayerMoveParse::new(self.player_id, String::from_str(line))),
            ),
            Err(error) => Err(error),
        }
    }
}

impl PlayerMoveState for PlayerMoveParse {
    fn action(&self, board: &Board) -> (result: Result<Action, TttError>) {
        Ok(Action::Proceed)
    }

    fn run(&self, board: &mut Board, line: &str) -> (result: Result<MoveState, TttError>) {
        match parse_move(self.text.as_str()) {
            Some(coord) => Ok(MoveState::Check(PlayerMoveCheck::new(self.player_id, coord))),
            None => Ok(
                MoveState::ReRequest(
                    PlayerMoveReRequest::new(
                        self.player_id,
                        TttError::InvalidEntry(self.text.clone()),
                    ),
                ),
            ),
        }
    }
}

impl PlayerMoveState for PlayerMoveCheck {
    fn action(&self, board: &Board) -> (result: Result<Action, TttError>) {
        Ok(Action::Proceed)
    }

    fn run(&self, board: &mut Board, line: &str) -> (result: Result<MoveState, TttError>) {
        match board.update(self.player_id, self.coord) {
            Err(TttError::UsedSpace(coord)) => Ok(
                MoveState::ReRequest(
                    PlayerMoveReRequest::new(self.player_id, TttError::UsedSpace(coord)),
                ),
            ),
            Err(error) => Err(error),
            Ok(()) => Err(TttError::StatesOver),
        }
    }
}

impl PlayerMoveState for MoveState {
    fn action(&self, board: &Board) -> (result: Result<Action, TttError>) {
        match self {
            MoveState::Request(state) => state.action(board),
            MoveState::ReRequest(state) => state.action(board),
            MoveState::Parse(state) => state.action(board),
            MoveState::Check(state) => state.action(board),
        }
    }

    fn run(&self, board: &mut Board, line: &str) -> (result: Result<MoveState, TttError>) {
        match self {
            MoveState::Request(state) => state.run(board, line),
            MoveState::ReRequest(state) => state.run(board, line),
            MoveState::Parse(state) => state.run(board, line),
            MoveState::Check(state) => state.run(board, line),
        }
    }
}

} // verus!
