//! What can go wrong during a match, and how it is reported.

use vstd::prelude::*;
use vstd::string::StringExecFns;
use crate::coordinate::{coord_text, Coordinate};
use crate::text::{numeral, numeral_text};

verus! {

/// What a board or a state machine answers when it cannot go on as asked.
#[derive(Debug)]
pub enum TttError {
    /// The player's input does not name a cell of the board.
    InvalidEntry(String),
    /// The cell is not free.
    UsedSpace(Coordinate<i8>),
    /// A player was about to own the same cell twice.
    DuplicateEntry(Coordinate<i8>),
    /// Nothing is known under this player id.
    NoPlayer(u8),
    /// Not a failure: the state machine has nothing further to do.
    StatesOver,
}

/// A `TttError` with its text as a sequence of characters.
pub enum ErrorView {
    InvalidEntry(Seq<char>),
    UsedSpace(Coordinate<i8>),
    DuplicateEntry(Coordinate<i8>),
    NoPlayer(u8),
    StatesOver,
}

impl View for TttError {
    type V = ErrorView;

    open spec fn view(&self) -> ErrorView {
        match self {
            TttError::InvalidEntry(entry) => ErrorView::InvalidEntry(entry@),
            TttError::UsedSpace(coord) => ErrorView::UsedSpace(*coord),
            TttError::DuplicateEntry(coord) => ErrorView::DuplicateEntry(*coord),
            TttError::NoPlayer(player_id) => ErrorView::NoPlayer(*player_id),
            TttError::StatesOver => ErrorView::StatesOver,
        }
    }
}

impl DeepView for TttError {
    type V = ErrorView;

    open spec fn deep_view(&self) -> ErrorView {
        self@
    }
}

/// A result with both sides taken by their views.
pub open spec fn outcome<T: DeepView>(result: Result<T, TttError>) -> Result<T::V, ErrorView> {
    match result {
        Ok(value) => Ok(value.deep_view()),
        Err(error) => Err(error@),
    }
}

impl Clone for TttError {
    fn clone(&self) -> (r: Self)
        ensures
            r == *self,
    {
        match self {
            TttError::InvalidEntry(entry) => TttError::InvalidEntry(entry.clone()),
            TttError::UsedSpace(coord) => TttError::UsedSpace(*coord),
            TttError::DuplicateEntry(coord) => TttError::DuplicateEntry(*coord),
            TttError::NoPlayer(player_id) => TttError::NoPlayer(*player_id),
            TttError::StatesOver => TttError::StatesOver,
        }
    }
}

impl ErrorView {
    /// The message that reports this error.
    pub open spec fn message(self) -> Seq<char> {
        match self {
            ErrorView::InvalidEntry(entry) => "Entry \""@ + entry + "\" is not a valid input."@,
            ErrorView::UsedSpace(coord) => "Coord \""@ + coord_text(coord)
                + "\" has already been used."@,
            ErrorView::DuplicateEntry(coord) => "Fatal Logic Error.  Coord "@ + coord_text(coord)
                + " was duplicated.  Debug required"@,
            ErrorView::NoPlayer(player_id) => "No player with id "@ + numeral(player_id as nat),
            ErrorView::StatesOver => "Game over\n"@,
        }
    }
}

impl TttError {
    /// The message that reports this error to the players.
    pub fn message(&self) -> (r: String)
        ensures
            r@ == self@.message(),
    {
        match self {
            TttError::InvalidEntry(entry) => {
                let mut r = String::from_str("Entry \"");
                r.append(entry.as_str());
                r.append("\" is not a valid input.");
                r
            },
            TttError::UsedSpace(coord) => {
                let mut r = String::from_str("Coord \"");
                r.append(coord.to_text().as_str());
                r.append("\" has already been used.");
                r
            },
            TttError::DuplicateEntry(coord) => {
                let mut r = String::from_str("Fatal Logic Error.  Coord ");
                r.append(coord.to_text().as_str());
                r.append(" was duplicated.  Debug required");
                r
            },
            TttError::NoPlayer(player_id) => {
                let mut r = String::from_str("No player with id ");
                r.append(numeral_text(*player_id).as_str());
                r
            },
            TttError::StatesOver => String::from_str("Game over\n"),
        }
    }
}

} // verus!
