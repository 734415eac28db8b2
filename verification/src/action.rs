//! What a state asks of whoever drives the machines.

use vstd::prelude::*;

verus! {

/// What the driver has to do before a state can run.
#[derive(Debug)]
pub enum Action {
    /// Show the text, then read one line and hand it to the state.
    Ask(String),
    /// Show the text; the state needs no input.
    Show(String),
    /// Nothing to show and nothing to read.
    Proceed,
}

/// An `Action` with its text as a sequence of characters.
pub enum ActionView {
    Ask(Seq<char>),
    Show(Seq<char>),
    Proceed,
}

impl View for Action {
    type V = ActionView;

    open spec fn view(&self) -> ActionView {
        match self {
            Action::Ask(text) => ActionView::Ask(text@),
            Action::Show(text) => ActionView::Show(text@),
            Action::Proceed => ActionView::Proceed,
        }
    }
}

impl DeepView for Action {
    type V = ActionView;

    open spec fn deep_view(&self) -> ActionView {
        self@
    }
}

} // verus!
