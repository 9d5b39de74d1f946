//! One menu screen: a cursor and what a command does to it.

use vstd::prelude::*;
use crate::cursor::{Cursor, CursorView};
use crate::input::Command;

verus! {

/// Model of a [`MenuOutcome`].
pub enum MenuOutcomeView {
    Continue(CursorView),
    Selected(nat),
    Cancelled,
    Quit,
}

/// What a menu screen does after one command.
#[derive(Clone, Copy, Debug, PartialEq, Eq, Structural)]
pub enum MenuOutcome {
    /// The screen stays open with this cursor.
    Continue(Cursor),
    /// The entry at this position was confirmed.
    Selected(usize),
    /// The screen was left without a choice.
    Cancelled,
    /// The program ends.
    Quit,
}

impl View for MenuOutcome {
    type V = MenuOutcomeView;

    open spec fn view(&self) -> MenuOutcomeView {
        match *self {
            MenuOutcome::Continue(c) => MenuOutcomeView::Continue(c@),
            MenuOutcome::Selected(i) => MenuOutcomeView::Selected(i as nat),
            MenuOutcome::Cancelled => MenuOutcomeView::Cancelled,
            MenuOutcome::Quit => MenuOutcomeView::Quit,
        }
    }
}

/// The transition of a menu screen. Moving is clamped to the list; a pause
/// request means nothing in a menu and leaves the cursor where it is.
pub open spec fn menu_next(cursor: CursorView, command: Command) -> MenuOutcomeView {
    match command {
        Command::Up => MenuOutcomeView::Continue(cursor.up()),
        Command::Down => MenuOutcomeView::Continue(cursor.down()),
        Command::Select => MenuOutcomeView::Selected(cursor.index),
        Command::Back => MenuOutcomeView::Cancelled,
        Command::Quit => MenuOutcomeView::Quit,
        Command::Pause => MenuOutcomeView::Continue(cursor),
    }
}

/// Applies one command to a menu screen.
pub fn menu_step(cursor: Cursor, command: Command) -> (res: MenuOutcome)
    ensures
        res@ == menu_next(cursor@, command),
{
    match command {
        Command::Up => MenuOutcome::Continue(cursor.up()),
        Command::Down => MenuOutcome::Continue(cursor.down()),
        Command::Select => MenuOutcome::Selected(cursor.index()),
        Command::Back => MenuOutcome::Cancelled,
        Command::Quit => MenuOutcome::Quit,
        Command::Pause => MenuOutcome::Continue(cursor),
    }
}

} // verus!
