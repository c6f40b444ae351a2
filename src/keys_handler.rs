//! Key dispatch: maps a key press, read in the layer that is active, to an
//! action of the state machine and performs it.

use crate::app::{action_outcome, app_wf, mode_of, reaches_store, App, KeyAction, Mode};
use crate::database::{reports_unavailable, DatabaseError};
use vstd::prelude::*;

verus! {

/// The key of a press, as far as the dashboard distinguishes keys.
#[derive(Debug, Clone, Copy, PartialEq, Eq, Structural)]
pub enum KeyCode {
    Enter,
    Esc,
    Tab,
    Backspace,
    Char(char),
    Other,
}

/// A key press; `control` holds when Control, and no other modifier, was
/// held.
#[derive(Debug, Clone, Copy, PartialEq, Eq, Structural)]
pub struct KeyPress {
    pub code: KeyCode,
    pub control: bool,
}

/// The keymap of each layer.
pub open spec fn action_for(mode: Mode, key: KeyPress) -> KeyAction {
    match mode {
        Mode::AddForm => match key.code {
            KeyCode::Enter => KeyAction::SaveDraft,
            KeyCode::Esc => KeyAction::DiscardDraft,
            KeyCode::Tab => KeyAction::SwitchField,
            KeyCode::Backspace => KeyAction::DeleteChar,
            KeyCode::Char(c) => KeyAction::InsertChar(c),
            KeyCode::Other => KeyAction::Ignore,
        },
        Mode::QuitConfirm => match key.code {
            KeyCode::Enter => KeyAction::ConfirmQuit,
            KeyCode::Char(c) => if c == 'y' || c == 'Y' {
                KeyAction::ConfirmQuit
            } else if c == 'n' || c == 'N' {
                KeyAction::CancelQuit
            } else {
                KeyAction::Ignore
            },
            KeyCode::Esc => KeyAction::CancelQuit,
            _ => KeyAction::Ignore,
        },
        Mode::Help => match key.code {
            KeyCode::Esc => KeyAction::CloseHelp,
            KeyCode::Char(c) => if c == 'q' {
                KeyAction::CloseHelp
            } else {
                KeyAction::Ignore
            },
            _ => KeyAction::Ignore,
        },
        Mode::Normal => match key.code {
            KeyCode::Esc => KeyAction::AskQuit,
            KeyCode::Char(c) => if c == 'q' {
                KeyAction::AskQuit
            } else if key.control && (c == 'c' || c == 'C') {
                KeyAction::AskQuit
            } else if c == 'k' {
                KeyAction::SelectPrevious
            } else if c == 'j' {
                KeyAction::SelectNext
            } else if c == '?' {
                KeyAction::OpenHelp
            } else if c == 'T' {
                KeyAction::ToggleSelected
            } else if c == 'A' {
                KeyAction::OpenDraft
            } else if c == 'D' {
                KeyAction::DeleteSelected
            } else {
                KeyAction::Ignore
            },
            _ => KeyAction::Ignore,
        },
    }
}

/// Dispatches key presses to the state machine.
pub struct KeyHandler;

impl KeyHandler {
    /// The action that a key press requests in a layer.
    pub fn action(mode: Mode, key: KeyPress) -> (r: KeyAction)
        ensures
            r == action_for(mode, key),
    {
        match mode {
            Mode::AddForm => match key.code {
                KeyCode::Enter => KeyAction::SaveDraft,
                KeyCode::Esc => KeyAction::DiscardDraft,
                KeyCode::Tab => KeyAction::SwitchField,
                KeyCode::Backspace => KeyAction::DeleteChar,
                KeyCode::Char(c) => KeyAction::InsertChar(c),
                KeyCode::Other => KeyAction::Ignore,
            },
            Mode::QuitConfirm => match key.code {
                KeyCode::Enter | KeyCode::Char('y') | KeyCode::Char('Y') => KeyAction::ConfirmQuit,
                KeyCode::Esc | KeyCode::Char('n') | KeyCode::Char('N') => KeyAction::CancelQuit,
                _ => KeyAction::Ignore,
            },
            Mode::Help => match key.code {
                KeyCode::Esc | KeyCode::Char('q') => KeyAction::CloseHelp,
                _ => KeyAction::Ignore,
            },
            Mode::Normal => match key.code {
                KeyCode::Esc | KeyCode::Char('q') => KeyAction::AskQuit,
                KeyCode::Char(c) => if key.control && (c == 'c' || c == 'C') {
                    KeyAction::AskQuit
                } else if c == 'k' {
                    KeyAction::SelectPrevious
                } else if c == 'j' {
                    KeyAction::SelectNext
                } else if c == '?' {
                    KeyAction::OpenHelp
                } else if c == 'T' {
                    KeyAction::ToggleSelected
                } else if c == 'A' {
                    KeyAction::OpenDraft
                } else if c == 'D' {
                    KeyAction::DeleteSelected
                } else {
                    KeyAction::Ignore
                },
                _ => KeyAction::Ignore,
            },
        }
    }

    /// Interprets one key press in the active layer and performs the action
    /// it requests. A store failure is handed back for reporting.
    pub fn on_key_event(app: &mut App, key: KeyPress) -> (r: Result<(), DatabaseError>)
        requires
            app_wf(old(app)@),
        ensures
            app_wf(final(app)@),
            action_outcome(old(app)@, action_for(mode_of(old(app)@), key), final(app)@, r is Ok),
            reaches_store(old(app)@, action_for(mode_of(old(app)@), key)) && !old(app)@.connected
                ==> reports_unavailable(r),
    {
        let action = KeyHandler::action(app.mode(), key);
        app.apply_action(action)
    }
}

} // verus!
