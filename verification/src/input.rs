//! Key presses and the actions they stand for.

use vstd::prelude::*;

verus! {

/// A key press, as far as the selector tells keys apart.
#[derive(Clone, Copy, Debug, PartialEq, Eq, Structural)]
pub enum Key {
    /// A key that types a character.
    Char(char),
    Up,
    Down,
    Enter,
    /// Any other key.
    Other,
}

/// What a key press asks of the selector.
#[derive(Clone, Copy, Debug, PartialEq, Eq, Structural)]
pub enum Action {
    NavigateUp,
    NavigateDown,
    Confirm,
    Quit,
    Ignore,
}

/// The action of each key: `q` quits, `j` and the down arrow move down, `k`
/// and the up arrow move up, Enter confirms, and every other key does
/// nothing.
pub open spec fn action_of(key: Key) -> Action {
    match key {
        Key::Char('q') => Action::Quit,
        Key::Char('j') | Key::Down => Action::NavigateDown,
        Key::Char('k') | Key::Up => Action::NavigateUp,
        Key::Enter => Action::Confirm,
        _ => Action::Ignore,
    }
}

/// Gives the action that a key press stands for.
pub fn action_for_key(key: Key) -> (action: Action)
    ensures
        action == action_of(key),
{
    match key {
        Key::Char(c) => {
            if c == 'q' {
                Action::Quit
            } else if c == 'j' {
                Action::NavigateDown
            } else if c == 'k' {
                Action::NavigateUp
            } else {
                Action::Ignore
            }
        },
        Key::Down => Action::NavigateDown,
        Key::Up => Action::NavigateUp,
        Key::Enter => Action::Confirm,
        Key::Other => Action::Ignore,
    }
}

} // verus!
