//! The event vocabulary of the core: everything that flows through the bus.
//!
//! Terminal input is carried opaquely: the core reads nothing of a key press
//! beyond its code and whether the control modifier is held, and forwards
//! every other kind of terminal occurrence untouched.

use vstd::prelude::*;

verus! {

/// The part of a key press that the core's key tables read.
#[derive(Clone, Copy, Debug, PartialEq, Eq, Structural)]
pub enum KeyCode {
    Esc,
    Enter,
    Up,
    Down,
    Char(char),
    /// Any key the core's tables never bind (function keys, paging, ...).
    Other,
}

/// One key press: a code plus whether the control modifier is held.
#[derive(Clone, Copy, Debug, PartialEq, Eq, Structural)]
pub struct KeyInput {
    pub code: KeyCode,
    pub ctrl: bool,
}

/// One raw terminal occurrence, as the input producer forwards it.
#[derive(Clone, Copy, Debug, PartialEq, Eq, Structural)]
pub enum InputEvent {
    /// A key press.
    Key(KeyInput),
    /// Any other terminal occurrence (resize, mouse, ...); forwarded
    /// opaquely and ignored by the dispatch logic.
    Other,
}

/// Application events: intents raised by the controller or by popup actions.
#[derive(Clone, Copy, Debug, PartialEq, Eq, Structural)]
pub enum AppEvent {
    /// Quit the application.
    Quit,
}

/// Everything the bus carries, merged into one ordered stream.
#[derive(Clone, Copy, Debug, PartialEq, Eq, Structural)]
pub enum Event {
    /// Emitted on a regular schedule by a ticker producer; signals that time
    /// has advanced and the screen should be re-rendered.
    Tick,
    /// A raw terminal occurrence forwarded by the input producer.
    Input(InputEvent),
    /// An internally generated application event.
    App(AppEvent),
}

impl KeyInput {
    /// A plain key press: no control modifier.
    pub fn plain(code: KeyCode) -> (k: KeyInput)
        ensures
            k.code == code,
            !k.ctrl,
    {
        KeyInput { code, ctrl: false }
    }
}

} // verus!
