//! What the control loop consumes and what it asks its caller to do.

use vstd::prelude::*;
use crate::player::EngineCommand;
use crate::session::EngineCommandView;

verus! {

/// Interval between two ticks, in milliseconds.
pub const TICK_INTERVAL_MS: u64 = 250;

/// A decoded key press, as far as the control loop tells keys apart.
#[derive(Clone, Copy, Debug, PartialEq, Eq, Structural)]
pub enum Key {
    /// A character key; Tab and Enter arrive as `'\t'` and `'\n'`.
    Char(char),
    /// A character key pressed together with Ctrl.
    Ctrl(char),
    /// Shift-Tab.
    BackTab,
    Backspace,
    /// Any key the control loop has no use for.
    Other,
}

/// One item of the merged event stream.
#[derive(Clone, Copy, Debug, PartialEq, Eq, Structural)]
pub enum Event {
    Input(Key),
    Tick,
}

/// What the caller of the control loop has to do after an event.
#[derive(Debug, PartialEq, Eq)]
pub enum Action {
    /// Nothing; go on with the next event.
    Continue,
    /// Leave the loop.
    Quit,
    /// Launch a resolution for this URL, without waiting for it.
    Resolve(String),
    /// Fetch the clipboard text and hand it to `App::paste`.
    Paste,
    /// Send this command to the playback engine.
    Engine(EngineCommand),
}

/// An action, with the text of a URL in place of the string.
pub enum ActionView {
    Continue,
    Quit,
    Resolve(Seq<char>),
    Paste,
    Engine(EngineCommandView),
}

impl View for Action {
    type V = ActionView;

    open spec fn view(&self) -> ActionView {
        match self {
            Action::Continue => ActionView::Continue,
            Action::Quit => ActionView::Quit,
            Action::Resolve(url) => ActionView::Resolve(url@),
            Action::Paste => ActionView::Paste,
            Action::Engine(command) => ActionView::Engine(command@),
        }
    }
}

/// Tab.
pub open spec fn key_tab() -> Key {
    Key::Char('\t')
}

/// Enter.
pub open spec fn key_enter() -> Key {
    Key::Char('\n')
}

/// Ctrl-C, which leaves the loop.
pub open spec fn key_quit() -> Key {
    Key::Ctrl('c')
}

/// Ctrl-H, which clears the text field.
pub open spec fn key_clear() -> Key {
    Key::Ctrl('h')
}

/// Ctrl-V, which pastes the clipboard into the text field.
pub open spec fn key_paste() -> Key {
    Key::Ctrl('v')
}

} // verus!
