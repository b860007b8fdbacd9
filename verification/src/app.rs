//! The control loop's own state and its reaction to one event.

use vstd::prelude::*;
use crate::cursor::{cursor_cell, cursor_cell_at, display_width, str_width};
use crate::event::{Action, Event, Key};
use crate::focus::{Focused, PlayerButton};
use crate::player::Player;
use crate::step::{control_step, enter_step, input_step, step, AppView, Step};

verus! {

/// How strongly a part of the screen is set off.
#[derive(Clone, Copy, Debug, PartialEq, Eq, Structural)]
pub enum Highlight {
    /// Not focused.
    Plain,
    /// Focused.
    Accent,
    /// Focused, and drawn bold.
    AccentBold,
}

/// The text being typed and the element that has the keyboard focus.
pub struct App {
    pub input: String,
    pub focused: Focused,
}

impl View for App {
    type V = AppView;

    open spec fn view(&self) -> AppView {
        AppView { input: self.input@, focused: self.focused }
    }
}

impl App {
    /// The state at startup: the text field holds a sample address and has
    /// the focus.
    pub fn new() -> (app: App)
        ensures
            app.input@ == "https://www.youtube.com/watch?v=ukzOgoLjHLk"@,
            app.focused == Focused::Input,
    {
        App {
            input: "https://www.youtube.com/watch?v=ukzOgoLjHLk".to_owned(),
            focused: Focused::Input,
        }
    }

    /// Highlight of the text field's frame.
    pub fn style_input_chunk(&self) -> (highlight: Highlight)
        ensures
            highlight == if self.focused is Input {
                Highlight::Accent
            } else {
                Highlight::Plain
            },
    {
        match self.focused {
            Focused::Input => Highlight::Accent,
            _ => Highlight::Plain,
        }
    }

    /// Highlight of the player's frame.
    pub fn style_player_chunk(&self) -> (highlight: Highlight)
        ensures
            highlight == if self.focused is Player {
                Highlight::Accent
            } else {
                Highlight::Plain
            },
    {
        match self.focused {
            Focused::Player(_) => Highlight::Accent,
            _ => Highlight::Plain,
        }
    }

    /// Highlight of the play/pause button.
    pub fn style_play_pause_control(&self) -> (highlight: Highlight)
        ensures
            highlight == if self.focused == Focused::Player(PlayerButton::PlayPause) {
                Highlight::AccentBold
            } else {
                Highlight::Plain
            },
    {
        match self.focused {
            Focused::Player(PlayerButton::PlayPause) => Highlight::AccentBold,
            _ => Highlight::Plain,
        }
    }

    /// Highlight of the stop button.
    pub fn style_stop_control(&self) -> (highlight: Highlight)
        ensures
            highlight == if self.focused == Focused::Player(PlayerButton::Stop) {
                Highlight::AccentBold
            } else {
                Highlight::Plain
            },
    {
        match self.focused {
            Focused::Player(PlayerButton::Stop) => Highlight::AccentBold,
            _ => Highlight::Plain,
        }
    }

    /// Where to show the cursor for a text field whose border starts at
    /// `(x, y)`: just behind the text while the field has the focus, nowhere
    /// otherwise.
    pub fn cursor(&self, x: u16, y: u16) -> (cell: Option<(u16, u16)>)
        ensures
            cell == if self.focused is Input {
                Some(cursor_cell_at(x, y, display_width(self.input@)))
            } else {
                None
            },
    {
        match self.focused {
            Focused::Input => Some(cursor_cell(x, y, str_width(self.input.as_str()))),
            _ => None,
        }
    }

    /// Takes in the clipboard text that a `Paste` action asked for.
    pub fn paste(&mut self, text: &str)
        ensures
            final(self)@ == old(self)@.pasted(text@),
    {
        match self.focused {
            Focused::Input => {
                self.input.append(text);
            },
            _ => {},
        }
    }

    fn enter_pressed(&self, player: &mut Player) -> (action: Action)
        ensures
            (Step { app: self@, session: final(player)@, action: action@ }) == enter_step(
                self@,
                old(player)@,
            ),
    {
        if self.input.as_str().is_empty() {
            return Action::Continue;
        }
        if player.set_uri(self.input.as_str()) {
            Action::Resolve(self.input.clone())
        } else {
            Action::Continue
        }
    }

    fn input_key(&mut self, player: &mut Player, key: Key) -> (action: Action)
        requires
            old(self).focused is Input,
        ensures
            (Step { app: final(self)@, session: final(player)@, action: action@ }) == input_step(
                old(self)@,
                old(player)@,
                key,
            ),
    {
        match key {
            Key::Char(c) => {
                if c == '\t' {
                    self.focused = self.focused.next();
                    Action::Continue
                } else if c == '\n' {
                    self.enter_pressed(player)
                } else {
                    self.input.push(c);
                    Action::Continue
                }
            },
            Key::BackTab => {
                self.focused = self.focused.prev();
                Action::Continue
            },
            Key::Ctrl(c) => {
                if c == 'h' {
                    self.input.clear();
                    Action::Continue
                } else if c == 'v' {
                    Action::Paste
                } else {
                    Action::Continue
                }
            },
            Key::Backspace => {
                self.input.pop();
                Action::Continue
            },
            Key::Other => Action::Continue,
        }
    }

    fn control_key(&mut self, player: &mut Player, button: PlayerButton, key: Key) -> (action:
        Action)
        requires
            old(self).focused == Focused::Player(button),
        ensures
            (Step { app: final(self)@, session: final(player)@, action: action@ }) == control_step(
                old(self)@,
                old(player)@,
                button,
                key,
            ),
    {
        match key {
            Key::Char(c) => {
                if c == '\t' {
                    self.focused = self.focused.next();
                    Action::Continue
                } else if c == '\n' {
                    match button {
                        PlayerButton::PlayPause => Action::Engine(player.toggle_play_pause()),
                        PlayerButton::Stop => Action::Engine(player.stop()),
                    }
                } else {
                    Action::Continue
                }
            },
            Key::BackTab => {
                self.focused = self.focused.prev();
                Action::Continue
            },
            _ => Action::Continue,
        }
    }

    /// Applies one event to the control loop's state and to the session, and
    /// returns what the caller has to do.
    pub fn handle_event(&mut self, player: &mut Player, event: Event) -> (action: Action)
        ensures
            (Step { app: final(self)@, session: final(player)@, action: action@ }) == step(
                old(self)@,
                old(player)@,
                event,
            ),
    {
        match event {
            Event::Tick => Action::Continue,
            Event::Input(key) => {
                if key == Key::Ctrl('c') {
                    return Action::Quit;
                }
                match self.focused {
                    Focused::Input => self.input_key(player, key),
                    Focused::Player(button) => self.control_key(player, button, key),
                }
            },
        }
    }
}

} // verus!
