//! Control core of a terminal stream player: the keyboard-focus ring, the
//! event-to-action step of the control loop, and the session that coordinates
//! URL resolution with the playback engine.
//!
//! Nothing here touches a terminal, a clock or the playback engine. Every
//! operation maps the current state and an input to the next state and the
//! commands the caller has to carry out.

pub mod app;
pub mod clock;
pub mod cursor;
pub mod event;
pub mod focus;
pub mod player;
pub mod session;
pub mod step;
pub mod text;
