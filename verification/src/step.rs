//! The control loop as a function: the state before an event, the event, the
//! state after it and what the caller has to do; and the laws of that
//! function.

use vstd::prelude::*;
use crate::event::{ActionView, Event, Key, key_clear, key_enter, key_paste, key_quit, key_tab};
use crate::focus::{
    lemma_back_tab_cycle, lemma_retreat_inverts_advance, lemma_tab_cycle, Focused, PlayerButton,
};
use crate::session::{EngineCommandView, Session};

verus! {

/// The control loop's own state: the text typed so far and the focus.
pub struct AppView {
    pub input: Seq<char>,
    pub focused: Focused,
}

/// The state after an event, and what the caller has to do.
pub struct Step {
    pub app: AppView,
    pub session: Session,
    pub action: ActionView,
}

impl AppView {
    pub open spec fn with_focus(self, focused: Focused) -> AppView {
        AppView { focused, ..self }
    }

    pub open spec fn with_input(self, input: Seq<char>) -> AppView {
        AppView { input, ..self }
    }

    /// The text without its last character; an empty text stays empty.
    pub open spec fn erased(self) -> AppView {
        if self.input.len() > 0 {
            self.with_input(self.input.drop_last())
        } else {
            self
        }
    }

    /// The state after clipboard text has arrived: it is appended while the
    /// text field has the focus, and dropped otherwise.
    pub open spec fn pasted(self, text: Seq<char>) -> AppView {
        if self.focused is Input {
            self.with_input(self.input + text)
        } else {
            self
        }
    }
}

/// A step that changes nothing and asks for nothing.
pub open spec fn idle(app: AppView, session: Session) -> Step {
    Step { app, session, action: ActionView::Continue }
}

/// Enter in the text field: an empty text submits nothing; any other text is
/// submitted, and a resolution is asked for if the session wants one.
pub open spec fn enter_step(app: AppView, session: Session) -> Step {
    if app.input.len() > 0 && session.submit_launches(app.input) {
        Step { app, session: session.submit(app.input), action: ActionView::Resolve(app.input) }
    } else {
        idle(app, session)
    }
}

/// A key other than Ctrl-C while the text field has the focus.
pub open spec fn input_step(app: AppView, session: Session, key: Key) -> Step {
    if key == key_tab() {
        idle(app.with_focus(app.focused.spec_next()), session)
    } else if key == Key::BackTab {
        idle(app.with_focus(app.focused.spec_prev()), session)
    } else if key == key_clear() {
        idle(app.with_input(Seq::empty()), session)
    } else if key == key_enter() {
        enter_step(app, session)
    } else if key == key_paste() {
        Step { app, session, action: ActionView::Paste }
    } else if key is Char {
        idle(app.with_input(app.input.push(key->Char_0)), session)
    } else if key == Key::Backspace {
        idle(app.erased(), session)
    } else {
        idle(app, session)
    }
}

/// A key other than Ctrl-C while `button` has the focus.
pub open spec fn control_step(
    app: AppView,
    session: Session,
    button: PlayerButton,
    key: Key,
) -> Step {
    if key == key_tab() {
        idle(app.with_focus(app.focused.spec_next()), session)
    } else if key == Key::BackTab {
        idle(app.with_focus(app.focused.spec_prev()), session)
    } else if key == key_enter() {
        match button {
            PlayerButton::PlayPause => Step {
                app,
                session: session.toggled(),
                action: ActionView::Engine(session.toggle_command()),
            },
            PlayerButton::Stop => Step {
                app,
                session: session.stopped(),
                action: ActionView::Engine(EngineCommandView::Stop),
            },
        }
    } else {
        idle(app, session)
    }
}

/// The reaction to one event. A tick changes nothing. Ctrl-C quits whatever
/// has the focus. Every other key goes to the focused element.
pub open spec fn step(app: AppView, session: Session, event: Event) -> Step {
    match event {
        Event::Tick => idle(app, session),
        Event::Input(key) => if key == key_quit() {
            Step { app, session, action: ActionView::Quit }
        } else {
            match app.focused {
                Focused::Input => input_step(app, session, key),
                Focused::Player(button) => control_step(app, session, button, key),
            }
        },
    }
}

/// The state after a run of events, each applied to what the one before it
/// left.
pub open spec fn run(app: AppView, session: Session, events: Seq<Event>) -> (AppView, Session)
    decreases events.len(),
{
    if events.len() == 0 {
        (app, session)
    } else {
        let before = run(app, session, events.drop_last());
        let last = step(before.0, before.1, events.last());
        (last.app, last.session)
    }
}

/// Whether every event of the run is a press of `key`.
pub open spec fn all_presses_of(events: Seq<Event>, key: Key) -> bool {
    forall|i: int| 0 <= i < events.len() ==> events[i] == Event::Input(key)
}

/// Any number of Tab presses moves the focus that many positions round the
/// ring and touches nothing else. From the text field, `n` presses end where
/// `n % 3` presses end.
pub proof fn lemma_tab_presses(app: AppView, session: Session, events: Seq<Event>)
    requires
        all_presses_of(events, key_tab()),
    ensures
        run(app, session, events) == (
            app.with_focus(app.focused.advance(events.len())),
            session,
        ),
        app.focused.advance(events.len()) == app.focused.advance(events.len() % 3),
        app.focused is Input ==> app.focused.advance(events.len()) == Focused::spec_at(
            events.len(),
        ),
    decreases events.len(),
{
    lemma_tab_cycle(app.focused, events.len());
    if events.len() > 0 {
        lemma_tab_presses(app, session, events.drop_last());
    }
}

/// Any number of Shift-Tab presses moves the focus that many positions back
/// round the ring and touches nothing else.
pub proof fn lemma_back_tab_presses(app: AppView, session: Session, events: Seq<Event>)
    requires
        all_presses_of(events, Key::BackTab),
    ensures
        run(app, session, events) == (
            app.with_focus(app.focused.retreat(events.len())),
            session,
        ),
        app.focused.retreat(events.len()) == app.focused.retreat(events.len() % 3),
    decreases events.len(),
{
    lemma_back_tab_cycle(app.focused, events.len());
    if events.len() > 0 {
        lemma_back_tab_presses(app, session, events.drop_last());
    }
}

/// A run of Tab presses followed by as many Shift-Tab presses ends where it
/// began.
pub proof fn lemma_back_tabs_undo_tabs(
    app: AppView,
    session: Session,
    tabs: Seq<Event>,
    back_tabs: Seq<Event>,
)
    requires
        all_presses_of(tabs, key_tab()),
        all_presses_of(back_tabs, Key::BackTab),
        tabs.len() == back_tabs.len(),
    ensures
        ({
            let middle = run(app, session, tabs);
            run(middle.0, middle.1, back_tabs) == (app, session)
        }),
{
    lemma_tab_presses(app, session, tabs);
    let middle = run(app, session, tabs);
    lemma_back_tab_presses(middle.0, middle.1, back_tabs);
    lemma_retreat_inverts_advance(app.focused, tabs.len());
}

/// Only Tab and Shift-Tab move the focus.
pub proof fn lemma_only_tabs_move_focus(app: AppView, session: Session, event: Event)
    requires
        event != Event::Input(key_tab()),
        event != Event::Input(Key::BackTab),
    ensures
        step(app, session, event).app.focused == app.focused,
{
}

/// The text changes only while the text field has the focus.
pub proof fn lemma_text_changes_only_in_focus(app: AppView, session: Session, event: Event)
    requires
        !(app.focused is Input),
    ensures
        step(app, session, event).app.input == app.input,
{
}

/// The session changes only on Enter.
pub proof fn lemma_session_changes_only_on_enter(app: AppView, session: Session, event: Event)
    requires
        event != Event::Input(key_enter()),
    ensures
        step(app, session, event).session == session,
{
}

/// The loop is left on Ctrl-C and on nothing else, whatever has the focus;
/// Ctrl-C changes no state.
pub proof fn lemma_quit_on_ctrl_c(app: AppView, session: Session, event: Event)
    ensures
        step(app, session, event).action is Quit <==> event == Event::Input(key_quit()),
        step(app, session, event).action is Quit ==> step(app, session, event).app == app && step(
            app,
            session,
            event,
        ).session == session,
{
}

/// A resolution is asked for only on Enter in the text field, only for the
/// text it holds, never for an empty text, and never for the URL that is
/// already requested. The session is then resolving that URL.
pub proof fn lemma_resolve_is_a_fresh_submission(app: AppView, session: Session, event: Event)
    requires
        step(app, session, event).action is Resolve,
    ensures
        event == Event::Input(key_enter()),
        app.focused is Input,
        app.input.len() > 0,
        app.input != session.requested_url,
        step(app, session, event).action == ActionView::Resolve(app.input),
        step(app, session, event).session.requested_url == app.input,
        step(app, session, event).session.resolving,
{
}

/// Enter on an empty text field does nothing at all.
pub proof fn lemma_enter_on_empty_text_is_idle(app: AppView, session: Session)
    requires
        app.focused is Input,
        app.input.len() == 0,
    ensures
        step(app, session, Event::Input(key_enter())) == idle(app, session),
{
}

/// A step keeps a well-formed session well formed.
pub proof fn lemma_step_keeps_session_wf(app: AppView, session: Session, event: Event)
    requires
        session.wf(),
    ensures
        step(app, session, event).session.wf(),
{
}

/// A run of events keeps a well-formed session well formed.
pub proof fn lemma_run_keeps_session_wf(app: AppView, session: Session, events: Seq<Event>)
    requires
        session.wf(),
    ensures
        run(app, session, events).1.wf(),
    decreases events.len(),
{
    if events.len() > 0 {
        lemma_run_keeps_session_wf(app, session, events.drop_last());
    }
}

/// Enter pressed twice in a row asks for at most one resolution: the second
/// press changes nothing and asks for nothing.
pub proof fn lemma_second_enter_is_idle(app: AppView, session: Session)
    requires
        app.focused is Input,
    ensures
        ({
            let first = step(app, session, Event::Input(key_enter()));
            step(first.app, first.session, Event::Input(key_enter())) == idle(
                first.app,
                first.session,
            )
        }),
{
}

} // verus!
