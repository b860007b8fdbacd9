use termplay::app::{App, Highlight};
use termplay::event::{Action, Event, Key, TICK_INTERVAL_MS};
use termplay::focus::{Focused, PlayerButton};
use termplay::player::{EngineCommand, Player, ResolverReply, StreamFormat};

fn app_with(input: &str, focused: Focused) -> App {
    App { input: input.to_string(), focused }
}

fn press(app: &mut App, player: &mut Player, key: Key) -> Action {
    app.handle_event(player, Event::Input(key))
}

const ON_PLAY_PAUSE: Focused = Focused::Player(PlayerButton::PlayPause);
const ON_STOP: Focused = Focused::Player(PlayerButton::Stop);

#[test]
fn app_starts_in_the_text_field_with_a_sample_address() {
    let app = App::new();
    assert_eq!(app.input, "https://www.youtube.com/watch?v=ukzOgoLjHLk");
    assert_eq!(app.focused, Focused::Input);
}

#[test]
fn tick_interval_is_a_quarter_second() {
    assert_eq!(TICK_INTERVAL_MS, 250);
}

#[test]
fn tick_changes_nothing() {
    for focused in [Focused::Input, ON_PLAY_PAUSE, ON_STOP] {
        let mut app = app_with("abc", focused);
        let mut player = Player::new();
        assert_eq!(app.handle_event(&mut player, Event::Tick), Action::Continue);
        assert_eq!(app.input, "abc");
        assert_eq!(app.focused, focused);
        assert!(!player.playing());
        assert!(!player.fetching());
    }
}

#[test]
fn ctrl_c_quits_whatever_has_the_focus() {
    for focused in [Focused::Input, ON_PLAY_PAUSE, ON_STOP] {
        let mut app = app_with("abc", focused);
        let mut player = Player::new();
        assert_eq!(press(&mut app, &mut player, Key::Ctrl('c')), Action::Quit);
        assert_eq!(app.input, "abc");
        assert_eq!(app.focused, focused);
    }
}

#[test]
fn tab_presses_cycle_the_focus() {
    let ring = [Focused::Input, ON_PLAY_PAUSE, ON_STOP];
    let mut app = app_with("abc", Focused::Input);
    let mut player = Player::new();
    for n in 0..20usize {
        assert_eq!(app.focused, ring[n % 3]);
        assert_eq!(press(&mut app, &mut player, Key::Char('\t')), Action::Continue);
    }
    assert_eq!(app.input, "abc");
    assert_eq!(player.uri(), "");
}

#[test]
fn shift_tab_presses_cycle_the_other_way() {
    let ring = [Focused::Input, ON_STOP, ON_PLAY_PAUSE];
    let mut app = app_with("abc", Focused::Input);
    let mut player = Player::new();
    for n in 0..20usize {
        assert_eq!(app.focused, ring[n % 3]);
        assert_eq!(press(&mut app, &mut player, Key::BackTab), Action::Continue);
    }
    assert_eq!(app.input, "abc");
}

#[test]
fn shift_tabs_undo_tabs() {
    for start in [Focused::Input, ON_PLAY_PAUSE, ON_STOP] {
        let mut app = app_with("", start);
        let mut player = Player::new();
        for _ in 0..7 {
            press(&mut app, &mut player, Key::Char('\t'));
        }
        for _ in 0..7 {
            press(&mut app, &mut player, Key::BackTab);
        }
        assert_eq!(app.focused, start);
    }
}

#[test]
fn characters_are_appended() {
    let mut app = app_with("", Focused::Input);
    let mut player = Player::new();
    for c in ['h', 't', 't', 'p', ':', ' ', 'é', '日'] {
        assert_eq!(press(&mut app, &mut player, Key::Char(c)), Action::Continue);
    }
    assert_eq!(app.input, "http: é日");
    assert_eq!(app.focused, Focused::Input);
}

#[test]
fn backspace_removes_the_last_character() {
    let mut app = app_with("ab日", Focused::Input);
    let mut player = Player::new();
    assert_eq!(press(&mut app, &mut player, Key::Backspace), Action::Continue);
    assert_eq!(app.input, "ab");
    press(&mut app, &mut player, Key::Backspace);
    press(&mut app, &mut player, Key::Backspace);
    assert_eq!(app.input, "");
    assert_eq!(press(&mut app, &mut player, Key::Backspace), Action::Continue);
    assert_eq!(app.input, "");
}

#[test]
fn ctrl_h_clears_the_text() {
    let mut app = app_with("something", Focused::Input);
    let mut player = Player::new();
    assert_eq!(press(&mut app, &mut player, Key::Ctrl('h')), Action::Continue);
    assert_eq!(app.input, "");
    assert_eq!(app.focused, Focused::Input);
}

#[test]
fn ctrl_v_asks_for_the_clipboard() {
    let mut app = app_with("ab", Focused::Input);
    let mut player = Player::new();
    assert_eq!(press(&mut app, &mut player, Key::Ctrl('v')), Action::Paste);
    assert_eq!(app.input, "ab");
    app.paste("cd");
    assert_eq!(app.input, "abcd");
    app.paste("");
    assert_eq!(app.input, "abcd");
}

#[test]
fn paste_is_dropped_outside_the_text_field() {
    for focused in [ON_PLAY_PAUSE, ON_STOP] {
        let mut app = app_with("ab", focused);
        app.paste("cd");
        assert_eq!(app.input, "ab");
    }
}

#[test]
fn other_keys_are_ignored_in_the_text_field() {
    let mut app = app_with("ab", Focused::Input);
    let mut player = Player::new();
    for key in [Key::Other, Key::Ctrl('x'), Key::Ctrl('\t'), Key::Ctrl('\n')] {
        assert_eq!(press(&mut app, &mut player, key), Action::Continue);
        assert_eq!(app.input, "ab");
        assert_eq!(app.focused, Focused::Input);
        assert_eq!(player.uri(), "");
    }
}

#[test]
fn enter_submits_the_text() {
    let mut app = app_with("https://a.example/1", Focused::Input);
    let mut player = Player::new();
    assert_eq!(
        press(&mut app, &mut player, Key::Char('\n')),
        Action::Resolve("https://a.example/1".to_string())
    );
    assert_eq!(app.input, "https://a.example/1");
    assert_eq!(player.uri(), "https://a.example/1");
    assert!(player.fetching());
}

#[test]
fn enter_twice_submits_once() {
    let mut app = app_with("https://a.example/1", Focused::Input);
    let mut player = Player::new();
    let first = press(&mut app, &mut player, Key::Char('\n'));
    let second = press(&mut app, &mut player, Key::Char('\n'));
    assert_eq!(first, Action::Resolve("https://a.example/1".to_string()));
    assert_eq!(second, Action::Continue);
}

#[test]
fn enter_on_empty_text_submits_nothing() {
    let mut app = app_with("", Focused::Input);
    let mut player = Player::new();
    assert_eq!(press(&mut app, &mut player, Key::Char('\n')), Action::Continue);
    assert_eq!(player.uri(), "");
    assert!(!player.fetching());
}

#[test]
fn enter_on_emptied_text_keeps_the_earlier_request() {
    let mut app = app_with("A", Focused::Input);
    let mut player = Player::new();
    press(&mut app, &mut player, Key::Char('\n'));
    let reply = ResolverReply {
        title: "T".to_string(),
        formats: vec![StreamFormat { url: "m".to_string() }],
    };
    player.resolution_finished("A", Some(reply));
    press(&mut app, &mut player, Key::Ctrl('h'));
    assert_eq!(press(&mut app, &mut player, Key::Char('\n')), Action::Continue);
    assert_eq!(player.uri(), "A");
    assert!(!player.fetching());
    assert!(player.stream_info().is_some());
}

#[test]
fn enter_on_play_pause_starts_playback() {
    let mut app = app_with("abc", ON_PLAY_PAUSE);
    let mut player = Player::new();
    assert!(!player.playing());
    assert_eq!(
        press(&mut app, &mut player, Key::Char('\n')),
        Action::Engine(EngineCommand::Play)
    );
    assert!(player.playing());
    assert_eq!(app.focused, ON_PLAY_PAUSE);
    assert_eq!(app.input, "abc");
}

#[test]
fn enter_on_play_pause_pauses_when_playing() {
    let mut app = app_with("abc", ON_PLAY_PAUSE);
    let mut player = Player::new();
    player.play();
    assert_eq!(
        press(&mut app, &mut player, Key::Char('\n')),
        Action::Engine(EngineCommand::Pause)
    );
    assert!(!player.playing());
}

#[test]
fn enter_on_stop_stops() {
    let mut app = app_with("abc", ON_STOP);
    let mut player = Player::new();
    player.play();
    assert_eq!(
        press(&mut app, &mut player, Key::Char('\n')),
        Action::Engine(EngineCommand::Stop)
    );
    assert!(!player.playing());
    assert_eq!(
        press(&mut app, &mut player, Key::Char('\n')),
        Action::Engine(EngineCommand::Stop)
    );
    assert!(!player.playing());
}

#[test]
fn buttons_ignore_text_keys() {
    for focused in [ON_PLAY_PAUSE, ON_STOP] {
        let mut app = app_with("abc", focused);
        let mut player = Player::new();
        for key in [
            Key::Char('x'),
            Key::Backspace,
            Key::Ctrl('h'),
            Key::Ctrl('v'),
            Key::Other,
        ] {
            assert_eq!(press(&mut app, &mut player, key), Action::Continue);
            assert_eq!(app.input, "abc");
            assert_eq!(app.focused, focused);
            assert!(!player.playing());
        }
    }
}

#[test]
fn highlights_follow_the_focus() {
    let input = app_with("", Focused::Input);
    assert_eq!(input.style_input_chunk(), Highlight::Accent);
    assert_eq!(input.style_player_chunk(), Highlight::Plain);
    assert_eq!(input.style_play_pause_control(), Highlight::Plain);
    assert_eq!(input.style_stop_control(), Highlight::Plain);

    let play_pause = app_with("", ON_PLAY_PAUSE);
    assert_eq!(play_pause.style_input_chunk(), Highlight::Plain);
    assert_eq!(play_pause.style_player_chunk(), Highlight::Accent);
    assert_eq!(play_pause.style_play_pause_control(), Highlight::AccentBold);
    assert_eq!(play_pause.style_stop_control(), Highlight::Plain);

    let stop = app_with("", ON_STOP);
    assert_eq!(stop.style_input_chunk(), Highlight::Plain);
    assert_eq!(stop.style_player_chunk(), Highlight::Accent);
    assert_eq!(stop.style_play_pause_control(), Highlight::Plain);
    assert_eq!(stop.style_stop_control(), Highlight::AccentBold);
}
