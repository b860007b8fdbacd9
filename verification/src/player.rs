//! The playback session: what was requested, whether a resolution is
//! outstanding, what it resolved to, and whether the engine is playing.
//!
//! The session never talks to the resolver or to the playback engine. Each
//! operation updates the session and hands back what the caller must do: launch
//! a resolution, or send commands to the engine.

use vstd::prelude::*;
use crate::clock::push_clock;
use crate::session::{
    stream_of, spinner_frames, EngineCommandView, ReplyView, Session, StreamInfoView, StreamView,
};

verus! {

/// Number of frames of the busy indicator.
pub const SPINNER_FRAMES: usize = 8;

/// A fraction between zero and one; the denominator is never zero.
#[derive(Clone, Copy, Debug, PartialEq, Eq, Structural)]
pub struct Ratio {
    pub numerator: u64,
    pub denominator: u64,
}

/// One candidate stream of a resolver reply.
#[derive(Debug, PartialEq, Eq)]
pub struct StreamFormat {
    pub url: String,
}

/// What the resolver answers for a URL: a title and the candidate streams.
#[derive(Debug, PartialEq, Eq)]
pub struct ResolverReply {
    pub title: String,
    pub formats: Vec<StreamFormat>,
}

/// A playable stream: the media URI for the engine and a title for display.
#[derive(Debug, PartialEq, Eq)]
pub struct Stream {
    pub media_uri: String,
    pub title: String,
}

/// The record kept once a resolution has succeeded.
#[derive(Debug, PartialEq, Eq)]
pub struct StreamInfo {
    /// The URL the user submitted.
    pub uri: String,
    pub title: String,
}

/// A command for the playback engine.
#[derive(Debug, PartialEq, Eq)]
pub enum EngineCommand {
    SetUri(String),
    DisableVideoTrack,
    Play,
    Pause,
    Stop,
}

impl View for ResolverReply {
    type V = ReplyView;

    open spec fn view(&self) -> ReplyView {
        ReplyView {
            title: self.title@,
            formats: Seq::new(self.formats@.len(), |i: int| self.formats@[i].url@),
        }
    }
}

impl View for Stream {
    type V = StreamView;

    open spec fn view(&self) -> StreamView {
        StreamView { media_uri: self.media_uri@, title: self.title@ }
    }
}

impl View for StreamInfo {
    type V = StreamInfoView;

    open spec fn view(&self) -> StreamInfoView {
        StreamInfoView { uri: self.uri@, title: self.title@ }
    }
}

impl View for EngineCommand {
    type V = EngineCommandView;

    open spec fn view(&self) -> EngineCommandView {
        match self {
            EngineCommand::SetUri(uri) => EngineCommandView::SetUri(uri@),
            EngineCommand::DisableVideoTrack => EngineCommandView::DisableVideoTrack,
            EngineCommand::Play => EngineCommandView::Play,
            EngineCommand::Pause => EngineCommandView::Pause,
            EngineCommand::Stop => EngineCommandView::Stop,
        }
    }
}

/// The views of a list of commands, in order.
pub open spec fn command_views(commands: Seq<EngineCommand>) -> Seq<EngineCommandView> {
    Seq::new(commands.len(), |i: int| commands[i]@)
}

/// What the resolver answered, if it answered.
pub open spec fn reply_view(reply: Option<ResolverReply>) -> Option<ReplyView> {
    match reply {
        Some(r) => Some(r@),
        None => None,
    }
}

/// The record of a resolution, if there is one.
pub open spec fn stream_info_view(info: Option<&StreamInfo>) -> Option<StreamInfoView> {
    match info {
        Some(i) => Some(i@),
        None => None,
    }
}

/// The stream, if there is one.
pub open spec fn stream_view(stream: Option<Stream>) -> Option<StreamView> {
    match stream {
        Some(s) => Some(s@),
        None => None,
    }
}

/// Whole seconds reported by the engine; an unknown time counts as zero.
pub open spec fn seconds(time: Option<u64>) -> nat {
    match time {
        Some(t) => t as nat,
        None => 0,
    }
}

/// Position over duration, at most one; zero while the duration is unknown or
/// zero.
pub open spec fn progress_ratio(position: Option<u64>, duration: Option<u64>) -> Ratio {
    if seconds(duration) == 0 {
        Ratio { numerator: 0, denominator: 1 }
    } else if seconds(position) <= seconds(duration) {
        Ratio { numerator: seconds(position) as u64, denominator: seconds(duration) as u64 }
    } else {
        Ratio { numerator: seconds(duration) as u64, denominator: seconds(duration) as u64 }
    }
}

impl ResolverReply {
    /// The stream to play: the first format of the reply, under the reply's
    /// title. `None` when the reply lists no format.
    pub fn first_stream(&self) -> (stream: Option<Stream>)
        ensures
            stream_view(stream) == stream_of(Some(self@)),
    {
        if self.formats.len() == 0 {
            None
        } else {
            Some(Stream { media_uri: self.formats[0].url.clone(), title: self.title.clone() })
        }
    }
}

/// The shared playback session.
pub struct Player {
    uri: String,
    fetching: bool,
    stream_info: Option<StreamInfo>,
    playing: bool,
    spinner: usize,
}

impl View for Player {
    type V = Session;

    closed spec fn view(&self) -> Session {
        Session {
            requested_url: self.uri@,
            resolving: self.fetching,
            resolved: match self.stream_info {
                Some(info) => Some(info@),
                None => None,
            },
            playing: self.playing,
            spinner_phase: self.spinner as nat,
        }
    }
}

fn spinner_glyph(phase: usize) -> (glyph: char)
    requires
        phase < 8,
    ensures
        glyph == spinner_frames()[phase as int],
{
    if phase == 0 || phase == 4 {
        '|'
    } else if phase == 1 || phase == 5 {
        '/'
    } else if phase == 2 || phase == 6 {
        '-'
    } else {
        '\\'
    }
}

impl Player {
    /// Holds of every `Player`; the operations hand it on as `Session::wf`.
    #[verifier::type_invariant]
    spec fn inv(self) -> bool {
        &&& self.spinner < 8
        &&& (self.stream_info matches Some(info) ==> info.uri@ == self.uri@)
        &&& (self.fetching ==> self.stream_info is None)
    }

    /// An empty session: nothing requested, nothing resolving, not playing.
    pub fn new() -> (player: Player)
        ensures
            player@ == Session::initial(),
            player@.wf(),
    {
        Player {
            uri: String::new(),
            fetching: false,
            stream_info: None,
            playing: false,
            spinner: 0,
        }
    }

    /// Submits `uri`. Submitting the URL that is already requested changes
    /// nothing. Any other URL becomes the requested one, drops what the
    /// previous one resolved to, and marks the session as resolving.
    ///
    /// Returns whether the caller has to launch a resolution for `uri`.
    pub fn set_uri(&mut self, uri: &str) -> (launch: bool)
        ensures
            launch == old(self)@.submit_launches(uri@),
            final(self)@ == old(self)@.submit(uri@),
            old(self)@.wf(),
            final(self)@.wf(),
    {
        proof {
            use_type_invariant(&*self);
        }
        if self.uri.as_str().eq(uri) {
            return false;
        }
        self.stream_info = None;
        self.uri = uri.to_owned();
        self.fetching = true;
        true
    }

    /// Records the end of the resolution that was launched for `url`: `reply`
    /// is what the resolver answered, or `None` if it failed.
    ///
    /// A result for a URL that is no longer the requested one is dropped
    /// without a trace. Otherwise the session stops resolving; and if the
    /// reply holds a stream, the session records it, counts as playing, and
    /// the returned commands load and start that stream.
    pub fn resolution_finished(&mut self, url: &str, reply: Option<ResolverReply>) -> (commands:
        Vec<EngineCommand>)
        ensures
            final(self)@ == old(self)@.complete(url@, stream_of(reply_view(reply))),
            command_views(commands@) == old(self)@.completion_commands(
                url@,
                stream_of(reply_view(reply)),
            ),
            old(self)@.wf(),
            final(self)@.wf(),
    {
        proof {
            use_type_invariant(&*self);
        }
        let mut commands: Vec<EngineCommand> = Vec::new();
        if !self.uri.as_str().eq(url) {
            return commands;
        }
        let stream = match &reply {
            Some(r) => r.first_stream(),
            None => None,
        };
        self.fetching = false;
        match stream {
            Some(s) => {
                self.playing = true;
                self.stream_info = Some(StreamInfo { uri: url.to_owned(), title: s.title });
                commands.push(EngineCommand::SetUri(s.media_uri));
                commands.push(EngineCommand::DisableVideoTrack);
                commands.push(EngineCommand::Play);
            },
            None => {},
        }
        commands
    }

    /// How far playback has come, from the engine's position and duration in
    /// seconds: zero while the duration is unknown or zero, else position
    /// over duration, at most one.
    pub fn progress(&self, position: Option<u64>, duration: Option<u64>) -> (ratio: Ratio)
        ensures
            ratio == progress_ratio(position, duration),
            ratio.denominator > 0,
            ratio.numerator <= ratio.denominator,
            seconds(duration) == 0 ==> ratio.numerator == 0,
    {
        let dur: u64 = match duration {
            Some(d) => d,
            None => 0,
        };
        let pos: u64 = match position {
            Some(p) => p,
            None => 0,
        };
        if dur == 0 {
            Ratio { numerator: 0, denominator: 1 }
        } else if pos >= dur {
            Ratio { numerator: dur, denominator: dur }
        } else {
            Ratio { numerator: pos, denominator: dur }
        }
    }

    /// The current busy-indicator frame; moves on to the next frame.
    pub fn spin(&mut self) -> (frame: String)
        ensures
            frame@ == seq![spinner_frames()[old(self)@.spinner_phase as int]],
            final(self)@ == (Session {
                spinner_phase: (old(self)@.spinner_phase + 1) % 8,
                ..old(self)@
            }),
            old(self)@.wf(),
            final(self)@.wf(),
    {
        proof {
            use_type_invariant(&*self);
        }
        let phase: usize = self.spinner;
        self.spinner = (phase + 1) % SPINNER_FRAMES;
        let mut frame = String::new();
        frame.push(spinner_glyph(phase));
        frame
    }

    /// The title line. While a resolution is outstanding it is the next
    /// busy-indicator frame. Otherwise it is the resolved title followed by
    /// the elapsed and the total time, or empty if nothing has been resolved.
    pub fn title(&mut self, position: Option<u64>, duration: Option<u64>) -> (text: String)
        ensures
            text@ == old(self)@.title_text(seconds(position), seconds(duration)),
            final(self)@ == old(self)@.after_title(),
            old(self)@.wf(),
            final(self)@.wf(),
    {
        proof {
            use_type_invariant(&*self);
        }
        if self.fetching {
            return self.spin();
        }
        match &self.stream_info {
            None => String::new(),
            Some(info) => {
                let dur: u64 = match duration {
                    Some(d) => d,
                    None => 0,
                };
                let pos: u64 = match position {
                    Some(p) => p,
                    None => 0,
                };
                let mut text = info.title.clone();
                text.push(' ');
                text.push('(');
                push_clock(&mut text, pos);
                text.push(' ');
                text.push('/');
                text.push(' ');
                push_clock(&mut text, dur);
                text.push(')');
                text
            },
        }
    }

    /// Whether the engine is playing.
    pub fn playing(&self) -> (playing: bool)
        ensures
            playing == self@.playing,
            self@.wf(),
    {
        proof {
            use_type_invariant(self);
        }
        self.playing
    }

    /// The URL that was submitted last; empty before the first submission.
    pub fn uri(&self) -> (uri: &str)
        ensures
            uri@ == self@.requested_url,
            self@.wf(),
    {
        proof {
            use_type_invariant(self);
        }
        self.uri.as_str()
    }

    /// Whether a resolution is outstanding.
    pub fn fetching(&self) -> (fetching: bool)
        ensures
            fetching == self@.resolving,
            self@.wf(),
    {
        proof {
            use_type_invariant(self);
        }
        self.fetching
    }

    /// What the requested URL resolved to, once it has.
    pub fn stream_info(&self) -> (info: Option<&StreamInfo>)
        ensures
            stream_info_view(info) == self@.resolved,
            self@.wf(),
    {
        proof {
            use_type_invariant(self);
        }
        self.stream_info.as_ref()
    }

    /// Starts playback.
    pub fn play(&mut self) -> (command: EngineCommand)
        ensures
            command@ == EngineCommandView::Play,
            final(self)@ == old(self)@.with_playing(true),
            old(self)@.wf(),
            final(self)@.wf(),
    {
        proof {
            use_type_invariant(&*self);
        }
        self.playing = true;
        EngineCommand::Play
    }

    /// Pauses playback.
    pub fn pause(&mut self) -> (command: EngineCommand)
        ensures
            command@ == EngineCommandView::Pause,
            final(self)@ == old(self)@.with_playing(false),
            old(self)@.wf(),
            final(self)@.wf(),
    {
        proof {
            use_type_invariant(&*self);
        }
        self.playing = false;
        EngineCommand::Pause
    }

    /// Stops playback. What was resolved stays, so the title stays visible.
    pub fn stop(&mut self) -> (command: EngineCommand)
        ensures
            command@ == EngineCommandView::Stop,
            final(self)@ == old(self)@.stopped(),
            old(self)@.wf(),
            final(self)@.wf(),
    {
        proof {
            use_type_invariant(&*self);
        }
        self.playing = false;
        EngineCommand::Stop
    }

    /// The play/pause button: pauses when playing, plays otherwise.
    pub fn toggle_play_pause(&mut self) -> (command: EngineCommand)
        ensures
            command@ == old(self)@.toggle_command(),
            final(self)@ == old(self)@.toggled(),
            old(self)@.wf(),
            final(self)@.wf(),
    {
        if self.playing {
            self.pause()
        } else {
            self.play()
        }
    }

    /// The engine has reported an error: playback is stopped, whatever the
    /// session was doing.
    pub fn engine_error(&mut self) -> (command: EngineCommand)
        ensures
            command@ == EngineCommandView::Stop,
            final(self)@ == old(self)@.stopped(),
            old(self)@.wf(),
            final(self)@.wf(),
    {
        self.stop()
    }
}

/// The progress ratio lies between zero and one, and is zero while the
/// duration is unknown or zero.
pub proof fn lemma_progress_in_unit_interval(position: Option<u64>, duration: Option<u64>)
    ensures
        progress_ratio(position, duration).denominator > 0,
        progress_ratio(position, duration).numerator <= progress_ratio(
            position,
            duration,
        ).denominator,
        seconds(duration) == 0 ==> progress_ratio(position, duration).numerator == 0,
{
}

} // verus!
