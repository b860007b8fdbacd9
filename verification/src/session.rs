//! The playback session as the contracts see it: a plain value, the
//! operations on it as functions from one session to the next, and the laws
//! that hold of them.

use vstd::prelude::*;
use crate::clock::clock_text;

verus! {

/// The frames of the busy indicator, in the order they are shown.
pub open spec fn spinner_frames() -> Seq<char> {
    seq!['|', '/', '-', '\\', '|', '/', '-', '\\']
}

/// A resolver reply: its title and the URLs of its formats, in order.
pub struct ReplyView {
    pub title: Seq<char>,
    pub formats: Seq<Seq<char>>,
}

/// A playable stream: the media URI and the title.
pub struct StreamView {
    pub media_uri: Seq<char>,
    pub title: Seq<char>,
}

/// The record of a successful resolution: the submitted URL and the title.
pub struct StreamInfoView {
    pub uri: Seq<char>,
    pub title: Seq<char>,
}

/// A command for the playback engine.
pub enum EngineCommandView {
    SetUri(Seq<char>),
    DisableVideoTrack,
    Play,
    Pause,
    Stop,
}

/// The stream a reply resolves to: its first format. A reply without formats
/// resolves to nothing, and so does a failed resolution.
pub open spec fn stream_of(reply: Option<ReplyView>) -> Option<StreamView> {
    match reply {
        Some(r) => if r.formats.len() > 0 {
            Some(StreamView { media_uri: r.formats[0], title: r.title })
        } else {
            None
        },
        None => None,
    }
}

/// The session as the contracts see it.
pub struct Session {
    /// The last URL submitted.
    pub requested_url: Seq<char>,
    /// Whether a resolution is outstanding.
    pub resolving: bool,
    /// What the requested URL resolved to, once it has.
    pub resolved: Option<StreamInfoView>,
    /// Whether the engine is playing.
    pub playing: bool,
    /// Index of the next busy-indicator frame.
    pub spinner_phase: nat,
}

impl Session {
    /// The session at startup.
    pub open spec fn initial() -> Session {
        Session {
            requested_url: Seq::empty(),
            resolving: false,
            resolved: None,
            playing: false,
            spinner_phase: 0,
        }
    }

    /// The busy indicator points at one of its frames; a resolved record
    /// belongs to the URL that is currently requested; and there is none
    /// while that URL is still resolving.
    pub open spec fn wf(self) -> bool {
        &&& self.spinner_phase < 8
        &&& (self.resolved matches Some(info) ==> info.uri == self.requested_url)
        &&& (self.resolving ==> self.resolved is None)
    }

    /// Whether submitting `url` starts a resolution.
    pub open spec fn submit_launches(self, url: Seq<char>) -> bool {
        url != self.requested_url
    }

    /// The session after `url` has been submitted.
    pub open spec fn submit(self, url: Seq<char>) -> Session {
        if self.submit_launches(url) {
            Session { requested_url: url, resolving: true, resolved: None, ..self }
        } else {
            self
        }
    }

    /// Whether the result of a resolution launched for `url` still counts.
    pub open spec fn accepts(self, url: Seq<char>) -> bool {
        url == self.requested_url
    }

    /// The session after the resolution launched for `url` has ended with
    /// `stream`, or has failed.
    pub open spec fn complete(self, url: Seq<char>, stream: Option<StreamView>) -> Session {
        if !self.accepts(url) {
            self
        } else {
            match stream {
                Some(s) => Session {
                    resolving: false,
                    resolved: Some(StreamInfoView { uri: url, title: s.title }),
                    playing: true,
                    ..self
                },
                None => Session { resolving: false, ..self },
            }
        }
    }

    /// The engine commands that the end of the resolution launched for `url`
    /// calls for.
    pub open spec fn completion_commands(
        self,
        url: Seq<char>,
        stream: Option<StreamView>,
    ) -> Seq<EngineCommandView> {
        match stream {
            Some(s) => if self.accepts(url) {
                seq![
                    EngineCommandView::SetUri(s.media_uri),
                    EngineCommandView::DisableVideoTrack,
                    EngineCommandView::Play,
                ]
            } else {
                Seq::empty()
            },
            None => Seq::empty(),
        }
    }

    /// The title line for the given position and duration in seconds.
    pub open spec fn title_text(self, position: nat, duration: nat) -> Seq<char> {
        if self.resolving {
            seq![spinner_frames()[(self.spinner_phase % 8) as int]]
        } else {
            match self.resolved {
                Some(info) => info.title + seq![' ', '('] + clock_text(position)
                    + seq![' ', '/', ' '] + clock_text(duration) + seq![')'],
                None => Seq::empty(),
            }
        }
    }

    /// The session after the title line has been asked for once.
    pub open spec fn after_title(self) -> Session {
        if self.resolving {
            Session { spinner_phase: (self.spinner_phase + 1) % 8, ..self }
        } else {
            self
        }
    }

    /// The session after the title line has been asked for `n` times.
    pub open spec fn after_titles(self, n: nat) -> Session
        decreases n,
    {
        if n == 0 {
            self
        } else {
            self.after_titles((n - 1) as nat).after_title()
        }
    }

    pub open spec fn with_playing(self, playing: bool) -> Session {
        Session { playing, ..self }
    }

    /// The command that the play/pause button sends.
    pub open spec fn toggle_command(self) -> EngineCommandView {
        if self.playing {
            EngineCommandView::Pause
        } else {
            EngineCommandView::Play
        }
    }

    /// The session after the play/pause button.
    pub open spec fn toggled(self) -> Session {
        self.with_playing(!self.playing)
    }

    /// The session after a stop, asked for by the user or forced by an engine
    /// error.
    pub open spec fn stopped(self) -> Session {
        self.with_playing(false)
    }
}

/// The session at startup is well formed, and every operation keeps it so.
pub proof fn lemma_operations_keep_wf(
    session: Session,
    url: Seq<char>,
    stream: Option<StreamView>,
)
    requires
        session.wf(),
    ensures
        Session::initial().wf(),
        session.submit(url).wf(),
        session.complete(url, stream).wf(),
        session.after_title().wf(),
        session.toggled().wf(),
        session.stopped().wf(),
{
}

/// Submitting the same URL twice in a row launches at most one resolution:
/// the second submission launches none and leaves the session as it is.
pub proof fn lemma_resubmission_is_idle(session: Session, url: Seq<char>)
    ensures
        !session.submit(url).submit_launches(url),
        session.submit(url).submit(url) == session.submit(url),
{
}

/// A submission that launches a resolution leaves the session resolving for
/// that URL, with nothing resolved yet.
pub proof fn lemma_submission_starts_resolving(session: Session, url: Seq<char>)
    requires
        session.submit_launches(url),
    ensures
        session.submit(url).requested_url == url,
        session.submit(url).resolving,
        session.submit(url).resolved is None,
        session.submit(url).playing == session.playing,
{
}

/// The result of a resolution, success or failure, changes nothing and sends
/// nothing to the engine once another URL has become the requested one.
pub proof fn lemma_stale_result_is_dropped(
    session: Session,
    url: Seq<char>,
    stream: Option<StreamView>,
)
    requires
        session.requested_url != url,
    ensures
        session.complete(url, stream) == session,
        session.completion_commands(url, stream) == Seq::<EngineCommandView>::empty(),
{
}

/// If `later` is submitted while the resolution for `earlier` is in flight,
/// the result for `earlier` leaves the session as the second submission left
/// it: still resolving `later`, with nothing resolved and the playing flag
/// untouched.
pub proof fn lemma_superseded_result_is_dropped(
    session: Session,
    earlier: Seq<char>,
    later: Seq<char>,
    stream: Option<StreamView>,
)
    requires
        earlier != later,
    ensures
        ({
            let now = session.submit(earlier).submit(later);
            &&& now.complete(earlier, stream) == now
            &&& now.completion_commands(earlier, stream) == Seq::<EngineCommandView>::empty()
            &&& now.requested_url == later
            &&& now.resolving
            &&& now.resolved is None
            &&& now.playing == session.playing
        }),
{
}

/// The result for the requested URL always ends the resolution. A stream
/// is recorded under the requested URL and starts playing; a failure leaves
/// record and playing flag alone.
pub proof fn lemma_current_result_is_applied(
    session: Session,
    url: Seq<char>,
    stream: Option<StreamView>,
)
    requires
        session.requested_url == url,
    ensures
        !session.complete(url, stream).resolving,
        stream matches Some(s) ==> {
            &&& session.complete(url, stream).resolved == Some(
                StreamInfoView { uri: url, title: s.title },
            )
            &&& session.complete(url, stream).playing
            &&& session.completion_commands(url, stream).len() == 3
        },
        stream is None ==> {
            &&& session.complete(url, stream).resolved == session.resolved
            &&& session.complete(url, stream).playing == session.playing
            &&& session.completion_commands(url, stream).len() == 0
        },
{
}

/// While a resolution is outstanding, asking for the title `n` times moves
/// the busy indicator `n` frames on and changes nothing else.
pub proof fn lemma_titles_advance_spinner(session: Session, n: nat)
    requires
        session.wf(),
        session.resolving,
    ensures
        session.after_titles(n) == (Session {
            spinner_phase: (session.spinner_phase + n) % 8,
            ..session
        }),
    decreases n,
{
    if n > 0 {
        lemma_titles_advance_spinner(session, (n - 1) as nat);
    }
}

/// While a resolution is outstanding, successive titles walk through the
/// frames in order and start over after the eighth: the title asked for after
/// `n` earlier ones is frame `(phase + n) % 8`, and the one eight calls later
/// is the same frame again.
pub proof fn lemma_spinner_cycles(session: Session, n: nat, position: nat, duration: nat)
    requires
        session.wf(),
        session.resolving,
    ensures
        session.after_titles(n).title_text(position, duration) == seq![
            spinner_frames()[((session.spinner_phase + n) % 8) as int],
        ],
        session.after_titles(n + 8) == session.after_titles(n),
{
    lemma_titles_advance_spinner(session, n);
    lemma_titles_advance_spinner(session, n + 8);
}

/// While no resolution is outstanding, asking for the title changes nothing.
pub proof fn lemma_idle_title_is_pure(session: Session, n: nat)
    requires
        !session.resolving,
    ensures
        session.after_titles(n) == session,
    decreases n,
{
    if n > 0 {
        lemma_idle_title_is_pure(session, (n - 1) as nat);
    }
}

/// Stopping, by the user or after an engine error, clears the playing flag
/// and keeps everything else, the resolved title included.
pub proof fn lemma_stop_keeps_title(session: Session, position: nat, duration: nat)
    requires
        !session.resolving,
    ensures
        !session.stopped().playing,
        session.stopped().resolved == session.resolved,
        session.stopped().title_text(position, duration) == session.title_text(position, duration),
{
}

/// One thing that can happen to a session.
pub enum SessionOp {
    /// The user submits a URL.
    Submit(Seq<char>),
    /// The resolution launched for a URL ends, with a stream or without.
    Complete(Seq<char>, Option<StreamView>),
    /// The title line is asked for.
    Title,
    Play,
    Pause,
    /// The play/pause button.
    Toggle,
    /// A stop, asked for by the user or forced by an engine error.
    Stop,
}

impl Session {
    /// The session after `op`.
    pub open spec fn apply(self, op: SessionOp) -> Session {
        match op {
            SessionOp::Submit(url) => self.submit(url),
            SessionOp::Complete(url, stream) => self.complete(url, stream),
            SessionOp::Title => self.after_title(),
            SessionOp::Play => self.with_playing(true),
            SessionOp::Pause => self.with_playing(false),
            SessionOp::Toggle => self.toggled(),
            SessionOp::Stop => self.stopped(),
        }
    }

    /// The session after `ops`, in order.
    pub open spec fn apply_all(self, ops: Seq<SessionOp>) -> Session
        decreases ops.len(),
    {
        if ops.len() == 0 {
            self
        } else {
            self.apply_all(ops.drop_last()).apply(ops.last())
        }
    }
}

/// Whatever happens to a session, in whatever order, it stays well formed:
/// results may arrive late, twice, or for URLs that were never submitted.
pub proof fn lemma_every_history_is_wf(ops: Seq<SessionOp>)
    ensures
        Session::initial().apply_all(ops).wf(),
    decreases ops.len(),
{
    if ops.len() > 0 {
        lemma_every_history_is_wf(ops.drop_last());
    }
}

/// After any history, what is shown as resolved was resolved for the URL that
/// is requested now, and nothing is shown as resolved while that URL is still
/// resolving.
pub proof fn lemma_resolved_is_never_stale(ops: Seq<SessionOp>)
    ensures
        ({
            let now = Session::initial().apply_all(ops);
            &&& now.resolved matches Some(info) ==> info.uri == now.requested_url
            &&& now.resolving ==> now.resolved is None
        }),
{
    lemma_every_history_is_wf(ops);
}

} // verus!
