//! Audio playback: what the player asks of its media pipeline, and the state
//! that the controls reflect.
//!
//! [`Player`] decides; the caller carries the requests out and reports back.
//! Every change of state is an [`Attempt`]: requests to run in order, of which
//! the last one decides whether the player enters the new state. A player
//! without a pipeline ([`Player::disabled`]) asks for nothing.

use vstd::prelude::*;
use vstd::string::*;

use crate::pipeline::{request_views, PipelineRequest, PipelineState};
use crate::text::join;

verus! {

/// The high-level playback state the UI reflects in its controls.
#[derive(Debug, Clone, Copy, PartialEq, Eq, Structural)]
pub enum PlaybackState {
    /// Nothing is loaded, or playback was stopped.
    Stopped,
    /// Audio is currently being played back.
    Playing,
    /// Audio is paused at its current position.
    Paused,
}

/// Asynchronous events a media pipeline produces.
#[derive(Debug, PartialEq, Eq)]
pub enum PlayerEvent {
    /// Playback reached the end of the stream.
    EndOfStream,
    /// Playback failed; the string contains a human-readable reason.
    Error(String),
}

/// What a [`PlayerEvent`] stands for.
pub enum PlayerEventView {
    EndOfStream,
    Error(Seq<char>),
}

impl View for PlayerEvent {
    type V = PlayerEventView;

    open spec fn view(&self) -> PlayerEventView {
        match self {
            PlayerEvent::EndOfStream => PlayerEventView::EndOfStream,
            PlayerEvent::Error(reason) => PlayerEventView::Error(reason@),
        }
    }
}

/// Errors that can happen when creating a player.
#[derive(Debug, PartialEq, Eq)]
pub enum PlayerError {
    /// The pipeline element exists but cannot be listened to.
    Init(String),
    /// The pipeline element could not be created.
    Factory(String),
}

/// What a [`PlayerError`] stands for.
pub enum PlayerErrorView {
    Init(Seq<char>),
    Factory(Seq<char>),
}

impl View for PlayerError {
    type V = PlayerErrorView;

    open spec fn view(&self) -> PlayerErrorView {
        match self {
            PlayerError::Init(reason) => PlayerErrorView::Init(reason@),
            PlayerError::Factory(reason) => PlayerErrorView::Factory(reason@),
        }
    }
}

impl PlayerError {
    /// The reason that the error carries.
    pub open spec fn reason(self) -> Seq<char> {
        match self {
            PlayerError::Init(reason) => reason@,
            PlayerError::Factory(reason) => reason@,
        }
    }

    /// The text that is shown to the user: the reason as it is.
    pub fn to_text(&self) -> (r: String)
        ensures
            r@ == self.reason(),
    {
        match self {
            PlayerError::Init(reason) => reason.clone(),
            PlayerError::Factory(reason) => reason.clone(),
        }
    }
}

/// How far setting up the media pipeline came.
#[derive(Debug, PartialEq, Eq)]
pub enum PipelineSetup {
    /// The element could not be created.
    NoElement(String),
    /// The element has no message bus.
    NoBus,
    /// The bus could not be watched.
    NoWatch(String),
    /// The element exists and its bus is watched.
    Ready,
}

/// A message on the pipeline's bus.
#[derive(Debug, PartialEq, Eq)]
pub enum BusMessage {
    /// The stream is over.
    EndOfStream,
    /// The stream failed, for this reason.
    Error(String),
    /// Anything else.
    Other,
}

/// What a [`BusMessage`] stands for.
pub enum BusMessageView {
    EndOfStream,
    Error(Seq<char>),
    Other,
}

impl View for BusMessage {
    type V = BusMessageView;

    open spec fn view(&self) -> BusMessageView {
        match self {
            BusMessage::EndOfStream => BusMessageView::EndOfStream,
            BusMessage::Error(reason) => BusMessageView::Error(reason@),
            BusMessage::Other => BusMessageView::Other,
        }
    }
}

/// A change of state that the pipeline still has to make: `requests` are run in
/// order whatever each of them answers, and `target` is entered if the last one
/// is accepted.
#[derive(Debug)]
pub struct Attempt {
    pub requests: Vec<PipelineRequest<String>>,
    pub target: PlaybackState,
}

/// What an [`Attempt`] stands for.
pub struct AttemptView {
    pub requests: Seq<PipelineRequest<Seq<char>>>,
    pub target: PlaybackState,
}

impl View for Attempt {
    type V = AttemptView;

    open spec fn view(&self) -> AttemptView {
        AttemptView { requests: request_views(self.requests@), target: self.target }
    }
}

/// What an optional attempt stands for.
pub open spec fn attempt_view(attempt: Option<Attempt>) -> Option<AttemptView> {
    match attempt {
        Some(attempt) => Some(attempt@),
        None => None,
    }
}

/// What the player makes of a bus message: requests to run, and an event to
/// hand to the window.
#[derive(Debug)]
pub struct Reaction {
    pub requests: Vec<PipelineRequest<String>>,
    pub event: Option<PlayerEvent>,
}

impl Reaction {
    /// What the event stands for.
    pub open spec fn event_view(self) -> Option<PlayerEventView> {
        match self.event {
            Some(event) => Some(event@),
            None => None,
        }
    }
}

/// Nanoseconds in a second.
pub const ONE_SECOND_NS: u64 = 1_000_000_000;

/// A playback-oriented view of one media pipeline.
///
/// The pipeline is missing only from the disabled fallback created by
/// [`Player::disabled`], in which case every method is a no-op.
#[derive(Debug)]
pub struct Player {
    available: bool,
    state: PlaybackState,
}

/// What a [`Player`] stands for.
pub struct PlayerView {
    /// Whether there is a pipeline.
    pub available: bool,
    pub state: PlaybackState,
}

impl View for Player {
    type V = PlayerView;

    closed spec fn view(&self) -> PlayerView {
        PlayerView { available: self.available, state: self.state }
    }
}

impl PlayerView {
    /// A player without a pipeline is stopped.
    pub open spec fn wf(self) -> bool {
        self.available || self.state is Stopped
    }

    /// A player with a pipeline that plays nothing yet.
    pub open spec fn ready() -> PlayerView {
        PlayerView { available: true, state: PlaybackState::Stopped }
    }

    /// The fallback without a pipeline.
    pub open spec fn disabled() -> PlayerView {
        PlayerView { available: false, state: PlaybackState::Stopped }
    }

    /// Loading `uri` and playing it from its beginning: the pipeline is parked
    /// before the URI changes, so that no open stream goes on instead.
    pub open spec fn play_uri(self, uri: Seq<char>) -> Option<AttemptView> {
        if self.available {
            Some(
                AttemptView {
                    requests: seq![
                        PipelineRequest::SetState(PipelineState::Ready),
                        PipelineRequest::SetUri(uri),
                        PipelineRequest::SetState(PipelineState::Playing),
                    ],
                    target: PlaybackState::Playing,
                },
            )
        } else {
            None
        }
    }

    /// Pausing while playing, resuming while paused, and starting over from the
    /// beginning while stopped.
    pub open spec fn toggle_play_pause(self) -> Option<AttemptView> {
        if self.available {
            Some(
                match self.state {
                    PlaybackState::Playing => AttemptView {
                        requests: seq![PipelineRequest::SetState(PipelineState::Paused)],
                        target: PlaybackState::Paused,
                    },
                    PlaybackState::Paused => AttemptView {
                        requests: seq![PipelineRequest::SetState(PipelineState::Playing)],
                        target: PlaybackState::Playing,
                    },
                    PlaybackState::Stopped => AttemptView {
                        requests: seq![
                            PipelineRequest::SetState(PipelineState::Ready),
                            PipelineRequest::Seek(0),
                            PipelineRequest::SetState(PipelineState::Playing),
                        ],
                        target: PlaybackState::Playing,
                    },
                },
            )
        } else {
            None
        }
    }

    /// Stopping and rewinding.
    pub open spec fn stop(self) -> Option<AttemptView> {
        if self.available {
            Some(
                AttemptView {
                    requests: seq![PipelineRequest::SetState(PipelineState::Ready)],
                    target: PlaybackState::Stopped,
                },
            )
        } else {
            None
        }
    }

    /// The player once the pipeline has answered: `target` if the last request
    /// was accepted, no change if it was not or if there is no pipeline.
    pub open spec fn settled(self, target: PlaybackState, accepted: bool) -> PlayerView {
        if self.available && accepted {
            PlayerView { available: true, state: target }
        } else {
            self
        }
    }

    /// The player once an attempt, where there was one, has been answered.
    pub open spec fn finished(self, attempt: Option<AttemptView>, accepted: bool) -> PlayerView {
        match attempt {
            Some(attempt) => self.settled(attempt.target, accepted),
            None => self,
        }
    }

    /// The player after a message on the bus: stopped once the stream is over
    /// or has failed.
    pub open spec fn after_message(self, message: BusMessageView) -> PlayerView {
        match message {
            BusMessageView::Other => self,
            _ => PlayerView { available: self.available, state: PlaybackState::Stopped },
        }
    }

    /// What is asked of the pipeline on a message: to be parked once the stream
    /// is over or has failed, so that the next one starts at its beginning.
    pub open spec fn message_requests(self, message: BusMessageView) -> Seq<
        PipelineRequest<Seq<char>>,
    > {
        if self.available && !(message is Other) {
            seq![PipelineRequest::SetState(PipelineState::Ready)]
        } else {
            seq![]
        }
    }

    /// What releases the audio sink.
    pub open spec fn released(self) -> Option<PipelineRequest<Seq<char>>> {
        if self.available {
            Some(PipelineRequest::SetState(PipelineState::Null))
        } else {
            None
        }
    }

    /// The position to jump to for `seconds`, in nanoseconds.
    pub open spec fn seek(self, seconds: u64) -> Option<u64> {
        if !self.available {
            None
        } else if seconds * ONE_SECOND_NS <= u64::MAX {
            Some((seconds * ONE_SECOND_NS) as u64)
        } else {
            Some(u64::MAX)
        }
    }

    /// Whole seconds of a time that the pipeline answered, 0 when unknown.
    pub open spec fn seconds(self, answer: Option<u64>) -> u64 {
        match answer {
            Some(nanoseconds) => if self.available {
                nanoseconds / ONE_SECOND_NS
            } else {
                0
            },
            None => 0,
        }
    }
}

/// The event that a message on the bus is forwarded as.
pub open spec fn forwarded(message: BusMessageView) -> Option<PlayerEventView> {
    match message {
        BusMessageView::EndOfStream => Some(PlayerEventView::EndOfStream),
        BusMessageView::Error(reason) => Some(PlayerEventView::Error(reason)),
        BusMessageView::Other => None,
    }
}

/// What keeps a player from being set up, `None` where nothing does.
pub open spec fn setup_failure(setup: PipelineSetup) -> Option<PlayerErrorView> {
    match setup {
        PipelineSetup::NoElement(reason) => Some(PlayerErrorView::Factory(reason@)),
        PipelineSetup::NoBus => Some(PlayerErrorView::Init("playbin has no bus"@)),
        PipelineSetup::NoWatch(reason) => Some(
            PlayerErrorView::Init("could not watch the bus: "@ + reason@),
        ),
        PipelineSetup::Ready => None,
    }
}

impl Player {
    #[verifier::type_invariant]
    spec fn inv(self) -> bool {
        self.available || self.state is Stopped
    }

    /// Create a player from what became of setting up its pipeline.
    ///
    /// The returned `Player` is not playing anything yet.
    pub fn new(setup: PipelineSetup) -> (r: Result<Player, PlayerError>)
        ensures
            r is Ok <==> setup is Ready,
            match r {
                Ok(_) => setup_failure(setup) is None,
                Err(error) => setup_failure(setup) == Some(error@),
            },
            r matches Ok(player) ==> player@ == PlayerView::ready(),
            r matches Err(error) ==> match setup {
                PipelineSetup::NoElement(reason) => error is Factory && error.reason() == reason@,
                PipelineSetup::NoBus => error is Init && error.reason() == "playbin has no bus"@,
                PipelineSetup::NoWatch(reason) => error is Init && error.reason()
                    == "could not watch the bus: "@ + reason@,
                PipelineSetup::Ready => false,
            },
    {
        match setup {
            PipelineSetup::NoElement(reason) => Err(PlayerError::Factory(reason)),
            PipelineSetup::NoBus => Err(PlayerError::Init("playbin has no bus".to_owned())),
            PipelineSetup::NoWatch(reason) => Err(
                PlayerError::Init(join("could not watch the bus: ", reason.as_str())),
            ),
            PipelineSetup::Ready => Ok(
                Player { available: true, state: PlaybackState::Stopped },
            ),
        }
    }

    /// A player that accepts calls but cannot play anything. Used when the
    /// pipeline could not be set up, so that the app can still run and show a
    /// meaningful error.
    pub fn disabled() -> (r: Self)
        ensures
            r@ == PlayerView::disabled(),
    {
        Player { available: false, state: PlaybackState::Stopped }
    }

    /// The current playback state.
    pub fn state(&self) -> (r: PlaybackState)
        ensures
            r == self@.state,
            self@.wf(),
    {
        proof {
            use_type_invariant(self);
        }
        self.state
    }

    /// Load a URI and start playing it immediately.
    pub fn play_uri(&self, uri: &str) -> (r: Option<Attempt>)
        ensures
            attempt_view(r) == self@.play_uri(uri@),
    {
        if !self.available {
            return None;
        }
        let mut requests: Vec<PipelineRequest<String>> = Vec::new();
        requests.push(PipelineRequest::SetState(PipelineState::Ready));
        requests.push(PipelineRequest::SetUri(uri.to_owned()));
        requests.push(PipelineRequest::SetState(PipelineState::Playing));
        let attempt = Attempt { requests, target: PlaybackState::Playing };
        assert(attempt@.requests =~= self@.play_uri(uri@)->0.requests);
        Some(attempt)
    }

    /// Resume playback if paused, pause it if playing, otherwise start over
    /// from the beginning.
    pub fn toggle_play_pause(&self) -> (r: Option<Attempt>)
        ensures
            attempt_view(r) == self@.toggle_play_pause(),
    {
        if !self.available {
            return None;
        }
        let mut requests: Vec<PipelineRequest<String>> = Vec::new();
        let target: PlaybackState = match self.state {
            PlaybackState::Playing => {
                requests.push(PipelineRequest::SetState(PipelineState::Paused));
                PlaybackState::Paused
            },
            PlaybackState::Paused => {
                requests.push(PipelineRequest::SetState(PipelineState::Playing));
                PlaybackState::Playing
            },
            PlaybackState::Stopped => {
                // After a stop or an end-of-stream the stream is positioned at
                // its end, so rewind before replaying.
                requests.push(PipelineRequest::SetState(PipelineState::Ready));
                requests.push(PipelineRequest::Seek(0));
                requests.push(PipelineRequest::SetState(PipelineState::Playing));
                PlaybackState::Playing
            },
        };
        let attempt = Attempt { requests, target };
        assert(attempt@.requests =~= self@.toggle_play_pause()->0.requests);
        Some(attempt)
    }

    /// Stop playback and rewind to the start of the stream.
    pub fn stop(&self) -> (r: Option<Attempt>)
        ensures
            attempt_view(r) == self@.stop(),
    {
        if !self.available {
            return None;
        }
        let mut requests: Vec<PipelineRequest<String>> = Vec::new();
        requests.push(PipelineRequest::SetState(PipelineState::Ready));
        let attempt = Attempt { requests, target: PlaybackState::Stopped };
        assert(attempt@.requests =~= self@.stop()->0.requests);
        Some(attempt)
    }

    /// Take note of how the last request of `attempt` was answered.
    pub fn settle(&mut self, attempt: &Attempt, accepted: bool)
        ensures
            final(self)@ == old(self)@.settled(attempt@.target, accepted),
    {
        if self.available && accepted {
            self.state = attempt.target;
        }
    }

    /// Jump to a position given in seconds.
    pub fn seek(&self, position_seconds: u64) -> (r: Option<PipelineRequest<String>>)
        ensures
            match r {
                Some(request) => self@.seek(position_seconds) is Some && request@
                    == PipelineRequest::<Seq<char>>::Seek(self@.seek(position_seconds)->0),
                None => self@.seek(position_seconds) is None,
            },
    {
        if !self.available {
            return None;
        }
        let target: u64 = match position_seconds.checked_mul(ONE_SECOND_NS) {
            Some(target) => target,
            None => u64::MAX,
        };
        Some(PipelineRequest::Seek(target))
    }

    /// Current position in seconds (0 when unknown), from what the pipeline
    /// answered in nanoseconds.
    pub fn position(&self, answer: Option<u64>) -> (r: u64)
        ensures
            r == self@.seconds(answer),
    {
        if !self.available {
            return 0;
        }
        match answer {
            Some(nanoseconds) => nanoseconds / ONE_SECOND_NS,
            None => 0,
        }
    }

    /// Total duration in seconds (0 when unknown, e.g. for streams), from what
    /// the pipeline answered in nanoseconds.
    pub fn duration(&self, answer: Option<u64>) -> (r: u64)
        ensures
            r == self@.seconds(answer),
    {
        if !self.available {
            return 0;
        }
        match answer {
            Some(nanoseconds) => nanoseconds / ONE_SECOND_NS,
            None => 0,
        }
    }

    /// React to a message on the bus.
    ///
    /// The pipeline is parked when the stream ends or fails: it stays in
    /// `Playing` after an end of stream, so a later play would resume at the
    /// end of the file instead of the beginning.
    pub fn on_message(&mut self, message: BusMessage) -> (r: Reaction)
        ensures
            final(self)@ == old(self)@.after_message(message@),
            request_views(r.requests@) == old(self)@.message_requests(message@),
            r.event_view() == forwarded(message@),
    {
        let mut requests: Vec<PipelineRequest<String>> = Vec::new();
        let event: Option<PlayerEvent> = match message {
            BusMessage::EndOfStream => {
                self.state = PlaybackState::Stopped;
                if self.available {
                    requests.push(PipelineRequest::SetState(PipelineState::Ready));
                }
                Some(PlayerEvent::EndOfStream)
            },
            BusMessage::Error(reason) => {
                self.state = PlaybackState::Stopped;
                if self.available {
                    requests.push(PipelineRequest::SetState(PipelineState::Ready));
                }
                Some(PlayerEvent::Error(reason))
            },
            BusMessage::Other => None,
        };
        assert(request_views(requests@) =~= old(self)@.message_requests(message@));
        Reaction { requests, event }
    }

    /// What releases the audio sink when the player goes away.
    pub fn release(&self) -> (r: Option<PipelineRequest<String>>)
        ensures
            match r {
                Some(request) => self@.available && request@ == PipelineRequest::<
                    Seq<char>,
                >::SetState(PipelineState::Null),
                None => !self@.available,
            },
            match r {
                Some(request) => self@.released() == Some(request@),
                None => self@.released() is None,
            },
    {
        if self.available {
            Some(PipelineRequest::SetState(PipelineState::Null))
        } else {
            None
        }
    }
}

} // verus!
