use audio_library::pipeline::{PipelineRequest, PipelineState};
use audio_library::player::{
    Attempt, BusMessage, PipelineSetup, PlaybackState, Player, PlayerError, PlayerEvent,
};

/// A pipeline of streams of known length, in milliseconds, that can be asked for
/// what the player asks for.
struct Pipeline {
    state: PipelineState,
    uri: String,
    stream: Option<(String, u64)>,
    lengths: Vec<(String, u64)>,
}

impl Pipeline {
    fn new(lengths: &[(&str, u64)]) -> Pipeline {
        Pipeline {
            state: PipelineState::Null,
            uri: String::new(),
            stream: None,
            lengths: lengths.iter().map(|(uri, ms)| (uri.to_string(), *ms)).collect(),
        }
    }

    fn request(&mut self, request: &PipelineRequest<String>) {
        match request {
            PipelineRequest::SetState(state) => {
                self.state = *state;
                match state {
                    PipelineState::Null | PipelineState::Ready => self.stream = None,
                    PipelineState::Paused | PipelineState::Playing => {
                        if self.stream.is_none() {
                            self.stream = Some((self.uri.clone(), 0));
                        }
                    }
                }
            }
            PipelineRequest::SetUri(uri) => self.uri = uri.clone(),
            PipelineRequest::Seek(ns) => {
                if let Some(stream) = &mut self.stream {
                    stream.1 = ns / 1_000_000;
                }
            }
        }
    }

    fn run(&mut self, player: &mut Player, attempt: Option<Attempt>) {
        if let Some(attempt) = attempt {
            for request in &attempt.requests {
                self.request(request);
            }
            player.settle(&attempt, true);
        }
    }

    /// Play on for `ms`, or to the end of the stream; how long it took to get
    /// there, where it came.
    fn play_on(&mut self, ms: u64) -> Option<u64> {
        let (uri, position) = self.stream.clone()?;
        let length = self.lengths.iter().find(|(name, _)| *name == uri)?.1;
        if position + ms < length {
            self.stream = Some((uri, position + ms));
            None
        } else {
            self.stream = Some((uri, length));
            Some(length - position)
        }
    }
}

fn new_test_player() -> Player {
    Player::new(PipelineSetup::Ready).expect("player should initialize")
}

fn set_state(state: PipelineState) -> PipelineRequest<String> {
    PipelineRequest::SetState(state)
}

#[test]
fn player_starts_in_stopped_state() {
    assert_eq!(new_test_player().state(), PlaybackState::Stopped);
}

#[test]
fn player_can_be_stopped_without_playing() {
    let mut player = new_test_player();
    let attempt = player.stop().unwrap();
    player.settle(&attempt, true);
    assert_eq!(player.state(), PlaybackState::Stopped);
}

#[test]
fn unknown_duration_reports_zero() {
    let player = new_test_player();
    assert_eq!(player.duration(None), 0);
    assert_eq!(player.position(None), 0);
}

#[test]
fn disabled_player_never_leaves_stopped() {
    let mut player = Player::disabled();
    assert!(player.play_uri("file:///nonexistent.mp3").is_none());
    assert!(player.toggle_play_pause().is_none());
    assert!(player.seek(30).is_none());
    assert!(player.stop().is_none());
    assert!(player.release().is_none());
    let foreign = new_test_player().play_uri("file:///other.mp3").unwrap();
    player.settle(&foreign, true);
    assert_eq!(player.state(), PlaybackState::Stopped);
    assert_eq!(player.position(Some(5_000_000_000)), 0);
    assert_eq!(player.duration(Some(5_000_000_000)), 0);
    let reaction = player.on_message(BusMessage::EndOfStream);
    assert!(reaction.requests.is_empty());
    assert_eq!(player.state(), PlaybackState::Stopped);
}

#[test]
fn end_of_stream_returns_to_stopped_and_emits_event() {
    let mut player = new_test_player();
    let mut pipeline = Pipeline::new(&[("file:///tmp/audio-library-test-eos.wav", 3_000)]);
    let attempt = player.play_uri("file:///tmp/audio-library-test-eos.wav");
    pipeline.run(&mut player, attempt);
    assert_eq!(player.state(), PlaybackState::Playing);
    assert_eq!(pipeline.play_on(15_000), Some(3_000), "EndOfStream event was never emitted");
    let reaction = player.on_message(BusMessage::EndOfStream);
    assert_eq!(reaction.event, Some(PlayerEvent::EndOfStream));
    assert_eq!(reaction.requests, vec![set_state(PipelineState::Ready)]);
    assert_eq!(
        player.state(),
        PlaybackState::Stopped,
        "player must clear its state when the stream ends"
    );
}

#[test]
fn replay_after_end_of_stream_starts_from_the_beginning() {
    let uri = "file:///tmp/test-eos-replay.wav";
    let other_uri = "file:///tmp/test-eos-replay-other.wav";
    let mut player = new_test_player();
    let mut pipeline = Pipeline::new(&[(uri, 3_000), (other_uri, 3_000)]);

    // First play runs to completion.
    let attempt = player.play_uri(uri);
    pipeline.run(&mut player, attempt);
    assert_eq!(player.state(), PlaybackState::Playing);
    assert!(
        pipeline.play_on(15_000).is_some(),
        "first play-through should reach end-of-stream"
    );
    let reaction = player.on_message(BusMessage::EndOfStream);
    for request in &reaction.requests {
        pipeline.request(request);
    }

    // Switching to a *different* track after an end-of-stream must play it from
    // the beginning.
    let attempt = player.play_uri(other_uri);
    pipeline.run(&mut player, attempt);
    assert_eq!(player.state(), PlaybackState::Playing);
    let elapsed = pipeline.play_on(15_000).expect("replayed track should reach end-of-stream");
    assert!(
        elapsed >= 1500,
        "replay raised end-of-stream after {elapsed:?}; the stream did not play again"
    );

    // And so must a toggle after the end of the stream.
    let reaction = player.on_message(BusMessage::EndOfStream);
    for request in &reaction.requests {
        pipeline.request(request);
    }
    let attempt = player.toggle_play_pause();
    pipeline.run(&mut player, attempt);
    assert_eq!(player.state(), PlaybackState::Playing);
    assert_eq!(pipeline.stream, Some((other_uri.to_string(), 0)));
}

#[test]
fn switching_tracks_while_playing_starts_the_new_stream() {
    let short_uri = "file:///tmp/test-switch-short.wav";
    let long_uri = "file:///tmp/test-switch-long.wav";
    let mut player = new_test_player();
    let mut pipeline = Pipeline::new(&[(short_uri, 2_000), (long_uri, 3_000)]);

    let attempt = player.play_uri(short_uri);
    pipeline.run(&mut player, attempt);
    assert_eq!(player.state(), PlaybackState::Playing);

    // Let the short track play partway through before switching.
    assert_eq!(pipeline.play_on(700), None);

    // Switch to the longer track mid-playback.
    let attempt = player.play_uri(long_uri);
    pipeline.run(&mut player, attempt);
    assert_eq!(player.state(), PlaybackState::Playing);
    let elapsed = pipeline.play_on(15_000).expect("switched track should reach end-of-stream");
    assert!(
        elapsed >= 2500,
        "the new track ended after only {elapsed:?} — the previous stream kept playing"
    );
}

#[test]
fn pausing_keeps_the_position() {
    let mut player = new_test_player();
    let mut pipeline = Pipeline::new(&[("file:///a", 10_000)]);
    let attempt = player.play_uri("file:///a");
    pipeline.run(&mut player, attempt);
    assert_eq!(pipeline.play_on(4_000), None);
    let attempt = player.toggle_play_pause();
    pipeline.run(&mut player, attempt);
    assert_eq!(player.state(), PlaybackState::Paused);
    let attempt = player.toggle_play_pause();
    pipeline.run(&mut player, attempt);
    assert_eq!(player.state(), PlaybackState::Playing);
    assert_eq!(pipeline.stream, Some(("file:///a".to_string(), 4_000)));
    let attempt = player.stop();
    pipeline.run(&mut player, attempt);
    assert_eq!(player.state(), PlaybackState::Stopped);
    assert_eq!(pipeline.stream, None);
}

#[test]
fn requests_are_made_in_order() {
    let mut player = new_test_player();
    let play = player.play_uri("file:///x").unwrap();
    assert_eq!(
        play.requests,
        vec![
            set_state(PipelineState::Ready),
            PipelineRequest::SetUri("file:///x".to_string()),
            set_state(PipelineState::Playing),
        ]
    );
    assert_eq!(play.target, PlaybackState::Playing);
    let replay = player.toggle_play_pause().unwrap();
    assert_eq!(
        replay.requests,
        vec![
            set_state(PipelineState::Ready),
            PipelineRequest::Seek(0),
            set_state(PipelineState::Playing),
        ]
    );
    player.settle(&play, true);
    let pause = player.toggle_play_pause().unwrap();
    assert_eq!(pause.requests, vec![set_state(PipelineState::Paused)]);
    assert_eq!(player.release(), Some(set_state(PipelineState::Null)));
}

#[test]
fn refused_requests_change_nothing() {
    let mut player = new_test_player();
    let play = player.play_uri("file:///x").unwrap();
    player.settle(&play, false);
    assert_eq!(player.state(), PlaybackState::Stopped);
    player.settle(&play, true);
    let stop = player.stop().unwrap();
    player.settle(&stop, false);
    assert_eq!(player.state(), PlaybackState::Playing);
}

#[test]
fn failures_stop_the_player_and_are_forwarded() {
    let mut player = new_test_player();
    let play = player.play_uri("file:///x").unwrap();
    player.settle(&play, true);
    let reaction = player.on_message(BusMessage::Other);
    assert_eq!(reaction.event, None);
    assert!(reaction.requests.is_empty());
    assert_eq!(player.state(), PlaybackState::Playing);
    let reaction = player.on_message(BusMessage::Error("no decoder".to_string()));
    assert_eq!(reaction.event, Some(PlayerEvent::Error("no decoder".to_string())));
    assert_eq!(reaction.requests, vec![set_state(PipelineState::Ready)]);
    assert_eq!(player.state(), PlaybackState::Stopped);
}

#[test]
fn seconds_and_nanoseconds_are_converted() {
    let player = new_test_player();
    assert_eq!(player.seek(30), Some(PipelineRequest::Seek(30_000_000_000)));
    assert_eq!(player.seek(u64::MAX), Some(PipelineRequest::Seek(u64::MAX)));
    assert_eq!(player.seek(18_446_744_074), Some(PipelineRequest::Seek(u64::MAX)));
    assert_eq!(
        player.seek(18_446_744_073),
        Some(PipelineRequest::Seek(18_446_744_073_000_000_000))
    );
    assert_eq!(player.position(Some(30_000_000_000)), 30);
    assert_eq!(player.position(Some(2_999_999_999)), 2);
    assert_eq!(player.duration(Some(61_500_000_000)), 61);
}

#[test]
fn players_that_cannot_be_set_up_say_why() {
    let no_element = Player::new(PipelineSetup::NoElement("no playbin".to_string())).unwrap_err();
    assert_eq!(no_element, PlayerError::Factory("no playbin".to_string()));
    assert_eq!(no_element.to_text(), "no playbin");
    let no_bus = Player::new(PipelineSetup::NoBus).unwrap_err();
    assert_eq!(no_bus, PlayerError::Init("playbin has no bus".to_string()));
    let no_watch = Player::new(PipelineSetup::NoWatch("taken".to_string())).unwrap_err();
    assert_eq!(no_watch.to_text(), "could not watch the bus: taken");
}
