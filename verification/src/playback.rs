//! What holds of a player together with its media pipeline.

use vstd::prelude::*;

use crate::pipeline::{PipelineRequest, PipelineState, PipelineView, StreamView};
use crate::player::{
    forwarded, setup_failure, AttemptView, BusMessageView, PipelineSetup, PlaybackState,
    PlayerErrorView, PlayerEventView, PlayerView, ONE_SECOND_NS,
};

verus! {

/// One thing that can happen to a player.
pub enum PlayerStep {
    /// A URI was played, and the pipeline answered.
    Play { uri: Seq<char>, accepted: bool },
    /// Playback was toggled, and the pipeline answered.
    Toggle { accepted: bool },
    /// Playback was stopped, and the pipeline answered.
    Stop { accepted: bool },
    /// A message came over the bus.
    Message(BusMessageView),
}

impl PlayerView {
    /// The player after one step.
    pub open spec fn after_step(self, step: PlayerStep) -> PlayerView {
        match step {
            PlayerStep::Play { uri, accepted } => self.finished(self.play_uri(uri), accepted),
            PlayerStep::Toggle { accepted } => self.finished(self.toggle_play_pause(), accepted),
            PlayerStep::Stop { accepted } => self.finished(self.stop(), accepted),
            PlayerStep::Message(message) => self.after_message(message),
        }
    }

    /// The player after `steps`, in order.
    pub open spec fn after_steps(self, steps: Seq<PlayerStep>) -> PlayerView
        decreases steps.len(),
    {
        if steps.len() == 0 {
            self
        } else {
            self.after_step(steps[0]).after_steps(steps.drop_first())
        }
    }

    /// The player's state is what its pipeline is doing.
    pub open spec fn in_step_with(self, pipeline: PipelineView) -> bool {
        match self.state {
            PlaybackState::Playing => pipeline.state is Playing,
            PlaybackState::Paused => pipeline.state is Paused,
            PlaybackState::Stopped => pipeline.state is Ready || pipeline.state is Null,
        }
    }

    /// The pipeline after it has carried out what the player asks for on `step`.
    pub open spec fn pipeline_after(self, pipeline: PipelineView, step: PlayerStep) -> PipelineView {
        match step {
            PlayerStep::Play { uri, accepted } => run(pipeline, self.play_uri(uri)),
            PlayerStep::Toggle { accepted } => run(pipeline, self.toggle_play_pause()),
            PlayerStep::Stop { accepted } => run(pipeline, self.stop()),
            PlayerStep::Message(message) => pipeline.after_all(self.message_requests(message)),
        }
    }
}

impl PlayerStep {
    /// Whether the pipeline did what it was asked to.
    pub open spec fn accepted(self) -> bool {
        match self {
            PlayerStep::Play { uri, accepted } => accepted,
            PlayerStep::Toggle { accepted } => accepted,
            PlayerStep::Stop { accepted } => accepted,
            PlayerStep::Message(message) => true,
        }
    }
}

/// The pipeline after it has carried out the requests of an attempt.
pub open spec fn run(pipeline: PipelineView, attempt: Option<AttemptView>) -> PipelineView {
    match attempt {
        Some(attempt) => pipeline.after_all(attempt.requests),
        None => pipeline,
    }
}

/// A single request is carried out as it is.
pub proof fn lemma_after_one(pipeline: PipelineView, a: PipelineRequest<Seq<char>>)
    ensures
        pipeline.after_all(seq![a]) == pipeline.after(a),
{
    reveal_with_fuel(PipelineView::after_all, 2);
    assert(seq![a].drop_first() =~= Seq::<PipelineRequest<Seq<char>>>::empty());
}

proof fn lemma_after_three(
    pipeline: PipelineView,
    a: PipelineRequest<Seq<char>>,
    b: PipelineRequest<Seq<char>>,
    c: PipelineRequest<Seq<char>>,
)
    ensures
        pipeline.after_all(seq![a, b, c]) == pipeline.after(a).after(b).after(c),
{
    reveal_with_fuel(PipelineView::after_all, 2);
    assert(seq![a, b, c].drop_first() =~= seq![b, c]);
    assert(seq![b, c].drop_first() =~= seq![c]);
    lemma_after_one(pipeline.after(a).after(b), c);
}

/// A player without a pipeline never leaves the stopped state, whatever is asked
/// of it and whatever is answered, and it never asks for anything itself.
pub proof fn law_disabled_player_never_leaves_stopped(
    steps: Seq<PlayerStep>,
    uri: Seq<char>,
    seconds: u64,
    answer: Option<u64>,
)
    ensures
        ({
            let player = PlayerView::disabled().after_steps(steps);
            &&& player == PlayerView::disabled()
            &&& player.play_uri(uri) is None
            &&& player.toggle_play_pause() is None
            &&& player.stop() is None
            &&& player.seek(seconds) is None
            &&& player.seconds(answer) == 0
        }),
    decreases steps.len(),
{
    if steps.len() > 0 {
        law_disabled_player_never_leaves_stopped(steps.drop_first(), uri, seconds, answer);
    }
}

/// No step gives a player a pipeline or takes its pipeline away, and a player
/// without one stays stopped.
pub proof fn law_steps_keep_the_player_well_formed(player: PlayerView, steps: Seq<PlayerStep>)
    requires
        player.wf(),
    ensures
        player.after_steps(steps).wf(),
        player.after_steps(steps).available == player.available,
    decreases steps.len(),
{
    if steps.len() > 0 {
        law_steps_keep_the_player_well_formed(player.after_step(steps[0]), steps.drop_first());
    }
}

/// A step that the pipeline refuses leaves the playback state as it was.
pub proof fn law_refused_step_changes_nothing(player: PlayerView, step: PlayerStep)
    requires
        !step.accepted(),
    ensures
        player.after_step(step) == player,
{
}

/// Playing a URI opens the stream of that URI at its beginning, whatever the
/// pipeline was doing before: also while another stream is open, and also after
/// a stream has ended.
pub proof fn law_play_starts_the_new_stream(
    player: PlayerView,
    pipeline: PipelineView,
    uri: Seq<char>,
)
    requires
        player.available,
    ensures
        ({
            let step = PlayerStep::Play { uri, accepted: true };
            let after = player.pipeline_after(pipeline, step);
            &&& after.state is Playing
            &&& after.stream == Some(StreamView { uri, position: 0 })
            &&& after.uri == uri
            &&& player.after_step(step).state is Playing
        }),
{
    lemma_after_three(
        pipeline,
        PipelineRequest::SetState(PipelineState::Ready),
        PipelineRequest::SetUri(uri),
        PipelineRequest::SetState(PipelineState::Playing),
    );
}

/// Toggling a stopped player plays the current URI from its beginning.
pub proof fn law_toggle_replays_from_the_beginning(player: PlayerView, pipeline: PipelineView)
    requires
        player.available,
        player.state is Stopped,
    ensures
        ({
            let step = PlayerStep::Toggle { accepted: true };
            let after = player.pipeline_after(pipeline, step);
            &&& after.state is Playing
            &&& after.stream == Some(StreamView { uri: pipeline.uri, position: 0 })
            &&& after.uri == pipeline.uri
            &&& player.after_step(step).state is Playing
        }),
{
    lemma_after_three(
        pipeline,
        PipelineRequest::SetState(PipelineState::Ready),
        PipelineRequest::Seek(0),
        PipelineRequest::SetState(PipelineState::Playing),
    );
}

/// Pausing holds the stream where it is, and toggling again resumes it there.
pub proof fn law_pause_keeps_the_position(player: PlayerView, pipeline: PipelineView)
    requires
        player.available,
        player.state is Playing,
        player.in_step_with(pipeline),
        pipeline.wf(),
    ensures
        ({
            let step = PlayerStep::Toggle { accepted: true };
            let paused = player.after_step(step);
            let held = player.pipeline_after(pipeline, step);
            &&& paused.state is Paused
            &&& held.state is Paused
            &&& held.stream == pipeline.stream
            &&& paused.after_step(step) == player
            &&& paused.pipeline_after(held, step) == pipeline
        }),
{
    let step = PlayerStep::Toggle { accepted: true };
    let held = player.pipeline_after(pipeline, step);
    lemma_after_one(pipeline, PipelineRequest::SetState(PipelineState::Paused));
    lemma_after_one(held, PipelineRequest::SetState(PipelineState::Playing));
}

/// Stopping closes the stream: what plays next starts at its beginning.
pub proof fn law_stop_rewinds(player: PlayerView, pipeline: PipelineView)
    requires
        player.available,
    ensures
        ({
            let step = PlayerStep::Stop { accepted: true };
            &&& player.pipeline_after(pipeline, step).stream is None
            &&& player.pipeline_after(pipeline, step).uri == pipeline.uri
            &&& player.after_step(step).state is Stopped
        }),
{
    lemma_after_one(pipeline, PipelineRequest::SetState(PipelineState::Ready));
}

/// The end of a stream, like its failure, stops the player and closes the
/// stream, so that a replay is not resumed at its end.
pub proof fn law_end_of_stream_parks_the_pipeline(
    player: PlayerView,
    pipeline: PipelineView,
    message: BusMessageView,
)
    requires
        player.available,
        !(message is Other),
    ensures
        ({
            let step = PlayerStep::Message(message);
            &&& player.after_step(step).state is Stopped
            &&& player.pipeline_after(pipeline, step).stream is None
            &&& player.pipeline_after(pipeline, step).uri == pipeline.uri
        }),
{
    lemma_after_one(pipeline, PipelineRequest::SetState(PipelineState::Ready));
}

/// Every step that the pipeline carries out keeps the playback state and the
/// pipeline in step with each other.
pub proof fn law_player_stays_in_step_with_its_pipeline(
    player: PlayerView,
    pipeline: PipelineView,
    step: PlayerStep,
)
    requires
        player.available,
        pipeline.wf(),
        player.in_step_with(pipeline),
        step.accepted(),
    ensures
        player.pipeline_after(pipeline, step).wf(),
        player.after_step(step).in_step_with(player.pipeline_after(pipeline, step)),
{
    match step {
        PlayerStep::Play { uri, accepted } => {
            law_play_starts_the_new_stream(player, pipeline, uri);
        },
        PlayerStep::Toggle { accepted } => {
            match player.state {
                PlaybackState::Playing => {
                    lemma_after_one(pipeline, PipelineRequest::SetState(PipelineState::Paused));
                },
                PlaybackState::Paused => {
                    lemma_after_one(pipeline, PipelineRequest::SetState(PipelineState::Playing));
                },
                PlaybackState::Stopped => {
                    law_toggle_replays_from_the_beginning(player, pipeline);
                },
            }
        },
        PlayerStep::Stop { accepted } => {
            lemma_after_one(pipeline, PipelineRequest::SetState(PipelineState::Ready));
        },
        PlayerStep::Message(message) => {
            lemma_after_one(pipeline, PipelineRequest::SetState(PipelineState::Ready));
        },
    }
}

/// A jump to a second is reported back as that second, as long as its
/// nanoseconds can be counted.
pub proof fn law_position_reports_the_second_sought(player: PlayerView, seconds: u64)
    requires
        player.available,
        seconds * ONE_SECOND_NS <= u64::MAX,
    ensures
        player.seconds(player.seek(seconds)) == seconds,
{
}

/// Toggling a paused player goes on with the open stream where it stands.
pub proof fn law_toggle_resumes_at_the_position(player: PlayerView, pipeline: PipelineView)
    requires
        player.available,
        player.state is Paused,
        player.in_step_with(pipeline),
        pipeline.wf(),
    ensures
        ({
            let step = PlayerStep::Toggle { accepted: true };
            let after = player.pipeline_after(pipeline, step);
            &&& after.state is Playing
            &&& after.stream == pipeline.stream
            &&& after.uri == pipeline.uri
            &&& player.after_step(step).state is Playing
        }),
{
    lemma_after_one(pipeline, PipelineRequest::SetState(PipelineState::Playing));
}

/// A jump goes to the nanosecond at which the second begins, or as far as can be
/// counted.
pub proof fn law_seek_goes_to_the_second(player: PlayerView, seconds: u64, pipeline: PipelineView)
    requires
        player.available,
        pipeline.stream is Some,
    ensures
        player.seek(seconds) is Some,
        seconds * 1_000_000_000 <= u64::MAX ==> player.seek(seconds)->0 == seconds * 1_000_000_000,
        seconds * 1_000_000_000 > u64::MAX ==> player.seek(seconds)->0 == u64::MAX,
        ({
            let after = pipeline.after(PipelineRequest::Seek(player.seek(seconds)->0));
            &&& after.stream->0.position == player.seek(seconds)->0
            &&& after.stream->0.uri == pipeline.stream->0.uri
            &&& after.state == pipeline.state
        }),
{
}

/// A time that the pipeline answers is reported in whole seconds, rounded down,
/// and an unknown one as 0.
pub proof fn law_times_are_whole_seconds(player: PlayerView, nanoseconds: u64)
    requires
        player.available,
    ensures
        player.seconds(Some(nanoseconds)) * 1_000_000_000 <= nanoseconds,
        nanoseconds < (player.seconds(Some(nanoseconds)) + 1) * 1_000_000_000,
        player.seconds(None) == 0,
{
}

/// The end of a stream and its failure are forwarded to the window, the failure
/// with its reason. Any other message is of no consequence.
pub proof fn law_messages_are_forwarded(
    player: PlayerView,
    pipeline: PipelineView,
    reason: Seq<char>,
)
    ensures
        forwarded(BusMessageView::EndOfStream) == Some(PlayerEventView::EndOfStream),
        forwarded(BusMessageView::Error(reason)) == Some(PlayerEventView::Error(reason)),
        forwarded(BusMessageView::Other) is None,
        player.after_message(BusMessageView::Other) == player,
        pipeline.after_all(player.message_requests(BusMessageView::Other)) == pipeline,
{
}

/// A player comes of a pipeline that is ready, and of no other. What kept it from
/// being set up is said in the error, with the reason where one was given.
pub proof fn law_failed_setup_says_why(setup: PipelineSetup)
    ensures
        setup_failure(setup) is None <==> setup is Ready,
        setup matches PipelineSetup::NoElement(reason) ==> setup_failure(setup) == Some(
            PlayerErrorView::Factory(reason@),
        ),
        setup matches PipelineSetup::NoBus ==> setup_failure(setup) == Some(
            PlayerErrorView::Init("playbin has no bus"@),
        ),
        setup matches PipelineSetup::NoWatch(reason) ==> {
            let text = setup_failure(setup)->0->Init_0;
            &&& setup_failure(setup)->0 is Init
            &&& text.len() >= reason@.len()
            &&& text.skip(text.len() - reason@.len()) == reason@
            &&& text.take(text.len() - reason@.len()) == "could not watch the bus: "@
        },
{
    if let PipelineSetup::NoWatch(reason) = setup {
        let text = setup_failure(setup)->0->Init_0;
        assert(text.skip(text.len() - reason@.len()) =~= reason@);
        assert(text.take(text.len() - reason@.len()) =~= "could not watch the bus: "@);
    }
}

/// Releasing a player closes its stream and leaves its pipeline with nothing held.
pub proof fn law_release_frees_the_pipeline(player: PlayerView, pipeline: PipelineView)
    ensures
        player.released() is Some <==> player.available,
        player.available ==> {
            let after = pipeline.after(player.released()->0);
            after.state is Null && after.stream is None
        },
{
}

} // verus!
