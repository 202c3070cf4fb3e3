//! The media pipeline as the player drives it: the requests it is sent and
//! what they do to the stream that is heard.

use vstd::prelude::*;

verus! {

/// The states a media pipeline can be asked to enter.
#[derive(Debug, Clone, Copy, PartialEq, Eq, Structural)]
pub enum PipelineState {
    /// Everything is released.
    Null,
    /// Set up, but no stream is open.
    Ready,
    /// A stream is open and held at its position.
    Paused,
    /// A stream is open and heard.
    Playing,
}

/// One request to the media pipeline; `S` is the type of its texts.
#[derive(Debug, PartialEq, Eq)]
pub enum PipelineRequest<S> {
    /// Enter a state.
    SetState(PipelineState),
    /// Set the URI that the next stream is opened from.
    SetUri(S),
    /// Jump to a position of the open stream, in nanoseconds, dropping what is
    /// buffered.
    Seek(u64),
}

impl View for PipelineRequest<String> {
    type V = PipelineRequest<Seq<char>>;

    open spec fn view(&self) -> PipelineRequest<Seq<char>> {
        match self {
            PipelineRequest::SetState(state) => PipelineRequest::SetState(*state),
            PipelineRequest::SetUri(uri) => PipelineRequest::SetUri(uri@),
            PipelineRequest::Seek(position) => PipelineRequest::Seek(*position),
        }
    }
}

/// What a sequence of requests stands for.
pub open spec fn request_views(requests: Seq<PipelineRequest<String>>) -> Seq<
    PipelineRequest<Seq<char>>,
> {
    requests.map_values(|request: PipelineRequest<String>| request@)
}

/// A stream that a pipeline has opened.
pub struct StreamView {
    pub uri: Seq<char>,
    /// The position in nanoseconds.
    pub position: nat,
}

/// A media pipeline: its state, the URI it would open next and the stream that
/// is open.
pub struct PipelineView {
    pub state: PipelineState,
    pub uri: Seq<char>,
    pub stream: Option<StreamView>,
}

impl PipelineView {
    /// A pipeline that holds a stream open exactly where its state asks for one.
    pub open spec fn wf(self) -> bool {
        self.stream is Some <==> (self.state is Paused || self.state is Playing)
    }

    /// The pipeline after it has carried out `request`.
    ///
    /// Leaving for `Ready` or `Null` closes the stream. Entering `Paused` or
    /// `Playing` opens the stream of the current URI at its beginning, unless
    /// a stream is open already: that one then goes on where it stands, and a
    /// URI that was set meanwhile is not heard.
    pub open spec fn after(self, request: PipelineRequest<Seq<char>>) -> PipelineView {
        match request {
            PipelineRequest::SetState(state) => PipelineView {
                state,
                uri: self.uri,
                stream: if state is Null || state is Ready {
                    None
                } else if self.stream is Some {
                    self.stream
                } else {
                    Some(StreamView { uri: self.uri, position: 0 })
                },
            },
            PipelineRequest::SetUri(uri) => PipelineView {
                state: self.state,
                uri,
                stream: self.stream,
            },
            PipelineRequest::Seek(position) => PipelineView {
                state: self.state,
                uri: self.uri,
                stream: match self.stream {
                    Some(stream) => Some(
                        StreamView { uri: stream.uri, position: position as nat },
                    ),
                    None => None,
                },
            },
        }
    }

    /// The pipeline after it has carried out `requests` in order.
    pub open spec fn after_all(self, requests: Seq<PipelineRequest<Seq<char>>>) -> PipelineView
        decreases requests.len(),
    {
        if requests.len() == 0 {
            self
        } else {
            self.after(requests[0]).after_all(requests.drop_first())
        }
    }
}

} // verus!
