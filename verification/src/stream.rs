//! The streaming adapter: turns the wire frames of a completion response
//! into the text deltas handed to the caller.
//!
//! Each frame yields at most one output element, arrival order is kept, and
//! deltas already emitted before a terminating error stand — nothing is
//! retracted.  The transport itself lives outside the library; it hands each
//! received frame (or its own failure) in as a [`FrameEvent`].

use vstd::prelude::*;

verus! {

/// The incremental payload of one wire frame.
#[derive(Clone, Debug)]
pub struct FrameDelta {
    pub content: Option<String>,
}

/// One candidate completion segment within a frame; this provider always
/// uses the first.
#[derive(Clone, Debug)]
pub struct FrameChoice {
    pub delta: FrameDelta,
}

/// One unit of a streaming completion response.
#[derive(Clone, Debug)]
pub struct StreamFrame {
    pub choices: Vec<FrameChoice>,
    /// Marks normal end-of-stream on a frame carrying no choices.
    pub finished: bool,
}

/// A failure that terminates the delta sequence.
#[derive(Clone, Debug)]
pub enum StreamError {
    /// The service sent an empty choice set before signalling completion.
    ProtocolViolation,
    /// A frame carried a choice without content, which a well-formed frame
    /// never does.
    MissingContent,
    /// The underlying connection failed; the detail is forwarded verbatim.
    Transport(String),
}

impl StreamError {
    /// The user-facing explanation of this failure.
    pub fn message(&self) -> (r: String)
        ensures
            *self is ProtocolViolation ==> r@
                == "The Copilot Chat API returned a response with no choices, but hadn't finished the message yet. Please try again."@,
            *self is MissingContent ==> r@
                == "The Copilot Chat API returned a choice with no content. Please try again."@,
            self matches StreamError::Transport(detail) ==> r@ == detail@,
    {
        match self {
            StreamError::ProtocolViolation => String::from_str(
                "The Copilot Chat API returned a response with no choices, but hadn't finished the message yet. Please try again.",
            ),
            StreamError::MissingContent => String::from_str(
                "The Copilot Chat API returned a choice with no content. Please try again.",
            ),
            StreamError::Transport(detail) => detail.clone(),
        }
    }
}

/// What the transport delivered: one frame, or its own failure.
#[derive(Clone, Debug)]
pub enum FrameEvent {
    Frame(StreamFrame),
    TransportError(String),
}

/// What one frame contributes to the output sequence.
#[derive(Clone, Debug)]
pub enum FrameOutcome {
    /// Emit this text delta and go on.
    Delta(String),
    /// Terminate the sequence with this error as its final element.
    Fatal(StreamError),
    /// Normal end-of-stream: terminate without an error element.
    Finished,
}

/// The outcome owed for one frame: a frame with choices yields the first
/// choice's content (a choice without content is a fatal error); a frame
/// without choices ends the stream if it is marked finished and is a
/// protocol violation otherwise.
pub open spec fn spec_frame_outcome(f: StreamFrame) -> FrameOutcome {
    if f.choices@.len() > 0 {
        match f.choices@[0].delta.content {
            Some(s) => FrameOutcome::Delta(s),
            None => FrameOutcome::Fatal(StreamError::MissingContent),
        }
    } else if f.finished {
        FrameOutcome::Finished
    } else {
        FrameOutcome::Fatal(StreamError::ProtocolViolation)
    }
}

/// The outcome owed for one transport event: a transport failure is
/// forwarded verbatim as a terminating error.
pub open spec fn spec_event_outcome(e: FrameEvent) -> FrameOutcome {
    match e {
        FrameEvent::Frame(f) => spec_frame_outcome(f),
        FrameEvent::TransportError(detail) => FrameOutcome::Fatal(StreamError::Transport(detail)),
    }
}

/// Adapts one received frame.
pub fn adapt_frame(frame: &StreamFrame) -> (r: FrameOutcome)
    ensures
        r == spec_frame_outcome(*frame),
{
    if frame.choices.len() > 0 {
        match &frame.choices[0].delta.content {
            Some(s) => FrameOutcome::Delta(s.clone()),
            None => FrameOutcome::Fatal(StreamError::MissingContent),
        }
    } else if frame.finished {
        FrameOutcome::Finished
    } else {
        FrameOutcome::Fatal(StreamError::ProtocolViolation)
    }
}

/// Adapts one transport event.
pub fn adapt_event(event: &FrameEvent) -> (r: FrameOutcome)
    ensures
        r == spec_event_outcome(*event),
{
    match event {
        FrameEvent::Frame(f) => adapt_frame(f),
        FrameEvent::TransportError(detail) => FrameOutcome::Fatal(
            StreamError::Transport(detail.clone()),
        ),
    }
}

/// The adaptation of a whole event sequence: the deltas emitted, in arrival
/// order, and the terminating error if the sequence ended on one.
pub open spec fn spec_adapt(events: Seq<FrameEvent>) -> (Seq<String>, Option<StreamError>)
    decreases events.len(),
{
    if events.len() == 0 {
        (Seq::<String>::empty(), None)
    } else {
        match spec_event_outcome(events[0]) {
            FrameOutcome::Delta(s) => {
                let rest = spec_adapt(events.drop_first());
                (seq![s] + rest.0, rest.1)
            },
            FrameOutcome::Fatal(e) => (Seq::<String>::empty(), Some(e)),
            FrameOutcome::Finished => (Seq::<String>::empty(), None),
        }
    }
}

/// The adapted form of a finite response stream: the deltas that were
/// emitted before the stream ended, and the error that ended it, if any.
/// Deltas emitted before a terminating error remain valid.
#[derive(Debug)]
pub struct AdaptedStream {
    pub deltas: Vec<String>,
    pub error: Option<StreamError>,
}

/// Adapts a finite sequence of transport events, in arrival order, stopping
/// at the first terminating outcome.
pub fn adapt_frames(events: &Vec<FrameEvent>) -> (r: AdaptedStream)
    ensures
        r.deltas@ == spec_adapt(events@).0,
        r.error == spec_adapt(events@).1,
{
    let mut deltas: Vec<String> = Vec::new();
    let mut i: usize = 0;
    proof {
        assert(events@.skip(0) =~= events@);
        assert(Seq::<String>::empty() + spec_adapt(events@).0 =~= spec_adapt(events@).0);
    }
    while i < events.len()
        invariant
            0 <= i <= events@.len(),
            spec_adapt(events@).0 == deltas@ + spec_adapt(events@.skip(i as int)).0,
            spec_adapt(events@).1 == spec_adapt(events@.skip(i as int)).1,
        decreases events@.len() - i,
    {
        proof {
            assert(events@.skip(i as int)[0] == events@[i as int]);
            assert(events@.skip(i as int).drop_first() =~= events@.skip(i as int + 1));
        }
        match adapt_event(&events[i]) {
            FrameOutcome::Delta(s) => {
                proof {
                    let rest = spec_adapt(events@.skip(i as int + 1));
                    assert(deltas@ + (seq![s] + rest.0) =~= deltas@.push(s) + rest.0);
                }
                deltas.push(s);
                i = i + 1;
            },
            FrameOutcome::Fatal(e) => {
                proof {
                    assert(deltas@ + Seq::<String>::empty() =~= deltas@);
                }
                return AdaptedStream { deltas, error: Some(e) };
            },
            FrameOutcome::Finished => {
                proof {
                    assert(deltas@ + Seq::<String>::empty() =~= deltas@);
                }
                return AdaptedStream { deltas, error: None };
            },
        }
    }
    proof {
        assert(events@.skip(events@.len() as int) =~= Seq::<FrameEvent>::empty());
        assert(deltas@ + Seq::<String>::empty() =~= deltas@);
    }
    AdaptedStream { deltas, error: None }
}

/// Each wire frame yields at most one output element: the adapted sequence
/// is never longer than the event sequence it came from.
pub proof fn lemma_at_most_one_delta_per_event(events: Seq<FrameEvent>)
    ensures
        spec_adapt(events).0.len() <= events.len(),
    decreases events.len(),
{
    if events.len() > 0 {
        lemma_at_most_one_delta_per_event(events.drop_first());
    }
}

} // verus!
