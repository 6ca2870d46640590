use copilot_chat::stream::{
    adapt_frame, adapt_frames, FrameChoice, FrameDelta, FrameEvent, FrameOutcome, StreamError,
    StreamFrame,
};

fn content_frame(text: &str) -> StreamFrame {
    StreamFrame {
        choices: vec![FrameChoice { delta: FrameDelta { content: Some(text.to_string()) } }],
        finished: false,
    }
}

fn end_frame() -> StreamFrame {
    StreamFrame { choices: vec![], finished: true }
}

#[test]
fn deltas_come_out_in_arrival_order() {
    let events = vec![
        FrameEvent::Frame(content_frame("a")),
        FrameEvent::Frame(content_frame("b")),
        FrameEvent::Frame(end_frame()),
    ];
    let adapted = adapt_frames(&events);
    assert_eq!(adapted.deltas, vec!["a".to_string(), "b".to_string()]);
    assert!(adapted.error.is_none());
}

#[test]
fn empty_choices_before_completion_is_a_protocol_violation() {
    let events = vec![FrameEvent::Frame(StreamFrame { choices: vec![], finished: false })];
    let adapted = adapt_frames(&events);
    assert!(adapted.deltas.is_empty());
    assert!(matches!(adapted.error, Some(StreamError::ProtocolViolation)));
}

#[test]
fn a_choice_without_content_is_fatal() {
    let events = vec![
        FrameEvent::Frame(content_frame("partial")),
        FrameEvent::Frame(StreamFrame {
            choices: vec![FrameChoice { delta: FrameDelta { content: None } }],
            finished: false,
        }),
    ];
    let adapted = adapt_frames(&events);
    assert_eq!(adapted.deltas, vec!["partial".to_string()]);
    assert!(matches!(adapted.error, Some(StreamError::MissingContent)));
}

#[test]
fn transport_failures_are_forwarded_and_terminate() {
    let events = vec![
        FrameEvent::Frame(content_frame("kept")),
        FrameEvent::TransportError("connection closed".to_string()),
        FrameEvent::Frame(content_frame("never seen")),
    ];
    let adapted = adapt_frames(&events);
    assert_eq!(adapted.deltas, vec!["kept".to_string()]);
    match adapted.error {
        Some(StreamError::Transport(detail)) => assert_eq!(detail, "connection closed"),
        other => panic!("expected a transport error, got {:?}", other),
    }
}

#[test]
fn nothing_follows_the_finished_frame() {
    let events = vec![
        FrameEvent::Frame(end_frame()),
        FrameEvent::Frame(content_frame("late")),
    ];
    let adapted = adapt_frames(&events);
    assert!(adapted.deltas.is_empty());
    assert!(adapted.error.is_none());
}

#[test]
fn an_exhausted_stream_ends_without_an_error() {
    let adapted = adapt_frames(&vec![]);
    assert!(adapted.deltas.is_empty());
    assert!(adapted.error.is_none());
}

#[test]
fn only_the_first_choice_of_a_frame_is_used() {
    let frame = StreamFrame {
        choices: vec![
            FrameChoice { delta: FrameDelta { content: Some("first".to_string()) } },
            FrameChoice { delta: FrameDelta { content: Some("second".to_string()) } },
        ],
        finished: false,
    };
    match adapt_frame(&frame) {
        FrameOutcome::Delta(text) => assert_eq!(text, "first"),
        other => panic!("expected a delta, got {:?}", other),
    }
}

#[test]
fn stream_error_messages() {
    assert_eq!(
        StreamError::ProtocolViolation.message(),
        "The Copilot Chat API returned a response with no choices, but hadn't finished the message yet. Please try again."
    );
    assert_eq!(
        StreamError::Transport("timed out".to_string()).message(),
        "timed out"
    );
}
