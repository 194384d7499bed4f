use ccv::stream::{StopReason, StreamEvent, StreamInput, StreamState, StreamTranslator};

fn feed(t: &mut StreamTranslator, inputs: Vec<StreamInput>) -> Vec<StreamEvent> {
    let mut out = Vec::new();
    for ev in inputs {
        out.extend(t.on_event(ev));
    }
    out
}

fn delta(s: &str) -> StreamInput {
    StreamInput::TextDelta { index: 0, text: s.to_string() }
}

fn texts_of(events: &[StreamEvent]) -> Vec<String> {
    events
        .iter()
        .filter_map(|e| match e {
            StreamEvent::TextDelta { text, .. } => Some(text.clone()),
            _ => None,
        })
        .collect()
}

#[test]
fn finished_stream_is_framed() {
    let mut t = StreamTranslator::new("msg-1".to_string(), "asked".to_string());
    let out = feed(
        &mut t,
        vec![
            delta("a"),
            delta("b"),
            StreamInput::Usage { prompt_tokens: 3, completion_tokens: 2 },
            delta("c"),
            StreamInput::Finish { index: 0, reason: "length".to_string() },
        ],
    );
    assert_eq!(out.len(), 7);
    assert!(matches!(&out[0], StreamEvent::MessageStart { id, model } if id == "msg-1" && model == "asked"));
    assert!(matches!(out[1], StreamEvent::ContentBlockStart { index: 0 }));
    assert_eq!(texts_of(&out), vec!["a", "b", "c"]);
    assert!(matches!(out[5], StreamEvent::ContentBlockStop { index: 0 }));
    match &out[6] {
        StreamEvent::MessageStop { stop_reason, usage } => {
            assert!(*stop_reason == StopReason::MaxTokens);
            assert_eq!(stop_reason.as_string(), "max_tokens");
            assert_eq!(usage.input_tokens, 3);
            assert_eq!(usage.output_tokens, 2);
        }
        _ => panic!("expected message stop"),
    }
    assert!(t.state == StreamState::MessageStopped);
}

#[test]
fn closed_stream_still_terminates() {
    let mut t = StreamTranslator::new("msg-2".to_string(), "asked".to_string());
    let out = feed(&mut t, vec![delta("a"), delta("b"), StreamInput::ConnectionClosed]);
    assert_eq!(out.len(), 6);
    assert_eq!(texts_of(&out), vec!["a", "b"]);
    assert!(matches!(out[4], StreamEvent::ContentBlockStop { index: 0 }));
    assert!(matches!(&out[5], StreamEvent::MessageStop { stop_reason: StopReason::EndTurn, .. }));
}

#[test]
fn empty_stream_is_still_framed() {
    let mut t = StreamTranslator::new("msg-3".to_string(), "asked".to_string());
    let out = feed(&mut t, vec![StreamInput::ConnectionClosed]);
    assert_eq!(out.len(), 4);
    assert!(matches!(out[0], StreamEvent::MessageStart { .. }));
    assert!(matches!(out[1], StreamEvent::ContentBlockStart { index: 0 }));
    assert!(matches!(out[2], StreamEvent::ContentBlockStop { index: 0 }));
    assert!(matches!(&out[3], StreamEvent::MessageStop { stop_reason: StopReason::EndTurn, .. }));
}

#[test]
fn nothing_after_message_stop() {
    let mut t = StreamTranslator::new("msg-4".to_string(), "asked".to_string());
    let out = feed(
        &mut t,
        vec![
            delta("a"),
            StreamInput::Finish { index: 0, reason: "stop".to_string() },
            delta("late"),
            StreamInput::Finish { index: 0, reason: "length".to_string() },
            StreamInput::ConnectionClosed,
        ],
    );
    assert_eq!(out.len(), 5);
    assert!(matches!(&out[4], StreamEvent::MessageStop { stop_reason: StopReason::EndTurn, .. }));
}

#[test]
fn other_choices_are_ignored() {
    let mut t = StreamTranslator::new("msg-5".to_string(), "asked".to_string());
    let out = feed(
        &mut t,
        vec![
            StreamInput::TextDelta { index: 1, text: "other".to_string() },
            delta("mine"),
            StreamInput::Finish { index: 1, reason: "length".to_string() },
            StreamInput::Finish { index: 0, reason: "content_filter".to_string() },
        ],
    );
    assert_eq!(texts_of(&out), vec!["mine"]);
    assert_eq!(out.len(), 5);
    assert!(matches!(&out[4], StreamEvent::MessageStop { stop_reason: StopReason::EndTurn, .. }));
}

#[test]
fn usage_saturates() {
    let mut t = StreamTranslator::new("msg-6".to_string(), "asked".to_string());
    let out = feed(
        &mut t,
        vec![
            StreamInput::Usage { prompt_tokens: u32::MAX, completion_tokens: 1 },
            StreamInput::Usage { prompt_tokens: 5, completion_tokens: 1 },
            StreamInput::Finish { index: 0, reason: "stop".to_string() },
        ],
    );
    match &out[3] {
        StreamEvent::MessageStop { usage, .. } => {
            assert_eq!(usage.input_tokens, u32::MAX);
            assert_eq!(usage.output_tokens, 2);
        }
        _ => panic!("expected message stop"),
    }
}
