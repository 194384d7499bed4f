//! Per-connection translation of a streamed target response into the
//! source dialect's event stream.
//!
//! The translator is a finite-state machine advanced by one backend event
//! at a time. Whatever the backend does, the source side sees one message
//! start, one text block start, the text fragments in arrival order, one
//! block stop and one message stop, and nothing after that.
use vstd::prelude::*;
use vstd::string::*;

use crate::models::AnthropicUsage;

verus! {

/// Why the assistant stopped, in the source dialect's vocabulary.
#[derive(PartialEq, Eq, Structural, Clone, Copy)]
pub enum StopReason {
    EndTurn,
    MaxTokens,
}

/// The wire name of a stop reason.
pub open spec fn stop_reason_name(r: StopReason) -> Seq<char> {
    match r {
        StopReason::EndTurn => "end_turn"@,
        StopReason::MaxTokens => "max_tokens"@,
    }
}

/// The stop reason for a target finish reason: `length` runs out of tokens,
/// everything else (`stop`, `content_filter`, any other value) ends the turn.
pub open spec fn reason_for(finish: Seq<char>) -> StopReason {
    if finish == "stop"@ {
        StopReason::EndTurn
    } else if finish == "length"@ {
        StopReason::MaxTokens
    } else {
        StopReason::EndTurn
    }
}

impl StopReason {
    pub fn from_finish(finish: &String) -> (r: StopReason)
        ensures
            r == reason_for(finish@),
    {
        if finish.eq(&String::from_str("stop")) {
            StopReason::EndTurn
        } else if finish.eq(&String::from_str("length")) {
            StopReason::MaxTokens
        } else {
            StopReason::EndTurn
        }
    }

    pub fn as_string(&self) -> (r: String)
        ensures
            r@ == stop_reason_name(*self),
    {
        match self {
            StopReason::EndTurn => String::from_str("end_turn"),
            StopReason::MaxTokens => String::from_str("max_tokens"),
        }
    }
}

/// One event of the backend's stream, as far as choice `index` goes.
pub enum StreamInput {
    /// A new text fragment.
    TextDelta { index: u32, text: String },
    /// A usage report; reports are summed.
    Usage { prompt_tokens: u32, completion_tokens: u32 },
    /// The choice is finished, for the given reason.
    Finish { index: u32, reason: String },
    /// The connection ended, with or without a finish signal.
    ConnectionClosed,
}

/// One event of the translated stream.
pub enum StreamEvent {
    MessageStart { id: String, model: String },
    ContentBlockStart { index: u32 },
    TextDelta { index: u32, text: String },
    ContentBlockStop { index: u32 },
    MessageStop { stop_reason: StopReason, usage: AnthropicUsage },
}

#[derive(PartialEq, Eq, Structural, Clone, Copy)]
pub enum StreamState {
    NotStarted,
    MessageStarted,
    ContentBlockOpen,
    ContentBlockClosed,
    MessageStopped,
}

/// The state of one streamed connection.
pub struct StreamTranslator {
    pub state: StreamState,
    /// The message id announced at the start.
    pub id: String,
    /// The model the caller asked for, announced at the start.
    pub model: String,
    pub input_tokens: u32,
    pub output_tokens: u32,
}

pub open spec fn sat_add(a: u32, b: u32) -> u32 {
    if a as int + b as int > u32::MAX as int {
        u32::MAX
    } else {
        (a + b) as u32
    }
}

pub open spec fn start_event(t: StreamTranslator) -> StreamEvent {
    StreamEvent::MessageStart { id: t.id, model: t.model }
}

pub open spec fn stop_event(t: StreamTranslator, r: StopReason) -> StreamEvent {
    StreamEvent::MessageStop {
        stop_reason: r,
        usage: AnthropicUsage { input_tokens: t.input_tokens, output_tokens: t.output_tokens },
    }
}

/// The events that finish the message from state `t.state` with reason `r`.
pub open spec fn closing_events(t: StreamTranslator, r: StopReason) -> Seq<StreamEvent> {
    match t.state {
        StreamState::NotStarted => seq![
            start_event(t),
            StreamEvent::ContentBlockStart { index: 0 },
            StreamEvent::ContentBlockStop { index: 0 },
            stop_event(t, r),
        ],
        StreamState::MessageStarted => seq![
            StreamEvent::ContentBlockStart { index: 0 },
            StreamEvent::ContentBlockStop { index: 0 },
            stop_event(t, r),
        ],
        StreamState::ContentBlockOpen => seq![
            StreamEvent::ContentBlockStop { index: 0 },
            stop_event(t, r),
        ],
        StreamState::ContentBlockClosed => seq![stop_event(t, r)],
        StreamState::MessageStopped => Seq::empty(),
    }
}

/// The events that relay text fragment `s` from state `t.state`.
pub open spec fn delta_events(t: StreamTranslator, s: String) -> Seq<StreamEvent> {
    match t.state {
        StreamState::NotStarted => seq![
            start_event(t),
            StreamEvent::ContentBlockStart { index: 0 },
            StreamEvent::TextDelta { index: 0, text: s },
        ],
        StreamState::MessageStarted => seq![
            StreamEvent::ContentBlockStart { index: 0 },
            StreamEvent::TextDelta { index: 0, text: s },
        ],
        StreamState::ContentBlockOpen => seq![StreamEvent::TextDelta { index: 0, text: s }],
        _ => Seq::empty(),
    }
}

pub open spec fn with_state(t: StreamTranslator, s: StreamState) -> StreamTranslator {
    StreamTranslator { state: s, ..t }
}

/// One transition: the next translator and the events it emits.
pub open spec fn step(t: StreamTranslator, ev: StreamInput) -> (StreamTranslator, Seq<StreamEvent>) {
    match ev {
        StreamInput::TextDelta { index, text } => {
            if index == 0 && delta_events(t, text).len() > 0 {
                (with_state(t, StreamState::ContentBlockOpen), delta_events(t, text))
            } else {
                (t, Seq::empty())
            }
        },
        StreamInput::Usage { prompt_tokens, completion_tokens } => {
            if t.state == StreamState::MessageStopped {
                (t, Seq::empty())
            } else {
                (
                    StreamTranslator {
                        input_tokens: sat_add(t.input_tokens, prompt_tokens),
                        output_tokens: sat_add(t.output_tokens, completion_tokens),
                        ..t
                    },
                    Seq::empty(),
                )
            }
        },
        StreamInput::Finish { index, reason } => {
            if index == 0 {
                (with_state(t, StreamState::MessageStopped), closing_events(t, reason_for(reason@)))
            } else {
                (t, Seq::empty())
            }
        },
        StreamInput::ConnectionClosed => (
            with_state(t, StreamState::MessageStopped),
            closing_events(t, StopReason::EndTurn),
        ),
    }
}

/// The translator after the events `evs`, and everything it emitted.
pub open spec fn run(t: StreamTranslator, evs: Seq<StreamInput>) -> (StreamTranslator, Seq<StreamEvent>)
    decreases evs.len(),
{
    if evs.len() == 0 {
        (t, Seq::empty())
    } else {
        let (t1, o1) = step(t, evs[0]);
        let (t2, o2) = run(t1, evs.drop_first());
        (t2, o1 + o2)
    }
}

/// Text fragments of choice 0, as the backend sends them.
pub open spec fn text_inputs(texts: Seq<String>) -> Seq<StreamInput> {
    texts.map_values(|s: String| StreamInput::TextDelta { index: 0, text: s })
}

/// Text fragments as the translator relays them.
pub open spec fn text_events(texts: Seq<String>) -> Seq<StreamEvent> {
    texts.map_values(|s: String| StreamEvent::TextDelta { index: 0, text: s })
}

/// A well-formed translated stream: start, block start, the fragments in
/// order, block stop, and a message stop with reason `r` and the usage of `t`.
pub open spec fn framed(t: StreamTranslator, texts: Seq<String>, r: StopReason) -> Seq<StreamEvent> {
    seq![start_event(t), StreamEvent::ContentBlockStart { index: 0 }] + text_events(texts) + seq![
        StreamEvent::ContentBlockStop { index: 0 },
        stop_event(t, r),
    ]
}

impl StreamTranslator {
    /// A translator for a new connection.
    pub fn new(id: String, model: String) -> (r: Self)
        ensures
            r.state == StreamState::NotStarted,
            r.id == id,
            r.model == model,
            r.input_tokens == 0,
            r.output_tokens == 0,
    {
        StreamTranslator { state: StreamState::NotStarted, id, model, input_tokens: 0, output_tokens: 0 }
    }

    fn push_start(&self, out: &mut Vec<StreamEvent>)
        ensures
            final(out)@ == old(out)@.push(start_event(*self)),
    {
        out.push(StreamEvent::MessageStart { id: self.id.clone(), model: self.model.clone() });
    }

    fn push_stop(&self, out: &mut Vec<StreamEvent>, r: StopReason)
        ensures
            final(out)@ == old(out)@.push(stop_event(*self, r)),
    {
        out.push(
            StreamEvent::MessageStop {
                stop_reason: r,
                usage: AnthropicUsage {
                    input_tokens: self.input_tokens,
                    output_tokens: self.output_tokens,
                },
            },
        );
    }

    /// The events that finish the message with reason `r`.
    fn close_with(&mut self, r: StopReason) -> (out: Vec<StreamEvent>)
        ensures
            *final(self) == with_state(*old(self), StreamState::MessageStopped),
            out@ == closing_events(*old(self), r),
    {
        let mut out: Vec<StreamEvent> = Vec::new();
        match self.state {
            StreamState::NotStarted => {
                self.push_start(&mut out);
                out.push(StreamEvent::ContentBlockStart { index: 0 });
                out.push(StreamEvent::ContentBlockStop { index: 0 });
                self.push_stop(&mut out, r);
            },
            StreamState::MessageStarted => {
                out.push(StreamEvent::ContentBlockStart { index: 0 });
                out.push(StreamEvent::ContentBlockStop { index: 0 });
                self.push_stop(&mut out, r);
            },
            StreamState::ContentBlockOpen => {
                out.push(StreamEvent::ContentBlockStop { index: 0 });
                self.push_stop(&mut out, r);
            },
            StreamState::ContentBlockClosed => {
                self.push_stop(&mut out, r);
            },
            StreamState::MessageStopped => {},
        }
        assert(out@ =~= closing_events(*old(self), r));
        self.state = StreamState::MessageStopped;
        out
    }

    /// Advances the machine by one backend event and returns the events to
    /// relay, in order.
    pub fn on_event(&mut self, ev: StreamInput) -> (out: Vec<StreamEvent>)
        ensures
            (*final(self), out@) == step(*old(self), ev),
    {
        let mut out: Vec<StreamEvent> = Vec::new();
        match ev {
            StreamInput::TextDelta { index, text } => {
                if index != 0 {
                    return out;
                }
                match self.state {
                    StreamState::NotStarted => {
                        self.push_start(&mut out);
                        out.push(StreamEvent::ContentBlockStart { index: 0 });
                        out.push(StreamEvent::TextDelta { index: 0, text });
                        self.state = StreamState::ContentBlockOpen;
                    },
                    StreamState::MessageStarted => {
                        out.push(StreamEvent::ContentBlockStart { index: 0 });
                        out.push(StreamEvent::TextDelta { index: 0, text });
                        self.state = StreamState::ContentBlockOpen;
                    },
                    StreamState::ContentBlockOpen => {
                        out.push(StreamEvent::TextDelta { index: 0, text });
                    },
                    _ => {},
                }
                assert(out@ =~= step(*old(self), ev).1);
                out
            },
            StreamInput::Usage { prompt_tokens, completion_tokens } => {
                if self.state != StreamState::MessageStopped {
                    self.input_tokens = self.input_tokens.saturating_add(prompt_tokens);
                    self.output_tokens = self.output_tokens.saturating_add(completion_tokens);
                }
                assert(out@ =~= Seq::<StreamEvent>::empty());
                out
            },
            StreamInput::Finish { index, reason } => {
                if index != 0 {
                    return out;
                }
                let r = StopReason::from_finish(&reason);
                self.close_with(r)
            },
            StreamInput::ConnectionClosed => self.close_with(StopReason::EndTurn),
        }
    }
}

/// `ev` ends the message with reason `r`.
pub open spec fn ends_with(ev: StreamInput, r: StopReason) -> bool {
    ||| (ev matches StreamInput::Finish { index, reason } && index == 0 && r == reason_for(reason@))
    ||| (ev is ConnectionClosed && r == StopReason::EndTurn)
}

proof fn lemma_open_block_then_end(t: StreamTranslator, texts: Seq<String>, ev: StreamInput, r: StopReason)
    requires
        t.state == StreamState::ContentBlockOpen,
        ends_with(ev, r),
    ensures
        run(t, text_inputs(texts).push(ev)).1 == text_events(texts) + seq![
            StreamEvent::ContentBlockStop { index: 0 },
            stop_event(t, r),
        ],
    decreases texts.len(),
{
    let evs = text_inputs(texts).push(ev);
    if texts.len() == 0 {
        assert(evs.drop_first() =~= Seq::<StreamInput>::empty());
        assert(evs[0] == ev);
        assert(text_events(texts) =~= Seq::<StreamEvent>::empty());
        assert(step(t, ev).1 == closing_events(t, r));
        assert(run(step(t, ev).0, evs.drop_first()).1 == Seq::<StreamEvent>::empty());
        assert(run(t, evs).1 =~= text_events(texts) + seq![
            StreamEvent::ContentBlockStop { index: 0 },
            stop_event(t, r),
        ]);
    } else {
        let rest = texts.drop_first();
        assert(evs[0] == StreamInput::TextDelta { index: 0, text: texts[0] });
        assert(with_state(t, StreamState::ContentBlockOpen) == t);
        assert(evs.drop_first() =~= text_inputs(rest).push(ev));
        lemma_open_block_then_end(t, rest, ev, r);
        assert(text_events(texts) =~= seq![StreamEvent::TextDelta { index: 0, text: texts[0] }]
            + text_events(rest));
        assert(run(t, evs).1 =~= text_events(texts) + seq![
            StreamEvent::ContentBlockStop { index: 0 },
            stop_event(t, r),
        ]);
    }
}

/// From a fresh translator, fragments followed by an event that ends the
/// message give a well-formed stream: one start, one block start, every
/// fragment in arrival order, one block stop, one message stop with the
/// reason that the ending event gives.
pub proof fn lemma_stream_framed(t: StreamTranslator, texts: Seq<String>, ev: StreamInput, r: StopReason)
    requires
        t.state == StreamState::NotStarted,
        ends_with(ev, r),
    ensures
        run(t, text_inputs(texts).push(ev)).1 == framed(t, texts, r),
{
    let evs = text_inputs(texts).push(ev);
    if texts.len() == 0 {
        assert(evs.drop_first() =~= Seq::<StreamInput>::empty());
        assert(evs[0] == ev);
        assert(text_events(texts) =~= Seq::<StreamEvent>::empty());
        assert(step(t, ev).1 == closing_events(t, r));
        assert(run(step(t, ev).0, evs.drop_first()).1 == Seq::<StreamEvent>::empty());
        assert(run(t, evs).1 =~= framed(t, texts, r));
    } else {
        let rest = texts.drop_first();
        let t1 = with_state(t, StreamState::ContentBlockOpen);
        assert(evs[0] == StreamInput::TextDelta { index: 0, text: texts[0] });
        assert(evs.drop_first() =~= text_inputs(rest).push(ev));
        lemma_open_block_then_end(t1, rest, ev, r);
        assert(stop_event(t1, r) == stop_event(t, r));
        assert(text_events(texts) =~= seq![StreamEvent::TextDelta { index: 0, text: texts[0] }]
            + text_events(rest));
        assert(run(t, evs).1 =~= framed(t, texts, r));
    }
}

/// A stream of fragments that the backend finishes with `finish` is
/// translated to start, block start, the fragments in order, block stop and
/// a message stop carrying the mapped reason.
pub proof fn lemma_finished_stream(t: StreamTranslator, texts: Seq<String>, finish: String)
    requires
        t.state == StreamState::NotStarted,
    ensures
        run(t, text_inputs(texts).push(StreamInput::Finish { index: 0, reason: finish })).1
            == framed(t, texts, reason_for(finish@)),
{
    lemma_stream_framed(t, texts, StreamInput::Finish { index: 0, reason: finish }, reason_for(finish@));
}

/// A connection that closes after some fragments and no finish signal is
/// still terminated: block stop and a message stop with `end_turn`.
pub proof fn lemma_unfinished_stream(t: StreamTranslator, texts: Seq<String>)
    requires
        t.state == StreamState::NotStarted,
    ensures
        run(t, text_inputs(texts).push(StreamInput::ConnectionClosed)).1
            == framed(t, texts, StopReason::EndTurn),
{
    lemma_stream_framed(t, texts, StreamInput::ConnectionClosed, StopReason::EndTurn);
}

/// Once the message has stopped, nothing more is emitted.
pub proof fn lemma_stopped_is_silent(t: StreamTranslator, ev: StreamInput)
    requires
        t.state == StreamState::MessageStopped,
    ensures
        step(t, ev).1.len() == 0,
        step(t, ev).0.state == StreamState::MessageStopped,
{
}

} // verus!
