//! The stream orchestrator: a single-flow, two-phase state machine per
//! request. It opens the canonical stream, relays the reasoning provider's
//! deltas while accumulating the trace, closes the thinking marker, relays
//! the answer provider's events translated into the canonical vocabulary,
//! and ends with exactly one terminal event: `Done`, or `Error` with
//! nothing after it. The transport side — the bounded queue and the
//! upstream connections — stays outside the library and feeds the machine
//! one outcome at a time.

use vstd::prelude::*;
use crate::compose::{spec_wrap_thinking, prepare_answer_messages, wrap_thinking};
use crate::cost::Pricing;
use crate::deepseek;
use crate::gemini;
use crate::request::{clone_messages, Message, MessageModel, Role};
use crate::response::{
    build_combined_usage, spec_combined_usage, BlockModel, ContentBlock, StreamEvent,
    StreamEventModel,
};

verus! {

/// The block that opens the thinking marker.
pub open spec fn spec_thinking_open_block() -> BlockModel {
    BlockModel { content_type: "text"@, text: "<thinking>\n"@ }
}

/// The block that closes the thinking marker.
pub open spec fn spec_thinking_close_block() -> BlockModel {
    BlockModel { content_type: "text"@, text: "\n</thinking>"@ }
}

/// What every stream opens with: `Start`, then the thinking-open block.
pub open spec fn spec_opening_events(created: i64) -> Seq<StreamEventModel> {
    seq![
        StreamEventModel::Start { created },
        StreamEventModel::Content { content: seq![spec_thinking_open_block()] },
    ]
}

/// The event that closes the thinking marker.
pub open spec fn spec_closing_event() -> StreamEventModel {
    StreamEventModel::Content { content: seq![spec_thinking_close_block()] }
}

/// A chunk whose first choice carries no reasoning field ends the reasoning
/// phase: the provider has moved past reasoning, and nothing of the chunk
/// (not even a usage report) is read.
pub open spec fn spec_chunk_ends_reasoning(c: deepseek::StreamChunk) -> bool {
    c.choices@.len() > 0 && c.choices@[0].delta.reasoning_content is None
}

/// The reasoning delta a chunk carries (empty when it carries none).
pub open spec fn spec_chunk_delta(c: deepseek::StreamChunk) -> Seq<char> {
    if c.choices@.len() > 0 && c.choices@[0].delta.reasoning_content is Some {
        c.choices@[0].delta.reasoning_content->0@
    } else {
        Seq::empty()
    }
}

/// The canonical events one reasoning chunk produces: one `text_delta`
/// content event for a non-empty delta, nothing otherwise.
pub open spec fn spec_chunk_events(c: deepseek::StreamChunk) -> Seq<StreamEventModel> {
    if !spec_chunk_ends_reasoning(c) && spec_chunk_delta(c).len() > 0 {
        seq![
            StreamEventModel::Content {
                content: seq![
                    BlockModel { content_type: "text_delta"@, text: spec_chunk_delta(c) },
                ],
            },
        ]
    } else {
        seq![]
    }
}

/// How one chunk extends the phase-local accumulator.
pub open spec fn spec_chunk_acc(c: deepseek::StreamChunk, acc: Seq<char>) -> Seq<char> {
    if spec_chunk_ends_reasoning(c) {
        acc
    } else {
        acc + spec_chunk_delta(c)
    }
}

/// How one chunk updates the recorded usage: a later report overwrites an
/// earlier one; a phase-ending chunk is not read at all.
pub open spec fn spec_chunk_usage(
    c: deepseek::StreamChunk,
    prev: Option<deepseek::Usage>,
) -> Option<deepseek::Usage> {
    if spec_chunk_ends_reasoning(c) {
        prev
    } else if c.usage is Some {
        c.usage
    } else {
        prev
    }
}

/// The canonical events one answer-provider event translates to: initial
/// content becomes one content event when non-empty; a delta becomes one
/// content event with that one block; a finish event carrying usage becomes
/// one combined-usage event (an unrecorded reasoning-side report reads as
/// all zero); everything else is silently ignored.
pub open spec fn spec_translate_answer_event(
    ev: gemini::StreamEvent,
    ds: Option<deepseek::Usage>,
    p: Pricing,
) -> Seq<StreamEventModel> {
    match ev {
        gemini::StreamEvent::MessageStart { message } => {
            if message.content@.len() > 0 {
                seq![StreamEventModel::Content { content: message.content.deep_view() }]
            } else {
                seq![]
            }
        },
        gemini::StreamEvent::ContentBlockDelta { delta } => seq![
            StreamEventModel::Content {
                content: seq![BlockModel { content_type: delta.delta_type@, text: delta.text@ }],
            },
        ],
        gemini::StreamEvent::MessageDelta { usage } => match usage {
            Some(u) => seq![
                StreamEventModel::Usage { usage: spec_combined_usage(ds, Some(u), p) },
            ],
            None => seq![],
        },
        gemini::StreamEvent::Other => seq![],
    }
}

/// Where the state machine stands.
pub enum Phase {
    Reasoning,
    Answering,
    Finished,
    Failed,
}

/// The per-request state machine. The reasoning accumulator is phase-local
/// state: it is read only to build the answer provider's conversation and
/// is never published.
pub struct Orchestrator {
    phase: Phase,
    messages: Vec<Message>,
    reasoning: String,
    deepseek_usage: Option<deepseek::Usage>,
}

impl Orchestrator {
    /// The machine's phase.
    pub closed spec fn phase(&self) -> Phase {
        self.phase
    }

    /// The conversation the request arrived with.
    pub closed spec fn messages_view(&self) -> Seq<MessageModel> {
        self.messages.deep_view()
    }

    /// The reasoning accumulated so far.
    pub closed spec fn reasoning_acc(&self) -> Seq<char> {
        self.reasoning@
    }

    /// The last usage report the reasoning provider sent, if any.
    pub closed spec fn recorded_usage(&self) -> Option<deepseek::Usage> {
        self.deepseek_usage
    }

    /// Opens a stream: the machine starts relaying reasoning, and the
    /// caller first publishes `Start` and the thinking-open block.
    pub fn new(messages: Vec<Message>, created: i64) -> (r: (Orchestrator, Vec<StreamEvent>))
        ensures
            r.0.phase() is Reasoning,
            r.0.messages_view() == messages.deep_view(),
            r.0.reasoning_acc() == Seq::<char>::empty(),
            r.0.recorded_usage() is None,
            r.1.deep_view() == spec_opening_events(created),
    {
        let orchestrator = Orchestrator {
            phase: Phase::Reasoning,
            messages,
            reasoning: String::new(),
            deepseek_usage: None,
        };
        let mut events: Vec<StreamEvent> = Vec::new();
        events.push(StreamEvent::Start { created });
        let mut blocks: Vec<ContentBlock> = Vec::new();
        blocks.push(ContentBlock {
            content_type: String::from_str("text"),
            text: String::from_str("<thinking>\n"),
        });
        events.push(StreamEvent::Content { content: blocks });
        proof {
            assert(events.deep_view() =~~= spec_opening_events(created));
        }
        (orchestrator, events)
    }

    /// Consumes one reasoning chunk. Returns the canonical events to
    /// publish and whether the phase goes on: a chunk without a reasoning
    /// field ends the phase (no error — the provider has moved on).
    pub fn on_reasoning_chunk(&mut self, chunk: &deepseek::StreamChunk) -> (r: (
        Vec<StreamEvent>,
        bool,
    ))
        requires
            old(self).phase() is Reasoning,
        ensures
            r.1 == !spec_chunk_ends_reasoning(*chunk),
            r.0.deep_view() == spec_chunk_events(*chunk),
            final(self).phase() is Reasoning,
            final(self).messages_view() == old(self).messages_view(),
            final(self).reasoning_acc() == spec_chunk_acc(*chunk, old(self).reasoning_acc()),
            final(self).recorded_usage() == spec_chunk_usage(*chunk, old(self).recorded_usage()),
    {
        let mut events: Vec<StreamEvent> = Vec::new();
        if chunk.choices.len() > 0 {
            match &chunk.choices[0].delta.reasoning_content {
                None => {
                    proof {
                        assert(events.deep_view() =~~= spec_chunk_events(*chunk));
                    }
                    return (events, false);
                },
                Some(reasoning) => {
                    if !reasoning.as_str().is_empty() {
                        let mut blocks: Vec<ContentBlock> = Vec::new();
                        blocks.push(ContentBlock {
                            content_type: String::from_str("text_delta"),
                            text: reasoning.clone(),
                        });
                        events.push(StreamEvent::Content { content: blocks });
                        self.reasoning.append(reasoning.as_str());
                    }
                },
            }
        }
        if let Some(usage) = chunk.usage {
            self.deepseek_usage = Some(usage);
        }
        proof {
            assert(events.deep_view() =~~= spec_chunk_events(*chunk));
            if spec_chunk_delta(*chunk).len() == 0 {
                assert(self.reasoning@ =~= spec_chunk_acc(*chunk, old(self).reasoning@));
            }
        }
        (events, true)
    }

    /// An upstream failure, from either provider: the machine fails, and
    /// the caller publishes a single terminal `Error` event — nothing may
    /// follow it, not even `Done`.
    pub fn on_upstream_error(&mut self, message: String) -> (events: Vec<StreamEvent>)
        requires
            old(self).phase() is Reasoning || old(self).phase() is Answering,
        ensures
            events.deep_view() == seq![StreamEventModel::Error { message: message@, code: 500 }],
            final(self).phase() is Failed,
    {
        self.phase = Phase::Failed;
        let mut events: Vec<StreamEvent> = Vec::new();
        events.push(StreamEvent::Error { message, code: 500 });
        proof {
            assert(events.deep_view() =~= seq![
                StreamEventModel::Error { message: events@[0]->Error_message@, code: 500 },
            ]);
        }
        events
    }

    /// Ends the reasoning phase: the caller publishes the thinking-close
    /// block and opens the answer provider's stream with the conversation
    /// extended by the wrapped trace as an assistant message.
    pub fn begin_answering(&mut self) -> (r: (Vec<StreamEvent>, Vec<Message>))
        requires
            old(self).phase() is Reasoning,
        ensures
            r.0.deep_view() == seq![spec_closing_event()],
            r.1.deep_view() == old(self).messages_view() + seq![
                MessageModel {
                    role: Role::Assistant,
                    content: spec_wrap_thinking(old(self).reasoning_acc()),
                },
            ],
            final(self).phase() is Answering,
            final(self).recorded_usage() == old(self).recorded_usage(),
    {
        self.phase = Phase::Answering;
        let mut events: Vec<StreamEvent> = Vec::new();
        let mut blocks: Vec<ContentBlock> = Vec::new();
        blocks.push(ContentBlock {
            content_type: String::from_str("text"),
            text: String::from_str("\n</thinking>"),
        });
        events.push(StreamEvent::Content { content: blocks });
        let thinking = wrap_thinking(self.reasoning.as_str());
        let extended = prepare_answer_messages(clone_messages(&self.messages), &thinking);
        proof {
            assert(events.deep_view() =~~= seq![spec_closing_event()]);
        }
        (events, extended)
    }

    /// Translates one answer-provider event into the canonical events to
    /// publish; the machine itself does not change.
    pub fn on_answer_event(&self, event: &gemini::StreamEvent, pricing: &Pricing) -> (events: Vec<
        StreamEvent,
    >)
        requires
            self.phase() is Answering,
        ensures
            events.deep_view() == spec_translate_answer_event(
                *event,
                self.recorded_usage(),
                *pricing,
            ),
    {
        let mut events: Vec<StreamEvent> = Vec::new();
        match event {
            gemini::StreamEvent::MessageStart { message } => {
                if message.content.len() > 0 {
                    let mut blocks: Vec<ContentBlock> = Vec::new();
                    let mut i: usize = 0;
                    while i < message.content.len()
                        invariant
                            i <= message.content@.len(),
                            blocks@.len() == i,
                            forall|j: int| 0 <= j < i
                                ==> #[trigger] blocks@[j]@ == message.content@[j]@,
                        decreases message.content@.len() - i,
                    {
                        let b = &message.content[i];
                        blocks.push(ContentBlock {
                            content_type: b.content_type.clone(),
                            text: b.text.clone(),
                        });
                        i = i + 1;
                    }
                    proof {
                        assert(blocks.deep_view() =~= message.content.deep_view());
                    }
                    events.push(StreamEvent::Content { content: blocks });
                }
            },
            gemini::StreamEvent::ContentBlockDelta { delta } => {
                let mut blocks: Vec<ContentBlock> = Vec::new();
                blocks.push(ContentBlock {
                    content_type: delta.delta_type.clone(),
                    text: delta.text.clone(),
                });
                events.push(StreamEvent::Content { content: blocks });
            },
            gemini::StreamEvent::MessageDelta { usage } => {
                if let Some(u) = usage {
                    let combined = build_combined_usage(self.deepseek_usage, Some(*u), pricing);
                    events.push(StreamEvent::Usage { usage: combined });
                }
            },
            gemini::StreamEvent::Other => {},
        }
        proof {
            assert(events.deep_view() =~~= spec_translate_answer_event(
                *event,
                self.recorded_usage(),
                *pricing,
            ));
        }
        events
    }

    /// The answer stream ended normally: the machine finishes and the
    /// caller publishes `Done`, unconditionally, whether or not a usage
    /// event was ever produced.
    pub fn finish(&mut self) -> (events: Vec<StreamEvent>)
        requires
            old(self).phase() is Answering,
        ensures
            events.deep_view() == seq![StreamEventModel::Done],
            final(self).phase() is Finished,
    {
        self.phase = Phase::Finished;
        let mut events: Vec<StreamEvent> = Vec::new();
        events.push(StreamEvent::Done);
        proof {
            assert(events.deep_view() =~= seq![StreamEventModel::Done]);
        }
        events
    }
}

/// One outcome of reading the reasoning provider's stream: a chunk, or a
/// transport/protocol failure with its message.
pub enum ReasoningOutcome {
    Chunk(deepseek::StreamChunk),
    Failed(String),
}

/// One outcome of reading the answer provider's stream.
pub enum AnswerOutcome {
    Event(gemini::StreamEvent),
    Failed(String),
}

/// What a reasoning-phase transcript folds to: the events published, the
/// accumulated trace, the last usage report, and whether the phase failed.
#[verifier::ext_equal]
pub struct ReasoningRun {
    pub events: Seq<StreamEventModel>,
    pub acc: Seq<char>,
    pub usage: Option<deepseek::Usage>,
    pub failed: bool,
}

/// Folds the reasoning phase over a transcript: a failure publishes one
/// terminal error and stops; a chunk without a reasoning field ends the
/// phase quietly, leaving the rest of the transcript unread; any other
/// chunk contributes its events and updates the accumulator and the usage.
pub open spec fn spec_run_reasoning(
    acc: Seq<char>,
    usage: Option<deepseek::Usage>,
    items: Seq<ReasoningOutcome>,
) -> ReasoningRun
    decreases items.len(),
{
    if items.len() == 0 {
        ReasoningRun { events: seq![], acc, usage, failed: false }
    } else {
        match items[0] {
            ReasoningOutcome::Failed(m) => ReasoningRun {
                events: seq![StreamEventModel::Error { message: m@, code: 500 }],
                acc,
                usage,
                failed: true,
            },
            ReasoningOutcome::Chunk(c) => {
                if spec_chunk_ends_reasoning(c) {
                    ReasoningRun { events: seq![], acc, usage, failed: false }
                } else {
                    let rest = spec_run_reasoning(
                        spec_chunk_acc(c, acc),
                        spec_chunk_usage(c, usage),
                        items.drop_first(),
                    );
                    ReasoningRun {
                        events: spec_chunk_events(c) + rest.events,
                        acc: rest.acc,
                        usage: rest.usage,
                        failed: rest.failed,
                    }
                }
            },
        }
    }
}

/// Folds the answer phase over a transcript: a failure publishes one
/// terminal error and stops (no `Done`); a normal end publishes `Done`,
/// unconditionally; every event in between is translated one by one.
pub open spec fn spec_run_answer(
    ds: Option<deepseek::Usage>,
    p: Pricing,
    items: Seq<AnswerOutcome>,
) -> Seq<StreamEventModel>
    decreases items.len(),
{
    if items.len() == 0 {
        seq![StreamEventModel::Done]
    } else {
        match items[0] {
            AnswerOutcome::Failed(m) => seq![StreamEventModel::Error { message: m@, code: 500 }],
            AnswerOutcome::Event(e) => spec_translate_answer_event(e, ds, p) + spec_run_answer(
                ds,
                p,
                items.drop_first(),
            ),
        }
    }
}

/// The whole canonical stream for a pair of upstream transcripts: the
/// opening events, the reasoning relay, and — unless reasoning failed —
/// the thinking-close event and the answer relay.
pub open spec fn spec_run_stream(
    created: i64,
    a_items: Seq<ReasoningOutcome>,
    b_items: Seq<AnswerOutcome>,
    p: Pricing,
) -> Seq<StreamEventModel> {
    let run = spec_run_reasoning(Seq::empty(), None, a_items);
    if run.failed {
        spec_opening_events(created) + run.events
    } else {
        spec_opening_events(created) + run.events + seq![spec_closing_event()] + spec_run_answer(
            run.usage,
            p,
            b_items,
        )
    }
}

fn relay_reasoning(
    o: &mut Orchestrator,
    items: &Vec<ReasoningOutcome>,
    i: usize,
    out: &mut Vec<StreamEvent>,
) -> (ok: bool)
    requires
        old(o).phase() is Reasoning,
        i <= items@.len(),
    ensures
        final(out).deep_view() == old(out).deep_view() + spec_run_reasoning(
            old(o).reasoning_acc(),
            old(o).recorded_usage(),
            items@.skip(i as int),
        ).events,
        ok == !spec_run_reasoning(
            old(o).reasoning_acc(),
            old(o).recorded_usage(),
            items@.skip(i as int),
        ).failed,
        ok ==> final(o).phase() is Reasoning,
        ok ==> final(o).reasoning_acc() == spec_run_reasoning(
            old(o).reasoning_acc(),
            old(o).recorded_usage(),
            items@.skip(i as int),
        ).acc,
        ok ==> final(o).recorded_usage() == spec_run_reasoning(
            old(o).reasoning_acc(),
            old(o).recorded_usage(),
            items@.skip(i as int),
        ).usage,
        ok ==> final(o).messages_view() == old(o).messages_view(),
        !ok ==> final(o).phase() is Failed,
    decreases items@.len() - i,
{
    if i == items.len() {
        proof {
            assert(items@.skip(i as int) =~= Seq::<ReasoningOutcome>::empty());
            assert(out.deep_view() =~= old(out).deep_view() + Seq::<StreamEventModel>::empty());
        }
        return true;
    }
    proof {
        assert(items@.skip(i as int)[0] == items@[i as int]);
        assert(items@.skip(i as int).drop_first() =~= items@.skip(i + 1 as int));
    }
    match &items[i] {
        ReasoningOutcome::Failed(m) => {
            let mut events = o.on_upstream_error(m.clone());
            let ghost events_view = events.deep_view();
            out.append(&mut events);
            proof {
                assert(out.deep_view() =~= old(out).deep_view() + events_view);
            }
            false
        },
        ReasoningOutcome::Chunk(c) => {
            let (mut events, go_on) = o.on_reasoning_chunk(c);
            let ghost events_view = events.deep_view();
            let ghost out_before = out.deep_view();
            out.append(&mut events);
            proof {
                assert(out.deep_view() =~= out_before + events_view);
            }
            if go_on {
                let ok = relay_reasoning(o, items, i + 1, out);
                proof {
                    assert(out.deep_view() =~= old(out).deep_view() + spec_run_reasoning(
                        old(o).reasoning_acc(),
                        old(o).recorded_usage(),
                        items@.skip(i as int),
                    ).events);
                }
                ok
            } else {
                proof {
                    assert(out.deep_view() =~= old(out).deep_view()
                        + Seq::<StreamEventModel>::empty());
                }
                true
            }
        },
    }
}

fn relay_answer(
    o: &mut Orchestrator,
    items: &Vec<AnswerOutcome>,
    i: usize,
    pricing: &Pricing,
    out: &mut Vec<StreamEvent>,
)
    requires
        old(o).phase() is Answering,
        i <= items@.len(),
    ensures
        final(out).deep_view() == old(out).deep_view() + spec_run_answer(
            old(o).recorded_usage(),
            *pricing,
            items@.skip(i as int),
        ),
    decreases items@.len() - i,
{
    if i == items.len() {
        proof {
            assert(items@.skip(i as int) =~= Seq::<AnswerOutcome>::empty());
        }
        let mut events = o.finish();
        let ghost events_view = events.deep_view();
        out.append(&mut events);
        proof {
            assert(out.deep_view() =~= old(out).deep_view() + events_view);
        }
        return;
    }
    proof {
        assert(items@.skip(i as int)[0] == items@[i as int]);
        assert(items@.skip(i as int).drop_first() =~= items@.skip(i + 1 as int));
    }
    match &items[i] {
        AnswerOutcome::Failed(m) => {
            let mut events = o.on_upstream_error(m.clone());
            let ghost events_view = events.deep_view();
            out.append(&mut events);
            proof {
                assert(out.deep_view() =~= old(out).deep_view() + events_view);
            }
        },
        AnswerOutcome::Event(e) => {
            let mut events = o.on_answer_event(e, pricing);
            let ghost events_view = events.deep_view();
            let ghost out_before = out.deep_view();
            out.append(&mut events);
            proof {
                assert(out.deep_view() =~= out_before + events_view);
            }
            relay_answer(o, items, i + 1, pricing, out);
            proof {
                assert(out.deep_view() =~= old(out).deep_view() + spec_run_answer(
                    old(o).recorded_usage(),
                    *pricing,
                    items@.skip(i as int),
                ));
            }
        },
    }
}

/// What one whole streaming run yields: the canonical events in publication
/// order, and — when the reasoning phase did not fail — the extended
/// conversation that was handed to the answer provider.
pub struct StreamRun {
    pub events: Vec<StreamEvent>,
    pub answer_messages: Option<Vec<Message>>,
}

/// Runs the whole two-phase state machine over recorded upstream
/// transcripts. The events come out exactly as the transcript fold
/// prescribes; the answer conversation exists if and only if the reasoning
/// phase did not fail, and is the original conversation extended by the
/// wrapped accumulated trace.
pub fn run_stream_transcript(
    messages: Vec<Message>,
    created: i64,
    a_items: &Vec<ReasoningOutcome>,
    b_items: &Vec<AnswerOutcome>,
    pricing: &Pricing,
) -> (r: StreamRun)
    ensures
        r.events.deep_view() == spec_run_stream(created, a_items@, b_items@, *pricing),
        r.answer_messages is Some <==> !spec_run_reasoning(Seq::empty(), None, a_items@).failed,
        r.answer_messages is Some ==> r.answer_messages->0.deep_view() == messages.deep_view()
            + seq![
            MessageModel {
                role: Role::Assistant,
                content: spec_wrap_thinking(
                    spec_run_reasoning(Seq::empty(), None, a_items@).acc,
                ),
            },
        ],
{
    let ghost messages_view = messages.deep_view();
    let (mut o, mut out) = Orchestrator::new(messages, created);
    let ghost opening = out.deep_view();
    proof {
        assert(a_items@.skip(0) =~= a_items@);
        assert(b_items@.skip(0) =~= b_items@);
    }
    let ok = relay_reasoning(&mut o, a_items, 0, &mut out);
    if !ok {
        return StreamRun { events: out, answer_messages: None };
    }
    let (mut closing, answer_messages) = o.begin_answering();
    let ghost closing_view = closing.deep_view();
    let ghost out_before = out.deep_view();
    out.append(&mut closing);
    proof {
        assert(out.deep_view() =~= out_before + closing_view);
    }
    relay_answer(&mut o, b_items, 0, pricing, &mut out);
    proof {
        assert(out.deep_view() =~= spec_run_stream(created, a_items@, b_items@, *pricing));
    }
    StreamRun { events: out, answer_messages: Some(answer_messages) }
}

/// Every event a stream may hold between its opening and its terminal
/// event: content, or the one usage figure.
pub open spec fn spec_all_relay_events(evs: Seq<StreamEventModel>) -> bool {
    forall|i: int| 0 <= i < evs.len() ==> (#[trigger] evs[i] is Content || evs[i] is Usage)
}

/// Every event of a reasoning-phase fold is content, except that a failed
/// fold ends with one terminal error.
proof fn lemma_run_reasoning_shape(
    acc: Seq<char>,
    usage: Option<deepseek::Usage>,
    items: Seq<ReasoningOutcome>,
)
    ensures
        ({
            let r = spec_run_reasoning(acc, usage, items);
            &&& !r.failed ==> forall|i: int| 0 <= i < r.events.len()
                ==> #[trigger] r.events[i] is Content
            &&& r.failed ==> r.events.len() >= 1 && r.events.last() is Error && forall|i: int|
                0 <= i < r.events.len() - 1 ==> #[trigger] r.events[i] is Content
        }),
    decreases items.len(),
{
    if items.len() == 0 {
    } else {
        match items[0] {
            ReasoningOutcome::Failed(_) => {},
            ReasoningOutcome::Chunk(c) => {
                if !spec_chunk_ends_reasoning(c) {
                    lemma_run_reasoning_shape(
                        spec_chunk_acc(c, acc),
                        spec_chunk_usage(c, usage),
                        items.drop_first(),
                    );
                }
            },
        }
    }
}

/// An answer-phase fold ends with `Done` or with one terminal error, and
/// everything before its end is content or the usage figure.
proof fn lemma_run_answer_shape(ds: Option<deepseek::Usage>, p: Pricing, items: Seq<AnswerOutcome>)
    ensures
        ({
            let evs = spec_run_answer(ds, p, items);
            &&& evs.len() >= 1
            &&& (evs.last() is Done || evs.last() is Error)
            &&& forall|i: int| 0 <= i < evs.len() - 1
                ==> (#[trigger] evs[i] is Content || evs[i] is Usage)
        }),
    decreases items.len(),
{
    if items.len() == 0 {
    } else {
        match items[0] {
            AnswerOutcome::Failed(_) => {},
            AnswerOutcome::Event(e) => {
                lemma_run_answer_shape(ds, p, items.drop_first());
                assert(spec_all_relay_events(spec_translate_answer_event(e, ds, p)));
            },
        }
    }
}

/// The canonical event protocol, for every pair of transcripts: the
/// stream opens with exactly one `Start`, ends with `Done` or `Error`, and
/// no `Done` or `Error` stands anywhere but at the end.
pub proof fn lemma_stream_protocol(
    created: i64,
    a: Seq<ReasoningOutcome>,
    b: Seq<AnswerOutcome>,
    p: Pricing,
)
    ensures
        ({
            let evs = spec_run_stream(created, a, b, p);
            &&& evs.len() >= 2
            &&& evs[0] is Start
            &&& forall|i: int| 1 <= i < evs.len() ==> !(#[trigger] evs[i] is Start)
            &&& (evs.last() is Done || evs.last() is Error)
            &&& forall|i: int| 0 <= i < evs.len() - 1 ==> !(#[trigger] evs[i] is Done) && !(evs[i]
                is Error)
        }),
{
    let r = spec_run_reasoning(Seq::empty(), None, a);
    lemma_run_reasoning_shape(Seq::empty(), None, a);
    let evs = spec_run_stream(created, a, b, p);
    if r.failed {
        assert(evs.len() == 2 + r.events.len());
        assert forall|i: int| 0 <= i < evs.len() - 1 implies !(#[trigger] evs[i] is Done) && !(
        evs[i] is Error) by {
            if i >= 2 {
                assert(evs[i] == r.events[i - 2]);
            }
        }
    } else {
        let answer = spec_run_answer(r.usage, p, b);
        lemma_run_answer_shape(r.usage, p, b);
        assert(evs.len() == 3 + r.events.len() + answer.len());
        assert(evs =~= spec_opening_events(created) + r.events + seq![spec_closing_event()]
            + answer);
        assert forall|i: int| 0 <= i < evs.len() - 1 implies !(#[trigger] evs[i] is Done) && !(
        evs[i] is Error) by {
            if 2 <= i < 2 + r.events.len() {
                assert(evs[i] == r.events[i - 2]);
            } else if i >= 3 + r.events.len() {
                assert(evs[i] == answer[i - 3 - r.events.len()]);
            }
        }
        assert(evs.last() == answer.last());
    }
}

/// A reasoning outcome that relays one delta: a chunk that neither ends
/// the phase nor is empty.
pub open spec fn spec_is_delta_chunk(it: ReasoningOutcome) -> bool {
    match it {
        ReasoningOutcome::Chunk(c) => !spec_chunk_ends_reasoning(c) && spec_chunk_delta(c).len()
            > 0,
        ReasoningOutcome::Failed(_) => false,
    }
}

/// The one content event a delta chunk relays.
pub open spec fn spec_delta_event(it: ReasoningOutcome) -> StreamEventModel {
    match it {
        ReasoningOutcome::Chunk(c) => StreamEventModel::Content {
            content: seq![BlockModel { content_type: "text_delta"@, text: spec_chunk_delta(c) }],
        },
        ReasoningOutcome::Failed(_) => vstd::pervasive::arbitrary(),
    }
}

/// An answer outcome that relays exactly one content event: an initial
/// message with content, or a delta.
pub open spec fn spec_is_answer_content(it: AnswerOutcome) -> bool {
    match it {
        AnswerOutcome::Event(e) => match e {
            gemini::StreamEvent::MessageStart { message } => message.content@.len() > 0,
            gemini::StreamEvent::ContentBlockDelta { delta: _ } => true,
            gemini::StreamEvent::MessageDelta { usage: _ } => false,
            gemini::StreamEvent::Other => false,
        },
        AnswerOutcome::Failed(_) => false,
    }
}

/// The one content event such an outcome relays.
pub open spec fn spec_answer_content_event(it: AnswerOutcome) -> StreamEventModel {
    match it {
        AnswerOutcome::Event(e) => match e {
            gemini::StreamEvent::MessageStart { message } => StreamEventModel::Content {
                content: message.content.deep_view(),
            },
            gemini::StreamEvent::ContentBlockDelta { delta } => StreamEventModel::Content {
                content: seq![
                    BlockModel { content_type: delta.delta_type@, text: delta.text@ },
                ],
            },
            gemini::StreamEvent::MessageDelta { usage: _ } => vstd::pervasive::arbitrary(),
            gemini::StreamEvent::Other => vstd::pervasive::arbitrary(),
        },
        AnswerOutcome::Failed(_) => vstd::pervasive::arbitrary(),
    }
}

proof fn lemma_run_reasoning_all_deltas(
    acc: Seq<char>,
    usage: Option<deepseek::Usage>,
    a: Seq<ReasoningOutcome>,
)
    requires
        forall|i: int| 0 <= i < a.len() ==> spec_is_delta_chunk(#[trigger] a[i]),
    ensures
        !spec_run_reasoning(acc, usage, a).failed,
        spec_run_reasoning(acc, usage, a).events == Seq::new(
            a.len(),
            |i: int| spec_delta_event(a[i]),
        ),
    decreases a.len(),
{
    if a.len() == 0 {
        assert(spec_run_reasoning(acc, usage, a).events =~= Seq::new(
            a.len(),
            |i: int| spec_delta_event(a[i]),
        ));
    } else {
        assert(spec_is_delta_chunk(a[0]));
        let c = a[0]->Chunk_0;
        assert forall|i: int| 0 <= i < a.drop_first().len() implies spec_is_delta_chunk(
            #[trigger] a.drop_first()[i],
        ) by {
            assert(a.drop_first()[i] == a[i + 1]);
        }
        lemma_run_reasoning_all_deltas(
            spec_chunk_acc(c, acc),
            spec_chunk_usage(c, usage),
            a.drop_first(),
        );
        assert(spec_run_reasoning(acc, usage, a).events =~= Seq::new(
            a.len(),
            |i: int| spec_delta_event(a[i]),
        ));
    }
}

#[verifier::rlimit(100)]
proof fn lemma_run_answer_contents(
    ds: Option<deepseek::Usage>,
    p: Pricing,
    b: Seq<AnswerOutcome>,
    g: crate::gemini::Usage,
)
    requires
        forall|i: int| 0 <= i < b.len() ==> spec_is_answer_content(#[trigger] b[i]),
    ensures
        spec_run_answer(
            ds,
            p,
            b.push(AnswerOutcome::Event(gemini::StreamEvent::MessageDelta { usage: Some(g) })),
        ) == Seq::new(b.len(), |i: int| spec_answer_content_event(b[i])) + seq![
            StreamEventModel::Usage { usage: spec_combined_usage(ds, Some(g), p) },
            StreamEventModel::Done,
        ],
    decreases b.len(),
{
    let tail = AnswerOutcome::Event(gemini::StreamEvent::MessageDelta { usage: Some(g) });
    let items = b.push(tail);
    let closing = seq![
        StreamEventModel::Usage { usage: spec_combined_usage(ds, Some(g), p) },
        StreamEventModel::Done,
    ];
    if b.len() == 0 {
        assert(items[0] == tail);
        assert(items.drop_first() =~= Seq::<AnswerOutcome>::empty());
        assert(spec_run_answer(ds, p, items.drop_first()) == seq![StreamEventModel::Done]);
        assert(spec_run_answer(ds, p, items) =~= Seq::new(
            b.len(),
            |i: int| spec_answer_content_event(b[i]),
        ) + closing);
    } else {
        assert(items[0] == b[0]);
        assert(items.drop_first() =~= b.drop_first().push(tail));
        assert forall|i: int| 0 <= i < b.drop_first().len() implies spec_is_answer_content(
            #[trigger] b.drop_first()[i],
        ) by {
            assert(b.drop_first()[i] == b[i + 1]);
        }
        lemma_run_answer_contents(ds, p, b.drop_first(), g);
        let rest_front = Seq::new(
            b.drop_first().len(),
            |i: int| spec_answer_content_event(b.drop_first()[i]),
        );
        assert(spec_run_answer(ds, p, items.drop_first()) == rest_front + closing);
        assert(b[0] is Event);
        let e = b[0]->Event_0;
        let tr = spec_translate_answer_event(e, ds, p);
        match e {
            gemini::StreamEvent::MessageStart { message } => {
                assert(tr =~= seq![spec_answer_content_event(b[0])]);
            },
            gemini::StreamEvent::ContentBlockDelta { delta } => {
                assert(tr =~= seq![spec_answer_content_event(b[0])]);
            },
            gemini::StreamEvent::MessageDelta { usage } => {
                assert(false);
            },
            gemini::StreamEvent::Other => {
                assert(false);
            },
        }
        assert(spec_run_answer(ds, p, items) == tr + (rest_front + closing));
        let front = Seq::new(b.len(), |i: int| spec_answer_content_event(b[i]));
        assert(tr + rest_front =~= front) by {
            assert forall|i: int| 0 <= i < front.len() implies (tr + rest_front)[i] == front[i] by {
                if i > 0 {
                    assert(rest_front[i - 1] == spec_answer_content_event(b.drop_first()[i - 1]));
                    assert(b.drop_first()[i - 1] == b[i]);
                }
            }
        }
        assert(tr + (rest_front + closing) =~= (tr + rest_front) + closing);
        assert(spec_run_answer(ds, p, items) == front + closing);
    }
}

/// The happy streaming path. When every reasoning outcome is a delta chunk
/// and the answer stream is content events closed by one usage-bearing
/// finish event, the canonical stream is exactly: `Start`, the thinking
/// opener, the reasoning deltas in order, the thinking closer, the answer
/// content in order, the one `Usage` figure, and `Done` — the usage event
/// appears exactly once, immediately before `Done`, after all content.
pub proof fn lemma_happy_stream_is_canonical(
    created: i64,
    a: Seq<ReasoningOutcome>,
    b: Seq<AnswerOutcome>,
    g: crate::gemini::Usage,
    p: Pricing,
)
    requires
        forall|i: int| 0 <= i < a.len() ==> spec_is_delta_chunk(#[trigger] a[i]),
        forall|i: int| 0 <= i < b.len() ==> spec_is_answer_content(#[trigger] b[i]),
    ensures
        spec_run_stream(
            created,
            a,
            b.push(AnswerOutcome::Event(gemini::StreamEvent::MessageDelta { usage: Some(g) })),
            p,
        ) == spec_opening_events(created) + Seq::new(a.len(), |i: int| spec_delta_event(a[i]))
            + seq![spec_closing_event()] + Seq::new(
            b.len(),
            |i: int| spec_answer_content_event(b[i]),
        ) + seq![
            StreamEventModel::Usage {
                usage: spec_combined_usage(
                    spec_run_reasoning(Seq::empty(), None, a).usage,
                    Some(g),
                    p,
                ),
            },
            StreamEventModel::Done,
        ],
{
    lemma_run_reasoning_all_deltas(Seq::empty(), None, a);
    let r = spec_run_reasoning(Seq::empty(), None, a);
    lemma_run_answer_contents(r.usage, p, b, g);
    assert(spec_run_stream(
        created,
        a,
        b.push(AnswerOutcome::Event(gemini::StreamEvent::MessageDelta { usage: Some(g) })),
        p,
    ) =~= spec_opening_events(created) + Seq::new(a.len(), |i: int| spec_delta_event(a[i]))
        + seq![spec_closing_event()] + Seq::new(b.len(), |i: int| spec_answer_content_event(b[i]))
        + seq![
        StreamEventModel::Usage { usage: spec_combined_usage(r.usage, Some(g), p) },
        StreamEventModel::Done,
    ]);
}

proof fn lemma_run_reasoning_failure(
    acc: Seq<char>,
    usage: Option<deepseek::Usage>,
    a: Seq<ReasoningOutcome>,
    message: String,
    rest: Seq<ReasoningOutcome>,
)
    requires
        forall|i: int| 0 <= i < a.len() ==> spec_is_delta_chunk(#[trigger] a[i]),
    ensures
        spec_run_reasoning(acc, usage, a + seq![ReasoningOutcome::Failed(message)] + rest).failed,
        spec_run_reasoning(acc, usage, a + seq![ReasoningOutcome::Failed(message)] + rest).events
            == Seq::new(a.len(), |i: int| spec_delta_event(a[i])) + seq![
            StreamEventModel::Error { message: message@, code: 500 },
        ],
    decreases a.len(),
{
    let items = a + seq![ReasoningOutcome::Failed(message)] + rest;
    if a.len() == 0 {
        assert(items[0] == ReasoningOutcome::Failed(message));
        assert(spec_run_reasoning(acc, usage, items).events =~= Seq::new(
            a.len(),
            |i: int| spec_delta_event(a[i]),
        ) + seq![StreamEventModel::Error { message: message@, code: 500 }]);
    } else {
        assert(items[0] == a[0]);
        assert(spec_is_delta_chunk(a[0]));
        let c = a[0]->Chunk_0;
        assert(items.drop_first() =~= a.drop_first() + seq![ReasoningOutcome::Failed(message)]
            + rest);
        assert forall|i: int| 0 <= i < a.drop_first().len() implies spec_is_delta_chunk(
            #[trigger] a.drop_first()[i],
        ) by {
            assert(a.drop_first()[i] == a[i + 1]);
        }
        lemma_run_reasoning_failure(
            spec_chunk_acc(c, acc),
            spec_chunk_usage(c, usage),
            a.drop_first(),
            message,
            rest,
        );
        assert(spec_run_reasoning(acc, usage, items).events =~= Seq::new(
            a.len(),
            |i: int| spec_delta_event(a[i]),
        ) + seq![StreamEventModel::Error { message: message@, code: 500 }]);
    }
}

/// An upstream failure in mid-reasoning truncates the stream: after the
/// opening events and the deltas relayed so far there is exactly one
/// terminal `Error` — no thinking closer, no `Done`, and the answer
/// transcript (whatever it would have been) contributes nothing.
pub proof fn lemma_reasoning_failure_truncates(
    created: i64,
    a: Seq<ReasoningOutcome>,
    message: String,
    rest: Seq<ReasoningOutcome>,
    b: Seq<AnswerOutcome>,
    p: Pricing,
)
    requires
        forall|i: int| 0 <= i < a.len() ==> spec_is_delta_chunk(#[trigger] a[i]),
    ensures
        spec_run_stream(created, a + seq![ReasoningOutcome::Failed(message)] + rest, b, p)
            == spec_opening_events(created) + Seq::new(a.len(), |i: int| spec_delta_event(a[i]))
            + seq![StreamEventModel::Error { message: message@, code: 500 }],
{
    lemma_run_reasoning_failure(Seq::empty(), None, a, message, rest);
    assert(spec_run_stream(created, a + seq![ReasoningOutcome::Failed(message)] + rest, b, p)
        =~= spec_opening_events(created) + Seq::new(a.len(), |i: int| spec_delta_event(a[i]))
        + seq![StreamEventModel::Error { message: message@, code: 500 }]);
}

} // verus!
