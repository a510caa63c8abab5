use deepgemini::cost::{DeepSeekPricing, GeminiPricing, Pricing};
use deepgemini::deepseek;
use deepgemini::gemini;
use deepgemini::request::{Message, Role};
use deepgemini::response::{ContentBlock, StreamEvent};
use deepgemini::stream::{run_stream_transcript, AnswerOutcome, Orchestrator, ReasoningOutcome};

fn pricing() -> Pricing {
    Pricing {
        deepseek: DeepSeekPricing {
            input_cache_hit_price: 14,
            input_cache_miss_price: 140,
            output_price: 280,
        },
        gemini: GeminiPricing { input_price: 140, output_price: 560 },
    }
}

fn delta_chunk(text: &str) -> deepseek::StreamChunk {
    deepseek::StreamChunk {
        choices: vec![deepseek::StreamChoice {
            delta: deepseek::StreamDelta { reasoning_content: Some(text.to_string()) },
        }],
        usage: None,
    }
}

fn ds_usage(input: u32, output: u32, cached: u32) -> deepseek::Usage {
    deepseek::Usage {
        prompt_tokens: input,
        completion_tokens: output,
        total_tokens: input + output,
        prompt_tokens_details: deepseek::PromptTokensDetails { cached_tokens: cached },
        completion_tokens_details: deepseek::CompletionTokensDetails { reasoning_tokens: 0 },
    }
}

fn g_usage(input: u32, output: u32) -> gemini::Usage {
    gemini::Usage {
        prompt_tokens: input,
        completion_tokens: output,
        total_tokens: input + output,
        prompt_tokens_details: None,
        completion_tokens_details: None,
    }
}

fn content_event(blocks: Vec<(&str, &str)>) -> StreamEvent {
    StreamEvent::Content {
        content: blocks
            .into_iter()
            .map(|(t, x)| ContentBlock { content_type: t.to_string(), text: x.to_string() })
            .collect(),
    }
}

#[test]
fn happy_path_event_order() {
    let p = pricing();
    let messages = vec![Message { role: Role::User, content: "what is 2+2?".to_string() }];
    let mut first = delta_chunk("2+2");
    first.usage = Some(ds_usage(1_000_000, 50_000, 100_000));
    let a_items = vec![
        ReasoningOutcome::Chunk(first),
        ReasoningOutcome::Chunk(delta_chunk(" is 4")),
    ];
    let b_items = vec![
        AnswerOutcome::Event(gemini::StreamEvent::MessageStart {
            message: gemini::StreamMessage {
                content: vec![gemini::ContentBlock {
                    content_type: "text".to_string(),
                    text: "The".to_string(),
                }],
            },
        }),
        AnswerOutcome::Event(gemini::StreamEvent::ContentBlockDelta {
            delta: gemini::Delta { delta_type: "text_delta".to_string(), text: " answer is 4".to_string() },
        }),
        AnswerOutcome::Event(gemini::StreamEvent::MessageDelta {
            usage: Some(g_usage(20_000, 8_000)),
        }),
    ];
    let run = run_stream_transcript(messages, 1_700_000_000, &a_items, &b_items, &p);
    assert_eq!(run.events.len(), 9);
    assert_eq!(run.events[0], StreamEvent::Start { created: 1_700_000_000 });
    assert_eq!(run.events[1], content_event(vec![("text", "<thinking>\n")]));
    assert_eq!(run.events[2], content_event(vec![("text_delta", "2+2")]));
    assert_eq!(run.events[3], content_event(vec![("text_delta", " is 4")]));
    assert_eq!(run.events[4], content_event(vec![("text", "\n</thinking>")]));
    assert_eq!(run.events[5], content_event(vec![("text", "The")]));
    assert_eq!(run.events[6], content_event(vec![("text_delta", " answer is 4")]));
    // the usage event stands exactly once, immediately before Done
    match &run.events[7] {
        StreamEvent::Usage { usage } => {
            // deepseek: 100_000 cached at 14 + 900_000 cache-miss at 140
            // + 50_000 output at 280 = 141_400_000 nanodollars
            assert_eq!(usage.deepseek_usage.input_tokens, 1_000_000);
            assert_eq!(usage.deepseek_usage.cached_input_tokens, 100_000);
            assert_eq!(usage.deepseek_usage.total_cost, "$0.141");
            // gemini: 20_000 input at 140 + 8_000 output at 560 = 7_280_000
            assert_eq!(usage.gemini_usage.input_tokens, 20_000);
            assert_eq!(usage.gemini_usage.output_tokens, 8_000);
            assert_eq!(usage.gemini_usage.total_cost, "$0.007");
            // the total renders the exact sum 148_680_000, i.e. "$0.149",
            // one millidollar more than the two rounded figures add up to
            assert_eq!(usage.total_cost, "$0.149");
        },
        other => panic!("expected a usage event, got {:?}", other),
    }
    assert_eq!(run.events[8], StreamEvent::Done);
    // the answer provider saw the conversation extended by the wrapped trace
    let extended = run.answer_messages.unwrap();
    assert_eq!(
        extended,
        vec![
            Message { role: Role::User, content: "what is 2+2?".to_string() },
            Message {
                role: Role::Assistant,
                content: "<thinking>\n2+2 is 4\n</thinking>".to_string(),
            },
        ],
    );
}

#[test]
fn reasoning_failure_truncates_the_stream() {
    let p = pricing();
    let messages = vec![Message { role: Role::User, content: "hi".to_string() }];
    let a_items = vec![
        ReasoningOutcome::Chunk(delta_chunk("step one")),
        ReasoningOutcome::Failed("connection reset".to_string()),
        ReasoningOutcome::Chunk(delta_chunk("never read")),
    ];
    let b_items = vec![
        AnswerOutcome::Event(gemini::StreamEvent::ContentBlockDelta {
            delta: gemini::Delta { delta_type: "text_delta".to_string(), text: "x".to_string() },
        }),
    ];
    let run = run_stream_transcript(messages, 7, &a_items, &b_items, &p);
    assert_eq!(
        run.events,
        vec![
            StreamEvent::Start { created: 7 },
            content_event(vec![("text", "<thinking>\n")]),
            content_event(vec![("text_delta", "step one")]),
            StreamEvent::Error { message: "connection reset".to_string(), code: 500 },
        ],
    );
    // no thinking closer, no Done, and the answer provider is never consulted
    assert!(run.answer_messages.is_none());
}

#[test]
fn answer_failure_ends_without_done() {
    let p = pricing();
    let a_items = vec![ReasoningOutcome::Chunk(delta_chunk("t"))];
    let b_items = vec![
        AnswerOutcome::Event(gemini::StreamEvent::ContentBlockDelta {
            delta: gemini::Delta { delta_type: "text_delta".to_string(), text: "a".to_string() },
        }),
        AnswerOutcome::Failed("upstream closed".to_string()),
    ];
    let run = run_stream_transcript(vec![], 7, &a_items, &b_items, &p);
    let last = run.events.last().unwrap();
    assert_eq!(last, &StreamEvent::Error { message: "upstream closed".to_string(), code: 500 });
    assert!(!run.events.contains(&StreamEvent::Done));
}

#[test]
fn absent_reasoning_field_ends_the_phase_quietly() {
    let p = pricing();
    let end_chunk = deepseek::StreamChunk {
        choices: vec![deepseek::StreamChoice {
            delta: deepseek::StreamDelta { reasoning_content: None },
        }],
        // a phase-ending chunk is not read, so this report must not count
        usage: Some(ds_usage(999, 999, 999)),
    };
    let a_items = vec![
        ReasoningOutcome::Chunk(delta_chunk("t")),
        ReasoningOutcome::Chunk(end_chunk),
        ReasoningOutcome::Chunk(delta_chunk("unread")),
    ];
    let b_items = vec![
        AnswerOutcome::Event(gemini::StreamEvent::MessageDelta { usage: Some(g_usage(0, 0)) }),
    ];
    let run = run_stream_transcript(vec![], 7, &a_items, &b_items, &p);
    assert_eq!(run.events.len(), 6);
    assert_eq!(run.events[2], content_event(vec![("text_delta", "t")]));
    assert_eq!(run.events[3], content_event(vec![("text", "\n</thinking>")]));
    match &run.events[4] {
        StreamEvent::Usage { usage } => {
            // the phase-ending chunk's usage was never recorded
            assert_eq!(usage.deepseek_usage.input_tokens, 0);
            assert_eq!(usage.deepseek_usage.total_tokens, 0);
        },
        other => panic!("expected a usage event, got {:?}", other),
    }
    assert_eq!(run.events[5], StreamEvent::Done);
}

#[test]
fn empty_delta_emits_nothing_but_the_phase_goes_on() {
    let (mut o, _) = Orchestrator::new(vec![], 7);
    let (events, go_on) = o.on_reasoning_chunk(&delta_chunk(""));
    assert!(events.is_empty());
    assert!(go_on);
    let (events, go_on) = o.on_reasoning_chunk(&delta_chunk("later"));
    assert_eq!(events, vec![content_event(vec![("text_delta", "later")])]);
    assert!(go_on);
}

#[test]
fn chunk_without_choices_still_records_usage() {
    let p = pricing();
    let bare = deepseek::StreamChunk { choices: vec![], usage: Some(ds_usage(5, 6, 1)) };
    let a_items = vec![ReasoningOutcome::Chunk(delta_chunk("t")), ReasoningOutcome::Chunk(bare)];
    let b_items = vec![
        AnswerOutcome::Event(gemini::StreamEvent::MessageDelta { usage: Some(g_usage(0, 0)) }),
    ];
    let run = run_stream_transcript(vec![], 7, &a_items, &b_items, &p);
    match &run.events[4] {
        StreamEvent::Usage { usage } => {
            assert_eq!(usage.deepseek_usage.input_tokens, 5);
            assert_eq!(usage.deepseek_usage.output_tokens, 6);
            assert_eq!(usage.deepseek_usage.cached_input_tokens, 1);
        },
        other => panic!("expected a usage event, got {:?}", other),
    }
}

#[test]
fn later_usage_report_overwrites_earlier() {
    let p = pricing();
    let mut first = delta_chunk("a");
    first.usage = Some(ds_usage(1, 1, 0));
    let mut second = delta_chunk("b");
    second.usage = Some(ds_usage(42, 7, 3));
    let a_items = vec![ReasoningOutcome::Chunk(first), ReasoningOutcome::Chunk(second)];
    let b_items = vec![
        AnswerOutcome::Event(gemini::StreamEvent::MessageDelta { usage: Some(g_usage(0, 0)) }),
    ];
    let run = run_stream_transcript(vec![], 7, &a_items, &b_items, &p);
    match &run.events[5] {
        StreamEvent::Usage { usage } => {
            assert_eq!(usage.deepseek_usage.input_tokens, 42);
            assert_eq!(usage.deepseek_usage.output_tokens, 7);
            assert_eq!(usage.deepseek_usage.cached_input_tokens, 3);
        },
        other => panic!("expected a usage event, got {:?}", other),
    }
}

#[test]
fn empty_initial_answer_content_emits_nothing() {
    let p = pricing();
    let a_items = vec![ReasoningOutcome::Chunk(delta_chunk("t"))];
    let b_items = vec![
        AnswerOutcome::Event(gemini::StreamEvent::MessageStart {
            message: gemini::StreamMessage { content: vec![] },
        }),
        AnswerOutcome::Event(gemini::StreamEvent::Other),
        AnswerOutcome::Event(gemini::StreamEvent::MessageDelta { usage: None }),
    ];
    let run = run_stream_transcript(vec![], 7, &a_items, &b_items, &p);
    // Start, open, delta, close, Done: nothing from the three answer events,
    // and Done still comes although no usage event was ever produced
    assert_eq!(run.events.len(), 5);
    assert_eq!(run.events[4], StreamEvent::Done);
}

#[test]
fn usage_without_recorded_reasoning_report_reads_as_zero() {
    let p = pricing();
    // the reasoning stream ends at once, reporting nothing
    let a_items: Vec<ReasoningOutcome> = vec![];
    let b_items = vec![
        AnswerOutcome::Event(gemini::StreamEvent::MessageDelta {
            usage: Some(g_usage(10_000, 0)),
        }),
    ];
    let run = run_stream_transcript(vec![], 7, &a_items, &b_items, &p);
    match &run.events[3] {
        StreamEvent::Usage { usage } => {
            assert_eq!(usage.deepseek_usage.input_tokens, 0);
            assert_eq!(usage.deepseek_usage.total_cost, "$0.000");
            // 10_000 input tokens at 140 nanodollars = 1_400_000: "$0.001"
            assert_eq!(usage.gemini_usage.total_cost, "$0.001");
            assert_eq!(usage.total_cost, "$0.001");
        },
        other => panic!("expected a usage event, got {:?}", other),
    }
}
