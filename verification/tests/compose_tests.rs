use deepgemini::compose::{
    build_answer_context, compose_response, extract_reasoning, wrap_thinking,
};
use deepgemini::cost::{DeepSeekPricing, GeminiPricing, Pricing};
use deepgemini::deepseek;
use deepgemini::error::ApiError;
use deepgemini::gemini;
use deepgemini::request::{Message, Role};
use deepgemini::response::{ApiResponse, ContentBlock, GeminiUsage};

fn pricing() -> Pricing {
    Pricing {
        deepseek: DeepSeekPricing {
            input_cache_hit_price: 14,
            input_cache_miss_price: 140,
            output_price: 280,
        },
        gemini: GeminiPricing { input_price: 140, output_price: 560 },
    }
}

fn ds_response(reasoning: Option<&str>) -> deepseek::DeepSeekResponse {
    deepseek::DeepSeekResponse {
        choices: vec![deepseek::Choice {
            message: deepseek::AssistantMessage {
                role: "assistant".to_string(),
                content: "4".to_string(),
                reasoning_content: reasoning.map(|s| s.to_string()),
            },
            finish_reason: Some("stop".to_string()),
        }],
        usage: deepseek::Usage {
            prompt_tokens: 10,
            completion_tokens: 20,
            total_tokens: 30,
            prompt_tokens_details: deepseek::PromptTokensDetails { cached_tokens: 0 },
            completion_tokens_details: deepseek::CompletionTokensDetails { reasoning_tokens: 15 },
        },
    }
}

#[test]
fn wrap_thinking_adds_the_delimiter_marker() {
    assert_eq!(wrap_thinking("2+2 is 4"), "<thinking>\n2+2 is 4\n</thinking>");
    assert_eq!(wrap_thinking(""), "<thinking>\n\n</thinking>");
}

#[test]
fn reasoning_is_extracted_from_the_first_choice() {
    let r = ds_response(Some("2+2 is 4"));
    assert_eq!(extract_reasoning(&r).unwrap(), "2+2 is 4");
}

#[test]
fn missing_reasoning_fails_before_the_answer_provider() {
    let r = ds_response(None);
    assert_eq!(extract_reasoning(&r), Err(ApiError::MissingReasoningContent));
    // the pipeline stops here: build_answer_context yields no conversation
    // for the answer provider, so it receives zero calls
    assert!(build_answer_context(vec![], &r).is_err());
}

#[test]
fn a_reply_without_choices_fails_the_same_way() {
    let r = deepseek::DeepSeekResponse { choices: vec![], usage: ds_response(None).usage };
    assert_eq!(extract_reasoning(&r), Err(ApiError::MissingReasoningContent));
}

#[test]
fn answer_context_extends_the_conversation() {
    let messages = vec![Message { role: Role::User, content: "what is 2+2?".to_string() }];
    let ctx = build_answer_context(messages, &ds_response(Some("2+2 is 4"))).unwrap();
    assert_eq!(ctx.thinking, "<thinking>\n2+2 is 4\n</thinking>");
    assert_eq!(
        ctx.messages,
        vec![
            Message { role: Role::User, content: "what is 2+2?".to_string() },
            Message {
                role: Role::Assistant,
                content: "<thinking>\n2+2 is 4\n</thinking>".to_string(),
            },
        ],
    );
}

#[test]
fn composed_content_is_reasoning_block_then_answer_blocks() {
    let p = pricing();
    let ctx = build_answer_context(vec![], &ds_response(Some("2+2 is 4"))).unwrap();
    let gemini_content = vec![gemini::ContentBlock {
        content_type: "text".to_string(),
        text: "4".to_string(),
    }];
    let r = compose_response(
        1_700_000_000,
        ctx.thinking,
        gemini_content,
        ds_response(Some("2+2 is 4")).usage,
        None,
        false,
        None,
        None,
        &p,
    );
    assert_eq!(
        r.content,
        vec![
            ContentBlock {
                content_type: "text".to_string(),
                text: "<thinking>\n2+2 is 4\n</thinking>".to_string(),
            },
            ContentBlock { content_type: "text".to_string(), text: "4".to_string() },
        ],
    );
    assert_eq!(r.created, 1_700_000_000);
    assert_eq!(r.deepseek_response, None);
    assert_eq!(r.gemini_response, None);
    // answer-side usage was absent, so it reads as all zero
    assert_eq!(r.combined_usage.gemini_usage.input_tokens, 0);
    assert_eq!(r.combined_usage.gemini_usage.total_cost, "$0.000");
    assert_eq!(r.combined_usage.deepseek_usage.input_tokens, 10);
    assert_eq!(r.combined_usage.deepseek_usage.output_tokens, 20);
}

#[test]
fn content_block_constructors() {
    let b = ContentBlock::text("hello".to_string());
    assert_eq!(b, ContentBlock { content_type: "text".to_string(), text: "hello".to_string() });
    let g = gemini::ContentBlock { content_type: "text_delta".to_string(), text: "x".to_string() };
    let b = ContentBlock::from_gemini(g);
    assert_eq!(b, ContentBlock { content_type: "text_delta".to_string(), text: "x".to_string() });
}

#[test]
fn gemini_usage_from_response() {
    let with_usage = gemini::GeminiResponse {
        choices: vec![],
        usage: Some(gemini::Usage {
            prompt_tokens: 7,
            completion_tokens: 8,
            total_tokens: 15,
            prompt_tokens_details: None,
            completion_tokens_details: None,
        }),
    };
    let u = GeminiUsage::from_gemini(&with_usage);
    assert_eq!(u.input_tokens, 7);
    assert_eq!(u.output_tokens, 8);
    assert_eq!(u.total_tokens, 15);
    assert_eq!(u.total_cost, "$0.000");
    let without = gemini::GeminiResponse { choices: vec![], usage: None };
    let u = GeminiUsage::from_gemini(&without);
    assert_eq!(u.input_tokens, 0);
    assert_eq!(u.total_tokens, 0);
}

#[test]
fn bare_response_has_one_text_block_and_zero_usage() {
    let r = ApiResponse::new("service is warming up".to_string());
    assert_eq!(r.content.len(), 1);
    assert_eq!(r.content[0].content_type, "text");
    assert_eq!(r.content[0].text, "service is warming up");
    assert_eq!(r.deepseek_response, None);
    assert_eq!(r.gemini_response, None);
    assert_eq!(r.combined_usage.total_cost, "$0.000");
    assert_eq!(r.combined_usage.deepseek_usage.total_tokens, 0);
}
