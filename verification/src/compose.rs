//! The response composer for the non-streaming path: it extracts the
//! reasoning trace from the first provider's reply, wraps it in the
//! delimiter marker, extends the conversation for the second provider, and
//! merges both replies into one response.

use vstd::prelude::*;
use crate::cost::Pricing;
use crate::deepseek;
use crate::error::ApiError;
use crate::gemini;
use crate::request::{Message, MessageModel, Role};
use crate::response::{
    spec_combined_usage, build_combined_usage, ApiResponse, BlockModel, ContentBlock,
    ExternalApiResponse,
};

verus! {

/// The delimiter marker around a reasoning trace.
pub open spec fn spec_wrap_thinking(reasoning: Seq<char>) -> Seq<char> {
    "<thinking>\n"@ + reasoning + "\n</thinking>"@
}

/// Wraps a reasoning trace in the delimiter marker.
pub fn wrap_thinking(reasoning: &str) -> (s: String)
    ensures
        s@ == spec_wrap_thinking(reasoning@),
{
    let mut s = String::from_str("<thinking>\n");
    s.append(reasoning);
    s.append("\n</thinking>");
    proof {
        assert(s@ =~= spec_wrap_thinking(reasoning@));
    }
    s
}

/// Whether a complete reply carries a reasoning trace in its first choice.
pub open spec fn spec_has_reasoning(r: deepseek::DeepSeekResponse) -> bool {
    r.choices@.len() > 0 && r.choices@[0].message.reasoning_content is Some
}

/// Pulls the reasoning trace out of the reasoning provider's reply. A reply
/// without one fails with `MissingReasoningContent`, and the pipeline stops
/// there: the answer provider is never invoked.
pub fn extract_reasoning(response: &deepseek::DeepSeekResponse) -> (r: Result<String, ApiError>)
    ensures
        r is Ok <==> spec_has_reasoning(*response),
        r is Ok ==> r->Ok_0@ == response.choices@[0].message.reasoning_content->0@,
        r is Err ==> r->Err_0 is MissingReasoningContent,
{
    if response.choices.len() > 0 {
        match &response.choices[0].message.reasoning_content {
            Some(reasoning) => Ok(reasoning.clone()),
            None => Err(ApiError::MissingReasoningContent),
        }
    } else {
        Err(ApiError::MissingReasoningContent)
    }
}

/// Extends the conversation with the wrapped reasoning trace as an
/// assistant message; the extended list is what the answer provider sees.
pub fn prepare_answer_messages(messages: Vec<Message>, thinking: &String) -> (r: Vec<Message>)
    ensures
        r.deep_view() == messages.deep_view() + seq![
            MessageModel { role: Role::Assistant, content: thinking@ },
        ],
{
    let ghost orig = messages.deep_view();
    let mut r = messages;
    r.push(Message { role: Role::Assistant, content: thinking.clone() });
    proof {
        assert(r.deep_view() =~= orig + seq![
            MessageModel { role: Role::Assistant, content: thinking@ },
        ]);
    }
    r
}

/// What `build_answer_context` yields on success: the wrapped reasoning
/// trace and the extended conversation.
pub struct AnswerContext {
    pub thinking: String,
    pub messages: Vec<Message>,
}

/// The step between the two provider calls: takes the reasoning provider's
/// reply, and yields the wrapped trace together with the conversation the
/// answer provider is to see. Fails, without any further provider work,
/// exactly when the reply has no reasoning trace.
pub fn build_answer_context(
    messages: Vec<Message>,
    response: &deepseek::DeepSeekResponse,
) -> (r: Result<AnswerContext, ApiError>)
    ensures
        r is Ok <==> spec_has_reasoning(*response),
        r is Err ==> r->Err_0 is MissingReasoningContent,
        r is Ok ==> r->Ok_0.thinking@ == spec_wrap_thinking(
            response.choices@[0].message.reasoning_content->0@,
        ),
        r is Ok ==> r->Ok_0.messages.deep_view() == messages.deep_view() + seq![
            MessageModel {
                role: Role::Assistant,
                content: spec_wrap_thinking(response.choices@[0].message.reasoning_content->0@),
            },
        ],
{
    let reasoning = match extract_reasoning(response) {
        Ok(reasoning) => reasoning,
        Err(e) => {
            return Err(e);
        },
    };
    let thinking = wrap_thinking(reasoning.as_str());
    let extended = prepare_answer_messages(messages, &thinking);
    Ok(AnswerContext { thinking, messages: extended })
}

/// Merges the two providers' replies into the response envelope: the
/// wrapped reasoning block first, then the answer provider's blocks in
/// response order; the combined usage is computed from both reports (an
/// absent answer-side report reads as all zero); the raw replies are kept
/// exactly when the caller asked for a verbose response.
pub fn compose_response(
    created: i64,
    thinking: String,
    gemini_content: Vec<gemini::ContentBlock>,
    ds_usage: deepseek::Usage,
    g_usage: Option<gemini::Usage>,
    verbose: bool,
    deepseek_raw: Option<ExternalApiResponse>,
    gemini_raw: Option<ExternalApiResponse>,
    pricing: &Pricing,
) -> (r: ApiResponse)
    ensures
        r.created == created,
        r.content.deep_view().len() == 1 + gemini_content.deep_view().len(),
        r.content.deep_view()[0] == (BlockModel { content_type: "text"@, text: thinking@ }),
        forall|i: int| 0 <= i < gemini_content.deep_view().len()
            ==> r.content.deep_view()[i + 1] == gemini_content.deep_view()[i],
        r.combined_usage@ == spec_combined_usage(Some(ds_usage), g_usage, *pricing),
        verbose ==> r.deepseek_response == deepseek_raw,
        verbose ==> r.gemini_response == gemini_raw,
        !verbose ==> r.deepseek_response is None,
        !verbose ==> r.gemini_response is None,
{
    let ghost thinking_view = thinking@;
    let mut content: Vec<ContentBlock> = Vec::new();
    content.push(ContentBlock::text(thinking));
    let mut i: usize = 0;
    while i < gemini_content.len()
        invariant
            i <= gemini_content@.len(),
            content@.len() == i + 1,
            content@[0]@ == (BlockModel { content_type: "text"@, text: thinking_view }),
            forall|j: int| 0 <= j < i ==> #[trigger] content@[j + 1]@ == gemini_content@[j]@,
        decreases gemini_content@.len() - i,
    {
        let block = &gemini_content[i];
        content.push(ContentBlock {
            content_type: block.content_type.clone(),
            text: block.text.clone(),
        });
        i = i + 1;
    }
    let combined_usage = build_combined_usage(Some(ds_usage), g_usage, pricing);
    let (deepseek_response, gemini_response) = if verbose {
        (deepseek_raw, gemini_raw)
    } else {
        (None, None)
    };
    let r = ApiResponse { created, content, deepseek_response, gemini_response, combined_usage };
    proof {
        assert(r.content.deep_view().len() == 1 + gemini_content.deep_view().len());
        assert(forall|j: int| 0 <= j < gemini_content.deep_view().len()
            ==> r.content.deep_view()[j + 1] == gemini_content.deep_view()[j]);
    }
    r
}

} // verus!
