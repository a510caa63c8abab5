//! The canonical response model: content blocks, per-provider usage records,
//! the combined usage figure, the response envelope, and the canonical
//! stream-event vocabulary.

use vstd::prelude::*;
use crate::cost::{
    calculate_deepseek_cost, calculate_gemini_cost, format_cost, spec_deepseek_cost,
    spec_format_cost, spec_gemini_cost, DeepSeekPricing, GeminiPricing, Pricing,
};

verus! {

/// The mathematical value of a content block.
#[verifier::ext_equal]
pub struct BlockModel {
    pub content_type: Seq<char>,
    pub text: Seq<char>,
}

/// The canonical unit of assistant output.
#[derive(Debug, PartialEq)]
pub struct ContentBlock {
    pub content_type: String,
    pub text: String,
}

impl View for ContentBlock {
    type V = BlockModel;

    open spec fn view(&self) -> BlockModel {
        BlockModel { content_type: self.content_type@, text: self.text@ }
    }
}

impl DeepView for ContentBlock {
    type V = BlockModel;

    open spec fn deep_view(&self) -> BlockModel {
        self.view()
    }
}

impl ContentBlock {
    /// Creates a plain text content block.
    pub fn text(text: String) -> (r: ContentBlock)
        ensures
            r@.content_type == "text"@,
            r@.text == text@,
    {
        ContentBlock { content_type: String::from_str("text"), text }
    }

    /// Converts a provider-native content block, preserving type and text.
    pub fn from_gemini(block: crate::gemini::ContentBlock) -> (r: ContentBlock)
        ensures
            r@ == block@,
    {
        ContentBlock { content_type: block.content_type, text: block.text }
    }
}

/// The raw reply of one upstream call, kept only when the caller asked for a
/// verbose response. The body is the reply's JSON text.
#[derive(Debug, PartialEq)]
pub struct ExternalApiResponse {
    pub status: u16,
    pub headers: Vec<(String, String)>,
    pub body: String,
}

/// The mathematical value of a DeepSeek usage record.
#[verifier::ext_equal]
pub struct DeepSeekUsageModel {
    pub input_tokens: u32,
    pub output_tokens: u32,
    pub reasoning_tokens: u32,
    pub cached_input_tokens: u32,
    pub total_tokens: u32,
    pub total_cost: Seq<char>,
}

/// Usage and cost attributed to the reasoning provider.
#[derive(Debug, PartialEq)]
pub struct DeepSeekUsage {
    pub input_tokens: u32,
    pub output_tokens: u32,
    pub reasoning_tokens: u32,
    pub cached_input_tokens: u32,
    pub total_tokens: u32,
    pub total_cost: String,
}

impl View for DeepSeekUsage {
    type V = DeepSeekUsageModel;

    open spec fn view(&self) -> DeepSeekUsageModel {
        DeepSeekUsageModel {
            input_tokens: self.input_tokens,
            output_tokens: self.output_tokens,
            reasoning_tokens: self.reasoning_tokens,
            cached_input_tokens: self.cached_input_tokens,
            total_tokens: self.total_tokens,
            total_cost: self.total_cost@,
        }
    }
}

impl DeepView for DeepSeekUsage {
    type V = DeepSeekUsageModel;

    open spec fn deep_view(&self) -> DeepSeekUsageModel {
        self.view()
    }
}

/// The mathematical value of a Gemini usage record.
#[verifier::ext_equal]
pub struct GeminiUsageModel {
    pub input_tokens: u32,
    pub output_tokens: u32,
    pub total_tokens: u32,
    pub total_cost: Seq<char>,
}

/// Usage and cost attributed to the answer provider.
#[derive(Debug, PartialEq)]
pub struct GeminiUsage {
    pub input_tokens: u32,
    pub output_tokens: u32,
    pub total_tokens: u32,
    pub total_cost: String,
}

impl View for GeminiUsage {
    type V = GeminiUsageModel;

    open spec fn view(&self) -> GeminiUsageModel {
        GeminiUsageModel {
            input_tokens: self.input_tokens,
            output_tokens: self.output_tokens,
            total_tokens: self.total_tokens,
            total_cost: self.total_cost@,
        }
    }
}

impl DeepView for GeminiUsage {
    type V = GeminiUsageModel;

    open spec fn deep_view(&self) -> GeminiUsageModel {
        self.view()
    }
}

/// The mathematical value of the combined usage figure.
#[verifier::ext_equal]
pub struct CombinedUsageModel {
    pub total_cost: Seq<char>,
    pub deepseek_usage: DeepSeekUsageModel,
    pub gemini_usage: GeminiUsageModel,
}

/// Both providers' usage and the one combined cost.
#[derive(Debug, PartialEq)]
pub struct CombinedUsage {
    pub total_cost: String,
    pub deepseek_usage: DeepSeekUsage,
    pub gemini_usage: GeminiUsage,
}

impl View for CombinedUsage {
    type V = CombinedUsageModel;

    open spec fn view(&self) -> CombinedUsageModel {
        CombinedUsageModel {
            total_cost: self.total_cost@,
            deepseek_usage: self.deepseek_usage@,
            gemini_usage: self.gemini_usage@,
        }
    }
}

impl DeepView for CombinedUsage {
    type V = CombinedUsageModel;

    open spec fn deep_view(&self) -> CombinedUsageModel {
        self.view()
    }
}

/// The cost in nanodollars of a DeepSeek usage report.
pub open spec fn spec_deepseek_usage_cost(u: crate::deepseek::Usage, p: DeepSeekPricing) -> nat {
    spec_deepseek_cost(
        u.prompt_tokens as nat,
        u.completion_tokens as nat,
        u.prompt_tokens_details.cached_tokens as nat,
        p,
    )
}

/// The cost in nanodollars of a Gemini usage report.
pub open spec fn spec_gemini_usage_cost(u: crate::gemini::Usage, p: GeminiPricing) -> nat {
    spec_gemini_cost(u.prompt_tokens as nat, u.completion_tokens as nat, p)
}

/// An absent usage report costs nothing.
pub open spec fn spec_opt_deepseek_cost(u: Option<crate::deepseek::Usage>, p: DeepSeekPricing) -> nat {
    match u {
        Some(u) => spec_deepseek_usage_cost(u, p),
        None => 0,
    }
}

/// An absent usage report costs nothing.
pub open spec fn spec_opt_gemini_cost(u: Option<crate::gemini::Usage>, p: GeminiPricing) -> nat {
    match u {
        Some(u) => spec_gemini_usage_cost(u, p),
        None => 0,
    }
}

/// The combined figure built from both providers' reports: each provider's
/// fields are its reported counts, or all zero where the report is absent,
/// and every cost string is the exact rendering of the corresponding
/// nanodollar amount. The total renders the sum of the two costs, not the
/// sum of the two already-rounded strings.
pub open spec fn spec_combined_usage(
    ds: Option<crate::deepseek::Usage>,
    g: Option<crate::gemini::Usage>,
    p: Pricing,
) -> CombinedUsageModel {
    let ds_cost = spec_opt_deepseek_cost(ds, p.deepseek);
    let g_cost = spec_opt_gemini_cost(g, p.gemini);
    CombinedUsageModel {
        total_cost: spec_format_cost((ds_cost + g_cost) as nat),
        deepseek_usage: DeepSeekUsageModel {
            input_tokens: match ds { Some(u) => u.prompt_tokens, None => 0 },
            output_tokens: match ds { Some(u) => u.completion_tokens, None => 0 },
            reasoning_tokens: match ds {
                Some(u) => u.completion_tokens_details.reasoning_tokens,
                None => 0,
            },
            cached_input_tokens: match ds {
                Some(u) => u.prompt_tokens_details.cached_tokens,
                None => 0,
            },
            total_tokens: match ds { Some(u) => u.total_tokens, None => 0 },
            total_cost: spec_format_cost(ds_cost),
        },
        gemini_usage: GeminiUsageModel {
            input_tokens: match g { Some(u) => u.prompt_tokens, None => 0 },
            output_tokens: match g { Some(u) => u.completion_tokens, None => 0 },
            total_tokens: match g { Some(u) => u.total_tokens, None => 0 },
            total_cost: spec_format_cost(g_cost),
        },
    }
}

/// The combined total is the rendering of the exact sum of the two provider
/// costs, for every pair of reports and every pricing table.
pub proof fn lemma_combined_total_is_sum_rendering(
    ds: Option<crate::deepseek::Usage>,
    g: Option<crate::gemini::Usage>,
    p: Pricing,
)
    ensures
        spec_combined_usage(ds, g, p).total_cost == spec_format_cost(
            (spec_opt_deepseek_cost(ds, p.deepseek) + spec_opt_gemini_cost(g, p.gemini)) as nat,
        ),
{
}

/// Builds the combined usage figure from both providers' reports.
pub fn build_combined_usage(
    ds: Option<crate::deepseek::Usage>,
    g: Option<crate::gemini::Usage>,
    pricing: &Pricing,
) -> (c: CombinedUsage)
    ensures
        c@ == spec_combined_usage(ds, g, *pricing),
{
    let ds_cost: u128 = match &ds {
        Some(u) => calculate_deepseek_cost(
            u.prompt_tokens,
            u.completion_tokens,
            u.completion_tokens_details.reasoning_tokens,
            u.prompt_tokens_details.cached_tokens,
            &pricing.deepseek,
        ),
        None => 0,
    };
    let g_cost: u128 = match &g {
        Some(u) => calculate_gemini_cost(u.prompt_tokens, u.completion_tokens, &pricing.gemini),
        None => 0,
    };
    let deepseek_usage = match &ds {
        Some(u) => DeepSeekUsage {
            input_tokens: u.prompt_tokens,
            output_tokens: u.completion_tokens,
            reasoning_tokens: u.completion_tokens_details.reasoning_tokens,
            cached_input_tokens: u.prompt_tokens_details.cached_tokens,
            total_tokens: u.total_tokens,
            total_cost: format_cost(ds_cost),
        },
        None => DeepSeekUsage {
            input_tokens: 0,
            output_tokens: 0,
            reasoning_tokens: 0,
            cached_input_tokens: 0,
            total_tokens: 0,
            total_cost: format_cost(0),
        },
    };
    let gemini_usage = match &g {
        Some(u) => GeminiUsage {
            input_tokens: u.prompt_tokens,
            output_tokens: u.completion_tokens,
            total_tokens: u.total_tokens,
            total_cost: format_cost(g_cost),
        },
        None => GeminiUsage {
            input_tokens: 0,
            output_tokens: 0,
            total_tokens: 0,
            total_cost: format_cost(0),
        },
    };
    CombinedUsage { total_cost: format_cost(ds_cost + g_cost), deepseek_usage, gemini_usage }
}

/// The canonical stream-event vocabulary. Exactly one `Start` opens a
/// stream; `Error` is terminal, with nothing after it, not even `Done`;
/// otherwise `Done` is terminal and unconditional.
#[derive(Debug, PartialEq)]
pub enum StreamEvent {
    Start { created: i64 },
    Content { content: Vec<ContentBlock> },
    Usage { usage: CombinedUsage },
    Done,
    Error { message: String, code: u16 },
}

/// The mathematical value of a canonical stream event.
#[verifier::ext_equal]
pub enum StreamEventModel {
    Start { created: i64 },
    Content { content: Seq<BlockModel> },
    Usage { usage: CombinedUsageModel },
    Done,
    Error { message: Seq<char>, code: u16 },
}

impl View for StreamEvent {
    type V = StreamEventModel;

    open spec fn view(&self) -> StreamEventModel {
        match self {
            StreamEvent::Start { created } => StreamEventModel::Start { created: *created },
            StreamEvent::Content { content } => StreamEventModel::Content {
                content: content.deep_view(),
            },
            StreamEvent::Usage { usage } => StreamEventModel::Usage { usage: usage@ },
            StreamEvent::Done => StreamEventModel::Done,
            StreamEvent::Error { message, code } => StreamEventModel::Error {
                message: message@,
                code: *code,
            },
        }
    }
}

impl DeepView for StreamEvent {
    type V = StreamEventModel;

    open spec fn deep_view(&self) -> StreamEventModel {
        self.view()
    }
}

/// The response of the non-streaming path: the reasoning block first, then
/// the answer provider's blocks in response order, plus the combined usage
/// figure; the raw provider replies are present exactly when the caller
/// asked for a verbose response.
#[derive(Debug, PartialEq)]
pub struct ApiResponse {
    pub created: i64,
    pub content: Vec<ContentBlock>,
    pub deepseek_response: Option<ExternalApiResponse>,
    pub gemini_response: Option<ExternalApiResponse>,
    pub combined_usage: CombinedUsage,
}

/// Relies on `chrono::Utc::now`: the current wall-clock time as a Unix
/// timestamp in seconds; nothing is assumed of the value.
#[verifier::external_body]
pub(crate) fn now_timestamp() -> i64 {
    chrono::Utc::now().timestamp()
}

impl ApiResponse {
    /// Creates a response that carries one plain text block and no usage:
    /// every token count is zero and every cost renders as zero.
    pub fn new(content: String) -> (r: ApiResponse)
        ensures
            r.content.deep_view().len() == 1,
            r.content.deep_view()[0].content_type == "text"@,
            r.content.deep_view()[0].text == content@,
            r.deepseek_response is None,
            r.gemini_response is None,
            r.combined_usage@ == spec_combined_usage(
                None,
                None,
                Pricing {
                    deepseek: DeepSeekPricing {
                        input_cache_hit_price: 0,
                        input_cache_miss_price: 0,
                        output_price: 0,
                    },
                    gemini: GeminiPricing { input_price: 0, output_price: 0 },
                },
            ),
    {
        let zero_pricing = Pricing {
            deepseek: DeepSeekPricing {
                input_cache_hit_price: 0,
                input_cache_miss_price: 0,
                output_price: 0,
            },
            gemini: GeminiPricing { input_price: 0, output_price: 0 },
        };
        let mut blocks: Vec<ContentBlock> = Vec::new();
        blocks.push(ContentBlock::text(content));
        let r = ApiResponse {
            created: now_timestamp(),
            content: blocks,
            deepseek_response: None,
            gemini_response: None,
            combined_usage: build_combined_usage(None, None, &zero_pricing),
        };
        r
    }
}

impl GeminiUsage {
    /// Converts the answer provider's usage report (absent counts read as
    /// zero); the cost of this record alone renders as zero until the
    /// aggregator computes it.
    pub fn from_gemini(response: &crate::gemini::GeminiResponse) -> (r: GeminiUsage)
        ensures
            r@.input_tokens == match response.usage { Some(u) => u.prompt_tokens, None => 0 },
            r@.output_tokens == match response.usage { Some(u) => u.completion_tokens, None => 0 },
            r@.total_tokens == match response.usage { Some(u) => u.total_tokens, None => 0 },
            r@.total_cost == spec_format_cost(0),
    {
        match &response.usage {
            Some(u) => GeminiUsage {
                input_tokens: u.prompt_tokens,
                output_tokens: u.completion_tokens,
                total_tokens: u.total_tokens,
                total_cost: format_cost(0),
            },
            None => GeminiUsage {
                input_tokens: 0,
                output_tokens: 0,
                total_tokens: 0,
                total_cost: format_cost(0),
            },
        }
    }
}

/// A provider whose reported cached, input and output token counts are
/// all zero contributes a cost that renders as `"$0.000"`.
pub proof fn lemma_zero_token_provider_renders_zero(
    ds: crate::deepseek::Usage,
    g: crate::gemini::Usage,
    p: Pricing,
)
    requires
        ds.prompt_tokens == 0,
        ds.completion_tokens == 0,
        ds.prompt_tokens_details.cached_tokens == 0,
        g.prompt_tokens == 0,
        g.completion_tokens == 0,
    ensures
        spec_combined_usage(Some(ds), Some(g), p).deepseek_usage.total_cost == "$0.000"@,
        spec_combined_usage(Some(ds), Some(g), p).gemini_usage.total_cost == "$0.000"@,
        spec_combined_usage(Some(ds), Some(g), p).total_cost == "$0.000"@,
{
    crate::cost::lemma_zero_usage_costs_nothing(p);
}

} // verus!
