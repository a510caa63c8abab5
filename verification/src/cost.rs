//! Token/cost aggregation.
//!
//! Prices are fixed-point integers in nanodollars per token, so that the
//! combined total can be computed exactly and rendered once, instead of
//! summing two independently rounded figures. Rendering produces a currency
//! string with exactly three decimal digits, rounding half up.

use vstd::prelude::*;
use vstd::arithmetic::mul::lemma_mul_upper_bound;

verus! {

/// Per-token prices for the reasoning provider (DeepSeek), in nanodollars.
pub struct DeepSeekPricing {
    pub input_cache_hit_price: u64,
    pub input_cache_miss_price: u64,
    pub output_price: u64,
}

/// Per-token prices for the answer provider (Gemini), in nanodollars.
pub struct GeminiPricing {
    pub input_price: u64,
    pub output_price: u64,
}

/// The externally supplied pricing table; read-only input to the aggregator.
pub struct Pricing {
    pub deepseek: DeepSeekPricing,
    pub gemini: GeminiPricing,
}

/// Gateway configuration.
pub struct Config {
    pub pricing: Pricing,
}

/// Application state shared across request handlers.
pub struct AppState {
    pub config: Config,
}

/// An upper bound on a single provider's cost in nanodollars: at most three
/// terms, each a token count (`u32`) times a per-token price (`u64`).
pub const PROVIDER_COST_BOUND: u128 = 3u128 * 0xffff_ffffu128 * 0xffff_ffff_ffff_ffffu128;

/// Cost of a DeepSeek call in nanodollars: cached tokens at the cache-hit
/// price, the remaining input tokens at the cache-miss price, and output
/// tokens at the output price. When the reported counts are inconsistent
/// (`input < cached`), the cache-miss term clamps at zero.
pub open spec fn spec_deepseek_cost(input: nat, output: nat, cached: nat, p: DeepSeekPricing) -> nat {
    cached * (p.input_cache_hit_price as nat)
        + (if input >= cached { (input - cached) as nat } else { 0nat }) * (p.input_cache_miss_price as nat)
        + output * (p.output_price as nat)
}

/// Cost of a Gemini call in nanodollars.
pub open spec fn spec_gemini_cost(input: nat, output: nat, p: GeminiPricing) -> nat {
    input * (p.input_price as nat) + output * (p.output_price as nat)
}

proof fn lemma_term_bound(t: nat, p: nat)
    requires
        t <= 0xffff_ffff,
        p <= 0xffff_ffff_ffff_ffff,
    ensures
        t * p <= 0xffff_ffffu128 * 0xffff_ffff_ffff_ffffu128,
{
    lemma_mul_upper_bound(t as int, 0xffff_ffff, p as int, 0xffff_ffff_ffff_ffff);
}

/// The DeepSeek cost is bounded by three maximal token-times-price terms.
pub proof fn lemma_deepseek_cost_bound(input: nat, output: nat, cached: nat, p: DeepSeekPricing)
    requires
        input <= u32::MAX,
        output <= u32::MAX,
        cached <= u32::MAX,
    ensures
        spec_deepseek_cost(input, output, cached, p) <= PROVIDER_COST_BOUND,
{
    lemma_term_bound(cached, p.input_cache_hit_price as nat);
    lemma_term_bound(if input >= cached { (input - cached) as nat } else { 0nat }, p.input_cache_miss_price as nat);
    lemma_term_bound(output, p.output_price as nat);
}

/// The Gemini cost is bounded the same way.
pub proof fn lemma_gemini_cost_bound(input: nat, output: nat, p: GeminiPricing)
    requires
        input <= u32::MAX,
        output <= u32::MAX,
    ensures
        spec_gemini_cost(input, output, p) <= PROVIDER_COST_BOUND,
{
    lemma_term_bound(input, p.input_price as nat);
    lemma_term_bound(output, p.output_price as nat);
}

/// Calculates the cost of DeepSeek API usage in nanodollars.
///
/// The reasoning-token count is reported by the provider but does not enter
/// the price formula; it is kept for interface fidelity.
pub fn calculate_deepseek_cost(
    input_tokens: u32,
    output_tokens: u32,
    _reasoning_tokens: u32,
    cached_tokens: u32,
    pricing: &DeepSeekPricing,
) -> (cost: u128)
    ensures
        cost == spec_deepseek_cost(input_tokens as nat, output_tokens as nat, cached_tokens as nat, *pricing),
        cost <= PROVIDER_COST_BOUND,
{
    proof {
        lemma_deepseek_cost_bound(input_tokens as nat, output_tokens as nat, cached_tokens as nat, *pricing);
        lemma_term_bound(cached_tokens as nat, pricing.input_cache_hit_price as nat);
        lemma_term_bound(
            if input_tokens >= cached_tokens { (input_tokens - cached_tokens) as nat } else { 0nat },
            pricing.input_cache_miss_price as nat,
        );
        lemma_term_bound(output_tokens as nat, pricing.output_price as nat);
    }
    let cache_hit_cost = (cached_tokens as u128) * (pricing.input_cache_hit_price as u128);
    let miss_tokens: u128 = if input_tokens >= cached_tokens {
        (input_tokens - cached_tokens) as u128
    } else {
        0
    };
    let cache_miss_cost = miss_tokens * (pricing.input_cache_miss_price as u128);
    let output_cost = (output_tokens as u128) * (pricing.output_price as u128);
    cache_hit_cost + cache_miss_cost + output_cost
}

/// Calculates the cost of Gemini API usage in nanodollars.
pub fn calculate_gemini_cost(input_tokens: u32, output_tokens: u32, pricing: &GeminiPricing) -> (cost: u128)
    ensures
        cost == spec_gemini_cost(input_tokens as nat, output_tokens as nat, *pricing),
        cost <= PROVIDER_COST_BOUND,
{
    proof {
        lemma_gemini_cost_bound(input_tokens as nat, output_tokens as nat, *pricing);
        lemma_term_bound(input_tokens as nat, pricing.input_price as nat);
        lemma_term_bound(output_tokens as nat, pricing.output_price as nat);
    }
    let input_cost = (input_tokens as u128) * (pricing.input_price as u128);
    let output_cost = (output_tokens as u128) * (pricing.output_price as u128);
    input_cost + output_cost
}

/// The character for one decimal digit.
pub open spec fn spec_digit_char(d: nat) -> char {
    if d == 0 { '0' }
    else if d == 1 { '1' }
    else if d == 2 { '2' }
    else if d == 3 { '3' }
    else if d == 4 { '4' }
    else if d == 5 { '5' }
    else if d == 6 { '6' }
    else if d == 7 { '7' }
    else if d == 8 { '8' }
    else { '9' }
}

/// The decimal digits of `n`, most significant first, no leading zeros
/// (except for `n == 0`, which is the single digit `0`).
pub open spec fn spec_decimal(n: nat) -> Seq<char>
    decreases n,
{
    if n < 10 {
        seq![spec_digit_char(n)]
    } else {
        spec_decimal(n / 10) + seq![spec_digit_char(n % 10)]
    }
}

/// Millidollars nearest to a nanodollar amount, rounding half up.
pub open spec fn spec_nanos_to_millis(nanos: nat) -> nat {
    (nanos + 500_000) / 1_000_000
}

/// The rendering of a nanodollar cost: a dollar sign, the whole dollars, a
/// point, and exactly three decimal digits.
pub open spec fn spec_format_cost(nanos: nat) -> Seq<char> {
    let m = spec_nanos_to_millis(nanos);
    seq!['$'] + spec_decimal(m / 1000) + seq!['.']
        + seq![spec_digit_char((m / 100) % 10), spec_digit_char((m / 10) % 10), spec_digit_char(m % 10)]
}

/// A zero cost renders as `"$0.000"`: three decimal digits, never fewer.
pub proof fn lemma_zero_cost_renders_as_zero()
    ensures
        spec_format_cost(0) == "$0.000"@,
{
    reveal_strlit("$0.000");
    assert(spec_format_cost(0) =~= "$0.000"@);
}

/// A provider whose cached, input and output token counts are all zero
/// contributes a cost of zero, and that cost renders as `"$0.000"`.
pub proof fn lemma_zero_usage_costs_nothing(p: Pricing)
    ensures
        spec_deepseek_cost(0, 0, 0, p.deepseek) == 0,
        spec_gemini_cost(0, 0, p.gemini) == 0,
        spec_format_cost(spec_deepseek_cost(0, 0, 0, p.deepseek) + spec_gemini_cost(0, 0, p.gemini)) == "$0.000"@,
{
    vstd::arithmetic::mul::lemma_mul_basics(p.deepseek.input_cache_hit_price as int);
    vstd::arithmetic::mul::lemma_mul_basics(p.deepseek.input_cache_miss_price as int);
    vstd::arithmetic::mul::lemma_mul_basics(p.deepseek.output_price as int);
    vstd::arithmetic::mul::lemma_mul_basics(p.gemini.input_price as int);
    vstd::arithmetic::mul::lemma_mul_basics(p.gemini.output_price as int);
    lemma_zero_cost_renders_as_zero();
}

fn digit_str(d: u128) -> (s: &'static str)
    requires
        d < 10,
    ensures
        s@ == seq![spec_digit_char(d as nat)],
{
    proof {
        reveal_strlit("0");
        reveal_strlit("1");
        reveal_strlit("2");
        reveal_strlit("3");
        reveal_strlit("4");
        reveal_strlit("5");
        reveal_strlit("6");
        reveal_strlit("7");
        reveal_strlit("8");
        reveal_strlit("9");
    }
    let s = if d == 0 { "0" }
    else if d == 1 { "1" }
    else if d == 2 { "2" }
    else if d == 3 { "3" }
    else if d == 4 { "4" }
    else if d == 5 { "5" }
    else if d == 6 { "6" }
    else if d == 7 { "7" }
    else if d == 8 { "8" }
    else { "9" };
    proof {
        assert(s@ =~= seq![spec_digit_char(d as nat)]);
    }
    s
}

fn push_decimal(n: u128, out: &mut String)
    ensures
        final(out)@ == old(out)@ + spec_decimal(n as nat),
    decreases n,
{
    if n < 10 {
        out.append(digit_str(n));
        proof {
            assert(out@ =~= old(out)@ + spec_decimal(n as nat));
        }
    } else {
        push_decimal(n / 10, out);
        out.append(digit_str(n % 10));
        proof {
            assert(out@ =~= old(out)@ + spec_decimal(n as nat));
        }
    }
}

/// Formats a nanodollar cost as a dollar amount string with exactly three
/// decimal places and a `$` prefix.
pub fn format_cost(nanos: u128) -> (s: String)
    requires
        nanos + 500_000 <= u128::MAX,
    ensures
        s@ == spec_format_cost(nanos as nat),
{
    let m: u128 = (nanos + 500_000) / 1_000_000;
    let mut s = String::from_str("$");
    push_decimal(m / 1000, &mut s);
    s.append(".");
    s.append(digit_str((m / 100) % 10));
    s.append(digit_str((m / 10) % 10));
    s.append(digit_str(m % 10));
    proof {
        reveal_strlit("$");
        reveal_strlit(".");
        assert(s@ =~= spec_format_cost(nanos as nat));
    }
    s
}

} // verus!
