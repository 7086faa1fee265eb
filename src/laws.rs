//! Properties that relate the request, classification and normalization
//! steps of a call.

use vstd::prelude::*;
use crate::ai21::{
    ResponseView, api_error_prefix, classify_spec, generation_model, normalize_spec, outcome_spec,
    payload_spec, rate_limit_detail, rate_limit_policy, STATUS_OK, STATUS_TOO_MANY_REQUESTS,
    contract_violation_message, DEFAULT_MAX_TOKENS,
};
use crate::credentials::{resolve_spec, secret_of};
use crate::model::{FloatBits, ModelErrorView, ProviderErrorView, ONE_BITS, ZERO_BITS};

verus! {

/// A response with at least one completion normalizes to a generation with at
/// least one completion, in which every text (completions and prompt) has as
/// many log-probabilities as tokens.
pub proof fn lemma_normalized_nonempty_parallel(r: ResponseView, model: Seq<char>, created: u64)
    requires
        r.completions.len() > 0,
    ensures
        normalize_spec(r, model, created) is Ok,
        ({
            let g = normalize_spec(r, model, created)->Ok_0;
            &&& g == generation_model(r, model, created)
            &&& g.completions.len() == r.completions.len()
            &&& g.completions.len() > 0
            &&& forall|i: int|
                0 <= i < g.completions.len() ==> {
                    &&& (#[trigger] g.completions[i]).tokens is Some
                    &&& g.completions[i].logprobs is Some
                    &&& g.completions[i].tokens->Some_0.len()
                        == g.completions[i].logprobs->Some_0.len()
                    &&& g.completions[i].tokens->Some_0.len() == r.completions[i].tokens.len()
                }
            &&& g.prompt.tokens->Some_0.len() == g.prompt.logprobs->Some_0.len()
        }),
{
}

/// A successful answer without completions is a contract violation, never an
/// empty generation.
pub proof fn lemma_zero_completions_rejected(r: ResponseView, model: Seq<char>, created: u64)
    requires
        r.completions.len() == 0,
    ensures
        normalize_spec(r, model, created) == Err::<crate::model::GenerationView, ProviderErrorView>(
            ProviderErrorView::ContractViolation(contract_violation_message()),
        ),
        outcome_spec(model, STATUS_OK, Ok(r), Err(Seq::empty()), created) == normalize_spec(
            r,
            model,
            created,
        ),
{
}

/// A rate-limited answer whose body has no detail is a vendor error saying
/// "Too many requests", to be retried after 2000 ms, doubling the wait, at
/// most 8 times.
pub proof fn lemma_rate_limited_without_detail(
    success: Result<ResponseView, Seq<char>>,
    decode_error: Seq<char>,
)
    ensures
        ({
            let m = api_error_prefix() + rate_limit_detail();
            &&& classify_spec(STATUS_TOO_MANY_REQUESTS, success, Err(decode_error)) == Err::<
                ResponseView,
                ProviderErrorView,
            >(
                ProviderErrorView::Vendor(
                    ModelErrorView { message: m, retryable: Some(rate_limit_policy()) },
                ),
            )
            &&& m.subrange(api_error_prefix().len() as int, m.len() as int) == "Too many requests"@
        }),
        rate_limit_policy().sleep_ms == 2000,
        rate_limit_policy().factor == 2,
        rate_limit_policy().retries == 8,
{
    let m = api_error_prefix() + rate_limit_detail();
    assert(m.subrange(api_error_prefix().len() as int, m.len() as int) =~= rate_limit_detail());
}

/// A rate-limited answer with a detail is a vendor error whose message ends
/// with that detail, with the rate-limit retry policy.
pub proof fn lemma_rate_limited_with_detail(
    success: Result<ResponseView, Seq<char>>,
    detail: Seq<char>,
)
    ensures
        ({
            let m = api_error_prefix() + detail;
            &&& classify_spec(STATUS_TOO_MANY_REQUESTS, success, Ok(detail)) == Err::<
                ResponseView,
                ProviderErrorView,
            >(
                ProviderErrorView::Vendor(
                    ModelErrorView { message: m, retryable: Some(rate_limit_policy()) },
                ),
            )
            &&& m.subrange(api_error_prefix().len() as int, m.len() as int) == detail
        }),
{
    let m = api_error_prefix() + detail;
    assert(m.subrange(api_error_prefix().len() as int, m.len() as int) =~= detail);
}

/// Any other error status with a detail is a vendor error without retry
/// policy: the failure is terminal.
pub proof fn lemma_other_status_terminal(
    status: u16,
    success: Result<ResponseView, Seq<char>>,
    detail: Seq<char>,
)
    requires
        status != STATUS_OK,
        status != STATUS_TOO_MANY_REQUESTS,
    ensures
        classify_spec(status, success, Ok(detail)) == Err::<ResponseView, ProviderErrorView>(
            ProviderErrorView::Vendor(
                ModelErrorView { message: api_error_prefix() + detail, retryable: None },
            ),
        ),
{
}

/// With neither a credential nor an environment variable, no secret is
/// found, so initialization fails.
pub proof fn lemma_missing_secret()
    ensures
        secret_of(resolve_spec(None, None)) is None,
{
}

/// A request that leaves out the token limit, top-p and both penalties asks
/// for 256 tokens, a top-p of 1.0 and penalty scales of 0.0.
pub proof fn lemma_default_parameters(
    prompt: Seq<char>,
    temperature: FloatBits,
    stop: Seq<Seq<char>>,
)
    ensures
        ({
            let p = payload_spec(prompt, None, temperature, stop, None, None, None);
            &&& p.max_tokens == DEFAULT_MAX_TOKENS
            &&& p.max_tokens == 256
            &&& p.top_p.bits == ONE_BITS
            &&& p.frequency_penalty_scale.bits == ZERO_BITS
            &&& p.presence_penalty_scale.bits == ZERO_BITS
            &&& p.num_results == 1
        }),
{
}

/// Two calls with the same model, status, decoded bodies and creation time
/// give the same result: no hidden state enters the outcome.
pub proof fn lemma_outcome_deterministic(
    model1: Seq<char>,
    model2: Seq<char>,
    status: u16,
    success1: Result<ResponseView, Seq<char>>,
    success2: Result<ResponseView, Seq<char>>,
    detail1: Result<Seq<char>, Seq<char>>,
    detail2: Result<Seq<char>, Seq<char>>,
    created: u64,
)
    requires
        model1 == model2,
        success1 == success2,
        detail1 == detail2,
    ensures
        outcome_spec(model1, status, success1, detail1, created) == outcome_spec(
            model2,
            status,
            success2,
            detail2,
            created,
        ),
{
}

} // verus!
