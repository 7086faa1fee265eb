//! The AI21 adapter: the vendor's wire types, the request it expects, the
//! classification of its answers and their normalization.

use vstd::prelude::*;
use crate::uri::{parse_uri, uri_parses};
use crate::credentials::{SecretSource, SecretSourceView, secret_of};
use crate::model::{
    FloatBits, ONE_BITS, ZERO_BITS, GenerationView, LLMGeneration, ModelError, ModelErrorView, ProviderError,
    ProviderErrorView, ProviderID, RetryPolicy, Tokens, TokensView, provider_name,
};

verus! {

/// A token chosen or proposed by the vendor, with its log-probability
/// (which the vendor may omit).
#[derive(Clone, Debug)]
pub struct TokenDataItem {
    pub token: String,
    pub logprob: Option<FloatBits>,
}

pub ghost struct TokenItemView {
    pub token: Seq<char>,
    pub logprob: Option<FloatBits>,
}

impl View for TokenDataItem {
    type V = TokenItemView;

    open spec fn view(&self) -> TokenItemView {
        TokenItemView { token: self.token@, logprob: self.logprob }
    }
}

/// One position of a text: the token that was generated there and,
/// optionally, the best alternatives.
#[derive(Clone, Debug)]
pub struct TokenData {
    pub generated_token: TokenDataItem,
    pub top_tokens: Option<Vec<TokenDataItem>>,
}

pub ghost struct TokenDataView {
    pub generated_token: TokenItemView,
    pub top_tokens: Option<Seq<TokenItemView>>,
}

impl View for TokenData {
    type V = TokenDataView;

    open spec fn view(&self) -> TokenDataView {
        TokenDataView {
            generated_token: self.generated_token@,
            top_tokens: match self.top_tokens {
                Some(v) => Some(v@.map_values(|i: TokenDataItem| i@)),
                None => None,
            },
        }
    }
}

/// A text as the vendor returns it, with its token breakdown.
#[derive(Clone, Debug)]
pub struct CompletionData {
    pub text: String,
    pub tokens: Vec<TokenData>,
}

pub ghost struct CompletionDataView {
    pub text: Seq<char>,
    pub tokens: Seq<TokenDataView>,
}

impl View for CompletionData {
    type V = CompletionDataView;

    open spec fn view(&self) -> CompletionDataView {
        CompletionDataView { text: self.text@, tokens: self.tokens@.map_values(|t: TokenData| t@) }
    }
}

/// One completion of the prompt.
#[derive(Clone, Debug)]
pub struct Completion {
    pub data: CompletionData,
}

impl View for Completion {
    type V = CompletionDataView;

    open spec fn view(&self) -> CompletionDataView {
        self.data@
    }
}

/// The body of a successful completion call.
#[derive(Clone, Debug)]
pub struct Response {
    pub id: String,
    pub prompt: CompletionData,
    pub completions: Vec<Completion>,
}

pub ghost struct ResponseView {
    pub id: Seq<char>,
    pub prompt: CompletionDataView,
    pub completions: Seq<CompletionDataView>,
}

impl View for Response {
    type V = ResponseView;

    open spec fn view(&self) -> ResponseView {
        ResponseView {
            id: self.id@,
            prompt: self.prompt@,
            completions: self.completions@.map_values(|c: Completion| c@),
        }
    }
}

/// The body of a failed call: `{"detail": ...}`.
#[derive(Clone, Debug)]
pub struct Error {
    pub detail: String,
}

/// The normalized form of a vendor text: the text, the generated token at
/// each position and its log-probability; no alternatives.
pub open spec fn tokens_model(d: CompletionDataView) -> TokensView {
    TokensView {
        text: d.text,
        tokens: Some(d.tokens.map_values(|t: TokenDataView| t.generated_token.token)),
        logprobs: Some(d.tokens.map_values(|t: TokenDataView| t.generated_token.logprob)),
        top_logprobs: None,
    }
}

/// The generation that a successful response normalizes to.
pub open spec fn generation_model(r: ResponseView, model: Seq<char>, created: u64) -> GenerationView {
    GenerationView {
        created,
        provider: provider_name(ProviderID::Ai21),
        model,
        completions: r.completions.map_values(|c: CompletionDataView| tokens_model(c)),
        prompt: tokens_model(r.prompt),
    }
}

/// Normalizes one vendor text into the shared `Tokens` shape.
pub fn tokens_of(d: &CompletionData) -> (t: Tokens)
    ensures
        t@ == tokens_model(d@),
{
    let mut tokens: Vec<String> = Vec::new();
    let mut logprobs: Vec<Option<FloatBits>> = Vec::new();
    let n = d.tokens.len();
    for i in 0..n
        invariant
            n == d.tokens@.len(),
            tokens@.len() == i,
            logprobs@.len() == i,
            forall|j: int| 0 <= j < i ==> #[trigger] tokens@[j]@ == d.tokens@[j].generated_token.token@,
            forall|j: int| 0 <= j < i ==> #[trigger] logprobs@[j] == d.tokens@[j].generated_token.logprob,
    {
        let item = &d.tokens[i].generated_token;
        tokens.push(item.token.clone());
        logprobs.push(item.logprob);
    }
    let t = Tokens {
        text: d.text.clone(),
        tokens: Some(tokens),
        logprobs: Some(logprobs),
        top_logprobs: None,
    };
    proof {
        let m = tokens_model(d@);
        assert(t@.tokens.unwrap() =~= m.tokens.unwrap());
        assert(t@.logprobs.unwrap() =~= m.logprobs.unwrap());
    }
    t
}

/// The name of the credential and of the environment variable that hold the
/// secret.
pub const API_KEY_NAME: &'static str = "AI21_API_KEY";

/// The HTTP status of a successful call.
pub const STATUS_OK: u16 = 200;

/// The HTTP status of a rate-limited call.
pub const STATUS_TOO_MANY_REQUESTS: u16 = 429;

/// The first wait before retrying a rate-limited call, in milliseconds.
pub const RATE_LIMIT_SLEEP_MS: u64 = 2000;

/// The growth of the wait between two retries of a rate-limited call.
pub const RATE_LIMIT_FACTOR: u32 = 2;

/// The most retries of a rate-limited call.
pub const RATE_LIMIT_RETRIES: u32 = 8;

/// The tokens generated unless the caller asks for another number.
pub const DEFAULT_MAX_TOKENS: i32 = 256;

pub open spec fn rate_limit_policy() -> RetryPolicy {
    RetryPolicy {
        sleep_ms: RATE_LIMIT_SLEEP_MS,
        factor: RATE_LIMIT_FACTOR,
        retries: RATE_LIMIT_RETRIES,
    }
}

pub open spec fn api_error_prefix() -> Seq<char> {
    "Ai21APIError: "@
}

pub open spec fn rate_limit_detail() -> Seq<char> {
    "Too many requests"@
}

pub open spec fn missing_key_message() -> Seq<char> {
    "Credentials or environment variable `AI21_API_KEY` is not set."@
}

pub open spec fn contract_violation_message() -> Seq<char> {
    "Ai21 returned no completion"@
}

/// What the vendor's answer is classified as, given its status, the body
/// decoded as a success (or the decoding error) and the body decoded as an
/// error detail (or the decoding error).
pub open spec fn classify_spec(
    status: u16,
    success: Result<ResponseView, Seq<char>>,
    detail: Result<Seq<char>, Seq<char>>,
) -> Result<ResponseView, ProviderErrorView> {
    if status == STATUS_OK {
        match success {
            Ok(r) => Ok(r),
            Err(m) => Err(ProviderErrorView::Decode(m)),
        }
    } else if status == STATUS_TOO_MANY_REQUESTS {
        let d = match detail {
            Ok(d) => d,
            Err(_) => rate_limit_detail(),
        };
        Err(
            ProviderErrorView::Vendor(
                ModelErrorView {
                    message: api_error_prefix() + d,
                    retryable: Some(rate_limit_policy()),
                },
            ),
        )
    } else {
        match detail {
            Ok(d) => Err(
                ProviderErrorView::Vendor(
                    ModelErrorView { message: api_error_prefix() + d, retryable: None },
                ),
            ),
            Err(m) => Err(ProviderErrorView::Decode(m)),
        }
    }
}

/// What a successful response normalizes to: a contract violation when the
/// vendor returned no completion.
pub open spec fn normalize_spec(r: ResponseView, model: Seq<char>, created: u64) -> Result<
    GenerationView,
    ProviderErrorView,
> {
    if r.completions.len() == 0 {
        Err(ProviderErrorView::ContractViolation(contract_violation_message()))
    } else {
        Ok(generation_model(r, model, created))
    }
}

/// The outcome of a call, from the vendor's answer to the normalized result.
pub open spec fn outcome_spec(
    model: Seq<char>,
    status: u16,
    success: Result<ResponseView, Seq<char>>,
    detail: Result<Seq<char>, Seq<char>>,
    created: u64,
) -> Result<GenerationView, ProviderErrorView> {
    match classify_spec(status, success, detail) {
        Ok(r) => normalize_spec(r, model, created),
        Err(e) => Err(e),
    }
}

pub open spec fn success_view(s: Result<Response, String>) -> Result<ResponseView, Seq<char>> {
    match s {
        Ok(r) => Ok(r@),
        Err(m) => Err(m@),
    }
}

pub open spec fn detail_view(d: Result<Error, String>) -> Result<Seq<char>, Seq<char>> {
    match d {
        Ok(e) => Ok(e.detail@),
        Err(m) => Err(m@),
    }
}

pub open spec fn generation_result_view(r: Result<LLMGeneration, ProviderError>) -> Result<
    GenerationView,
    ProviderErrorView,
> {
    match r {
        Ok(g) => Ok(g@),
        Err(e) => Err(e@),
    }
}

pub open spec fn response_result_view(r: Result<Response, ProviderError>) -> Result<
    ResponseView,
    ProviderErrorView,
> {
    match r {
        Ok(g) => Ok(g@),
        Err(e) => Err(e@),
    }
}

fn api_error_message(detail: &str) -> (r: String)
    ensures
        r@ == api_error_prefix() + detail@,
{
    let mut m = String::from_str("Ai21APIError: ");
    m.append(detail);
    m
}

/// Classifies the vendor's answer. `success` is the body decoded as a
/// `Response`, `detail` the body decoded as an `Error`; each holds the
/// decoding error's message where the body does not have that shape.
///
/// A success status needs a decodable `Response`. A rate-limited answer is
/// always a vendor error with the rate-limit retry policy, with a generic
/// detail where the body has none. Any other status is a vendor error without
/// retry policy, or a decoding error where the body has no detail.
pub fn classify(status: u16, success: Result<Response, String>, detail: Result<Error, String>) -> (r:
    Result<Response, ProviderError>)
    ensures
        response_result_view(r) == classify_spec(status, success_view(success), detail_view(detail)),
{
    if status == STATUS_OK {
        match success {
            Ok(resp) => Ok(resp),
            Err(m) => Err(ProviderError::Decode(m)),
        }
    } else if status == STATUS_TOO_MANY_REQUESTS {
        let message = match detail {
            Ok(e) => api_error_message(e.detail.as_str()),
            Err(_) => {
                let d = "Too many requests";
                api_error_message(d)
            },
        };
        Err(
            ProviderError::Vendor(
                ModelError {
                    message,
                    retryable: Some(
                        RetryPolicy {
                            sleep_ms: RATE_LIMIT_SLEEP_MS,
                            factor: RATE_LIMIT_FACTOR,
                            retries: RATE_LIMIT_RETRIES,
                        },
                    ),
                },
            ),
        )
    } else {
        match detail {
            Ok(e) => Err(
                ProviderError::Vendor(
                    ModelError { message: api_error_message(e.detail.as_str()), retryable: None },
                ),
            ),
            Err(m) => Err(ProviderError::Decode(m)),
        }
    }
}

/// A client of one AI21 model. It is ready to generate once it holds the
/// secret.
pub struct Ai21LLM {
    pub id: String,
    pub api_key: Option<String>,
}

impl Ai21LLM {
    /// The endpoint of this model.
    pub fn uri(&self) -> (r: String)
        ensures
            r@ == uri_spec(self.id@),
    {
        let mut u = String::from_str("https://api.ai21.com/studio/v1/");
        u.append(self.id.as_str());
        u.append("/complete");
        u
    }

    /// The endpoint of this model as a URI. Fails with a transport error
    /// exactly when the model identifier makes the endpoint an invalid URI.
    pub fn endpoint(&self) -> (r: Result<hyper::Uri, ProviderError>)
        ensures
            r is Ok <==> uri_parses(uri_spec(self.id@)),
            r is Err ==> r->Err_0@ == ProviderErrorView::Transport(
                invalid_uri_prefix() + uri_spec(self.id@),
            ),
    {
        let text = self.uri();
        match parse_uri(text.as_str()) {
            Ok(u) => Ok(u),
            Err(_) => {
                let mut m = String::from_str("invalid URI: ");
                m.append(text.as_str());
                Err(ProviderError::Transport(m))
            },
        }
    }

    /// The completion call for a generation request, addressed to this model
    /// and authorized with its secret. The result count, the number of
    /// top log-probabilities and any extras are not supported and are ignored.
    pub fn build_request(
        &self,
        prompt: &str,
        max_tokens: Option<i32>,
        temperature: FloatBits,
        n: usize,
        stop: &Vec<String>,
        frequency_penalty: Option<FloatBits>,
        presence_penalty: Option<FloatBits>,
        top_p: Option<FloatBits>,
        top_logprobs: Option<i32>,
    ) -> (r: Ai21Request)
        requires
            self.is_ready(),
        ensures
            r.uri@ == uri_spec(self.id@),
            r.authorization@ == authorization_spec(self.api_key.unwrap()@),
            r.payload@ == payload_spec(
                prompt@,
                max_tokens,
                temperature,
                strings_view(stop@),
                frequency_penalty,
                presence_penalty,
                top_p,
            ),
    {
        let mut authorization = String::from_str("Bearer ");
        match &self.api_key {
            Some(k) => authorization.append(k.as_str()),
            None => {},
        }
        Ai21Request {
            uri: self.uri(),
            authorization,
            payload: build_payload(
                prompt,
                max_tokens,
                temperature,
                stop,
                frequency_penalty,
                presence_penalty,
                top_p,
            ),
        }
    }

    /// A client of the model `id`, not yet initialized.
    pub fn new(id: String) -> (r: Ai21LLM)
        ensures
            r.id@ == id@,
            r.api_key is None,
    {
        Ai21LLM { id, api_key: None }
    }

    /// Whether the client holds its secret.
    pub open spec fn is_ready(&self) -> bool {
        self.api_key is Some
    }

    /// The identifier of the model.
    pub fn id(&self) -> (r: String)
        ensures
            r@ == self.id@,
    {
        self.id.clone()
    }

    /// Takes the secret from its resolved source. Fails with a configuration
    /// error, leaving the client as it was, when no source held it.
    pub fn initialize(&mut self, source: SecretSource) -> (r: Result<(), ProviderError>)
        ensures
            final(self).id == old(self).id,
            r is Ok <==> secret_of(source@) is Some,
            r is Ok ==> final(self).api_key is Some && final(self).api_key.unwrap()@
                == secret_of(source@).unwrap(),
            r is Err ==> r->Err_0@ == ProviderErrorView::Configuration(missing_key_message())
                && final(self).api_key == old(self).api_key,
    {
        match source {
            SecretSource::InCredentials(k) => {
                self.api_key = Some(k);
                Ok(())
            },
            SecretSource::InEnvironment(k) => {
                self.api_key = Some(k);
                Ok(())
            },
            SecretSource::NotFound => Err(
                ProviderError::Configuration(
                    String::from_str(
                        "Credentials or environment variable `AI21_API_KEY` is not set.",
                    ),
                ),
            ),
        }
    }

    /// Normalizes a successful response of this model into a generation made
    /// at `created`. A response without completions breaks the vendor's
    /// contract and is an error.
    pub fn normalize(&self, r: &Response, created: u64) -> (g: Result<LLMGeneration, ProviderError>)
        ensures
            generation_result_view(g) == normalize_spec(r@, self.id@, created),
    {
        if r.completions.len() == 0 {
            return Err(
                ProviderError::ContractViolation(String::from_str("Ai21 returned no completion")),
            );
        }
        let mut completions: Vec<Tokens> = Vec::new();
        let n = r.completions.len();
        for i in 0..n
            invariant
                n == r.completions@.len(),
                completions@.len() == i,
                forall|j: int|
                    0 <= j < i ==> #[trigger] completions@[j]@ == tokens_model(
                        r.completions@[j].data@,
                    ),
        {
            completions.push(tokens_of(&r.completions[i].data));
        }
        let g = LLMGeneration {
            created,
            provider: ProviderID::Ai21.as_string(),
            model: self.id.clone(),
            completions,
            prompt: tokens_of(&r.prompt),
        };
        assert(g@.completions =~= generation_model(r@, self.id@, created).completions);
        Ok(g)
    }

    /// Classifies the vendor's answer (see `classify`) and normalizes a
    /// success into a generation made at `created`.
    pub fn complete(
        &self,
        status: u16,
        success: Result<Response, String>,
        detail: Result<Error, String>,
        created: u64,
    ) -> (g: Result<LLMGeneration, ProviderError>)
        ensures
            generation_result_view(g) == outcome_spec(
                self.id@,
                status,
                success_view(success),
                detail_view(detail),
                created,
            ),
    {
        match classify(status, success, detail) {
            Ok(resp) => self.normalize(&resp, created),
            Err(e) => Err(e),
        }
    }
}

/// The JSON body of a completion call, field for field as the vendor names
/// them (`numResults`, `maxTokens`, `minTokens`, `temperature`, `topP`,
/// `stopSequences`, `topKReturn`, and the penalties as
/// `frequency_penalty.scale` and `presence_penalty.scale`).
#[derive(Clone, Debug)]
pub struct WirePayload {
    pub prompt: String,
    pub num_results: i32,
    pub max_tokens: i32,
    pub min_tokens: i32,
    pub temperature: FloatBits,
    pub top_p: FloatBits,
    pub stop_sequences: Vec<String>,
    pub top_k_return: i32,
    pub frequency_penalty_scale: FloatBits,
    pub presence_penalty_scale: FloatBits,
}

pub ghost struct WirePayloadView {
    pub prompt: Seq<char>,
    pub num_results: i32,
    pub max_tokens: i32,
    pub min_tokens: i32,
    pub temperature: FloatBits,
    pub top_p: FloatBits,
    pub stop_sequences: Seq<Seq<char>>,
    pub top_k_return: i32,
    pub frequency_penalty_scale: FloatBits,
    pub presence_penalty_scale: FloatBits,
}

impl View for WirePayload {
    type V = WirePayloadView;

    open spec fn view(&self) -> WirePayloadView {
        WirePayloadView {
            prompt: self.prompt@,
            num_results: self.num_results,
            max_tokens: self.max_tokens,
            min_tokens: self.min_tokens,
            temperature: self.temperature,
            top_p: self.top_p,
            stop_sequences: strings_view(self.stop_sequences@),
            top_k_return: self.top_k_return,
            frequency_penalty_scale: self.frequency_penalty_scale,
            presence_penalty_scale: self.presence_penalty_scale,
        }
    }
}

pub open spec fn strings_view(v: Seq<String>) -> Seq<Seq<char>> {
    v.map_values(|s: String| s@)
}

/// A completion call, ready to be sent: where, with which authorization
/// header, and with which body.
#[derive(Clone, Debug)]
pub struct Ai21Request {
    pub uri: String,
    pub authorization: String,
    pub payload: WirePayload,
}

pub open spec fn or_default(v: Option<FloatBits>, d: u32) -> FloatBits {
    match v {
        Some(f) => f,
        None => FloatBits { bits: d },
    }
}

/// The body that a generation request translates to. Absent parameters take
/// their defaults: 256 tokens, a top-p of 1.0 and penalties of 0.0. Exactly
/// one result is asked for, at least zero tokens, and no alternatives.
pub open spec fn payload_spec(
    prompt: Seq<char>,
    max_tokens: Option<i32>,
    temperature: FloatBits,
    stop: Seq<Seq<char>>,
    frequency_penalty: Option<FloatBits>,
    presence_penalty: Option<FloatBits>,
    top_p: Option<FloatBits>,
) -> WirePayloadView {
    WirePayloadView {
        prompt,
        num_results: 1,
        max_tokens: match max_tokens {
            Some(m) => m,
            None => DEFAULT_MAX_TOKENS,
        },
        min_tokens: 0,
        temperature,
        top_p: or_default(top_p, ONE_BITS),
        stop_sequences: stop,
        top_k_return: 0,
        frequency_penalty_scale: or_default(frequency_penalty, ZERO_BITS),
        presence_penalty_scale: or_default(presence_penalty, ZERO_BITS),
    }
}

/// The endpoint of the model `id`.
pub open spec fn uri_spec(id: Seq<char>) -> Seq<char> {
    "https://api.ai21.com/studio/v1/"@ + id + "/complete"@
}

pub open spec fn invalid_uri_prefix() -> Seq<char> {
    "invalid URI: "@
}

/// The authorization header that carries the secret `key`.
pub open spec fn authorization_spec(key: Seq<char>) -> Seq<char> {
    "Bearer "@ + key
}

fn clone_strings(v: &Vec<String>) -> (r: Vec<String>)
    ensures
        strings_view(r@) == strings_view(v@),
{
    let mut r: Vec<String> = Vec::new();
    let n = v.len();
    for i in 0..n
        invariant
            n == v@.len(),
            r@.len() == i,
            forall|j: int| 0 <= j < i ==> #[trigger] r@[j]@ == v@[j]@,
    {
        r.push(v[i].clone());
    }
    assert(strings_view(r@) =~= strings_view(v@));
    r
}

fn or_default_exec(v: Option<FloatBits>, d: u32) -> (r: FloatBits)
    ensures
        r == or_default(v, d),
{
    match v {
        Some(f) => f,
        None => FloatBits::from_bits(d),
    }
}

/// Translates a generation request into the vendor's body. The number of
/// results asked for by the caller is not used: one result is requested.
pub fn build_payload(
    prompt: &str,
    max_tokens: Option<i32>,
    temperature: FloatBits,
    stop: &Vec<String>,
    frequency_penalty: Option<FloatBits>,
    presence_penalty: Option<FloatBits>,
    top_p: Option<FloatBits>,
) -> (r: WirePayload)
    ensures
        r@ == payload_spec(
            prompt@,
            max_tokens,
            temperature,
            strings_view(stop@),
            frequency_penalty,
            presence_penalty,
            top_p,
        ),
{
    WirePayload {
        prompt: prompt.to_owned(),
        num_results: 1,
        max_tokens: match max_tokens {
            Some(m) => m,
            None => DEFAULT_MAX_TOKENS,
        },
        min_tokens: 0,
        temperature,
        top_p: or_default_exec(top_p, ONE_BITS),
        stop_sequences: clone_strings(stop),
        top_k_return: 0,
        frequency_penalty_scale: or_default_exec(frequency_penalty, ZERO_BITS),
        presence_penalty_scale: or_default_exec(presence_penalty, ZERO_BITS),
    }
}

/// The model that the provider's smoke test calls.
pub const SMOKE_TEST_MODEL: &'static str = "j1-grande";

/// The registry entry of AI21: its identifier and a factory of clients.
pub struct Ai21Provider {}

impl Ai21Provider {
    pub fn new() -> (r: Ai21Provider)
        ensures
            r == (Ai21Provider {}),
    {
        Ai21Provider {}
    }

    /// The stable identifier of the provider.
    pub fn id(&self) -> (r: ProviderID)
        ensures
            r == ProviderID::Ai21,
    {
        ProviderID::Ai21
    }

    /// A client of the model `id`, to be initialized before use.
    pub fn llm(&self, id: String) -> (r: Ai21LLM)
        ensures
            r.id@ == id@,
            r.api_key is None,
    {
        Ai21LLM::new(id)
    }

    /// A client of the model that the smoke test calls.
    pub fn smoke_test_llm(&self) -> (r: Ai21LLM)
        ensures
            r.id@ == SMOKE_TEST_MODEL@,
            r.api_key is None,
    {
        self.llm(SMOKE_TEST_MODEL.to_owned())
    }
}

} // verus!
