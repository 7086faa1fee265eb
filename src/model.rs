//! The shared generation model: tokens, generations, errors and retry policies.

use vstd::prelude::*;

verus! {

/// A single-precision sampling value or log-probability, carried as its
/// IEEE-754 bit pattern. The library never computes with it: it only passes
/// it from the caller or the vendor through to the result.
#[derive(Clone, Copy, Debug, PartialEq, Eq, Structural)]
pub struct FloatBits {
    pub bits: u32,
}

/// The bit pattern of `0.0`.
pub const ZERO_BITS: u32 = 0x0000_0000;

/// The bit pattern of `1.0`.
pub const ONE_BITS: u32 = 0x3f80_0000;

impl FloatBits {
    pub fn from_bits(bits: u32) -> (r: FloatBits)
        ensures
            r.bits == bits,
    {
        FloatBits { bits }
    }

    pub fn zero() -> (r: FloatBits)
        ensures
            r.bits == ZERO_BITS,
    {
        FloatBits { bits: ZERO_BITS }
    }

    pub fn one() -> (r: FloatBits)
        ensures
            r.bits == ONE_BITS,
    {
        FloatBits { bits: ONE_BITS }
    }
}

/// How a caller should retry a failed call: wait `sleep_ms` first, multiply
/// the wait by `factor` after each attempt, and give up after `retries`
/// attempts. The library only describes the policy; it never sleeps.
#[derive(Clone, Copy, Debug, PartialEq, Eq, Structural)]
pub struct RetryPolicy {
    pub sleep_ms: u64,
    pub factor: u32,
    pub retries: u32,
}

/// An error reported by the vendor: a message and, for a transient failure,
/// the policy under which the call may be retried.
#[derive(Clone, Debug)]
pub struct ModelError {
    pub message: String,
    pub retryable: Option<RetryPolicy>,
}

pub ghost struct ModelErrorView {
    pub message: Seq<char>,
    pub retryable: Option<RetryPolicy>,
}

impl View for ModelError {
    type V = ModelErrorView;

    open spec fn view(&self) -> ModelErrorView {
        ModelErrorView { message: self.message@, retryable: self.retryable }
    }
}

/// Why a provider call failed.
#[derive(Clone, Debug)]
pub enum ProviderError {
    /// The secret is neither in the credentials nor in the environment.
    Configuration(String),
    /// The request could not be formed or sent.
    Transport(String),
    /// The response body does not have the expected shape.
    Decode(String),
    /// The vendor answered with an error status.
    Vendor(ModelError),
    /// The vendor broke its documented contract (no completion returned).
    ContractViolation(String),
}

pub ghost enum ProviderErrorView {
    Configuration(Seq<char>),
    Transport(Seq<char>),
    Decode(Seq<char>),
    Vendor(ModelErrorView),
    ContractViolation(Seq<char>),
}

impl View for ProviderError {
    type V = ProviderErrorView;

    open spec fn view(&self) -> ProviderErrorView {
        match self {
            ProviderError::Configuration(m) => ProviderErrorView::Configuration(m@),
            ProviderError::Transport(m) => ProviderErrorView::Transport(m@),
            ProviderError::Decode(m) => ProviderErrorView::Decode(m@),
            ProviderError::Vendor(e) => ProviderErrorView::Vendor(e@),
            ProviderError::ContractViolation(m) => ProviderErrorView::ContractViolation(m@),
        }
    }
}

impl ProviderError {
    /// The retry policy attached to the error, if the failure is transient.
    pub fn retry_policy(&self) -> (r: Option<RetryPolicy>)
        ensures
            r == (match self@ {
                ProviderErrorView::Vendor(e) => e.retryable,
                _ => None,
            }),
    {
        match self {
            ProviderError::Vendor(e) => e.retryable,
            _ => None,
        }
    }

    /// The human-readable message of the error.
    pub fn message(&self) -> (r: String)
        ensures
            r@ == error_message(self@),
    {
        match self {
            ProviderError::Configuration(m) => m.clone(),
            ProviderError::Transport(m) => m.clone(),
            ProviderError::Decode(m) => m.clone(),
            ProviderError::Vendor(e) => e.message.clone(),
            ProviderError::ContractViolation(m) => m.clone(),
        }
    }
}

pub open spec fn error_message(e: ProviderErrorView) -> Seq<char> {
    match e {
        ProviderErrorView::Configuration(m) => m,
        ProviderErrorView::Transport(m) => m,
        ProviderErrorView::Decode(m) => m,
        ProviderErrorView::Vendor(v) => v.message,
        ProviderErrorView::ContractViolation(m) => m,
    }
}

/// One alternative token at a position, with its log-probability.
#[derive(Clone, Debug)]
pub struct TokenAlternative {
    pub token: String,
    pub logprob: FloatBits,
}

pub open spec fn alternative_view(a: TokenAlternative) -> (Seq<char>, FloatBits) {
    (a.token@, a.logprob)
}

/// A text together with its breakdown into tokens and their log-probabilities.
/// When both sequences are present they are parallel: one entry per token.
#[derive(Clone, Debug)]
pub struct Tokens {
    pub text: String,
    pub tokens: Option<Vec<String>>,
    pub logprobs: Option<Vec<Option<FloatBits>>>,
    pub top_logprobs: Option<Vec<Vec<TokenAlternative>>>,
}

pub ghost struct TokensView {
    pub text: Seq<char>,
    pub tokens: Option<Seq<Seq<char>>>,
    pub logprobs: Option<Seq<Option<FloatBits>>>,
    pub top_logprobs: Option<Seq<Seq<(Seq<char>, FloatBits)>>>,
}

impl View for Tokens {
    type V = TokensView;

    open spec fn view(&self) -> TokensView {
        TokensView {
            text: self.text@,
            tokens: match self.tokens {
                Some(v) => Some(v@.map_values(|s: String| s@)),
                None => None,
            },
            logprobs: match self.logprobs {
                Some(v) => Some(v@),
                None => None,
            },
            top_logprobs: match self.top_logprobs {
                Some(v) => Some(
                    v@.map_values(
                        |row: Vec<TokenAlternative>| row@.map_values(|a: TokenAlternative| alternative_view(a)),
                    ),
                ),
                None => None,
            },
        }
    }
}

/// The result of one generation call, in the shape shared by all providers.
#[derive(Clone, Debug)]
pub struct LLMGeneration {
    /// When the generation was made, in milliseconds since the Unix epoch.
    pub created: u64,
    pub provider: String,
    pub model: String,
    pub completions: Vec<Tokens>,
    pub prompt: Tokens,
}

pub ghost struct GenerationView {
    pub created: u64,
    pub provider: Seq<char>,
    pub model: Seq<char>,
    pub completions: Seq<TokensView>,
    pub prompt: TokensView,
}

impl View for LLMGeneration {
    type V = GenerationView;

    open spec fn view(&self) -> GenerationView {
        GenerationView {
            created: self.created,
            provider: self.provider@,
            model: self.model@,
            completions: self.completions@.map_values(|t: Tokens| t@),
            prompt: self.prompt@,
        }
    }
}

/// The providers that the library knows.
#[derive(Clone, Copy, Debug, PartialEq, Eq, Structural)]
pub enum ProviderID {
    Ai21,
}

pub open spec fn provider_name(p: ProviderID) -> Seq<char> {
    match p {
        ProviderID::Ai21 => seq!['a', 'i', '2', '1'],
    }
}

impl ProviderID {
    /// The stable name of the provider.
    pub fn as_string(&self) -> (r: String)
        ensures
            r@ == provider_name(*self),
    {
        match self {
            ProviderID::Ai21 => {
                let r = String::from_str("ai21");
                proof {
                    reveal_strlit("ai21");
                }
                r
            },
        }
    }
}

} // verus!
