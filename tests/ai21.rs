use ai21_provider::ai21::{
    build_payload, classify, tokens_of, Ai21LLM, Ai21Provider, Completion, CompletionData, Error,
    Response, TokenData, TokenDataItem, API_KEY_NAME, SMOKE_TEST_MODEL,
};
use ai21_provider::credentials::{resolve_secret, SecretSource};
use ai21_provider::model::{FloatBits, ProviderError, ProviderID, RetryPolicy};

fn bits(f: f32) -> FloatBits {
    FloatBits::from_bits(f.to_bits())
}

fn item(token: &str, logprob: Option<f32>) -> TokenData {
    TokenData {
        generated_token: TokenDataItem { token: token.to_string(), logprob: logprob.map(bits) },
        top_tokens: None,
    }
}

fn sample_response(n_completions: usize) -> Response {
    let mut completions = Vec::new();
    for i in 0..n_completions {
        completions.push(Completion {
            data: CompletionData {
                text: format!(" world{}", i),
                tokens: vec![item("▁world", Some(-1.5)), item(&format!("{}", i), None)],
            },
        });
    }
    Response {
        id: "resp-1".to_string(),
        prompt: CompletionData {
            text: "Hello".to_string(),
            tokens: vec![item("▁Hello", Some(-0.25))],
        },
        completions,
    }
}

fn ready_llm() -> Ai21LLM {
    let mut llm = Ai21LLM::new("j1-jumbo".to_string());
    llm.initialize(SecretSource::InCredentials("k-123".to_string())).unwrap();
    llm
}

fn rate_limit() -> RetryPolicy {
    RetryPolicy { sleep_ms: 2000, factor: 2, retries: 8 }
}

#[test]
fn normalize_gives_nonempty_parallel_completions() {
    let llm = ready_llm();
    let r = sample_response(2);
    let g = llm.normalize(&r, 1234).unwrap();
    assert_eq!(g.created, 1234);
    assert_eq!(g.provider, "ai21");
    assert_eq!(g.model, "j1-jumbo");
    assert_eq!(g.completions.len(), 2);
    for (i, c) in g.completions.iter().enumerate() {
        assert_eq!(c.text, format!(" world{}", i));
        let tokens = c.tokens.as_ref().unwrap();
        let logprobs = c.logprobs.as_ref().unwrap();
        assert_eq!(tokens.len(), logprobs.len());
        assert_eq!(tokens, &vec!["▁world".to_string(), format!("{}", i)]);
        assert_eq!(logprobs, &vec![Some(bits(-1.5)), None]);
        assert!(c.top_logprobs.is_none());
    }
    assert_eq!(g.prompt.text, "Hello");
    assert_eq!(g.prompt.tokens, Some(vec!["▁Hello".to_string()]));
    assert_eq!(g.prompt.logprobs, Some(vec![Some(bits(-0.25))]));
}

#[test]
fn tokens_of_empty_text() {
    let t = tokens_of(&CompletionData { text: String::new(), tokens: vec![] });
    assert_eq!(t.text, "");
    assert_eq!(t.tokens, Some(vec![]));
    assert_eq!(t.logprobs, Some(vec![]));
    assert!(t.top_logprobs.is_none());
}

#[test]
fn zero_completions_is_contract_violation() {
    let llm = ready_llm();
    let r = sample_response(0);
    match llm.normalize(&r, 1) {
        Err(ProviderError::ContractViolation(m)) => assert_eq!(m, "Ai21 returned no completion"),
        other => panic!("unexpected {:?}", other),
    }
    match llm.complete(200, Ok(r), Err("no detail".to_string()), 1) {
        Err(ProviderError::ContractViolation(_)) => {}
        other => panic!("unexpected {:?}", other),
    }
}

#[test]
fn rate_limited_unparsable_body() {
    let r = classify(429, Err("expected value".to_string()), Err("expected value".to_string()));
    match r {
        Err(ProviderError::Vendor(e)) => {
            assert!(e.message.contains("Too many requests"));
            assert_eq!(e.message, "Ai21APIError: Too many requests");
            assert_eq!(e.retryable, Some(rate_limit()));
        }
        other => panic!("unexpected {:?}", other),
    }
}

#[test]
fn rate_limited_with_detail() {
    let detail = Ok(Error { detail: "slow down".to_string() });
    let r = classify(429, Err("missing field".to_string()), detail);
    let e = r.unwrap_err();
    assert!(e.message().contains("slow down"));
    assert_eq!(e.message(), "Ai21APIError: slow down");
    assert_eq!(e.retry_policy(), Some(rate_limit()));
}

#[test]
fn other_statuses_are_terminal() {
    for status in [400u16, 401, 500, 503] {
        let detail = Ok(Error { detail: "bad request".to_string() });
        match classify(status, Err("missing field".to_string()), detail) {
            Err(ProviderError::Vendor(e)) => {
                assert_eq!(e.message, "Ai21APIError: bad request");
                assert_eq!(e.retryable, None);
            }
            other => panic!("unexpected {:?}", other),
        }
    }
}

#[test]
fn other_status_without_detail_is_decode_error() {
    match classify(500, Err("a".to_string()), Err("expected value at line 1".to_string())) {
        Err(ProviderError::Decode(m)) => assert_eq!(m, "expected value at line 1"),
        other => panic!("unexpected {:?}", other),
    }
}

#[test]
fn ok_status_with_undecodable_body_is_decode_error() {
    let detail = Ok(Error { detail: "x".to_string() });
    let e = classify(200, Err("missing field `id`".to_string()), detail).unwrap_err();
    match &e {
        ProviderError::Decode(m) => assert_eq!(m, "missing field `id`"),
        other => panic!("unexpected {:?}", other),
    }
    assert_eq!(e.retry_policy(), None);
}

#[test]
fn ok_status_passes_response_through() {
    let r = classify(200, Ok(sample_response(1)), Err("x".to_string())).unwrap();
    assert_eq!(r.id, "resp-1");
    assert_eq!(r.completions.len(), 1);
}

#[test]
fn missing_secret_fails_initialize() {
    let source = resolve_secret(None, None);
    assert!(matches!(source, SecretSource::NotFound));
    let mut llm = Ai21LLM::new("j1-large".to_string());
    match llm.initialize(source) {
        Err(ProviderError::Configuration(m)) => {
            assert_eq!(m, "Credentials or environment variable `AI21_API_KEY` is not set.")
        }
        other => panic!("unexpected {:?}", other),
    }
    assert!(llm.api_key.is_none());
}

#[test]
fn credentials_take_precedence_over_environment() {
    match resolve_secret(Some("from-map".to_string()), Some("from-env".to_string())) {
        SecretSource::InCredentials(k) => assert_eq!(k, "from-map"),
        other => panic!("unexpected {:?}", other),
    }
    let source = resolve_secret(None, Some("from-env".to_string()));
    assert!(matches!(&source, SecretSource::InEnvironment(k) if k == "from-env"));
    let mut llm = Ai21LLM::new("j1-large".to_string());
    llm.initialize(source).unwrap();
    assert_eq!(llm.api_key.as_deref(), Some("from-env"));
    assert_eq!(API_KEY_NAME, "AI21_API_KEY");
}

#[test]
fn default_parameters_are_substituted() {
    let p = build_payload("Hi", None, bits(0.7), &vec![], None, None, None);
    assert_eq!(p.max_tokens, 256);
    assert_eq!(f32::from_bits(p.top_p.bits), 1.0);
    assert_eq!(f32::from_bits(p.frequency_penalty_scale.bits), 0.0);
    assert_eq!(f32::from_bits(p.presence_penalty_scale.bits), 0.0);
    assert_eq!(p.num_results, 1);
    assert_eq!(p.min_tokens, 0);
    assert_eq!(p.top_k_return, 0);
    assert_eq!(f32::from_bits(p.temperature.bits), 0.7);
}

#[test]
fn given_parameters_are_kept() {
    let stop = vec!["\n".to_string(), "END".to_string()];
    let p = build_payload("Hi", Some(12), bits(0.2), &stop, Some(bits(0.5)), Some(bits(0.25)), Some(bits(0.9)));
    assert_eq!(p.prompt, "Hi");
    assert_eq!(p.max_tokens, 12);
    assert_eq!(f32::from_bits(p.top_p.bits), 0.9);
    assert_eq!(f32::from_bits(p.frequency_penalty_scale.bits), 0.5);
    assert_eq!(f32::from_bits(p.presence_penalty_scale.bits), 0.25);
    assert_eq!(p.stop_sequences, stop);
}

#[test]
fn request_is_addressed_and_authorized() {
    let llm = ready_llm();
    let r = llm.build_request("Hello", Some(5), bits(0.7), 3, &vec![], None, None, None, Some(2));
    assert_eq!(r.uri, "https://api.ai21.com/studio/v1/j1-jumbo/complete");
    assert_eq!(r.authorization, "Bearer k-123");
    assert_eq!(r.payload.num_results, 1);
    assert_eq!(r.payload.max_tokens, 5);
}

#[test]
fn endpoint_parses_model_uri() {
    let llm = ready_llm();
    let u = llm.endpoint().unwrap();
    assert_eq!(u.to_string(), "https://api.ai21.com/studio/v1/j1-jumbo/complete");
    assert_eq!(u.host(), Some("api.ai21.com"));
    assert_eq!(u.path(), "/studio/v1/j1-jumbo/complete");
}

#[test]
fn endpoint_rejects_invalid_model_id() {
    let llm = Ai21LLM::new("bad id".to_string());
    match llm.endpoint() {
        Err(ProviderError::Transport(m)) => {
            assert_eq!(m, "invalid URI: https://api.ai21.com/studio/v1/bad id/complete")
        }
        other => panic!("unexpected {:?}", other),
    }
}

#[test]
fn identical_answers_give_identical_generations() {
    let llm = ready_llm();
    let a = llm.complete(200, Ok(sample_response(3)), Err("x".to_string()), 99).unwrap();
    let b = llm.complete(200, Ok(sample_response(3)), Err("x".to_string()), 99).unwrap();
    assert_eq!(format!("{:?}", a), format!("{:?}", b));
    assert_eq!(a.completions.len(), 3);
}

#[test]
fn provider_registry() {
    let p = Ai21Provider::new();
    assert_eq!(p.id(), ProviderID::Ai21);
    assert_eq!(p.id().as_string(), "ai21");
    let llm = p.llm("j1-large".to_string());
    assert_eq!(llm.id(), "j1-large");
    assert!(llm.api_key.is_none());
    assert_eq!(p.smoke_test_llm().id(), SMOKE_TEST_MODEL);
    assert_eq!(SMOKE_TEST_MODEL, "j1-grande");
}

#[test]
fn endpoint_of_smoke_test_model() {
    let llm = Ai21Provider::new().smoke_test_llm();
    let u = llm.endpoint().unwrap();
    assert_eq!(u.to_string(), "https://api.ai21.com/studio/v1/j1-grande/complete");
}
