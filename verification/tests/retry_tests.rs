use std::cell::{Cell, RefCell};

use doum_cli::client::{create_client, Client, LLMClient, LLMRequest};
use doum_cli::config::{load_default_config, Config};
use doum_cli::error::DoumError;
use doum_cli::parser::{parse_auto_mode, AutoResponse};
use doum_cli::retry::retry_with_parse;
use doum_cli::secret::{AnthropicSecret, OpenAISecret, SecretPayload};

/// A provider stub that replays a fixed script of outcomes and counts calls.
struct ScriptedClient {
    script: RefCell<Vec<Result<String, String>>>,
    calls: Cell<usize>,
}

impl ScriptedClient {
    fn new(script: Vec<Result<&'static str, &'static str>>) -> ScriptedClient {
        ScriptedClient {
            script: RefCell::new(
                script
                    .into_iter()
                    .map(|r| r.map(|s| s.to_string()).map_err(|e| e.to_string()))
                    .collect(),
            ),
            calls: Cell::new(0),
        }
    }
}

impl LLMClient for ScriptedClient {
    fn generate(&self, _request: &LLMRequest) -> Result<String, DoumError> {
        self.calls.set(self.calls.get() + 1);
        let mut script = self.script.borrow_mut();
        if script.is_empty() {
            return Err(DoumError::Llm("script exhausted".to_string()));
        }
        match script.remove(0) {
            Ok(s) => Ok(s),
            Err(e) => Err(DoumError::Llm(e)),
        }
    }
}

fn sample_request() -> LLMRequest {
    LLMRequest {
        system: "classify".to_string(),
        messages: vec![doum_cli::client::LLMMessage::user("hi")],
    }
}

fn auto_parser(s: String) -> Result<AutoResponse, DoumError> {
    parse_auto_mode(&s)
}

#[test]
fn test_retry_succeeds_on_last_attempt() {
    // Fails exactly n-1 = 2 times, then succeeds: the result is the success.
    let client = ScriptedClient::new(vec![
        Err("connect refused"),
        Err("connect refused"),
        Ok("{\"mode\":\"ask\",\"reason\":\"q\"}"),
    ]);
    let (r, _) = retry_with_parse(&client, &sample_request(), auto_parser, 3);
    let a = r.unwrap();
    assert_eq!(a.mode, "ask");
    assert_eq!(client.calls.get(), 3);
}

#[test]
fn test_retry_exhaustion_returns_final_failure() {
    // Fails all n times: the final failure is surfaced verbatim.
    let client = ScriptedClient::new(vec![
        Err("first failure"),
        Err("second failure"),
        Err("final failure"),
    ]);
    let (r, _) = retry_with_parse(&client, &sample_request(), auto_parser, 3);
    match r.unwrap_err() {
        DoumError::Llm(m) => assert_eq!(m, "final failure"),
        _ => panic!("expected the provider error"),
    }
    assert_eq!(client.calls.get(), 3);
}

#[test]
fn test_parse_failures_consume_the_shared_budget() {
    // Call failures and parse failures draw on one budget.
    let client = ScriptedClient::new(vec![
        Ok("not json at all"),
        Err("connect refused"),
        Ok("{\"mode\":\"suggest\",\"reason\":\"r\"}"),
    ]);
    let (r, _) = retry_with_parse(&client, &sample_request(), auto_parser, 3);
    assert_eq!(r.unwrap().mode, "suggest");
    assert_eq!(client.calls.get(), 3);
}

#[test]
fn test_exhaustion_by_parse_failures_surfaces_parse_error() {
    let client = ScriptedClient::new(vec![Ok("garbage one"), Ok("garbage two")]);
    let (r, _) = retry_with_parse(&client, &sample_request(), auto_parser, 2);
    match r.unwrap_err() {
        DoumError::Parse(m) => {
            assert_eq!(m, "Failed to parse Auto Mode response: garbage two")
        },
        _ => panic!("expected the parse error"),
    }
    assert_eq!(client.calls.get(), 2);
}

#[test]
fn test_single_attempt_budget() {
    let client = ScriptedClient::new(vec![Err("boom"), Ok("{\"mode\":\"ask\",\"reason\":\"q\"}")]);
    let (r, _) = retry_with_parse(&client, &sample_request(), auto_parser, 1);
    assert!(r.is_err());
    assert_eq!(client.calls.get(), 1);
}

#[test]
fn test_unknown_provider_is_config_error_before_any_call() {
    let mut config: Config = load_default_config().unwrap();
    config.llm.provider = "frobnicator".to_string();
    let secret = SecretPayload::OpenAI(OpenAISecret {
        api_key: "sk-test".to_string(),
        organization: None,
        project: None,
    });
    match create_client(&config.llm, &secret).unwrap_err() {
        DoumError::Config(m) => {
            assert_eq!(m, "Unknown provider: frobnicator. Available: openai, anthropic")
        },
        _ => panic!("expected a configuration error"),
    }
}

#[test]
fn test_provider_id_is_case_insensitive() {
    let mut config: Config = load_default_config().unwrap();
    config.llm.provider = "OpenAI".to_string();
    let secret = SecretPayload::OpenAI(OpenAISecret {
        api_key: "sk-test".to_string(),
        organization: None,
        project: None,
    });
    assert!(matches!(create_client(&config.llm, &secret), Ok(Client::OpenAI(_))));
}

#[test]
fn test_missing_api_key_never_reaches_the_network() {
    // The client is only constructed after the key check; with an empty key
    // nothing is ever called, which the call counter shows.
    let config: Config = load_default_config().unwrap();
    let secret = SecretPayload::OpenAI(OpenAISecret {
        api_key: String::new(),
        organization: None,
        project: None,
    });
    let network = ScriptedClient::new(vec![Ok("never used")]);
    let outcome = create_client(&config.llm, &secret);
    if outcome.is_ok() {
        // Only a successful construction may go on to use the network.
        let _ = network.generate(&sample_request());
    }
    match outcome.unwrap_err() {
        DoumError::Config(m) => assert!(m.contains("OpenAI API key is not set")),
        _ => panic!("expected a configuration error"),
    }
    assert_eq!(network.calls.get(), 0);
}

#[test]
fn test_mismatched_secret_is_config_error() {
    let config: Config = load_default_config().unwrap();
    let secret = SecretPayload::Anthropic(AnthropicSecret { api_key: "sk-a".to_string() });
    match create_client(&config.llm, &secret).unwrap_err() {
        DoumError::Config(m) => {
            assert_eq!(m, "Stored secret does not match the configured provider")
        },
        _ => panic!("expected a configuration error"),
    }
}
