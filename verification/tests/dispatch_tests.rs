use std::cell::{Cell, RefCell};

use doum_cli::client::{LLMClient, LLMRequest};
use doum_cli::config::{load_default_config, Config};
use doum_cli::dispatch::{
    handle_ask, handle_auto, handle_suggest, route_mode, select_mode, AutoOutcome, ResolvedMode,
    UnknownModePolicy,
};
use doum_cli::error::DoumError;
use doum_cli::prompt::{default_templates, PromptBuilder, PromptTemplates};
use doum_cli::system_info::{OsType, ShellType, SystemInfo};

struct ScriptedClient {
    script: RefCell<Vec<String>>,
    calls: Cell<usize>,
}

impl ScriptedClient {
    fn new(script: Vec<&str>) -> ScriptedClient {
        ScriptedClient {
            script: RefCell::new(script.into_iter().map(|s| s.to_string()).collect()),
            calls: Cell::new(0),
        }
    }
}

impl LLMClient for ScriptedClient {
    fn generate(&self, _request: &LLMRequest) -> Result<String, DoumError> {
        self.calls.set(self.calls.get() + 1);
        let mut script = self.script.borrow_mut();
        if script.is_empty() {
            Err(DoumError::Llm("script exhausted".to_string()))
        } else {
            Ok(script.remove(0))
        }
    }
}

fn linux_info() -> SystemInfo {
    SystemInfo {
        os: OsType::Linux,
        shell: ShellType::Bash,
        current_dir: "/home/someone".to_string(),
        username: Some("someone".to_string()),
        hostname: None,
    }
}

fn test_config() -> Config {
    load_default_config().unwrap()
}

#[test]
fn test_route_mode_ask() {
    assert_eq!(route_mode("ask", UnknownModePolicy::Fail).unwrap(), ResolvedMode::Ask);
}

#[test]
fn test_route_mode_suggest_and_execute() {
    assert_eq!(route_mode("suggest", UnknownModePolicy::Fail).unwrap(), ResolvedMode::Suggest);
    assert_eq!(route_mode("execute", UnknownModePolicy::Fail).unwrap(), ResolvedMode::Suggest);
}

#[test]
fn test_route_mode_unknown_falls_back_to_ask() {
    assert_eq!(
        route_mode("banana", UnknownModePolicy::FallbackToAsk).unwrap(),
        ResolvedMode::Ask
    );
}

#[test]
fn test_route_mode_unknown_fails_under_fail_policy() {
    match route_mode("banana", UnknownModePolicy::Fail).unwrap_err() {
        DoumError::Parse(m) => assert_eq!(m, "Unknown mode: banana"),
        _ => panic!("expected a parse error"),
    }
}

#[test]
fn test_mode_selection_round_trip_routes_to_ask() {
    // The model classifies the input as a question; the dispatcher must run
    // the Ask handler and return its answer.
    let client = ScriptedClient::new(vec![
        "{\"mode\":\"ask\",\"reason\":\"question\"}",
        "The answer is 42.",
    ]);
    let outcome = handle_auto(
        "what is the meaning of life?",
        &client,
        &linux_info(),
        &test_config(),
        &default_templates(),
        UnknownModePolicy::Fail,
    )
    .unwrap();
    match outcome {
        AutoOutcome::Ask(answer) => assert_eq!(answer, "The answer is 42."),
        AutoOutcome::Suggest(_) => panic!("routed to the wrong handler"),
    }
    assert_eq!(client.calls.get(), 2);
}

#[test]
fn test_auto_routes_to_suggest() {
    let client = ScriptedClient::new(vec![
        "{\"mode\":\"suggest\",\"reason\":\"wants a command\"}",
        "{\"suggestions\":[{\"cmd\":\"ls\",\"description\":\"list\"}]}",
    ]);
    let outcome = handle_auto(
        "list my files",
        &client,
        &linux_info(),
        &test_config(),
        &default_templates(),
        UnknownModePolicy::Fail,
    )
    .unwrap();
    match outcome {
        AutoOutcome::Suggest(resp) => assert_eq!(resp.suggestions[0].cmd, "ls"),
        AutoOutcome::Ask(_) => panic!("routed to the wrong handler"),
    }
}

#[test]
fn test_auto_surfaces_classification_failure() {
    let client = ScriptedClient::new(vec!["nonsense", "nonsense", "nonsense"]);
    let err = handle_auto(
        "anything",
        &client,
        &linux_info(),
        &test_config(),
        &default_templates(),
        UnknownModePolicy::Fail,
    )
    .unwrap_err();
    assert!(matches!(err, DoumError::Parse(_)));
    // The default budget is three attempts, all consumed.
    assert_eq!(client.calls.get(), 3);
}

#[test]
fn test_select_mode_parses_the_selection() {
    let client = ScriptedClient::new(vec!["{\"mode\":\"ask\",\"reason\":\"it is a question\"}"]);
    let a = select_mode("why?", &client, &linux_info(), &test_config(), &default_templates())
        .0
        .unwrap();
    assert_eq!(a.mode, "ask");
    assert_eq!(a.reason, "it is a question");
}

#[test]
fn test_handle_suggest_accepts_empty_list() {
    let client = ScriptedClient::new(vec!["{\"suggestions\":[]}"]);
    let resp = handle_suggest(
        "do nothing",
        &client,
        &linux_info(),
        &test_config(),
        &default_templates(),
    )
    .0
    .unwrap();
    assert!(resp.suggestions.is_empty());
}

#[test]
fn test_handle_ask_is_a_single_call() {
    let client = ScriptedClient::new(vec!["plain answer"]);
    let answer = handle_ask("question", &client, &linux_info(), &default_templates()).0.unwrap();
    assert_eq!(answer, "plain answer");
    assert_eq!(client.calls.get(), 1);
}

#[test]
fn test_prompt_builder_interpolates_context() {
    let templates = PromptTemplates {
        common: Some("os={{os}} shell={{shell}} dir={{current_dir}} user={{username}} host={{hostname}}".to_string()),
        ask: Some("ask body".to_string()),
        suggest: None,
        mode_select: None,
    };
    let builder = PromptBuilder::new(linux_info(), templates);
    let prompt = builder.build_ask();
    assert_eq!(
        prompt,
        "os=Linux shell=bash dir=/home/someone user=someone host=unknown\n\n---\n\nask body"
    );
}

#[test]
fn test_missing_template_degrades_to_empty_section() {
    // A template that could not be loaded renders as an empty section, not
    // as an abort.
    let templates = PromptTemplates { common: None, ask: None, suggest: None, mode_select: None };
    let builder = PromptBuilder::new(linux_info(), templates);
    assert_eq!(builder.build_ask(), "\n\n---\n\n");
}
