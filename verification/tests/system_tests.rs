use doum_cli::error::DoumError;
use doum_cli::menu::{Menu, MenuAction, MenuItem};
use doum_cli::paths::{get_config_path, get_log_dir};
use doum_cli::secret::{
    get_provider_config, save_secrets, AnthropicSecret, OpenAISecret, ProviderSecret,
    SecretPayload,
};
use doum_cli::provider::Provider;
use doum_cli::system_info::{detect_os, detect_shell, OsType, ShellType, SystemInfo};
use doum_cli::wire::{
    anthropic_request_body, extract_anthropic_text, extract_openai_text, openai_error,
    openai_request_body,
};
use doum_cli::client::{LLMMessage, LLMRequest};

#[test]
fn test_detect_os_names() {
    assert_eq!(detect_os("windows"), OsType::Windows);
    assert_eq!(detect_os("macos"), OsType::MacOS);
    assert_eq!(detect_os("linux"), OsType::Linux);
    assert_eq!(detect_os("freebsd"), OsType::Linux);
}

#[test]
fn test_detect_shell_prefers_parent_process() {
    let sh = detect_shell(&OsType::Linux, Some("ZSH"), None, false, Some("/bin/bash"));
    assert_eq!(sh, ShellType::Zsh);
}

#[test]
fn test_detect_shell_from_environment() {
    let sh = detect_shell(&OsType::Linux, None, None, false, Some("/usr/bin/fish"));
    assert_eq!(sh, ShellType::Fish);
    let sh = detect_shell(&OsType::Windows, None, Some("C:\\Windows\\system32\\cmd.exe"), true, None);
    assert_eq!(sh, ShellType::Cmd);
    let sh = detect_shell(&OsType::Windows, None, None, true, None);
    assert_eq!(sh, ShellType::PowerShell);
    let sh = detect_shell(&OsType::Linux, Some("init"), None, false, None);
    assert_eq!(sh, ShellType::Unknown);
}

#[test]
fn test_system_info_display() {
    let si = SystemInfo {
        os: OsType::Linux,
        shell: ShellType::Bash,
        current_dir: "/tmp/work".to_string(),
        username: None,
        hostname: Some("box".to_string()),
    };
    assert_eq!(
        si.display(),
        "OS: Linux\nShell: bash\nCurrent Dir: /tmp/work\nUsername: (unknown)\nHostname: box"
    );
}

#[test]
fn test_paths_join() {
    assert_eq!(get_config_path("/home/u/.config/doum-cli"), "/home/u/.config/doum-cli/config.toml");
    assert_eq!(get_log_dir("/home/u/.config/doum-cli"), "/home/u/.config/doum-cli/logs");
}

#[test]
fn test_menu_builder_wraps_items() {
    let menu = Menu::builder("Main")
        .with_back()
        .add_item("one", "One", "first")
        .add_item("two", "Two", "second")
        .build();
    assert_eq!(menu.items.len(), 4);
    assert_eq!(menu.items[0].id, "back");
    assert_eq!(menu.items[1].id, "one");
    assert_eq!(menu.items[3].id, "exit");
    assert!(menu.get_item("two").is_some());
    assert!(menu.get_item("three").is_none());
    assert_eq!(menu.get_item_by_index(1).unwrap().id, "one");
    assert!(menu.get_item_by_index(9).is_none());
}

#[test]
fn test_menu_display_label_pads_to_column() {
    let item = MenuItem::new("id", "Short", "a description");
    assert_eq!(item.display_label(), "Short        - a description");
    let long = MenuItem::new("id", "MuchLongerLabel", "d");
    assert_eq!(long.display_label(), "MuchLongerLabel - d");
}

#[test]
fn test_menu_action_values() {
    assert_ne!(MenuAction::Continue, MenuAction::Back);
    assert_ne!(MenuAction::Back, MenuAction::Exit);
}

#[test]
fn test_masked_keys() {
    let long = OpenAISecret {
        api_key: "sk-abcdefghijklmnop".to_string(),
        organization: None,
        project: None,
    };
    assert_eq!(long.masked(), "sk-abcd...mnop");
    let short = OpenAISecret { api_key: "sk-short".to_string(), organization: None, project: None };
    assert_eq!(short.masked(), "***");
    let a = AnthropicSecret { api_key: "sk-ant-abcdefghijklm".to_string() };
    assert_eq!(a.masked(), "sk-ant-abc...jklm");
}

#[test]
fn test_validate_rejects_empty_key() {
    let sec = AnthropicSecret { api_key: String::new() };
    match sec.validate().unwrap_err() {
        DoumError::Config(m) => assert_eq!(m, "API key cannot be empty"),
        _ => panic!("expected a configuration error"),
    }
}

#[test]
fn test_provider_secret_fields() {
    let data = get_provider_config(&Provider::OpenAI).unwrap();
    assert_eq!(data.provider, "openai");
    assert_eq!(data.fields.len(), 3);
    assert!(data.fields[0].required && data.fields[0].is_password);
    let data = get_provider_config(&Provider::Anthropic).unwrap();
    assert_eq!(data.fields.len(), 1);
}

#[test]
fn test_save_secrets_assembles_and_filters() {
    let values = vec![
        ("api_key".to_string(), "sk-x".to_string()),
        ("organization".to_string(), String::new()),
        ("project".to_string(), "proj-1".to_string()),
    ];
    match save_secrets(&Provider::OpenAI, &values).unwrap() {
        SecretPayload::OpenAI(sec) => {
            assert_eq!(sec.api_key, "sk-x");
            assert!(sec.organization.is_none());
            assert_eq!(sec.project.as_deref(), Some("proj-1"));
        },
        _ => panic!("expected the OpenAI payload"),
    }
}

#[test]
fn test_save_secrets_requires_a_key() {
    let missing: Vec<(String, String)> = Vec::new();
    match save_secrets(&Provider::Anthropic, &missing).unwrap_err() {
        DoumError::Config(m) => assert_eq!(m, "API key is required"),
        _ => panic!("expected a configuration error"),
    }
    let empty = vec![("api_key".to_string(), String::new())];
    match save_secrets(&Provider::Anthropic, &empty).unwrap_err() {
        DoumError::Config(m) => assert_eq!(m, "API key cannot be empty"),
        _ => panic!("expected a configuration error"),
    }
}

#[test]
fn test_user_messages() {
    assert_eq!(
        DoumError::Config("x".to_string()).user_message(),
        "Configuration error: x"
    );
    assert_eq!(
        DoumError::Llm("status 401".to_string()).user_message(),
        "Authentication error (LLM API): status 401. Check your API key."
    );
    assert_eq!(
        DoumError::Llm("request timed out".to_string()).user_message(),
        "LLM request timed out. Please try again or increase the timeout."
    );
    assert_eq!(
        DoumError::Llm("got 429 back".to_string()).user_message(),
        "Rate limit exceeded. Please wait a moment and try again."
    );
    assert_eq!(DoumError::Llm("boom".to_string()).user_message(), "LLM API error: boom");
    assert_eq!(
        DoumError::Parse("bad".to_string()).user_message(),
        "Failed to parse LLM response: bad"
    );
    assert_eq!(DoumError::Io("disk".to_string()).user_message(), "I/O error: disk");
    assert_eq!(
        DoumError::CommandExecution("spawn".to_string()).user_message(),
        "Command execution failed: spawn"
    );
    assert_eq!(DoumError::UserCancelled.user_message(), "Operation cancelled by user.");
    assert_eq!(
        DoumError::InvalidConfig("bad".to_string()).user_message(),
        "Invalid configuration: bad"
    );
    assert_eq!(DoumError::Timeout.user_message(), "Request timed out. Please try again.");
}

fn simple_request() -> LLMRequest {
    LLMRequest {
        system: "be brief".to_string(),
        messages: vec![LLMMessage::user("hi"), LLMMessage::assistant("hello")],
    }
}

#[test]
fn test_openai_request_body_shape() {
    let body = openai_request_body("gpt-5", &simple_request());
    assert_eq!(
        body,
        "{\"model\":\"gpt-5\",\"instructions\":\"be brief\",\"input\":[{\"role\":\"user\",\"content\":\"hi\"},{\"role\":\"assistant\",\"content\":\"hello\"}],\"tools\":[{\"type\":\"web_search\"}]}"
    );
}

#[test]
fn test_anthropic_request_body_shape() {
    let body = anthropic_request_body("anthropic-sonnet-latest", &simple_request());
    assert_eq!(
        body,
        "{\"model\":\"anthropic-sonnet-latest\",\"system\":\"be brief\",\"messages\":[{\"role\":\"user\",\"content\":\"hi\"},{\"role\":\"assistant\",\"content\":\"hello\"}],\"max_tokens\":4096}"
    );
}

#[test]
fn test_request_body_escapes_content() {
    let req = LLMRequest {
        system: "line\none \"quoted\"".to_string(),
        messages: vec![LLMMessage::user("tab\there \u{1}")],
    };
    let body = openai_request_body("m", &req);
    assert!(body.contains("\"instructions\":\"line\\none \\\"quoted\\\"\""));
    assert!(body.contains("\"content\":\"tab\\there \\u0001\""));
}

#[test]
fn test_extract_openai_text_takes_first_message_block() {
    let body = "{\"output\":[{\"type\":\"reasoning\",\"summary\":[]},{\"type\":\"message\",\"content\":[{\"text\":\"the answer\"}]}]}";
    assert_eq!(extract_openai_text(body).unwrap(), "the answer");
}

#[test]
fn test_extract_openai_text_absence_is_an_error() {
    let body = "{\"output\":[{\"type\":\"reasoning\",\"summary\":[]}]}";
    match extract_openai_text(body).unwrap_err() {
        DoumError::Parse(m) => assert_eq!(m, "No content in OpenAI response"),
        _ => panic!("expected a parse error"),
    }
    match extract_openai_text("not json").unwrap_err() {
        DoumError::Parse(m) => assert_eq!(m, "Failed to parse OpenAI response"),
        _ => panic!("expected a parse error"),
    }
}

#[test]
fn test_extract_anthropic_text() {
    let body = "{\"content\":[{\"type\":\"text\",\"text\":\"hello there\"}]}";
    assert_eq!(extract_anthropic_text(body).unwrap(), "hello there");
    match extract_anthropic_text("{\"content\":[]}").unwrap_err() {
        DoumError::Parse(m) => assert_eq!(m, "No content in Anthropic response"),
        _ => panic!("expected a parse error"),
    }
}

#[test]
fn test_provider_error_envelope_and_fallback() {
    let with_envelope = "{\"error\":{\"message\":\"invalid api key\",\"type\":\"auth\"}}";
    match openai_error(401, with_envelope) {
        DoumError::Llm(m) => assert_eq!(m, "OpenAI API Error (401): invalid api key"),
        _ => panic!("expected a provider error"),
    }
    match openai_error(500, "backend exploded") {
        DoumError::Llm(m) => assert_eq!(m, "OpenAI API Error: 500 - backend exploded"),
        _ => panic!("expected a provider error"),
    }
}
