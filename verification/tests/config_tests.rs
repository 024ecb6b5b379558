use doum_cli::config::{get_value, load_default_config, reset, set_value, unset_value};
use doum_cli::error::DoumError;
use doum_cli::provider::Provider;
use doum_cli::switch::{get_all_options, switch_to};

#[test]
fn test_default_config_values() {
    let c = load_default_config().unwrap();
    assert_eq!(c.llm.provider, "openai");
    assert_eq!(c.llm.model, "gpt-5");
    assert_eq!(c.llm.timeout, 30);
    assert_eq!(c.llm.max_retries, 3);
    assert!(!c.llm.use_thinking);
    assert!(c.llm.use_web_search);
    assert_eq!(c.context.max_lines, 100);
    assert_eq!(c.context.max_size_kb, 50);
    assert!(c.logging.enabled);
    assert_eq!(c.logging.level, "info");
}

#[test]
fn test_get_value_renders_each_kind() {
    let c = load_default_config().unwrap();
    assert_eq!(get_value(&c, "llm.provider").unwrap(), "openai");
    assert_eq!(get_value(&c, "llm.timeout").unwrap(), "30");
    assert_eq!(get_value(&c, "llm.use_web_search").unwrap(), "true");
    assert_eq!(get_value(&c, "llm.use_thinking").unwrap(), "false");
    assert_eq!(get_value(&c, "logging.level").unwrap(), "info");
}

#[test]
fn test_get_value_unknown_key() {
    let c = load_default_config().unwrap();
    match get_value(&c, "nope.nothing").unwrap_err() {
        DoumError::Config(m) => assert_eq!(m, "Unknown config key: nope.nothing"),
        _ => panic!("expected a configuration error"),
    }
}

#[test]
fn test_set_value_parses_numbers_and_booleans() {
    let mut c = load_default_config().unwrap();
    set_value(&mut c, "llm.timeout", "45").unwrap();
    assert_eq!(c.llm.timeout, 45);
    set_value(&mut c, "llm.max_retries", "5").unwrap();
    assert_eq!(c.llm.max_retries, 5);
    set_value(&mut c, "logging.enabled", "false").unwrap();
    assert!(!c.logging.enabled);
    set_value(&mut c, "llm.model", "gpt-4o").unwrap();
    assert_eq!(c.llm.model, "gpt-4o");
}

#[test]
fn test_set_value_rejects_bad_number() {
    let mut c = load_default_config().unwrap();
    match set_value(&mut c, "llm.timeout", "soon").unwrap_err() {
        DoumError::InvalidConfig(m) => assert_eq!(m, "Invalid timeout value: soon"),
        _ => panic!("expected an invalid-configuration error"),
    }
    // The configuration is untouched on failure.
    assert_eq!(c.llm.timeout, 30);
}

#[test]
fn test_set_value_rejects_bad_boolean() {
    let mut c = load_default_config().unwrap();
    assert!(set_value(&mut c, "llm.use_thinking", "maybe").is_err());
    assert!(!c.llm.use_thinking);
}

#[test]
fn test_set_value_unknown_key() {
    let mut c = load_default_config().unwrap();
    match set_value(&mut c, "llm.nothing", "1").unwrap_err() {
        DoumError::Config(m) => assert_eq!(m, "Unknown config key: llm.nothing"),
        _ => panic!("expected a configuration error"),
    }
}

#[test]
fn test_unset_value_restores_the_default() {
    let mut c = load_default_config().unwrap();
    set_value(&mut c, "llm.timeout", "99").unwrap();
    unset_value(&mut c, "llm.timeout").unwrap();
    assert_eq!(c.llm.timeout, 30);
}

#[test]
fn test_reset_restores_everything() {
    let mut c = load_default_config().unwrap();
    set_value(&mut c, "llm.model", "other").unwrap();
    set_value(&mut c, "context.max_lines", "1").unwrap();
    reset(&mut c);
    assert_eq!(c.llm.model, "gpt-5");
    assert_eq!(c.context.max_lines, 100);
}

#[test]
fn test_switch_to_sets_provider_and_model() {
    let mut c = load_default_config().unwrap();
    switch_to(&mut c, &Provider::Anthropic, "anthropic-sonnet-latest").unwrap();
    assert_eq!(c.llm.provider, "anthropic");
    assert_eq!(c.llm.model, "anthropic-sonnet-latest");
    // Nothing else moved.
    assert_eq!(c.llm.timeout, 30);
}

#[test]
fn test_get_all_options_covers_both_providers_with_custom() {
    let options = get_all_options();
    assert_eq!(options.len(), 6);
    assert_eq!(options[0].provider, "openai");
    assert_eq!(options[0].display_name, "OPENAI - GPT-5");
    assert_eq!(options[2].model_id, "custom");
    assert_eq!(options[5].provider, "anthropic");
    assert_eq!(options[5].description, "Enter model name manually");
}

#[test]
fn test_provider_names() {
    assert_eq!(Provider::OpenAI.as_str(), "openai");
    assert_eq!(Provider::Anthropic.as_display(), "Anthropic");
    assert_eq!(Provider::all().len(), 2);
    assert_eq!(Provider::all_as_str(), vec!["openai".to_string(), "anthropic".to_string()]);
}

#[test]
fn test_provider_from_name_is_case_insensitive() {
    assert!(matches!(Provider::from_name("Anthropic"), Ok(Provider::Anthropic)));
    assert!(matches!(Provider::from_name("OPENAI"), Ok(Provider::OpenAI)));
    match Provider::from_name("gemini").unwrap_err() {
        DoumError::Config(m) => {
            assert_eq!(m, "Unknown provider: gemini. Available: openai, anthropic")
        },
        _ => panic!("expected a configuration error"),
    }
}

#[test]
fn test_set_value_accepts_the_largest_u64() {
    let mut c = load_default_config().unwrap();
    set_value(&mut c, "llm.timeout", "18446744073709551615").unwrap();
    assert_eq!(c.llm.timeout, u64::MAX);
}

#[test]
fn test_set_value_rejects_a_too_large_number() {
    let mut c = load_default_config().unwrap();
    assert!(set_value(&mut c, "llm.timeout", "18446744073709551616").is_err());
    assert!(set_value(&mut c, "llm.max_retries", "4294967296").is_err());
}
