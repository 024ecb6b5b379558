use doum_cli::parser::{extract_json, parse_auto_mode, parse_suggest};
use doum_cli::error::DoumError;

#[test]
fn test_parse_mode_select() {
    let json = r#"{"mode": "ask", "reason": "This is a question"}"#;
    let result = parse_auto_mode(json).unwrap();
    assert_eq!(result.mode, "ask");
}

#[test]
fn test_parse_suggest() {
    let json = r#"{
        "suggestions": [
            {"cmd": "ls -la", "description": "List all files"}
        ]
    }"#;
    let result = parse_suggest(json).unwrap();
    assert_eq!(result.suggestions.len(), 1);
    assert_eq!(result.suggestions[0].cmd, "ls -la");
}

#[test]
fn test_extract_fenced_block() {
    let input = "```json\n{\"k\":\"v\"}\n```";
    assert_eq!(extract_json(input), "{\"k\":\"v\"}");
}

#[test]
fn test_extract_fenced_block_without_language_tag() {
    let input = "```\n{\"k\":\"v\"}\n```";
    assert_eq!(extract_json(input), "{\"k\":\"v\"}");
}

#[test]
fn test_extract_bare_object() {
    let input = "noise {\"k\":\"v\"} noise";
    assert_eq!(extract_json(input), "{\"k\":\"v\"}");
}

#[test]
fn test_extract_plain_text_is_trimmed() {
    assert_eq!(extract_json("  hello world  "), "hello world");
}

#[test]
fn test_extract_idempotent_on_clean_json() {
    let clean = "{\"k\":\"v\"}";
    let once = extract_json(clean);
    assert_eq!(once, clean);
    let twice = extract_json(&once);
    assert_eq!(twice, once);
}

#[test]
fn test_parse_auto_with_surrounding_prose() {
    let raw = "Here is my choice:\n```json\n{\"mode\": \"suggest\", \"reason\": \"wants a command\"}\n```\nDone.";
    let result = parse_auto_mode(raw).unwrap();
    assert_eq!(result.mode, "suggest");
    assert_eq!(result.reason, "wants a command");
}

#[test]
fn test_parse_suggest_empty_list() {
    let result = parse_suggest("{\"suggestions\":[]}").unwrap();
    assert_eq!(result.suggestions.len(), 0);
}

#[test]
fn test_parse_auto_rejects_garbage() {
    let err = parse_auto_mode("this is not json").unwrap_err();
    match err {
        DoumError::Parse(m) => assert_eq!(m, "Failed to parse Auto Mode response: this is not json"),
        _ => panic!("expected a parse error"),
    }
}

#[test]
fn test_parse_suggest_rejects_wrong_shape() {
    let err = parse_suggest("{\"suggestions\": \"nope\"}").unwrap_err();
    match err {
        DoumError::Parse(m) => {
            assert_eq!(m, "Failed to parse Suggest response: {\"suggestions\": \"nope\"}")
        },
        _ => panic!("expected a parse error"),
    }
}

#[test]
fn test_parse_auto_missing_field_fails() {
    assert!(parse_auto_mode("{\"mode\": \"ask\"}").is_err());
}

#[test]
fn test_parse_auto_ignores_unknown_fields() {
    let result = parse_auto_mode("{\"extra\": [1, 2.5, true, null], \"mode\": \"ask\", \"reason\": \"q\"}")
        .unwrap();
    assert_eq!(result.mode, "ask");
}

#[test]
fn test_parse_auto_first_key_wins() {
    let result = parse_auto_mode("{\"mode\": \"ask\", \"mode\": \"suggest\", \"reason\": \"q\"}")
        .unwrap();
    assert_eq!(result.mode, "ask");
}

#[test]
fn test_parse_suggest_decodes_escapes() {
    let json = "{\"suggestions\":[{\"cmd\":\"echo \\\"hi\\\"\",\"description\":\"line\\nbreak and \\u0041\"}]}";
    let result = parse_suggest(json).unwrap();
    assert_eq!(result.suggestions[0].cmd, "echo \"hi\"");
    assert_eq!(result.suggestions[0].description, "line\nbreak and A");
}

#[test]
fn test_parse_suggest_keeps_order() {
    let json = "{\"suggestions\":[{\"cmd\":\"a\",\"description\":\"1\"},{\"cmd\":\"b\",\"description\":\"2\"}]}";
    let result = parse_suggest(json).unwrap();
    assert_eq!(result.suggestions[0].cmd, "a");
    assert_eq!(result.suggestions[1].cmd, "b");
}

#[test]
fn test_parse_decodes_surrogate_pairs() {
    // An escaped UTF-16 surrogate pair is combined into its character.
    let json = "{\"mode\":\"ask\",\"reason\":\"\\uD83D\\uDE00\"}";
    let result = parse_auto_mode(json).unwrap();
    assert_eq!(result.reason, "\u{1F600}");
}

#[test]
fn test_parse_rejects_lone_surrogates() {
    assert!(parse_auto_mode("{\"mode\":\"ask\",\"reason\":\"\\uD83D\"}").is_err());
    assert!(parse_auto_mode("{\"mode\":\"ask\",\"reason\":\"\\uDE00\"}").is_err());
}

#[test]
fn test_parse_rejects_absurd_nesting() {
    // Nesting past the documented depth cap is rejected rather than read.
    let deep = format!("{}{}{}", "{\"mode\":", "[".repeat(200), "]".repeat(200));
    let input = format!("{}{}", deep, ",\"reason\":\"r\"}");
    assert!(parse_auto_mode(&input).is_err());
}

#[test]
fn test_parse_accepts_moderate_nesting() {
    let nested = format!(
        "{{\"extra\":{}{},\"mode\":\"ask\",\"reason\":\"r\"}}",
        "[".repeat(50),
        "]".repeat(50)
    );
    assert_eq!(parse_auto_mode(&nested).unwrap().mode, "ask");
}
