//! The application configuration and the keyed get/set/unset operations on
//! it.
//!
//! Reading and writing the configuration file is a caller concern; the
//! operations here work on the in-memory value and say exactly which field a
//! key addresses, how a textual value is parsed, and that nothing else
//! changes.

use vstd::prelude::*;
use crate::error::DoumError;
use crate::text::{self, dec_digits, dec_val, is_digits};

verus! {

/// Settings for the provider call: which provider and model, the per-request
/// timeout in seconds, the retry budget, and feature switches.
#[derive(Debug, Clone)]
pub struct LLMConfig {
    pub provider: String,
    pub model: String,
    pub timeout: u64,
    pub max_retries: u32,
    pub use_thinking: bool,
    pub use_web_search: bool,
}

/// Limits on the context gathered into prompts.
#[derive(Debug, Clone)]
pub struct ContextConfig {
    pub max_lines: usize,
    pub max_size_kb: usize,
}

/// Logging settings.
#[derive(Debug, Clone)]
pub struct LoggingConfig {
    pub enabled: bool,
    pub level: String,
}

/// The entire application configuration.
#[derive(Debug, Clone)]
pub struct Config {
    pub llm: LLMConfig,
    pub context: ContextConfig,
    pub logging: LoggingConfig,
}

/// The out-of-the-box configuration.
pub open spec fn is_default_config(c: Config) -> bool {
    &&& c.llm.provider@ == "openai"@
    &&& c.llm.model@ == "gpt-5"@
    &&& c.llm.timeout == 30
    &&& c.llm.max_retries == 3
    &&& !c.llm.use_thinking
    &&& c.llm.use_web_search
    &&& c.context.max_lines == 100
    &&& c.context.max_size_kb == 50
    &&& c.logging.enabled
    &&& c.logging.level@ == "info"@
}

/// The default configuration.
pub fn load_default_config() -> (r: Result<Config, DoumError>)
    ensures
        r matches Ok(c) && is_default_config(c),
{
    Ok(
        Config {
            llm: LLMConfig {
                provider: String::from_str("openai"),
                model: String::from_str("gpt-5"),
                timeout: 30,
                max_retries: 3,
                use_thinking: false,
                use_web_search: true,
            },
            context: ContextConfig { max_lines: 100, max_size_kb: 50 },
            logging: LoggingConfig { enabled: true, level: String::from_str("info") },
        },
    )
}

/// The keys the get/set/unset operations accept.
pub open spec fn known_key(key: Seq<char>) -> bool {
    ||| key == "llm.provider"@
    ||| key == "llm.model"@
    ||| key == "llm.timeout"@
    ||| key == "llm.max_retries"@
    ||| key == "llm.use_thinking"@
    ||| key == "llm.use_web_search"@
    ||| key == "context.max_lines"@
    ||| key == "context.max_size_kb"@
    ||| key == "logging.enabled"@
    ||| key == "logging.level"@
}

/// `true` or `false`, as text.
pub open spec fn bool_str(b: bool) -> Seq<char> {
    if b {
        "true"@
    } else {
        "false"@
    }
}

/// The textual value a key addresses in a configuration.
pub open spec fn get_value_spec(c: Config, key: Seq<char>) -> Seq<char> {
    if key == "llm.provider"@ {
        c.llm.provider@
    } else if key == "llm.model"@ {
        c.llm.model@
    } else if key == "llm.timeout"@ {
        dec_digits(c.llm.timeout as nat)
    } else if key == "llm.max_retries"@ {
        dec_digits(c.llm.max_retries as nat)
    } else if key == "llm.use_thinking"@ {
        bool_str(c.llm.use_thinking)
    } else if key == "llm.use_web_search"@ {
        bool_str(c.llm.use_web_search)
    } else if key == "context.max_lines"@ {
        dec_digits(c.context.max_lines as nat)
    } else if key == "context.max_size_kb"@ {
        dec_digits(c.context.max_size_kb as nat)
    } else if key == "logging.enabled"@ {
        bool_str(c.logging.enabled)
    } else if key == "logging.level"@ {
        c.logging.level@
    } else {
        Seq::empty()
    }
}

/// The message reported for a key the configuration does not have.
pub open spec fn unknown_key_msg(key: Seq<char>) -> Seq<char> {
    "Unknown config key: "@ + key
}

/// `true` or `false`, as an owned string.
fn bool_to_string(b: bool) -> (r: String)
    ensures
        r@ == bool_str(b),
{
    if b {
        String::from_str("true")
    } else {
        String::from_str("false")
    }
}

/// The error for a key the configuration does not have.
fn unknown_key_error(key: &str) -> (r: DoumError)
    ensures
        r matches DoumError::Config(m) && m@ == unknown_key_msg(key@),
{
    let mut m = String::from_str("Unknown config key: ");
    m.append(key);
    DoumError::Config(m)
}

/// Reads the value a key addresses, as text; an unknown key is rejected.
pub fn get_value(config: &Config, key: &str) -> (r: Result<String, DoumError>)
    ensures
        (match r {
            Ok(s) => known_key(key@) && s@ == get_value_spec(*config, key@),
            Err(e) => {
                &&& !known_key(key@)
                &&& e matches DoumError::Config(m) && m@ == unknown_key_msg(key@)
            },
        }),
{
    if text::str_eq(key, "llm.provider") {
        Ok(String::from_str(config.llm.provider.as_str()))
    } else if text::str_eq(key, "llm.model") {
        Ok(String::from_str(config.llm.model.as_str()))
    } else if text::str_eq(key, "llm.timeout") {
        Ok(text::u64_to_dec(config.llm.timeout))
    } else if text::str_eq(key, "llm.max_retries") {
        Ok(text::u64_to_dec(config.llm.max_retries as u64))
    } else if text::str_eq(key, "llm.use_thinking") {
        Ok(bool_to_string(config.llm.use_thinking))
    } else if text::str_eq(key, "llm.use_web_search") {
        Ok(bool_to_string(config.llm.use_web_search))
    } else if text::str_eq(key, "context.max_lines") {
        Ok(text::u64_to_dec(config.context.max_lines as u64))
    } else if text::str_eq(key, "context.max_size_kb") {
        Ok(text::u64_to_dec(config.context.max_size_kb as u64))
    } else if text::str_eq(key, "logging.enabled") {
        Ok(bool_to_string(config.logging.enabled))
    } else if text::str_eq(key, "logging.level") {
        Ok(String::from_str(config.logging.level.as_str()))
    } else {
        Err(unknown_key_error(key))
    }
}

/// The label used in an invalid-value message for each parsed key.
pub open spec fn field_label(key: Seq<char>) -> Seq<char> {
    if key == "llm.timeout"@ {
        "timeout"@
    } else if key == "llm.max_retries"@ {
        "max_retries"@
    } else if key == "llm.use_thinking"@ {
        "use_thinking"@
    } else if key == "llm.use_web_search"@ {
        "use_web_search"@
    } else if key == "context.max_lines"@ {
        "max_lines"@
    } else if key == "context.max_size_kb"@ {
        "max_size_kb"@
    } else if key == "logging.enabled"@ {
        "logging.enabled"@
    } else {
        Seq::empty()
    }
}

/// The message reported when a value cannot be parsed for its key.
pub open spec fn invalid_value_msg(key: Seq<char>, value: Seq<char>) -> Seq<char> {
    "Invalid "@ + field_label(key) + " value: "@ + value
}

/// Whether text is a decimal number that fits the named unsigned width.
pub open spec fn parses_u64(value: Seq<char>) -> bool {
    is_digits(value) && dec_val(value) <= u64::MAX
}

pub open spec fn parses_u32(value: Seq<char>) -> bool {
    is_digits(value) && dec_val(value) <= u32::MAX
}

pub open spec fn parses_usize(value: Seq<char>) -> bool {
    is_digits(value) && dec_val(value) <= usize::MAX
}

pub open spec fn parses_bool(value: Seq<char>) -> bool {
    value == "true"@ || value == "false"@
}

/// Whether a key accepts a textual value: string-valued keys accept
/// anything; numeric and boolean keys demand a parseable value.
pub open spec fn set_value_accepts(key: Seq<char>, value: Seq<char>) -> bool {
    ||| key == "llm.provider"@
    ||| key == "llm.model"@
    ||| key == "logging.level"@
    ||| (key == "llm.timeout"@ && parses_u64(value))
    ||| (key == "llm.max_retries"@ && parses_u32(value))
    ||| (key == "llm.use_thinking"@ && parses_bool(value))
    ||| (key == "llm.use_web_search"@ && parses_bool(value))
    ||| (key == "context.max_lines"@ && parses_usize(value))
    ||| (key == "context.max_size_kb"@ && parses_usize(value))
    ||| (key == "logging.enabled"@ && parses_bool(value))
}

/// The textual value `true` parsed as a boolean.
pub open spec fn bool_val(value: Seq<char>) -> bool {
    value == "true"@
}

/// Whether `c1` is `c0` with exactly the addressed field set from `value`.
pub open spec fn set_value_ok(c0: Config, c1: Config, key: Seq<char>, value: Seq<char>) -> bool {
    if key == "llm.provider"@ {
        c1.llm.provider@ == value && c1 == (Config {
            llm: (LLMConfig { provider: c1.llm.provider, ..c0.llm }),
            ..c0
        })
    } else if key == "llm.model"@ {
        c1.llm.model@ == value && c1 == (Config {
            llm: (LLMConfig { model: c1.llm.model, ..c0.llm }),
            ..c0
        })
    } else if key == "llm.timeout"@ {
        c1.llm.timeout as int == dec_val(value) && c1 == (Config {
            llm: (LLMConfig { timeout: c1.llm.timeout, ..c0.llm }),
            ..c0
        })
    } else if key == "llm.max_retries"@ {
        c1.llm.max_retries as int == dec_val(value) && c1 == (Config {
            llm: (LLMConfig { max_retries: c1.llm.max_retries, ..c0.llm }),
            ..c0
        })
    } else if key == "llm.use_thinking"@ {
        c1.llm.use_thinking == bool_val(value) && c1 == (Config {
            llm: (LLMConfig { use_thinking: c1.llm.use_thinking, ..c0.llm }),
            ..c0
        })
    } else if key == "llm.use_web_search"@ {
        c1.llm.use_web_search == bool_val(value) && c1 == (Config {
            llm: (LLMConfig { use_web_search: c1.llm.use_web_search, ..c0.llm }),
            ..c0
        })
    } else if key == "context.max_lines"@ {
        c1.context.max_lines as int == dec_val(value) && c1 == (Config {
            context: (ContextConfig { max_lines: c1.context.max_lines, ..c0.context }),
            ..c0
        })
    } else if key == "context.max_size_kb"@ {
        c1.context.max_size_kb as int == dec_val(value) && c1 == (Config {
            context: (ContextConfig { max_size_kb: c1.context.max_size_kb, ..c0.context }),
            ..c0
        })
    } else if key == "logging.enabled"@ {
        c1.logging.enabled == bool_val(value) && c1 == (Config {
            logging: (LoggingConfig { enabled: c1.logging.enabled, ..c0.logging }),
            ..c0
        })
    } else if key == "logging.level"@ {
        c1.logging.level@ == value && c1 == (Config {
            logging: (LoggingConfig { level: c1.logging.level, ..c0.logging }),
            ..c0
        })
    } else {
        false
    }
}

/// The configuration keys are pairwise distinct text; the pairs named here
/// are the ones the set operation's contract rests on.
proof fn lemma_config_keys_distinct()
    ensures
        "llm.timeout"@ != "llm.use_thinking"@,
        "llm.timeout"@ != "llm.use_web_search"@,
        "llm.timeout"@ != "logging.enabled"@,
        "llm.timeout"@ != "logging.level"@,
        "llm.max_retries"@ != "llm.use_thinking"@,
        "llm.max_retries"@ != "llm.use_web_search"@,
        "llm.max_retries"@ != "context.max_lines"@,
        "llm.max_retries"@ != "context.max_size_kb"@,
        "llm.max_retries"@ != "logging.enabled"@,
        "llm.max_retries"@ != "logging.level"@,
        "llm.use_thinking"@ != "context.max_lines"@,
        "llm.use_thinking"@ != "context.max_size_kb"@,
        "llm.use_thinking"@ != "logging.level"@,
        "llm.use_web_search"@ != "context.max_lines"@,
        "llm.use_web_search"@ != "context.max_size_kb"@,
        "llm.use_web_search"@ != "logging.level"@,
        "context.max_lines"@ != "logging.enabled"@,
        "context.max_lines"@ != "logging.level"@,
        "context.max_size_kb"@ != "logging.enabled"@,
        "context.max_size_kb"@ != "logging.level"@,
        "logging.enabled"@ != "logging.level"@,
        "true"@ != "false"@,
{
    reveal_strlit("true");
    reveal_strlit("false");
    assert("true"@.len() == 4);
    assert("false"@.len() == 5);
    reveal_strlit("llm.timeout");
    reveal_strlit("llm.max_retries");
    reveal_strlit("llm.use_thinking");
    reveal_strlit("llm.use_web_search");
    reveal_strlit("context.max_lines");
    reveal_strlit("context.max_size_kb");
    reveal_strlit("logging.enabled");
    reveal_strlit("logging.level");
    assert("llm.timeout"@.len() == 11);
    assert("llm.max_retries"@.len() == 15);
    assert("llm.use_thinking"@.len() == 16);
    assert("llm.use_web_search"@.len() == 18);
    assert("context.max_lines"@.len() == 17);
    assert("context.max_size_kb"@.len() == 19);
    assert("logging.enabled"@.len() == 15);
    assert("logging.level"@.len() == 13);
    assert("llm.max_retries"@[1] != "logging.enabled"@[1]);
}

/// The error for a value its key cannot parse.
fn invalid_value_error(key: &str, field: &str, value: &str) -> (r: DoumError)
    requires
        field@ == field_label(key@),
    ensures
        r matches DoumError::InvalidConfig(m) && m@ == invalid_value_msg(key@, value@),
{
    let mut m = String::from_str("Invalid ");
    m.append(field);
    m.append(" value: ");
    m.append(value);
    proof {
        assert(m@ =~= invalid_value_msg(key@, value@));
    }
    DoumError::InvalidConfig(m)
}

/// Sets the value a key addresses, parsing numbers and booleans; an unknown
/// key or an unparseable value is rejected and the configuration unchanged.
#[verifier::rlimit(100)]
pub fn set_value(config: &mut Config, key: &str, value: &str) -> (r: Result<(), DoumError>)
    ensures
        (match r {
            Ok(_) => set_value_accepts(key@, value@) && set_value_ok(
                *old(config),
                *final(config),
                key@,
                value@,
            ),
            Err(e) => {
                &&& !set_value_accepts(key@, value@)
                &&& *final(config) == *old(config)
                &&& (if known_key(key@) {
                    e matches DoumError::InvalidConfig(m) && m@ == invalid_value_msg(key@, value@)
                } else {
                    e matches DoumError::Config(m) && m@ == unknown_key_msg(key@)
                })
            },
        }),
{
    proof {
        lemma_config_keys_distinct();
    }
    if text::str_eq(key, "llm.provider") {
        config.llm.provider = String::from_str(value);
        proof {
            assert(set_value_ok(*old(config), *config, key@, value@));
        }
        return Ok(());
    } else if text::str_eq(key, "llm.model") {
        config.llm.model = String::from_str(value);
        proof {
            assert(set_value_ok(*old(config), *config, key@, value@));
        }
        return Ok(());
    } else if text::str_eq(key, "llm.timeout") {
        match text::parse_u64_str(value) {
            Some(v) => {
                config.llm.timeout = v;
                proof {
                    assert(set_value_accepts(key@, value@));
                    assert(set_value_ok(*old(config), *config, key@, value@));
                }
                return Ok(());
            },
            None => {
                proof {
                    assert(!set_value_accepts(key@, value@));
                    assert(*config == *old(config));
                }
                return Err(invalid_value_error(key, "timeout", value));
            },
        }
    } else if text::str_eq(key, "llm.max_retries") {
        match text::parse_u64_str(value) {
            Some(v) => {
                if v <= u32::MAX as u64 {
                    config.llm.max_retries = v as u32;
                    proof {
                        assert(set_value_accepts(key@, value@));
                        assert(set_value_ok(*old(config), *config, key@, value@));
                    }
                    return Ok(());
                } else {
                    proof {
                        assert(!set_value_accepts(key@, value@));
                        assert(*config == *old(config));
                    }
                    return Err(invalid_value_error(key, "max_retries", value));
                }
            },
            None => {
                proof {
                    assert(!set_value_accepts(key@, value@));
                    assert(*config == *old(config));
                }
                return Err(invalid_value_error(key, "max_retries", value));
            },
        }
    } else if text::str_eq(key, "llm.use_thinking") {
        match text::parse_bool_str(value) {
            Some(b) => {
                config.llm.use_thinking = b;
                proof {
                    assert(set_value_accepts(key@, value@));
                    assert(set_value_ok(*old(config), *config, key@, value@));
                }
                return Ok(());
            },
            None => {
                proof {
                    assert(!set_value_accepts(key@, value@));
                    assert(*config == *old(config));
                }
                return Err(invalid_value_error(key, "use_thinking", value));
            },
        }
    } else if text::str_eq(key, "llm.use_web_search") {
        match text::parse_bool_str(value) {
            Some(b) => {
                config.llm.use_web_search = b;
                proof {
                    assert(set_value_accepts(key@, value@));
                    assert(set_value_ok(*old(config), *config, key@, value@));
                }
                return Ok(());
            },
            None => {
                proof {
                    assert(!set_value_accepts(key@, value@));
                    assert(*config == *old(config));
                }
                return Err(invalid_value_error(key, "use_web_search", value));
            },
        }
    } else if text::str_eq(key, "context.max_lines") {
        match text::parse_u64_str(value) {
            Some(v) => {
                if v <= usize::MAX as u64 {
                    config.context.max_lines = v as usize;
                    proof {
                        assert(set_value_accepts(key@, value@));
                        assert(set_value_ok(*old(config), *config, key@, value@));
                    }
                    return Ok(());
                } else {
                    proof {
                        assert(!set_value_accepts(key@, value@));
                        assert(*config == *old(config));
                    }
                    return Err(invalid_value_error(key, "max_lines", value));
                }
            },
            None => {
                proof {
                    assert(!set_value_accepts(key@, value@));
                    assert(*config == *old(config));
                }
                return Err(invalid_value_error(key, "max_lines", value));
            },
        }
    } else if text::str_eq(key, "context.max_size_kb") {
        match text::parse_u64_str(value) {
            Some(v) => {
                if v <= usize::MAX as u64 {
                    config.context.max_size_kb = v as usize;
                    proof {
                        assert(set_value_accepts(key@, value@));
                        assert(set_value_ok(*old(config), *config, key@, value@));
                    }
                    return Ok(());
                } else {
                    proof {
                        assert(!set_value_accepts(key@, value@));
                        assert(*config == *old(config));
                    }
                    return Err(invalid_value_error(key, "max_size_kb", value));
                }
            },
            None => {
                proof {
                    assert(!set_value_accepts(key@, value@));
                    assert(*config == *old(config));
                }
                return Err(invalid_value_error(key, "max_size_kb", value));
            },
        }
    } else if text::str_eq(key, "logging.enabled") {
        match text::parse_bool_str(value) {
            Some(b) => {
                config.logging.enabled = b;
                proof {
                    assert(set_value_accepts(key@, value@));
                    assert(set_value_ok(*old(config), *config, key@, value@));
                }
                return Ok(());
            },
            None => {
                proof {
                    assert(!set_value_accepts(key@, value@));
                    assert(*config == *old(config));
                }
                return Err(invalid_value_error(key, "logging.enabled", value));
            },
        }
    } else if text::str_eq(key, "logging.level") {
        config.logging.level = String::from_str(value);
        proof {
            assert(set_value_ok(*old(config), *config, key@, value@));
        }
        return Ok(());
    } else {
        proof {
            assert(!known_key(key@));
            assert(!set_value_accepts(key@, value@));
            assert(*config == *old(config));
        }
        return Err(unknown_key_error(key));
    }
}

/// Whether `c1` is `c0` with exactly the addressed field restored to its
/// default.
pub open spec fn unset_value_ok(c0: Config, c1: Config, key: Seq<char>) -> bool {
    if key == "llm.provider"@ {
        c1.llm.provider@ == "openai"@ && c1 == (Config {
            llm: (LLMConfig { provider: c1.llm.provider, ..c0.llm }),
            ..c0
        })
    } else if key == "llm.model"@ {
        c1.llm.model@ == "gpt-5"@ && c1 == (Config {
            llm: (LLMConfig { model: c1.llm.model, ..c0.llm }),
            ..c0
        })
    } else if key == "llm.timeout"@ {
        c1 == (Config { llm: (LLMConfig { timeout: 30, ..c0.llm }), ..c0 })
    } else if key == "llm.max_retries"@ {
        c1 == (Config { llm: (LLMConfig { max_retries: 3, ..c0.llm }), ..c0 })
    } else if key == "llm.use_thinking"@ {
        c1 == (Config { llm: (LLMConfig { use_thinking: false, ..c0.llm }), ..c0 })
    } else if key == "llm.use_web_search"@ {
        c1 == (Config { llm: (LLMConfig { use_web_search: true, ..c0.llm }), ..c0 })
    } else if key == "context.max_lines"@ {
        c1 == (Config { context: (ContextConfig { max_lines: 100, ..c0.context }), ..c0 })
    } else if key == "context.max_size_kb"@ {
        c1 == (Config { context: (ContextConfig { max_size_kb: 50, ..c0.context }), ..c0 })
    } else if key == "logging.enabled"@ {
        c1 == (Config { logging: (LoggingConfig { enabled: true, ..c0.logging }), ..c0 })
    } else if key == "logging.level"@ {
        c1.logging.level@ == "info"@ && c1 == (Config {
            logging: (LoggingConfig { level: c1.logging.level, ..c0.logging }),
            ..c0
        })
    } else {
        false
    }
}

/// Restores the field a key addresses to its default; an unknown key is
/// rejected and the configuration unchanged.
pub fn unset_value(config: &mut Config, key: &str) -> (r: Result<(), DoumError>)
    ensures
        r is Ok <==> known_key(key@),
        r is Ok ==> unset_value_ok(*old(config), *final(config), key@),
        r is Err ==> *final(config) == *old(config),
        r matches Err(e) ==> e matches DoumError::Config(m) && m@ == unknown_key_msg(key@),
{
    if text::str_eq(key, "llm.provider") {
        config.llm.provider = String::from_str("openai");
        Ok(())
    } else if text::str_eq(key, "llm.model") {
        config.llm.model = String::from_str("gpt-5");
        Ok(())
    } else if text::str_eq(key, "llm.timeout") {
        config.llm.timeout = 30;
        Ok(())
    } else if text::str_eq(key, "llm.max_retries") {
        config.llm.max_retries = 3;
        Ok(())
    } else if text::str_eq(key, "llm.use_thinking") {
        config.llm.use_thinking = false;
        Ok(())
    } else if text::str_eq(key, "llm.use_web_search") {
        config.llm.use_web_search = true;
        Ok(())
    } else if text::str_eq(key, "context.max_lines") {
        config.context.max_lines = 100;
        Ok(())
    } else if text::str_eq(key, "context.max_size_kb") {
        config.context.max_size_kb = 50;
        Ok(())
    } else if text::str_eq(key, "logging.enabled") {
        config.logging.enabled = true;
        Ok(())
    } else if text::str_eq(key, "logging.level") {
        config.logging.level = String::from_str("info");
        Ok(())
    } else {
        Err(unknown_key_error(key))
    }
}

/// Restores every field to its default.
pub fn reset(config: &mut Config)
    ensures
        is_default_config(*final(config)),
{
    config.llm.provider = String::from_str("openai");
    config.llm.model = String::from_str("gpt-5");
    config.llm.timeout = 30;
    config.llm.max_retries = 3;
    config.llm.use_thinking = false;
    config.llm.use_web_search = true;
    config.context.max_lines = 100;
    config.context.max_size_kb = 50;
    config.logging.enabled = true;
    config.logging.level = String::from_str("info");
}

} // verus!
