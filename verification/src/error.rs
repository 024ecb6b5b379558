//! The error taxonomy of the assistant core.
//!
//! `Config` and `InvalidConfig` are fatal and never retried; `Llm` (the
//! provider call failed) and `Parse` (the model's structured output was
//! malformed) are the two retryable kinds consumed by the retry orchestrator;
//! `CommandExecution` is fatal for one execution; `UserCancelled` is a normal
//! terminal state, not a failure.

use vstd::prelude::*;
use crate::text;

verus! {

/// Every error the core can surface, each carrying what the user needs to see.
#[derive(Debug, Clone)]
pub enum DoumError {
    /// Missing or invalid credentials or settings.
    Config(String),
    /// The provider call failed: connect failure, timeout, or an error status.
    Llm(String),
    /// The model's structured output could not be interpreted.
    Parse(String),
    /// An input/output failure reported by a caller.
    Io(String),
    /// The child process could not be run to completion.
    CommandExecution(String),
    /// The user aborted an interactive selection.
    UserCancelled,
    /// A configuration value was rejected.
    InvalidConfig(String),
    /// The provider call exceeded its own time budget.
    Timeout,
}

/// The one-line human-readable message for an error.
pub open spec fn user_message_spec(e: DoumError) -> Seq<char> {
    match e {
        DoumError::Config(m) => "Configuration error: "@ + m@,
        DoumError::Llm(m) => {
            if text::contains_sub(m@, "401"@) || text::contains_sub(m@, "unauthorized"@) {
                "Authentication error (LLM API): "@ + m@ + ". Check your API key."@
            } else if text::contains_sub(m@, "timeout"@) || text::contains_sub(m@, "timed out"@) {
                "LLM request timed out. Please try again or increase the timeout."@
            } else if text::contains_sub(m@, "rate limit"@) || text::contains_sub(m@, "429"@) {
                "Rate limit exceeded. Please wait a moment and try again."@
            } else {
                "LLM API error: "@ + m@
            }
        },
        DoumError::Parse(m) => "Failed to parse LLM response: "@ + m@,
        DoumError::Io(m) => "I/O error: "@ + m@,
        DoumError::CommandExecution(m) => "Command execution failed: "@ + m@,
        DoumError::UserCancelled => "Operation cancelled by user."@,
        DoumError::InvalidConfig(m) => "Invalid configuration: "@ + m@,
        DoumError::Timeout => "Request timed out. Please try again."@,
    }
}

impl DoumError {
    /// A short, user-friendly message for this error.
    pub fn user_message(&self) -> (r: String)
        ensures
            r@ == user_message_spec(*self),
    {
        match self {
            DoumError::Config(m) => prefixed("Configuration error: ", m),
            DoumError::Llm(m) => {
                let chars = text::str_to_chars(m.as_str());
                let p401 = text::str_to_chars("401");
                let punauth = text::str_to_chars("unauthorized");
                if text::contains_sub_exec(&chars, &p401) || text::contains_sub_exec(
                    &chars,
                    &punauth,
                ) {
                    let mut s = prefixed("Authentication error (LLM API): ", m);
                    s.append(". Check your API key.");
                    s
                } else {
                    let ptimeout = text::str_to_chars("timeout");
                    let ptimedout = text::str_to_chars("timed out");
                    if text::contains_sub_exec(&chars, &ptimeout) || text::contains_sub_exec(
                        &chars,
                        &ptimedout,
                    ) {
                        String::from_str(
                            "LLM request timed out. Please try again or increase the timeout.",
                        )
                    } else {
                        let prate = text::str_to_chars("rate limit");
                        let p429 = text::str_to_chars("429");
                        if text::contains_sub_exec(&chars, &prate) || text::contains_sub_exec(
                            &chars,
                            &p429,
                        ) {
                            String::from_str(
                                "Rate limit exceeded. Please wait a moment and try again.",
                            )
                        } else {
                            prefixed("LLM API error: ", m)
                        }
                    }
                }
            },
            DoumError::Parse(m) => prefixed("Failed to parse LLM response: ", m),
            DoumError::Io(m) => prefixed("I/O error: ", m),
            DoumError::CommandExecution(m) => prefixed("Command execution failed: ", m),
            DoumError::UserCancelled => String::from_str("Operation cancelled by user."),
            DoumError::InvalidConfig(m) => prefixed("Invalid configuration: ", m),
            DoumError::Timeout => String::from_str("Request timed out. Please try again."),
        }
    }
}

/// `prefix` followed by `rest`.
fn prefixed(prefix: &str, rest: &String) -> (r: String)
    ensures
        r@ == prefix@ + rest@,
{
    let mut s = String::from_str(prefix);
    s.append(rest.as_str());
    s
}

} // verus!
