//! The provider-agnostic request model and the construction-time checks of a
//! provider client.
//!
//! The network call itself is behind the [`LLMClient`] trait, implemented by
//! the caller; construction decides everything that must fail before any
//! network traffic: an unknown provider id and a missing API key.

use vstd::prelude::*;
use crate::config::LLMConfig;
use crate::error::DoumError;
use crate::provider::Provider;
use crate::secret::SecretPayload;
use crate::text::lower_spec;

verus! {

/// Who authored a message.
#[derive(Debug, Clone, Copy, PartialEq, Eq, Structural)]
pub enum LLMRole {
    User,
    Assistant,
}

/// One turn of the conversation.
#[derive(Debug, Clone)]
pub struct LLMMessage {
    pub role: LLMRole,
    pub content: String,
}

/// One request to a model provider: the system prompt and the conversation.
#[derive(Debug, Clone)]
pub struct LLMRequest {
    pub system: String,
    pub messages: Vec<LLMMessage>,
}

impl LLMMessage {
    /// A user message.
    pub fn user(content: &str) -> (r: LLMMessage)
        ensures
            r.role == LLMRole::User,
            r.content@ == content@,
    {
        LLMMessage { role: LLMRole::User, content: String::from_str(content) }
    }

    /// An assistant message.
    pub fn assistant(content: &str) -> (r: LLMMessage)
        ensures
            r.role == LLMRole::Assistant,
            r.content@ == content@,
    {
        LLMMessage { role: LLMRole::Assistant, content: String::from_str(content) }
    }
}

/// A remote model endpoint: turns a request into the model's raw text reply,
/// or an error.  What comes back is decided outside this crate; nothing is
/// assumed of it.
pub trait LLMClient {
    /// Produces the model's raw text reply for a request.
    fn generate(&self, request: &LLMRequest) -> Result<String, DoumError>;
}

/// Everything needed to talk to the OpenAI wire protocol.
#[derive(Debug, Clone)]
pub struct OpenAIConfig {
    pub model: String,
    pub api_key: String,
    pub organization: Option<String>,
    pub project: Option<String>,
}

/// Everything needed to talk to the Anthropic wire protocol.
#[derive(Debug, Clone)]
pub struct AnthropicConfig {
    pub model: String,
    pub api_key: String,
}

/// A validated provider client plan: which wire protocol to speak and with
/// what credentials.  The caller attaches the HTTP machinery.
#[derive(Debug, Clone)]
pub enum Client {
    OpenAI(OpenAIConfig),
    Anthropic(AnthropicConfig),
}

/// The text of an optional string.
pub open spec fn opt_text(v: Option<String>) -> Option<Seq<char>> {
    match v {
        Some(s) => Some(s@),
        None => None,
    }
}

/// The message reported when the configured API key is missing.
pub open spec fn missing_key_msg(p: Provider) -> Seq<char> {
    match p {
        Provider::OpenAI
            => "OpenAI API key is not set. Please configure it in the interactive config menu (doum config)."@,
        Provider::Anthropic
            => "Anthropic API key is not set. Please configure it in the interactive config menu (doum config)."@,
    }
}

/// Whether construction can succeed: a known provider id, a secret of the
/// same provider, and a non-empty API key.
pub open spec fn create_ok_spec(config: LLMConfig, secret: SecretPayload) -> bool {
    ||| (lower_spec(config.provider@) == Provider::OpenAI.id_spec() && (secret matches
        SecretPayload::OpenAI(sec) && sec.api_key@.len() > 0))
    ||| (lower_spec(config.provider@) == Provider::Anthropic.id_spec() && (secret matches
        SecretPayload::Anthropic(sec) && sec.api_key@.len() > 0))
}

/// Builds the client plan for a configuration and its stored secrets.
/// Construction fails, before any network use, exactly when the provider id
/// is unknown, the stored secret belongs to another provider, or the API key
/// is empty.
pub fn create_client(config: &LLMConfig, secret: &SecretPayload) -> (r: Result<Client, DoumError>)
    ensures
        r is Ok <==> create_ok_spec(*config, *secret),
        (match r {
            Ok(c) => {
                &&& (match c {
                    Client::OpenAI(oc) => {
                        &&& lower_spec(config.provider@) == Provider::OpenAI.id_spec()
                        &&& secret matches SecretPayload::OpenAI(sec) && oc.api_key@ == sec.api_key@
                            && opt_text(oc.organization) == opt_text(sec.organization)
                            && opt_text(oc.project) == opt_text(sec.project)
                        &&& oc.model@ == config.model@
                        &&& oc.api_key@.len() > 0
                    },
                    Client::Anthropic(ac) => {
                        &&& lower_spec(config.provider@) == Provider::Anthropic.id_spec()
                        &&& secret matches SecretPayload::Anthropic(sec) && ac.api_key@
                            == sec.api_key@
                        &&& ac.model@ == config.model@
                        &&& ac.api_key@.len() > 0
                    },
                })
            },
            Err(e) => {
                &&& e matches DoumError::Config(m) && (if lower_spec(config.provider@)
                    != Provider::OpenAI.id_spec() && lower_spec(config.provider@)
                    != Provider::Anthropic.id_spec() {
                    m@ == "Unknown provider: "@ + config.provider@
                        + ". Available: openai, anthropic"@
                } else if lower_spec(config.provider@) == Provider::OpenAI.id_spec() {
                    match secret {
                        SecretPayload::OpenAI(sec) => sec.api_key@.len() == 0 && m@
                            == missing_key_msg(Provider::OpenAI),
                        _ => m@ == "Stored secret does not match the configured provider"@,
                    }
                } else {
                    match secret {
                        SecretPayload::Anthropic(sec) => sec.api_key@.len() == 0 && m@
                            == missing_key_msg(Provider::Anthropic),
                        _ => m@ == "Stored secret does not match the configured provider"@,
                    }
                })
            },
        }),
{
    proof {
        reveal_strlit("openai");
        reveal_strlit("anthropic");
        assert("openai"@.len() == 6);
        assert("anthropic"@.len() == 9);
    }
    let provider = match Provider::from_name(config.provider.as_str()) {
        Ok(p) => p,
        Err(e) => {
            return Err(e);
        },
    };
    match provider {
        Provider::OpenAI => {
            match secret {
                SecretPayload::OpenAI(sec) => {
                    if sec.api_key.as_str().unicode_len() == 0 {
                        proof {
                            assert(lower_spec(config.provider@) == Provider::OpenAI.id_spec());
                        }
                        Err(
                            DoumError::Config(
                                String::from_str(
                                    "OpenAI API key is not set. Please configure it in the interactive config menu (doum config).",
                                ),
                            ),
                        )
                    } else {
                        Ok(
                            Client::OpenAI(
                                OpenAIConfig {
                                    model: String::from_str(config.model.as_str()),
                                    api_key: String::from_str(sec.api_key.as_str()),
                                    organization: clone_opt(&sec.organization),
                                    project: clone_opt(&sec.project),
                                },
                            ),
                        )
                    }
                },
                _ => Err(
                    DoumError::Config(
                        String::from_str("Stored secret does not match the configured provider"),
                    ),
                ),
            }
        },
        Provider::Anthropic => {
            match secret {
                SecretPayload::Anthropic(sec) => {
                    if sec.api_key.as_str().unicode_len() == 0 {
                        Err(
                            DoumError::Config(
                                String::from_str(
                                    "Anthropic API key is not set. Please configure it in the interactive config menu (doum config).",
                                ),
                            ),
                        )
                    } else {
                        Ok(
                            Client::Anthropic(
                                AnthropicConfig {
                                    model: String::from_str(config.model.as_str()),
                                    api_key: String::from_str(sec.api_key.as_str()),
                                },
                            ),
                        )
                    }
                },
                _ => Err(
                    DoumError::Config(
                        String::from_str("Stored secret does not match the configured provider"),
                    ),
                ),
            }
        },
    }
}

/// A copy of an optional string with the same text.
fn clone_opt(v: &Option<String>) -> (r: Option<String>)
    ensures
        opt_text(r) == opt_text(*v),
{
    match v {
        Some(s) => Some(s.clone()),
        None => None,
    }
}

} // verus!
