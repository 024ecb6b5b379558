//! Provider credentials: validation, masking for display, and assembling
//! them from collected input fields.
//!
//! Storing and loading the secrets themselves (a system keyring) is a caller
//! concern; the values pass through here only as plain text.

use vstd::prelude::*;
use crate::error::DoumError;
use crate::provider::Provider;
use crate::text;

verus! {

/// A provider-specific secret: it can say whether it is complete and show a
/// masked form of itself.
pub trait ProviderSecret {
    /// Whether the secret is complete enough to save.
    spec fn valid_spec(&self) -> bool;

    /// The masked text shown for this secret.
    spec fn masked_spec(&self) -> Seq<char>;

    /// Checks the secret before it is saved.
    fn validate(&self) -> (r: Result<(), DoumError>)
        ensures
            r is Ok <==> self.valid_spec(),
            r matches Err(e) ==> e matches DoumError::Config(m) && m@
                == "API key cannot be empty"@,
    ;

    /// The masked form for display.
    fn masked(&self) -> (r: String)
        ensures
            r@ == self.masked_spec(),
    ;
}

/// The OpenAI credentials.
#[derive(Debug, Clone)]
pub struct OpenAISecret {
    pub api_key: String,
    pub organization: Option<String>,
    pub project: Option<String>,
}

/// The Anthropic credentials.
#[derive(Debug, Clone)]
pub struct AnthropicSecret {
    pub api_key: String,
}

/// A key masked as its first `head` and last 4 characters around an
/// ellipsis when longer than `min_len` characters, `***` otherwise.
pub open spec fn masked_key(key: Seq<char>, min_len: int, head: int) -> Seq<char> {
    if key.len() > min_len {
        key.subrange(0, head) + "..."@ + key.subrange(key.len() - 4, key.len() as int)
    } else {
        "***"@
    }
}

/// The error reported for an empty API key.
fn empty_key_error() -> (r: DoumError)
    ensures
        r matches DoumError::Config(m) && m@ == "API key cannot be empty"@,
{
    DoumError::Config(String::from_str("API key cannot be empty"))
}

/// Masks a key: its first `head` and last 4 characters around an ellipsis
/// when longer than `min_len` characters, `***` otherwise.
fn mask_key(key: &str, min_len: usize, head: usize) -> (r: String)
    requires
        head + 4 <= min_len + 1,
    ensures
        r@ == masked_key(key@, min_len as int, head as int),
{
    let chars = text::str_to_chars(key);
    if chars.len() > min_len {
        let front = text::subvec(&chars, 0, head);
        let mut s = text::chars_to_string(&front);
        s.append("...");
        let back = text::subvec(&chars, chars.len() - 4, chars.len());
        let tail = text::chars_to_string(&back);
        s.append(tail.as_str());
        proof {
            assert(s@ =~= masked_key(key@, min_len as int, head as int));
        }
        s
    } else {
        String::from_str("***")
    }
}

impl ProviderSecret for OpenAISecret {
    open spec fn valid_spec(&self) -> bool {
        self.api_key@.len() > 0
    }

    open spec fn masked_spec(&self) -> Seq<char> {
        masked_key(self.api_key@, 10, 7)
    }

    fn validate(&self) -> (r: Result<(), DoumError>) {
        if self.api_key.as_str().unicode_len() == 0 {
            Err(empty_key_error())
        } else {
            Ok(())
        }
    }

    fn masked(&self) -> (r: String) {
        mask_key(self.api_key.as_str(), 10, 7)
    }
}

impl ProviderSecret for AnthropicSecret {
    open spec fn valid_spec(&self) -> bool {
        self.api_key@.len() > 0
    }

    open spec fn masked_spec(&self) -> Seq<char> {
        masked_key(self.api_key@, 14, 10)
    }

    fn validate(&self) -> (r: Result<(), DoumError>) {
        if self.api_key.as_str().unicode_len() == 0 {
            Err(empty_key_error())
        } else {
            Ok(())
        }
    }

    fn masked(&self) -> (r: String) {
        mask_key(self.api_key.as_str(), 14, 10)
    }
}

/// One input field a caller must collect for a provider's secrets.
#[derive(Debug, Clone)]
pub struct SecretField {
    pub name: String,
    pub label: String,
    pub required: bool,
    pub is_password: bool,
}

/// Whether a field carries exactly the given description.
pub open spec fn field_is(
    f: SecretField,
    name: Seq<char>,
    label: Seq<char>,
    required: bool,
    is_password: bool,
) -> bool {
    f.name@ == name && f.label@ == label && f.required == required && f.is_password == is_password
}

/// The input fields to collect for one provider.
#[derive(Debug, Clone)]
pub struct SecretConfigData {
    pub provider: String,
    pub fields: Vec<SecretField>,
}

impl SecretField {
    /// A new field description.
    fn new(name: &str, label: &str, required: bool, is_password: bool) -> (r: SecretField)
        ensures
            field_is(r, name@, label@, required, is_password),
    {
        SecretField {
            name: String::from_str(name),
            label: String::from_str(label),
            required,
            is_password,
        }
    }
}

/// The fields a caller must collect for a provider: OpenAI wants the API key
/// and the optional organization and project ids; Anthropic only the key.
pub fn get_provider_config(provider: &Provider) -> (r: Result<SecretConfigData, DoumError>)
    ensures
        (match r {
            Ok(data) => {
                &&& data.provider@ == provider.id_spec()
                &&& (match *provider {
                    Provider::OpenAI => {
                        &&& data.fields@.len() == 3
                        &&& field_is(
                            data.fields@[0],
                            "api_key"@,
                            "OpenAI API Key (required)"@,
                            true,
                            true,
                        )
                        &&& field_is(
                            data.fields@[1],
                            "organization"@,
                            "Organization ID (optional, press Enter to skip)"@,
                            false,
                            false,
                        )
                        &&& field_is(
                            data.fields@[2],
                            "project"@,
                            "Project ID (optional, press Enter to skip)"@,
                            false,
                            false,
                        )
                    },
                    Provider::Anthropic => {
                        &&& data.fields@.len() == 1
                        &&& field_is(
                            data.fields@[0],
                            "api_key"@,
                            "Anthropic API Key (required)"@,
                            true,
                            true,
                        )
                    },
                })
            },
            Err(_) => false,
        }),
{
    match provider {
        Provider::OpenAI => {
            let mut fields: Vec<SecretField> = Vec::new();
            fields.push(SecretField::new("api_key", "OpenAI API Key (required)", true, true));
            fields.push(
                SecretField::new(
                    "organization",
                    "Organization ID (optional, press Enter to skip)",
                    false,
                    false,
                ),
            );
            fields.push(
                SecretField::new("project", "Project ID (optional, press Enter to skip)", false, false),
            );
            Ok(SecretConfigData { provider: String::from_str(provider.as_str()), fields })
        },
        Provider::Anthropic => {
            let mut fields: Vec<SecretField> = Vec::new();
            fields.push(SecretField::new("api_key", "Anthropic API Key (required)", true, true));
            Ok(SecretConfigData { provider: String::from_str(provider.as_str()), fields })
        },
    }
}

/// The collected secrets of one provider, ready to be stored.
#[derive(Debug, Clone)]
pub enum SecretPayload {
    OpenAI(OpenAISecret),
    Anthropic(AnthropicSecret),
}

/// The text of collected `(name, value)` input pairs.
pub open spec fn kvs_view(ps: Seq<(String, String)>) -> Seq<(Seq<char>, Seq<char>)> {
    Seq::new(ps.len(), |k: int| (ps[k].0@, ps[k].1@))
}

/// The value of the first pair named `key`.
pub open spec fn kv_lookup(ps: Seq<(Seq<char>, Seq<char>)>, key: Seq<char>) -> Option<Seq<char>>
    decreases ps.len(),
{
    if ps.len() == 0 {
        None
    } else if ps[0].0 == key {
        Some(ps[0].1)
    } else {
        kv_lookup(ps.drop_first(), key)
    }
}

/// Finds the first value named `key` among collected input pairs.
fn kv_get(values: &Vec<(String, String)>, key: &str) -> (r: Option<String>)
    ensures
        (match r {
            Some(s) => kv_lookup(kvs_view(values@), key@) == Some(s@),
            None => kv_lookup(kvs_view(values@), key@) is None,
        }),
{
    let n = values.len();
    let mut i: usize = 0;
    proof {
        assert(kvs_view(values@).subrange(0, n as int) =~= kvs_view(values@));
    }
    while i < n
        invariant
            n == values@.len(),
            i <= n,
            kv_lookup(kvs_view(values@), key@) == kv_lookup(
                kvs_view(values@).subrange(i as int, n as int),
                key@,
            ),
        decreases n - i,
    {
        proof {
            assert(kvs_view(values@).subrange(i as int, n as int)[0] == kvs_view(values@)[i as int]);
            assert(kvs_view(values@).subrange(i as int, n as int).drop_first() =~= kvs_view(
                values@,
            ).subrange(i + 1, n as int));
        }
        if text::str_eq(values[i].0.as_str(), key) {
            return Some(values[i].1.clone());
        }
        i += 1;
    }
    proof {
        assert(kvs_view(values@).subrange(n as int, n as int) =~= Seq::<(Seq<char>, Seq<char>)>::empty());
    }
    None
}

/// Whether an optional secret field holds the collected value, with an empty
/// or absent input meaning no value.
pub open spec fn optional_field_is(field: Option<String>, looked: Option<Seq<char>>) -> bool {
    match looked {
        Some(v) => {
            if v.len() == 0 {
                field is None
            } else {
                field matches Some(s) && s@ == v
            }
        },
        None => field is None,
    }
}

/// Assembles a provider's secret from collected `(name, value)` pairs.
/// A missing `api_key` entry or an empty key is rejected; empty optional
/// entries are dropped.
pub fn save_secrets(provider: &Provider, values: &Vec<(String, String)>) -> (r: Result<
    SecretPayload,
    DoumError,
>)
    ensures
        (match r {
            Ok(payload) => {
                &&& (match payload {
                    SecretPayload::OpenAI(sec) => {
                        &&& *provider == Provider::OpenAI
                        &&& kv_lookup(kvs_view(values@), "api_key"@) == Some(sec.api_key@)
                        &&& sec.api_key@.len() > 0
                        &&& optional_field_is(
                            sec.organization,
                            kv_lookup(kvs_view(values@), "organization"@),
                        )
                        &&& optional_field_is(
                            sec.project,
                            kv_lookup(kvs_view(values@), "project"@),
                        )
                    },
                    SecretPayload::Anthropic(sec) => {
                        &&& *provider == Provider::Anthropic
                        &&& kv_lookup(kvs_view(values@), "api_key"@) == Some(sec.api_key@)
                        &&& sec.api_key@.len() > 0
                    },
                })
            },
            Err(e) => {
                &&& (match kv_lookup(kvs_view(values@), "api_key"@) {
                    Some(k) => k.len() == 0 && (e matches DoumError::Config(m) && m@
                        == "API key cannot be empty"@),
                    None => e matches DoumError::Config(m) && m@ == "API key is required"@,
                })
            },
        }),
{
    let api_key = match kv_get(values, "api_key") {
        Some(k) => k,
        None => {
            return Err(DoumError::Config(String::from_str("API key is required")));
        },
    };
    if api_key.as_str().unicode_len() == 0 {
        return Err(empty_key_error());
    }
    match provider {
        Provider::OpenAI => {
            let organization = match kv_get(values, "organization") {
                Some(v) => {
                    if v.as_str().unicode_len() == 0 {
                        None
                    } else {
                        Some(v)
                    }
                },
                None => None,
            };
            let project = match kv_get(values, "project") {
                Some(v) => {
                    if v.as_str().unicode_len() == 0 {
                        None
                    } else {
                        Some(v)
                    }
                },
                None => None,
            };
            Ok(SecretPayload::OpenAI(OpenAISecret { api_key, organization, project }))
        },
        Provider::Anthropic => Ok(SecretPayload::Anthropic(AnthropicSecret { api_key })),
    }
}

} // verus!
