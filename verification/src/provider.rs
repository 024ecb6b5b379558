//! The closed set of remote model providers the assistant can talk to.

use vstd::prelude::*;

verus! {

/// A remote model provider, selected once at startup by its configured id.
#[derive(Clone, Copy, Debug, PartialEq, Eq, Structural)]
pub enum Provider {
    OpenAI,
    Anthropic,
}

impl Provider {
    /// The lower-case id used in configuration and on the wire.
    pub fn as_str(&self) -> (r: &'static str)
        ensures
            r@ == self.id_spec(),
    {
        proof {
            reveal_strlit("openai");
            reveal_strlit("anthropic");
        }
        match self {
            Provider::OpenAI => "openai",
            Provider::Anthropic => "anthropic",
        }
    }

    /// The capitalised name shown to the user.
    pub fn as_display(&self) -> (r: String)
        ensures
            r@ == self.display_spec(),
    {
        proof {
            reveal_strlit("OpenAI");
            reveal_strlit("Anthropic");
        }
        match self {
            Provider::OpenAI => String::from_str("OpenAI"),
            Provider::Anthropic => String::from_str("Anthropic"),
        }
    }

    /// Every provider, in presentation order.
    pub fn all() -> (r: Vec<Provider>)
        ensures
            r@ == seq![Provider::OpenAI, Provider::Anthropic],
    {
        let mut v: Vec<Provider> = Vec::new();
        v.push(Provider::OpenAI);
        v.push(Provider::Anthropic);
        proof {
            assert(v@ =~= seq![Provider::OpenAI, Provider::Anthropic]);
        }
        v
    }

    /// The ids of every provider, in presentation order.
    pub fn all_as_str() -> (r: Vec<String>)
        ensures
            r@.len() == 2,
            r@[0]@ == Provider::OpenAI.id_spec(),
            r@[1]@ == Provider::Anthropic.id_spec(),
    {
        let mut v: Vec<String> = Vec::new();
        v.push(String::from_str(Provider::OpenAI.as_str()));
        v.push(String::from_str(Provider::Anthropic.as_str()));
        v
    }

    /// The id of this provider, as a mathematical character sequence.
    pub open spec fn id_spec(self) -> Seq<char> {
        match self {
            Provider::OpenAI => "openai"@,
            Provider::Anthropic => "anthropic"@,
        }
    }

    /// The display name of this provider, as a mathematical character sequence.
    pub open spec fn display_spec(self) -> Seq<char> {
        match self {
            Provider::OpenAI => "OpenAI"@,
            Provider::Anthropic => "Anthropic"@,
        }
    }

    /// The provider named by an id, compared case-insensitively; an unknown
    /// id is rejected with the list of known ones.
    pub fn from_name(s: &str) -> (r: Result<Provider, crate::error::DoumError>)
        ensures
            (match r {
                Ok(p) => crate::text::lower_spec(s@) == p.id_spec(),
                Err(e) => {
                    &&& crate::text::lower_spec(s@) != Provider::OpenAI.id_spec()
                    &&& crate::text::lower_spec(s@) != Provider::Anthropic.id_spec()
                    &&& e matches crate::error::DoumError::Config(m) && m@ == "Unknown provider: "@
                        + s@ + ". Available: openai, anthropic"@
                },
            }),
    {
        let chars = crate::text::str_to_chars(s);
        let lower = crate::text::lower_chars(&chars);
        let lowered = crate::text::chars_to_string(&lower);
        if crate::text::str_eq(lowered.as_str(), "openai") {
            Ok(Provider::OpenAI)
        } else if crate::text::str_eq(lowered.as_str(), "anthropic") {
            Ok(Provider::Anthropic)
        } else {
            let mut m = String::from_str("Unknown provider: ");
            m.append(s);
            m.append(". Available: openai, anthropic");
            proof {
                assert(m@ =~= "Unknown provider: "@ + s@ + ". Available: openai, anthropic"@);
            }
            Err(crate::error::DoumError::Config(m))
        }
    }
}

} // verus!
