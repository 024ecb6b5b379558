//! The built-in model presets offered for each provider.

use vstd::prelude::*;
use crate::provider::Provider;

verus! {

/// One selectable model of a provider.
#[derive(Debug, Clone)]
pub struct ModelInfo {
    pub id: String,
    pub name: String,
    pub description: String,
}

/// Whether `m` carries exactly the given id, name and description.
pub open spec fn model_is(m: ModelInfo, id: Seq<char>, name: Seq<char>, desc: Seq<char>) -> bool {
    m.id@ == id && m.name@ == name && m.description@ == desc
}

/// A new preset entry.
fn model(id: &str, name: &str, description: &str) -> (r: ModelInfo)
    ensures
        model_is(r, id@, name@, description@),
{
    ModelInfo {
        id: String::from_str(id),
        name: String::from_str(name),
        description: String::from_str(description),
    }
}

/// The built-in model presets for a provider, in presentation order.
pub fn load_presets(provider: &Provider) -> (r: Vec<ModelInfo>)
    ensures
        (match *provider {
            Provider::OpenAI => {
                &&& r@.len() == 2
                &&& model_is(r@[0], "gpt-5"@, "GPT-5"@, "Flagship general-purpose model"@)
                &&& model_is(r@[1], "gpt-4o"@, "GPT-4o"@, "Fast multimodal model"@)
            },
            Provider::Anthropic => {
                &&& r@.len() == 2
                &&& model_is(
                    r@[0],
                    "anthropic-sonnet-latest"@,
                    "Sonnet (latest)"@,
                    "Balanced intelligence and speed"@,
                )
                &&& model_is(
                    r@[1],
                    "anthropic-opus-legacy"@,
                    "Opus (legacy)"@,
                    "Most capable legacy model"@,
                )
            },
        }),
{
    let mut v: Vec<ModelInfo> = Vec::new();
    match provider {
        Provider::OpenAI => {
            v.push(model("gpt-5", "GPT-5", "Flagship general-purpose model"));
            v.push(model("gpt-4o", "GPT-4o", "Fast multimodal model"));
        },
        Provider::Anthropic => {
            v.push(
                model(
                    "anthropic-sonnet-latest",
                    "Sonnet (latest)",
                    "Balanced intelligence and speed",
                ),
            );
            v.push(model("anthropic-opus-legacy", "Opus (legacy)", "Most capable legacy model"));
        },
    }
    v
}

} // verus!
