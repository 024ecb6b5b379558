//! Switching the configured provider and model.

use vstd::prelude::*;
use crate::config::{Config, LLMConfig};
use crate::error::DoumError;
use crate::provider::Provider;

verus! {

/// One selectable provider/model combination.
#[derive(Debug, Clone, PartialEq, Eq)]
pub struct ProviderModelOption {
    pub provider: String,
    pub model_id: String,
    pub display_name: String,
    pub description: String,
}

/// Whether `o` carries exactly the given fields.
pub open spec fn option_is(
    o: ProviderModelOption,
    provider: Seq<char>,
    model_id: Seq<char>,
    display_name: Seq<char>,
    desc: Seq<char>,
) -> bool {
    o.provider@ == provider && o.model_id@ == model_id && o.display_name@ == display_name
        && o.description@ == desc
}

/// A new option entry.
fn option_entry(provider: &str, model_id: &str, display_name: &str, description: &str) -> (r:
    ProviderModelOption)
    ensures
        option_is(r, provider@, model_id@, display_name@, description@),
{
    ProviderModelOption {
        provider: String::from_str(provider),
        model_id: String::from_str(model_id),
        display_name: String::from_str(display_name),
        description: String::from_str(description),
    }
}

/// Every selectable provider/model combination, in presentation order: each
/// provider's presets followed by a custom entry for a hand-typed model.
pub fn get_all_options() -> (r: Vec<ProviderModelOption>)
    ensures
        r@.len() == 6,
        option_is(
            r@[0],
            "openai"@,
            "gpt-5"@,
            "OPENAI - GPT-5"@,
            "Flagship general-purpose model"@,
        ),
        option_is(r@[1], "openai"@, "gpt-4o"@, "OPENAI - GPT-4o"@, "Fast multimodal model"@),
        option_is(r@[2], "openai"@, "custom"@, "OPENAI - Custom"@, "Enter model name manually"@),
        option_is(
            r@[3],
            "anthropic"@,
            "anthropic-sonnet-latest"@,
            "ANTHROPIC - Sonnet (latest)"@,
            "Balanced intelligence and speed"@,
        ),
        option_is(
            r@[4],
            "anthropic"@,
            "anthropic-opus-legacy"@,
            "ANTHROPIC - Opus (legacy)"@,
            "Most capable legacy model"@,
        ),
        option_is(
            r@[5],
            "anthropic"@,
            "custom"@,
            "ANTHROPIC - Custom"@,
            "Enter model name manually"@,
        ),
{
    let mut options: Vec<ProviderModelOption> = Vec::new();
    options.push(
        option_entry("openai", "gpt-5", "OPENAI - GPT-5", "Flagship general-purpose model"),
    );
    options.push(option_entry("openai", "gpt-4o", "OPENAI - GPT-4o", "Fast multimodal model"));
    options.push(option_entry("openai", "custom", "OPENAI - Custom", "Enter model name manually"));
    options.push(
        option_entry(
            "anthropic",
            "anthropic-sonnet-latest",
            "ANTHROPIC - Sonnet (latest)",
            "Balanced intelligence and speed",
        ),
    );
    options.push(
        option_entry(
            "anthropic",
            "anthropic-opus-legacy",
            "ANTHROPIC - Opus (legacy)",
            "Most capable legacy model",
        ),
    );
    options.push(
        option_entry("anthropic", "custom", "ANTHROPIC - Custom", "Enter model name manually"),
    );
    options
}

/// Switches the configuration to the given provider and model; nothing else
/// changes.
pub fn switch_to(config: &mut Config, provider: &Provider, model: &str) -> (r: Result<
    (),
    DoumError,
>)
    ensures
        r is Ok,
        final(config).llm.provider@ == provider.id_spec(),
        final(config).llm.model@ == model@,
        *final(config) == (Config {
            llm: (LLMConfig {
                provider: final(config).llm.provider,
                model: final(config).llm.model,
                ..old(config).llm
            }),
            ..*old(config)
        }),
{
    config.llm.provider = String::from_str(provider.as_str());
    config.llm.model = String::from_str(model);
    Ok(())
}

} // verus!
