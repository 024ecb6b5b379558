//! Builds the system prompt text for each mode from templates and the
//! detected machine context.
//!
//! A template may interpolate `{{os}}`, `{{shell}}`, `{{current_dir}}`,
//! `{{username}}` and `{{hostname}}`; the markers are replaced in that fixed
//! order.  A missing template degrades to an empty string for its section
//! rather than aborting; this is deliberate and observable.  The common
//! preamble and the mode-specific body are joined by a fixed separator.

use vstd::prelude::*;
use crate::system_info::{SystemInfo, os_str_spec, shell_str_spec};
use crate::text::{self, replace_all_spec};

verus! {

/// The prompt templates, one per section; `None` stands for a template that
/// could not be loaded and renders as an empty section.
#[derive(Debug, Clone)]
pub struct PromptTemplates {
    pub common: Option<String>,
    pub ask: Option<String>,
    pub suggest: Option<String>,
    pub mode_select: Option<String>,
}

/// The text of a template, an empty string when it is missing.
pub open spec fn tpl_text(t: Option<String>) -> Seq<char> {
    match t {
        Some(s) => s@,
        None => Seq::empty(),
    }
}

/// An optional value, or `unknown` where there is none.
pub open spec fn or_unknown_prompt(v: Option<String>) -> Seq<char> {
    match v {
        Some(s) => s@,
        None => "unknown"@,
    }
}

/// A template with the five context markers replaced, in fixed order.
pub open spec fn render_spec(tpl: Seq<char>, si: SystemInfo) -> Seq<char> {
    let s1 = replace_all_spec(tpl, "{{os}}"@, os_str_spec(si.os));
    let s2 = replace_all_spec(s1, "{{shell}}"@, shell_str_spec(si.shell));
    let s3 = replace_all_spec(s2, "{{current_dir}}"@, si.current_dir@);
    let s4 = replace_all_spec(s3, "{{username}}"@, or_unknown_prompt(si.username));
    replace_all_spec(s4, "{{hostname}}"@, or_unknown_prompt(si.hostname))
}

/// The separator between the common preamble and a mode-specific body.
pub open spec fn section_sep() -> Seq<char> {
    "\n\n---\n\n"@
}

/// The whole Ask-mode system prompt.
pub open spec fn ask_prompt_spec(templates: PromptTemplates, si: SystemInfo) -> Seq<char> {
    render_spec(tpl_text(templates.common), si) + section_sep() + tpl_text(templates.ask)
}

/// The whole Suggest-mode system prompt.
pub open spec fn suggest_prompt_spec(templates: PromptTemplates, si: SystemInfo) -> Seq<char> {
    render_spec(tpl_text(templates.common), si) + section_sep() + render_spec(
        tpl_text(templates.suggest),
        si,
    )
}

/// The whole mode-selection system prompt.
pub open spec fn mode_select_prompt_spec(templates: PromptTemplates, si: SystemInfo) -> Seq<
    char,
> {
    render_spec(tpl_text(templates.common), si) + section_sep() + tpl_text(templates.mode_select)
}

/// Builds prompts for one invocation from the templates and the detected
/// context.
#[derive(Debug, Clone)]
pub struct PromptBuilder {
    pub system_info: SystemInfo,
    pub templates: PromptTemplates,
}

impl PromptBuilder {
    /// A builder over the given context and templates.
    pub fn new(system_info: SystemInfo, templates: PromptTemplates) -> (r: PromptBuilder)
        ensures
            r.system_info == system_info,
            r.templates == templates,
    {
        PromptBuilder { system_info, templates }
    }

    /// The Ask-mode system prompt.
    pub fn build_ask(&self) -> (r: String)
        ensures
            r@ == ask_prompt_spec(self.templates, self.system_info),
    {
        build_ask_prompt(&self.templates, &self.system_info)
    }

    /// The Suggest-mode system prompt.
    pub fn build_suggest(&self) -> (r: String)
        ensures
            r@ == suggest_prompt_spec(self.templates, self.system_info),
    {
        build_suggest_prompt(&self.templates, &self.system_info)
    }

    /// The mode-selection system prompt.
    pub fn build_mode_select(&self) -> (r: String)
        ensures
            r@ == mode_select_prompt_spec(self.templates, self.system_info),
    {
        build_mode_select_prompt(&self.templates, &self.system_info)
    }
}

/// The rendered common preamble.
fn common_prompt(templates: &PromptTemplates, si: &SystemInfo) -> (r: String)
    ensures
        r@ == render_spec(tpl_text(templates.common), *si),
{
    let tpl = match &templates.common {
        Some(t) => String::from_str(t.as_str()),
        None => String::new(),
    };
    proof {
        assert(tpl@ =~= tpl_text(templates.common));
    }
    render(tpl.as_str(), si)
}

/// The Ask-mode system prompt: the rendered common preamble, the separator,
/// and the raw ask template.
pub fn build_ask_prompt(templates: &PromptTemplates, si: &SystemInfo) -> (r: String)
    ensures
        r@ == ask_prompt_spec(*templates, *si),
{
    let mut s = common_prompt(templates, si);
    s.append("\n\n---\n\n");
    match &templates.ask {
        Some(t) => s.append(t.as_str()),
        None => (),
    }
    proof {
        assert(s@ =~= ask_prompt_spec(*templates, *si));
    }
    s
}

/// The Suggest-mode system prompt: the rendered common preamble, the
/// separator, and the rendered suggest template.
pub fn build_suggest_prompt(templates: &PromptTemplates, si: &SystemInfo) -> (r: String)
    ensures
        r@ == suggest_prompt_spec(*templates, *si),
{
    let mut s = common_prompt(templates, si);
    s.append("\n\n---\n\n");
    let tpl = match &templates.suggest {
        Some(t) => String::from_str(t.as_str()),
        None => String::new(),
    };
    proof {
        assert(tpl@ =~= tpl_text(templates.suggest));
    }
    let body = render(tpl.as_str(), si);
    s.append(body.as_str());
    proof {
        assert(s@ =~= suggest_prompt_spec(*templates, *si));
    }
    s
}

/// The mode-selection system prompt: the rendered common preamble, the
/// separator, and the raw mode-select template.
pub fn build_mode_select_prompt(templates: &PromptTemplates, si: &SystemInfo) -> (r: String)
    ensures
        r@ == mode_select_prompt_spec(*templates, *si),
{
    let mut s = common_prompt(templates, si);
    s.append("\n\n---\n\n");
    match &templates.mode_select {
        Some(t) => s.append(t.as_str()),
        None => (),
    }
    proof {
        assert(s@ =~= mode_select_prompt_spec(*templates, *si));
    }
    s
}

/// Replaces the five context markers of a template, in fixed order.
pub fn render(tpl: &str, si: &SystemInfo) -> (r: String)
    ensures
        r@ == render_spec(tpl@, *si),
{
    let chars = text::str_to_chars(tpl);
    let pat_os = text::str_to_chars("{{os}}");
    let rep_os = text::str_to_chars(si.os.as_str());
    let s1 = text::replace_all(&chars, &pat_os, &rep_os);
    let pat_shell = text::str_to_chars("{{shell}}");
    let rep_shell = text::str_to_chars(si.shell.as_str());
    let s2 = text::replace_all(&s1, &pat_shell, &rep_shell);
    let pat_dir = text::str_to_chars("{{current_dir}}");
    let rep_dir = text::str_to_chars(si.current_dir.as_str());
    let s3 = text::replace_all(&s2, &pat_dir, &rep_dir);
    let pat_user = text::str_to_chars("{{username}}");
    let rep_user = match &si.username {
        Some(u) => text::str_to_chars(u.as_str()),
        None => text::str_to_chars("unknown"),
    };
    let s4 = text::replace_all(&s3, &pat_user, &rep_user);
    let pat_host = text::str_to_chars("{{hostname}}");
    let rep_host = match &si.hostname {
        Some(h) => text::str_to_chars(h.as_str()),
        None => text::str_to_chars("unknown"),
    };
    let s5 = text::replace_all(&s4, &pat_host, &rep_host);
    text::chars_to_string(&s5)
}

/// The built-in templates.
pub fn default_templates() -> (r: PromptTemplates)
    ensures
        r.common is Some,
        r.ask is Some,
        r.suggest is Some,
        r.mode_select is Some,
{
    PromptTemplates {
        common: Some(
            String::from_str(
                "You are a terminal assistant.\nOS: {{os}}\nShell: {{shell}}\nCurrent directory: {{current_dir}}\nUser: {{username}}\nHost: {{hostname}}",
            ),
        ),
        ask: Some(
            String::from_str(
                "Answer the user's question about their system clearly and concisely, in plain text.",
            ),
        ),
        suggest: Some(
            String::from_str(
                "Suggest shell commands for the user's request, for {{os}} with {{shell}}. Reply with JSON only, in the form {\"suggestions\":[{\"cmd\":\"<command>\",\"description\":\"<what it does>\"}]}. Reply with {\"suggestions\":[]} when nothing fits.",
            ),
        ),
        mode_select: Some(
            String::from_str(
                "Classify the user's input. Reply with JSON only, in the form {\"mode\":\"ask\"|\"suggest\",\"reason\":\"<why>\"}: \"ask\" for a question to answer in prose, \"suggest\" when the user wants a command to run.",
            ),
        ),
    }
}

} // verus!
