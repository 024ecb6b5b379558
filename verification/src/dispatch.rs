//! The Ask / Suggest / Auto mode state machine.
//!
//! Auto is never a terminal state: a classification request is sent through
//! the retry orchestrator, the returned mode string is routed, and the Ask
//! or Suggest handler runs with the original input.  What happens to an
//! unrecognised mode string is an explicit policy, not a guess.
//!
//! Each handler returns, beside its result, a ghost witness of the request
//! it sent (and, for the retried modes, of the attempt outcomes), so a
//! caller sees which prompt was used and which run of events produced the
//! result.

use vstd::prelude::*;
use crate::client::{LLMClient, LLMMessage, LLMRequest, LLMRole};
use crate::config::Config;
use crate::error::DoumError;
use crate::parser::{
    self, AutoResponse, SuggestResponse, parse_auto_spec, parse_suggest_spec, suggestions_view,
};
use crate::prompt::{
    self, PromptTemplates, ask_prompt_spec, mode_select_prompt_spec, suggest_prompt_spec,
};
use crate::retry::{self, RetryEvent, event_error, lemma_retry_exhaustion, retry_model};
use crate::system_info::SystemInfo;
use crate::text;

verus! {

/// A mode the dispatcher can actually run.
#[derive(Debug, Clone, Copy, PartialEq, Eq, Structural)]
pub enum ResolvedMode {
    Ask,
    Suggest,
}

/// What to do when the model names a mode the dispatcher does not know.
#[derive(Debug, Clone, Copy, PartialEq, Eq, Structural)]
pub enum UnknownModePolicy {
    /// Route unknown modes to Ask.
    FallbackToAsk,
    /// Treat an unknown mode as a hard error.
    Fail,
}

/// The routing table: `ask` runs Ask; `suggest` and `execute` run Suggest;
/// anything else is decided by the policy.
pub open spec fn route_spec(mode: Seq<char>, policy: UnknownModePolicy) -> Option<ResolvedMode> {
    if mode == "ask"@ {
        Some(ResolvedMode::Ask)
    } else if mode == "suggest"@ || mode == "execute"@ {
        Some(ResolvedMode::Suggest)
    } else {
        match policy {
            UnknownModePolicy::FallbackToAsk => Some(ResolvedMode::Ask),
            UnknownModePolicy::Fail => None,
        }
    }
}

/// Routes a mode string to the handler that will run, exactly as the
/// routing table says; under the `Fail` policy an unknown mode is a
/// reported error, never a silent success.
pub fn route_mode(mode: &str, policy: UnknownModePolicy) -> (r: Result<ResolvedMode, DoumError>)
    ensures
        (match r {
            Ok(m) => route_spec(mode@, policy) == Some(m),
            Err(e) => {
                &&& route_spec(mode@, policy) is None
                &&& e matches DoumError::Parse(m) && m@ == "Unknown mode: "@ + mode@
            },
        }),
{
    if text::str_eq(mode, "ask") {
        Ok(ResolvedMode::Ask)
    } else if text::str_eq(mode, "suggest") || text::str_eq(mode, "execute") {
        Ok(ResolvedMode::Suggest)
    } else {
        match policy {
            UnknownModePolicy::FallbackToAsk => Ok(ResolvedMode::Ask),
            UnknownModePolicy::Fail => {
                let mut m = String::from_str("Unknown mode: ");
                m.append(mode);
                Err(DoumError::Parse(m))
            },
        }
    }
}

/// Whether `req` is the request a handler sends: the given system prompt
/// and exactly one user message carrying the input.
pub open spec fn request_is(req: LLMRequest, system: Seq<char>, input: Seq<char>) -> bool {
    &&& req.system@ == system
    &&& req.messages@.len() == 1
    &&& req.messages@[0].role == LLMRole::User
    &&& req.messages@[0].content@ == input
}

/// Answers a question in Ask mode: one provider call, no retry, the raw
/// reply handed on verbatim.  The asymmetry with the structured modes is
/// intentional: retry exists to recover from malformed structured output,
/// which free text cannot have.  The ghost result is the request that was
/// sent: the ask prompt and one user message with the question.
pub fn handle_ask<C: LLMClient>(
    question: &str,
    client: &C,
    system_info: &SystemInfo,
    templates: &PromptTemplates,
) -> (r: (Result<String, DoumError>, Ghost<LLMRequest>))
    ensures
        request_is(r.1@, ask_prompt_spec(*templates, *system_info), question@),
{
    let mut messages: Vec<LLMMessage> = Vec::new();
    messages.push(LLMMessage::user(question));
    let request = LLMRequest {
        system: prompt::build_ask_prompt(templates, system_info),
        messages,
    };
    let ghost sent = request;
    let result = client.generate(&request);
    (result, Ghost(sent))
}

/// Classifies the input in Auto mode through the retry orchestrator.  The
/// ghost result is the request that was sent — the mode-select prompt and
/// one user message with the input — and the attempt outcomes: at most
/// `max_retries` of them, only the last parsed, the result their exact
/// replay, an error surfacing the final failure verbatim, and a returned
/// selection always one actually parsed from a model reply.
pub fn select_mode<C: LLMClient>(
    input: &str,
    client: &C,
    system_info: &SystemInfo,
    config: &Config,
    templates: &PromptTemplates,
) -> (r: (Result<AutoResponse, DoumError>, Ghost<(LLMRequest, Seq<RetryEvent<AutoResponse>>)>))
    requires
        config.llm.max_retries >= 1,
    ensures
        ({
            let req = r.1@.0;
            let events = r.1@.1;
            &&& request_is(req, mode_select_prompt_spec(*templates, *system_info), input@)
            &&& 1 <= events.len() <= config.llm.max_retries
            &&& forall|i: int| 0 <= i < events.len() - 1 ==> !((#[trigger] events[i]) is Parsed)
            &&& r.0 == retry_model(events)
            &&& (r.0 is Err ==> events.len() == config.llm.max_retries && !(events.last()
                is Parsed) && r.0 == Err::<AutoResponse, DoumError>(event_error(events.last())))
            &&& (r.0 matches Ok(a) ==> exists|s: Seq<char>|
                #[trigger] parse_auto_spec(s) == Some((a.mode@, a.reason@)))
        }),
{
    let mut messages: Vec<LLMMessage> = Vec::new();
    messages.push(LLMMessage::user(input));
    let request = LLMRequest {
        system: prompt::build_mode_select_prompt(templates, system_info),
        messages,
    };
    let ghost sent = request;
    let parse = |resp: String| -> (res: Result<AutoResponse, DoumError>)
        ensures
            res matches Ok(a) ==> parse_auto_spec(resp@) == Some((a.mode@, a.reason@)),
        { parser::parse_auto_mode(resp.as_str()) };
    let pair = retry::retry_with_parse(client, &request, parse, config.llm.max_retries);
    let res = pair.0;
    let ghost events = pair.1@;
    proof {
        if res is Err {
            lemma_retry_exhaustion::<AutoResponse>(events);
        }
    }
    (res, Ghost((sent, events)))
}

/// Produces command suggestions in Suggest mode through the retry
/// orchestrator; presenting and running a choice is the caller's concern.
/// The ghost result is the request that was sent — the suggest prompt and
/// one user message with the input — and the attempt outcomes, with the
/// same replay and final-failure clauses as mode selection; a returned list
/// (possibly empty) is always one actually parsed from a model reply.
pub fn handle_suggest<C: LLMClient>(
    request_text: &str,
    client: &C,
    system_info: &SystemInfo,
    config: &Config,
    templates: &PromptTemplates,
) -> (r: (
    Result<SuggestResponse, DoumError>,
    Ghost<(LLMRequest, Seq<RetryEvent<SuggestResponse>>)>,
))
    requires
        config.llm.max_retries >= 1,
    ensures
        ({
            let req = r.1@.0;
            let events = r.1@.1;
            &&& request_is(req, suggest_prompt_spec(*templates, *system_info), request_text@)
            &&& 1 <= events.len() <= config.llm.max_retries
            &&& forall|i: int| 0 <= i < events.len() - 1 ==> !((#[trigger] events[i]) is Parsed)
            &&& r.0 == retry_model(events)
            &&& (r.0 is Err ==> events.len() == config.llm.max_retries && !(events.last()
                is Parsed) && r.0 == Err::<SuggestResponse, DoumError>(
                event_error(events.last()),
            ))
            &&& (r.0 matches Ok(resp) ==> exists|s: Seq<char>|
                #[trigger] parse_suggest_spec(s) == Some(suggestions_view(resp.suggestions@)))
        }),
{
    let mut messages: Vec<LLMMessage> = Vec::new();
    messages.push(LLMMessage::user(request_text));
    let request = LLMRequest {
        system: prompt::build_suggest_prompt(templates, system_info),
        messages,
    };
    let ghost sent = request;
    let parse = |resp: String| -> (res: Result<SuggestResponse, DoumError>)
        ensures
            res matches Ok(sr) ==> parse_suggest_spec(resp@) == Some(
                suggestions_view(sr.suggestions@),
            ),
        { parser::parse_suggest(resp.as_str()) };
    let pair = retry::retry_with_parse(client, &request, parse, config.llm.max_retries);
    let res = pair.0;
    let ghost events = pair.1@;
    proof {
        if res is Err {
            lemma_retry_exhaustion::<SuggestResponse>(events);
        }
    }
    (res, Ghost((sent, events)))
}

/// What running Auto mode produced: an answer, or suggestions to choose
/// from.
#[derive(Debug)]
pub enum AutoOutcome {
    Ask(String),
    Suggest(SuggestResponse),
}

/// Runs Auto mode end to end: classify the input, route the returned mode
/// under the given policy, and run the chosen handler on the original
/// input.  The outcome's variant always agrees with the routing table on a
/// mode string parsed from a model reply.
pub fn handle_auto<C: LLMClient>(
    input: &str,
    client: &C,
    system_info: &SystemInfo,
    config: &Config,
    templates: &PromptTemplates,
    policy: UnknownModePolicy,
) -> (r: Result<AutoOutcome, DoumError>)
    requires
        config.llm.max_retries >= 1,
    ensures
        r matches Ok(out) ==> exists|s: Seq<char>|
            (#[trigger] parse_auto_spec(s) matches Some(sel) && route_spec(sel.0, policy) == Some(
                match out {
                    AutoOutcome::Ask(_) => ResolvedMode::Ask,
                    AutoOutcome::Suggest(_) => ResolvedMode::Suggest,
                },
            )),
{
    let selection = match select_mode(input, client, system_info, config, templates).0 {
        Ok(a) => a,
        Err(e) => {
            return Err(e);
        },
    };
    let mode = match route_mode(selection.mode.as_str(), policy) {
        Ok(m) => m,
        Err(e) => {
            return Err(e);
        },
    };
    match mode {
        ResolvedMode::Ask => {
            match handle_ask(input, client, system_info, templates).0 {
                Ok(answer) => Ok(AutoOutcome::Ask(answer)),
                Err(e) => Err(e),
            }
        },
        ResolvedMode::Suggest => {
            match handle_suggest(input, client, system_info, config, templates).0 {
                Ok(resp) => Ok(AutoOutcome::Suggest(resp)),
                Err(e) => Err(e),
            }
        },
    }
}

} // verus!
