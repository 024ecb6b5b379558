//! The two provider wire formats: building the JSON request body and
//! reading the reply.
//!
//! Sending the bytes is a caller concern.  When a reply is read, the first
//! assistant-authored text block is the answer; its absence is a parse
//! failure, never a silent empty string.  A non-success reply carries a
//! provider error envelope that is read opportunistically, falling back to
//! the raw body.

use vstd::prelude::*;
use crate::client::{LLMMessage, LLMRequest, LLMRole};
use crate::error::DoumError;
use crate::json::{
    self, Jv, JsonValue, obj_lookup, parse_json_spec, quote_spec,
};
use crate::text::{self, dec_digits};

verus! {

/// The wire name of a message role.
pub open spec fn role_str(role: LLMRole) -> Seq<char> {
    match role {
        LLMRole::User => "user"@,
        LLMRole::Assistant => "assistant"@,
    }
}

/// The JSON object for one message.
pub open spec fn message_json(m: LLMMessage) -> Seq<char> {
    "{\"role\":"@ + quote_spec(role_str(m.role)) + ",\"content\":"@ + quote_spec(m.content@)
        + "}"@
}

/// The comma-joined JSON objects of a message list.
pub open spec fn messages_json(ms: Seq<LLMMessage>) -> Seq<char>
    decreases ms.len(),
{
    if ms.len() == 0 {
        Seq::empty()
    } else if ms.len() == 1 {
        message_json(ms[0])
    } else {
        messages_json(ms.drop_last()) + ","@ + message_json(ms.last())
    }
}

/// The OpenAI request body: model, instructions, the conversation, and the
/// web-search tool.
pub open spec fn openai_body_spec(model: Seq<char>, req: LLMRequest) -> Seq<char> {
    "{\"model\":"@ + quote_spec(model) + ",\"instructions\":"@ + quote_spec(req.system@)
        + ",\"input\":["@ + messages_json(req.messages@) + "],\"tools\":[{\"type\":\"web_search\"}]}"@
}

/// The Anthropic request body: model, system text, the conversation, and
/// the token ceiling.
pub open spec fn anthropic_body_spec(model: Seq<char>, req: LLMRequest) -> Seq<char> {
    "{\"model\":"@ + quote_spec(model) + ",\"system\":"@ + quote_spec(req.system@)
        + ",\"messages\":["@ + messages_json(req.messages@) + "],\"max_tokens\":4096}"@
}

/// Appends one message's JSON object to `out`.
fn message_json_into(out: &mut String, m: &LLMMessage)
    ensures
        final(out)@ == old(out)@ + message_json(*m),
{
    out.append("{\"role\":");
    match m.role {
        LLMRole::User => json::quote_into(out, "user"),
        LLMRole::Assistant => json::quote_into(out, "assistant"),
    }
    out.append(",\"content\":");
    json::quote_into(out, m.content.as_str());
    out.append("}");
    proof {
        assert(out@ =~= old(out)@ + message_json(*m));
    }
}

/// Appends the comma-joined message objects to `out`.
fn messages_json_into(out: &mut String, ms: &Vec<LLMMessage>)
    ensures
        final(out)@ == old(out)@ + messages_json(ms@),
{
    let n = ms.len();
    let mut i: usize = 0;
    proof {
        assert(out@ =~= old(out)@ + messages_json(ms@.subrange(0, 0)));
    }
    while i < n
        invariant
            n == ms@.len(),
            i <= n,
            out@ == old(out)@ + messages_json(ms@.subrange(0, i as int)),
        decreases n - i,
    {
        if i > 0 {
            out.append(",");
        }
        message_json_into(out, &ms[i]);
        proof {
            let pre = ms@.subrange(0, i as int);
            let now = ms@.subrange(0, i + 1);
            assert(now.drop_last() =~= pre);
            assert(now.last() == ms@[i as int]);
            assert(out@ =~= old(out)@ + messages_json(now));
        }
        i += 1;
    }
    proof {
        assert(ms@.subrange(0, n as int) =~= ms@);
    }
}

/// The OpenAI request body for a request.
pub fn openai_request_body(model: &str, req: &LLMRequest) -> (r: String)
    ensures
        r@ == openai_body_spec(model@, *req),
{
    let mut out = String::from_str("{\"model\":");
    json::quote_into(&mut out, model);
    out.append(",\"instructions\":");
    json::quote_into(&mut out, req.system.as_str());
    out.append(",\"input\":[");
    messages_json_into(&mut out, &req.messages);
    out.append("],\"tools\":[{\"type\":\"web_search\"}]}");
    proof {
        assert(out@ =~= openai_body_spec(model@, *req));
    }
    out
}

/// The Anthropic request body for a request.
pub fn anthropic_request_body(model: &str, req: &LLMRequest) -> (r: String)
    ensures
        r@ == anthropic_body_spec(model@, *req),
{
    let mut out = String::from_str("{\"model\":");
    json::quote_into(&mut out, model);
    out.append(",\"system\":");
    json::quote_into(&mut out, req.system.as_str());
    out.append(",\"messages\":[");
    messages_json_into(&mut out, &req.messages);
    out.append("],\"max_tokens\":4096}");
    proof {
        assert(out@ =~= anthropic_body_spec(model@, *req));
    }
    out
}

/// The first text block among OpenAI output items: items that are not
/// objects typed `message` are skipped; a `message` with an empty content
/// array is skipped; the first `message` with content must carry an object
/// with a string `text` field, else nothing is found.
pub open spec fn first_message_text(items: Seq<Jv>) -> Option<Seq<char>>
    decreases items.len(),
{
    if items.len() == 0 {
        None
    } else {
        match items[0] {
            Jv::Obj(ps) => {
                if obj_lookup(ps, "type"@) == Some(Jv::Str("message"@)) {
                    match obj_lookup(ps, "content"@) {
                        Some(Jv::Arr(citems)) => {
                            if citems.len() == 0 {
                                first_message_text(items.drop_first())
                            } else {
                                match citems[0] {
                                    Jv::Obj(cps) => match obj_lookup(cps, "text"@) {
                                        Some(Jv::Str(t)) => Some(t),
                                        _ => None,
                                    },
                                    _ => None,
                                }
                            }
                        },
                        _ => None,
                    }
                } else {
                    first_message_text(items.drop_first())
                }
            },
            _ => first_message_text(items.drop_first()),
        }
    }
}

/// The answer text inside a parsed OpenAI reply document.
pub open spec fn openai_text_spec(doc: Jv) -> Option<Seq<char>> {
    match doc {
        Jv::Obj(ps) => match obj_lookup(ps, "output"@) {
            Some(Jv::Arr(items)) => first_message_text(items),
            _ => None,
        },
        _ => None,
    }
}

/// The answer text inside a parsed Anthropic reply document: the `text` of
/// the first content block.
pub open spec fn anthropic_text_spec(doc: Jv) -> Option<Seq<char>> {
    match doc {
        Jv::Obj(ps) => match obj_lookup(ps, "content"@) {
            Some(Jv::Arr(citems)) => {
                if citems.len() == 0 {
                    None
                } else {
                    match citems[0] {
                        Jv::Obj(cps) => match obj_lookup(cps, "text"@) {
                            Some(Jv::Str(t)) => Some(t),
                            _ => None,
                        },
                        _ => None,
                    }
                }
            },
            _ => None,
        },
        _ => None,
    }
}

/// Extracts the first text block from an OpenAI reply body.  Fails with
/// `Parse` exactly when the body is not the expected JSON or holds no text
/// block.
pub fn extract_openai_text(body: &str) -> (r: Result<String, DoumError>)
    ensures
        (match r {
            Ok(t) => parse_json_spec(body@) matches Some(doc) && openai_text_spec(doc) == Some(
                t@,
            ),
            Err(e) => {
                &&& (match parse_json_spec(body@) {
                    Some(doc) => openai_text_spec(doc) is None && (e matches DoumError::Parse(m)
                        && m@ == "No content in OpenAI response"@),
                    None => e matches DoumError::Parse(m) && m@
                        == "Failed to parse OpenAI response"@,
                })
            },
        }),
{
    let doc = match json::parse_json(body) {
        Some(d) => d,
        None => {
            return Err(DoumError::Parse(String::from_str("Failed to parse OpenAI response")));
        },
    };
    let no_content = DoumError::Parse(String::from_str("No content in OpenAI response"));
    match doc {
        JsonValue::Obj(pairs) => {
            match json::obj_take(pairs, "output") {
                Some(JsonValue::Arr(items)) => {
                    let ghost orig_items = json::items_view(items@);
                    let mut rest = items;
                    proof {
                        assert(json::items_view(rest@) =~= orig_items);
                    }
                    while rest.len() > 0
                        invariant
                            parse_json_spec(body@) matches Some(doc) && openai_text_spec(doc)
                                == first_message_text(orig_items),
                            first_message_text(orig_items) == first_message_text(
                                json::items_view(rest@),
                            ),
                            no_content matches DoumError::Parse(m) && m@
                                == "No content in OpenAI response"@,
                        decreases rest.len(),
                    {
                        let ghost pre = json::items_view(rest@);
                        let it = rest.remove(0);
                        proof {
                            assert(pre[0] == json::jv_view(it));
                            assert(pre.drop_first() =~= json::items_view(rest@));
                        }
                        match it {
                            JsonValue::Obj(ps) => {
                                proof {
                                    reveal_strlit("type");
                                    reveal_strlit("content");
                                    assert("type"@.len() == 4);
                                    assert("content"@.len() == 7);
                                    assert("type"@ != "content"@);
                                }
                                let (ty_opt, content_opt) = json::obj_take2(ps, "type", "content");
                                let is_message = match &ty_opt {
                                    Some(JsonValue::Str(s)) => text::str_eq(s.as_str(), "message"),
                                    _ => false,
                                };
                                if is_message {
                                    match content_opt {
                                        Some(JsonValue::Arr(mut citems)) => {
                                            if citems.len() == 0 {
                                                // an empty message block: keep scanning
                                            } else {
                                                let ghost cpre = json::items_view(citems@);
                                                let first = citems.remove(0);
                                                proof {
                                                    assert(cpre[0] == json::jv_view(first));
                                                }
                                                match first {
                                                    JsonValue::Obj(cps) => {
                                                        match json::obj_take(cps, "text") {
                                                            Some(JsonValue::Str(t)) => {
                                                                return Ok(t);
                                                            },
                                                            _ => {
                                                                return Err(no_content);
                                                            },
                                                        }
                                                    },
                                                    _ => {
                                                        return Err(no_content);
                                                    },
                                                }
                                            }
                                        },
                                        _ => {
                                            return Err(no_content);
                                        },
                                    }
                                }
                            },
                            _ => {},
                        }
                    }
                    proof {
                        assert(json::items_view(rest@) =~= Seq::<Jv>::empty());
                    }
                    Err(no_content)
                },
                _ => Err(no_content),
            }
        },
        _ => Err(no_content),
    }
}

/// Extracts the first text block from an Anthropic reply body.  Fails with
/// `Parse` exactly when the body is not the expected JSON or holds no text
/// block.
pub fn extract_anthropic_text(body: &str) -> (r: Result<String, DoumError>)
    ensures
        (match r {
            Ok(t) => parse_json_spec(body@) matches Some(doc) && anthropic_text_spec(doc) == Some(
                t@,
            ),
            Err(e) => {
                &&& (match parse_json_spec(body@) {
                    Some(doc) => anthropic_text_spec(doc) is None && (e matches DoumError::Parse(m)
                        && m@ == "No content in Anthropic response"@),
                    None => e matches DoumError::Parse(m) && m@
                        == "Failed to parse Anthropic response"@,
                })
            },
        }),
{
    let doc = match json::parse_json(body) {
        Some(d) => d,
        None => {
            return Err(DoumError::Parse(String::from_str("Failed to parse Anthropic response")));
        },
    };
    let no_content = DoumError::Parse(String::from_str("No content in Anthropic response"));
    match doc {
        JsonValue::Obj(pairs) => {
            match json::obj_take(pairs, "content") {
                Some(JsonValue::Arr(mut citems)) => {
                    if citems.len() == 0 {
                        Err(no_content)
                    } else {
                        let ghost cpre = json::items_view(citems@);
                        let first = citems.remove(0);
                        proof {
                            assert(cpre[0] == json::jv_view(first));
                        }
                        match first {
                            JsonValue::Obj(cps) => {
                                match json::obj_take(cps, "text") {
                                    Some(JsonValue::Str(t)) => Ok(t),
                                    _ => Err(no_content),
                                }
                            },
                            _ => Err(no_content),
                        }
                    }
                },
                _ => Err(no_content),
            }
        },
        _ => Err(no_content),
    }
}

/// The message a provider error envelope carries, if the document has one.
pub open spec fn error_envelope_msg(doc: Jv) -> Option<Seq<char>> {
    match doc {
        Jv::Obj(ps) => match obj_lookup(ps, "error"@) {
            Some(Jv::Obj(eps)) => match obj_lookup(eps, "message"@) {
                Some(Jv::Str(m)) => Some(m),
                _ => None,
            },
            _ => None,
        },
        _ => None,
    }
}

/// The user-facing message for a non-success provider reply: the envelope's
/// message when the body carries one, else the raw body.
pub open spec fn provider_error_spec(
    name: Seq<char>,
    status: nat,
    body: Seq<char>,
    envelope: Option<Seq<char>>,
) -> Seq<char> {
    match envelope {
        Some(m) => name + " API Error ("@ + dec_digits(status) + "): "@ + m,
        None => name + " API Error: "@ + dec_digits(status) + " - "@ + body,
    }
}

/// The envelope message of a reply body, if it parses and carries one.
pub open spec fn envelope_of(body: Seq<char>) -> Option<Seq<char>> {
    match parse_json_spec(body) {
        Some(doc) => error_envelope_msg(doc),
        None => None,
    }
}

/// Reads a provider error body opportunistically: the envelope's message
/// with the status when the envelope matches, else the status and the raw
/// body.
fn provider_error_message(name: &str, status: u16, body: &str) -> (r: String)
    ensures
        r@ == provider_error_spec(name@, status as nat, body@, envelope_of(body@)),
{
    let envelope: Option<String> = match json::parse_json(body) {
        Some(JsonValue::Obj(pairs)) => {
            match json::obj_take(pairs, "error") {
                Some(JsonValue::Obj(eps)) => {
                    match json::obj_take(eps, "message") {
                        Some(JsonValue::Str(m)) => Some(m),
                        _ => None,
                    }
                },
                _ => None,
            }
        },
        _ => None,
    };
    let mut out = String::from_str(name);
    match envelope {
        Some(m) => {
            out.append(" API Error (");
            let st = text::u64_to_dec(status as u64);
            out.append(st.as_str());
            out.append("): ");
            out.append(m.as_str());
            proof {
                assert(out@ =~= provider_error_spec(
                    name@,
                    status as nat,
                    body@,
                    envelope_of(body@),
                ));
            }
        },
        None => {
            out.append(" API Error: ");
            let st = text::u64_to_dec(status as u64);
            out.append(st.as_str());
            out.append(" - ");
            out.append(body);
            proof {
                assert(out@ =~= provider_error_spec(
                    name@,
                    status as nat,
                    body@,
                    envelope_of(body@),
                ));
            }
        },
    }
    out
}

/// The error for a non-success OpenAI reply.
pub fn openai_error(status: u16, body: &str) -> (r: DoumError)
    ensures
        r matches DoumError::Llm(m) && m@ == provider_error_spec(
            "OpenAI"@,
            status as nat,
            body@,
            envelope_of(body@),
        ),
{
    DoumError::Llm(provider_error_message("OpenAI", status, body))
}

/// The error for a non-success Anthropic reply.
pub fn anthropic_error(status: u16, body: &str) -> (r: DoumError)
    ensures
        r matches DoumError::Llm(m) && m@ == provider_error_spec(
            "Anthropic"@,
            status as nat,
            body@,
            envelope_of(body@),
        ),
{
    DoumError::Llm(provider_error_message("Anthropic", status, body))
}

} // verus!
