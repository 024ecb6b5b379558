//! Interprets a model's free-form text reply as structured data.
//!
//! The candidate JSON text is found in three ordered steps, first match wins:
//! a fenced block (triple backticks, with a language tag line dropped), else
//! the span from the first `{` to the last `}`, else the trimmed text itself.
//! The candidate is then read against the mode-selection or suggestion schema;
//! when a key occurs twice in one object, the first occurrence wins.

use vstd::prelude::*;
use crate::error::DoumError;
use crate::json::{
    self, Jv, JsonValue, obj_lookup, parse_json_spec,
};
use crate::text::{
    self, contains_sub, first_char_from, first_match_from, last_char_before, trim_spec,
};

verus! {

/// A mode-selection reply: which mode to run, and the model's reason.
#[derive(Debug, Clone)]
pub struct AutoResponse {
    pub mode: String,
    pub reason: String,
}

/// One suggested shell command with its description.
#[derive(Debug, Clone, PartialEq, Eq)]
pub struct CommandSuggestion {
    pub cmd: String,
    pub description: String,
}

/// A suggestion reply: the commands to offer, in presentation order.
/// An empty list is a valid "no suggestions" reply, not an error.
#[derive(Debug, Clone)]
pub struct SuggestResponse {
    pub suggestions: Vec<CommandSuggestion>,
}

/// The span from the first `{` to the last `}` of `t`, if both exist in
/// order; otherwise `t` itself.
pub open spec fn bare_object_spec(t: Seq<char>) -> Seq<char> {
    match (first_char_from(t, '{', 0), last_char_before(t, '}', t.len() as int)) {
        (Some(a), Some(b)) => {
            if b > a {
                t.subrange(a, b + 1)
            } else {
                t
            }
        },
        _ => t,
    }
}

/// The candidate JSON text inside a raw model reply.
pub open spec fn extract_spec(s: Seq<char>) -> Seq<char> {
    let t = trim_spec(s);
    match first_match_from(t, "```"@, 0) {
        Some(start) => {
            match first_match_from(t, "```"@, start + 3) {
                Some(end) => {
                    let block = t.subrange(start + 3, end);
                    let content = match first_char_from(block, '\n', 0) {
                        Some(nl) => block.subrange(nl + 1, block.len() as int),
                        None => block,
                    };
                    trim_spec(content)
                },
                None => bare_object_spec(t),
            }
        },
        None => bare_object_spec(t),
    }
}

/// Extracts the candidate JSON text from a raw model reply: the interior of a
/// fenced block (minus a language-tag line), else the first `{` through the
/// last `}`, else the trimmed text itself.
pub fn extract_json(text: &str) -> (r: String)
    ensures
        r@ == extract_spec(text@),
{
    let chars = text::str_to_chars(text);
    let (a, b) = text::trim_bounds(&chars);
    let t = text::subvec(&chars, a, b);
    let fence = text::str_to_chars("```");
    proof {
        reveal_strlit("```");
    }
    if let Some(start) = text::find_sub_from(&t, &fence, 0) {
        proof {
            text::lemma_first_match_from_bounds(t@, fence@, 0);
        }
        if let Some(end) = text::find_sub_from(&t, &fence, start + 3) {
            proof {
                text::lemma_first_match_from_bounds(t@, fence@, start + 3);
            }
            let block = text::subvec(&t, start + 3, end);
            let content = match text::find_char_from(&block, '\n', 0) {
                Some(nl) => {
                    proof {
                        text::lemma_first_char_from_bounds(block@, '\n', 0);
                    }
                    text::subvec(&block, nl + 1, block.len())
                },
                None => block,
            };
            let (ca, cb) = text::trim_bounds(&content);
            let inner = text::subvec(&content, ca, cb);
            return text::chars_to_string(&inner);
        }
    }
    let first_brace = text::find_char_from(&t, '{', 0);
    let last_brace = text::rfind_char_before(&t, '}', t.len());
    match (first_brace, last_brace) {
        (Some(fa), Some(fb)) => {
            proof {
                text::lemma_first_char_from_bounds(t@, '{', 0);
                text::lemma_last_char_before_bounds(t@, '}', t@.len() as int);
            }
            if fb > fa {
                let span = text::subvec(&t, fa, fb + 1);
                text::chars_to_string(&span)
            } else {
                text::chars_to_string(&t)
            }
        },
        _ => text::chars_to_string(&t),
    }
}

/// Text that is already a clean JSON object: trimmed, no fence markers,
/// starting with `{` and ending with `}`.
pub open spec fn is_clean_json_text(s: Seq<char>) -> bool {
    let t = trim_spec(s);
    &&& !contains_sub(t, "```"@)
    &&& t.len() >= 2
    &&& t[0] == '{'
    &&& t[t.len() - 1] == '}'
}

/// Law: on already-clean JSON text, extraction returns the trimmed text
/// itself, and extraction is idempotent.
pub proof fn lemma_extract_idempotent_on_clean(s: Seq<char>)
    requires
        is_clean_json_text(s),
    ensures
        extract_spec(s) == trim_spec(s),
        extract_spec(extract_spec(s)) == extract_spec(s),
{
    let t = trim_spec(s);
    crate::text::lemma_first_non_ws_bounds(s, 0);
    crate::text::lemma_last_non_ws_end_bounds(s, s.len() as int);
    assert(first_char_from(t, '{', 0) == Some(0int));
    assert(last_char_before(t, '}', t.len() as int) == Some(t.len() - 1));
    assert(t.subrange(0, t.len() as int) =~= t);
    assert(extract_spec(s) == t);
    assert(!text::is_space(t[0]) && !text::is_space(t[t.len() - 1]));
    crate::text::lemma_trim_of_trimmed(t);
    assert(trim_spec(t) == t);
    assert(extract_spec(t) == t);
}

/// The mode-selection schema read from a JSON value: the `mode` and `reason`
/// string fields of an object, further fields ignored.
pub open spec fn auto_of(v: Jv) -> Option<(Seq<char>, Seq<char>)> {
    match v {
        Jv::Obj(ps) => match (obj_lookup(ps, "mode"@), obj_lookup(ps, "reason"@)) {
            (Some(Jv::Str(m)), Some(Jv::Str(r))) => Some((m, r)),
            _ => None,
        },
        _ => None,
    }
}

/// What parsing a raw reply as a mode selection yields.
pub open spec fn parse_auto_spec(s: Seq<char>) -> Option<(Seq<char>, Seq<char>)> {
    match parse_json_spec(extract_spec(s)) {
        Some(v) => auto_of(v),
        None => None,
    }
}

/// Parses a raw model reply as a mode selection.  Fails with `Parse` exactly
/// when the extracted candidate is not a JSON object carrying string fields
/// `mode` and `reason`; the error carries the offending candidate text.
pub fn parse_auto_mode(json_str: &str) -> (r: Result<AutoResponse, DoumError>)
    ensures
        (match r {
            Ok(a) => parse_auto_spec(json_str@) == Some((a.mode@, a.reason@)),
            Err(e) => {
                &&& parse_auto_spec(json_str@) is None
                &&& e matches DoumError::Parse(m) && m@ == "Failed to parse Auto Mode response: "@
                    + extract_spec(json_str@)
            },
        }),
{
    let cleaned = extract_json(json_str);
    match json::parse_json(cleaned.as_str()) {
        Some(JsonValue::Obj(pairs)) => {
            proof {
                reveal_strlit("mode");
                reveal_strlit("reason");
                assert("mode"@.len() == 4);
                assert("reason"@.len() == 6);
                assert("mode"@ != "reason"@);
            }
            let (m_opt, r_opt) = json::obj_take2(pairs, "mode", "reason");
            match (m_opt, r_opt) {
                (Some(JsonValue::Str(m)), Some(JsonValue::Str(rs))) => Ok(
                    AutoResponse { mode: m, reason: rs },
                ),
                _ => Err(auto_parse_error(cleaned.as_str())),
            }
        },
        _ => Err(auto_parse_error(cleaned.as_str())),
    }
}

/// The error reported when a mode-selection reply cannot be read, carrying
/// the offending candidate text.
fn auto_parse_error(cleaned: &str) -> (r: DoumError)
    ensures
        r matches DoumError::Parse(m) && m@ == "Failed to parse Auto Mode response: "@ + cleaned@,
{
    let mut m = String::from_str("Failed to parse Auto Mode response: ");
    m.append(cleaned);
    DoumError::Parse(m)
}

/// One suggestion read from a JSON value: the `cmd` and `description` string
/// fields of an object.
pub open spec fn sugg_of(v: Jv) -> Option<(Seq<char>, Seq<char>)> {
    match v {
        Jv::Obj(ps) => match (obj_lookup(ps, "cmd"@), obj_lookup(ps, "description"@)) {
            (Some(Jv::Str(c)), Some(Jv::Str(d))) => Some((c, d)),
            _ => None,
        },
        _ => None,
    }
}

/// All suggestions read from a JSON array, in order; `None` if any element
/// is not a valid suggestion object.
pub open spec fn suggs_of(items: Seq<Jv>) -> Option<Seq<(Seq<char>, Seq<char>)>>
    decreases items.len(),
{
    if items.len() == 0 {
        Some(Seq::empty())
    } else {
        match sugg_of(items[0]) {
            Some(p) => match suggs_of(items.drop_first()) {
                Some(rest) => Some(seq![p] + rest),
                None => None,
            },
            None => None,
        }
    }
}

/// The suggestion schema read from a JSON value: the `suggestions` array
/// field of an object, each element a suggestion object.
pub open spec fn suggest_of(v: Jv) -> Option<Seq<(Seq<char>, Seq<char>)>> {
    match v {
        Jv::Obj(ps) => match obj_lookup(ps, "suggestions"@) {
            Some(Jv::Arr(items)) => suggs_of(items),
            _ => None,
        },
        _ => None,
    }
}

/// What parsing a raw reply as a suggestion list yields.
pub open spec fn parse_suggest_spec(s: Seq<char>) -> Option<Seq<(Seq<char>, Seq<char>)>> {
    match parse_json_spec(extract_spec(s)) {
        Some(v) => suggest_of(v),
        None => None,
    }
}

/// The `(cmd, description)` pairs of a suggestion list.
pub open spec fn suggestions_view(cs: Seq<CommandSuggestion>) -> Seq<(Seq<char>, Seq<char>)> {
    Seq::new(cs.len(), |k: int| (cs[k].cmd@, cs[k].description@))
}

/// Parses a raw model reply as a suggestion list.  An empty list parses
/// successfully; the parse fails with `Parse` exactly when the extracted
/// candidate does not match the suggestion schema; the error carries the
/// offending candidate text.
pub fn parse_suggest(json_str: &str) -> (r: Result<SuggestResponse, DoumError>)
    ensures
        (match r {
            Ok(resp) => parse_suggest_spec(json_str@) == Some(suggestions_view(resp.suggestions@)),
            Err(e) => {
                &&& parse_suggest_spec(json_str@) is None
                &&& e matches DoumError::Parse(m) && m@ == "Failed to parse Suggest response: "@
                    + extract_spec(json_str@)
            },
        }),
{
    let cleaned = extract_json(json_str);
    match json::parse_json(cleaned.as_str()) {
        Some(JsonValue::Obj(pairs)) => {
            match json::obj_take(pairs, "suggestions") {
                Some(JsonValue::Arr(items)) => {
                    let ghost orig_items = json::items_view(items@);
                    let mut rest = items;
                    let mut done: Vec<CommandSuggestion> = Vec::new();
                    proof {
                        assert(json::items_view(rest@) =~= orig_items);
                        if suggs_of(orig_items) is Some {
                            assert(suggestions_view(done@) + suggs_of(orig_items).unwrap()
                                =~= suggs_of(orig_items).unwrap());
                        }
                    }
                    while rest.len() > 0
                        invariant
                            cleaned@ == extract_spec(json_str@),
                            suggs_of(orig_items) is None ==> parse_suggest_spec(
                                json_str@,
                            ) is None,
                            (match suggs_of(json::items_view(rest@)) {
                                Some(tail) => suggs_of(orig_items) == Some(
                                    suggestions_view(done@) + tail,
                                ),
                                None => suggs_of(orig_items) is None,
                            }),
                        decreases rest.len(),
                    {
                        let ghost pre = json::items_view(rest@);
                        let ghost old_done = done@;
                        let it = rest.remove(0);
                        proof {
                            assert(pre[0] == json::jv_view(it));
                            assert(pre.drop_first() =~= json::items_view(rest@));
                        }
                        match it {
                            JsonValue::Obj(ps2) => {
                                proof {
                                    reveal_strlit("cmd");
                                    reveal_strlit("description");
                                    assert("cmd"@.len() == 3);
                                    assert("description"@.len() == 11);
                                    assert("cmd"@ != "description"@);
                                }
                                let (c_opt, d_opt) = json::obj_take2(ps2, "cmd", "description");
                                match (c_opt, d_opt) {
                                    (Some(JsonValue::Str(c)), Some(JsonValue::Str(d))) => {
                                        proof {
                                            assert(sugg_of(pre[0]) == Some((c@, d@)));
                                        }
                                        done.push(CommandSuggestion { cmd: c, description: d });
                                        proof {
                                            assert(suggestions_view(done@) =~= suggestions_view(
                                                old_done,
                                            ) + seq![(done@[done@.len() - 1].cmd@, done@[done@.len()
                                                - 1].description@)]);
                                            if suggs_of(json::items_view(rest@)) is Some {
                                                let tail = suggs_of(
                                                    json::items_view(rest@),
                                                ).unwrap();
                                                assert(suggestions_view(old_done) + (seq![
                                                    (c@, d@),
                                                ] + tail) =~= suggestions_view(done@) + tail);
                                            }
                                        }
                                    },
                                    _ => {
                                        proof {
                                            assert(sugg_of(pre[0]) is None);
                                        }
                                        return Err(suggest_parse_error(cleaned.as_str()));
                                    },
                                }
                            },
                            _ => {
                                proof {
                                    assert(sugg_of(pre[0]) is None);
                                }
                                return Err(suggest_parse_error(cleaned.as_str()));
                            },
                        }
                    }
                    proof {
                        assert(json::items_view(rest@) =~= Seq::<Jv>::empty());
                        assert(suggs_of(json::items_view(rest@)) == Some(
                            Seq::<(Seq<char>, Seq<char>)>::empty(),
                        ));
                        assert(suggestions_view(done@) + Seq::<(Seq<char>, Seq<char>)>::empty()
                            =~= suggestions_view(done@));
                    }
                    Ok(SuggestResponse { suggestions: done })
                },
                _ => Err(suggest_parse_error(cleaned.as_str())),
            }
        },
        _ => Err(suggest_parse_error(cleaned.as_str())),
    }
}

/// The error reported when a suggestion reply cannot be read, carrying the
/// offending candidate text.
fn suggest_parse_error(cleaned: &str) -> (r: DoumError)
    ensures
        r matches DoumError::Parse(m) && m@ == "Failed to parse Suggest response: "@ + cleaned@,
{
    let mut m = String::from_str("Failed to parse Suggest response: ");
    m.append(cleaned);
    DoumError::Parse(m)
}

} // verus!
