//! A small JSON reader and writer for the structured replies the assistant
//! exchanges with a model provider.
//!
//! The grammar is standard JSON with one documented restriction: nesting
//! deeper than [`MAX_DEPTH`] is rejected.  Escaped UTF-16 surrogate pairs are
//! combined into the character they encode; a lone or misordered surrogate is
//! rejected.  Numbers are validated but their values are not retained; none
//! of the schemas this crate reads carries a numeric field.  When a key
//! occurs twice in one object, the first occurrence wins.

use vstd::prelude::*;
use crate::text::{
    first_non_ws, is_dec_digit, is_space, lemma_first_non_ws_bounds, digit_char,
};

verus! {

/// Nesting depth (values inside values) beyond which a document is rejected.
pub const MAX_DEPTH: u32 = 128;

/// A JSON value, at the specification level.
pub enum Jv {
    Null,
    Bool(bool),
    /// A number; the grammar is checked but the value is not retained.
    Num,
    Str(Seq<char>),
    Arr(Seq<Jv>),
    Obj(Seq<(Seq<char>, Jv)>),
}

/// The value of one hexadecimal digit character, if it is one.
pub open spec fn hex_val(c: char) -> Option<int> {
    if '0' <= c && c <= '9' {
        Some(c as int - '0' as int)
    } else if 'a' <= c && c <= 'f' {
        Some(c as int - 'a' as int + 10)
    } else if 'A' <= c && c <= 'F' {
        Some(c as int - 'A' as int + 10)
    } else {
        None
    }
}

/// The character produced by a one-letter escape, if the letter is valid.
pub open spec fn unescape_char(e: char) -> Option<char> {
    if e == '"' {
        Some('"')
    } else if e == '\\' {
        Some('\\')
    } else if e == '/' {
        Some('/')
    } else if e == 'b' {
        Some('\u{08}')
    } else if e == 'f' {
        Some('\u{0C}')
    } else if e == 'n' {
        Some('\n')
    } else if e == 'r' {
        Some('\r')
    } else if e == 't' {
        Some('\t')
    } else {
        None
    }
}

/// Whether positions `i..i+4` of `s` hold hex digits.
pub open spec fn has_hex4(s: Seq<char>, i: int) -> bool {
    0 <= i && i + 4 <= s.len() && hex_val(s[i]) is Some && hex_val(s[i + 1]) is Some && hex_val(
        s[i + 2],
    ) is Some && hex_val(s[i + 3]) is Some
}

/// The value of the four hex digits at `i`.
pub open spec fn hex4_val(s: Seq<char>, i: int) -> int {
    hex_val(s[i]).unwrap() * 4096 + hex_val(s[i + 1]).unwrap() * 256 + hex_val(
        s[i + 2],
    ).unwrap() * 16 + hex_val(s[i + 3]).unwrap()
}

/// Parses the body of a JSON string, starting just after the opening quote.
/// Returns the decoded content and the position just after the closing quote.
pub open spec fn parse_str_body(s: Seq<char>, i: int) -> Option<(Seq<char>, int)>
    decreases s.len() - i,
{
    if i < 0 || i >= s.len() {
        None
    } else {
        let c = s[i];
        if c == '"' {
            Some((Seq::empty(), i + 1))
        } else if c == '\\' {
            if i + 1 >= s.len() {
                None
            } else {
                let e = s[i + 1];
                if e == 'u' {
                    if has_hex4(s, i + 2) {
                        let u = hex4_val(s, i + 2);
                        if u < 0xD800 || u >= 0xE000 {
                            match parse_str_body(s, i + 6) {
                                Some((rest, end)) => Some((seq![u as char] + rest, end)),
                                None => None,
                            }
                        } else if u < 0xDC00 {
                            if i + 8 <= s.len() && s[i + 6] == '\\' && s[i + 7] == 'u'
                                && has_hex4(s, i + 8) {
                                let lo = hex4_val(s, i + 8);
                                if 0xDC00 <= lo && lo < 0xE000 {
                                    let combined = 0x10000 + (u - 0xD800) * 0x400 + (lo - 0xDC00);
                                    match parse_str_body(s, i + 12) {
                                        Some((rest, end)) => Some(
                                            (seq![combined as char] + rest, end),
                                        ),
                                        None => None,
                                    }
                                } else {
                                    None
                                }
                            } else {
                                None
                            }
                        } else {
                            None
                        }
                    } else {
                        None
                    }
                } else {
                    match unescape_char(e) {
                        Some(u) => match parse_str_body(s, i + 2) {
                            Some((rest, end)) => Some((seq![u] + rest, end)),
                            None => None,
                        },
                        None => None,
                    }
                }
            }
        } else if (c as int) < 0x20 {
            None
        } else {
            match parse_str_body(s, i + 1) {
                Some((rest, end)) => Some((seq![c] + rest, end)),
                None => None,
            }
        }
    }
}

pub proof fn lemma_parse_str_body_bounds(s: Seq<char>, i: int)
    requires
        parse_str_body(s, i) is Some,
    ensures
        i + 1 <= parse_str_body(s, i).unwrap().1 <= s.len(),
    decreases s.len() - i,
{
    if !(i < 0 || i >= s.len()) {
        let c = s[i];
        if c == '"' {
        } else if c == '\\' {
            if i + 1 < s.len() {
                let e = s[i + 1];
                if e == 'u' {
                    if parse_str_body(s, i + 6) is Some {
                        lemma_parse_str_body_bounds(s, i + 6);
                    }
                    if i + 12 <= s.len() && parse_str_body(s, i + 12) is Some {
                        lemma_parse_str_body_bounds(s, i + 12);
                    }
                } else {
                    if parse_str_body(s, i + 2) is Some {
                        lemma_parse_str_body_bounds(s, i + 2);
                    }
                }
            }
        } else if (c as int) >= 0x20 {
            if parse_str_body(s, i + 1) is Some {
                lemma_parse_str_body_bounds(s, i + 1);
            }
        }
    }
}

/// The first index at or after `i` that does not hold a decimal digit.
pub open spec fn skip_digits(s: Seq<char>, i: int) -> int
    decreases s.len() - i,
{
    if i < 0 || i >= s.len() || !is_dec_digit(s[i]) {
        i
    } else {
        skip_digits(s, i + 1)
    }
}

pub proof fn lemma_skip_digits_bounds(s: Seq<char>, i: int)
    requires
        0 <= i <= s.len(),
    ensures
        i <= skip_digits(s, i) <= s.len(),
        forall|k: int| i <= k < skip_digits(s, i) ==> is_dec_digit(s[k]),
        skip_digits(s, i) < s.len() ==> !is_dec_digit(s[skip_digits(s, i)]),
    decreases s.len() - i,
{
    if i < s.len() && is_dec_digit(s[i]) {
        lemma_skip_digits_bounds(s, i + 1);
    }
}

/// The end of a JSON number starting at `i`, or `None` when no number starts
/// there.  Grammar: `-? (0 | [1-9][0-9]*) (. [0-9]+)? ([eE][+-]?[0-9]+)?`.
pub open spec fn parse_number_end(s: Seq<char>, i: int) -> Option<int> {
    if i < 0 || i >= s.len() {
        None
    } else {
        let j = if s[i] == '-' {
            i + 1
        } else {
            i
        };
        if j >= s.len() || !is_dec_digit(s[j]) {
            None
        } else {
            let k = if s[j] == '0' {
                j + 1
            } else {
                skip_digits(s, j)
            };
            let l = if k < s.len() && s[k] == '.' {
                if k + 1 < s.len() && is_dec_digit(s[k + 1]) {
                    skip_digits(s, k + 1)
                } else {
                    -1
                }
            } else {
                k
            };
            if l < 0 {
                None
            } else {
                let m = if l < s.len() && (s[l] == 'e' || s[l] == 'E') {
                    let p = if l + 1 < s.len() && (s[l + 1] == '+' || s[l + 1] == '-') {
                        l + 2
                    } else {
                        l + 1
                    };
                    if p < s.len() && is_dec_digit(s[p]) {
                        skip_digits(s, p)
                    } else {
                        -1
                    }
                } else {
                    l
                };
                if m < 0 {
                    None
                } else {
                    Some(m)
                }
            }
        }
    }
}

pub proof fn lemma_parse_number_end_bounds(s: Seq<char>, i: int)
    requires
        0 <= i <= s.len(),
        parse_number_end(s, i) is Some,
    ensures
        i + 1 <= parse_number_end(s, i).unwrap() <= s.len(),
{
    let j = if s[i] == '-' {
        i + 1
    } else {
        i
    };
    lemma_skip_digits_bounds(s, j);
    let k = if s[j] == '0' {
        j + 1
    } else {
        skip_digits(s, j)
    };
    if k < s.len() && s[k] == '.' {
        if k + 1 < s.len() && is_dec_digit(s[k + 1]) {
            lemma_skip_digits_bounds(s, k + 1);
        }
    }
    let l = if k < s.len() && s[k] == '.' {
        if k + 1 < s.len() && is_dec_digit(s[k + 1]) {
            skip_digits(s, k + 1)
        } else {
            -1
        }
    } else {
        k
    };
    if l >= 0 && l < s.len() && (s[l] == 'e' || s[l] == 'E') {
        let p = if l + 1 < s.len() && (s[l + 1] == '+' || s[l + 1] == '-') {
            l + 2
        } else {
            l + 1
        };
        if p < s.len() && is_dec_digit(s[p]) {
            lemma_skip_digits_bounds(s, p);
        }
    }
}

/// The larger of `e` and `lo`; used to make parser progress explicit.
pub open spec fn at_least(e: int, lo: int) -> int {
    if e > lo {
        e
    } else {
        lo
    }
}

/// Parses one JSON value at `i`, skipping leading whitespace, with `depth`
/// nesting levels still allowed.  Returns the value and the position just
/// after it.
pub open spec fn parse_value(s: Seq<char>, i: int, depth: int) -> Option<(Jv, int)>
    decreases s.len() - i, 2int,
{
    if i < 0 || i > s.len() || depth <= 0 {
        None
    } else {
        proof {
            lemma_first_non_ws_bounds(s, i);
        }
        let j = first_non_ws(s, i);
        if j >= s.len() {
            None
        } else if s[j] == '{' {
            parse_object(s, j, depth)
        } else if s[j] == '[' {
            parse_array(s, j, depth)
        } else if s[j] == '"' {
            match parse_str_body(s, j + 1) {
                Some((content, end)) => Some((Jv::Str(content), end)),
                None => None,
            }
        } else if crate::text::is_match_at(s, "true"@, j) {
            Some((Jv::Bool(true), j + 4))
        } else if crate::text::is_match_at(s, "false"@, j) {
            Some((Jv::Bool(false), j + 5))
        } else if crate::text::is_match_at(s, "null"@, j) {
            Some((Jv::Null, j + 4))
        } else {
            match parse_number_end(s, j) {
                Some(end) => Some((Jv::Num, end)),
                None => None,
            }
        }
    }
}

/// Parses a JSON object whose `{` stands at `i`.
pub open spec fn parse_object(s: Seq<char>, i: int, depth: int) -> Option<(Jv, int)>
    decreases s.len() - i, 1int,
{
    if i < 0 || i >= s.len() || s[i] != '{' {
        None
    } else {
        proof {
            lemma_first_non_ws_bounds(s, i + 1);
        }
        let e = first_non_ws(s, i + 1);
        if e < s.len() && s[e] == '}' {
            Some((Jv::Obj(Seq::empty()), e + 1))
        } else {
            match parse_members(s, i + 1, depth) {
                Some((pairs, end)) => Some((Jv::Obj(pairs), end)),
                None => None,
            }
        }
    }
}

/// Parses a JSON array whose `[` stands at `i`.
pub open spec fn parse_array(s: Seq<char>, i: int, depth: int) -> Option<(Jv, int)>
    decreases s.len() - i, 1int,
{
    if i < 0 || i >= s.len() || s[i] != '[' {
        None
    } else {
        proof {
            lemma_first_non_ws_bounds(s, i + 1);
        }
        let e = first_non_ws(s, i + 1);
        if e < s.len() && s[e] == ']' {
            Some((Jv::Arr(Seq::empty()), e + 1))
        } else {
            match parse_elems(s, i + 1, depth) {
                Some((items, end)) => Some((Jv::Arr(items), end)),
                None => None,
            }
        }
    }
}

/// Parses the members of an object, starting at or before the first key.
pub open spec fn parse_members(s: Seq<char>, i: int, depth: int) -> Option<
    (Seq<(Seq<char>, Jv)>, int),
>
    decreases s.len() - i, 0int,
{
    if i < 0 || i > s.len() {
        None
    } else {
        proof {
            lemma_first_non_ws_bounds(s, i);
        }
        let j = first_non_ws(s, i);
        if j >= s.len() || s[j] != '"' {
            None
        } else {
            match parse_str_body(s, j + 1) {
                Some((key, ke0)) => {
                    let ke = at_least(ke0, j + 2);
                    if ke > s.len() {
                        None
                    } else {
                        proof {
                            lemma_first_non_ws_bounds(s, ke);
                        }
                        let c = first_non_ws(s, ke);
                        if c >= s.len() || s[c] != ':' {
                            None
                        } else {
                            match parse_value(s, c + 1, depth - 1) {
                                Some((v, ve0)) => {
                                    let ve = at_least(ve0, c + 2);
                                    if ve > s.len() {
                                        None
                                    } else {
                                        proof {
                                            lemma_first_non_ws_bounds(s, ve);
                                        }
                                        let t = first_non_ws(s, ve);
                                        if t < s.len() && s[t] == ',' {
                                            match parse_members(s, t + 1, depth) {
                                                Some((rest, end)) => Some(
                                                    (seq![(key, v)] + rest, end),
                                                ),
                                                None => None,
                                            }
                                        } else if t < s.len() && s[t] == '}' {
                                            Some((seq![(key, v)], t + 1))
                                        } else {
                                            None
                                        }
                                    }
                                },
                                None => None,
                            }
                        }
                    }
                },
                None => None,
            }
        }
    }
}

/// Parses the elements of an array, starting at or before the first element.
pub open spec fn parse_elems(s: Seq<char>, i: int, depth: int) -> Option<(Seq<Jv>, int)>
    decreases s.len() - i, 3int,
{
    if i < 0 || i > s.len() {
        None
    } else {
        match parse_value(s, i, depth - 1) {
            Some((v, ve0)) => {
                let ve = at_least(ve0, i + 1);
                if ve > s.len() {
                    None
                } else {
                    proof {
                        lemma_first_non_ws_bounds(s, ve);
                    }
                    let t = first_non_ws(s, ve);
                    if t < s.len() && s[t] == ',' {
                        match parse_elems(s, t + 1, depth) {
                            Some((rest, end)) => Some((seq![v] + rest, end)),
                            None => None,
                        }
                    } else if t < s.len() && s[t] == ']' {
                        Some((seq![v], t + 1))
                    } else {
                        None
                    }
                }
            },
            None => None,
        }
    }
}

/// Parses a complete JSON document: one value with nothing but whitespace
/// after it.
pub open spec fn parse_json_spec(s: Seq<char>) -> Option<Jv> {
    match parse_value(s, 0, MAX_DEPTH as int) {
        Some((v, end)) => {
            if 0 <= end <= s.len() && first_non_ws(s, end) == s.len() {
                Some(v)
            } else {
                None
            }
        },
        None => None,
    }
}

pub proof fn lemma_parse_value_bounds(s: Seq<char>, i: int, depth: int)
    requires
        parse_value(s, i, depth) is Some,
    ensures
        i + 1 <= parse_value(s, i, depth).unwrap().1 <= s.len(),
    decreases s.len() - i, 2int,
{
    lemma_first_non_ws_bounds(s, i);
    let j = first_non_ws(s, i);
    if s[j] == '{' {
        lemma_parse_object_bounds(s, j, depth);
    } else if s[j] == '[' {
        lemma_parse_array_bounds(s, j, depth);
    } else if s[j] == '"' {
        lemma_parse_str_body_bounds(s, j + 1);
    } else if crate::text::is_match_at(s, "true"@, j) {
        reveal_strlit("true");
    } else if crate::text::is_match_at(s, "false"@, j) {
        reveal_strlit("false");
    } else if crate::text::is_match_at(s, "null"@, j) {
        reveal_strlit("null");
    } else {
        lemma_parse_number_end_bounds(s, j);
    }
}

pub proof fn lemma_parse_object_bounds(s: Seq<char>, i: int, depth: int)
    requires
        parse_object(s, i, depth) is Some,
    ensures
        i + 1 <= parse_object(s, i, depth).unwrap().1 <= s.len(),
    decreases s.len() - i, 1int,
{
    lemma_first_non_ws_bounds(s, i + 1);
    let e = first_non_ws(s, i + 1);
    if e < s.len() && s[e] == '}' {
    } else {
        lemma_parse_members_bounds(s, i + 1, depth);
    }
}

pub proof fn lemma_parse_array_bounds(s: Seq<char>, i: int, depth: int)
    requires
        parse_array(s, i, depth) is Some,
    ensures
        i + 1 <= parse_array(s, i, depth).unwrap().1 <= s.len(),
    decreases s.len() - i, 1int,
{
    lemma_first_non_ws_bounds(s, i + 1);
    let e = first_non_ws(s, i + 1);
    if e < s.len() && s[e] == ']' {
    } else {
        lemma_parse_elems_bounds(s, i + 1, depth);
    }
}

pub proof fn lemma_parse_members_bounds(s: Seq<char>, i: int, depth: int)
    requires
        parse_members(s, i, depth) is Some,
    ensures
        i + 1 <= parse_members(s, i, depth).unwrap().1 <= s.len(),
    decreases s.len() - i, 0int,
{
    lemma_first_non_ws_bounds(s, i);
    let j = first_non_ws(s, i);
    lemma_parse_str_body_bounds(s, j + 1);
    let (key, ke0) = parse_str_body(s, j + 1).unwrap();
    let ke = at_least(ke0, j + 2);
    lemma_first_non_ws_bounds(s, ke);
    let c = first_non_ws(s, ke);
    lemma_parse_value_bounds(s, c + 1, depth - 1);
    let (v, ve0) = parse_value(s, c + 1, depth - 1).unwrap();
    let ve = at_least(ve0, c + 2);
    lemma_first_non_ws_bounds(s, ve);
    let t = first_non_ws(s, ve);
    if t < s.len() && s[t] == ',' {
        lemma_parse_members_bounds(s, t + 1, depth);
    }
}

pub proof fn lemma_parse_elems_bounds(s: Seq<char>, i: int, depth: int)
    requires
        parse_elems(s, i, depth) is Some,
    ensures
        i + 1 <= parse_elems(s, i, depth).unwrap().1 <= s.len(),
    decreases s.len() - i, 3int,
{
    lemma_parse_value_bounds(s, i, depth - 1);
    let (v, ve0) = parse_value(s, i, depth - 1).unwrap();
    let ve = at_least(ve0, i + 1);
    lemma_first_non_ws_bounds(s, ve);
    let t = first_non_ws(s, ve);
    if t < s.len() && s[t] == ',' {
        lemma_parse_elems_bounds(s, t + 1, depth);
    }
}

/// Whether `c` is a control character that JSON requires to be escaped.
fn is_control(c: char) -> (r: bool)
    ensures
        r == ((c as int) < 0x20),
{
    let sp: char = ' ';
    c < sp
}

/// First index at or after `i` that holds no whitespace.
fn skip_ws_exec(v: &Vec<char>, i: usize) -> (r: usize)
    requires
        i <= v@.len(),
    ensures
        r as int == first_non_ws(v@, i as int),
        i <= r <= v@.len(),
        r < v@.len() ==> !is_space(v@[r as int]),
{
    let n = v.len();
    let mut j = i;
    while j < n && crate::text::is_space_exec(v[j])
        invariant
            n == v@.len(),
            i <= j <= n,
            first_non_ws(v@, i as int) == first_non_ws(v@, j as int),
        decreases n - j,
    {
        j += 1;
    }
    j
}

/// The value of one hexadecimal digit character.
fn hex_val_exec(c: char) -> (r: Option<u32>)
    ensures
        (match r {
            Some(x) => hex_val(c) == Some(x as int) && x < 16,
            None => hex_val(c) is None,
        }),
{
    if '0' <= c && c <= '9' {
        Some((c as u32) - ('0' as u32))
    } else if 'a' <= c && c <= 'f' {
        Some((c as u32) - ('a' as u32) + 10)
    } else if 'A' <= c && c <= 'F' {
        Some((c as u32) - ('A' as u32) + 10)
    } else {
        None
    }
}

/// Relies on `char::from_u32`: `Some` exactly for Unicode scalar values.
#[verifier::external_body]
fn char_from_u32(u: u32) -> (r: Option<char>)
    ensures
        r == (if u < 0xD800 || (0xE000 <= u && u <= 0x10FFFF) {
            Some(u as char)
        } else {
            None::<char>
        }),
{
    char::from_u32(u)
}

/// Decodes a JSON string body starting just after the opening quote.
#[verifier::rlimit(100)]
#[verifier::spinoff_prover]
fn parse_str_body_exec(v: &Vec<char>, i: usize) -> (r: Option<(Vec<char>, usize)>)
    requires
        i <= v@.len(),
    ensures
        (match (r, parse_str_body(v@, i as int)) {
            (Some((content, end)), Some((sc, se))) => content@ == sc && end as int == se && i < end
                <= v@.len(),
            (None, None) => true,
            _ => false,
        }),
{
    let n = v.len();
    let mut out: Vec<char> = Vec::new();
    let mut cur = i;
    proof {
        if parse_str_body(v@, i as int) is Some {
            let (rest, e) = parse_str_body(v@, i as int).unwrap();
            assert(out@ + rest =~= rest);
            lemma_parse_str_body_bounds(v@, i as int);
        }
    }
    loop
        invariant
            n == v@.len(),
            i <= cur <= n,
            (match parse_str_body(v@, cur as int) {
                Some((rest, e)) => parse_str_body(v@, i as int) == Some(
                    (out@ + rest, e),
                ) && cur < e <= n,
                None => parse_str_body(v@, i as int) is None,
            }),
        decreases n - cur,
    {
        if cur >= n {
            return None;
        }
        let c = v[cur];
        if c == '"' {
            proof {
                assert(out@ + Seq::<char>::empty() =~= out@);
            }
            return Some((out, cur + 1));
        } else if c == '\\' {
            if cur + 1 >= n {
                return None;
            }
            let e = v[cur + 1];
            if e == 'u' {
                if n - cur < 6 {
                    proof {
                        assert(!has_hex4(v@, cur + 2));
                    }
                    return None;
                }
                let h0 = hex_val_exec(v[cur + 2]);
                let h1 = hex_val_exec(v[cur + 3]);
                let h2 = hex_val_exec(v[cur + 4]);
                let h3 = hex_val_exec(v[cur + 5]);
                match (h0, h1, h2, h3) {
                    (Some(a), Some(b), Some(cc), Some(d)) => {
                        let u: u32 = a * 4096 + b * 256 + cc * 16 + d;
                        proof {
                            assert(has_hex4(v@, cur + 2));
                            assert(u as int == hex4_val(v@, cur + 2));
                        }
                        if u < 0xD800 || u >= 0xE000 {
                            match char_from_u32(u) {
                                Some(decoded) => {
                                    proof {
                                        assert(parse_str_body(v@, cur as int) == (
                                        match parse_str_body(v@, cur + 6) {
                                            Some((rest, e2)) => Some::<(Seq<char>, int)>(
                                                (seq![decoded] + rest, e2),
                                            ),
                                            None => None,
                                        }));
                                    }
                                    let ghost old_out = out@;
                                    out.push(decoded);
                                    cur = cur + 6;
                                    proof {
                                        if parse_str_body(v@, cur as int) is Some {
                                            let (rest, e2) = parse_str_body(
                                                v@,
                                                cur as int,
                                            ).unwrap();
                                            assert(old_out + (seq![decoded] + rest) =~= out@
                                                + rest);
                                            lemma_parse_str_body_bounds(v@, cur as int);
                                        }
                                    }
                                },
                                None => {
                                    return None;
                                },
                            }
                        } else if u < 0xDC00 {
                            if n - cur < 8 {
                                return None;
                            }
                            if v[cur + 6] != '\\' || v[cur + 7] != 'u' {
                                return None;
                            }
                            if n - cur < 12 {
                                proof {
                                    assert(!has_hex4(v@, cur + 8));
                                }
                                return None;
                            }
                            let l0 = hex_val_exec(v[cur + 8]);
                            let l1 = hex_val_exec(v[cur + 9]);
                            let l2 = hex_val_exec(v[cur + 10]);
                            let l3 = hex_val_exec(v[cur + 11]);
                            match (l0, l1, l2, l3) {
                                (Some(la), Some(lb), Some(lc), Some(ld)) => {
                                    let lo: u32 = la * 4096 + lb * 256 + lc * 16 + ld;
                                    proof {
                                        assert(has_hex4(v@, cur + 8));
                                        assert(lo as int == hex4_val(v@, cur + 8));
                                    }
                                    if 0xDC00 <= lo && lo < 0xE000 {
                                        let combined: u32 = 0x10000 + (u - 0xD800) * 0x400 + (lo
                                            - 0xDC00);
                                        match char_from_u32(combined) {
                                            Some(decoded) => {
                                                proof {
                                                    assert(parse_str_body(v@, cur as int) == (
                                                    match parse_str_body(v@, cur + 12) {
                                                        Some((rest, e2)) => Some::<
                                                            (Seq<char>, int),
                                                        >((seq![decoded] + rest, e2)),
                                                        None => None,
                                                    }));
                                                }
                                                let ghost old_out = out@;
                                                out.push(decoded);
                                                cur = cur + 12;
                                                proof {
                                                    if parse_str_body(v@, cur as int) is Some {
                                                        let (rest, e2) = parse_str_body(
                                                            v@,
                                                            cur as int,
                                                        ).unwrap();
                                                        assert(old_out + (seq![decoded] + rest)
                                                            =~= out@ + rest);
                                                        lemma_parse_str_body_bounds(
                                                            v@,
                                                            cur as int,
                                                        );
                                                    }
                                                }
                                            },
                                            None => {
                                                proof {
                                                    assert(false);
                                                }
                                                return None;
                                            },
                                        }
                                    } else {
                                        return None;
                                    }
                                },
                                _ => {
                                    return None;
                                },
                            }
                        } else {
                            return None;
                        }
                    },
                    _ => {
                        return None;
                    },
                }
            } else {
                let decoded_opt = if e == '"' {
                    Some('"')
                } else if e == '\\' {
                    Some('\\')
                } else if e == '/' {
                    Some('/')
                } else if e == 'b' {
                    Some('\u{08}')
                } else if e == 'f' {
                    Some('\u{0C}')
                } else if e == 'n' {
                    Some('\n')
                } else if e == 'r' {
                    Some('\r')
                } else if e == 't' {
                    Some('\t')
                } else {
                    None
                };
                proof {
                    assert(decoded_opt == unescape_char(v@[cur + 1]));
                }
                match decoded_opt {
                    Some(decoded) => {
                        proof {
                            assert(parse_str_body(v@, cur as int) == (match parse_str_body(
                                v@,
                                cur + 2,
                            ) {
                                Some((rest, e2)) => Some::<(Seq<char>, int)>(
                                    (seq![decoded] + rest, e2),
                                ),
                                None => None,
                            }));
                        }
                        let ghost old_out = out@;
                        out.push(decoded);
                        cur = cur + 2;
                        proof {
                            if parse_str_body(v@, cur as int) is Some {
                                let (rest, e2) = parse_str_body(v@, cur as int).unwrap();
                                assert(old_out + (seq![decoded] + rest) =~= out@ + rest);
                                lemma_parse_str_body_bounds(v@, cur as int);
                            }
                        }
                    },
                    None => {
                        return None;
                    },
                }
            }
        } else if is_control(c) {
            proof {
                assert((c as int) < 0x20);
            }
            return None;
        } else {
            proof {
                assert((c as int) >= 0x20);
                assert(parse_str_body(v@, cur as int) == (match parse_str_body(v@, cur + 1) {
                    Some((rest, e2)) => Some::<(Seq<char>, int)>((seq![c] + rest, e2)),
                    None => None,
                }));
            }
            let ghost old_out = out@;
            out.push(c);
            cur = cur + 1;
            proof {
                if parse_str_body(v@, cur as int) is Some {
                    let (rest, e2) = parse_str_body(v@, cur as int).unwrap();
                    assert(old_out + (seq![c] + rest) =~= out@ + rest);
                    lemma_parse_str_body_bounds(v@, cur as int);
                }
            }
        }
    }
}

/// First index at or after `i` that holds no decimal digit.
fn skip_digits_exec(v: &Vec<char>, i: usize) -> (r: usize)
    requires
        i <= v@.len(),
    ensures
        r as int == skip_digits(v@, i as int),
        i <= r <= v@.len(),
{
    let n = v.len();
    let mut j = i;
    while j < n && '0' <= v[j] && v[j] <= '9'
        invariant
            n == v@.len(),
            i <= j <= n,
            skip_digits(v@, i as int) == skip_digits(v@, j as int),
        decreases n - j,
    {
        j += 1;
    }
    j
}

/// End of a JSON number starting at `i`, if one starts there.
fn parse_number_end_exec(v: &Vec<char>, i: usize) -> (r: Option<usize>)
    requires
        i <= v@.len(),
    ensures
        (match (r, parse_number_end(v@, i as int)) {
            (Some(end), Some(se)) => end as int == se && i < end <= v@.len(),
            (None, None) => true,
            _ => false,
        }),
{
    let n = v.len();
    if i >= n {
        return None;
    }
    let j = if v[i] == '-' {
        i + 1
    } else {
        i
    };
    if j >= n || !('0' <= v[j] && v[j] <= '9') {
        return None;
    }
    let k = if v[j] == '0' {
        j + 1
    } else {
        skip_digits_exec(v, j)
    };
    proof {
        lemma_skip_digits_bounds(v@, j as int);
    }
    let l_opt: Option<usize> = if k < n && v[k] == '.' {
        if k + 1 < n && '0' <= v[k + 1] && v[k + 1] <= '9' {
            Some(skip_digits_exec(v, k + 1))
        } else {
            None
        }
    } else {
        Some(k)
    };
    proof {
        if k + 1 < n {
            lemma_skip_digits_bounds(v@, k + 1);
        }
    }
    let l = match l_opt {
        Some(l) => l,
        None => {
            return None;
        },
    };
    if l < n && (v[l] == 'e' || v[l] == 'E') {
        let p = if l + 1 < n && (v[l + 1] == '+' || v[l + 1] == '-') {
            l + 2
        } else {
            l + 1
        };
        if p < n && '0' <= v[p] && v[p] <= '9' {
            let m = skip_digits_exec(v, p);
            proof {
                lemma_skip_digits_bounds(v@, p as int);
            }
            Some(m)
        } else {
            None
        }
    } else {
        Some(l)
    }
}

/// Whether the literal `pat` occurs at position `i` of `v`.
fn is_match_at_exec(v: &Vec<char>, pat: &Vec<char>, i: usize) -> (r: bool)
    requires
        i <= v@.len(),
    ensures
        r == crate::text::is_match_at(v@, pat@, i as int),
{
    let n = v.len();
    let m = pat.len();
    if m > n - i {
        proof {
            assert(!crate::text::is_match_at(v@, pat@, i as int));
        }
        return false;
    }
    let mut k: usize = 0;
    while k < m && v[i + k] == pat[k]
        invariant
            n == v@.len(),
            m == pat@.len(),
            i + m <= n,
            k <= m,
            forall|kk: int| 0 <= kk < k ==> v@[i + kk] == pat@[kk],
        decreases m - k,
    {
        k += 1;
    }
    if k == m {
        proof {
            assert(v@.subrange(i as int, i + m) =~= pat@);
        }
        true
    } else {
        proof {
            assert(v@[i + k] != pat@[k as int]);
            assert(v@.subrange(i as int, i + m)[k as int] == v@[i + k as int]);
            assert(v@.subrange(i as int, i + m) != pat@);
        }
        false
    }
}

/// A parsed JSON value.
#[derive(Debug)]
pub enum JsonValue {
    Null,
    Bool(bool),
    /// A number; validated but not retained.
    Num,
    Str(String),
    Arr(Vec<JsonValue>),
    Obj(Vec<(String, JsonValue)>),
}

/// The mathematical value of a parsed JSON tree.
pub open spec fn jv_view(v: JsonValue) -> Jv
    decreases v,
{
    match v {
        JsonValue::Null => Jv::Null,
        JsonValue::Bool(b) => Jv::Bool(b),
        JsonValue::Num => Jv::Num,
        JsonValue::Str(s) => Jv::Str(s@),
        JsonValue::Arr(items) => Jv::Arr(items_view(items@)),
        JsonValue::Obj(pairs) => Jv::Obj(pairs_view(pairs@)),
    }
}

/// The mathematical value of a sequence of parsed array elements.
pub open spec fn items_view(vs: Seq<JsonValue>) -> Seq<Jv>
    decreases vs,
{
    Seq::new(
        vs.len(),
        |k: int|
            if 0 <= k < vs.len() {
                jv_view(vs[k])
            } else {
                Jv::Null
            },
    )
}

/// The mathematical value of a sequence of parsed object members.
pub open spec fn pairs_view(ps: Seq<(String, JsonValue)>) -> Seq<(Seq<char>, Jv)>
    decreases ps,
{
    Seq::new(
        ps.len(),
        |k: int|
            if 0 <= k < ps.len() {
                (ps[k].0@, jv_view(ps[k].1))
            } else {
                (Seq::empty(), Jv::Null)
            },
    )
}

/// Parses one JSON value of `v` at `i`, with `depth` nesting levels allowed.
pub fn parse_value_exec(v: &Vec<char>, i: usize, depth: u32) -> (r: Option<(JsonValue, usize)>)
    requires
        i <= v@.len(),
    ensures
        (match (r, parse_value(v@, i as int, depth as int)) {
            (Some((jv, e)), Some((sv, se))) => jv_view(jv) == sv && e as int == se && i < e
                <= v@.len(),
            (None, None) => true,
            _ => false,
        }),
    decreases depth, 2int,
{
    if depth == 0 {
        return None;
    }
    let n = v.len();
    let j = skip_ws_exec(v, i);
    if j >= n {
        return None;
    }
    proof {
        if parse_value(v@, i as int, depth as int) is Some {
            lemma_parse_value_bounds(v@, i as int, depth as int);
        }
    }
    let c = v[j];
    if c == '{' {
        parse_object_exec(v, j, depth)
    } else if c == '[' {
        parse_array_exec(v, j, depth)
    } else if c == '"' {
        match parse_str_body_exec(v, j + 1) {
            Some((content, end)) => {
                let s = crate::text::chars_to_string(&content);
                Some((JsonValue::Str(s), end))
            },
            None => None,
        }
    } else {
        let pat_true = crate::text::str_to_chars("true");
        let pat_false = crate::text::str_to_chars("false");
        let pat_null = crate::text::str_to_chars("null");
        proof {
            reveal_strlit("true");
            reveal_strlit("false");
            reveal_strlit("null");
        }
        if is_match_at_exec(v, &pat_true, j) {
            Some((JsonValue::Bool(true), j + 4))
        } else if is_match_at_exec(v, &pat_false, j) {
            Some((JsonValue::Bool(false), j + 5))
        } else if is_match_at_exec(v, &pat_null, j) {
            Some((JsonValue::Null, j + 4))
        } else {
            match parse_number_end_exec(v, j) {
                Some(end) => Some((JsonValue::Num, end)),
                None => None,
            }
        }
    }
}

/// Parses a JSON object whose `{` stands at `i`.
fn parse_object_exec(v: &Vec<char>, i: usize, depth: u32) -> (r: Option<(JsonValue, usize)>)
    requires
        i <= v@.len(),
        depth >= 1,
    ensures
        (match (r, parse_object(v@, i as int, depth as int)) {
            (Some((jv, e)), Some((sv, se))) => jv_view(jv) == sv && e as int == se && i < e
                <= v@.len(),
            (None, None) => true,
            _ => false,
        }),
    decreases depth, 1int,
{
    let n = v.len();
    if i >= n || v[i] != '{' {
        return None;
    }
    let e0 = skip_ws_exec(v, i + 1);
    if e0 < n && v[e0] == '}' {
        let empty: Vec<(String, JsonValue)> = Vec::new();
        proof {
            assert(pairs_view(empty@) =~= Seq::<(Seq<char>, Jv)>::empty());
        }
        return Some((JsonValue::Obj(empty), e0 + 1));
    }
    let mut pairs: Vec<(String, JsonValue)> = Vec::new();
    let mut p: usize = i + 1;
    proof {
        if parse_members(v@, p as int, depth as int) is Some {
            let (ps, e) = parse_members(v@, p as int, depth as int).unwrap();
            assert(pairs_view(pairs@) + ps =~= ps);
            lemma_parse_members_bounds(v@, p as int, depth as int);
        }
    }
    loop
        invariant
            n == v@.len(),
            i < n,
            v@[i as int] == '{',
            !(first_non_ws(v@, i + 1) < n && v@[first_non_ws(v@, i + 1)] == '}'),
            1 <= depth,
            i + 1 <= p <= n,
            (match parse_members(v@, p as int, depth as int) {
                Some((ps, e)) => parse_members(v@, i + 1, depth as int) == Some(
                    (pairs_view(pairs@) + ps, e),
                ) && p < e <= n,
                None => parse_members(v@, i + 1, depth as int) is None,
            }),
        decreases n - p,
    {
        let j = skip_ws_exec(v, p);
        if j >= n || v[j] != '"' {
            return None;
        }
        let (kchars, ke) = match parse_str_body_exec(v, j + 1) {
            Some(x) => x,
            None => {
                return None;
            },
        };
        proof {
            lemma_parse_str_body_bounds(v@, j + 1);
            assert(at_least(ke as int, j + 2) == ke as int);
        }
        let cpos = skip_ws_exec(v, ke);
        if cpos >= n || v[cpos] != ':' {
            return None;
        }
        let (jval, ve) = match parse_value_exec(v, cpos + 1, depth - 1) {
            Some(x) => x,
            None => {
                return None;
            },
        };
        proof {
            lemma_parse_value_bounds(v@, cpos + 1, depth - 1);
            assert(at_least(ve as int, cpos + 2) == ve as int);
        }
        let t = skip_ws_exec(v, ve);
        let key_string = crate::text::chars_to_string(&kchars);
        let ghost old_pairs = pairs@;
        if t < n && v[t] == ',' {
            proof {
                assert(parse_members(v@, p as int, depth as int) == (match parse_members(
                    v@,
                    t + 1,
                    depth as int,
                ) {
                    Some((rest, e)) => Some::<(Seq<(Seq<char>, Jv)>, int)>(
                        (seq![(kchars@, jv_view(jval))] + rest, e),
                    ),
                    None => None,
                }));
            }
            pairs.push((key_string, jval));
            p = t + 1;
            proof {
                assert(pairs_view(pairs@) =~= pairs_view(old_pairs) + seq![
                    (kchars@, jv_view(pairs@[pairs@.len() - 1].1)),
                ]);
                if parse_members(v@, p as int, depth as int) is Some {
                    let (rest, e) = parse_members(v@, p as int, depth as int).unwrap();
                    assert(pairs_view(old_pairs) + (seq![(kchars@, jv_view(pairs@[pairs@.len()
                        - 1].1))] + rest) =~= pairs_view(pairs@) + rest);
                    lemma_parse_members_bounds(v@, p as int, depth as int);
                }
            }
        } else if t < n && v[t] == '}' {
            proof {
                assert(parse_members(v@, p as int, depth as int) == Some::<
                    (Seq<(Seq<char>, Jv)>, int),
                >((seq![(kchars@, jv_view(jval))], t + 1)));
            }
            pairs.push((key_string, jval));
            proof {
                assert(pairs_view(pairs@) =~= pairs_view(old_pairs) + seq![
                    (kchars@, jv_view(pairs@[pairs@.len() - 1].1)),
                ]);
                assert(pairs_view(old_pairs) + seq![(kchars@, jv_view(pairs@[pairs@.len()
                    - 1].1))] =~= pairs_view(pairs@));
            }
            return Some((JsonValue::Obj(pairs), t + 1));
        } else {
            return None;
        }
    }
}

/// Parses a JSON array whose `[` stands at `i`.
fn parse_array_exec(v: &Vec<char>, i: usize, depth: u32) -> (r: Option<(JsonValue, usize)>)
    requires
        i <= v@.len(),
        depth >= 1,
    ensures
        (match (r, parse_array(v@, i as int, depth as int)) {
            (Some((jv, e)), Some((sv, se))) => jv_view(jv) == sv && e as int == se && i < e
                <= v@.len(),
            (None, None) => true,
            _ => false,
        }),
    decreases depth, 1int,
{
    let n = v.len();
    if i >= n || v[i] != '[' {
        return None;
    }
    let e0 = skip_ws_exec(v, i + 1);
    if e0 < n && v[e0] == ']' {
        let empty: Vec<JsonValue> = Vec::new();
        proof {
            assert(items_view(empty@) =~= Seq::<Jv>::empty());
        }
        return Some((JsonValue::Arr(empty), e0 + 1));
    }
    let mut items: Vec<JsonValue> = Vec::new();
    let mut p: usize = i + 1;
    proof {
        if parse_elems(v@, p as int, depth as int) is Some {
            let (its, e) = parse_elems(v@, p as int, depth as int).unwrap();
            assert(items_view(items@) + its =~= its);
            lemma_parse_elems_bounds(v@, p as int, depth as int);
        }
    }
    loop
        invariant
            n == v@.len(),
            i < n,
            v@[i as int] == '[',
            !(first_non_ws(v@, i + 1) < n && v@[first_non_ws(v@, i + 1)] == ']'),
            1 <= depth,
            i + 1 <= p <= n,
            (match parse_elems(v@, p as int, depth as int) {
                Some((its, e)) => parse_elems(v@, i + 1, depth as int) == Some(
                    (items_view(items@) + its, e),
                ) && p < e <= n,
                None => parse_elems(v@, i + 1, depth as int) is None,
            }),
        decreases n - p,
    {
        let (jval, ve) = match parse_value_exec(v, p, depth - 1) {
            Some(x) => x,
            None => {
                return None;
            },
        };
        proof {
            lemma_parse_value_bounds(v@, p as int, depth - 1);
            assert(at_least(ve as int, p + 1) == ve as int);
        }
        let t = skip_ws_exec(v, ve);
        let ghost old_items = items@;
        if t < n && v[t] == ',' {
            proof {
                assert(parse_elems(v@, p as int, depth as int) == (match parse_elems(
                    v@,
                    t + 1,
                    depth as int,
                ) {
                    Some((rest, e)) => Some::<(Seq<Jv>, int)>((seq![jv_view(jval)] + rest, e)),
                    None => None,
                }));
            }
            items.push(jval);
            p = t + 1;
            proof {
                assert(items_view(items@) =~= items_view(old_items) + seq![
                    jv_view(items@[items@.len() - 1]),
                ]);
                if parse_elems(v@, p as int, depth as int) is Some {
                    let (rest, e) = parse_elems(v@, p as int, depth as int).unwrap();
                    assert(items_view(old_items) + (seq![jv_view(items@[items@.len() - 1])] + rest)
                        =~= items_view(items@) + rest);
                    lemma_parse_elems_bounds(v@, p as int, depth as int);
                }
            }
        } else if t < n && v[t] == ']' {
            proof {
                assert(parse_elems(v@, p as int, depth as int) == Some::<(Seq<Jv>, int)>(
                    (seq![jv_view(jval)], t + 1),
                ));
            }
            items.push(jval);
            proof {
                assert(items_view(items@) =~= items_view(old_items) + seq![
                    jv_view(items@[items@.len() - 1]),
                ]);
                assert(items_view(old_items) + seq![jv_view(items@[items@.len() - 1])]
                    =~= items_view(items@));
            }
            return Some((JsonValue::Arr(items), t + 1));
        } else {
            return None;
        }
    }
}

/// Parses a complete JSON document: one value with only whitespace after it.
pub fn parse_json(s: &str) -> (r: Option<JsonValue>)
    ensures
        (match (r, parse_json_spec(s@)) {
            (Some(jv), Some(sv)) => jv_view(jv) == sv,
            (None, None) => true,
            _ => false,
        }),
{
    let v = crate::text::str_to_chars(s);
    match parse_value_exec(&v, 0, MAX_DEPTH) {
        Some((jv, end)) => {
            let t = skip_ws_exec(&v, end);
            if t == v.len() {
                Some(jv)
            } else {
                None
            }
        },
        None => None,
    }
}

/// The value of the first member of `ps` whose key is `key`.
pub open spec fn obj_lookup(ps: Seq<(Seq<char>, Jv)>, key: Seq<char>) -> Option<Jv>
    decreases ps.len(),
{
    if ps.len() == 0 {
        None
    } else if ps[0].0 == key {
        Some(ps[0].1)
    } else {
        obj_lookup(ps.drop_first(), key)
    }
}

/// Removes and returns the first members of `pairs` named `key1` and `key2`.
pub fn obj_take2(pairs: Vec<(String, JsonValue)>, key1: &str, key2: &str) -> (r: (
    Option<JsonValue>,
    Option<JsonValue>,
))
    requires
        key1@ != key2@,
    ensures
        (match r.0 {
            Some(jv) => obj_lookup(pairs_view(pairs@), key1@) == Some(jv_view(jv)),
            None => obj_lookup(pairs_view(pairs@), key1@) is None,
        }),
        (match r.1 {
            Some(jv) => obj_lookup(pairs_view(pairs@), key2@) == Some(jv_view(jv)),
            None => obj_lookup(pairs_view(pairs@), key2@) is None,
        }),
{
    let ghost orig = pairs_view(pairs@);
    let mut rest = pairs;
    let mut out1: Option<JsonValue> = None;
    let mut out2: Option<JsonValue> = None;
    while rest.len() > 0
        invariant
            key1@ != key2@,
            out1 matches Some(jv) ==> obj_lookup(orig, key1@) == Some(jv_view(jv)),
            out1 is None ==> obj_lookup(orig, key1@) == obj_lookup(pairs_view(rest@), key1@),
            out2 matches Some(jv) ==> obj_lookup(orig, key2@) == Some(jv_view(jv)),
            out2 is None ==> obj_lookup(orig, key2@) == obj_lookup(pairs_view(rest@), key2@),
        decreases rest.len(),
    {
        let ghost pre = pairs_view(rest@);
        let (k, val) = rest.remove(0);
        proof {
            assert(pre[0] == (k@, jv_view(val)));
            assert(pre.drop_first() =~= pairs_view(rest@));
        }
        let m1 = crate::text::str_eq(k.as_str(), key1);
        let m2 = crate::text::str_eq(k.as_str(), key2);
        if m1 && out1.is_none() {
            proof {
                assert(pre[0].0 == key1@);
                assert(obj_lookup(pre, key1@) == Some(jv_view(val)));
            }
            out1 = Some(val);
        } else if m2 && out2.is_none() {
            proof {
                assert(pre[0].0 == key2@);
                assert(obj_lookup(pre, key2@) == Some(jv_view(val)));
            }
            out2 = Some(val);
        }
        proof {
            if out2 is None {
                assert(obj_lookup(orig, key2@) == obj_lookup(pre, key2@));
                assert(pre[0].0 != key2@);
                assert(obj_lookup(pre, key2@) == obj_lookup(pre.drop_first(), key2@));
                assert(pre.drop_first() == pairs_view(rest@));
                assert(obj_lookup(orig, key2@) == obj_lookup(pairs_view(rest@), key2@));
            }
        }
    }
    proof {
        assert(pairs_view(rest@) =~= Seq::<(Seq<char>, Jv)>::empty());
    }
    (out1, out2)
}

/// Removes and returns the first member of `pairs` named `key`.
pub fn obj_take(pairs: Vec<(String, JsonValue)>, key: &str) -> (r: Option<JsonValue>)
    ensures
        (match r {
            Some(jv) => obj_lookup(pairs_view(pairs@), key@) == Some(jv_view(jv)),
            None => obj_lookup(pairs_view(pairs@), key@) is None,
        }),
{
    let ghost orig = pairs_view(pairs@);
    let mut rest = pairs;
    while rest.len() > 0
        invariant
            orig == pairs_view(pairs@),
            obj_lookup(orig, key@) == obj_lookup(pairs_view(rest@), key@),
        decreases rest.len(),
    {
        let ghost pre = pairs_view(rest@);
        let (k, val) = rest.remove(0);
        proof {
            assert(pre[0] == (k@, jv_view(val)));
            assert(pre.drop_first() =~= pairs_view(rest@));
        }
        if crate::text::str_eq(k.as_str(), key) {
            return Some(val);
        }
    }
    proof {
        assert(pairs_view(rest@) =~= Seq::<(Seq<char>, Jv)>::empty());
    }
    None
}

/// The character for one hexadecimal digit (lower case).
pub open spec fn hex_digit_char(d: int) -> char {
    if d < 10 {
        digit_char(d)
    } else if d == 10 {
        'a'
    } else if d == 11 {
        'b'
    } else if d == 12 {
        'c'
    } else if d == 13 {
        'd'
    } else if d == 14 {
        'e'
    } else {
        'f'
    }
}

/// How one character is written inside a JSON string literal.
pub open spec fn escape_char_spec(c: char) -> Seq<char> {
    if c == '"' {
        seq!['\\', '"']
    } else if c == '\\' {
        seq!['\\', '\\']
    } else if c == '\n' {
        seq!['\\', 'n']
    } else if c == '\r' {
        seq!['\\', 'r']
    } else if c == '\t' {
        seq!['\\', 't']
    } else if c == '\u{08}' {
        seq!['\\', 'b']
    } else if c == '\u{0C}' {
        seq!['\\', 'f']
    } else if (c as int) < 0x20 {
        seq!['\\', 'u', '0', '0', hex_digit_char(c as int / 16), hex_digit_char(c as int % 16)]
    } else {
        seq![c]
    }
}

/// The escaped form of a whole string.
pub open spec fn escape_spec(s: Seq<char>) -> Seq<char>
    decreases s.len(),
{
    if s.len() == 0 {
        Seq::empty()
    } else {
        escape_char_spec(s[0]) + escape_spec(s.drop_first())
    }
}

pub proof fn lemma_escape_concat(a: Seq<char>, b: Seq<char>)
    ensures
        escape_spec(a + b) == escape_spec(a) + escape_spec(b),
    decreases a.len(),
{
    if a.len() == 0 {
        assert(a + b =~= b);
        assert(escape_spec(a) + escape_spec(b) =~= escape_spec(b));
    } else {
        assert((a + b).len() > 0);
        assert((a + b)[0] == a[0]);
        assert((a + b).drop_first() =~= a.drop_first() + b);
        lemma_escape_concat(a.drop_first(), b);
        assert(escape_char_spec(a[0]) + (escape_spec(a.drop_first()) + escape_spec(b))
            =~= (escape_char_spec(a[0]) + escape_spec(a.drop_first())) + escape_spec(b));
    }
}

/// A JSON string literal: quote, escaped content, quote.
pub open spec fn quote_spec(s: Seq<char>) -> Seq<char> {
    seq!['"'] + escape_spec(s) + seq!['"']
}

/// Relies on the `char` to `u32` cast: it yields the character's code point.
#[verifier::external_body]
fn char_code(c: char) -> (r: u32)
    ensures
        r as int == c as int,
{
    c as u32
}

/// The character for hexadecimal digit `d`.
fn hex_digit_char_exec(d: u32) -> (r: char)
    requires
        d < 16,
    ensures
        r == hex_digit_char(d as int),
{
    if d < 10 {
        crate::text::digit_char_exec(d as u64)
    } else if d == 10 {
        'a'
    } else if d == 11 {
        'b'
    } else if d == 12 {
        'c'
    } else if d == 13 {
        'd'
    } else if d == 14 {
        'e'
    } else {
        'f'
    }
}

/// Appends the escaped form of `s` to `out`.
pub fn escape_into(out: &mut String, s: &str)
    ensures
        final(out)@ == old(out)@ + escape_spec(s@),
{
    let chars = crate::text::str_to_chars(s);
    let n = chars.len();
    let mut i: usize = 0;
    proof {
        assert(old(out)@ + escape_spec(chars@.subrange(0, 0)) =~= old(out)@);
    }
    while i < n
        invariant
            n == chars@.len(),
            chars@ == s@,
            i <= n,
            out@ == old(out)@ + escape_spec(chars@.subrange(0, i as int)),
        decreases n - i,
    {
        let c = chars[i];
        let ghost pre = chars@.subrange(0, i as int);
        if c == '"' {
            crate::text::push_char(out, '\\');
            crate::text::push_char(out, '"');
        } else if c == '\\' {
            crate::text::push_char(out, '\\');
            crate::text::push_char(out, '\\');
        } else if c == '\n' {
            crate::text::push_char(out, '\\');
            crate::text::push_char(out, 'n');
        } else if c == '\r' {
            crate::text::push_char(out, '\\');
            crate::text::push_char(out, 'r');
        } else if c == '\t' {
            crate::text::push_char(out, '\\');
            crate::text::push_char(out, 't');
        } else if c == '\u{08}' {
            crate::text::push_char(out, '\\');
            crate::text::push_char(out, 'b');
        } else if c == '\u{0C}' {
            crate::text::push_char(out, '\\');
            crate::text::push_char(out, 'f');
        } else if is_control(c) {
            let code = char_code(c);
            proof {
                assert(code < 0x20);
            }
            crate::text::push_char(out, '\\');
            crate::text::push_char(out, 'u');
            crate::text::push_char(out, '0');
            crate::text::push_char(out, '0');
            crate::text::push_char(out, hex_digit_char_exec(code / 16));
            crate::text::push_char(out, hex_digit_char_exec(code % 16));
        } else {
            crate::text::push_char(out, c);
        }
        proof {
            assert(out@ =~= old(out)@ + (escape_spec(pre) + escape_char_spec(chars@[i as int])));
            assert(pre + seq![chars@[i as int]] =~= chars@.subrange(0, i + 1));
            lemma_escape_concat(pre, seq![chars@[i as int]]);
            assert(seq![chars@[i as int]].drop_first() =~= Seq::<char>::empty());
            assert(escape_spec(Seq::<char>::empty()) =~= Seq::<char>::empty());
            assert(escape_spec(seq![chars@[i as int]]) =~= escape_char_spec(chars@[i as int]));
            assert(out@ =~= old(out)@ + escape_spec(chars@.subrange(0, i + 1)));
        }
        i += 1;
    }
    proof {
        assert(chars@.subrange(0, n as int) =~= s@);
    }
}

/// Appends the JSON string literal for `s` to `out`.
pub fn quote_into(out: &mut String, s: &str)
    ensures
        final(out)@ == old(out)@ + quote_spec(s@),
{
    crate::text::push_char(out, '"');
    escape_into(out, s);
    crate::text::push_char(out, '"');
    proof {
        assert(old(out)@ + quote_spec(s@) =~= ((old(out)@ + seq!['"']) + escape_spec(s@)).push(
            '"',
        ));
    }
}

} // verus!
