//! Character-sequence utilities shared by the parsing and formatting logic.
//!
//! Text is modelled as `Seq<char>`; executable code works on `Vec<char>`
//! obtained from `&str` once at the boundary.  Whitespace here means ASCII
//! whitespace (space, tab, carriage return, line feed).

use vstd::prelude::*;

verus! {

/// ASCII whitespace, the only whitespace this crate trims.
pub open spec fn is_space(c: char) -> bool {
    c == ' ' || c == '\t' || c == '\n' || c == '\r'
}

/// Index of the first non-whitespace character at or after `i`, or `s.len()`.
pub open spec fn first_non_ws(s: Seq<char>, i: int) -> int
    decreases s.len() - i,
{
    if i < 0 {
        i
    } else if i >= s.len() || !is_space(s[i]) {
        i
    } else {
        first_non_ws(s, i + 1)
    }
}

/// End (exclusive) of the last non-whitespace character before `j`, or 0.
pub open spec fn last_non_ws_end(s: Seq<char>, j: int) -> int
    decreases j,
{
    if j <= 0 {
        0
    } else if !is_space(s[j - 1]) {
        j
    } else {
        last_non_ws_end(s, j - 1)
    }
}

/// `s` with leading and trailing ASCII whitespace removed.
pub open spec fn trim_spec(s: Seq<char>) -> Seq<char> {
    let a = first_non_ws(s, 0);
    if a == s.len() {
        Seq::empty()
    } else {
        s.subrange(a, last_non_ws_end(s, s.len() as int))
    }
}

pub proof fn lemma_first_non_ws_bounds(s: Seq<char>, i: int)
    requires
        0 <= i <= s.len(),
    ensures
        i <= first_non_ws(s, i) <= s.len(),
        forall|k: int| i <= k < first_non_ws(s, i) ==> is_space(s[k]),
        first_non_ws(s, i) < s.len() ==> !is_space(s[first_non_ws(s, i)]),
    decreases s.len() - i,
{
    if i < s.len() && is_space(s[i]) {
        lemma_first_non_ws_bounds(s, i + 1);
    }
}

pub proof fn lemma_last_non_ws_end_bounds(s: Seq<char>, j: int)
    requires
        0 <= j <= s.len(),
    ensures
        0 <= last_non_ws_end(s, j) <= j,
        forall|k: int| last_non_ws_end(s, j) <= k < j ==> is_space(s[k]),
        last_non_ws_end(s, j) > 0 ==> !is_space(s[last_non_ws_end(s, j) - 1]),
    decreases j,
{
    if j > 0 && is_space(s[j - 1]) {
        lemma_last_non_ws_end_bounds(s, j - 1);
    }
}

/// A trimmed sequence is its own trimming.
pub proof fn lemma_trim_of_trimmed(s: Seq<char>)
    requires
        s.len() > 0 ==> !is_space(s[0]),
        s.len() > 0 ==> !is_space(s[s.len() - 1]),
    ensures
        trim_spec(s) == s,
{
    if s.len() == 0 {
        assert(first_non_ws(s, 0) == 0);
        assert(trim_spec(s) =~= s);
    } else {
        assert(first_non_ws(s, 0) == 0);
        assert(last_non_ws_end(s, s.len() as int) == s.len());
        assert(trim_spec(s) =~= s);
    }
}

/// The characters of `s`, in order.
pub fn str_to_chars(s: &str) -> (r: Vec<char>)
    ensures
        r@ == s@,
{
    let n = s.unicode_len();
    let mut v: Vec<char> = Vec::new();
    let mut i: usize = 0;
    while i < n
        invariant
            n == s@.len(),
            i <= n,
            v@ == s@.subrange(0, i as int),
        decreases n - i,
    {
        v.push(s.get_char(i));
        i += 1;
        proof {
            assert(v@ =~= s@.subrange(0, i as int));
        }
    }
    proof {
        assert(v@ =~= s@);
    }
    v
}

/// Relies on `String::push`: appends exactly the given character.
#[verifier::external_body]
pub fn push_char(s: &mut String, c: char)
    ensures
        final(s)@ == old(s)@.push(c),
{
    s.push(c);
}

/// A `String` holding exactly the characters of `v`.
pub fn chars_to_string(v: &Vec<char>) -> (r: String)
    ensures
        r@ == v@,
{
    let mut out = String::new();
    let mut i: usize = 0;
    let n = v.len();
    while i < n
        invariant
            n == v@.len(),
            i <= n,
            out@ == v@.subrange(0, i as int),
        decreases n - i,
    {
        push_char(&mut out, v[i]);
        i += 1;
        proof {
            assert(out@ =~= v@.subrange(0, i as int));
        }
    }
    proof {
        assert(out@ =~= v@);
    }
    out
}

/// Relies on `str`'s `PartialEq`: equal exactly when the characters are equal.
#[verifier::external_body]
pub fn str_eq(a: &str, b: &str) -> (r: bool)
    ensures
        r == (a@ == b@),
{
    a == b
}

/// Whether `pat` occurs in `hay` starting at `i`.
pub open spec fn is_match_at(hay: Seq<char>, pat: Seq<char>, i: int) -> bool {
    0 <= i && i + pat.len() <= hay.len() && hay.subrange(i, i + pat.len()) == pat
}

/// The first index `>= from` where `pat` occurs in `hay`.
pub open spec fn first_match_from(hay: Seq<char>, pat: Seq<char>, from: int) -> Option<int>
    decreases hay.len() - from,
{
    if from < 0 || from + pat.len() > hay.len() {
        None
    } else if is_match_at(hay, pat, from) {
        Some(from)
    } else {
        proof {
            if pat.len() == 0 {
                assert(hay.subrange(from, from) =~= pat);
            }
        }
        first_match_from(hay, pat, from + 1)
    }
}

pub proof fn lemma_first_match_from_bounds(hay: Seq<char>, pat: Seq<char>, from: int)
    requires
        first_match_from(hay, pat, from) is Some,
    ensures
        from <= first_match_from(hay, pat, from).unwrap(),
        first_match_from(hay, pat, from).unwrap() + pat.len() <= hay.len(),
        is_match_at(hay, pat, first_match_from(hay, pat, from).unwrap()),
    decreases hay.len() - from,
{
    if !(from < 0 || from + pat.len() > hay.len()) && !is_match_at(hay, pat, from) {
        if pat.len() == 0 {
            assert(hay.subrange(from, from) =~= pat);
        }
        lemma_first_match_from_bounds(hay, pat, from + 1);
    }
}

/// First occurrence of `pat` in `hay` at or after `from`.
pub fn find_sub_from(hay: &Vec<char>, pat: &Vec<char>, from: usize) -> (r: Option<usize>)
    requires
        from <= hay@.len(),
    ensures
        (match r {
            Some(i) => Some(i as int),
            None => None,
        }) == first_match_from(hay@, pat@, from as int),
{
    let n = hay.len();
    let m = pat.len();
    let mut i = from;
    loop
        invariant
            n == hay@.len(),
            m == pat@.len(),
            from <= i <= n,
            first_match_from(hay@, pat@, from as int) == first_match_from(hay@, pat@, i as int),
        decreases n - i,
    {
        if m > n - i {
            return None;
        }
        let mut k: usize = 0;
        while k < m && hay[i + k] == pat[k]
            invariant
                n == hay@.len(),
                m == pat@.len(),
                i + m <= n,
                k <= m,
                forall|kk: int| 0 <= kk < k ==> hay@[i + kk] == pat@[kk],
            decreases m - k,
        {
            k += 1;
        }
        if k == m {
            proof {
                assert(hay@.subrange(i as int, i + m) =~= pat@);
            }
            return Some(i);
        }
        proof {
            assert(hay@[i + k] != pat@[k as int]);
            assert(hay@.subrange(i as int, i + m)[k as int] == hay@[i + k as int]);
            assert(hay@.subrange(i as int, i + m) != pat@);
            assert(!is_match_at(hay@, pat@, i as int));
        }
        i += 1;
    }
}

/// Whether `pat` occurs anywhere in `hay`.
pub open spec fn contains_sub(hay: Seq<char>, pat: Seq<char>) -> bool {
    first_match_from(hay, pat, 0) is Some
}

/// Whether `pat` occurs anywhere in `hay`.
pub fn contains_sub_exec(hay: &Vec<char>, pat: &Vec<char>) -> (r: bool)
    ensures
        r == contains_sub(hay@, pat@),
{
    match find_sub_from(hay, pat, 0) {
        Some(_) => true,
        None => false,
    }
}

/// The first index `>= from` holding character `c`, or `None`.
pub open spec fn first_char_from(s: Seq<char>, c: char, from: int) -> Option<int>
    decreases s.len() - from,
{
    if from < 0 || from >= s.len() {
        None
    } else if s[from] == c {
        Some(from)
    } else {
        first_char_from(s, c, from + 1)
    }
}

pub proof fn lemma_first_char_from_bounds(s: Seq<char>, c: char, from: int)
    requires
        first_char_from(s, c, from) is Some,
    ensures
        from <= first_char_from(s, c, from).unwrap() < s.len(),
        s[first_char_from(s, c, from).unwrap()] == c,
    decreases s.len() - from,
{
    if !(from < 0 || from >= s.len()) && s[from] != c {
        lemma_first_char_from_bounds(s, c, from + 1);
    }
}

/// First occurrence of character `c` in `s` at or after `from`.
pub fn find_char_from(s: &Vec<char>, c: char, from: usize) -> (r: Option<usize>)
    requires
        from <= s@.len(),
    ensures
        (match r {
            Some(i) => Some(i as int),
            None => None,
        }) == first_char_from(s@, c, from as int),
{
    let n = s.len();
    let mut i = from;
    while i < n
        invariant
            n == s@.len(),
            from <= i <= n,
            first_char_from(s@, c, from as int) == first_char_from(s@, c, i as int),
        decreases n - i,
    {
        if s[i] == c {
            return Some(i);
        }
        i += 1;
    }
    None
}

/// The last index before `upto` holding character `c`, or `None`.
pub open spec fn last_char_before(s: Seq<char>, c: char, upto: int) -> Option<int>
    decreases upto,
{
    if upto <= 0 || upto > s.len() {
        None
    } else if s[upto - 1] == c {
        Some(upto - 1)
    } else {
        last_char_before(s, c, upto - 1)
    }
}

pub proof fn lemma_last_char_before_bounds(s: Seq<char>, c: char, upto: int)
    requires
        last_char_before(s, c, upto) is Some,
    ensures
        0 <= last_char_before(s, c, upto).unwrap() < upto,
        s[last_char_before(s, c, upto).unwrap()] == c,
    decreases upto,
{
    if !(upto <= 0 || upto > s.len()) && s[upto - 1] != c {
        lemma_last_char_before_bounds(s, c, upto - 1);
    }
}

/// Last occurrence of character `c` strictly before index `upto`.
pub fn rfind_char_before(s: &Vec<char>, c: char, upto: usize) -> (r: Option<usize>)
    requires
        upto <= s@.len(),
    ensures
        (match r {
            Some(i) => Some(i as int),
            None => None,
        }) == last_char_before(s@, c, upto as int),
{
    let mut j = upto;
    while j > 0
        invariant
            upto <= s@.len(),
            j <= upto,
            last_char_before(s@, c, upto as int) == last_char_before(s@, c, j as int),
        decreases j,
    {
        if s[j - 1] == c {
            return Some(j - 1);
        }
        j -= 1;
    }
    None
}

/// The characters of `v` from `a` (inclusive) to `b` (exclusive).
pub fn subvec(v: &Vec<char>, a: usize, b: usize) -> (r: Vec<char>)
    requires
        a <= b <= v@.len(),
    ensures
        r@ == v@.subrange(a as int, b as int),
{
    let mut out: Vec<char> = Vec::new();
    let mut i = a;
    while i < b
        invariant
            a <= i <= b <= v@.len(),
            out@ == v@.subrange(a as int, i as int),
        decreases b - i,
    {
        out.push(v[i]);
        i += 1;
        proof {
            assert(out@ =~= v@.subrange(a as int, i as int));
        }
    }
    out
}

/// Bounds of `v` with leading and trailing ASCII whitespace removed, so that
/// `v[a..b]` is the trimmed text.
pub fn trim_bounds(v: &Vec<char>) -> (r: (usize, usize))
    ensures
        r.0 <= r.1 <= v@.len(),
        v@.subrange(r.0 as int, r.1 as int) == trim_spec(v@),
{
    let n = v.len();
    let mut a: usize = 0;
    while a < n && is_space_exec(v[a])
        invariant
            n == v@.len(),
            a <= n,
            first_non_ws(v@, 0) == first_non_ws(v@, a as int),
        decreases n - a,
    {
        a += 1;
    }
    proof {
        lemma_first_non_ws_bounds(v@, a as int);
        assert(first_non_ws(v@, a as int) == a);
    }
    if a == n {
        proof {
            assert(v@.subrange(a as int, a as int) =~= trim_spec(v@));
        }
        return (a, a);
    }
    let mut b: usize = n;
    while b > a && is_space_exec(v[b - 1])
        invariant
            n == v@.len(),
            a < n,
            !is_space(v@[a as int]),
            a < b <= n,
            last_non_ws_end(v@, n as int) == last_non_ws_end(v@, b as int),
        decreases b,
    {
        b -= 1;
    }
    proof {
        assert(!is_space(v@[b - 1]));
        assert(last_non_ws_end(v@, b as int) == b);
    }
    (a, b)
}

/// Executable check for [`is_space`].
pub fn is_space_exec(c: char) -> (r: bool)
    ensures
        r == is_space(c),
{
    c == ' ' || c == '\t' || c == '\n' || c == '\r'
}

/// The lower-case form of an ASCII letter; other characters are unchanged.
pub open spec fn lower_char(c: char) -> char {
    if 'A' <= c && c <= 'Z' {
        ((c as u8) + 32) as char
    } else {
        c
    }
}

/// `s` with every ASCII upper-case letter lowered.
pub open spec fn lower_spec(s: Seq<char>) -> Seq<char> {
    s.map_values(|c: char| lower_char(c))
}

/// Executable ASCII lower-casing of one character.
pub fn lower_char_exec(c: char) -> (r: char)
    ensures
        r == lower_char(c),
{
    if 'A' <= c && c <= 'Z' {
        ((c as u8) + 32) as char
    } else {
        c
    }
}

/// `v` with every ASCII upper-case letter lowered.
pub fn lower_chars(v: &Vec<char>) -> (r: Vec<char>)
    ensures
        r@ == lower_spec(v@),
{
    let n = v.len();
    let mut out: Vec<char> = Vec::new();
    let mut i: usize = 0;
    while i < n
        invariant
            n == v@.len(),
            i <= n,
            out@ == v@.subrange(0, i as int).map_values(|c: char| lower_char(c)),
        decreases n - i,
    {
        out.push(lower_char_exec(v[i]));
        i += 1;
        proof {
            assert(out@ =~= v@.subrange(0, i as int).map_values(|c: char| lower_char(c)));
        }
    }
    proof {
        assert(v@.subrange(0, n as int) =~= v@);
    }
    out
}

/// The character for one decimal digit.
pub open spec fn digit_char(d: int) -> char {
    if d == 0 {
        '0'
    } else if d == 1 {
        '1'
    } else if d == 2 {
        '2'
    } else if d == 3 {
        '3'
    } else if d == 4 {
        '4'
    } else if d == 5 {
        '5'
    } else if d == 6 {
        '6'
    } else if d == 7 {
        '7'
    } else if d == 8 {
        '8'
    } else {
        '9'
    }
}

/// The decimal digits of `n`, most significant first, no leading zeroes
/// (except for `n == 0` itself).
pub open spec fn dec_digits(n: nat) -> Seq<char>
    decreases n,
{
    if n < 10 {
        seq![digit_char(n as int)]
    } else {
        dec_digits(n / 10) + seq![digit_char((n % 10) as int)]
    }
}

/// The decimal rendering of an integer, with a minus sign when negative.
pub open spec fn dec_int(n: int) -> Seq<char> {
    if n < 0 {
        seq!['-'] + dec_digits((-n) as nat)
    } else {
        dec_digits(n as nat)
    }
}

/// The character for digit `d`.
pub fn digit_char_exec(d: u64) -> (r: char)
    requires
        d < 10,
    ensures
        r == digit_char(d as int),
{
    if d == 0 {
        '0'
    } else if d == 1 {
        '1'
    } else if d == 2 {
        '2'
    } else if d == 3 {
        '3'
    } else if d == 4 {
        '4'
    } else if d == 5 {
        '5'
    } else if d == 6 {
        '6'
    } else if d == 7 {
        '7'
    } else if d == 8 {
        '8'
    } else {
        '9'
    }
}

/// `n` written in decimal.
pub fn u64_to_dec(n: u64) -> (r: String)
    ensures
        r@ == dec_digits(n as nat),
    decreases n,
{
    if n < 10 {
        let mut s = String::new();
        push_char(&mut s, digit_char_exec(n));
        proof {
            assert(s@ =~= dec_digits(n as nat));
        }
        s
    } else {
        proof {
            assert(n / 10 < n) by (nonlinear_arith)
                requires
                    n >= 10,
            ;
        }
        let mut s = u64_to_dec(n / 10);
        push_char(&mut s, digit_char_exec(n % 10));
        proof {
            assert(s@ =~= dec_digits(n as nat));
        }
        s
    }
}

/// `n` written in decimal, with a minus sign when negative.
pub fn i32_to_dec(n: i32) -> (r: String)
    ensures
        r@ == dec_int(n as int),
{
    if n >= 0 {
        u64_to_dec(n as u64)
    } else {
        let wide: i64 = n as i64;
        let mag: u64 = (-wide) as u64;
        let mut s = String::new();
        push_char(&mut s, '-');
        let digits = u64_to_dec(mag);
        s.append(digits.as_str());
        proof {
            assert(s@ =~= dec_int(n as int));
        }
        s
    }
}

/// A decimal digit.
pub open spec fn is_dec_digit(c: char) -> bool {
    '0' <= c && c <= '9'
}

/// The value of one decimal digit character.
pub open spec fn digit_val(c: char) -> int {
    c as int - '0' as int
}

/// A non-empty, all-digit sequence.
pub open spec fn is_digits(s: Seq<char>) -> bool {
    s.len() > 0 && forall|i: int| 0 <= i < s.len() ==> is_dec_digit(#[trigger] s[i])
}

/// The number written by a digit sequence.
pub open spec fn dec_val(s: Seq<char>) -> int
    decreases s.len(),
{
    if s.len() == 0 {
        0
    } else {
        dec_val(s.drop_last()) * 10 + digit_val(s.last())
    }
}

pub proof fn lemma_dec_val_nonneg(s: Seq<char>)
    requires
        forall|i: int| 0 <= i < s.len() ==> is_dec_digit(#[trigger] s[i]),
    ensures
        dec_val(s) >= 0,
    decreases s.len(),
{
    if s.len() > 0 {
        lemma_dec_val_nonneg(s.drop_last());
    }
}

pub proof fn lemma_dec_val_prefix(s: Seq<char>, j: int)
    requires
        forall|i: int| 0 <= i < s.len() ==> is_dec_digit(#[trigger] s[i]),
        0 <= j <= s.len(),
    ensures
        dec_val(s.subrange(0, j)) <= dec_val(s),
    decreases s.len(),
{
    if j == s.len() {
        assert(s.subrange(0, j) =~= s);
    } else {
        let d = s.drop_last();
        assert(forall|i: int| 0 <= i < d.len() ==> is_dec_digit(#[trigger] d[i]));
        assert(d.subrange(0, j) =~= s.subrange(0, j));
        lemma_dec_val_prefix(d, j);
        lemma_dec_val_nonneg(d);
    }
}

/// The value of an all-digit sequence, or `None` when the text is not a
/// plain decimal number or does not fit in a `u64`.
pub fn parse_u64_chars(v: &Vec<char>) -> (r: Option<u64>)
    ensures
        (match r {
            Some(x) => is_digits(v@) && x as int == dec_val(v@),
            None => !is_digits(v@) || dec_val(v@) > u64::MAX,
        }),
{
    let n = v.len();
    if n == 0 {
        return None;
    }
    let mut acc: u64 = 0;
    let mut i: usize = 0;
    while i < n
        invariant
            n == v@.len(),
            i <= n,
            forall|k: int| 0 <= k < i ==> is_dec_digit(#[trigger] v@[k]),
            acc as int == dec_val(v@.subrange(0, i as int)),
        decreases n - i,
    {
        let c = v[i];
        if !('0' <= c && c <= '9') {
            return None;
        }
        let d: u64 = (c as u64) - ('0' as u64);
        if acc > (u64::MAX - d) / 10 {
            proof {
                let pre = v@.subrange(0, i + 1);
                assert(forall|k: int| 0 <= k < pre.len() ==> is_dec_digit(#[trigger] pre[k]));
                assert(pre.drop_last() =~= v@.subrange(0, i as int));
                assert(dec_val(pre) == acc * 10 + d);
                assert(acc * 10 + d > u64::MAX) by (nonlinear_arith)
                    requires
                        acc > (u64::MAX - d) / 10,
                        d < 10,
                ;
                if is_digits(v@) {
                    lemma_dec_val_prefix(v@, i + 1);
                }
            }
            return None;
        }
        proof {
            assert(acc * 10 + d <= u64::MAX) by (nonlinear_arith)
                requires
                    acc <= (u64::MAX - d) / 10,
                    d < 10,
            ;
            let pre = v@.subrange(0, i + 1);
            assert(pre.drop_last() =~= v@.subrange(0, i as int));
            assert(dec_val(pre) == acc * 10 + d);
        }
        acc = acc * 10 + d;
        i += 1;
    }
    proof {
        assert(v@.subrange(0, n as int) =~= v@);
    }
    Some(acc)
}

/// Parses a plain decimal `u64` from a string slice.
pub fn parse_u64_str(s: &str) -> (r: Option<u64>)
    ensures
        (match r {
            Some(x) => is_digits(s@) && x as int == dec_val(s@),
            None => !is_digits(s@) || dec_val(s@) > u64::MAX,
        }),
{
    let v = str_to_chars(s);
    parse_u64_chars(&v)
}

/// Parses `"true"` or `"false"`.
pub fn parse_bool_str(s: &str) -> (r: Option<bool>)
    ensures
        (match r {
            Some(b) => (b ==> s@ == "true"@) && (!b ==> s@ == "false"@),
            None => s@ != "true"@ && s@ != "false"@,
        }),
{
    if str_eq(s, "true") {
        Some(true)
    } else if str_eq(s, "false") {
        Some(false)
    } else {
        None
    }
}

/// `s` with every occurrence of `pat` replaced by `rep`, scanning left to
/// right; an empty pattern replaces nothing.
pub open spec fn replace_all_spec(s: Seq<char>, pat: Seq<char>, rep: Seq<char>) -> Seq<char>
    decreases s.len(),
{
    if pat.len() == 0 {
        s
    } else {
        match first_match_from(s, pat, 0) {
            Some(i) => {
                proof {
                    lemma_first_match_from_bounds(s, pat, 0);
                }
                s.subrange(0, i) + rep + replace_all_spec(
                    s.subrange(i + pat.len(), s.len() as int),
                    pat,
                    rep,
                )
            },
            None => s,
        }
    }
}

/// Replaces every occurrence of `pat` in `s` by `rep`, scanning left to
/// right.
pub fn replace_all(s: &Vec<char>, pat: &Vec<char>, rep: &Vec<char>) -> (r: Vec<char>)
    ensures
        r@ == replace_all_spec(s@, pat@, rep@),
{
    if pat.len() == 0 {
        return subvec(s, 0, s.len());
    }
    let mut out: Vec<char> = Vec::new();
    let mut cur: Vec<char> = subvec(s, 0, s.len());
    proof {
        assert(cur@ =~= s@);
    }
    loop
        invariant
            pat@.len() > 0,
            replace_all_spec(s@, pat@, rep@) == out@ + replace_all_spec(cur@, pat@, rep@),
        decreases cur@.len(),
    {
        match find_sub_from(&cur, pat, 0) {
            Some(i) => {
                let cur_n = cur.len();
                proof {
                    lemma_first_match_from_bounds(cur@, pat@, 0);
                    assert(i + pat@.len() <= cur@.len());
                }
                let ghost out0 = out@;
                let mut piece = subvec(&cur, 0, i);
                out.append(&mut piece);
                let mut rep2 = subvec(rep, 0, rep.len());
                out.append(&mut rep2);
                let new_cur = subvec(&cur, i + pat.len(), cur_n);
                proof {
                    assert(out@ =~= out0 + cur@.subrange(0, i as int) + rep@);
                    assert(replace_all_spec(cur@, pat@, rep@) == cur@.subrange(0, i as int) + rep@
                        + replace_all_spec(new_cur@, pat@, rep@));
                    assert(out@ + replace_all_spec(new_cur@, pat@, rep@) =~= out0
                        + replace_all_spec(cur@, pat@, rep@));
                }
                cur = new_cur;
            },
            None => {
                let mut rest = subvec(&cur, 0, cur.len());
                proof {
                    assert(rest@ =~= cur@);
                }
                out.append(&mut rest);
                proof {
                    assert(out@ =~= replace_all_spec(s@, pat@, rep@));
                }
                return out;
            },
        }
    }
}

/// `s` padded on the right with spaces to at least `w` characters.
pub open spec fn pad_to(s: Seq<char>, w: int) -> Seq<char> {
    if s.len() >= w {
        s
    } else {
        s + Seq::new((w - s.len()) as nat, |i: int| ' ')
    }
}

} // verus!
