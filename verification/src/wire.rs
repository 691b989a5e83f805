//! The wire format of the set routes: a JSON object with exactly the two
//! members `key` and `value`, in either order, with JSON whitespace allowed
//! around every token.
//!
//! The key is a JSON string with the single-character escapes
//! (`\" \\ \/ \b \f \n \r \t`); a `\u` escape is not accepted. A boolean
//! value is the literal `true` or `false`. A numeric value is a token of the
//! JSON number grammar, handed back as its exact character span: the
//! registry stores floating-point values by their bit patterns, so the host
//! converts the token to its number outside this crate. A body that does not
//! fit this shape is rejected as malformed, and the parse says so.

use vstd::prelude::*;
use vstd::string::*;

verus! {

/// A JSON whitespace character.
pub open spec fn is_json_ws(c: char) -> bool {
    c == ' ' || c == '\t' || c == '\n' || c == '\r'
}

/// A decimal digit.
pub open spec fn is_digit(c: char) -> bool {
    48 <= c as u32 <= 57
}

/// The first position at or after `i` that holds no whitespace.
pub open spec fn ws_end(s: Seq<char>, i: int) -> int
    decreases s.len() - i when 0 <= i <= s.len()
{
    if i < s.len() && is_json_ws(s[i]) {
        ws_end(s, i + 1)
    } else {
        i
    }
}

/// The first position at or after `i` that holds no digit.
pub open spec fn digits_end(s: Seq<char>, i: int) -> int
    decreases s.len() - i when 0 <= i <= s.len()
{
    if i < s.len() && is_digit(s[i]) {
        digits_end(s, i + 1)
    } else {
        i
    }
}

pub proof fn lemma_digits_end_bounds(s: Seq<char>, i: int)
    requires
        0 <= i <= s.len(),
    ensures
        i <= digits_end(s, i) <= s.len(),
    decreases s.len() - i,
{
    if i < s.len() && is_digit(s[i]) {
        lemma_digits_end_bounds(s, i + 1);
    }
}

/// What a single-character escape stands for, or nothing when the character
/// may not follow a backslash.
pub open spec fn unescaped_char(c: char) -> Option<char> {
    if c == '"' {
        Some('"')
    } else if c == '\\' {
        Some('\\')
    } else if c == '/' {
        Some('/')
    } else if c == 'b' {
        Some('\u{8}')
    } else if c == 'f' {
        Some('\u{c}')
    } else if c == 'n' {
        Some('\n')
    } else if c == 'r' {
        Some('\r')
    } else if c == 't' {
        Some('\t')
    } else {
        None
    }
}

/// The parse of a JSON string from just after its opening quote: the decoded
/// content and the position after the closing quote, or nothing when the
/// text up to the end holds no closing quote, an unknown escape, or a raw
/// control character.
pub open spec fn string_body_end(s: Seq<char>, i: int) -> Option<(Seq<char>, int)>
    decreases s.len() - i when 0 <= i <= s.len()
{
    if i >= s.len() {
        None
    } else if s[i] == '"' {
        Some((Seq::empty(), i + 1))
    } else if s[i] == '\\' {
        if i + 1 >= s.len() {
            None
        } else {
            match unescaped_char(s[i + 1]) {
                Some(c) => match string_body_end(s, i + 2) {
                    Some(p) => Some((seq![c] + p.0, p.1)),
                    None => None,
                },
                None => None,
            }
        }
    } else if (s[i] as u32) < 32 {
        None
    } else {
        match string_body_end(s, i + 1) {
            Some(p) => Some((seq![s[i]] + p.0, p.1)),
            None => None,
        }
    }
}

/// The parse of a JSON string whose opening quote stands at `i`.
pub open spec fn string_at(s: Seq<char>, i: int) -> Option<(Seq<char>, int)> {
    if 0 <= i < s.len() && s[i] == '"' {
        string_body_end(s, i + 1)
    } else {
        None
    }
}

/// The end of a JSON number token starting at `i`: an optional minus sign,
/// an integer part without a superfluous leading zero, an optional fraction,
/// an optional exponent.
pub open spec fn number_end(s: Seq<char>, i: int) -> Option<int> {
    if 0 <= i <= s.len() {
        let j = if i < s.len() && s[i] == '-' {
            i + 1
        } else {
            i
        };
        if j < s.len() && is_digit(s[j]) {
            let int_end = if s[j] == '0' {
                j + 1
            } else {
                digits_end(s, j)
            };
            match fraction_end(s, int_end) {
                Some(fe) => exponent_end(s, fe),
                None => None,
            }
        } else {
            None
        }
    } else {
        None
    }
}

/// The end of the optional fraction part standing at `i`.
pub open spec fn fraction_end(s: Seq<char>, i: int) -> Option<int> {
    if 0 <= i < s.len() && s[i] == '.' {
        if i + 1 < s.len() && is_digit(s[i + 1]) {
            Some(digits_end(s, i + 1))
        } else {
            None
        }
    } else {
        Some(i)
    }
}

/// The end of the optional exponent part standing at `i`.
pub open spec fn exponent_end(s: Seq<char>, i: int) -> Option<int> {
    if 0 <= i < s.len() && (s[i] == 'e' || s[i] == 'E') {
        let j = if i + 1 < s.len() && (s[i + 1] == '+' || s[i + 1] == '-') {
            i + 2
        } else {
            i + 1
        };
        if j < s.len() && is_digit(s[j]) {
            Some(digits_end(s, j))
        } else {
            None
        }
    } else {
        Some(i)
    }
}

/// The parse of the literal `true` or `false` standing at `i`.
pub open spec fn bool_at(s: Seq<char>, i: int) -> Option<(bool, int)> {
    if 0 <= i && i + 4 <= s.len() && s.subrange(i, i + 4) == "true"@ {
        Some((true, i + 4))
    } else if 0 <= i && i + 5 <= s.len() && s.subrange(i, i + 5) == "false"@ {
        Some((false, i + 5))
    } else {
        None
    }
}

/// The parse of one member's name and colon from `i`: the name and the
/// position of the member's value.
pub open spec fn member_name(s: Seq<char>, i: int) -> Option<(Seq<char>, int)> {
    let j = ws_end(s, i);
    match string_at(s, j) {
        Some(p) => {
            let k = ws_end(s, p.1);
            if k < s.len() && s[k] == ':' {
                Some((p.0, ws_end(s, k + 1)))
            } else {
                None
            }
        },
        None => None,
    }
}

/// The position after the comma between the two members, or nothing when no
/// comma follows.
pub open spec fn separator_end(s: Seq<char>, i: int) -> Option<int> {
    let j = ws_end(s, i);
    if j < s.len() && s[j] == ',' {
        Some(j + 1)
    } else {
        None
    }
}

/// Whether only the closing brace and whitespace stand from `i` to the end.
pub open spec fn closes_at(s: Seq<char>, i: int) -> bool {
    let j = ws_end(s, i);
    j < s.len() && s[j] == '}' && ws_end(s, j + 1) == s.len()
}

/// The opening of the object: the position of the first member, or nothing
/// when the text does not start with a brace.
pub open spec fn object_start(s: Seq<char>) -> Option<int> {
    let i = ws_end(s, 0);
    if i < s.len() && s[i] == '{' {
        Some(i + 1)
    } else {
        None
    }
}

/// The parse of a whole boolean set-request body: the key and the value, or
/// nothing when the body is malformed.
pub open spec fn parse_bool_request(s: Seq<char>) -> Option<(Seq<char>, bool)> {
    match object_start(s) {
        Some(m1) => match member_name(s, m1) {
            Some((n1, v1)) => {
                if n1 == "key"@ {
                    match string_at(s, v1) {
                        Some((key, a)) => match rest_bool_value(s, a) {
                            Some(value) => Some((key, value)),
                            None => None,
                        },
                        None => None,
                    }
                } else if n1 == "value"@ {
                    match bool_at(s, v1) {
                        Some((value, a)) => match rest_key(s, a) {
                            Some(key) => Some((key, value)),
                            None => None,
                        },
                        None => None,
                    }
                } else {
                    None
                }
            },
            None => None,
        },
        None => None,
    }
}

/// After a leading `key` member: the comma, the `value` member holding a
/// boolean, and the closing brace.
pub open spec fn rest_bool_value(s: Seq<char>, i: int) -> Option<bool> {
    match separator_end(s, i) {
        Some(m2) => match member_name(s, m2) {
            Some((n2, v2)) => {
                if n2 == "value"@ {
                    match bool_at(s, v2) {
                        Some((value, a)) => {
                            if closes_at(s, a) {
                                Some(value)
                            } else {
                                None
                            }
                        },
                        None => None,
                    }
                } else {
                    None
                }
            },
            None => None,
        },
        None => None,
    }
}

/// After a leading `value` member: the comma, the `key` member holding a
/// string, and the closing brace.
pub open spec fn rest_key(s: Seq<char>, i: int) -> Option<Seq<char>> {
    match separator_end(s, i) {
        Some(m2) => match member_name(s, m2) {
            Some((n2, v2)) => {
                if n2 == "key"@ {
                    match string_at(s, v2) {
                        Some((key, a)) => {
                            if closes_at(s, a) {
                                Some(key)
                            } else {
                                None
                            }
                        },
                        None => None,
                    }
                } else {
                    None
                }
            },
            None => None,
        },
        None => None,
    }
}

/// The parse of a whole float set-request body: the key and the number
/// token's span, or nothing when the body is malformed.
pub open spec fn parse_float_request(s: Seq<char>) -> Option<(Seq<char>, Seq<char>)> {
    match object_start(s) {
        Some(m1) => match member_name(s, m1) {
            Some((n1, v1)) => {
                if n1 == "key"@ {
                    match string_at(s, v1) {
                        Some((key, a)) => match rest_number_value(s, a) {
                            Some(token) => Some((key, token)),
                            None => None,
                        },
                        None => None,
                    }
                } else if n1 == "value"@ {
                    match number_end(s, v1) {
                        Some(a) => match rest_key(s, a) {
                            Some(key) => Some((key, s.subrange(v1, a))),
                            None => None,
                        },
                        None => None,
                    }
                } else {
                    None
                }
            },
            None => None,
        },
        None => None,
    }
}

/// After a leading `key` member: the comma, the `value` member holding a
/// number, and the closing brace; the result is the number token's span.
pub open spec fn rest_number_value(s: Seq<char>, i: int) -> Option<Seq<char>> {
    match separator_end(s, i) {
        Some(m2) => match member_name(s, m2) {
            Some((n2, v2)) => {
                if n2 == "value"@ {
                    match number_end(s, v2) {
                        Some(a) => {
                            if closes_at(s, a) {
                                Some(s.subrange(v2, a))
                            } else {
                                None
                            }
                        },
                        None => None,
                    }
                } else {
                    None
                }
            },
            None => None,
        },
        None => None,
    }
}

/// Relies on `String::push`: appends one character.
#[verifier::external_body]
fn push_char(s: &mut String, c: char)
    ensures
        final(s)@ == old(s)@.push(c),
{
    s.push(c);
}

/// What a single-character escape stands for, as [`unescaped_char`] says.
fn unescape(c: char) -> (r: Option<char>)
    ensures
        r == unescaped_char(c),
{
    if c == '"' {
        Some('"')
    } else if c == '\\' {
        Some('\\')
    } else if c == '/' {
        Some('/')
    } else if c == 'b' {
        Some('\u{8}')
    } else if c == 'f' {
        Some('\u{c}')
    } else if c == 'n' {
        Some('\n')
    } else if c == 'r' {
        Some('\r')
    } else if c == 't' {
        Some('\t')
    } else {
        None
    }
}

/// Scans past whitespace, as [`ws_end`] says.
fn scan_ws(s: &str, i: usize) -> (r: usize)
    requires
        i <= s@.len(),
    ensures
        r as int == ws_end(s@, i as int),
        i <= r <= s@.len(),
{
    let n = s.unicode_len();
    let mut j = i;
    while j < n
        invariant
            i <= j <= n,
            n == s@.len(),
            ws_end(s@, i as int) == ws_end(s@, j as int),
        ensures
            i <= j <= n,
            n == s@.len(),
            ws_end(s@, i as int) == ws_end(s@, j as int),
            j == n || !is_json_ws(s@[j as int]),
        decreases n - j,
    {
        let c = s.get_char(j);
        if !(c == ' ' || c == '\t' || c == '\n' || c == '\r') {
            break;
        }
        j = j + 1;
    }
    j
}

/// Scans past digits, as [`digits_end`] says.
fn scan_digits(s: &str, i: usize) -> (r: usize)
    requires
        i <= s@.len(),
    ensures
        r as int == digits_end(s@, i as int),
        i <= r <= s@.len(),
{
    let n = s.unicode_len();
    let mut j = i;
    while j < n
        invariant
            i <= j <= n,
            n == s@.len(),
            digits_end(s@, i as int) == digits_end(s@, j as int),
        ensures
            i <= j <= n,
            n == s@.len(),
            digits_end(s@, i as int) == digits_end(s@, j as int),
            j == n || !is_digit(s@[j as int]),
        decreases n - j,
    {
        let c = s.get_char(j);
        let u = c as u32;
        if !(48 <= u && u <= 57) {
            break;
        }
        j = j + 1;
    }
    j
}

/// Decodes a JSON string from just after its opening quote, as
/// [`string_body_end`] says.
fn scan_string_body(s: &str, start: usize) -> (r: Option<(String, usize)>)
    requires
        start <= s@.len(),
    ensures
        (r is Some) == (string_body_end(s@, start as int) is Some),
        (r matches Some(p) ==> (string_body_end(s@, start as int) matches Some(q) && p.0@ == q.0
            && p.1 as int == q.1 && start < p.1 <= s@.len())),
{
    let n = s.unicode_len();
    let mut j = start;
    let mut out = String::new();
    loop
        invariant
            start <= j <= n,
            n == s@.len(),
            string_body_end(s@, start as int) == (match string_body_end(s@, j as int) {
                Some(p) => Some((out@ + p.0, p.1)),
                None => None::<(Seq<char>, int)>,
            }),
        decreases n - j,
    {
        if j >= n {
            return None;
        }
        let c = s.get_char(j);
        if c == '"' {
            proof {
                assert(out@ + Seq::<char>::empty() =~= out@);
            }
            return Some((out, j + 1));
        }
        if c == '\\' {
            if j + 1 >= n {
                return None;
            }
            let e = s.get_char(j + 1);
            match unescape(e) {
                Some(d) => {
                    proof {
                        if string_body_end(s@, j as int + 2) is Some {
                            let p = string_body_end(s@, j as int + 2)->Some_0;
                            assert(out@ + (seq![d] + p.0) =~= out@.push(d) + p.0);
                        }
                    }
                    push_char(&mut out, d);
                    j = j + 2;
                },
                None => {
                    return None;
                },
            }
        } else if (c as u32) < 32 {
            return None;
        } else {
            proof {
                if string_body_end(s@, j as int + 1) is Some {
                    let p = string_body_end(s@, j as int + 1)->Some_0;
                    assert(out@ + (seq![c] + p.0) =~= out@.push(c) + p.0);
                }
            }
            push_char(&mut out, c);
            j = j + 1;
        }
    }
}

/// Decodes a JSON string whose opening quote stands at `i`, as [`string_at`]
/// says.
fn scan_string_at(s: &str, i: usize) -> (r: Option<(String, usize)>)
    requires
        i <= s@.len(),
    ensures
        (r is Some) == (string_at(s@, i as int) is Some),
        (r matches Some(p) ==> (string_at(s@, i as int) matches Some(q) && p.0@ == q.0
            && p.1 as int == q.1 && p.1 <= s@.len())),
{
    let n = s.unicode_len();
    if i >= n {
        return None;
    }
    let c = s.get_char(i);
    if c != '"' {
        return None;
    }
    scan_string_body(s, i + 1)
}

/// Finds the end of a number token, as [`number_end`] says.
fn scan_number_end(s: &str, i: usize) -> (r: Option<usize>)
    requires
        i <= s@.len(),
    ensures
        (r is Some) == (number_end(s@, i as int) is Some),
        (r matches Some(e) ==> number_end(s@, i as int) == Some(e as int) && i < e <= s@.len()),
{
    let n = s.unicode_len();
    let mut j = i;
    if j < n && s.get_char(j) == '-' {
        j = j + 1;
    }
    if j >= n {
        return None;
    }
    let c = s.get_char(j);
    if !(48 <= c as u32 && c as u32 <= 57) {
        return None;
    }
    let int_end: usize = if c == '0' {
        j + 1
    } else {
        scan_digits(s, j)
    };
    proof {
        if c != '0' {
            assert(digits_end(s@, j as int) == digits_end(s@, j as int + 1));
            lemma_digits_end_bounds(s@, j as int + 1);
        }
    }
    let frac_e: usize;
    if int_end < n && s.get_char(int_end) == '.' {
        if int_end + 1 < n {
            let c2 = s.get_char(int_end + 1);
            if 48 <= c2 as u32 && c2 as u32 <= 57 {
                frac_e = scan_digits(s, int_end + 1);
                proof {
                    assert(digits_end(s@, int_end as int + 1) == digits_end(
                        s@,
                        int_end as int + 2,
                    ));
                    lemma_digits_end_bounds(s@, int_end as int + 2);
                }
            } else {
                return None;
            }
        } else {
            return None;
        }
    } else {
        frac_e = int_end;
    }
    let exp_e: usize;
    if frac_e < n {
        let c3 = s.get_char(frac_e);
        if c3 == 'e' || c3 == 'E' {
            let mut k = frac_e + 1;
            if k < n {
                let c4 = s.get_char(k);
                if c4 == '+' || c4 == '-' {
                    k = k + 1;
                }
            }
            if k >= n {
                return None;
            }
            let c5 = s.get_char(k);
            if 48 <= c5 as u32 && c5 as u32 <= 57 {
                exp_e = scan_digits(s, k);
                proof {
                    assert(digits_end(s@, k as int) == digits_end(s@, k as int + 1));
                    lemma_digits_end_bounds(s@, k as int + 1);
                }
            } else {
                return None;
            }
        } else {
            exp_e = frac_e;
        }
    } else {
        exp_e = frac_e;
    }
    Some(exp_e)
}

/// Reads the literal `true` or `false`, as [`bool_at`] says.
fn scan_bool(s: &str, i: usize) -> (r: Option<(bool, usize)>)
    requires
        i <= s@.len(),
    ensures
        (r is Some) == (bool_at(s@, i as int) is Some),
        (r matches Some(p) ==> bool_at(s@, i as int) == Some((p.0, p.1 as int)) && p.1
            <= s@.len()),
{
    let n = s.unicode_len();
    proof {
        reveal_strlit("true");
        reveal_strlit("false");
    }
    if i >= n {
        return None;
    }
    let c = s.get_char(i);
    if c == 't' {
        if n - i >= 4 {
            let c1 = s.get_char(i + 1);
            let c2 = s.get_char(i + 2);
            let c3 = s.get_char(i + 3);
            if c1 == 'r' && c2 == 'u' && c3 == 'e' {
                proof {
                    assert(s@.subrange(i as int, i as int + 4) =~= "true"@);
                }
                return Some((true, i + 4));
            }
        }
        proof {
            assert(bool_at(s@, i as int) is None) by {
                if i as int + 4 <= s@.len() && s@.subrange(i as int, i as int + 4) == "true"@ {
                    assert(s@[i as int + 1] == s@.subrange(i as int, i as int + 4)[1]);
                    assert(s@[i as int + 2] == s@.subrange(i as int, i as int + 4)[2]);
                    assert(s@[i as int + 3] == s@.subrange(i as int, i as int + 4)[3]);
                    assert(false);
                }
                if i as int + 5 <= s@.len() && s@.subrange(i as int, i as int + 5) == "false"@ {
                    assert(s@[i as int] == s@.subrange(i as int, i as int + 5)[0]);
                    assert(false);
                }
            }
        }
        return None;
    }
    if c == 'f' {
        if n - i >= 5 {
            let c1 = s.get_char(i + 1);
            let c2 = s.get_char(i + 2);
            let c3 = s.get_char(i + 3);
            let c4 = s.get_char(i + 4);
            if c1 == 'a' && c2 == 'l' && c3 == 's' && c4 == 'e' {
                proof {
                    assert(s@.subrange(i as int, i as int + 5) =~= "false"@);
                    if i as int + 4 <= s@.len() && s@.subrange(i as int, i as int + 4)
                        == "true"@ {
                        assert(s@[i as int] == s@.subrange(i as int, i as int + 4)[0]);
                        assert(false);
                    }
                }
                return Some((false, i + 5));
            }
        }
        proof {
            assert(bool_at(s@, i as int) is None) by {
                if i as int + 4 <= s@.len() && s@.subrange(i as int, i as int + 4) == "true"@ {
                    assert(s@[i as int] == s@.subrange(i as int, i as int + 4)[0]);
                    assert(false);
                }
                if i as int + 5 <= s@.len() && s@.subrange(i as int, i as int + 5) == "false"@ {
                    assert(s@[i as int + 1] == s@.subrange(i as int, i as int + 5)[1]);
                    assert(s@[i as int + 2] == s@.subrange(i as int, i as int + 5)[2]);
                    assert(s@[i as int + 3] == s@.subrange(i as int, i as int + 5)[3]);
                    assert(s@[i as int + 4] == s@.subrange(i as int, i as int + 5)[4]);
                    assert(false);
                }
            }
        }
        return None;
    }
    proof {
        assert(bool_at(s@, i as int) is None) by {
            if i as int + 4 <= s@.len() && s@.subrange(i as int, i as int + 4) == "true"@ {
                assert(s@[i as int] == s@.subrange(i as int, i as int + 4)[0]);
                assert(false);
            }
            if i as int + 5 <= s@.len() && s@.subrange(i as int, i as int + 5) == "false"@ {
                assert(s@[i as int] == s@.subrange(i as int, i as int + 5)[0]);
                assert(false);
            }
        }
    }
    None
}

/// Reads one member's name and colon, as [`member_name`] says.
fn scan_member_name(s: &str, i: usize) -> (r: Option<(String, usize)>)
    requires
        i <= s@.len(),
    ensures
        (r is Some) == (member_name(s@, i as int) is Some),
        (r matches Some(p) ==> (member_name(s@, i as int) matches Some(q) && p.0@ == q.0
            && p.1 as int == q.1 && p.1 <= s@.len())),
{
    let j = scan_ws(s, i);
    match scan_string_at(s, j) {
        Some((name, a)) => {
            let b = scan_ws(s, a);
            if b >= s.unicode_len() {
                return None;
            }
            let c = s.get_char(b);
            if c != ':' {
                return None;
            }
            let v = scan_ws(s, b + 1);
            Some((name, v))
        },
        None => None,
    }
}

/// Reads the comma between the members, as [`separator_end`] says.
fn scan_separator(s: &str, i: usize) -> (r: Option<usize>)
    requires
        i <= s@.len(),
    ensures
        (r is Some) == (separator_end(s@, i as int) is Some),
        (r matches Some(e) ==> separator_end(s@, i as int) == Some(e as int) && e <= s@.len()),
{
    let j = scan_ws(s, i);
    if j >= s.unicode_len() {
        return None;
    }
    let c = s.get_char(j);
    if c != ',' {
        return None;
    }
    Some(j + 1)
}

/// Whether only the closing brace and whitespace remain, as [`closes_at`]
/// says.
fn scan_closes(s: &str, i: usize) -> (r: bool)
    requires
        i <= s@.len(),
    ensures
        r == closes_at(s@, i as int),
{
    let n = s.unicode_len();
    let j = scan_ws(s, i);
    if j >= n {
        return false;
    }
    let c = s.get_char(j);
    if c != '}' {
        return false;
    }
    let k = scan_ws(s, j + 1);
    k == n
}

/// Reads the object's opening brace, as [`object_start`] says.
fn scan_object_start(s: &str) -> (r: Option<usize>)
    ensures
        (r is Some) == (object_start(s@) is Some),
        (r matches Some(e) ==> object_start(s@) == Some(e as int) && e <= s@.len()),
{
    let j = scan_ws(s, 0);
    if j >= s.unicode_len() {
        return None;
    }
    let c = s.get_char(j);
    if c != '{' {
        return None;
    }
    Some(j + 1)
}

/// Reads the comma, the trailing `value` member holding a boolean, and the
/// closing brace, as [`rest_bool_value`] says.
fn scan_rest_bool(s: &str, i: usize) -> (r: Option<bool>)
    requires
        i <= s@.len(),
    ensures
        r == rest_bool_value(s@, i as int),
{
    let value_word = String::from_str("value");
    match scan_separator(s, i) {
        Some(m2) => match scan_member_name(s, m2) {
            Some((n2, v2)) => {
                if n2.eq(&value_word) {
                    match scan_bool(s, v2) {
                        Some((value, a)) => {
                            if scan_closes(s, a) {
                                Some(value)
                            } else {
                                None
                            }
                        },
                        None => None,
                    }
                } else {
                    None
                }
            },
            None => None,
        },
        None => None,
    }
}

/// Reads the comma, the trailing `value` member holding a number, and the
/// closing brace, as [`rest_number_value`] says; the result is the number
/// token's text.
fn scan_rest_number(s: &str, i: usize) -> (r: Option<String>)
    requires
        i <= s@.len(),
    ensures
        (r is Some) == (rest_number_value(s@, i as int) is Some),
        (r matches Some(t) ==> rest_number_value(s@, i as int) == Some(t@)),
{
    let value_word = String::from_str("value");
    match scan_separator(s, i) {
        Some(m2) => match scan_member_name(s, m2) {
            Some((n2, v2)) => {
                if n2.eq(&value_word) {
                    match scan_number_end(s, v2) {
                        Some(e) => {
                            if scan_closes(s, e) {
                                let token = s.substring_char(v2, e);
                                Some(String::from_str(token))
                            } else {
                                None
                            }
                        },
                        None => None,
                    }
                } else {
                    None
                }
            },
            None => None,
        },
        None => None,
    }
}

/// Reads the comma, the trailing `key` member holding a string, and the
/// closing brace, as [`rest_key`] says.
fn scan_rest_key(s: &str, i: usize) -> (r: Option<String>)
    requires
        i <= s@.len(),
    ensures
        (r is Some) == (rest_key(s@, i as int) is Some),
        (r matches Some(k) ==> rest_key(s@, i as int) == Some(k@)),
{
    let key_word = String::from_str("key");
    match scan_separator(s, i) {
        Some(m2) => match scan_member_name(s, m2) {
            Some((n2, v2)) => {
                if n2.eq(&key_word) {
                    match scan_string_at(s, v2) {
                        Some((key, a)) => {
                            if scan_closes(s, a) {
                                Some(key)
                            } else {
                                None
                            }
                        },
                        None => None,
                    }
                } else {
                    None
                }
            },
            None => None,
        },
        None => None,
    }
}

/// Parses a boolean set-request body: the key and the value, or nothing when
/// the body is malformed, exactly as [`parse_bool_request`] says of the
/// body's characters.
pub fn parse_set_bool_body(s: &str) -> (r: Option<(String, bool)>)
    ensures
        (r is Some) == (parse_bool_request(s@) is Some),
        (r matches Some(p) ==> (parse_bool_request(s@) matches Some(q) && p.0@ == q.0 && p.1
            == q.1)),
{
    let m1 = match scan_object_start(s) {
        Some(v) => v,
        None => {
            return None;
        },
    };
    let (n1, v1) = match scan_member_name(s, m1) {
        Some(p) => p,
        None => {
            return None;
        },
    };
    let key_word = String::from_str("key");
    let value_word = String::from_str("value");
    if n1.eq(&key_word) {
        let (key, a) = match scan_string_at(s, v1) {
            Some(p) => p,
            None => {
                return None;
            },
        };
        match scan_rest_bool(s, a) {
            Some(value) => Some((key, value)),
            None => None,
        }
    } else if n1.eq(&value_word) {
        let (value, a) = match scan_bool(s, v1) {
            Some(p) => p,
            None => {
                return None;
            },
        };
        match scan_rest_key(s, a) {
            Some(key) => Some((key, value)),
            None => None,
        }
    } else {
        None
    }
}

/// Parses a float set-request body: the key and the number token's text, or
/// nothing when the body is malformed, exactly as [`parse_float_request`]
/// says of the body's characters. The host turns the token into its number;
/// the token's grammar is the JSON number grammar, which the host's number
/// parser accepts whole.
pub fn parse_set_float_body(s: &str) -> (r: Option<(String, String)>)
    ensures
        (r is Some) == (parse_float_request(s@) is Some),
        (r matches Some(p) ==> (parse_float_request(s@) matches Some(q) && p.0@ == q.0 && p.1@
            == q.1)),
{
    let m1 = match scan_object_start(s) {
        Some(v) => v,
        None => {
            return None;
        },
    };
    let (n1, v1) = match scan_member_name(s, m1) {
        Some(p) => p,
        None => {
            return None;
        },
    };
    let key_word = String::from_str("key");
    let value_word = String::from_str("value");
    if n1.eq(&key_word) {
        let (key, a) = match scan_string_at(s, v1) {
            Some(p) => p,
            None => {
                return None;
            },
        };
        match scan_rest_number(s, a) {
            Some(token) => Some((key, token)),
            None => None,
        }
    } else if n1.eq(&value_word) {
        let e = match scan_number_end(s, v1) {
            Some(p) => p,
            None => {
                return None;
            },
        };
        let token = s.substring_char(v1, e);
        match scan_rest_key(s, e) {
            Some(key) => Some((key, String::from_str(token))),
            None => None,
        }
    } else {
        None
    }
}

} // verus!
