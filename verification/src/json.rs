//! The request decoder.  A request envelope is a JSON object
//! `{ "input": string, "options": { "uppercase": bool, "reverse": bool } }`:
//! `input` is required, `options` and both flags are optional and default to
//! `false`; `options` and the flags also accept `null`.  Unknown members are
//! allowed and skipped, a repeated known member is rejected, and the whole
//! document must be consumed.  Malformed syntax and a wrong shape are
//! rejected alike, without distinction.
//!
//! The grammar is standard JSON: strings with the usual escapes including
//! `\uXXXX` with surrogate pairs, numbers, literals, arrays and objects,
//! with whitespace between tokens.  The decoder works on Unicode code
//! points.

use vstd::prelude::*;
use crate::strutil::string_from_chars;

verus! {

/// JSON whitespace.
pub open spec fn is_ws(c: char) -> bool {
    c == ' ' || c == '\t' || c == '\n' || c == '\r'
}

/// A decimal digit.
pub open spec fn is_digit(c: char) -> bool {
    48 <= (c as u32) <= 57
}

/// The first position at or after `i` that holds no whitespace.
pub open spec fn skip_ws(s: Seq<char>, i: int) -> int
    decreases s.len() - i,
{
    if 0 <= i < s.len() && is_ws(s[i]) {
        skip_ws(s, i + 1)
    } else {
        i
    }
}

/// The first position at or after `i` that holds no digit.
pub open spec fn skip_digits(s: Seq<char>, i: int) -> int
    decreases s.len() - i,
{
    if 0 <= i < s.len() && is_digit(s[i]) {
        skip_digits(s, i + 1)
    } else {
        i
    }
}

/// The value of `c` as a hexadecimal digit, or -1.
pub open spec fn hex_val(c: char) -> int {
    let u = (c as u32) as int;
    if 48 <= u <= 57 {
        u - 48
    } else if 65 <= u <= 70 {
        u - 55
    } else if 97 <= u <= 102 {
        u - 87
    } else {
        -1
    }
}

/// The value of the four hexadecimal digits at `i`, or -1.
pub open spec fn hex4(s: Seq<char>, i: int) -> int {
    if i < 0 || i + 4 > s.len() {
        -1
    } else {
        let a = hex_val(s[i]);
        let b = hex_val(s[i + 1]);
        let c = hex_val(s[i + 2]);
        let d = hex_val(s[i + 3]);
        if a < 0 || b < 0 || c < 0 || d < 0 {
            -1
        } else {
            4096 * a + 256 * b + 16 * c + d
        }
    }
}

/// Prepend `c` to the content of a partial string parse.
pub open spec fn with_char(c: char, rest: Option<(Seq<char>, int)>) -> Option<(Seq<char>, int)> {
    match rest {
        None => None,
        Some((t, k)) => Some((seq![c] + t, k)),
    }
}

/// Parse the body of a JSON string from `i` (the position after the opening
/// quote) to its closing quote: the unescaped content and the position after
/// the closing quote.  Unescaped control characters, bad escapes and lone
/// surrogates are rejected.
pub open spec fn parse_str_chars(s: Seq<char>, i: int) -> Option<(Seq<char>, int)>
    decreases s.len() - i,
{
    if i < 0 || i >= s.len() {
        None
    } else {
        let c = s[i];
        if c == '"' {
            Some((Seq::empty(), i + 1))
        } else if c == '\\' {
            if i + 1 >= s.len() {
                None
            } else {
                let e = s[i + 1];
                if e == '"' || e == '\\' || e == '/' {
                    with_char(e, parse_str_chars(s, i + 2))
                } else if e == 'b' {
                    with_char('\u{8}', parse_str_chars(s, i + 2))
                } else if e == 'f' {
                    with_char('\u{c}', parse_str_chars(s, i + 2))
                } else if e == 'n' {
                    with_char('\n', parse_str_chars(s, i + 2))
                } else if e == 'r' {
                    with_char('\r', parse_str_chars(s, i + 2))
                } else if e == 't' {
                    with_char('\t', parse_str_chars(s, i + 2))
                } else if e == 'u' {
                    let h = hex4(s, i + 2);
                    if h < 0 {
                        None
                    } else if 0xD800 <= h < 0xDC00 {
                        if i + 12 > s.len() || s[i + 6] != '\\' || s[i + 7] != 'u' {
                            None
                        } else {
                            let l = hex4(s, i + 8);
                            if 0xDC00 <= l < 0xE000 {
                                let code = 0x10000 + (h - 0xD800) * 0x400 + (l - 0xDC00);
                                with_char(((code as u32) as char), parse_str_chars(s, i + 12))
                            } else {
                                None
                            }
                        }
                    } else if 0xDC00 <= h < 0xE000 {
                        None
                    } else {
                        with_char(((h as u32) as char), parse_str_chars(s, i + 6))
                    }
                } else {
                    None
                }
            }
        } else if (c as u32) < 0x20 {
            None
        } else {
            with_char(c, parse_str_chars(s, i + 1))
        }
    }
}

/// Parse a JSON number at `i`: the position after it, or None.
pub open spec fn parse_number(s: Seq<char>, i: int) -> Option<int> {
    if i < 0 {
        None
    } else {
        let j = if i < s.len() && s[i] == '-' {
            i + 1
        } else {
            i
        };
        if j >= s.len() {
            None
        } else if s[j] == '0' {
            parse_frac_exp(s, j + 1)
        } else if is_digit(s[j]) {
            parse_frac_exp(s, skip_digits(s, j))
        } else {
            None
        }
    }
}

/// Parse the optional fraction and exponent of a number from `k`.
pub open spec fn parse_frac_exp(s: Seq<char>, k: int) -> Option<int> {
    let k1 = if k < s.len() && s[k] == '.' {
        let d = skip_digits(s, k + 1);
        if d == k + 1 {
            -1
        } else {
            d
        }
    } else {
        k
    };
    if k1 < 0 {
        None
    } else {
        let k2 = if k1 < s.len() && (s[k1] == 'e' || s[k1] == 'E') {
            let m = if k1 + 1 < s.len() && (s[k1 + 1] == '+' || s[k1 + 1] == '-') {
                k1 + 2
            } else {
                k1 + 1
            };
            let d = skip_digits(s, m);
            if d == m {
                -1
            } else {
                d
            }
        } else {
            k1
        };
        if k2 < 0 {
            None
        } else {
            Some(k2)
        }
    }
}

/// The literal `true` stands at `i`.
pub open spec fn is_true_at(s: Seq<char>, i: int) -> bool {
    0 <= i && i + 4 <= s.len() && s[i] == 't' && s[i + 1] == 'r' && s[i + 2] == 'u' && s[i + 3]
        == 'e'
}

/// The literal `false` stands at `i`.
pub open spec fn is_false_at(s: Seq<char>, i: int) -> bool {
    0 <= i && i + 5 <= s.len() && s[i] == 'f' && s[i + 1] == 'a' && s[i + 2] == 'l' && s[i + 3]
        == 's' && s[i + 4] == 'e'
}

/// The literal `null` stands at `i`.
pub open spec fn is_null_at(s: Seq<char>, i: int) -> bool {
    0 <= i && i + 4 <= s.len() && s[i] == 'n' && s[i + 1] == 'u' && s[i + 2] == 'l' && s[i + 3]
        == 'l'
}

/// Parse any JSON value at `i` (no leading whitespace): the position after
/// it, or None.  `fuel` bounds the nesting and is ample for any input when
/// the parse starts with `request_fuel`.
pub open spec fn parse_value(s: Seq<char>, i: int, fuel: nat) -> Option<int>
    decreases fuel,
{
    if fuel == 0 || i < 0 || i >= s.len() {
        None
    } else {
        let c = s[i];
        if c == '{' {
            parse_object_skip(s, i + 1, (fuel - 1) as nat)
        } else if c == '[' {
            parse_array(s, i + 1, (fuel - 1) as nat)
        } else if c == '"' {
            match parse_str_chars(s, i + 1) {
                None => None,
                Some((t, k)) => Some(k),
            }
        } else if c == 't' {
            if is_true_at(s, i) {
                Some(i + 4)
            } else {
                None
            }
        } else if c == 'f' {
            if is_false_at(s, i) {
                Some(i + 5)
            } else {
                None
            }
        } else if c == 'n' {
            if is_null_at(s, i) {
                Some(i + 4)
            } else {
                None
            }
        } else if c == '-' || is_digit(c) {
            parse_number(s, i)
        } else {
            None
        }
    }
}

/// Parse the rest of an array from `i` (the position after `[`).
pub open spec fn parse_array(s: Seq<char>, i: int, fuel: nat) -> Option<int>
    decreases fuel,
{
    if fuel == 0 {
        None
    } else {
        let j = skip_ws(s, i);
        if j < s.len() && s[j] == ']' {
            Some(j + 1)
        } else {
            parse_elems(s, j, (fuel - 1) as nat)
        }
    }
}

/// Parse the elements of an array from `i`, which holds the next value.
pub open spec fn parse_elems(s: Seq<char>, i: int, fuel: nat) -> Option<int>
    decreases fuel,
{
    if fuel == 0 {
        None
    } else {
        match parse_value(s, i, (fuel - 1) as nat) {
            None => None,
            Some(k) => {
                let j = skip_ws(s, k);
                if j < s.len() && s[j] == ']' {
                    Some(j + 1)
                } else if j < s.len() && s[j] == ',' {
                    parse_elems(s, skip_ws(s, j + 1), (fuel - 1) as nat)
                } else {
                    None
                }
            },
        }
    }
}

/// Parse the rest of an object from `i` (the position after `{`), skipping
/// its members.
pub open spec fn parse_object_skip(s: Seq<char>, i: int, fuel: nat) -> Option<int>
    decreases fuel,
{
    if fuel == 0 {
        None
    } else {
        let j = skip_ws(s, i);
        if j < s.len() && s[j] == '}' {
            Some(j + 1)
        } else {
            parse_members_skip(s, j, (fuel - 1) as nat)
        }
    }
}

/// Parse the members of an object from `i`, which holds the next key,
/// skipping them.
pub open spec fn parse_members_skip(s: Seq<char>, i: int, fuel: nat) -> Option<int>
    decreases fuel,
{
    if fuel == 0 {
        None
    } else if !(0 <= i && i < s.len() && s[i] == '"') {
        None
    } else {
        match parse_str_chars(s, i + 1) {
            None => None,
            Some((key, k)) => {
                let j = skip_ws(s, k);
                if !(j < s.len() && s[j] == ':') {
                    None
                } else {
                    match parse_value(s, skip_ws(s, j + 1), (fuel - 1) as nat) {
                        None => None,
                        Some(k2) => {
                            let j2 = skip_ws(s, k2);
                            if j2 < s.len() && s[j2] == '}' {
                                Some(j2 + 1)
                            } else if j2 < s.len() && s[j2] == ',' {
                                parse_members_skip(s, skip_ws(s, j2 + 1), (fuel - 1) as nat)
                            } else {
                                None
                            }
                        },
                    }
                }
            },
        }
    }
}

/// The key `uppercase`.
pub open spec fn uppercase_key() -> Seq<char> {
    seq!['u', 'p', 'p', 'e', 'r', 'c', 'a', 's', 'e']
}

/// The key `reverse`.
pub open spec fn reverse_key() -> Seq<char> {
    seq!['r', 'e', 'v', 'e', 'r', 's', 'e']
}

/// The key `input`.
pub open spec fn input_key() -> Seq<char> {
    seq!['i', 'n', 'p', 'u', 't']
}

/// The key `options`.
pub open spec fn options_key() -> Seq<char> {
    seq!['o', 'p', 't', 'i', 'o', 'n', 's']
}

/// A flag that was never set resolves to `false`.
pub open spec fn or_false(b: Option<bool>) -> bool {
    match b {
        Some(x) => x,
        None => false,
    }
}

/// Parse an optional boolean at `i`: `true`, `false`, or `null` (which
/// resolves to `false`), and the position after it.
pub open spec fn parse_bool_or_null(s: Seq<char>, i: int) -> Option<(bool, int)> {
    if is_true_at(s, i) {
        Some((true, i + 4))
    } else if is_false_at(s, i) {
        Some((false, i + 5))
    } else if is_null_at(s, i) {
        Some((false, i + 4))
    } else {
        None
    }
}

/// Parse the members of the options object from `i`, which holds the next
/// key.  `up` and `rev` hold flags already seen; a repeated known key is
/// rejected, an unknown member is skipped.  Returns the resolved flags and
/// the position after the closing brace.
pub open spec fn parse_options_members(
    s: Seq<char>,
    i: int,
    up: Option<bool>,
    rev: Option<bool>,
    fuel: nat,
) -> Option<((bool, bool), int)>
    decreases fuel,
{
    if fuel == 0 {
        None
    } else if !(0 <= i && i < s.len() && s[i] == '"') {
        None
    } else {
        match parse_str_chars(s, i + 1) {
            None => None,
            Some((key, k)) => {
                let j = skip_ws(s, k);
                if !(j < s.len() && s[j] == ':') {
                    None
                } else {
                    let v = skip_ws(s, j + 1);
                    let step: Option<(Option<bool>, Option<bool>, int)> = if key
                        == uppercase_key() {
                        if up is Some {
                            None
                        } else {
                            match parse_bool_or_null(s, v) {
                                None => None,
                                Some((b, k2)) => Some((Some(b), rev, k2)),
                            }
                        }
                    } else if key == reverse_key() {
                        if rev is Some {
                            None
                        } else {
                            match parse_bool_or_null(s, v) {
                                None => None,
                                Some((b, k2)) => Some((up, Some(b), k2)),
                            }
                        }
                    } else {
                        match parse_value(s, v, (fuel - 1) as nat) {
                            None => None,
                            Some(k2) => Some((up, rev, k2)),
                        }
                    };
                    match step {
                        None => None,
                        Some((up2, rev2, k2)) => {
                            let j2 = skip_ws(s, k2);
                            if j2 < s.len() && s[j2] == '}' {
                                Some(((or_false(up2), or_false(rev2)), j2 + 1))
                            } else if j2 < s.len() && s[j2] == ',' {
                                parse_options_members(
                                    s,
                                    skip_ws(s, j2 + 1),
                                    up2,
                                    rev2,
                                    (fuel - 1) as nat,
                                )
                            } else {
                                None
                            }
                        },
                    }
                }
            },
        }
    }
}

/// Parse the options object from `i` (the position after its `{`): the
/// resolved flags and the position after the closing brace.
pub open spec fn parse_options_obj(s: Seq<char>, i: int, fuel: nat) -> Option<((bool, bool), int)>
    decreases fuel,
{
    if fuel == 0 {
        None
    } else {
        let j = skip_ws(s, i);
        if j < s.len() && s[j] == '}' {
            Some(((false, false), j + 1))
        } else {
            parse_options_members(s, j, None, None, (fuel - 1) as nat)
        }
    }
}

/// Parse the members of the request envelope from `i`, which holds the next
/// key.  `inp` and `opts` hold members already seen; a repeated known key is
/// rejected, an unknown member is skipped, and at the closing brace `input`
/// must have been seen.  Returns the input, the resolved flags and the
/// position after the closing brace.
pub open spec fn parse_request_members(
    s: Seq<char>,
    i: int,
    inp: Option<Seq<char>>,
    opts: Option<(bool, bool)>,
    fuel: nat,
) -> Option<((Seq<char>, bool, bool), int)>
    decreases fuel,
{
    if fuel == 0 {
        None
    } else if !(0 <= i && i < s.len() && s[i] == '"') {
        None
    } else {
        match parse_str_chars(s, i + 1) {
            None => None,
            Some((key, k)) => {
                let j = skip_ws(s, k);
                if !(j < s.len() && s[j] == ':') {
                    None
                } else {
                    let v = skip_ws(s, j + 1);
                    let step: Option<(Option<Seq<char>>, Option<(bool, bool)>, int)> = if key
                        == input_key() {
                        if inp is Some {
                            None
                        } else if v < s.len() && s[v] == '"' {
                            match parse_str_chars(s, v + 1) {
                                None => None,
                                Some((val, k2)) => Some((Some(val), opts, k2)),
                            }
                        } else {
                            None
                        }
                    } else if key == options_key() {
                        if opts is Some {
                            None
                        } else if is_null_at(s, v) {
                            Some((inp, Some((false, false)), v + 4))
                        } else if v < s.len() && s[v] == '{' {
                            match parse_options_obj(s, v + 1, (fuel - 1) as nat) {
                                None => None,
                                Some((fl, k2)) => Some((inp, Some(fl), k2)),
                            }
                        } else {
                            None
                        }
                    } else {
                        match parse_value(s, v, (fuel - 1) as nat) {
                            None => None,
                            Some(k2) => Some((inp, opts, k2)),
                        }
                    };
                    match step {
                        None => None,
                        Some((inp2, opts2, k2)) => {
                            let j2 = skip_ws(s, k2);
                            if j2 < s.len() && s[j2] == '}' {
                                match inp2 {
                                    None => None,
                                    Some(val) => {
                                        let fl = match opts2 {
                                            None => (false, false),
                                            Some(fl) => fl,
                                        };
                                        Some(((val, fl.0, fl.1), j2 + 1))
                                    },
                                }
                            } else if j2 < s.len() && s[j2] == ',' {
                                parse_request_members(
                                    s,
                                    skip_ws(s, j2 + 1),
                                    inp2,
                                    opts2,
                                    (fuel - 1) as nat,
                                )
                            } else {
                                None
                            }
                        },
                    }
                }
            },
        }
    }
}

/// The fuel that suffices for any document of `n` code points.
pub open spec fn request_fuel(n: nat) -> nat {
    4 * n + 16
}

/// Decode the request envelope: the input string and the resolved
/// transformation flags, or None when the document is malformed, has the
/// wrong shape, or misses the required `input` member.
pub open spec fn parse_request_spec(s: Seq<char>) -> Option<(Seq<char>, bool, bool)> {
    let i = skip_ws(s, 0);
    if i < s.len() && s[i] == '{' {
        let j = skip_ws(s, i + 1);
        let r = if j < s.len() && s[j] == '}' {
            None
        } else {
            parse_request_members(s, j, None, None, request_fuel(s.len()))
        };
        match r {
            None => None,
            Some((t, end)) => {
                if skip_ws(s, end) == s.len() {
                    Some(t)
                } else {
                    None
                }
            },
        }
    } else {
        None
    }
}

/// Relies on `char::from_u32`: for a Unicode scalar value (in range and not
/// a surrogate) it returns the character with that code.
#[verifier::external_body]
fn char_from_u32(u: u32) -> (c: char)
    requires
        u < 0xD800 || (0xE000 <= u <= 0x10FFFF),
    ensures
        c == (u as char),
{
    char::from_u32(u).unwrap_or(' ')
}

fn skip_ws_exec(v: &Vec<char>, i: usize) -> (r: usize)
    requires
        i <= v@.len(),
    ensures
        r as int == skip_ws(v@, i as int),
        i <= r <= v@.len(),
    decreases v@.len() - i,
{
    if i < v.len() && (v[i] == ' ' || v[i] == '\t' || v[i] == '\n' || v[i] == '\r') {
        skip_ws_exec(v, i + 1)
    } else {
        i
    }
}

fn skip_digits_exec(v: &Vec<char>, i: usize) -> (r: usize)
    requires
        i <= v@.len(),
    ensures
        r as int == skip_digits(v@, i as int),
        i <= r <= v@.len(),
    decreases v@.len() - i,
{
    if i < v.len() && 48 <= (v[i] as u32) && (v[i] as u32) <= 57 {
        skip_digits_exec(v, i + 1)
    } else {
        i
    }
}

fn hex_val_exec(c: char) -> (r: Option<u32>)
    ensures
        match r {
            Some(h) => hex_val(c) == h as int && h < 16,
            None => hex_val(c) < 0,
        },
{
    let u = c as u32;
    if 48 <= u && u <= 57 {
        Some(u - 48)
    } else if 65 <= u && u <= 70 {
        Some(u - 55)
    } else if 97 <= u && u <= 102 {
        Some(u - 87)
    } else {
        None
    }
}

fn hex4_exec(v: &Vec<char>, i: usize) -> (r: Option<u32>)
    requires
        i <= v@.len(),
    ensures
        match r {
            Some(h) => hex4(v@, i as int) == h as int && h < 0x10000 && i + 4 <= v@.len(),
            None => hex4(v@, i as int) < 0,
        },
{
    if v.len() - i < 4 {
        None
    } else {
        match (hex_val_exec(v[i]), hex_val_exec(v[i + 1]), hex_val_exec(v[i + 2]), hex_val_exec(v[i + 3])) {
            (Some(a), Some(b), Some(c), Some(d)) => Some(4096 * a + 256 * b + 16 * c + d),
            _ => None,
        }
    }
}

fn with_char_exec(c: char, rest: Option<(Vec<char>, usize)>) -> (r: Option<(Vec<char>, usize)>)
    ensures
        match rest {
            None => r is None,
            Some(p) => r matches Some(q) && q.0@ == seq![c] + p.0@ && q.1 == p.1,
        },
{
    match rest {
        None => None,
        Some((mut t, k)) => {
            let ghost t0 = t@;
            t.insert(0, c);
            proof {
                assert(t@ =~= seq![c] + t0);
            }
            Some((t, k))
        },
    }
}

fn parse_str_chars_exec(v: &Vec<char>, i: usize) -> (r: Option<(Vec<char>, usize)>)
    requires
        i <= v@.len(),
    ensures
        (r is Some) == (parse_str_chars(v@, i as int) is Some),
        r matches Some(p) ==> ({
            let q = parse_str_chars(v@, i as int)->0;
            p.0@ == q.0 && p.1 as int == q.1 && p.1 <= v@.len()
        }),
    decreases v@.len() - i,
{
    if i >= v.len() {
        None
    } else {
        let c = v[i];
        if c == '"' {
            let t: Vec<char> = Vec::new();
            Some((t, i + 1))
        } else if c == '\\' {
            if v.len() - i < 2 {
                None
            } else {
                let e = v[i + 1];
                if e == '"' || e == '\\' || e == '/' {
                    with_char_exec(e, parse_str_chars_exec(v, i + 2))
                } else if e == 'b' {
                    with_char_exec('\u{8}', parse_str_chars_exec(v, i + 2))
                } else if e == 'f' {
                    with_char_exec('\u{c}', parse_str_chars_exec(v, i + 2))
                } else if e == 'n' {
                    with_char_exec('\n', parse_str_chars_exec(v, i + 2))
                } else if e == 'r' {
                    with_char_exec('\r', parse_str_chars_exec(v, i + 2))
                } else if e == 't' {
                    with_char_exec('\t', parse_str_chars_exec(v, i + 2))
                } else if e == 'u' {
                    match hex4_exec(v, i + 2) {
                        None => None,
                        Some(h) => {
                            if 0xD800 <= h && h < 0xDC00 {
                                if v.len() - i < 12 {
                                    None
                                } else if !(v[i + 6] == '\\' && v[i + 7] == 'u') {
                                    None
                                } else {
                                    match hex4_exec(v, i + 8) {
                                        None => None,
                                        Some(l) => {
                                            if 0xDC00 <= l && l < 0xE000 {
                                                let code: u32 = 0x10000 + (h - 0xD800) * 0x400 + (
                                                l - 0xDC00);
                                                with_char_exec(
                                                    char_from_u32(code),
                                                    parse_str_chars_exec(v, i + 12),
                                                )
                                            } else {
                                                None
                                            }
                                        },
                                    }
                                }
                            } else if 0xDC00 <= h && h < 0xE000 {
                                None
                            } else {
                                with_char_exec(char_from_u32(h), parse_str_chars_exec(v, i + 6))
                            }
                        },
                    }
                } else {
                    None
                }
            }
        } else if (c as u32) < 0x20 {
            None
        } else {
            with_char_exec(c, parse_str_chars_exec(v, i + 1))
        }
    }
}

fn parse_frac_exp_exec(v: &Vec<char>, k: usize) -> (r: Option<usize>)
    requires
        k <= v@.len(),
    ensures
        (r is Some) == (parse_frac_exp(v@, k as int) is Some),
        r matches Some(p) ==> parse_frac_exp(v@, k as int) == Some(p as int) && p <= v@.len(),
{
    let k1opt: Option<usize> = if k < v.len() && v[k] == '.' {
        let d = skip_digits_exec(v, k + 1);
        if d == k + 1 {
            None
        } else {
            Some(d)
        }
    } else {
        Some(k)
    };
    match k1opt {
        None => None,
        Some(k1) => {
            if k1 < v.len() && (v[k1] == 'e' || v[k1] == 'E') {
                let m = if k1 + 1 < v.len() && (v[k1 + 1] == '+' || v[k1 + 1] == '-') {
                    k1 + 2
                } else {
                    k1 + 1
                };
                let d = skip_digits_exec(v, m);
                if d == m {
                    None
                } else {
                    Some(d)
                }
            } else {
                Some(k1)
            }
        },
    }
}

fn parse_number_exec(v: &Vec<char>, i: usize) -> (r: Option<usize>)
    requires
        i <= v@.len(),
    ensures
        (r is Some) == (parse_number(v@, i as int) is Some),
        r matches Some(p) ==> parse_number(v@, i as int) == Some(p as int) && p <= v@.len(),
{
    let j = if i < v.len() && v[i] == '-' {
        i + 1
    } else {
        i
    };
    if j >= v.len() {
        None
    } else if v[j] == '0' {
        parse_frac_exp_exec(v, j + 1)
    } else if 48 <= (v[j] as u32) && (v[j] as u32) <= 57 {
        let d = skip_digits_exec(v, j);
        parse_frac_exp_exec(v, d)
    } else {
        None
    }
}

fn is_true_at_exec(v: &Vec<char>, i: usize) -> (b: bool)
    requires
        i <= v@.len(),
    ensures
        b == is_true_at(v@, i as int),
{
    v.len() - i >= 4 && v[i] == 't' && v[i + 1] == 'r' && v[i + 2] == 'u' && v[i + 3] == 'e'
}

fn is_false_at_exec(v: &Vec<char>, i: usize) -> (b: bool)
    requires
        i <= v@.len(),
    ensures
        b == is_false_at(v@, i as int),
{
    v.len() - i >= 5 && v[i] == 'f' && v[i + 1] == 'a' && v[i + 2] == 'l' && v[i + 3] == 's' && v[i
        + 4] == 'e'
}

fn is_null_at_exec(v: &Vec<char>, i: usize) -> (b: bool)
    requires
        i <= v@.len(),
    ensures
        b == is_null_at(v@, i as int),
{
    v.len() - i >= 4 && v[i] == 'n' && v[i + 1] == 'u' && v[i + 2] == 'l' && v[i + 3] == 'l'
}

fn parse_value_exec(v: &Vec<char>, i: usize, fuel: u128) -> (r: Option<usize>)
    requires
        i <= v@.len(),
    ensures
        (r is Some) == (parse_value(v@, i as int, fuel as nat) is Some),
        r matches Some(p) ==> parse_value(v@, i as int, fuel as nat) == Some(p as int) && p
            <= v@.len(),
    decreases fuel,
{
    if fuel == 0 || i >= v.len() {
        None
    } else {
        let c = v[i];
        if c == '{' {
            parse_object_skip_exec(v, i + 1, fuel - 1)
        } else if c == '[' {
            parse_array_exec(v, i + 1, fuel - 1)
        } else if c == '"' {
            match parse_str_chars_exec(v, i + 1) {
                None => None,
                Some((_t, k)) => Some(k),
            }
        } else if c == 't' {
            if is_true_at_exec(v, i) {
                Some(i + 4)
            } else {
                None
            }
        } else if c == 'f' {
            if is_false_at_exec(v, i) {
                Some(i + 5)
            } else {
                None
            }
        } else if c == 'n' {
            if is_null_at_exec(v, i) {
                Some(i + 4)
            } else {
                None
            }
        } else if c == '-' || (48 <= (c as u32) && (c as u32) <= 57) {
            parse_number_exec(v, i)
        } else {
            None
        }
    }
}

fn parse_array_exec(v: &Vec<char>, i: usize, fuel: u128) -> (r: Option<usize>)
    requires
        i <= v@.len(),
    ensures
        (r is Some) == (parse_array(v@, i as int, fuel as nat) is Some),
        r matches Some(p) ==> parse_array(v@, i as int, fuel as nat) == Some(p as int) && p
            <= v@.len(),
    decreases fuel,
{
    if fuel == 0 {
        None
    } else {
        let j = skip_ws_exec(v, i);
        if j < v.len() && v[j] == ']' {
            Some(j + 1)
        } else {
            parse_elems_exec(v, j, fuel - 1)
        }
    }
}

fn parse_elems_exec(v: &Vec<char>, i: usize, fuel: u128) -> (r: Option<usize>)
    requires
        i <= v@.len(),
    ensures
        (r is Some) == (parse_elems(v@, i as int, fuel as nat) is Some),
        r matches Some(p) ==> parse_elems(v@, i as int, fuel as nat) == Some(p as int) && p
            <= v@.len(),
    decreases fuel,
{
    if fuel == 0 {
        None
    } else {
        match parse_value_exec(v, i, fuel - 1) {
            None => None,
            Some(k) => {
                let j = skip_ws_exec(v, k);
                if j < v.len() && v[j] == ']' {
                    Some(j + 1)
                } else if j < v.len() && v[j] == ',' {
                    let n = skip_ws_exec(v, j + 1);
                    parse_elems_exec(v, n, fuel - 1)
                } else {
                    None
                }
            },
        }
    }
}

fn parse_object_skip_exec(v: &Vec<char>, i: usize, fuel: u128) -> (r: Option<usize>)
    requires
        i <= v@.len(),
    ensures
        (r is Some) == (parse_object_skip(v@, i as int, fuel as nat) is Some),
        r matches Some(p) ==> parse_object_skip(v@, i as int, fuel as nat) == Some(p as int) && p
            <= v@.len(),
    decreases fuel,
{
    if fuel == 0 {
        None
    } else {
        let j = skip_ws_exec(v, i);
        if j < v.len() && v[j] == '}' {
            Some(j + 1)
        } else {
            parse_members_skip_exec(v, j, fuel - 1)
        }
    }
}

fn parse_members_skip_exec(v: &Vec<char>, i: usize, fuel: u128) -> (r: Option<usize>)
    requires
        i <= v@.len(),
    ensures
        (r is Some) == (parse_members_skip(v@, i as int, fuel as nat) is Some),
        r matches Some(p) ==> parse_members_skip(v@, i as int, fuel as nat) == Some(p as int) && p
            <= v@.len(),
    decreases fuel,
{
    if fuel == 0 {
        None
    } else if !(i < v.len() && v[i] == '"') {
        None
    } else {
        match parse_str_chars_exec(v, i + 1) {
            None => None,
            Some((_key, k)) => {
                let j = skip_ws_exec(v, k);
                if !(j < v.len() && v[j] == ':') {
                    None
                } else {
                    let w = skip_ws_exec(v, j + 1);
                    match parse_value_exec(v, w, fuel - 1) {
                        None => None,
                        Some(k2) => {
                            let j2 = skip_ws_exec(v, k2);
                            if j2 < v.len() && v[j2] == '}' {
                                Some(j2 + 1)
                            } else if j2 < v.len() && v[j2] == ',' {
                                let n = skip_ws_exec(v, j2 + 1);
                                parse_members_skip_exec(v, n, fuel - 1)
                            } else {
                                None
                            }
                        },
                    }
                }
            },
        }
    }
}

fn is_input_key(k: &Vec<char>) -> (b: bool)
    ensures
        b == (k@ == input_key()),
{
    let b: bool = k.len() == 5 && k[0] == 'i' && k[1] == 'n' && k[2] == 'p' && k[3] == 'u' && k[4]
        == 't';
    proof {
        if b {
            assert(k@ =~= input_key());
        }
    }
    b
}

fn is_options_key(k: &Vec<char>) -> (b: bool)
    ensures
        b == (k@ == options_key()),
{
    let b: bool = k.len() == 7 && k[0] == 'o' && k[1] == 'p' && k[2] == 't' && k[3] == 'i' && k[4]
        == 'o' && k[5] == 'n' && k[6] == 's';
    proof {
        if b {
            assert(k@ =~= options_key());
        }
    }
    b
}

fn is_uppercase_key(k: &Vec<char>) -> (b: bool)
    ensures
        b == (k@ == uppercase_key()),
{
    let b: bool = k.len() == 9 && k[0] == 'u' && k[1] == 'p' && k[2] == 'p' && k[3] == 'e' && k[4]
        == 'r' && k[5] == 'c' && k[6] == 'a' && k[7] == 's' && k[8] == 'e';
    proof {
        if b {
            assert(k@ =~= uppercase_key());
        }
    }
    b
}

fn is_reverse_key(k: &Vec<char>) -> (b: bool)
    ensures
        b == (k@ == reverse_key()),
{
    let b: bool = k.len() == 7 && k[0] == 'r' && k[1] == 'e' && k[2] == 'v' && k[3] == 'e' && k[4]
        == 'r' && k[5] == 's' && k[6] == 'e';
    proof {
        if b {
            assert(k@ =~= reverse_key());
        }
    }
    b
}

fn parse_bool_or_null_exec(v: &Vec<char>, i: usize) -> (r: Option<(bool, usize)>)
    requires
        i <= v@.len(),
    ensures
        (r is Some) == (parse_bool_or_null(v@, i as int) is Some),
        r matches Some(p) ==> ({
            let q = parse_bool_or_null(v@, i as int)->0;
            p.0 == q.0 && p.1 as int == q.1 && p.1 <= v@.len()
        }),
{
    let _n: usize = v.len();
    if is_true_at_exec(v, i) {
        Some((true, i + 4))
    } else if is_false_at_exec(v, i) {
        Some((false, i + 5))
    } else if is_null_at_exec(v, i) {
        Some((false, i + 4))
    } else {
        None
    }
}

fn parse_options_members_exec(
    v: &Vec<char>,
    i: usize,
    up: Option<bool>,
    rev: Option<bool>,
    fuel: u128,
) -> (r: Option<((bool, bool), usize)>)
    requires
        i <= v@.len(),
    ensures
        (r is Some) == (parse_options_members(v@, i as int, up, rev, fuel as nat) is Some),
        r matches Some(p) ==> ({
            let q = parse_options_members(v@, i as int, up, rev, fuel as nat)->0;
            p.0 == q.0 && p.1 as int == q.1 && p.1 <= v@.len()
        }),
    decreases fuel,
{
    if fuel == 0 {
        None
    } else if !(i < v.len() && v[i] == '"') {
        None
    } else {
        match parse_str_chars_exec(v, i + 1) {
            None => None,
            Some((key, k)) => {
                let j = skip_ws_exec(v, k);
                if !(j < v.len() && v[j] == ':') {
                    None
                } else {
                    let w = skip_ws_exec(v, j + 1);
                    let step: Option<(Option<bool>, Option<bool>, usize)> = if is_uppercase_key(&key) {
                        if up.is_some() {
                            None
                        } else {
                            match parse_bool_or_null_exec(v, w) {
                                None => None,
                                Some((b, k2)) => Some((Some(b), rev, k2)),
                            }
                        }
                    } else if is_reverse_key(&key) {
                        if rev.is_some() {
                            None
                        } else {
                            match parse_bool_or_null_exec(v, w) {
                                None => None,
                                Some((b, k2)) => Some((up, Some(b), k2)),
                            }
                        }
                    } else {
                        match parse_value_exec(v, w, fuel - 1) {
                            None => None,
                            Some(k2) => Some((up, rev, k2)),
                        }
                    };
                    match step {
                        None => None,
                        Some((up2, rev2, k2)) => {
                            let j2 = skip_ws_exec(v, k2);
                            if j2 < v.len() && v[j2] == '}' {
                                let bu = match up2 {
                                    Some(x) => x,
                                    None => false,
                                };
                                let br = match rev2 {
                                    Some(x) => x,
                                    None => false,
                                };
                                Some(((bu, br), j2 + 1))
                            } else if j2 < v.len() && v[j2] == ',' {
                                let n = skip_ws_exec(v, j2 + 1);
                                parse_options_members_exec(v, n, up2, rev2, fuel - 1)
                            } else {
                                None
                            }
                        },
                    }
                }
            },
        }
    }
}

fn parse_options_obj_exec(v: &Vec<char>, i: usize, fuel: u128) -> (r: Option<((bool, bool), usize)>)
    requires
        i <= v@.len(),
    ensures
        (r is Some) == (parse_options_obj(v@, i as int, fuel as nat) is Some),
        r matches Some(p) ==> ({
            let q = parse_options_obj(v@, i as int, fuel as nat)->0;
            p.0 == q.0 && p.1 as int == q.1 && p.1 <= v@.len()
        }),
    decreases fuel,
{
    if fuel == 0 {
        None
    } else {
        let j = skip_ws_exec(v, i);
        if j < v.len() && v[j] == '}' {
            Some(((false, false), j + 1))
        } else {
            parse_options_members_exec(v, j, None, None, fuel - 1)
        }
    }
}

/// The spec view of a possibly absent member value.
pub open spec fn view_opt(o: Option<Vec<char>>) -> Option<Seq<char>> {
    match o {
        None => None,
        Some(x) => Some(x@),
    }
}

fn parse_request_members_exec(
    v: &Vec<char>,
    i: usize,
    inp: Option<Vec<char>>,
    opts: Option<(bool, bool)>,
    fuel: u128,
) -> (r: Option<((Vec<char>, bool, bool), usize)>)
    requires
        i <= v@.len(),
    ensures
        (r is Some) == (parse_request_members(v@, i as int, view_opt(inp), opts, fuel as nat)
            is Some),
        r matches Some(p) ==> ({
            let q = parse_request_members(v@, i as int, view_opt(inp), opts, fuel as nat)->0;
            p.0.0@ == q.0.0 && p.0.1 == q.0.1 && p.0.2 == q.0.2 && p.1 as int == q.1 && p.1
                <= v@.len()
        }),
    decreases fuel,
{
    if fuel == 0 {
        None
    } else if !(i < v.len() && v[i] == '"') {
        None
    } else {
        match parse_str_chars_exec(v, i + 1) {
            None => None,
            Some((key, k)) => {
                let j = skip_ws_exec(v, k);
                if !(j < v.len() && v[j] == ':') {
                    None
                } else {
                    let w = skip_ws_exec(v, j + 1);
                    let step: Option<(Option<Vec<char>>, Option<(bool, bool)>, usize)> = if is_input_key(
                        &key,
                    ) {
                        if inp.is_some() {
                            None
                        } else if w < v.len() && v[w] == '"' {
                            match parse_str_chars_exec(v, w + 1) {
                                None => None,
                                Some((val, k2)) => Some((Some(val), opts, k2)),
                            }
                        } else {
                            None
                        }
                    } else if is_options_key(&key) {
                        if opts.is_some() {
                            None
                        } else if is_null_at_exec(v, w) {
                            Some((inp, Some((false, false)), w + 4))
                        } else if w < v.len() && v[w] == '{' {
                            match parse_options_obj_exec(v, w + 1, fuel - 1) {
                                None => None,
                                Some((fl, k2)) => Some((inp, Some(fl), k2)),
                            }
                        } else {
                            None
                        }
                    } else {
                        match parse_value_exec(v, w, fuel - 1) {
                            None => None,
                            Some(k2) => Some((inp, opts, k2)),
                        }
                    };
                    match step {
                        None => None,
                        Some((inp2, opts2, k2)) => {
                            let j2 = skip_ws_exec(v, k2);
                            if j2 < v.len() && v[j2] == '}' {
                                match inp2 {
                                    None => None,
                                    Some(val) => {
                                        let fl: (bool, bool) = match opts2 {
                                            None => (false, false),
                                            Some(x) => x,
                                        };
                                        Some(((val, fl.0, fl.1), j2 + 1))
                                    },
                                }
                            } else if j2 < v.len() && v[j2] == ',' {
                                let n = skip_ws_exec(v, j2 + 1);
                                parse_request_members_exec(v, n, inp2, opts2, fuel - 1)
                            } else {
                                None
                            }
                        },
                    }
                }
            },
        }
    }
}

/// A decoded request: the input string and the resolved transformation
/// flags, absent flags defaulted to `false`.
pub struct Request {
    pub input: String,
    pub uppercase: bool,
    pub reverse: bool,
}

/// Decode the request envelope `s`.  Returns the decoded request exactly
/// when `s` is a well-formed envelope with the required `input` member, and
/// None on malformed syntax or a wrong shape.
pub fn parse_request(s: &str) -> (r: Option<Request>)
    ensures
        (r is Some) == (parse_request_spec(s@) is Some),
        r matches Some(req) ==> ({
            let t = parse_request_spec(s@)->0;
            req.input@ == t.0 && req.uppercase == t.1 && req.reverse == t.2
        }),
{
    let v = crate::strutil::chars_of(s);
    let i = skip_ws_exec(&v, 0);
    if i < v.len() && v[i] == '{' {
        let j = skip_ws_exec(&v, i + 1);
        if j < v.len() && v[j] == '}' {
            None
        } else {
            let fuel: u128 = 4 * (v.len() as u128) + 16;
            proof {
                assert(fuel as nat == request_fuel(v@.len()));
            }
            let no_inp: Option<Vec<char>> = None;
            let no_opts: Option<(bool, bool)> = None;
            match parse_request_members_exec(&v, j, no_inp, no_opts, fuel) {
                None => None,
                Some((t, end)) => {
                    let e2 = skip_ws_exec(&v, end);
                    if e2 == v.len() {
                        let (val, up, rv) = t;
                        Some(
                            Request {
                                input: string_from_chars(&val),
                                uppercase: up,
                                reverse: rv,
                            },
                        )
                    } else {
                        None
                    }
                },
            }
        }
    } else {
        None
    }
}

} // verus!
