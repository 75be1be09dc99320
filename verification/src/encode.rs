//! The response encoder: it renders the response envelope
//! `{ output, processed, timestamp }` as a compact JSON document, escaping
//! string contents as JSON requires (quote, backslash, and control
//! characters; all other characters stand unescaped).

use vstd::prelude::*;
use crate::strutil::{chars_of, string_from_chars};
use crate::timefmt::digit_char;

verus! {

/// The character of the hexadecimal digit `d`, lower case.
pub open spec fn hex_char(d: int) -> char {
    if d < 10 {
        digit_char(d)
    } else if d == 10 {
        'a'
    } else if d == 11 {
        'b'
    } else if d == 12 {
        'c'
    } else if d == 13 {
        'd'
    } else if d == 14 {
        'e'
    } else {
        'f'
    }
}

/// The JSON escape of the character `c`: quote and backslash take a
/// backslash escape, the named control characters their short form, the
/// remaining control characters a `\u00XX` form, and every other character
/// stands by itself.
pub open spec fn escape_char(c: char) -> Seq<char> {
    if c == '"' {
        seq!['\\', '"']
    } else if c == '\\' {
        seq!['\\', '\\']
    } else if c == '\u{8}' {
        seq!['\\', 'b']
    } else if c == '\t' {
        seq!['\\', 't']
    } else if c == '\n' {
        seq!['\\', 'n']
    } else if c == '\u{c}' {
        seq!['\\', 'f']
    } else if c == '\r' {
        seq!['\\', 'r']
    } else if (c as u32) < 0x20 {
        seq!['\\', 'u', '0', '0', hex_char((c as u32) as int / 16), hex_char((c as u32) as int % 16)]
    } else {
        seq![c]
    }
}

/// The JSON escape of a whole string, character by character.
pub open spec fn escape_string(s: Seq<char>) -> Seq<char>
    decreases s.len(),
{
    if s.len() == 0 {
        Seq::empty()
    } else {
        escape_char(s[0]) + escape_string(s.drop_first())
    }
}

proof fn lemma_escape_push(s: Seq<char>, c: char)
    ensures
        escape_string(s.push(c)) == escape_string(s) + escape_char(c),
    decreases s.len(),
{
    if s.len() == 0 {
        assert(s.push(c).drop_first() =~= s);
        assert(escape_string(s.push(c)) =~= escape_string(s) + escape_char(c));
    } else {
        assert(s.push(c).drop_first() =~= s.drop_first().push(c));
        lemma_escape_push(s.drop_first(), c);
        assert(escape_string(s.push(c)) =~= escape_string(s) + escape_char(c));
    }
}

/// The response envelope for `output`, `processed` and `timestamp`, rendered
/// as the compact JSON document
/// `{"output":...,"processed":...,"timestamp":...}`.
pub open spec fn encode_response_spec(
    output: Seq<char>,
    processed: bool,
    timestamp: Seq<char>,
) -> Seq<char> {
    "{\"output\":\""@ + escape_string(output) + "\",\"processed\":"@ + (if processed {
        "true"@
    } else {
        "false"@
    }) + ",\"timestamp\":\""@ + escape_string(timestamp) + "\"}"@
}

fn hex_char_exec(d: u32) -> (c: char)
    requires
        d < 16,
    ensures
        c == hex_char(d as int),
{
    if d == 0 {
        '0'
    } else if d == 1 {
        '1'
    } else if d == 2 {
        '2'
    } else if d == 3 {
        '3'
    } else if d == 4 {
        '4'
    } else if d == 5 {
        '5'
    } else if d == 6 {
        '6'
    } else if d == 7 {
        '7'
    } else if d == 8 {
        '8'
    } else if d == 9 {
        '9'
    } else if d == 10 {
        'a'
    } else if d == 11 {
        'b'
    } else if d == 12 {
        'c'
    } else if d == 13 {
        'd'
    } else if d == 14 {
        'e'
    } else {
        'f'
    }
}

fn escape_chars(v: &Vec<char>) -> (r: Vec<char>)
    ensures
        r@ == escape_string(v@),
{
    let mut r: Vec<char> = Vec::new();
    let mut i: usize = 0;
    while i < v.len()
        invariant
            i <= v@.len(),
            r@ == escape_string(v@.take(i as int)),
        decreases v@.len() - i,
    {
        let c = v[i];
        if c == '"' {
            r.push('\\');
            r.push('"');
        } else if c == '\\' {
            r.push('\\');
            r.push('\\');
        } else if c == '\u{8}' {
            r.push('\\');
            r.push('b');
        } else if c == '\t' {
            r.push('\\');
            r.push('t');
        } else if c == '\n' {
            r.push('\\');
            r.push('n');
        } else if c == '\u{c}' {
            r.push('\\');
            r.push('f');
        } else if c == '\r' {
            r.push('\\');
            r.push('r');
        } else if (c as u32) < 0x20 {
            r.push('\\');
            r.push('u');
            r.push('0');
            r.push('0');
            r.push(hex_char_exec((c as u32) / 16));
            r.push(hex_char_exec((c as u32) % 16));
        } else {
            r.push(c);
        }
        proof {
            lemma_escape_push(v@.take(i as int), c);
            assert(v@.take(i as int).push(c) =~= v@.take(i as int + 1));
            assert(r@ =~= escape_string(v@.take(i as int + 1)));
        }
        i = i + 1;
    }
    proof {
        assert(v@.take(v@.len() as int) =~= v@);
    }
    r
}

/// Render the response envelope.  The encoding is total: it succeeds for
/// every output string, processed flag and timestamp.
pub fn encode_response(output: &str, processed: bool, timestamp: &str) -> (r: String)
    ensures
        r@ == encode_response_spec(output@, processed, timestamp@),
{
    let mut r = String::new();
    r.append("{\"output\":\"");
    let ov = chars_of(output);
    let eo = escape_chars(&ov);
    let eos = string_from_chars(&eo);
    r.append(eos.as_str());
    r.append("\",\"processed\":");
    if processed {
        r.append("true");
    } else {
        r.append("false");
    }
    r.append(",\"timestamp\":\"");
    let tv = chars_of(timestamp);
    let et = escape_chars(&tv);
    let ets = string_from_chars(&et);
    r.append(ets.as_str());
    r.append("\"}");
    proof {
        assert(r@ =~= encode_response_spec(output@, processed, timestamp@));
    }
    r
}

} // verus!
