//! A small text-transformation service: it accepts a JSON request envelope
//! describing an input string and optional transformation flags (uppercase,
//! reverse), applies the requested transformations in a fixed order, and
//! returns a JSON response envelope.  A separate greeting operation formats
//! a fixed greeting from a name.

use vstd::prelude::*;

pub mod encode;
pub mod json;
pub mod strutil;
pub mod timefmt;
pub mod transform;

use crate::encode::{encode_response, encode_response_spec};
use crate::json::{parse_request, parse_request_spec};
use crate::timefmt::{is_iso8601_utc, iso8601_spec, iso8601_utc, lemma_iso8601_valid};
use crate::transform::{lemma_transform_identity, transform, transform_spec};

verus! {

/// The response to the raw request `s`, with `now_millis` the moment of
/// processing: on a well-formed request the transformed input in a
/// successful envelope with the timestamp, and otherwise the fixed error
/// envelope with an empty timestamp.
pub open spec fn process_spec(s: Seq<char>, now_millis: u64) -> Seq<char> {
    match parse_request_spec(s) {
        Some((inp, up, rev)) => encode_response_spec(
            transform_spec(inp, up, rev),
            true,
            iso8601_spec(now_millis),
        ),
        None => encode_response_spec("Invalid input JSON"@, false, ""@),
    }
}

/// Process one raw JSON request: decode it, apply the requested
/// transformations, and encode the response envelope.  `now_millis` is the
/// moment of processing, in milliseconds since the Unix epoch, as the host
/// clock gives it.  Every failure is reported in-band: the result is always
/// a well-formed response document.
pub fn process_tool(input: &str, now_millis: u64) -> (r: String)
    ensures
        r@ == process_spec(input@, now_millis),
{
    match parse_request(input) {
        Some(req) => {
            let t = transform(req.input.as_str(), req.uppercase, req.reverse);
            let ts = iso8601_utc(now_millis);
            encode_response(t.as_str(), true, ts.as_str())
        },
        None => encode_response("Invalid input JSON", false, ""),
    }
}

/// A request that decodes with both flags clear is answered with its input
/// unchanged, marked processed.
pub proof fn lemma_no_options_unchanged(s: Seq<char>, inp: Seq<char>, now_millis: u64)
    requires
        parse_request_spec(s) == Some((inp, false, false)),
    ensures
        process_spec(s, now_millis) == encode_response_spec(inp, true, iso8601_spec(now_millis)),
{
    lemma_transform_identity(inp);
}

/// On a decoded request the response carries a well-formed, non-empty
/// ISO-8601 timestamp; on a rejected request it is the fixed error envelope
/// whose timestamp is exactly the empty string.
pub proof fn lemma_response_timestamp(s: Seq<char>, now_millis: u64)
    ensures
        parse_request_spec(s) is Some ==> is_iso8601_utc(iso8601_spec(now_millis)) && iso8601_spec(
            now_millis,
        ).len() > 0,
        parse_request_spec(s) is None ==> process_spec(s, now_millis) == encode_response_spec(
            "Invalid input JSON"@,
            false,
            Seq::<char>::empty(),
        ),
{
    lemma_iso8601_valid(now_millis);
    reveal_strlit("");
    assert(""@ =~= Seq::<char>::empty());
}

/// The greeting for `name`: `"Hello, {name}!"`.
pub open spec fn greet_spec(name: Seq<char>) -> Seq<char> {
    "Hello, "@ + name + "!"@
}

/// Format the fixed greeting `"Hello, {name}!"`.  No transformation,
/// validation or escaping is applied to the name.
pub fn greet(name: &str) -> (r: String)
    ensures
        r@ == greet_spec(name@),
{
    let mut r = String::new();
    r.append("Hello, ");
    r.append(name);
    r.append("!");
    proof {
        assert(r@ =~= greet_spec(name@));
    }
    r
}

} // verus!
