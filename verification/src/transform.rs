//! The transformation pipeline: uppercase conversion first (if flagged),
//! then code-point reversal (if flagged).  The order is fixed and part of
//! the contract.

use vstd::prelude::*;
use crate::strutil::{upper_of, reverse_of, to_uppercase_string, string_from_chars, chars_of,
    reverse_chars, lemma_reverse_involutive};

verus! {

/// The result of the pipeline on `s`: first the uppercase conversion when
/// `uppercase` is set, then code-point reversal when `reverse` is set.
pub open spec fn transform_spec(s: Seq<char>, uppercase: bool, reverse: bool) -> Seq<char> {
    let up = if uppercase {
        upper_of(s)
    } else {
        s
    };
    if reverse {
        reverse_of(up)
    } else {
        up
    }
}

/// With both flags clear the pipeline returns its input unchanged.
pub proof fn lemma_transform_identity(s: Seq<char>)
    ensures
        transform_spec(s, false, false) == s,
{
}

/// With only `uppercase` set the pipeline returns the uppercase conversion.
pub proof fn lemma_transform_uppercase_only(s: Seq<char>)
    ensures
        transform_spec(s, true, false) == upper_of(s),
{
}

/// With only `reverse` set the pipeline returns the code-point reversal.
pub proof fn lemma_transform_reverse_only(s: Seq<char>)
    ensures
        transform_spec(s, false, true) == reverse_of(s),
{
}

/// With both flags set the pipeline uppercases first and reverses the
/// uppercased result: the order is not interchangeable in general.
pub proof fn lemma_transform_both(s: Seq<char>)
    ensures
        transform_spec(s, true, true) == reverse_of(upper_of(s)),
{
}

/// Running the pipeline twice with only `reverse` set restores the input.
pub proof fn lemma_reverse_twice_restores(s: Seq<char>)
    ensures
        transform_spec(transform_spec(s, false, true), false, true) == s,
{
    lemma_reverse_involutive(s);
}

/// Apply the pipeline to `input`: uppercase conversion when `uppercase` is
/// set, then code-point reversal when `reverse` is set.
pub fn transform(input: &str, uppercase: bool, reverse: bool) -> (r: String)
    ensures
        r@ == transform_spec(input@, uppercase, reverse),
{
    let up: String = if uppercase {
        to_uppercase_string(input)
    } else {
        input.to_owned()
    };
    if reverse {
        let v = chars_of(up.as_str());
        let rv = reverse_chars(&v);
        string_from_chars(&rv)
    } else {
        up
    }
}

} // verus!
