//! String utilities: conversion between `String` and `Vec<char>`, code-point
//! reversal, and uppercase conversion.  The transformations of this library
//! operate on sequences of Unicode code points, never on bytes or grapheme
//! clusters.

use vstd::prelude::*;

verus! {

/// The sequence `s` reversed, code point by code point.
pub open spec fn reverse_of(s: Seq<char>) -> Seq<char> {
    Seq::new(s.len(), |i: int| s[s.len() - 1 - i])
}

/// Reversal is an involution: reversing twice restores the original sequence.
pub proof fn lemma_reverse_involutive(s: Seq<char>)
    ensures
        reverse_of(reverse_of(s)) == s,
{
    assert(reverse_of(reverse_of(s)) =~= s);
}

/// The uppercase conversion applied by this library.  It is the
/// locale-independent, code-point-wise Unicode mapping of `str::to_uppercase`,
/// whose full table is not restated here; the result depends on the characters
/// of `s` alone.
pub uninterp spec fn upper_of(s: Seq<char>) -> Seq<char>;

/// Relies on `str::to_uppercase`: the locale-independent uppercase
/// equivalent of `s`, a pure function of the characters of `s`.
#[verifier::external_body]
pub(crate) fn to_uppercase_string(s: &str) -> (r: String)
    ensures
        r@ == upper_of(s@),
{
    s.to_uppercase()
}

/// Relies on `core::iter::Iterator::collect` (`FromIterator<char>` for
/// `String`): collecting the characters of `v` builds the string with
/// exactly those characters.
#[verifier::external_body]
pub(crate) fn string_from_chars(v: &Vec<char>) -> (r: String)
    ensures
        r@ == v@,
{
    v.iter().collect()
}

/// The characters of `s`, as a vector of code points.
pub fn chars_of(s: &str) -> (v: Vec<char>)
    ensures
        v@ == s@,
{
    let n = s.unicode_len();
    let mut v: Vec<char> = Vec::new();
    let mut i: usize = 0;
    while i < n
        invariant
            n == s@.len(),
            i <= n,
            v@ == s@.take(i as int),
        decreases n - i,
    {
        let c = s.get_char(i);
        v.push(c);
        i = i + 1;
        proof {
            assert(v@ =~= s@.take(i as int));
        }
    }
    proof {
        assert(v@ =~= s@);
    }
    v
}

/// Reverse the order of the characters of `v`.
pub fn reverse_chars(v: &Vec<char>) -> (r: Vec<char>)
    ensures
        r@ == reverse_of(v@),
{
    let n = v.len();
    let mut r: Vec<char> = Vec::new();
    let mut i: usize = 0;
    while i < n
        invariant
            n == v@.len(),
            i <= n,
            r@ == reverse_of(v@).take(i as int),
        decreases n - i,
    {
        let c = v[n - 1 - i];
        r.push(c);
        i = i + 1;
        proof {
            assert(r@ =~= reverse_of(v@).take(i as int));
        }
    }
    proof {
        assert(r@ =~= reverse_of(v@));
    }
    r
}

} // verus!
