//! Comparisons on strings, stated over their characters.

use vstd::prelude::*;
use vstd::std_specs::iter::IteratorSpec;

verus! {

/// Whether two strings hold the same characters.
pub fn str_eq(a: &str, b: &str) -> (same: bool)
    ensures
        same == (a@ == b@),
{
    broadcast use vstd::string::group_string_axioms;

    let mut rest = b.chars();
    for ch in it: a.chars()
        invariant
            it.seq() == a@,
            it.index() <= b@.len(),
            rest.remaining() == b@.skip(it.index() as int),
            forall|j: int| 0 <= j < it.index() ==> a@[j] == b@[j],
    {
        match rest.next() {
            Some(other) => {
                if ch != other {
                    return false;
                }
            },
            None => {
                return false;
            },
        }
    }
    match rest.next() {
        Some(_) => false,
        None => {
            assert(a@ =~= b@);
            true
        },
    }
}

/// Whether `text` begins with the characters of `prefix`.
pub fn starts_with(text: &str, prefix: &str) -> (yes: bool)
    ensures
        yes == prefix@.is_prefix_of(text@),
{
    broadcast use vstd::string::group_string_axioms;

    let mut rest = text.chars();
    for ch in it: prefix.chars()
        invariant
            it.seq() == prefix@,
            it.index() <= text@.len(),
            rest.remaining() == text@.skip(it.index() as int),
            forall|j: int| 0 <= j < it.index() ==> text@[j] == prefix@[j],
    {
        match rest.next() {
            Some(other) => {
                if ch != other {
                    return false;
                }
            },
            None => {
                return false;
            },
        }
    }
    true
}

/// What a failed parse reports: a fixed phrase, then the input as it came.
pub open spec fn could_not_parse(input: Seq<char>) -> Seq<char> {
    "Could not parse "@ + input
}

/// The report of a failed parse of `input`.
pub fn could_not_parse_message(input: &str) -> (msg: String)
    ensures
        msg@ == could_not_parse(input@),
{
    let mut msg = "Could not parse ".to_owned();
    msg.append(input);
    msg
}

} // verus!
