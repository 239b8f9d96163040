//! Small helpers over strings used throughout the transform engine.

use vstd::prelude::*;

verus! {

/// True when the string's characters equal the literal's characters.
pub fn str_is(a: &String, lit: &str) -> (r: bool)
    ensures
        r == (a@ == lit@),
{
    let b = String::from_str(lit);
    *a == b
}

/// A fresh string holding the same characters as `a`.
pub fn copy_string(a: &String) -> (r: String)
    ensures
        r@ == a@,
{
    a.clone()
}

/// A fresh string holding the same characters as `a`, when one is present.
pub fn copy_opt_string(a: &Option<String>) -> (r: Option<String>)
    ensures
        (match (r, *a) {
            (Option::Some(x), Option::Some(y)) => x@ == y@,
            (Option::None, Option::None) => true,
            _ => false,
        }),
{
    match a {
        Option::Some(x) => Option::Some(x.clone()),
        Option::None => Option::None,
    }
}

/// The view of an optional string.
pub open spec fn opt_str_view(a: Option<String>) -> Option<Seq<char>> {
    match a {
        Option::Some(x) => Option::Some(x@),
        Option::None => Option::None,
    }
}

} // verus!

verus! {

/// A fresh empty string, with its view pinned to the empty literal.
pub fn empty_string() -> (r: String)
    ensures
        r@ == ""@,
{
    let r = String::new();
    proof {
        reveal_strlit("");
        assert(r@ =~= ""@);
    }
    r
}

} // verus!
