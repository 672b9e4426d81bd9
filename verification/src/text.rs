//! Small helpers on strings.

use vstd::prelude::*;
use vstd::string::StringExecFns;

verus! {

/// Whether `s` reads exactly as `expected`.
pub fn text_is(s: &String, expected: &str) -> (r: bool)
    ensures
        r == (s@ == expected@),
{
    let e = String::from_str(expected);
    *s == e
}

} // verus!
