use vstd::prelude::*;

verus! {

/// Equality of a string slice and an owned string, specified over their views.
pub fn str_eq_string(a: &str, b: &String) -> (r: bool)
    ensures
        r == (a@ == b@),
{
    let oa: String = a.to_owned();
    oa == *b
}

} // verus!
