//! Lines of text that the examples return for printing.

use vstd::prelude::*;
use vstd::string::StringExecFns;

verus! {

/// The text of each line, in order.
pub open spec fn lines(v: Seq<String>) -> Seq<Seq<char>> {
    v.map_values(|l: String| l@)
}

/// `prefix` followed by `text`, as a new string.
pub fn joined(prefix: &str, text: &str) -> (r: String)
    ensures
        r@ == prefix@ + text@,
{
    let mut r = prefix.to_owned();
    r.append(text);
    r
}

} // verus!
