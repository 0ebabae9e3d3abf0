//! A fixed greeting.

use vstd::prelude::*;
use vstd::string::*;

verus! {

/// Returns the fixed greeting.
pub fn hoge_function() -> (s: String)
    ensures
        s@ == "hogehoge!"@,
{
    String::from_str("hogehoge!")
}

} // verus!
