//! The one invocable command of the application: format a greeting.

use vstd::prelude::*;
use vstd::string::StringExecFns;

verus! {

/// The greeting produced for a given name: the name spliced between two
/// fixed pieces of text. `greet` returns exactly this, for every input.
pub open spec fn greeting(name: Seq<char>) -> Seq<char> {
    "Hello, "@ + name + "! You've been greeted from Rust!"@
}

/// Formats the greeting for `name`. Pure: no state is read or written.
pub fn greet(name: &str) -> (res: String)
    ensures
        res@ == greeting(name@),
{
    let mut out = String::from_str("Hello, ");
    out.append(name);
    out.append("! You've been greeted from Rust!");
    out
}

} // verus!
