use vstd::prelude::*;
use vstd::string::StringExecFns;

verus! {

/// The greeting the demo command returns for a caller named `name`.
pub open spec fn greeting_of(name: Seq<char>) -> Seq<char> {
    "Hello, "@ + name + "! You've been greeted from Rust!"@
}

/// Builds the demo greeting for `name`.
pub fn greet(name: &str) -> (r: String)
    ensures
        r@ == greeting_of(name@),
{
    let mut r = String::from_str("Hello, ");
    r.append(name);
    r.append("! You've been greeted from Rust!");
    r
}

} // verus!
