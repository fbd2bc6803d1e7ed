use vstd::prelude::*;
use vstd::string::StringExecFns;

verus! {

/// The reply to a greeting from `name`.
pub open spec fn greeting_of(name: Seq<char>) -> Seq<char> {
    "Hello, "@ + name + "! This is Rust speaking."@
}

/// Greets `name` from the native side of the application.
pub fn greet(name: &str) -> (r: String)
    ensures
        r@ == greeting_of(name@),
{
    let mut r = String::from_str("Hello, ");
    r.append(name);
    r.append("! This is Rust speaking.");
    r
}

} // verus!
