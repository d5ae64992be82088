use vstd::prelude::*;

verus! {

/// The greeting that the frontend's `greet` command answers for `name`.
pub open spec fn greeting_of(name: Seq<char>) -> Seq<char> {
    "Hello, "@ + name + "! You've been greeted from Rust!"@
}

/// Greets `name` for the frontend's `greet` command.
pub fn greet(name: &str) -> (r: String)
    ensures
        r@ == greeting_of(name@),
{
    let mut s = String::from_str("Hello, ");
    s.append(name);
    s.append("! You've been greeted from Rust!");
    s
}

} // verus!
