use vstd::prelude::*;

verus! {

/// The greeting for `name`.
pub open spec fn greeting_of(name: Seq<char>) -> Seq<char> {
    "Hello, "@ + name + "! You've been greeted from Rust!"@
}

/// Greets `name`.
pub fn greet(name: &str) -> (r: String)
    ensures
        r@ == greeting_of(name@),
{
    let s = String::from_str("Hello, ");
    let s = s.concat(name);
    s.concat("! You've been greeted from Rust!")
}

} // verus!
