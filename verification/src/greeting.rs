//! The greeting command.

use vstd::prelude::*;

verus! {

/// The greeting for `name`.
pub open spec fn greeting(name: Seq<char>) -> Seq<char> {
    "Hello, "@ + name + "! You've been greeted from Rust!"@
}

/// Greets `name`.
pub fn greet(name: &str) -> (s: String)
    ensures
        s@ == greeting(name@),
{
    let s = "Hello, ".to_owned();
    let s = s.concat(name);
    s.concat("! You've been greeted from Rust!")
}

} // verus!
