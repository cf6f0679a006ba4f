use vstd::prelude::*;

verus! {

/// The fixed text that the planner greets its user with.
pub open spec fn greeting_text() -> Seq<char> {
    "Hello, welcome to your day planner!"@
}

/// Returns the greeting; every call gives the same text.
pub fn get_greeting() -> (r: String)
    ensures
        r@ == greeting_text(),
{
    "Hello, welcome to your day planner!".to_owned()
}

} // verus!
