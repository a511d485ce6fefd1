use vstd::prelude::*;
use vstd::string::StringExecFns;

verus! {

/// The text that `greet` answers for `name`: the name set between a fixed
/// salutation and a fixed closing, with nothing checked or changed in it.
pub open spec fn greeting_text(name: Seq<char>) -> Seq<char> {
    "Hello, "@ + name + "! You've been greeted from Rust!"@
}

/// Greets `name`. Every name is accepted, the empty one too.
pub fn greet(name: &str) -> (r: String)
    ensures
        r@ == greeting_text(name@),
{
    let mut text = String::from_str("Hello, ");
    text.append(name);
    text.append("! You've been greeted from Rust!");
    text
}

} // verus!
