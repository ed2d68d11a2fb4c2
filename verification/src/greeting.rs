//! The greeting stub exposed beside the conversion commands.

use vstd::prelude::*;

verus! {

/// The greeting returned for a name: a fixed salutation around it.
pub open spec fn greeting_text(name: Seq<char>) -> Seq<char> {
    "Hello, "@ + name + "! You've been greeted from Rust!"@
}

/// Greets `name` with the fixed salutation.
pub fn greet(name: &str) -> (r: String)
    ensures
        r@ == greeting_text(name@),
{
    let mut r = String::from_str("Hello, ");
    r.append(name);
    r.append("! You've been greeted from Rust!");
    proof {
        assert(r@ =~= greeting_text(name@));
    }
    r
}

} // verus!

